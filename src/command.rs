use crate::env::strings_view;
use crate::error::CondaError;
use vstd::prelude::*;

verus! {

/// The arguments that list every environment.
pub open spec fn env_list_args_view() -> Seq<Seq<char>> {
    seq!["env"@, "list"@]
}

/// The arguments that export environment `name`: only the requested
/// packages when `from_history` holds, else the full resolved set.
pub open spec fn env_export_args_view(name: Seq<char>, from_history: bool) -> Seq<Seq<char>> {
    if from_history {
        seq!["env"@, "export"@, "--from-history"@, "-n"@, name]
    } else {
        seq!["env"@, "export"@, "-n"@, name]
    }
}

/// The arguments that list the installed packages of environment `name` as
/// a structured document.
pub open spec fn list_args_view(name: Seq<char>) -> Seq<Seq<char>> {
    seq!["list"@, "-n"@, name, "--json"@]
}

/// The words of `ws` with one space between each two.
pub open spec fn joined(ws: Seq<Seq<char>>) -> Seq<char>
    decreases ws.len(),
{
    if ws.len() == 0 {
        Seq::empty()
    } else if ws.len() == 1 {
        ws[0]
    } else {
        joined(ws.drop_last()) + " "@ + ws.last()
    }
}

fn owned(s: &str) -> (r: String)
    ensures
        r@ == s@,
{
    String::from_str(s)
}

/// The arguments that list every environment.
pub fn env_list_args() -> (r: Vec<String>)
    ensures
        strings_view(r@) == env_list_args_view(),
{
    let r = vec![owned("env"), owned("list")];
    proof {
        assert(strings_view(r@) =~= env_list_args_view());
    }
    r
}

/// The arguments that export environment `env_name`, only its requested
/// packages when `from_history` holds.
pub fn env_export_args(env_name: &str, from_history: bool) -> (r: Vec<String>)
    ensures
        strings_view(r@) == env_export_args_view(env_name@, from_history),
{
    let r = if from_history {
        vec![owned("env"), owned("export"), owned("--from-history"), owned("-n"), owned(env_name)]
    } else {
        vec![owned("env"), owned("export"), owned("-n"), owned(env_name)]
    };
    proof {
        assert(strings_view(r@) =~= env_export_args_view(env_name@, from_history));
    }
    r
}

/// The arguments that list the installed packages of `env_name`.
pub fn list_args(env_name: &str) -> (r: Vec<String>)
    ensures
        strings_view(r@) == list_args_view(env_name@),
{
    let r = vec![owned("list"), owned("-n"), owned(env_name), owned("--json")];
    proof {
        assert(strings_view(r@) =~= list_args_view(env_name@));
    }
    r
}

/// The arguments as one line, separated by single spaces.
pub fn join_args(args: &Vec<String>) -> (r: String)
    ensures
        r@ == joined(strings_view(args@)),
{
    let mut line = String::new();
    let mut i: usize = 0;
    while i < args.len()
        invariant
            i <= args.len(),
            line@ == joined(strings_view(args@).take(i as int)),
        decreases args.len() - i,
    {
        proof {
            let ws = strings_view(args@).take(i + 1);
            assert(ws.drop_last() =~= strings_view(args@).take(i as int));
            assert(ws.last() == args@[i as int]@);
            if i == 0 {
                assert(ws[0] == args@[0]@);
            }
        }
        if i > 0 {
            line.append(" ");
        }
        line.append(args[i].as_str());
        i = i + 1;
    }
    proof {
        assert(strings_view(args@).take(i as int) =~= strings_view(args@));
    }
    line
}

/// Judges one run of the package manager with arguments `args`: a
/// successful exit is `Ok`; any other gives `CondaCommandFailed` with the
/// arguments joined by spaces and the error text `stderr`.
pub fn check_command_status(args: &Vec<String>, success: bool, stderr: String) -> (r: Result<
    (),
    CondaError,
>)
    ensures
        r is Ok <==> success,
        r matches Err(e) ==> e matches CondaError::CondaCommandFailed(c, t) && c@ == joined(
            strings_view(args@),
        ) && t@ == stderr@,
{
    if success {
        Ok(())
    } else {
        Err(CondaError::CondaCommandFailed(join_args(args), stderr))
    }
}

} // verus!
