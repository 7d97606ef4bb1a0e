use crate::env::{opt_view, packages_view, strings_view, CondaEnv, CondaPackage, EnvView, PackageView};
use vstd::prelude::*;

verus! {

/// The position of the first `=` in `s` at or after `i`, or the length of
/// `s` when there is none.
pub open spec fn next_eq(s: Seq<char>, i: int) -> int
    decreases s.len() - i,
{
    if i >= s.len() {
        s.len() as int
    } else if s[i] == '=' {
        i
    } else {
        next_eq(s, i + 1)
    }
}

/// An export entry `name[=version[=build]]` as a package: the text before
/// the first `=`, the piece after it if there is one, and the piece after
/// the second `=` if there is one. Pieces beyond the third are ignored; no
/// channel is set.
pub open spec fn entry_view(s: Seq<char>) -> PackageView {
    let a = next_eq(s, 0);
    let b = next_eq(s, a + 1);
    let c = next_eq(s, b + 1);
    PackageView {
        name: s.subrange(0, a),
        version: if a < s.len() {
            Some(s.subrange(a + 1, b))
        } else {
            None
        },
        build: if b < s.len() {
            Some(s.subrange(b + 1, c))
        } else {
            None
        },
        channel: None,
    }
}

/// The packages of the plain-text entries, in order; other entries, given
/// as `None`, are left out.
pub open spec fn entries_view(entries: Seq<Option<Seq<char>>>) -> Seq<PackageView>
    decreases entries.len(),
{
    if entries.len() == 0 {
        Seq::empty()
    } else {
        let rest = entries_view(entries.drop_last());
        match entries.last() {
            Some(s) => rest.push(entry_view(s)),
            None => rest,
        }
    }
}

/// The values of a sequence of optional strings.
pub open spec fn opt_strings_view(v: Seq<Option<String>>) -> Seq<Option<Seq<char>>> {
    v.map_values(|o: Option<String>| opt_view(o))
}

proof fn lemma_next_eq_bounds(s: Seq<char>, i: int)
    requires
        0 <= i,
    ensures
        i <= s.len() ==> i <= next_eq(s, i) <= s.len(),
        i > s.len() ==> next_eq(s, i) == s.len(),
    decreases s.len() - i,
{
    if i < s.len() && s[i] != '=' {
        lemma_next_eq_bounds(s, i + 1);
    }
}

fn find_eq(s: &str, from: usize, len: usize) -> (r: usize)
    requires
        len == s@.len(),
        from <= len,
    ensures
        r == next_eq(s@, from as int),
        from <= r <= len,
{
    let mut i: usize = from;
    while i < len && s.get_char(i) != '='
        invariant
            from <= i <= len,
            len == s@.len(),
            next_eq(s@, i as int) == next_eq(s@, from as int),
        decreases len - i,
    {
        i = i + 1;
    }
    i
}

/// Splits one export entry `name[=version[=build]]` at its `=` signs.
pub fn split_entry(s: &str) -> (r: CondaPackage)
    ensures
        r@ == entry_view(s@),
{
    let len = s.unicode_len();
    let a = find_eq(s, 0, len);
    let name = s.substring_char(0, a).to_owned();
    let mut version: Option<String> = None;
    let mut build: Option<String> = None;
    if a < len {
        let b = find_eq(s, a + 1, len);
        version = Some(s.substring_char(a + 1, b).to_owned());
        if b < len {
            let c = find_eq(s, b + 1, len);
            build = Some(s.substring_char(b + 1, c).to_owned());
        } else {
            proof {
                lemma_next_eq_bounds(s@, b + 1);
            }
        }
    } else {
        proof {
            lemma_next_eq_bounds(s@, a + 1);
            lemma_next_eq_bounds(s@, len + 2);
        }
    }
    CondaPackage { name, version, build, channel: None }
}

/// Reads an export document given as its `name`, its `channels` and its
/// dependency entries: each plain-text entry as `Some`, any other entry
/// (a nested list) as `None`. The plain-text entries become the native
/// packages, split by `split_entry`; the nested ones are ignored, and the
/// index package list is left empty.
pub fn conda_env_export(name: String, channels: Vec<String>, entries: &Vec<Option<String>>) -> (r:
    CondaEnv)
    ensures
        r@ == (EnvView {
            name: name@,
            channels: strings_view(channels@),
            conda_deps: entries_view(opt_strings_view(entries@)),
            pip_deps: Seq::empty(),
        }),
{
    let ghost ev = opt_strings_view(entries@);
    let mut deps: Vec<CondaPackage> = Vec::new();
    let mut i: usize = 0;
    while i < entries.len()
        invariant
            i <= entries.len(),
            ev == opt_strings_view(entries@),
            packages_view(deps@) == entries_view(ev.take(i as int)),
        decreases entries.len() - i,
    {
        proof {
            assert(ev.take(i + 1).drop_last() =~= ev.take(i as int));
            assert(ev.take(i + 1).last() == opt_view(entries@[i as int]));
        }
        match &entries[i] {
            Some(s) => {
                let p = split_entry(s.as_str());
                deps.push(p);
                proof {
                    assert(packages_view(deps@) =~= entries_view(ev.take(i as int)).push(p@));
                }
            },
            None => {},
        }
        i = i + 1;
    }
    proof {
        assert(ev.take(i as int) =~= ev);
    }
    let pip_deps: Vec<CondaPackage> = Vec::new();
    proof {
        assert(packages_view(pip_deps@) =~= Seq::empty());
    }
    CondaEnv { name, channels, conda_deps: deps, pip_deps }
}

} // verus!
