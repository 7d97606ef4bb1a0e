use crate::env::{packages_view, strings_view, CondaEnv, CondaPackage, EnvView, PackageView};
use crate::catalog::{env_exists, env_not_found, copy_strings};
use crate::command::{env_export_args, env_export_args_view, list_args, list_args_view};
use crate::error::CondaError;
use crate::render::{renderable, yaml_text};
use vstd::prelude::*;

verus! {

/// The channel value that marks a package installed from the language's own
/// package index.
pub open spec fn index_marker() -> Seq<char> {
    "pypi"@
}

/// The names of the packages in `ds`, in order.
pub open spec fn names_of(ds: Seq<PackageView>) -> Seq<Seq<char>> {
    ds.map_values(|p: PackageView| p.name)
}

/// The packages of `inv`, in order, whose name is one of `names`.
pub open spec fn requested(inv: Seq<PackageView>, names: Seq<Seq<char>>) -> Seq<PackageView>
    decreases inv.len(),
{
    if inv.len() == 0 {
        Seq::empty()
    } else {
        let rest = requested(inv.drop_last(), names);
        if names.contains(inv.last().name) {
            rest.push(inv.last())
        } else {
            rest
        }
    }
}

/// The packages of `inv`, in order, installed from the package index.
pub open spec fn from_index(inv: Seq<PackageView>) -> Seq<PackageView>
    decreases inv.len(),
{
    if inv.len() == 0 {
        Seq::empty()
    } else {
        let rest = from_index(inv.drop_last());
        if inv.last().channel == Some(index_marker()) {
            rest.push(inv.last())
        } else {
            rest
        }
    }
}

/// The descriptor built from the history export, the full export and the
/// inventory: name and channels from the full export, the inventory's own
/// entries for the names that the history export requests, and the
/// inventory's entries from the package index.
pub open spec fn reconciled(history: EnvView, full: EnvView, inv: Seq<PackageView>) -> EnvView {
    EnvView {
        name: full.name,
        channels: full.channels,
        conda_deps: requested(inv, names_of(history.conda_deps)),
        pip_deps: from_index(inv),
    }
}

fn is_index_channel(channel: &Option<String>) -> (r: bool)
    ensures
        r == (crate::env::opt_view(*channel) == Some(index_marker())),
{
    match channel {
        Some(c) => {
            let marker = String::from_str("pypi");
            proof {
                reveal_strlit("pypi");
            }
            *c == marker
        },
        None => false,
    }
}

fn names_contain(ds: &Vec<CondaPackage>, name: &String) -> (r: bool)
    ensures
        r == names_of(packages_view(ds@)).contains(name@),
{
    let mut i: usize = 0;
    while i < ds.len()
        invariant
            i <= ds.len(),
            forall|k: int| 0 <= k < i ==> ds@[k].name@ != name@,
        decreases ds.len() - i,
    {
        if ds[i].name == *name {
            proof {
                assert(names_of(packages_view(ds@))[i as int] == name@);
            }
            return true;
        }
        i = i + 1;
    }
    proof {
        if names_of(packages_view(ds@)).contains(name@) {
            let k = choose|k: int|
                0 <= k < names_of(packages_view(ds@)).len() && names_of(packages_view(ds@))[k]
                    == name@;
            assert(ds@[k].name@ == name@);
        }
    }
    false
}

/// The argument lists of the queries that follow the environment listing,
/// in the order they are to be issued: none when `env_name` is not listed;
/// else the history export, the full export and the package inventory.
pub open spec fn follow_up_queries_view(env_name: Seq<char>, available: Seq<Seq<char>>) -> Seq<
    Seq<Seq<char>>,
> {
    if available.contains(env_name) {
        seq![
            env_export_args_view(env_name, true),
            env_export_args_view(env_name, false),
            list_args_view(env_name),
        ]
    } else {
        Seq::empty()
    }
}

/// The queries to run once the environment listing `available` is known;
/// an unknown name needs no further query.
pub fn follow_up_queries(env_name: &str, available: &Vec<String>) -> (r: Vec<Vec<String>>)
    ensures
        r@.len() == follow_up_queries_view(env_name@, strings_view(available@)).len(),
        forall|i: int|
            0 <= i < r@.len() ==> strings_view((#[trigger] r@[i])@) == follow_up_queries_view(
                env_name@,
                strings_view(available@),
            )[i],
{
    if env_exists(env_name, available) {
        vec![env_export_args(env_name, true), env_export_args(env_name, false), list_args(env_name)]
    } else {
        Vec::new()
    }
}

/// Reconciles the three sources of one environment into its sharable
/// descriptor. `available` is the environment listing; an unknown name
/// gives `EnvNotFound` with that listing. Otherwise the name and channels
/// come from `full`, the native packages are the inventory's entries whose
/// name the history export requests, and the index packages are the
/// inventory's entries whose channel is the package index, both in
/// inventory order.
pub fn sharable_env(
    env_name: &str,
    available: &Vec<String>,
    history: &CondaEnv,
    full: &CondaEnv,
    inventory: &Vec<CondaPackage>,
) -> (r: Result<CondaEnv, CondaError>)
    ensures
        r is Err <==> !strings_view(available@).contains(env_name@),
        r matches Ok(d) ==> d@ == reconciled(history@, full@, packages_view(inventory@)),
        r matches Err(e) ==> e matches CondaError::EnvNotFound(n, l) && n@ == env_name@
            && strings_view(l@) == strings_view(available@),
{
    if !env_exists(env_name, available) {
        return Err(env_not_found(env_name, available));
    }
    let ghost names = names_of(packages_view(history.conda_deps@));
    let ghost inv = packages_view(inventory@);
    let mut conda_deps: Vec<CondaPackage> = Vec::new();
    let mut pip_deps: Vec<CondaPackage> = Vec::new();
    let mut i: usize = 0;
    while i < inventory.len()
        invariant
            i <= inventory.len(),
            inv == packages_view(inventory@),
            names == names_of(packages_view(history.conda_deps@)),
            packages_view(conda_deps@) == requested(inv.take(i as int), names),
            packages_view(pip_deps@) == from_index(inv.take(i as int)),
        decreases inventory.len() - i,
    {
        let package = &inventory[i];
        proof {
            assert(inv.take(i + 1).drop_last() =~= inv.take(i as int));
            assert(inv.take(i + 1).last() == package@);
        }
        if names_contain(&history.conda_deps, &package.name) {
            conda_deps.push(package.duplicate());
            proof {
                assert(packages_view(conda_deps@) =~= requested(inv.take(i as int), names).push(
                    package@,
                ));
            }
        }
        if is_index_channel(&package.channel) {
            pip_deps.push(package.duplicate());
            proof {
                assert(packages_view(pip_deps@) =~= from_index(inv.take(i as int)).push(package@));
            }
        }
        i = i + 1;
    }
    proof {
        assert(inv.take(i as int) =~= inv);
    }
    Ok(CondaEnv {
        name: full.name.clone(),
        channels: copy_strings(&full.channels),
        conda_deps,
        pip_deps,
    })
}


proof fn lemma_requested_member(inv: Seq<PackageView>, names: Seq<Seq<char>>, i: int)
    requires
        0 <= i < requested(inv, names).len(),
    ensures
        names.contains(requested(inv, names)[i].name),
        inv.contains(requested(inv, names)[i]),
    decreases inv.len(),
{
    let rest = requested(inv.drop_last(), names);
    if i < rest.len() {
        lemma_requested_member(inv.drop_last(), names, i);
        let k = choose|k: int| 0 <= k < inv.drop_last().len() && inv.drop_last()[k] == rest[i];
        assert(inv[k] == rest[i]);
    } else {
        assert(inv[inv.len() - 1] == inv.last());
    }
}

proof fn lemma_from_index_member(inv: Seq<PackageView>, i: int)
    requires
        0 <= i < from_index(inv).len(),
    ensures
        from_index(inv)[i].channel == Some(index_marker()),
        inv.contains(from_index(inv)[i]),
    decreases inv.len(),
{
    let rest = from_index(inv.drop_last());
    if i < rest.len() {
        lemma_from_index_member(inv.drop_last(), i);
        let k = choose|k: int| 0 <= k < inv.drop_last().len() && inv.drop_last()[k] == rest[i];
        assert(inv[k] == rest[i]);
    } else {
        assert(inv[inv.len() - 1] == inv.last());
    }
}

/// Each native package of a reconciled descriptor has a name that the
/// history export requests, and is an inventory entry with all its fields
/// (name, version, build and channel) as the inventory gives them.
pub proof fn lemma_native_deps_requested_and_installed(
    history: EnvView,
    full: EnvView,
    inv: Seq<PackageView>,
    i: int,
)
    requires
        0 <= i < reconciled(history, full, inv).conda_deps.len(),
    ensures
        names_of(history.conda_deps).contains(reconciled(history, full, inv).conda_deps[i].name),
        inv.contains(reconciled(history, full, inv).conda_deps[i]),
{
    lemma_requested_member(inv, names_of(history.conda_deps), i);
}

/// Each index package of a reconciled descriptor has the package-index
/// channel, and is an entry of the inventory.
pub proof fn lemma_pip_deps_from_index(history: EnvView, full: EnvView, inv: Seq<PackageView>, i: int)
    requires
        0 <= i < reconciled(history, full, inv).pip_deps.len(),
    ensures
        reconciled(history, full, inv).pip_deps[i].channel == Some(index_marker()),
        inv.contains(reconciled(history, full, inv).pip_deps[i]),
{
    lemma_from_index_member(inv, i);
}

/// Building and rendering depend on the three sources alone: two builds
/// from equal sources give equal descriptors, and their renderings succeed
/// or fail alike and give the same text.
pub proof fn lemma_build_and_render_deterministic(
    history1: EnvView,
    full1: EnvView,
    inv1: Seq<PackageView>,
    history2: EnvView,
    full2: EnvView,
    inv2: Seq<PackageView>,
)
    requires
        history1 == history2,
        full1 == full2,
        inv1 == inv2,
    ensures
        reconciled(history1, full1, inv1) == reconciled(history2, full2, inv2),
        renderable(reconciled(history1, full1, inv1)) == renderable(
            reconciled(history2, full2, inv2),
        ),
        yaml_text(reconciled(history1, full1, inv1)) == yaml_text(
            reconciled(history2, full2, inv2),
        ),
{
}

} // verus!
