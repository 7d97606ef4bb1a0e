use crate::env::{CondaEnv, PackageView};
use crate::error::CondaError;
use vstd::prelude::*;

verus! {

/// Every package of `ds` carries a version.
pub open spec fn all_versioned(ds: Seq<PackageView>) -> bool {
    forall|i: int| 0 <= i < ds.len() ==> (#[trigger] ds[i]).version is Some
}

/// One `  - <channel>` line per channel, in order.
pub open spec fn channel_lines(cs: Seq<Seq<char>>) -> Seq<char>
    decreases cs.len(),
{
    if cs.len() == 0 {
        Seq::empty()
    } else {
        channel_lines(cs.drop_last()) + "  - "@ + cs.last() + "\n"@
    }
}

/// One `  - <name>=<version>` line per package, in order.
pub open spec fn native_lines(ds: Seq<PackageView>) -> Seq<char>
    decreases ds.len(),
{
    if ds.len() == 0 {
        Seq::empty()
    } else {
        native_lines(ds.drop_last()) + "  - "@ + ds.last().name + "="@ + ds.last().version->0
            + "\n"@
    }
}

/// One `      - <name>==<version>` line per package, in order.
pub open spec fn pip_lines(ds: Seq<PackageView>) -> Seq<char>
    decreases ds.len(),
{
    if ds.len() == 0 {
        Seq::empty()
    } else {
        pip_lines(ds.drop_last()) + "      - "@ + ds.last().name + "=="@ + ds.last().version->0
            + "\n"@
    }
}

/// The `dependencies:` header and its lines; nothing when there are no
/// native packages.
pub open spec fn native_block(ds: Seq<PackageView>) -> Seq<char> {
    if ds.len() > 0 {
        "dependencies:\n"@ + native_lines(ds)
    } else {
        Seq::empty()
    }
}

/// The nested `  - pip:` item and its lines; nothing when there are no
/// packages from the package index.
pub open spec fn pip_block(ds: Seq<PackageView>) -> Seq<char> {
    if ds.len() > 0 {
        "  - pip:\n"@ + pip_lines(ds)
    } else {
        Seq::empty()
    }
}

/// The environment document for `e`.
pub open spec fn yaml_text(e: crate::env::EnvView) -> Seq<char> {
    "name: "@ + e.name + "\n"@ + "channels:\n"@ + channel_lines(e.channels) + native_block(
        e.conda_deps,
    ) + pip_block(e.pip_deps)
}

/// Rendering succeeds exactly when every package that is written out has a
/// version.
pub open spec fn renderable(e: crate::env::EnvView) -> bool {
    all_versioned(e.conda_deps) && all_versioned(e.pip_deps)
}

impl CondaEnv {
    /// Renders the environment document: the name, the channels, the native
    /// packages under `dependencies:` and the index packages in a nested
    /// `pip:` list. Fails with `MissingVersion` when a package that would be
    /// written has no version.
    pub fn to_yaml(&self) -> (r: Result<String, CondaError>)
        ensures
            r matches Ok(t) ==> renderable(self@) && t@ == yaml_text(self@),
            r matches Err(e) ==> !renderable(self@) && e == CondaError::MissingVersion,
    {
        let mut yml = String::new();
        yml.append("name: ");
        yml.append(self.name.as_str());
        yml.append("\n");
        yml.append("channels:\n");
        let ghost head = yml@;
        let mut i: usize = 0;
        while i < self.channels.len()
            invariant
                i <= self.channels.len(),
                yml@ == head + channel_lines(self@.channels.take(i as int)),
            decreases self.channels.len() - i,
        {
            yml.append("  - ");
            yml.append(self.channels[i].as_str());
            yml.append("\n");
            proof {
                let cs = self@.channels.take(i + 1);
                assert(cs.drop_last() =~= self@.channels.take(i as int));
            }
            i = i + 1;
        }
        proof {
            assert(self@.channels.take(i as int) =~= self@.channels);
        }
        let ghost head = yml@;
        if self.conda_deps.len() > 0 {
            yml.append("dependencies:\n");
            let mut j: usize = 0;
            while j < self.conda_deps.len()
                invariant
                    j <= self.conda_deps.len(),
                    self.conda_deps.len() > 0,
                    all_versioned(self@.conda_deps.take(j as int)),
                    yml@ == head + "dependencies:\n"@ + native_lines(self@.conda_deps.take(j as int)),
                decreases self.conda_deps.len() - j,
            {
                let dep = &self.conda_deps[j];
                match &dep.version {
                    Some(v) => {
                        yml.append("  - ");
                        yml.append(dep.name.as_str());
                        yml.append("=");
                        yml.append(v.as_str());
                        yml.append("\n");
                    },
                    None => {
                        assert(self@.conda_deps[j as int].version is None);
                        return Err(CondaError::MissingVersion);
                    },
                }
                proof {
                    let ds = self@.conda_deps.take(j + 1);
                    assert(ds.drop_last() =~= self@.conda_deps.take(j as int));
                    assert(ds.last() == self@.conda_deps[j as int]);
                    assert forall|k: int| 0 <= k < ds.len() implies (#[trigger] ds[k]).version is Some by {
                        if k < j {
                            assert(ds[k] == self@.conda_deps.take(j as int)[k]);
                        }
                    }
                }
                j = j + 1;
            }
            proof {
                assert(self@.conda_deps.take(j as int) =~= self@.conda_deps);
            }
        }
        let ghost head = yml@;
        if self.pip_deps.len() > 0 {
            yml.append("  - pip:\n");
            let mut j: usize = 0;
            while j < self.pip_deps.len()
                invariant
                    j <= self.pip_deps.len(),
                    self.pip_deps.len() > 0,
                    all_versioned(self@.pip_deps.take(j as int)),
                    yml@ == head + "  - pip:\n"@ + pip_lines(self@.pip_deps.take(j as int)),
                decreases self.pip_deps.len() - j,
            {
                let dep = &self.pip_deps[j];
                match &dep.version {
                    Some(v) => {
                        yml.append("      - ");
                        yml.append(dep.name.as_str());
                        yml.append("==");
                        yml.append(v.as_str());
                        yml.append("\n");
                    },
                    None => {
                        assert(self@.pip_deps[j as int].version is None);
                        return Err(CondaError::MissingVersion);
                    },
                }
                proof {
                    let ds = self@.pip_deps.take(j + 1);
                    assert(ds.drop_last() =~= self@.pip_deps.take(j as int));
                    assert(ds.last() == self@.pip_deps[j as int]);
                    assert forall|k: int| 0 <= k < ds.len() implies (#[trigger] ds[k]).version is Some by {
                        if k < j {
                            assert(ds[k] == self@.pip_deps.take(j as int)[k]);
                        }
                    }
                }
                j = j + 1;
            }
            proof {
                assert(self@.pip_deps.take(j as int) =~= self@.pip_deps);
            }
        }
        Ok(yml)
    }
}


/// With no native packages and at least one index package, the document
/// has no `dependencies:` header: the nested `  - pip:` item and its lines
/// follow the channel lines directly.
pub proof fn lemma_index_only_rendering(e: crate::env::EnvView)
    requires
        e.conda_deps.len() == 0,
        e.pip_deps.len() > 0,
    ensures
        yaml_text(e) == "name: "@ + e.name + "\n"@ + "channels:\n"@ + channel_lines(e.channels)
            + "  - pip:\n"@ + pip_lines(e.pip_deps),
{
    let head = "name: "@ + e.name + "\n"@ + "channels:\n"@ + channel_lines(e.channels);
    assert(head + native_block(e.conda_deps) =~= head);
}

} // verus!
