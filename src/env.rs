use vstd::prelude::*;

verus! {

/// One package: its name, and where known its version, its build string and
/// the channel it was installed from.
#[derive(Debug, PartialEq, Eq)]
pub struct CondaPackage {
    pub name: String,
    pub version: Option<String>,
    pub build: Option<String>,
    pub channel: Option<String>,
}

/// The mathematical value of a package.
pub struct PackageView {
    pub name: Seq<char>,
    pub version: Option<Seq<char>>,
    pub build: Option<Seq<char>>,
    pub channel: Option<Seq<char>>,
}

/// The value of an optional string.
pub open spec fn opt_view(o: Option<String>) -> Option<Seq<char>> {
    match o {
        Some(s) => Some(s@),
        None => None,
    }
}

impl View for CondaPackage {
    type V = PackageView;

    open spec fn view(&self) -> PackageView {
        PackageView {
            name: self.name@,
            version: opt_view(self.version),
            build: opt_view(self.build),
            channel: opt_view(self.channel),
        }
    }
}

/// The values of a sequence of strings.
pub open spec fn strings_view(v: Seq<String>) -> Seq<Seq<char>> {
    v.map_values(|s: String| s@)
}

/// The values of a sequence of packages.
pub open spec fn packages_view(v: Seq<CondaPackage>) -> Seq<PackageView> {
    v.map_values(|p: CondaPackage| p@)
}

fn copy_string_opt(o: &Option<String>) -> (r: Option<String>)
    ensures
        opt_view(r) == opt_view(*o),
{
    match o {
        Some(s) => Some(s.clone()),
        None => None,
    }
}

impl CondaPackage {
    pub fn new(
        name: String,
        version: Option<String>,
        build: Option<String>,
        channel: Option<String>,
    ) -> (r: CondaPackage)
        ensures
            r.name == name,
            r.version == version,
            r.build == build,
            r.channel == channel,
    {
        CondaPackage { name, version, build, channel }
    }

    /// A copy with the same value.
    pub fn duplicate(&self) -> (r: CondaPackage)
        ensures
            r@ == self@,
    {
        CondaPackage {
            name: self.name.clone(),
            version: copy_string_opt(&self.version),
            build: copy_string_opt(&self.build),
            channel: copy_string_opt(&self.channel),
        }
    }
}

/// A sharable environment: its name, its channels in priority order, the
/// packages requested through the native package manager, and those
/// installed from the language's package index.
#[derive(Debug, PartialEq, Eq)]
pub struct CondaEnv {
    pub name: String,
    pub channels: Vec<String>,
    pub conda_deps: Vec<CondaPackage>,
    pub pip_deps: Vec<CondaPackage>,
}

/// The mathematical value of an environment descriptor.
pub struct EnvView {
    pub name: Seq<char>,
    pub channels: Seq<Seq<char>>,
    pub conda_deps: Seq<PackageView>,
    pub pip_deps: Seq<PackageView>,
}

impl View for CondaEnv {
    type V = EnvView;

    open spec fn view(&self) -> EnvView {
        EnvView {
            name: self.name@,
            channels: strings_view(self.channels@),
            conda_deps: packages_view(self.conda_deps@),
            pip_deps: packages_view(self.pip_deps@),
        }
    }
}

impl CondaEnv {
    pub fn new(
        name: String,
        channels: Vec<String>,
        conda_deps: Vec<CondaPackage>,
        pip_deps: Vec<CondaPackage>,
    ) -> (r: CondaEnv)
        ensures
            r.name == name,
            r.channels == channels,
            r.conda_deps == conda_deps,
            r.pip_deps == pip_deps,
    {
        CondaEnv { name, channels, conda_deps, pip_deps }
    }
}

} // verus!
