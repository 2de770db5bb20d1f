//! Which install commands a fetched component needs, judged by the manifest
//! files found in its directory.
use vstd::prelude::*;
use vstd::string::*;

verus! {

/// The manifest files present in a component's directory.
#[derive(PartialEq, Eq, Structural, Clone, Copy, Debug)]
pub struct ManifestMarkers {
    /// A package-manager manifest (`package.json`).
    pub package_json: bool,
    /// A build-tool manifest (`foundry.toml`).
    pub foundry_toml: bool,
    /// A remapping file (`remappings.txt`).
    pub remappings_txt: bool,
}

/// Where an install command runs.
#[derive(PartialEq, Eq, Structural, Clone, Copy, Debug)]
pub enum RunIn {
    /// The component's own directory.
    Component,
    /// The workspace root.
    Workspace,
}

/// One install command: a program, its arguments and where it runs.
pub struct InstallRun {
    pub program: String,
    pub args: Vec<String>,
    pub run_in: RunIn,
}

pub open spec fn args_view(v: Seq<String>) -> Seq<Seq<char>> {
    v.map_values(|s: String| s@)
}

pub open spec fn is_npm_run(r: InstallRun) -> bool {
    r.program@ == "npm"@ && args_view(r.args@) == seq!["install"@] && r.run_in == RunIn::Component
}

pub open spec fn is_forge_run(r: InstallRun, component: Seq<char>) -> bool {
    &&& r.program@ == "forge"@
    &&& args_view(r.args@) == seq!["install"@, component, "--no-commit"@]
    &&& r.run_in == RunIn::Workspace
}

/// The install commands for a component, run one after the other: the
/// package manager's where a package manifest is present, then the build
/// tool's where its manifest or a remapping file is. No marker, no command.
pub fn install_plan(markers: ManifestMarkers, component: &str) -> (r: Vec<InstallRun>)
    ensures
        r@.len() == (if markers.package_json { 1int } else { 0int }) + (if markers.foundry_toml
            || markers.remappings_txt { 1int } else { 0int }),
        markers.package_json ==> is_npm_run(r@[0]),
        markers.foundry_toml || markers.remappings_txt ==> is_forge_run(r@.last(), component@),
{
    let mut r: Vec<InstallRun> = Vec::new();
    if markers.package_json {
        let mut args: Vec<String> = Vec::new();
        args.push(String::from_str("install"));
        assert(args_view(args@) =~= seq!["install"@]);
        r.push(InstallRun { program: String::from_str("npm"), args, run_in: RunIn::Component });
    }
    if markers.foundry_toml || markers.remappings_txt {
        let mut args: Vec<String> = Vec::new();
        args.push(String::from_str("install"));
        args.push(String::from_str(component));
        args.push(String::from_str("--no-commit"));
        assert(args_view(args@) =~= seq!["install"@, component@, "--no-commit"@]);
        r.push(InstallRun { program: String::from_str("forge"), args, run_in: RunIn::Workspace });
    }
    r
}

} // verus!
