//! Planning one run of the toolchain driver.
//!
//! A plan fixes everything about the run before any side effect happens:
//! which executable to spawn, its exact argument list, and which scratch
//! directory the run must use. The two ambient overrides (driver executable
//! and scratch directory) are resolved once by the caller and passed in as
//! explicit values, so the planning itself is a pure function.

use vstd::prelude::*;
use vstd::string::StringExecFns;

verus! {

/// Caller-resolved configuration for one run: the two environment overrides,
/// looked up once by the caller and handed in as plain values.
pub struct Overrides {
    /// Path of the driver executable to use instead of the default command.
    pub driver: Option<String>,
    /// Scratch directory to reuse verbatim instead of creating a fresh one.
    pub scratch_dir: Option<String>,
}

/// The scratch directory one run must use: either a caller-supplied
/// directory reused as-is (the caller manages its lifecycle), or a fresh
/// private directory to be created for exactly this run and removed when the
/// run completes.
pub enum ScratchDir {
    Provided(String),
    Fresh,
}

impl View for ScratchDir {
    type V = Option<Seq<char>>;

    open spec fn view(&self) -> Option<Seq<char>> {
        match self {
            ScratchDir::Provided(dir) => Some(dir@),
            ScratchDir::Fresh => None,
        }
    }
}

/// Everything the process runner needs for one expansion run.
pub struct Invocation {
    /// The driver executable to spawn.
    pub driver: String,
    /// Its full argument list, in order.
    pub args: Vec<String>,
    /// Which scratch directory the run must use.
    pub scratch: ScratchDir,
}

/// The driver executable: the override when one is set, otherwise the
/// well-known default command name.
pub open spec fn spec_driver(overridden: Option<Seq<char>>) -> Seq<char> {
    match overridden {
        Some(driver) => driver,
        None => "cargo"@,
    }
}

/// The selector token that restricts compilation to exactly one package:
/// its name and version joined by a colon.
pub open spec fn spec_selector(name: Seq<char>, version: Seq<char>) -> Seq<char> {
    name + ":"@ + version
}

/// The driver's full argument list: the compilation subcommand on the given
/// manifest with every optional feature enabled, restricted to the selected
/// package, followed by the flags that request expanded, pretty-printed
/// output.
pub open spec fn spec_args(manifest: Seq<char>, name: Seq<char>, version: Seq<char>) -> Seq<
    Seq<char>,
> {
    seq![
        "rustc"@,
        "--manifest-path"@,
        manifest,
        "--all-features"@,
        "-p"@,
        spec_selector(name, version),
        "--"@,
        "-Z"@,
        "unstable-options"@,
        "--pretty=expanded"@,
    ]
}

/// The driver executable for one run.
pub fn resolve_driver(overridden: &Option<String>) -> (r: String)
    ensures
        r@ == spec_driver(overridden.deep_view()),
{
    match overridden {
        Some(driver) => driver.clone(),
        None => String::from_str("cargo"),
    }
}

/// The selector token `<name>:<version>` that picks one package out of a
/// possibly multi-package workspace.
pub fn selector(name: &str, version: &str) -> (r: String)
    ensures
        r@ == spec_selector(name@, version@),
{
    let mut token = name.to_owned();
    token.append(":");
    token.append(version);
    token
}

/// The full argument list for one expansion run.
pub fn expansion_args(manifest_path: &str, name: &str, version: &str) -> (r: Vec<String>)
    ensures
        r.deep_view() == spec_args(manifest_path@, name@, version@),
{
    let mut args: Vec<String> = Vec::new();
    args.push("rustc".to_owned());
    args.push("--manifest-path".to_owned());
    args.push(manifest_path.to_owned());
    args.push("--all-features".to_owned());
    args.push("-p".to_owned());
    args.push(selector(name, version));
    args.push("--".to_owned());
    args.push("-Z".to_owned());
    args.push("unstable-options".to_owned());
    args.push("--pretty=expanded".to_owned());
    proof {
        assert(args.deep_view() =~~= spec_args(manifest_path@, name@, version@));
    }
    args
}

/// The environment variable through which the chosen scratch directory is
/// handed to the driver process.
pub fn scratch_env_var() -> (r: &'static str)
    ensures
        r@ == "CARGO_TARGET_DIR"@,
{
    "CARGO_TARGET_DIR"
}

/// Plans one expansion run from the request and the caller-resolved
/// overrides: the driver to spawn, its argument list, and the scratch
/// directory the run must use.
pub fn plan_invocation(
    manifest_path: &str,
    name: &str,
    version: &str,
    overrides: &Overrides,
) -> (p: Invocation)
    ensures
        p.driver@ == spec_driver(overrides.driver.deep_view()),
        p.args.deep_view() == spec_args(manifest_path@, name@, version@),
        p.scratch@ == overrides.scratch_dir.deep_view(),
{
    let driver = resolve_driver(&overrides.driver);
    let args = expansion_args(manifest_path, name, version);
    let scratch = match &overrides.scratch_dir {
        Some(dir) => ScratchDir::Provided(dir.clone()),
        None => ScratchDir::Fresh,
    };
    Invocation { driver, args, scratch }
}

/// Law: a run given a scratch-directory override uses exactly that directory
/// and is never directed to create a fresh one.
pub proof fn lemma_override_honored(scratch: ScratchDir, dir: String)
    requires
        scratch@ == Some(dir@),
    ensures
        scratch matches ScratchDir::Provided(p) && p@ == dir@,
{
}

/// Law: with no scratch-directory override, a run is always directed to a
/// fresh scratch directory private to that one run, so repeated runs with
/// identical inputs never share scratch state.
pub proof fn lemma_fresh_when_unset(scratch: ScratchDir)
    requires
        scratch@ is None,
    ensures
        scratch is Fresh,
{
}

} // verus!
