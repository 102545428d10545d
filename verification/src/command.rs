//! The concrete command behind each pipeline step: candidate binary names,
//! arguments, and working directory, as plain data for the surrounding binary
//! to spawn.
//!
//! A step with several candidate names (the scripting-language interpreter
//! goes by two) is run through the resolver: candidates are probed in order
//! and the first usable one is spawned. Everything else here is fixed text,
//! and each builder's contract pins that text exactly.

use vstd::prelude::*;
use crate::task::Step;

verus! {

/// The working directory of one external command, relative to the invocation.
#[derive(Clone, Copy, Debug, PartialEq, Eq, Structural)]
pub enum WorkDir {
    /// The discovered project root.
    Root,
    /// The systems-language crate directory under the root.
    RustCrate,
    /// The scripting-language tools directory under the root.
    PythonTools,
    /// Wherever the runner was invoked; used by probes that need no root.
    Current,
}

/// One external-process invocation before execution: an ordered list of
/// candidate binary names (at least one), the argument list, and the working
/// directory.
pub struct ExternalCommand {
    /// Acceptable executable names for the tool, in preference order.
    pub candidates: Vec<String>,
    /// Arguments handed to the spawned process.
    pub args: Vec<String>,
    /// Where the process runs.
    pub dir: WorkDir,
}

/// The character sequences of a sequence of strings.
pub open spec fn views_of(v: Seq<String>) -> Seq<Seq<char>> {
    v.map_values(|s: String| s@)
}

/// The candidate binary names of a step, in preference order.
pub open spec fn spec_candidates(step: Step) -> Seq<Seq<char>> {
    match step {
        Step::FmtApply => seq!["cargo"@],
        Step::FmtCheck => seq!["cargo"@],
        Step::LintStrict => seq!["cargo"@],
        Step::BuildCrate => seq!["cargo"@],
        Step::RustTest => seq!["cargo"@],
        Step::DocsGen => seq!["python"@, "python3"@],
        Step::PyTest => seq!["python"@, "python3"@],
        Step::ProbeRustc => seq!["rustc"@],
        Step::ProbeCargo => seq!["cargo"@],
        Step::ProbePython => seq!["python"@, "python3"@],
        Step::ProbePytest => seq!["python"@, "python3"@],
    }
}

/// The argument list of a step.
pub open spec fn spec_args(step: Step) -> Seq<Seq<char>> {
    match step {
        Step::FmtApply => seq!["fmt"@, "--all"@],
        Step::FmtCheck => seq!["fmt"@, "--all"@, "--"@, "--check"@],
        Step::LintStrict => seq!["clippy"@, "--all-targets"@, "--"@, "-D"@, "warnings"@],
        Step::BuildCrate => seq!["build"@],
        Step::RustTest => seq!["test"@],
        Step::DocsGen => seq!["python/tools/tools/gen_docs.py"@],
        Step::PyTest => seq!["-m"@, "pytest"@, "-q"@],
        Step::ProbeRustc => seq!["--version"@],
        Step::ProbeCargo => seq!["--version"@],
        Step::ProbePython => seq!["--version"@],
        Step::ProbePytest => seq!["-m"@, "pytest"@, "--version"@],
    }
}

/// The working directory of a step.
pub open spec fn spec_dir(step: Step) -> WorkDir {
    match step {
        Step::FmtApply => WorkDir::RustCrate,
        Step::FmtCheck => WorkDir::RustCrate,
        Step::LintStrict => WorkDir::RustCrate,
        Step::BuildCrate => WorkDir::RustCrate,
        Step::RustTest => WorkDir::RustCrate,
        Step::DocsGen => WorkDir::Root,
        Step::PyTest => WorkDir::PythonTools,
        Step::ProbeRustc => WorkDir::Current,
        Step::ProbeCargo => WorkDir::Current,
        Step::ProbePython => WorkDir::Current,
        Step::ProbePytest => WorkDir::Current,
    }
}

/// Append one string to a vector, by content.
fn push_str(v: &mut Vec<String>, s: &str)
    ensures
        views_of(final(v)@) == views_of(old(v)@).push(s@),
{
    v.push(String::from_str(s));
    proof {
        assert(views_of(v@) =~= views_of(old(v)@).push(s@));
    }
}

/// Build the concrete command of a step. The candidate names, arguments, and
/// working directory are exactly the fixed table above, and there is always
/// at least one candidate name.
pub fn command_of(step: Step) -> (c: ExternalCommand)
    ensures
        views_of(c.candidates@) == spec_candidates(step),
        views_of(c.args@) == spec_args(step),
        c.dir == spec_dir(step),
        c.candidates@.len() >= 1,
{
    let mut candidates: Vec<String> = Vec::new();
    let mut args: Vec<String> = Vec::new();
    proof {
        assert(views_of(candidates@) =~= Seq::<Seq<char>>::empty());
        assert(views_of(args@) =~= Seq::<Seq<char>>::empty());
    }
    let dir: WorkDir = match step {
        Step::FmtApply => {
            push_str(&mut candidates, "cargo");
            push_str(&mut args, "fmt");
            push_str(&mut args, "--all");
            WorkDir::RustCrate
        }
        Step::FmtCheck => {
            push_str(&mut candidates, "cargo");
            push_str(&mut args, "fmt");
            push_str(&mut args, "--all");
            push_str(&mut args, "--");
            push_str(&mut args, "--check");
            WorkDir::RustCrate
        }
        Step::LintStrict => {
            push_str(&mut candidates, "cargo");
            push_str(&mut args, "clippy");
            push_str(&mut args, "--all-targets");
            push_str(&mut args, "--");
            push_str(&mut args, "-D");
            push_str(&mut args, "warnings");
            WorkDir::RustCrate
        }
        Step::BuildCrate => {
            push_str(&mut candidates, "cargo");
            push_str(&mut args, "build");
            WorkDir::RustCrate
        }
        Step::RustTest => {
            push_str(&mut candidates, "cargo");
            push_str(&mut args, "test");
            WorkDir::RustCrate
        }
        Step::DocsGen => {
            push_str(&mut candidates, "python");
            push_str(&mut candidates, "python3");
            push_str(&mut args, "python/tools/tools/gen_docs.py");
            WorkDir::Root
        }
        Step::PyTest => {
            push_str(&mut candidates, "python");
            push_str(&mut candidates, "python3");
            push_str(&mut args, "-m");
            push_str(&mut args, "pytest");
            push_str(&mut args, "-q");
            WorkDir::PythonTools
        }
        Step::ProbeRustc => {
            push_str(&mut candidates, "rustc");
            push_str(&mut args, "--version");
            WorkDir::Current
        }
        Step::ProbeCargo => {
            push_str(&mut candidates, "cargo");
            push_str(&mut args, "--version");
            WorkDir::Current
        }
        Step::ProbePython => {
            push_str(&mut candidates, "python");
            push_str(&mut candidates, "python3");
            push_str(&mut args, "--version");
            WorkDir::Current
        }
        Step::ProbePytest => {
            push_str(&mut candidates, "python");
            push_str(&mut candidates, "python3");
            push_str(&mut args, "-m");
            push_str(&mut args, "pytest");
            push_str(&mut args, "--version");
            WorkDir::Current
        }
    };
    proof {
        assert(views_of(candidates@) =~= spec_candidates(step));
        assert(views_of(args@) =~= spec_args(step));
    }
    ExternalCommand { candidates, args, dir }
}

/// The candidate names of the scripting-language interpreter, in preference
/// order; resolved once per invocation for the tasks that need it.
pub fn interpreter_candidates() -> (v: Vec<String>)
    ensures
        views_of(v@) == seq!["python"@, "python3"@],
{
    let mut v: Vec<String> = Vec::new();
    push_str(&mut v, "python");
    push_str(&mut v, "python3");
    proof {
        assert(views_of(v@) =~= seq!["python"@, "python3"@]);
    }
    v
}

/// The fixed path of the systems-language crate, relative to the project
/// root: the directory behind `WorkDir::RustCrate`.
pub fn rust_crate_rel_path() -> (s: String)
    ensures
        s@ == "rust/devx_cli"@,
{
    String::from_str("rust/devx_cli")
}

/// The fixed path of the scripting-language tools, relative to the project
/// root: the directory behind `WorkDir::PythonTools`.
pub fn python_tools_rel_path() -> (s: String)
    ensures
        s@ == "python/tools"@,
{
    String::from_str("python/tools")
}

/// The fixed probe argument: candidate binaries are probed by running them
/// with this version-query flag, and only the exit status is examined.
pub fn probe_flag() -> (s: String)
    ensures
        s@ == "--version"@,
{
    String::from_str("--version")
}

/// The name of the root marker: the entry whose presence in a directory makes
/// that directory the project root.
pub fn root_marker_name() -> (s: String)
    ensures
        s@ == ".git"@,
{
    String::from_str(".git")
}

} // verus!
