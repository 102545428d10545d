//! Task identifiers, pipeline steps, and the fixed task-to-pipeline table.
//!
//! A task is a user-invokable unit of work; its pipeline is the fixed ordered
//! sequence of external-process steps that implement it. The table below is
//! plain data: composition and ordering are stated once, in `spec_pipeline`,
//! and the executable builder is proved to match it.

use vstd::prelude::*;

verus! {

/// A named, user-invokable unit of work.
#[derive(Clone, Copy, Debug, PartialEq, Eq, Structural)]
pub enum TaskId {
    /// Generate the project documentation.
    Docs,
    /// Run the test suites.
    Test,
    /// Full continuous-integration pass.
    Ci,
    /// Format the systems-language sources.
    Fmt,
    /// Lint the systems-language sources with warnings elevated to errors.
    Lint,
    /// Build the systems-language crate.
    Build,
    /// Report which toolchain pieces are present in the environment.
    Doctor,
}

/// One external-process invocation within a pipeline, named abstractly.
/// The concrete binary candidates, arguments, and working directory of each
/// step are given by `crate::command`.
#[derive(Clone, Copy, Debug, PartialEq, Eq, Structural)]
pub enum Step {
    /// Rewrite source formatting in place.
    FmtApply,
    /// Check formatting without rewriting anything.
    FmtCheck,
    /// Static analysis with warnings treated as errors.
    LintStrict,
    /// Build the systems-language crate.
    BuildCrate,
    /// Run the systems-language test suite.
    RustTest,
    /// Run the documentation generator script.
    DocsGen,
    /// Run the scripting-language test suite.
    PyTest,
    /// Probe: is the systems-language compiler present?
    ProbeRustc,
    /// Probe: is the systems-language package manager present?
    ProbeCargo,
    /// Probe: is a scripting-language interpreter present?
    ProbePython,
    /// Probe: does the test-runner module load under the interpreter?
    ProbePytest,
}

/// The fixed ordered pipeline of each task.
///
/// `Ci` is the fixed concatenation of a format check, the lint, the
/// systems-language tests, documentation generation, and the
/// scripting-language tests, in that order; every step runs even when an
/// earlier one failed, so the order here is exactly the execution order.
pub open spec fn spec_pipeline(task: TaskId) -> Seq<Step> {
    match task {
        TaskId::Docs => seq![Step::BuildCrate, Step::DocsGen],
        TaskId::Test => seq![Step::RustTest, Step::PyTest],
        TaskId::Ci => seq![
            Step::FmtCheck,
            Step::LintStrict,
            Step::RustTest,
            Step::DocsGen,
            Step::PyTest,
        ],
        TaskId::Fmt => seq![Step::FmtApply],
        TaskId::Lint => seq![Step::LintStrict],
        TaskId::Build => seq![Step::BuildCrate],
        TaskId::Doctor => seq![
            Step::ProbeRustc,
            Step::ProbeCargo,
            Step::ProbePython,
            Step::ProbePytest,
        ],
    }
}

/// Build the pipeline of a task as a vector, in execution order.
pub fn pipeline_of(task: TaskId) -> (steps: Vec<Step>)
    ensures
        steps@ == spec_pipeline(task),
{
    let mut steps: Vec<Step> = Vec::new();
    match task {
        TaskId::Docs => {
            steps.push(Step::BuildCrate);
            steps.push(Step::DocsGen);
        }
        TaskId::Test => {
            steps.push(Step::RustTest);
            steps.push(Step::PyTest);
        }
        TaskId::Ci => {
            steps.push(Step::FmtCheck);
            steps.push(Step::LintStrict);
            steps.push(Step::RustTest);
            steps.push(Step::DocsGen);
            steps.push(Step::PyTest);
        }
        TaskId::Fmt => {
            steps.push(Step::FmtApply);
        }
        TaskId::Lint => {
            steps.push(Step::LintStrict);
        }
        TaskId::Build => {
            steps.push(Step::BuildCrate);
        }
        TaskId::Doctor => {
            steps.push(Step::ProbeRustc);
            steps.push(Step::ProbeCargo);
            steps.push(Step::ProbePython);
            steps.push(Step::ProbePytest);
        }
    }
    proof {
        assert(steps@ =~= spec_pipeline(task));
    }
    steps
}

/// Whether a task needs the project root located before any step runs.
/// Doctor's probes are pure version queries and run anywhere.
pub open spec fn spec_needs_root(task: TaskId) -> bool {
    task != TaskId::Doctor
}

/// Whether a task needs a project root located before any step can run.
pub fn needs_root(task: TaskId) -> (b: bool)
    ensures
        b == spec_needs_root(task),
{
    !matches!(task, TaskId::Doctor)
}

/// Whether a task's pipeline contains a step run under the scripting-language
/// interpreter, so that the interpreter must be resolved up front.
pub open spec fn spec_needs_interpreter(task: TaskId) -> bool {
    spec_pipeline(task).contains(Step::DocsGen) || spec_pipeline(task).contains(Step::PyTest)
}

/// Whether the interpreter must be resolved before the task's pipeline runs.
pub fn needs_interpreter(task: TaskId) -> (b: bool)
    ensures
        b == spec_needs_interpreter(task),
{
    let b = matches!(task, TaskId::Docs | TaskId::Test | TaskId::Ci);
    proof {
        if b {
            assert(spec_pipeline(task).contains(Step::DocsGen) || spec_pipeline(task).contains(
                Step::PyTest,
            )) by {
                match task {
                    TaskId::Docs => assert(spec_pipeline(task)[1] == Step::DocsGen),
                    TaskId::Test => assert(spec_pipeline(task)[1] == Step::PyTest),
                    TaskId::Ci => assert(spec_pipeline(task)[3] == Step::DocsGen),
                    _ => (),
                }
            }
        } else {
            assert(forall|i: int| 0 <= i < spec_pipeline(task).len() ==> spec_pipeline(task)[i]
                != Step::DocsGen && spec_pipeline(task)[i] != Step::PyTest);
        }
    }
    b
}

/// The continuous-integration pipeline has a fixed step order: format check,
/// then lint, then the systems-language tests, then documentation generation,
/// then the scripting-language tests — and nothing else.
pub proof fn lemma_ci_step_order()
    ensures
        spec_pipeline(TaskId::Ci) == seq![
            Step::FmtCheck,
            Step::LintStrict,
            Step::RustTest,
            Step::DocsGen,
            Step::PyTest,
        ],
{
}

} // verus!
