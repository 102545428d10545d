//! Sequential pipeline execution and result aggregation.
//!
//! An `Execution` walks a task's pipeline one step at a time: it hands out
//! the next step to run, the surrounding binary spawns the corresponding
//! external process, and the observed outcome is recorded. Recording never
//! shortens the pipeline, so every step is attempted whatever the earlier
//! outcomes were ("run-all" semantics, favouring diagnostic completeness);
//! the execution is complete only when every step has an outcome. The
//! aggregate outcome is the non-short-circuited conjunction of all outcomes,
//! mapped to a fixed exit-status convention: zero for overall success, one
//! designated sentinel code for every kind of failure.

use vstd::prelude::*;
use crate::task::{TaskId, Step, spec_pipeline, pipeline_of};

verus! {

/// The exit status reported when a pipeline succeeded as a whole.
pub const EXIT_OK: u8 = 0;

/// The single sentinel exit status for every failure cause: a failed step, a
/// missing project root, or no usable tool candidate.
pub const EXIT_FAILURE: u8 = 2;

/// The observed outcome of one pipeline step: whether the external process
/// ended in success, plus an optional diagnostic message. Results live only
/// until the aggregation of the pipeline they belong to.
pub struct StepResult {
    /// The process was spawned and terminated with a success status.
    pub ok: bool,
    /// A diagnostic to surface when the step failed.
    pub note: Option<String>,
}

impl StepResult {
    /// The step's external process completed with a success status.
    pub fn passed() -> (r: StepResult)
        ensures
            r.ok,
            r.note is None,
    {
        StepResult { ok: true, note: None }
    }

    /// The step's process ran but ended with a non-success status.
    pub fn failed_exit() -> (r: StepResult)
        ensures
            !r.ok,
            r.note is Some && (r.note->0)@ == "exited with failure status"@,
    {
        StepResult { ok: false, note: Some(String::from_str("exited with failure status")) }
    }

    /// The step's process could not be launched at all (binary missing or not
    /// executable). Aggregated exactly like a failed exit; only the
    /// diagnostic differs.
    pub fn spawn_error() -> (r: StepResult)
        ensures
            !r.ok,
            r.note is Some && (r.note->0)@ == "could not launch the command"@,
    {
        StepResult { ok: false, note: Some(String::from_str("could not launch the command")) }
    }
}

/// Every recorded outcome is a success.
pub open spec fn all_ok(results: Seq<StepResult>) -> bool {
    forall|i: int| 0 <= i < results.len() ==> results[i].ok
}

/// Fold a completed pipeline's outcomes into one overall result: success exactly
/// when every step succeeded. The conjunction is taken over outcomes that
/// were all observed first; nothing here short-circuits the pipeline.
pub fn aggregate(results: &Vec<StepResult>) -> (ok: bool)
    ensures
        ok == all_ok(results@),
{
    let mut ok = true;
    let mut i: usize = 0;
    while i < results.len()
        invariant
            i <= results@.len(),
            ok == (forall|j: int| 0 <= j < i ==> results@[j].ok),
        decreases results@.len() - i,
    {
        ok = ok && results[i].ok;
        i = i + 1;
    }
    ok
}

/// Map an overall outcome to the process exit-status convention.
pub fn exit_status(ok: bool) -> (code: u8)
    ensures
        code == (if ok {
            EXIT_OK
        } else {
            EXIT_FAILURE
        }),
{
    if ok {
        EXIT_OK
    } else {
        EXIT_FAILURE
    }
}

/// One in-progress run of a task's pipeline.
pub struct Execution {
    task: TaskId,
    steps: Vec<Step>,
    results: Vec<StepResult>,
}

impl Execution {
    /// The task this execution runs.
    pub closed spec fn spec_task(self) -> TaskId {
        self.task
    }

    /// The outcomes recorded so far, one per executed step, in step order.
    pub closed spec fn spec_results(self) -> Seq<StepResult> {
        self.results@
    }

    /// Structural invariant: the steps are exactly the task's pipeline, and
    /// no more outcomes are recorded than there are steps.
    pub closed spec fn wf(self) -> bool {
        &&& self.steps@ == spec_pipeline(self.task)
        &&& self.results@.len() <= self.steps@.len()
    }

    /// Every step of the pipeline has been attempted and has an outcome.
    pub open spec fn spec_complete(self) -> bool {
        self.spec_results().len() == spec_pipeline(self.spec_task()).len()
    }

    /// Start an execution of the given task, with no step run yet.
    pub fn new(task: TaskId) -> (r: Execution)
        ensures
            r.wf(),
            r.spec_task() == task,
            r.spec_results().len() == 0,
    {
        Execution { task, steps: pipeline_of(task), results: Vec::new() }
    }

    /// The next step to run: the one after the last recorded outcome. There
    /// is a next step exactly as long as some step has no outcome yet —
    /// regardless of how many earlier steps failed, so a failure never cuts
    /// the pipeline short.
    pub fn next_step(&self) -> (r: Option<Step>)
        requires
            self.wf(),
        ensures
            r is Some <==> !self.spec_complete(),
            r is Some ==> r->0 == spec_pipeline(self.spec_task())[self.spec_results().len() as int],
    {
        if self.results.len() < self.steps.len() {
            Some(self.steps[self.results.len()])
        } else {
            None
        }
    }

    /// Record the outcome of the step that `next_step` handed out.
    pub fn record(&mut self, outcome: StepResult)
        requires
            old(self).wf(),
            !old(self).spec_complete(),
        ensures
            final(self).wf(),
            final(self).spec_task() == old(self).spec_task(),
            final(self).spec_results() == old(self).spec_results().push(outcome),
    {
        self.results.push(outcome);
    }

    /// Whether every step has been attempted.
    pub fn is_complete(&self) -> (b: bool)
        requires
            self.wf(),
        ensures
            b == self.spec_complete(),
    {
        self.results.len() == self.steps.len()
    }

    /// The aggregate outcome of a completed run: success exactly when every
    /// step of the pipeline succeeded.
    pub fn overall_ok(&self) -> (ok: bool)
        requires
            self.wf(),
            self.spec_complete(),
        ensures
            ok == all_ok(self.spec_results()),
    {
        aggregate(&self.results)
    }

    /// Run-all semantics: completion never comes early. An execution is
    /// complete only when the number of recorded outcomes equals the full
    /// pipeline length of its task — whatever those outcomes were — so a run
    /// that stopped after a failure, with any step unattempted, is not
    /// complete and has a next step to run.
    pub proof fn lemma_run_all(self)
        requires
            self.wf(),
        ensures
            self.spec_complete() <==> self.spec_results().len() == spec_pipeline(
                self.spec_task(),
            ).len(),
            !self.spec_complete() ==> self.spec_results().len() < spec_pipeline(
                self.spec_task(),
            ).len(),
    {
    }
}

} // verus!
