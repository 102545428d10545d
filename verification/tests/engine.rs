//! Scenario tests for the orchestration engine: root discovery, tool
//! resolution, pipeline execution, and result aggregation.

use devx_core::dispatch::{precheck, DispatchError};
use devx_core::locate::{locate_root, locate_step, LocateDecision};
use devx_core::resolve::ToolResolver;
use devx_core::run::{aggregate, exit_status, Execution, StepResult, EXIT_FAILURE, EXIT_OK};
use devx_core::task::{needs_interpreter, needs_root, pipeline_of, Step, TaskId};

fn strings(names: &[&str]) -> Vec<String> {
    let mut v: Vec<String> = Vec::new();
    for n in names {
        v.push(String::from(*n));
    }
    v
}

#[test]
fn locate_finds_marker_three_levels_up() {
    // Start point, two unmarked ancestors, then the marked one at depth 3.
    let probes = vec![false, false, false, true];
    assert_eq!(locate_root(&probes), Some(3));
}

#[test]
fn locate_finds_marker_at_start() {
    let probes = vec![true, false];
    assert_eq!(locate_root(&probes), Some(0));
}

#[test]
fn locate_returns_nearest_of_two_markers() {
    let probes = vec![false, true, true];
    assert_eq!(locate_root(&probes), Some(1));
}

#[test]
fn locate_fails_without_marker() {
    let probes = vec![false, false, false];
    assert_eq!(locate_root(&probes), None);
    let empty: Vec<bool> = Vec::new();
    assert_eq!(locate_root(&empty), None);
}

#[test]
fn locate_step_decisions() {
    assert_eq!(locate_step(true, true), LocateDecision::Accept);
    assert_eq!(locate_step(true, false), LocateDecision::Accept);
    assert_eq!(locate_step(false, true), LocateDecision::Ascend);
    assert_eq!(locate_step(false, false), LocateDecision::GiveUp);
}

#[test]
fn resolver_falls_back_to_second_candidate() {
    // A's probe fails, B's succeeds: resolution is B.
    let mut r = ToolResolver::new(strings(&["a-tool", "b-tool"]));
    assert_eq!(r.pending().unwrap(), "a-tool");
    r.record(false);
    assert_eq!(r.pending().unwrap(), "b-tool");
    r.record(true);
    assert!(r.pending().is_none());
    assert_eq!(r.resolution(), Some(1));
}

#[test]
fn resolver_fails_when_every_candidate_fails() {
    let mut r = ToolResolver::new(strings(&["a-tool", "b-tool"]));
    r.record(false);
    r.record(false);
    assert!(r.pending().is_none());
    assert_eq!(r.resolution(), None);
}

#[test]
fn resolver_never_probes_past_a_success() {
    // A succeeds: B is never offered for probing.
    let mut r = ToolResolver::new(strings(&["a-tool", "b-tool"]));
    assert_eq!(r.pending().unwrap(), "a-tool");
    r.record(true);
    assert!(r.pending().is_none());
    assert_eq!(r.resolution(), Some(0));
}

#[test]
fn aggregate_is_conjunction_over_all_steps() {
    // One failure among three outcomes fails the whole run.
    let results = vec![
        StepResult::passed(),
        StepResult::failed_exit(),
        StepResult::passed(),
    ];
    assert!(!aggregate(&results));
    assert_eq!(exit_status(aggregate(&results)), EXIT_FAILURE);

    let all_good = vec![StepResult::passed(), StepResult::passed()];
    assert!(aggregate(&all_good));
    assert_eq!(exit_status(aggregate(&all_good)), EXIT_OK);

    let none: Vec<StepResult> = Vec::new();
    assert!(aggregate(&none));
}

#[test]
fn step_results_carry_distinguishing_diagnostics() {
    let passed = StepResult::passed();
    assert!(passed.ok);
    let failed = StepResult::failed_exit();
    assert!(!failed.ok);
    assert_eq!(failed.note.as_deref(), Some("exited with failure status"));
    let spawn = StepResult::spawn_error();
    assert!(!spawn.ok);
    assert_eq!(spawn.note.as_deref(), Some("could not launch the command"));
}

#[test]
fn ci_pipeline_order_is_fixed() {
    let steps = pipeline_of(TaskId::Ci);
    assert_eq!(
        steps,
        vec![
            Step::FmtCheck,
            Step::LintStrict,
            Step::RustTest,
            Step::DocsGen,
            Step::PyTest,
        ]
    );
}

#[test]
fn simple_task_pipelines() {
    assert_eq!(pipeline_of(TaskId::Fmt), vec![Step::FmtApply]);
    assert_eq!(pipeline_of(TaskId::Lint), vec![Step::LintStrict]);
    assert_eq!(pipeline_of(TaskId::Build), vec![Step::BuildCrate]);
    assert_eq!(
        pipeline_of(TaskId::Test),
        vec![Step::RustTest, Step::PyTest]
    );
    assert_eq!(
        pipeline_of(TaskId::Docs),
        vec![Step::BuildCrate, Step::DocsGen]
    );
    assert_eq!(
        pipeline_of(TaskId::Doctor),
        vec![
            Step::ProbeRustc,
            Step::ProbeCargo,
            Step::ProbePython,
            Step::ProbePytest,
        ]
    );
}

#[test]
fn ci_executes_every_step_in_order_despite_failure() {
    // Instrumented run of the Ci pipeline: the second step fails, yet every
    // step is still handed out, in the fixed order.
    let mut e = Execution::new(TaskId::Ci);
    let mut seen: Vec<Step> = Vec::new();
    let mut count: usize = 0;
    while let Some(step) = e.next_step() {
        seen.push(step);
        let outcome = if count == 1 {
            StepResult::failed_exit()
        } else {
            StepResult::passed()
        };
        e.record(outcome);
        count += 1;
    }
    assert!(e.is_complete());
    assert_eq!(count, 5);
    assert_eq!(
        seen,
        vec![
            Step::FmtCheck,
            Step::LintStrict,
            Step::RustTest,
            Step::DocsGen,
            Step::PyTest,
        ]
    );
    assert!(!e.overall_ok());
    assert_eq!(exit_status(e.overall_ok()), EXIT_FAILURE);
}

#[test]
fn doctor_attempts_every_probe_when_one_fails() {
    // Four probes, probe 2 fails: all four are attempted, and the failure is
    // reported alongside the other three outcomes.
    let mut e = Execution::new(TaskId::Doctor);
    let mut attempted: Vec<Step> = Vec::new();
    let mut recorded: Vec<bool> = Vec::new();
    let mut index: usize = 0;
    while let Some(step) = e.next_step() {
        attempted.push(step);
        let ok = index != 1;
        recorded.push(ok);
        e.record(if ok {
            StepResult::passed()
        } else {
            StepResult::spawn_error()
        });
        index += 1;
    }
    assert_eq!(attempted.len(), 4);
    assert_eq!(
        attempted,
        vec![
            Step::ProbeRustc,
            Step::ProbeCargo,
            Step::ProbePython,
            Step::ProbePytest,
        ]
    );
    assert_eq!(recorded, vec![true, false, true, true]);
    assert!(e.is_complete());
    assert!(!e.overall_ok());
}

#[test]
fn precheck_requires_root_for_project_tasks() {
    assert_eq!(precheck(TaskId::Build, false, true), Err(DispatchError::RootNotFound));
    assert_eq!(precheck(TaskId::Fmt, false, false), Err(DispatchError::RootNotFound));
    assert_eq!(precheck(TaskId::Build, true, false), Ok(()));
    assert_eq!(precheck(TaskId::Doctor, false, false), Ok(()));
}

#[test]
fn precheck_requires_interpreter_for_scripted_tasks() {
    assert_eq!(precheck(TaskId::Ci, true, false), Err(DispatchError::NoUsableTool));
    assert_eq!(precheck(TaskId::Test, true, false), Err(DispatchError::NoUsableTool));
    assert_eq!(precheck(TaskId::Docs, true, false), Err(DispatchError::NoUsableTool));
    assert_eq!(precheck(TaskId::Ci, true, true), Ok(()));
    // A missing root is reported ahead of a missing tool.
    assert_eq!(precheck(TaskId::Ci, false, false), Err(DispatchError::RootNotFound));
}

#[test]
fn dispatch_error_messages() {
    assert_eq!(
        DispatchError::RootNotFound.message(),
        "could not find the project root (.git); run inside the project"
    );
    assert_eq!(
        DispatchError::NoUsableTool.message(),
        "no usable tool: every candidate binary failed its probe"
    );
}

#[test]
fn task_prerequisites() {
    assert!(needs_root(TaskId::Fmt));
    assert!(needs_root(TaskId::Lint));
    assert!(needs_root(TaskId::Build));
    assert!(needs_root(TaskId::Test));
    assert!(needs_root(TaskId::Docs));
    assert!(needs_root(TaskId::Ci));
    assert!(!needs_root(TaskId::Doctor));

    assert!(needs_interpreter(TaskId::Test));
    assert!(needs_interpreter(TaskId::Docs));
    assert!(needs_interpreter(TaskId::Ci));
    assert!(!needs_interpreter(TaskId::Fmt));
    assert!(!needs_interpreter(TaskId::Lint));
    assert!(!needs_interpreter(TaskId::Build));
    assert!(!needs_interpreter(TaskId::Doctor));
}

#[test]
fn run_build_end_to_end() {
    // Working directory three levels below the marker: the root is located in
    // exactly three upward steps, the pipeline has one build step, and the
    // exit status mirrors that step's outcome.
    let probes = vec![false, false, false, true];
    let root = locate_root(&probes);
    assert_eq!(root, Some(3));

    assert_eq!(precheck(TaskId::Build, root.is_some(), true), Ok(()));

    let mut e = Execution::new(TaskId::Build);
    assert_eq!(e.next_step(), Some(Step::BuildCrate));
    e.record(StepResult::passed());
    assert!(e.next_step().is_none());
    assert_eq!(exit_status(e.overall_ok()), 0);

    let mut failed = Execution::new(TaskId::Build);
    assert_eq!(failed.next_step(), Some(Step::BuildCrate));
    failed.record(StepResult::failed_exit());
    assert_eq!(exit_status(failed.overall_ok()), 2);
}
