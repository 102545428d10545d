//! The dispatcher's resolving phase: what must be in place before any
//! external command of a task runs.
//!
//! A dispatch has two phases. First the prerequisites are resolved — the
//! project root for every task that works inside the project, and the
//! scripting-language interpreter for every task whose pipeline uses it; a
//! missing prerequisite aborts the dispatch before any pipeline step runs.
//! Then the pipeline executes to completion regardless of individual step
//! failures (see `crate::run`). Nothing is retried and nothing rolls back.

use vstd::prelude::*;
use crate::task::{TaskId, spec_needs_root, spec_needs_interpreter, needs_root, needs_interpreter};

verus! {

/// Why a dispatch was aborted before its first pipeline step.
#[derive(Clone, Copy, Debug, PartialEq, Eq, Structural)]
pub enum DispatchError {
    /// No directory from the working directory up to the filesystem root
    /// contains the root marker.
    RootNotFound,
    /// Every candidate name of a required tool failed its probe.
    NoUsableTool,
}

impl DispatchError {
    /// The diagnostic to surface before exiting with the failure status; no
    /// abort is silent.
    pub fn message(&self) -> (s: String)
        ensures
            *self == DispatchError::RootNotFound ==> s@
                == "could not find the project root (.git); run inside the project"@,
            *self == DispatchError::NoUsableTool ==> s@
                == "no usable tool: every candidate binary failed its probe"@,
    {
        match self {
            DispatchError::RootNotFound => String::from_str(
                "could not find the project root (.git); run inside the project",
            ),
            DispatchError::NoUsableTool => String::from_str(
                "no usable tool: every candidate binary failed its probe",
            ),
        }
    }
}

/// Decide whether a task may proceed to its pipeline, from the outcomes of
/// the resolving phase: whether a project root was located, and whether a
/// usable interpreter was resolved. The task proceeds exactly when every
/// prerequisite it has is met; a missing root is reported ahead of a missing
/// tool, and a prerequisite the task does not have is never a reason to
/// abort.
pub fn precheck(task: TaskId, root_found: bool, interpreter_found: bool) -> (r: Result<
    (),
    DispatchError,
>)
    ensures
        r is Ok <==> ((spec_needs_root(task) ==> root_found) && (spec_needs_interpreter(task)
            ==> interpreter_found)),
        r == Err::<(), DispatchError>(DispatchError::RootNotFound) <==> spec_needs_root(task)
            && !root_found,
        r == Err::<(), DispatchError>(DispatchError::NoUsableTool) <==> ((spec_needs_root(task)
            ==> root_found) && spec_needs_interpreter(task) && !interpreter_found),
{
    if needs_root(task) && !root_found {
        Err(DispatchError::RootNotFound)
    } else if needs_interpreter(task) && !interpreter_found {
        Err(DispatchError::NoUsableTool)
    } else {
        Ok(())
    }
}

} // verus!
