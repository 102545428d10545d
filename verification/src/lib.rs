//! Core of a small developer-experience task runner: subcommand dispatch,
//! project-root discovery, tool-candidate resolution, and aggregation of
//! external-process outcomes into one exit status.
//!
//! The library is pure orchestration logic. Everything that touches the
//! outside world (spawning child processes, probing the filesystem, parsing
//! command-line arguments) lives in the surrounding binary, which feeds the
//! observed outcomes back into the state machines defined here.

pub mod command;
pub mod dispatch;
pub mod locate;
pub mod resolve;
pub mod run;
pub mod task;
