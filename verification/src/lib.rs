//! Switch controller for mutually exclusive backend runner processes.
//!
//! At most one runner is active at a time; runners are controlled through
//! externally supplied start/stop/check shell commands. The library holds the
//! decision logic: resolving switch targets, sequencing the stop and start
//! scripts, classifying their failures, startup reconciliation, and fanning out
//! state-change notifications. Actually spawning the shell commands is left to
//! the embedding program, which feeds each script's outcome back in.

pub mod broadcast;
pub mod models;
pub mod runner;
pub mod switch;
