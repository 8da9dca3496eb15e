//! Sequential task-runner engine: an ordered list of external check commands
//! is executed one at a time, each task's verdict is recorded, and the run is
//! aggregated under a stop-on-first-failure or run-everything policy.
//!
//! The crate holds the decision logic of the runner: which task comes next,
//! how an outcome changes the run state, how the aggregate verdict and the
//! report cells are computed, and how capture-file paths are derived. The
//! surrounding process spawning and terminal painting are ordinary I/O that a
//! thin shell performs against these contracts.

pub mod capture;
pub mod command;
pub mod config;
pub mod controller;
pub mod render;
pub mod report;
pub mod support;
pub mod task;
