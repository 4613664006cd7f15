//! A sequential check-run orchestrator: builds a fixed, ordered list of
//! verification steps (adapting one entry to the availability of an
//! optional accelerated test runner), executes them fail-fast, and maps
//! the terminal outcome to a stable process exit code.

pub mod catalog;
pub mod cli;
pub mod executor;
