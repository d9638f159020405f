//! Lifecycle logic for a native shell that supervises one backend process.
//!
//! The shell launches a script interpreter hosting the application's backend,
//! tracks the single resulting process handle, and terminates the process when
//! the application exits. This crate holds the decisions of that lifecycle:
//! which interpreter to launch, when a spawn may be attempted, how the tracked
//! handle changes on each outcome, and what a shutdown must signal. The
//! surrounding binary performs the OS calls (environment lookup, executable
//! resolution, spawning, killing) and feeds their results back in as plain
//! values.

pub mod failure;
pub mod launch;
pub mod supervisor;
