//! Error taxonomy of the library.
//!
//! Manifest loading fails with a `ConfigError`, path validation with a
//! `PathError`, and driving the container child process with an `ExecError`.
//! All three propagate unrecovered to the command-line boundary; nothing in
//! the library retries or masks a failure.

use vstd::prelude::*;

verus! {

/// Failure to obtain a manifest: the file is absent, or its content does not
/// fit the manifest document grammar (or lacks a required section or key).
#[derive(Clone, Copy, Debug, PartialEq, Eq, Structural)]
pub enum ConfigError {
    NotFound,
    Malformed,
}

/// Rejection of a proposed workspace path: its final component is empty, or
/// it collides with a reserved bookkeeping name.
#[derive(Clone, Copy, Debug, PartialEq, Eq, Structural)]
pub enum PathError {
    Reserved,
    Empty,
}

/// Failure of a single container execution: the child process could not be
/// spawned, or the write-then-read exchange with it could not complete.
#[derive(Clone, Copy, Debug, PartialEq, Eq, Structural)]
pub enum ExecError {
    LaunchFailed,
    CommunicationFailed,
}

} // verus!
