//! The failure taxonomy of the runner.

use vstd::prelude::*;

verus! {

/// Every failure that the library itself detects is reported through this
/// type. Transport-level failures (program not found, a failed read) arise
/// in the unverified caller that talks to the operating system and stay in
/// its own I/O error type.
#[derive(Debug)]
pub enum SpawnError {
    /// The command string held no tokens: it was empty or all whitespace,
    /// so no program name can be extracted.
    EmptyCommand,
    /// No child-process handle exists when a stream capture was attempted.
    AccessError,
    /// The standard-output endpoint of the child was already taken.
    StdoutCaptureError,
    /// The standard-error endpoint of the child was already taken.
    StderrCaptureError,
    /// The child wrote to standard error; the payload is the full captured
    /// standard-error text.
    StderrNotEmpty(String),
}

impl SpawnError {
    /// The human-readable detail of the failure, as a caller would surface
    /// it; for `StderrNotEmpty` it is the captured standard-error text.
    pub fn message(&self) -> (r: String)
        ensures
            r@ == match self {
                SpawnError::EmptyCommand => "empty command"@,
                SpawnError::AccessError => "Error accessing child process"@,
                SpawnError::StdoutCaptureError => "Failed to capture stdout"@,
                SpawnError::StderrCaptureError => "Failed to capture stderr"@,
                SpawnError::StderrNotEmpty(detail) => detail@,
            },
    {
        match self {
            SpawnError::EmptyCommand => String::from_str("empty command"),
            SpawnError::AccessError => String::from_str("Error accessing child process"),
            SpawnError::StdoutCaptureError => String::from_str("Failed to capture stdout"),
            SpawnError::StderrCaptureError => String::from_str("Failed to capture stderr"),
            SpawnError::StderrNotEmpty(detail) => detail.clone(),
        }
    }
}

} // verus!
