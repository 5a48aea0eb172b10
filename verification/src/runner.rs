//! The process runner: a command line, the model of its child process, and
//! the verified decision steps of the spawn pipeline.
//!
//! The runner itself performs no operating-system work. The caller that does
//! (spawning the program, taking the pipe endpoints, reading them) drives
//! these steps in order: [`Popen::tokenize`], the spawn, [`Popen::record_spawn`],
//! [`Popen::stream_capture`], the reads, and [`Popen::validate_streams`].

use vstd::prelude::*;

use crate::errors::SpawnError;
use crate::tokenize::split_tokens;
use crate::tokenize::tokens_of;

verus! {

/// The model of a spawned child process: its operating-system process
/// identifier and, for each output stream, whether its readable endpoint has
/// already been taken. Each endpoint can be taken at most once.
pub struct ChildHandle {
    /// The operating-system process identifier of the child.
    pub pid: u32,
    /// Whether the standard-output endpoint was already taken.
    pub stdout_taken: bool,
    /// Whether the standard-error endpoint was already taken.
    pub stderr_taken: bool,
}

/// A process runner: holds the command line verbatim and the handle of the
/// most recently spawned child process, absent before the first spawn.
pub struct Popen {
    /// The command line, kept exactly as given.
    pub command: String,
    /// The current child-process handle, if a spawn has been recorded.
    pub child: Option<ChildHandle>,
}

/// The process identifier a runner reports: that of its current child
/// handle, or absent when no child has been spawned.
pub open spec fn spec_pid(p: Popen) -> Option<u32> {
    match p.child {
        Some(h) => Some(h.pid),
        None => None,
    }
}

/// The outcome of a stream capture on a runner: both endpoints are taken at
/// once, and the capture fails when there is no child handle or when an
/// endpoint was already taken, standard output being examined first.
pub open spec fn spec_capture_outcome(p: Popen) -> Result<(), SpawnError> {
    match p.child {
        None => Err(SpawnError::AccessError),
        Some(h) => if h.stdout_taken {
            Err(SpawnError::StdoutCaptureError)
        } else if h.stderr_taken {
            Err(SpawnError::StderrCaptureError)
        } else {
            Ok(())
        },
    }
}

/// The runner after a stream capture: every endpoint that the capture
/// reached is marked taken. Standard output is taken first, so it is marked
/// taken even when the capture then fails on standard error.
pub open spec fn spec_capture_next(p: Popen) -> Popen {
    match p.child {
        None => p,
        Some(h) => if h.stdout_taken {
            p
        } else if h.stderr_taken {
            Popen { child: Some(ChildHandle { stdout_taken: true, ..h }), ..p }
        } else {
            Popen {
                child: Some(ChildHandle { stdout_taken: true, stderr_taken: true, ..h }),
                ..p
            }
        },
    }
}

impl Popen {
    /// Creates a runner for `command`, stored verbatim; no child process
    /// exists yet.
    pub fn new(command: &str) -> (r: Popen)
        ensures
            r.command@ == command@,
            r.child is None,
    {
        Popen { command: String::from_str(command), child: None }
    }

    /// Splits the stored command line into its whitespace tokens: the
    /// program name followed by the arguments. Fails exactly when the
    /// command holds no token, that is, when it is empty or all white space.
    pub fn tokenize(&self) -> (r: Result<Vec<String>, SpawnError>)
        ensures
            r is Ok <==> tokens_of(self.command@).len() > 0,
            r matches Ok(tokens) ==> tokens.deep_view() == tokens_of(self.command@)
                && tokens@.len() > 0,
            r matches Err(e) ==> e == SpawnError::EmptyCommand,
    {
        let tokens = split_tokens(self.command.as_str());
        if tokens.len() == 0 {
            Err(SpawnError::EmptyCommand)
        } else {
            Ok(tokens)
        }
    }

    /// Records a successful spawn: the child handle is replaced by a fresh
    /// one with process identifier `pid` and both stream endpoints still
    /// available. The command line is unchanged.
    pub fn record_spawn(&mut self, pid: u32)
        ensures
            final(self).command == old(self).command,
            final(self).child == Some(
                ChildHandle { pid, stdout_taken: false, stderr_taken: false },
            ),
    {
        self.child = Some(ChildHandle { pid, stdout_taken: false, stderr_taken: false });
    }

    /// Takes both stream endpoints of the current child handle, standard
    /// output first. Fails with `AccessError` when no child exists, with
    /// `StdoutCaptureError` when standard output was already taken, and
    /// with `StderrCaptureError` when only standard error was; an endpoint
    /// reached before the failing one still counts as taken.
    pub fn stream_capture(&mut self) -> (r: Result<(), SpawnError>)
        ensures
            r == spec_capture_outcome(*old(self)),
            *final(self) == spec_capture_next(*old(self)),
            final(self).command == old(self).command,
    {
        match &mut self.child {
            None => Err(SpawnError::AccessError),
            Some(h) => {
                if h.stdout_taken {
                    Err(SpawnError::StdoutCaptureError)
                } else {
                    h.stdout_taken = true;
                    if h.stderr_taken {
                        Err(SpawnError::StderrCaptureError)
                    } else {
                        h.stderr_taken = true;
                        Ok(())
                    }
                }
            },
        }
    }

    /// The operating-system process identifier of the current child handle,
    /// or absent when no spawn has been recorded. Never fails and changes
    /// nothing.
    pub fn pid(&mut self) -> (r: Option<u32>)
        ensures
            r == spec_pid(*old(self)),
            *final(self) == *old(self),
    {
        match &self.child {
            Some(h) => Some(h.pid),
            None => None,
        }
    }

    /// The final validation of a spawn: succeeds with the captured standard
    /// output exactly when the captured standard error is empty, and fails
    /// with `StderrNotEmpty` carrying the full standard-error text
    /// otherwise. The standard output read so far is discarded on failure.
    pub fn validate_streams(stdout: String, stderr: String) -> (r: Result<String, SpawnError>)
        ensures
            stderr@.len() == 0 ==> r == Ok::<String, SpawnError>(stdout),
            stderr@.len() > 0 ==> r == Err::<String, SpawnError>(
                SpawnError::StderrNotEmpty(stderr),
            ),
    {
        if stderr.as_str().is_empty() {
            Ok(stdout)
        } else {
            Err(SpawnError::StderrNotEmpty(stderr))
        }
    }
}

/// A runner reports a process identifier exactly while it holds a child
/// handle: absent before any spawn was recorded, and after a recorded spawn
/// exactly the identifier that was recorded.
pub proof fn lemma_pid_lifecycle(p: Popen, q: Popen, id: u32)
    requires
        p.child is None,
        q.child == Some(ChildHandle { pid: id, stdout_taken: false, stderr_taken: false }),
    ensures
        spec_pid(p) is None,
        spec_pid(q) == Some(id),
{
}

/// Stream capture is not reentrant: after a capture that succeeded, a second
/// capture of the same handle fails, on the standard-output endpoint, and
/// leaves the runner unchanged.
pub proof fn lemma_capture_not_reentrant(p: Popen)
    requires
        spec_capture_outcome(p) is Ok,
    ensures
        spec_capture_outcome(spec_capture_next(p)) == Err::<(), SpawnError>(
            SpawnError::StdoutCaptureError,
        ),
        spec_capture_next(spec_capture_next(p)) == spec_capture_next(p),
{
}

} // verus!
