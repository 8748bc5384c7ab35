//! The compile stage.
//!
//! The driver spawns the backend's compiler on the source file and reports
//! what happened as a [`ProcessEvent`].  This module decides what the
//! event means: success is determined solely by the process's reported
//! exit status — never by whether a captured stream happens to be empty,
//! a heuristic that a silent or a warning-emitting compiler breaks.

use vstd::prelude::*;

use crate::failure::Failure;

verus! {

/// What the driver observed when it tried to run an external process:
/// either the process could not be spawned at all, or it ran to completion
/// with an exit status and captured output streams.
pub enum ProcessEvent {
    /// The process could not be spawned (binary missing, permission
    /// error); carries the underlying OS message.
    SpawnFailed(String),
    /// The process ran to completion.  `success` is the exit status's
    /// verdict; `stdout` and `stderr` are the captured streams.
    Exited { success: bool, stdout: String, stderr: String },
}

/// The outcome of the compile stage for a given process event: a spawn
/// failure is a `ResourceFailure`, a failing exit status is a
/// `CompileFailure` carrying the captured stderr verbatim, and a
/// successful exit status — and nothing else — is success.
pub open spec fn spec_classify_compile(ev: ProcessEvent) -> Result<(), Failure> {
    match ev {
        ProcessEvent::SpawnFailed(m) => Err(Failure::ResourceFailure(m)),
        ProcessEvent::Exited { success, stdout, stderr } => {
            if success {
                Ok(())
            } else {
                Err(Failure::CompileFailure(stderr))
            }
        },
    }
}

/// Classifies the outcome of the compiler process.  The stage succeeds
/// exactly when the compiler exited with a success status, whatever the
/// captured streams hold.
pub fn classify_compile(ev: ProcessEvent) -> (r: Result<(), Failure>)
    ensures
        r == spec_classify_compile(ev),
        r is Ok <==> (ev matches ProcessEvent::Exited { success: true, .. }),
{
    match ev {
        ProcessEvent::SpawnFailed(m) => Err(Failure::ResourceFailure(m)),
        ProcessEvent::Exited { success, stderr, .. } => {
            if success {
                Ok(())
            } else {
                Err(Failure::CompileFailure(stderr))
            }
        },
    }
}

} // verus!
