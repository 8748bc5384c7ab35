//! The execute stage.
//!
//! The driver runs the compiled artifact and reports what happened as an
//! [`ExecEvent`].  This module makes the stage's decisions: whether the
//! input payload is persisted and the artifact's standard input redirected
//! from it (only when the payload is non-empty, so a program that reads
//! from an absent input never blocks), and how each observed outcome maps
//! to the pipeline's result.

use vstd::prelude::*;
use vstd::string::StringExecFns;

use crate::failure::Failure;

verus! {

/// The success value of a full pipeline run: the artifact's captured
/// stdout and the wall-clock time from just before its spawn to its exit.
pub struct RunOutput {
    /// The captured standard output of the artifact.
    pub stdout: String,
    /// Elapsed wall-clock nanoseconds around the run.
    pub elapsed_nanos: u64,
}

/// What the driver observed while running the compiled artifact.
pub enum ExecEvent {
    /// The input payload could not be persisted; carries the underlying
    /// I/O message.
    InputWriteFailed(String),
    /// The artifact could not be spawned; carries the underlying OS
    /// message.
    SpawnFailed(String),
    /// The artifact ran to completion.  `success` is the exit status's
    /// verdict (false also covers death by signal); `elapsed_nanos` is the
    /// measured wall-clock time around the run.
    Exited { success: bool, stdout: String, stderr: String, elapsed_nanos: u64 },
}

/// How the driver must handle the request's input payload.
#[derive(Clone, Copy, PartialEq, Eq, Structural, Debug)]
pub struct InputPlan {
    /// Whether the payload is persisted to the workspace's input file.
    pub persist_input: bool,
    /// Whether the artifact's standard input is redirected from that
    /// file.  When false the artifact gets no stdin source it could block
    /// on.
    pub redirect_stdin: bool,
}

/// Decides how the input payload is handled: a non-empty payload is
/// persisted and fed to the artifact on standard input; an empty payload
/// is neither persisted nor redirected, so the artifact never waits for
/// input that cannot arrive.
pub fn plan_input(input: &str) -> (r: InputPlan)
    ensures
        r.persist_input == (input@.len() > 0),
        r.redirect_stdin == (input@.len() > 0),
{
    let has_input = !input.is_empty();
    InputPlan { persist_input: has_input, redirect_stdin: has_input }
}

/// The message reported when the artifact failed but wrote nothing to
/// stderr.
pub open spec fn spec_synthesized_failure_message() -> Seq<char> {
    "process exited with a failure status"@
}

/// The synthesized message is never empty, so a failing run always
/// carries a non-empty diagnostic.
pub proof fn lemma_synthesized_message_nonempty()
    ensures
        spec_synthesized_failure_message().len() > 0,
{
    reveal_strlit("process exited with a failure status");
}

/// The outcome the execute stage owes for a given event: a failure to
/// persist the input is a `WriteFailure`; a failure to spawn the artifact
/// is an `ExecutionFailure` carrying the OS message; a failing exit status
/// is an `ExecutionFailure` carrying the captured stderr, or the
/// synthesized message when stderr was empty; a successful exit status —
/// and nothing else — yields the captured stdout and the measured time.
pub open spec fn spec_execute_outcome(ev: ExecEvent, r: Result<RunOutput, Failure>) -> bool {
    match ev {
        ExecEvent::InputWriteFailed(m) => r == Err::<RunOutput, Failure>(Failure::WriteFailure(m)),
        ExecEvent::SpawnFailed(m) => r == Err::<RunOutput, Failure>(
            Failure::ExecutionFailure(m),
        ),
        ExecEvent::Exited { success, stdout, stderr, elapsed_nanos } => {
            if success {
                r == Ok::<RunOutput, Failure>(
                    RunOutput { stdout: stdout, elapsed_nanos: elapsed_nanos },
                )
            } else if stderr@.len() > 0 {
                r == Err::<RunOutput, Failure>(Failure::ExecutionFailure(stderr))
            } else {
                match r {
                    Err(Failure::ExecutionFailure(m)) => m@ == spec_synthesized_failure_message(),
                    _ => false,
                }
            }
        },
    }
}

/// Classifies the outcome of running the artifact.  The stage succeeds
/// exactly when the artifact exited with a success status; a failing run
/// always carries a diagnostic, synthesized when stderr was empty.
pub fn classify_execute(ev: ExecEvent) -> (r: Result<RunOutput, Failure>)
    ensures
        spec_execute_outcome(ev, r),
        r is Ok <==> (ev matches ExecEvent::Exited { success: true, .. }),
{
    match ev {
        ExecEvent::InputWriteFailed(m) => Err(Failure::WriteFailure(m)),
        ExecEvent::SpawnFailed(m) => Err(Failure::ExecutionFailure(m)),
        ExecEvent::Exited { success, stdout, stderr, elapsed_nanos } => {
            if success {
                Ok(RunOutput { stdout, elapsed_nanos })
            } else if !stderr.as_str().is_empty() {
                Err(Failure::ExecutionFailure(stderr))
            } else {
                Err(
                    Failure::ExecutionFailure(
                        String::from_str("process exited with a failure status"),
                    ),
                )
            }
        },
    }
}

} // verus!
