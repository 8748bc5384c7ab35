//! The failure taxonomy of the pipeline.
//!
//! Every failure is plain, self-contained data: a kind plus the diagnostic
//! message captured from the failing stage.  No failure value is a handle
//! into the resource that produced it, so reporting one request's failure
//! can never poison another request.

use vstd::prelude::*;

verus! {

/// A typed failure of one pipeline stage.
#[derive(Debug, Clone, PartialEq, Eq)]
pub enum Failure {
    /// Source or input text could not be persisted; carries the
    /// underlying I/O message.
    WriteFailure(String),
    /// The compiler process exited with a failure status; carries the
    /// captured compiler stderr.
    CompileFailure(String),
    /// The compiled artifact exited with a failure status or was killed
    /// by a signal; carries the captured stderr, or a synthesized message
    /// when stderr was empty.
    ExecutionFailure(String),
    /// The workspace could not be created, or a process could not be
    /// spawned at all; carries the underlying OS message.
    ResourceFailure(String),
}

/// The diagnostic text a failure carries.
pub open spec fn spec_message(f: Failure) -> Seq<char> {
    match f {
        Failure::WriteFailure(m) => m@,
        Failure::CompileFailure(m) => m@,
        Failure::ExecutionFailure(m) => m@,
        Failure::ResourceFailure(m) => m@,
    }
}

impl Failure {
    /// The diagnostic text this failure carries, whatever its kind.
    pub fn message(&self) -> (r: &str)
        ensures
            r@ == spec_message(*self),
    {
        match self {
            Failure::WriteFailure(m) => m.as_str(),
            Failure::CompileFailure(m) => m.as_str(),
            Failure::ExecutionFailure(m) => m.as_str(),
            Failure::ResourceFailure(m) => m.as_str(),
        }
    }

    /// Surrenders the diagnostic text this failure carries.
    pub fn into_message(self) -> (r: String)
        ensures
            r@ == spec_message(self),
    {
        match self {
            Failure::WriteFailure(m) => m,
            Failure::CompileFailure(m) => m,
            Failure::ExecutionFailure(m) => m,
            Failure::ResourceFailure(m) => m,
        }
    }
}

} // verus!
