//! The source-writing stage.
//!
//! The submitted code is persisted verbatim to the workspace's source
//! path: no reformatting or other transformation is applied, since any
//! rewrite risks corrupting valid source.  The write itself is filesystem
//! work performed by the driver; this module classifies its outcome.

use vstd::prelude::*;

use crate::failure::Failure;

verus! {

/// The failure a write outcome maps to: any I/O error while persisting
/// text becomes a `WriteFailure` carrying the underlying message.
pub open spec fn spec_classify_write(outcome: Result<(), String>) -> Result<(), Failure> {
    match outcome {
        Ok(_) => Ok(()),
        Err(m) => Err(Failure::WriteFailure(m)),
    }
}

/// Classifies the outcome of persisting the source text: success passes
/// through, and an I/O error becomes a `WriteFailure`.
pub fn classify_write(outcome: Result<(), String>) -> (r: Result<(), Failure>)
    ensures
        r == spec_classify_write(outcome),
{
    match outcome {
        Ok(_) => Ok(()),
        Err(m) => Err(Failure::WriteFailure(m)),
    }
}

} // verus!
