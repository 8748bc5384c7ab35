//! A verified core for an ephemeral compile-and-run service.
//!
//! A request carries a language tag, source text and an input payload.
//! The service writes the source into a fresh workspace, compiles it with
//! the language's toolchain, runs the produced artifact with the payload on
//! standard input, and reports captured output together with the elapsed
//! wall-clock time.
//!
//! This crate holds the decision core of that pipeline: the language
//! registry, workspace path derivation, the classification of each stage's
//! outcome, and the dispatcher state machine that sequences the stages and
//! short-circuits on the first failure.  The surrounding process work
//! (filesystem writes, spawning the compiler and the artifact, timing) is
//! performed by an unverified driver that reports each outcome back as an
//! event.

pub mod backend;
pub mod compiler;
pub mod executor;
pub mod failure;
pub mod lang;
pub mod pipeline;
pub mod workspace;
pub mod writer;
