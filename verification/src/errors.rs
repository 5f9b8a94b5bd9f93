//! The error taxonomy of the pipeline.
//!
//! Only two of these kinds ever reach a caller: a `BuildError` ends an
//! initialization attempt before anything global is registered, and a
//! `ShutdownError` reports what went wrong during the final drain without
//! preventing process exit. An `ExportError` describes a failed background
//! flush; it is absorbed by the batching layer (the batch is dropped) and is
//! never surfaced to code that produces spans.

use vstd::prelude::*;

verus! {

/// A failure while constructing the pipeline. Always fatal to the whole
/// initialization call; no partial global state is left behind.
#[derive(Clone, Copy, Debug, PartialEq, Eq, Structural)]
pub enum BuildError {
    /// The collector endpoint string is structurally invalid.
    EmptyEndpoint,
}

/// A failure reported by the one-shot shutdown procedure. Informational:
/// the caller should note it, but the process still proceeds to exit.
#[derive(Clone, Copy, Debug, PartialEq, Eq, Structural)]
pub enum ShutdownError {
    /// The final flush through the exporter did not succeed.
    FlushFailed,
    /// The pipeline was already shut down by an earlier call.
    AlreadyShutdown,
}

/// A failure of one background flush. Recovered locally: the batch in flight
/// is dropped and span producers never observe it.
#[derive(Clone, Copy, Debug, PartialEq, Eq, Structural)]
pub enum ExportError {
    /// The transport could not deliver the batch to the collector.
    TransportFailed,
}

impl BuildError {
    /// A short description, for callers that log the failure.
    pub fn message(&self) -> (r: &'static str)
        ensures
            r@ == "collector endpoint is empty"@,
    {
        "collector endpoint is empty"
    }
}

impl ShutdownError {
    /// A short description, for callers that log the failure.
    pub fn message(&self) -> (r: &'static str)
        ensures
            *self is FlushFailed ==> r@ == "final flush failed"@,
            *self is AlreadyShutdown ==> r@ == "pipeline already shut down"@,
    {
        match self {
            ShutdownError::FlushFailed => "final flush failed",
            ShutdownError::AlreadyShutdown => "pipeline already shut down",
        }
    }
}

} // verus!
