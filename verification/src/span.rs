//! The unit of tracing data that flows through the batching layer.
//!
//! How spans are created and annotated belongs to the tracing-API
//! collaborator; this crate only moves finished records from the producers to
//! the exporter, so a record carries just enough to be counted and ordered.

use vstd::prelude::*;

verus! {

/// One finished span: a recorded operation with its identifiers and its
/// start and end instants (in collaborator-defined time units).
#[derive(Clone, Copy, Debug, PartialEq, Eq, Structural)]
pub struct SpanRecord {
    /// Identifier of the trace this span belongs to.
    pub trace_id: u64,
    /// Identifier of this span within its trace.
    pub span_id: u64,
    /// Instant at which the recorded operation started.
    pub start_time: u64,
    /// Instant at which the recorded operation ended.
    pub end_time: u64,
}

} // verus!
