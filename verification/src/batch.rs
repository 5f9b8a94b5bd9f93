//! The batching layer between span producers and the exporter.
//!
//! A `BatchProcessor` buffers finished spans so that they leave the process
//! in batches rather than one network call per span. Producers only ever
//! touch the buffer: they never wait on the network. The periodic flush and
//! the final drain hand whole batches to the exporter collaborator; if the
//! collaborator fails to deliver one, the batch is dropped — tracing is
//! best-effort and a failed flush never reaches span-producing code.

use vstd::prelude::*;
use crate::exporter::{ExporterConfig, ExporterView};
use crate::span::SpanRecord;

verus! {

/// The mathematical content of a `BatchProcessor`.
#[verifier::ext_equal]
pub struct BatchView {
    /// Whether new spans are still admitted.
    pub accepting: bool,
    /// The spans buffered and not yet handed to the exporter, oldest first.
    pub pending: Seq<SpanRecord>,
    /// The exporter configuration batches are shipped with.
    pub exporter: ExporterView,
}

/// What one enqueue does: an admitted span is appended to the buffer; after
/// the processor stopped accepting, the span is dropped and nothing changes.
pub open spec fn enqueue_step(pre: BatchView, span: SpanRecord) -> BatchView {
    if pre.accepting {
        BatchView { pending: pre.pending.push(span), ..pre }
    } else {
        pre
    }
}

/// What one flush does: every buffered span leaves, in order, as the batch
/// handed to the exporter; admission is not affected.
pub open spec fn take_step(pre: BatchView) -> (BatchView, Seq<SpanRecord>) {
    (BatchView { pending: Seq::empty(), ..pre }, pre.pending)
}

/// What stopping does: no further span is admitted; what is already buffered
/// stays, awaiting the final drain.
pub open spec fn stop_step(pre: BatchView) -> BatchView {
    BatchView { accepting: false, ..pre }
}

/// Buffers finished spans and hands them out in batches. Owns the exporter
/// configuration for its lifetime; created accepting and empty, stopped only
/// by the shutdown procedure.
#[derive(Debug)]
pub struct BatchProcessor {
    exporter: ExporterConfig,
    accepting: bool,
    buffer: Vec<SpanRecord>,
}

impl View for BatchProcessor {
    type V = BatchView;

    closed spec fn view(&self) -> BatchView {
        BatchView { accepting: self.accepting, pending: self.buffer@, exporter: self.exporter@ }
    }
}

impl BatchProcessor {
    /// Wraps an exporter in a fresh, empty, accepting buffer.
    pub fn new(exporter: ExporterConfig) -> (r: BatchProcessor)
        ensures
            r@ == (BatchView {
                accepting: true,
                pending: Seq::<SpanRecord>::empty(),
                exporter: exporter@,
            }),
    {
        let r = BatchProcessor { exporter, accepting: true, buffer: Vec::new() };
        proof {
            assert(r@ =~= BatchView {
                accepting: true,
                pending: Seq::<SpanRecord>::empty(),
                exporter: r.exporter@,
            });
        }
        r
    }

    /// Admits one finished span. Never blocks on the network and never fails:
    /// after the processor stopped accepting, the span is silently dropped.
    pub fn enqueue(&mut self, span: SpanRecord)
        ensures
            final(self)@ == enqueue_step(old(self)@, span),
    {
        if self.accepting {
            self.buffer.push(span);
        }
        proof {
            assert(self@ =~= enqueue_step(old(self)@, span));
        }
    }

    /// Takes every buffered span out, oldest first, as the next batch for the
    /// exporter. The caller ships the batch; if delivery fails, the batch is
    /// dropped and nothing here changes — producers never observe it.
    pub fn take_batch(&mut self) -> (batch: Vec<SpanRecord>)
        ensures
            (final(self)@, batch@) == take_step(old(self)@),
    {
        let mut batch: Vec<SpanRecord> = Vec::new();
        core::mem::swap(&mut batch, &mut self.buffer);
        proof {
            assert(self@ =~= take_step(old(self)@).0);
        }
        batch
    }

    /// Stops admitting new spans. What is already buffered stays for the
    /// final drain.
    pub fn stop(&mut self)
        ensures
            final(self)@ == stop_step(old(self)@),
    {
        self.accepting = false;
        proof {
            assert(self@ =~= stop_step(old(self)@));
        }
    }

    /// Whether new spans are still admitted.
    pub fn is_accepting(&self) -> (r: bool)
        ensures
            r == self@.accepting,
    {
        self.accepting
    }

    /// How many spans are buffered and not yet handed to the exporter.
    pub fn pending_count(&self) -> (r: usize)
        ensures
            r == self@.pending.len(),
    {
        self.buffer.len()
    }

    /// The exporter configuration this processor ships batches with.
    pub fn exporter(&self) -> (r: &ExporterConfig)
        ensures
            r@ == self@.exporter,
    {
        &self.exporter
    }
}

} // verus!
