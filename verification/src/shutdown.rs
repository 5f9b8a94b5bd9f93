//! The one-shot shutdown capability.
//!
//! Whoever holds a `ShutdownHandle` owns the teardown of one pipeline
//! instance — also after a newer pipeline replaced it in the process-wide
//! slot. The handle drains the batching layer exactly once: the first call
//! stops admission and yields every buffered span as the final batch for the
//! exporter; every later call changes nothing and reports the
//! already-shutdown condition, so no batch is ever exported twice. Once the
//! batch came back from the transport, `flush_result` maps the transport's
//! outcome to what the caller of shutdown sees; the pipeline is terminated
//! either way.

use vstd::prelude::*;
use crate::errors::{ExportError, ShutdownError};
use crate::provider::{drain_step, record_step, ExportBatch, ExportBatchView, ProviderView, TracerProvider};
use crate::span::SpanRecord;

verus! {

/// The mathematical content of a `ShutdownHandle`.
#[verifier::ext_equal]
pub struct HandleView {
    /// Whether the one-shot drain already happened.
    pub terminated: bool,
    /// The pipeline instance this handle owns the teardown of.
    pub provider: ProviderView,
}

/// What one shutdown call does. The first call terminates the pipeline and
/// yields the final batch: exactly the spans that were pending, under the
/// provider's identity attributes. A call on a terminated handle is refused
/// and changes nothing.
pub open spec fn shutdown_step(pre: HandleView) -> (HandleView, Option<ExportBatchView>) {
    if pre.terminated {
        (pre, None)
    } else {
        let (provider, batch) = drain_step(pre.provider);
        (HandleView { terminated: true, provider }, Some(batch))
    }
}

/// What recording one finished span through the handle's pipeline does: it
/// goes through the provider's admission, which drops it once the pipeline
/// stopped accepting.
pub open spec fn handle_record_step(pre: HandleView, span: SpanRecord) -> HandleView {
    HandleView { provider: record_step(pre.provider, span), ..pre }
}

/// What the caller of shutdown is told once the transport reported on the
/// final batch: success if it was delivered, `FlushFailed` otherwise.
pub open spec fn flush_result_spec(outcome: Result<(), ExportError>) -> Result<(), ShutdownError> {
    match outcome {
        Ok(()) => Ok(()),
        Err(_) => Err(ShutdownError::FlushFailed),
    }
}

/// Maps the transport's outcome for the final batch to the result the caller
/// of shutdown sees. A delivery failure is informational: the pipeline is
/// already terminated and the process still proceeds to exit.
pub fn flush_result(outcome: Result<(), ExportError>) -> (r: Result<(), ShutdownError>)
    ensures
        r == flush_result_spec(outcome),
{
    match outcome {
        Ok(()) => Ok(()),
        Err(_) => Err(ShutdownError::FlushFailed),
    }
}

/// A single-use capability that drains one pipeline instance before process
/// exit. It owns the `TracerProvider` it tears down.
#[derive(Debug)]
pub struct ShutdownHandle {
    terminated: bool,
    provider: TracerProvider,
}

impl View for ShutdownHandle {
    type V = HandleView;

    closed spec fn view(&self) -> HandleView {
        HandleView { terminated: self.terminated, provider: self.provider@ }
    }
}

impl ShutdownHandle {
    /// Arms a handle for a freshly built pipeline instance.
    pub fn new(provider: TracerProvider) -> (r: ShutdownHandle)
        ensures
            r@ == (HandleView { terminated: false, provider: provider@ }),
    {
        let r = ShutdownHandle { terminated: false, provider };
        proof {
            assert(r@ =~= HandleView { terminated: false, provider: r.provider@ });
        }
        r
    }

    /// The one-shot drain. On the first call it stops the batching layer and
    /// returns the final batch, which the caller ships through the exporter
    /// synchronously and then feeds to `flush_result`. Every later call is a
    /// refused no-op: it returns `AlreadyShutdown` and no batch, so nothing
    /// can be exported twice.
    pub fn shutdown(&mut self) -> (r: Result<ExportBatch, ShutdownError>)
        ensures
            r matches Ok(batch) ==> (final(self)@, Some(batch@)) == shutdown_step(old(self)@),
            r matches Err(e) ==> {
                &&& (final(self)@, None::<ExportBatchView>) == shutdown_step(old(self)@)
                &&& *final(self) == *old(self)
                &&& e == ShutdownError::AlreadyShutdown
            },
            r is Ok <==> !old(self)@.terminated,
            final(self)@.terminated,
    {
        if self.terminated {
            Err(ShutdownError::AlreadyShutdown)
        } else {
            self.terminated = true;
            let batch = self.provider.drain();
            proof {
                assert(self@ =~= shutdown_step(old(self)@).0);
            }
            Ok(batch)
        }
    }

    /// Hands one finished span to the pipeline this handle owns. After the
    /// drain the batching layer no longer accepts, so the span is dropped.
    pub fn record_span(&mut self, span: SpanRecord)
        ensures
            final(self)@ == handle_record_step(old(self)@, span),
    {
        self.provider.record_span(span);
        proof {
            assert(self@ =~= handle_record_step(old(self)@, span));
        }
    }

    /// Whether the one-shot drain already happened.
    pub fn is_terminated(&self) -> (r: bool)
        ensures
            r == self@.terminated,
    {
        self.terminated
    }

    /// How many spans the owned pipeline has buffered and not yet exported.
    pub fn pending_count(&self) -> (r: usize)
        ensures
            r == self@.provider.batch.pending.len(),
    {
        self.provider.pending_count()
    }

    /// The pipeline instance this handle owns the teardown of.
    pub fn provider(&self) -> (r: &TracerProvider)
        ensures
            r@ == self@.provider,
    {
        &self.provider
    }
}

} // verus!
