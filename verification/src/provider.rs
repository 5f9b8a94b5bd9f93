//! The tracer provider: one batching layer bound to one service identity.
//!
//! A `TracerProvider` is the unit of process-wide registration and the
//! factory for `Tracer` handles. It owns exactly one `BatchProcessor` and
//! exactly one `ResourceDescriptor`; every batch it lets out of the process
//! carries that descriptor's attributes.

use vstd::prelude::*;
use crate::batch::{enqueue_step, BatchProcessor, BatchView};
use crate::resource::{ResourceDescriptor, ResourceView};
use crate::span::SpanRecord;

verus! {

/// The mathematical content of a `TracerProvider`.
#[verifier::ext_equal]
pub struct ProviderView {
    /// The identity attributes stamped on every exported span.
    pub resource: ResourceView,
    /// The state of the batching layer.
    pub batch: BatchView,
}

/// The mathematical content of a `Tracer`.
#[verifier::ext_equal]
pub struct TracerView {
    /// Name of the instrumentation library the handle was derived for.
    pub instrumentation_name: Seq<char>,
    /// The identity attributes of the provider the handle was derived from.
    pub resource: ResourceView,
}

/// The mathematical content of an `ExportBatch`.
#[verifier::ext_equal]
pub struct ExportBatchView {
    /// The identity attributes the batch carries.
    pub resource: ResourceView,
    /// The finished spans shipped in this batch, oldest first.
    pub spans: Seq<SpanRecord>,
}

/// What recording a finished span does to a provider: the span goes through
/// the batching layer's admission; the identity never changes.
pub open spec fn record_step(pre: ProviderView, span: SpanRecord) -> ProviderView {
    ProviderView { batch: enqueue_step(pre.batch, span), ..pre }
}

/// What the final drain does to a provider: admission stops, the buffer
/// empties, and everything that was buffered leaves in one batch carrying the
/// provider's identity attributes.
pub open spec fn drain_step(pre: ProviderView) -> (ProviderView, ExportBatchView) {
    (
        ProviderView {
            batch: BatchView { accepting: false, pending: Seq::empty(), ..pre.batch },
            ..pre
        },
        ExportBatchView { resource: pre.resource, spans: pre.batch.pending },
    )
}

/// One batch of finished spans on its way to the collector, tagged with the
/// identity attributes of the provider that produced it.
#[derive(Debug)]
pub struct ExportBatch {
    resource: ResourceDescriptor,
    spans: Vec<SpanRecord>,
}

impl View for ExportBatch {
    type V = ExportBatchView;

    closed spec fn view(&self) -> ExportBatchView {
        ExportBatchView { resource: self.resource@, spans: self.spans@ }
    }
}

impl ExportBatch {
    /// The identity attributes this batch carries.
    pub fn resource(&self) -> (r: &ResourceDescriptor)
        ensures
            r@ == self@.resource,
    {
        &self.resource
    }

    /// The finished spans shipped in this batch, oldest first.
    pub fn spans(&self) -> (r: &Vec<SpanRecord>)
        ensures
            r@ == self@.spans,
    {
        &self.spans
    }

    /// How many spans the batch ships.
    pub fn len(&self) -> (r: usize)
        ensures
            r == self@.spans.len(),
    {
        self.spans.len()
    }
}

/// The application-facing handle for starting spans. Span creation itself
/// belongs to the tracing-API collaborator; here the handle records which
/// instrumentation library it names and which provider identity it was
/// derived from, which is what a process-wide lookup observes.
#[derive(Debug)]
pub struct Tracer {
    instrumentation_name: String,
    resource: ResourceDescriptor,
}

impl View for Tracer {
    type V = TracerView;

    closed spec fn view(&self) -> TracerView {
        TracerView {
            instrumentation_name: self.instrumentation_name@,
            resource: self.resource@,
        }
    }
}

impl Tracer {
    /// Derives a handle directly from identity attributes; this is what a
    /// provider, or a process-wide lookup of the registered identity, hands
    /// out.
    pub fn derived(resource: &ResourceDescriptor, instrumentation_name: &str) -> (t: Tracer)
        ensures
            t@ == (TracerView {
                instrumentation_name: instrumentation_name@,
                resource: resource@,
            }),
    {
        Tracer {
            instrumentation_name: instrumentation_name.to_owned(),
            resource: resource.clone(),
        }
    }

    /// The instrumentation-library name this handle was derived for.
    pub fn instrumentation_name(&self) -> (r: &str)
        ensures
            r@ == self@.instrumentation_name,
    {
        self.instrumentation_name.as_str()
    }

    /// The identity attributes of the provider this handle was derived from.
    pub fn resource(&self) -> (r: &ResourceDescriptor)
        ensures
            r@ == self@.resource,
    {
        &self.resource
    }
}

/// Binds one batching layer to one service identity; factory for `Tracer`
/// handles and the unit of process-wide registration.
#[derive(Debug)]
pub struct TracerProvider {
    resource: ResourceDescriptor,
    processor: BatchProcessor,
}

impl View for TracerProvider {
    type V = ProviderView;

    closed spec fn view(&self) -> ProviderView {
        ProviderView { resource: self.resource@, batch: self.processor@ }
    }
}

impl TracerProvider {
    /// Combines exactly one batching layer with exactly one identity. Total:
    /// assembly never fails.
    pub fn build(processor: BatchProcessor, resource: ResourceDescriptor) -> (r: TracerProvider)
        ensures
            r@ == (ProviderView { resource: resource@, batch: processor@ }),
    {
        let r = TracerProvider { resource, processor };
        proof {
            assert(r@ =~= ProviderView { resource: r.resource@, batch: r.processor@ });
        }
        r
    }

    /// Derives a named tracer handle. The name identifies the instrumentation
    /// library, distinct from the service name in the identity attributes.
    pub fn tracer(&self, instrumentation_name: &str) -> (t: Tracer)
        ensures
            t@ == (TracerView {
                instrumentation_name: instrumentation_name@,
                resource: self@.resource,
            }),
    {
        Tracer::derived(&self.resource, instrumentation_name)
    }

    /// Hands one finished span to the batching layer. This is the admission
    /// point the tracing-API collaborator uses when a span ends; it never
    /// blocks on the network and never fails.
    pub fn record_span(&mut self, span: SpanRecord)
        ensures
            final(self)@ == record_step(old(self)@, span),
    {
        self.processor.enqueue(span);
        proof {
            assert(self@ =~= record_step(old(self)@, span));
        }
    }

    /// Stops admission and drains everything still buffered into one final
    /// batch carrying this provider's identity attributes. The caller ships
    /// the batch through the exporter.
    pub fn drain(&mut self) -> (batch: ExportBatch)
        ensures
            (final(self)@, batch@) == drain_step(old(self)@),
    {
        self.processor.stop();
        let spans = self.processor.take_batch();
        let batch = ExportBatch { resource: self.resource.clone(), spans };
        proof {
            assert(self@ =~= drain_step(old(self)@).0);
            assert(batch@ =~= drain_step(old(self)@).1);
        }
        batch
    }

    /// The identity attributes this provider stamps on every batch.
    pub fn resource(&self) -> (r: &ResourceDescriptor)
        ensures
            r@ == self@.resource,
    {
        &self.resource
    }

    /// How many spans are buffered and not yet exported.
    pub fn pending_count(&self) -> (r: usize)
        ensures
            r == self@.batch.pending.len(),
    {
        self.processor.pending_count()
    }

    /// Whether the batching layer still admits new spans.
    pub fn is_accepting(&self) -> (r: bool)
        ensures
            r == self@.batch.accepting,
    {
        self.processor.is_accepting()
    }
}

} // verus!
