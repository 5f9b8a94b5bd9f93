//! The laws of the pipeline lifecycle.
//!
//! Each proof function here states a property of the transition functions
//! that the executable contracts are written over, for every input the
//! property speaks of — not for chosen values. Together they pin down the
//! lifecycle: a successful initialization yields a pipeline whose exported
//! spans carry the service identity; a failed one leaves the process-wide
//! slot untouched; shutdown exports each buffered span exactly once, from any
//! number of producers in any order, and terminates the pipeline whatever the
//! transport does; a second initialization replaces the registered identity.

use vstd::prelude::*;
use crate::errors::{ExportError, ShutdownError};
use crate::exporter::valid_endpoint;
use crate::init::{init_registry_step, initial_handle};
use crate::provider::ExportBatchView;
use crate::resource::ResourceView;
use crate::shutdown::{flush_result_spec, handle_record_step, shutdown_step, HandleView};
use crate::span::SpanRecord;

verus! {

/// The pipeline state after a sequence of producers handed their finished
/// spans over, one by one, in the given order. Any interleaving of concurrent
/// producers is some such order.
pub open spec fn record_all(pre: HandleView, spans: Seq<SpanRecord>) -> HandleView
    decreases spans.len(),
{
    if spans.len() == 0 {
        pre
    } else {
        record_all(handle_record_step(pre, spans[0]), spans.subrange(1, spans.len() as int))
    }
}

/// Recording never loses an admitted span: while the pipeline accepts, a
/// sequence of producers appends exactly its spans, in order, to what was
/// already buffered, and touches nothing else.
pub proof fn lemma_record_all_appends(pre: HandleView, spans: Seq<SpanRecord>)
    requires
        pre.provider.batch.accepting,
    ensures
        record_all(pre, spans).provider.batch.pending == pre.provider.batch.pending + spans,
        record_all(pre, spans).provider.batch.accepting,
        record_all(pre, spans).provider.batch.exporter == pre.provider.batch.exporter,
        record_all(pre, spans).provider.resource == pre.provider.resource,
        record_all(pre, spans).terminated == pre.terminated,
    decreases spans.len(),
{
    if spans.len() == 0 {
        assert(pre.provider.batch.pending + spans =~= pre.provider.batch.pending);
    } else {
        let stepped = handle_record_step(pre, spans[0]);
        lemma_record_all_appends(stepped, spans.subrange(1, spans.len() as int));
        assert(pre.provider.batch.pending.push(spans[0]) + spans.subrange(1, spans.len() as int)
            =~= pre.provider.batch.pending + spans);
    }
}

/// Every span buffered before shutdown reaches the exporter: on a pipeline
/// that is still accepting, handing over any spans — from any number of
/// producers, in any order — and then shutting down yields one final batch
/// holding exactly the previously pending spans followed by the new ones.
/// The count handed to the exporter equals the count buffered before the
/// drain: none is silently lost.
pub proof fn lemma_no_span_lost(pre: HandleView, spans: Seq<SpanRecord>)
    requires
        !pre.terminated,
        pre.provider.batch.accepting,
    ensures
        ({
            let (post, batch) = shutdown_step(record_all(pre, spans));
            &&& batch == Some(ExportBatchView {
                resource: pre.provider.resource,
                spans: pre.provider.batch.pending + spans,
            })
            &&& post.terminated
            &&& batch.unwrap().spans.len() == pre.provider.batch.pending.len() + spans.len()
        }),
{
    lemma_record_all_appends(pre, spans);
    let recorded = record_all(pre, spans);
    let (post, batch) = shutdown_step(recorded);
    assert(batch == Some(ExportBatchView {
        resource: pre.provider.resource,
        spans: pre.provider.batch.pending + spans,
    }));
}

/// A fresh pipeline stamps its service identity on everything it exports:
/// for every valid endpoint and every sequence of recorded spans, the final
/// batch carries exactly the service-name and service-version attributes the
/// pipeline was initialized with, and exactly the recorded spans.
pub proof fn lemma_exported_spans_carry_identity(
    resource: ResourceView,
    endpoint: Seq<char>,
    spans: Seq<SpanRecord>,
)
    requires
        valid_endpoint(endpoint),
    ensures
        shutdown_step(record_all(initial_handle(resource, endpoint), spans)).1 == Some(
            ExportBatchView { resource, spans },
        ),
{
    let handle = initial_handle(resource, endpoint);
    lemma_no_span_lost(handle, spans);
    assert(handle.provider.batch.pending + spans =~= spans);
}

/// Shutdown exports at most once: whatever state a handle is in, a second
/// shutdown call yields no batch and changes nothing, so no span is ever
/// exported twice through the same handle.
pub proof fn lemma_second_shutdown_exports_nothing(pre: HandleView)
    ensures
        ({
            let (once, _) = shutdown_step(pre);
            let (twice, second_batch) = shutdown_step(once);
            &&& second_batch is None
            &&& twice == once
        }),
{
}

/// Shutdown terminates the pipeline regardless of the transport: the state
/// after the drain is terminated whatever the exporter later reports, and a
/// transport that always fails only turns the caller's result into
/// `FlushFailed` — it cannot keep the pipeline alive or block its teardown.
pub proof fn lemma_shutdown_terminates_despite_transport(
    pre: HandleView,
    outcome: Result<(), ExportError>,
)
    ensures
        shutdown_step(pre).0.terminated,
        outcome is Err ==> flush_result_spec(outcome) == Err::<(), ShutdownError>(
            ShutdownError::FlushFailed,
        ),
        outcome is Ok ==> flush_result_spec(outcome) == Ok::<(), ShutdownError>(()),
{
}

/// A failed initialization registers nothing: on an invalid endpoint the
/// process-wide slot keeps exactly its previous occupant.
pub proof fn lemma_failed_init_preserves_registration(
    pre: Option<ResourceView>,
    resource: ResourceView,
    endpoint: Seq<char>,
)
    requires
        !valid_endpoint(endpoint),
    ensures
        init_registry_step(pre, resource, endpoint) == pre,
{
}

/// Re-initialization replaces the process-wide registration: after a second
/// successful initialization, a lookup observes the second identity — whatever
/// was registered before, and whether or not the first attempt succeeded.
pub proof fn lemma_reinit_replaces_registration(
    pre: Option<ResourceView>,
    first: ResourceView,
    first_endpoint: Seq<char>,
    second: ResourceView,
    second_endpoint: Seq<char>,
)
    requires
        valid_endpoint(second_endpoint),
    ensures
        init_registry_step(
            init_registry_step(pre, first, first_endpoint),
            second,
            second_endpoint,
        ) == Some(second),
{
}

} // verus!
