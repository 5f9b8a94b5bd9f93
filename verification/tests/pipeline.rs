//! End-to-end scenarios over the pipeline lifecycle, with a recording
//! exporter standing in for the transport.

use trace_pipeline::errors::{BuildError, ExportError, ShutdownError};
use trace_pipeline::init::init_tracing;
use trace_pipeline::provider::ExportBatch;
use trace_pipeline::registry::TracerRegistry;
use trace_pipeline::shutdown::flush_result;
use trace_pipeline::span::SpanRecord;

fn span(n: u64) -> SpanRecord {
    SpanRecord { trace_id: 7, span_id: n, start_time: 10 * n, end_time: 10 * n + 5 }
}

/// A transport stand-in: records every batch it is handed, or refuses all.
struct RecordingExporter {
    always_fail: bool,
    delivered: Vec<ExportBatch>,
}

impl RecordingExporter {
    fn new(always_fail: bool) -> RecordingExporter {
        RecordingExporter { always_fail, delivered: Vec::new() }
    }

    fn send(&mut self, batch: ExportBatch) -> Result<(), ExportError> {
        if self.always_fail {
            Err(ExportError::TransportFailed)
        } else {
            self.delivered.push(batch);
            Ok(())
        }
    }

    fn delivered_span_count(&self) -> usize {
        self.delivered.iter().map(|b| b.len()).sum()
    }
}

#[test]
fn valid_triple_initializes_and_exports_identity() {
    let mut registry = TracerRegistry::new();
    let result = init_tracing(&mut registry, "checkout", "2.4.1", "http://collector:4317");
    let (mut handle, tracer) = result.expect("valid triple must initialize");

    assert_eq!(tracer.instrumentation_name(), "tracer");
    assert_eq!(tracer.resource().service_name(), "checkout");
    assert_eq!(tracer.resource().service_version(), "2.4.1");
    assert!(!handle.is_terminated());

    handle.record_span(span(1));
    handle.record_span(span(2));

    let mut exporter = RecordingExporter::new(false);
    let batch = handle.shutdown().expect("first shutdown yields the final batch");
    assert_eq!(batch.resource().service_name(), "checkout");
    assert_eq!(batch.resource().service_version(), "2.4.1");
    assert_eq!(batch.spans().as_slice(), &[span(1), span(2)]);
    let outcome = exporter.send(batch);
    assert_eq!(flush_result(outcome), Ok(()));
    assert_eq!(exporter.delivered_span_count(), 2);
}

#[test]
fn resource_attributes_carry_semantic_keys() {
    let mut registry = TracerRegistry::new();
    let (_handle, tracer) =
        init_tracing(&mut registry, "billing", "0.9.0", "http://collector:4317").unwrap();
    let attrs = tracer.resource().attributes();
    assert_eq!(attrs.len(), 2);
    assert_eq!(attrs[0].0, "service.name");
    assert_eq!(attrs[0].1, "billing");
    assert_eq!(attrs[1].0, "service.version");
    assert_eq!(attrs[1].1, "0.9.0");
}

#[test]
fn empty_endpoint_is_rejected_and_registers_nothing() {
    let mut registry = TracerRegistry::new();
    let first = init_tracing(&mut registry, "checkout", "2.4.1", "http://collector:4317");
    assert!(first.is_ok());

    let second = init_tracing(&mut registry, "other", "9.9.9", "");
    match second {
        Err(BuildError::EmptyEndpoint) => {},
        _ => panic!("empty endpoint must yield BuildError::EmptyEndpoint"),
    }

    let active = registry.active_resource().expect("prior registration must survive");
    assert_eq!(active.service_name(), "checkout");
    assert_eq!(active.service_version(), "2.4.1");
}

#[test]
fn empty_endpoint_on_fresh_registry_leaves_it_empty() {
    let mut registry = TracerRegistry::new();
    let result = init_tracing(&mut registry, "svc", "1.0.0", "");
    assert_eq!(result.err(), Some(BuildError::EmptyEndpoint));
    assert!(!registry.has_active());
    assert!(registry.active_tracer("tracer").is_none());
}

#[test]
fn second_shutdown_is_refused_and_duplicates_nothing() {
    let mut registry = TracerRegistry::new();
    let (mut handle, _tracer) =
        init_tracing(&mut registry, "checkout", "2.4.1", "http://collector:4317").unwrap();
    for n in 0..3 {
        handle.record_span(span(n));
    }

    let mut exporter = RecordingExporter::new(false);
    let batch = handle.shutdown().expect("first shutdown succeeds");
    exporter.send(batch).unwrap();
    assert_eq!(exporter.delivered_span_count(), 3);
    assert!(handle.is_terminated());

    match handle.shutdown() {
        Err(ShutdownError::AlreadyShutdown) => {},
        _ => panic!("second shutdown must report the already-shutdown condition"),
    }
    assert_eq!(exporter.delivered_span_count(), 3);
    assert!(handle.is_terminated());
}

#[test]
fn every_buffered_span_reaches_the_exporter() {
    let mut registry = TracerRegistry::new();
    let (mut handle, _tracer) =
        init_tracing(&mut registry, "checkout", "2.4.1", "http://collector:4317").unwrap();

    let n: u64 = 50;
    for i in 0..n {
        handle.record_span(span(i));
    }
    let buffered_before_shutdown = handle.pending_count();
    assert_eq!(buffered_before_shutdown, n as usize);

    let mut exporter = RecordingExporter::new(false);
    let batch = handle.shutdown().unwrap();
    exporter.send(batch).unwrap();
    assert_eq!(exporter.delivered_span_count(), buffered_before_shutdown);
    let exported = &exporter.delivered[0];
    for i in 0..n {
        assert_eq!(exported.spans()[i as usize], span(i));
    }
}

#[test]
fn failing_exporter_still_terminates_with_shutdown_error() {
    let mut registry = TracerRegistry::new();
    let (mut handle, _tracer) =
        init_tracing(&mut registry, "checkout", "2.4.1", "http://collector:4317").unwrap();
    handle.record_span(span(1));

    let mut exporter = RecordingExporter::new(true);
    let batch = handle.shutdown().expect("drain itself succeeds");
    let outcome = exporter.send(batch);
    assert_eq!(flush_result(outcome), Err(ShutdownError::FlushFailed));
    assert!(handle.is_terminated());
    assert_eq!(exporter.delivered_span_count(), 0);

    // Spans recorded after termination are dropped, not buffered.
    handle.record_span(span(2));
    assert_eq!(handle.pending_count(), 0);
}

#[test]
fn reinitialization_replaces_the_registered_identity() {
    let mut registry = TracerRegistry::new();
    let (_first_handle, _first_tracer) =
        init_tracing(&mut registry, "first-svc", "1.0.0", "http://collector:4317").unwrap();
    let (_second_handle, _second_tracer) =
        init_tracing(&mut registry, "second-svc", "2.0.0", "http://other:4317").unwrap();

    let looked_up = registry.active_tracer("tracer").expect("a provider is registered");
    assert_eq!(looked_up.resource().service_name(), "second-svc");
    assert_eq!(looked_up.resource().service_version(), "2.0.0");

    // The first handle still owns its own pipeline's teardown.
    let mut first_handle = _first_handle;
    let batch = first_handle.shutdown().expect("earlier handle still shuts its pipeline down");
    assert_eq!(batch.resource().service_name(), "first-svc");
}

#[test]
fn shutdown_error_messages_are_stable() {
    assert_eq!(ShutdownError::FlushFailed.message(), "final flush failed");
    assert_eq!(ShutdownError::AlreadyShutdown.message(), "pipeline already shut down");
    assert_eq!(BuildError::EmptyEndpoint.message(), "collector endpoint is empty");
}
