//! Scenarios on the batching layer and exporter construction alone.

use trace_pipeline::batch::BatchProcessor;
use trace_pipeline::errors::BuildError;
use trace_pipeline::exporter::ExporterConfig;
use trace_pipeline::init::new_trace_provider;
use trace_pipeline::resource::ResourceDescriptor;
use trace_pipeline::span::SpanRecord;

fn span(n: u64) -> SpanRecord {
    SpanRecord { trace_id: 1, span_id: n, start_time: n, end_time: n + 1 }
}

#[test]
fn exporter_config_keeps_endpoint_and_runs_insecure() {
    let config = ExporterConfig::build("http://collector:4317").unwrap();
    assert_eq!(config.endpoint(), "http://collector:4317");
    assert!(config.is_insecure());
}

#[test]
fn exporter_config_rejects_empty_endpoint() {
    match ExporterConfig::build("") {
        Err(BuildError::EmptyEndpoint) => {},
        _ => panic!("empty endpoint must be rejected"),
    }
}

#[test]
fn periodic_flush_hands_out_each_span_once() {
    let config = ExporterConfig::build("http://collector:4317").unwrap();
    let mut processor = BatchProcessor::new(config);
    assert!(processor.is_accepting());

    processor.enqueue(span(1));
    processor.enqueue(span(2));
    let first_flush = processor.take_batch();
    assert_eq!(first_flush, vec![span(1), span(2)]);
    assert_eq!(processor.pending_count(), 0);

    // A failed delivery drops the batch; nothing returns to the buffer.
    processor.enqueue(span(3));
    let second_flush = processor.take_batch();
    assert_eq!(second_flush, vec![span(3)]);
    assert_eq!(processor.pending_count(), 0);
    assert!(processor.is_accepting());
}

#[test]
fn stopped_processor_drops_new_spans_but_keeps_buffered_ones() {
    let config = ExporterConfig::build("http://collector:4317").unwrap();
    let mut processor = BatchProcessor::new(config);
    processor.enqueue(span(1));
    processor.stop();
    assert!(!processor.is_accepting());

    processor.enqueue(span(2));
    assert_eq!(processor.pending_count(), 1);
    assert_eq!(processor.take_batch(), vec![span(1)]);
}

#[test]
fn provider_is_built_fresh_and_bound_to_its_identity() {
    let resource = ResourceDescriptor::new("inventory", "3.1.4");
    let mut provider = new_trace_provider("http://collector:4317", resource).unwrap();
    assert!(provider.is_accepting());
    assert_eq!(provider.pending_count(), 0);
    assert_eq!(provider.resource().service_name(), "inventory");

    provider.record_span(span(9));
    let batch = provider.drain();
    assert_eq!(batch.len(), 1);
    assert_eq!(batch.spans()[0], span(9));
    assert_eq!(batch.resource().service_version(), "3.1.4");
    assert!(!provider.is_accepting());
    assert_eq!(provider.pending_count(), 0);
}

#[test]
fn provider_construction_fails_only_on_invalid_endpoint() {
    let resource = ResourceDescriptor::new("inventory", "3.1.4");
    match new_trace_provider("", resource) {
        Err(BuildError::EmptyEndpoint) => {},
        _ => panic!("empty endpoint must fail provider construction"),
    }

    let resource = ResourceDescriptor::new("inventory", "3.1.4");
    let tracer = new_trace_provider("collector:4317", resource).unwrap().tracer("lib");
    assert_eq!(tracer.instrumentation_name(), "lib");
}
