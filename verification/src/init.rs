//! Top-level orchestration: bring the pipeline up, hand back its two handles.
//!
//! `init_tracing` runs once at process startup. It builds, in order, the
//! identity attributes, the exporter configuration, the batching layer and
//! the provider; every fallible step short-circuits the whole call. Only
//! after all fallible construction succeeded is the provider installed in the
//! process-wide slot — a failed initialization leaves the slot exactly as it
//! was. The caller receives a `Tracer` for immediate use and a
//! `ShutdownHandle` to invoke once at process teardown.

use vstd::prelude::*;
use crate::batch::{BatchProcessor, BatchView};
use crate::errors::BuildError;
use crate::exporter::{valid_endpoint, ExporterConfig, ExporterView};
use crate::provider::{ProviderView, Tracer, TracerProvider, TracerView};
use crate::registry::TracerRegistry;
use crate::resource::{ResourceDescriptor, ResourceView};
use crate::shutdown::{HandleView, ShutdownHandle};
use crate::span::SpanRecord;

verus! {

/// The name under which this pipeline derives its instrumentation tracer.
pub open spec fn tracer_name() -> Seq<char> {
    "tracer"@
}

/// The batching layer as initialization leaves it: accepting, empty, bound to
/// an unencrypted transport toward the given endpoint.
pub open spec fn initial_batch(endpoint: Seq<char>) -> BatchView {
    BatchView {
        accepting: true,
        pending: Seq::<SpanRecord>::empty(),
        exporter: ExporterView { endpoint, insecure: true },
    }
}

/// The pipeline instance a successful initialization builds for the given
/// identity and endpoint.
pub open spec fn initial_provider(resource: ResourceView, endpoint: Seq<char>) -> ProviderView {
    ProviderView { resource, batch: initial_batch(endpoint) }
}

/// The shutdown handle a successful initialization returns: armed, owning the
/// fresh pipeline instance.
pub open spec fn initial_handle(resource: ResourceView, endpoint: Seq<char>) -> HandleView {
    HandleView { terminated: false, provider: initial_provider(resource, endpoint) }
}

/// What one initialization call does to the process-wide slot: on a valid
/// endpoint the new identity replaces whatever was registered; on an invalid
/// one the slot keeps its previous occupant.
pub open spec fn init_registry_step(
    pre: Option<ResourceView>,
    resource: ResourceView,
    endpoint: Seq<char>,
) -> Option<ResourceView> {
    if valid_endpoint(endpoint) {
        Some(resource)
    } else {
        pre
    }
}

/// Builds one pipeline instance: exporter configuration from the endpoint,
/// batching layer around it, provider binding the batching layer to the given
/// identity. Succeeds exactly on structurally valid endpoints; nothing global
/// changes here.
pub fn new_trace_provider(trace_endpoint: &str, resource: ResourceDescriptor) -> (r: Result<
    TracerProvider,
    BuildError,
>)
    ensures
        r is Ok <==> valid_endpoint(trace_endpoint@),
        r matches Ok(p) ==> p@ == initial_provider(resource@, trace_endpoint@),
        r matches Err(e) ==> e == BuildError::EmptyEndpoint,
{
    let exporter = match ExporterConfig::build(trace_endpoint) {
        Ok(exporter) => exporter,
        Err(e) => {
            return Err(e);
        },
    };
    let batch_processor = BatchProcessor::new(exporter);
    let tracer_provider = TracerProvider::build(batch_processor, resource);
    proof {
        assert(tracer_provider@ =~~= initial_provider(resource@, trace_endpoint@));
    }
    Ok(tracer_provider)
}

/// Brings the whole pipeline up for one service.
///
/// On a structurally valid endpoint it returns the armed `ShutdownHandle`
/// (owning the fresh, empty, accepting pipeline) and a `Tracer` derived under
/// `tracer_name`, and installs the service identity in the process-wide slot,
/// replacing — without tearing down — whatever was registered before. On an
/// invalid endpoint it returns the build error and the slot is left exactly
/// as it was: registration is the last step, after all fallible construction.
pub fn init_tracing(
    registry: &mut TracerRegistry,
    service_name: &str,
    service_version: &str,
    endpoint: &str,
) -> (r: Result<(ShutdownHandle, Tracer), BuildError>)
    ensures
        r is Ok <==> valid_endpoint(endpoint@),
        final(registry)@ == init_registry_step(
            old(registry)@,
            ResourceView { service_name: service_name@, service_version: service_version@ },
            endpoint@,
        ),
        r matches Ok((handle, tracer)) ==> {
            let resource = ResourceView {
                service_name: service_name@,
                service_version: service_version@,
            };
            &&& handle@ == initial_handle(resource, endpoint@)
            &&& tracer@ == (TracerView { instrumentation_name: tracer_name(), resource })
        },
        r matches Err(e) ==> {
            &&& e == BuildError::EmptyEndpoint
            &&& *final(registry) == *old(registry)
        },
{
    let resource = ResourceDescriptor::new(service_name, service_version);

    let tracer_provider = match new_trace_provider(endpoint, resource) {
        Ok(p) => p,
        Err(e) => {
            return Err(e);
        },
    };

    registry.set_active(tracer_provider.resource().clone());

    let tracer = tracer_provider.tracer("tracer");

    let shutdown_handle = ShutdownHandle::new(tracer_provider);

    Ok((shutdown_handle, tracer))
}

} // verus!
