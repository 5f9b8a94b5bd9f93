//! Construction of the exporter capability.
//!
//! The exporter collaborator ships finished-span batches to a remote
//! collector. What this crate decides is the synchronous, local part of its
//! construction: validating the endpoint's structure and fixing the transport
//! configuration the collaborator is handed. Whether the collector is
//! reachable is not decided here; reachability failures surface later, during
//! export, inside the collaborator.

use vstd::prelude::*;
use crate::errors::BuildError;

verus! {

/// Whether an endpoint string is structurally acceptable to the transport.
/// Construction fails fast on the empty string; everything else is left to
/// the collaborator's own lazy connection handling.
pub open spec fn valid_endpoint(endpoint: Seq<char>) -> bool {
    endpoint.len() > 0
}

/// The mathematical content of an `ExporterConfig`.
#[verifier::ext_equal]
pub struct ExporterView {
    /// The collector address batches are shipped to.
    pub endpoint: Seq<char>,
    /// Whether the connection goes out unencrypted.
    pub insecure: bool,
}

/// A validated exporter configuration: the collector endpoint together with
/// the transport-security mode, ready to be handed to the transport
/// collaborator. This pipeline always runs the transport unencrypted.
#[derive(Debug)]
pub struct ExporterConfig {
    endpoint: String,
    insecure: bool,
}

impl View for ExporterConfig {
    type V = ExporterView;

    closed spec fn view(&self) -> ExporterView {
        ExporterView { endpoint: self.endpoint@, insecure: self.insecure }
    }
}

impl ExporterConfig {
    /// Validates an endpoint and fixes the transport configuration.
    /// Succeeds exactly on structurally valid endpoints; on failure nothing
    /// is allocated and no transport state exists.
    pub fn build(endpoint: &str) -> (r: Result<ExporterConfig, BuildError>)
        ensures
            r is Ok <==> valid_endpoint(endpoint@),
            r matches Ok(c) ==> c@ == (ExporterView { endpoint: endpoint@, insecure: true }),
            r matches Err(e) ==> e == BuildError::EmptyEndpoint,
    {
        if endpoint.is_empty() {
            Err(BuildError::EmptyEndpoint)
        } else {
            Ok(ExporterConfig { endpoint: endpoint.to_owned(), insecure: true })
        }
    }

    /// The collector address this configuration points at.
    pub fn endpoint(&self) -> (r: &str)
        ensures
            r@ == self@.endpoint,
    {
        self.endpoint.as_str()
    }

    /// Whether the transport runs unencrypted.
    pub fn is_insecure(&self) -> (r: bool)
        ensures
            r == self@.insecure,
    {
        self.insecure
    }
}

} // verus!
