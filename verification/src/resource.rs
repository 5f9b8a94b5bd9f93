//! Service-identity attributes stamped on every exported span.

use vstd::prelude::*;

verus! {

/// The attribute key under which the service name is exported.
pub open spec fn service_name_key() -> Seq<char> {
    "service.name"@
}

/// The attribute key under which the service version is exported.
pub open spec fn service_version_key() -> Seq<char> {
    "service.version"@
}

/// The mathematical content of a `ResourceDescriptor`: the identity of the
/// emitting service.
#[verifier::ext_equal]
pub struct ResourceView {
    /// Name of the emitting service.
    pub service_name: Seq<char>,
    /// Version of the emitting service.
    pub service_version: Seq<char>,
}

impl ResourceView {
    /// The ordered set of (key, value) attributes this descriptor stands for,
    /// as it appears on every exported span.
    pub open spec fn attributes(self) -> Seq<(Seq<char>, Seq<char>)> {
        seq![
            (service_name_key(), self.service_name),
            (service_version_key(), self.service_version),
        ]
    }
}

/// An immutable set of identity attributes attached to every span produced by
/// this process. It always carries a service-name and a service-version entry.
#[derive(Debug)]
pub struct ResourceDescriptor {
    service_name: String,
    service_version: String,
}

impl View for ResourceDescriptor {
    type V = ResourceView;

    closed spec fn view(&self) -> ResourceView {
        ResourceView { service_name: self.service_name@, service_version: self.service_version@ }
    }
}

impl Clone for ResourceDescriptor {
    fn clone(&self) -> (r: Self)
        ensures
            r@ == self@,
    {
        ResourceDescriptor {
            service_name: self.service_name.clone(),
            service_version: self.service_version.clone(),
        }
    }
}

impl ResourceDescriptor {
    /// Builds the descriptor for a service. Total: every pair of strings
    /// names a valid identity.
    pub fn new(service_name: &str, service_version: &str) -> (r: ResourceDescriptor)
        ensures
            r@ == (ResourceView { service_name: service_name@, service_version: service_version@ }),
    {
        ResourceDescriptor {
            service_name: service_name.to_owned(),
            service_version: service_version.to_owned(),
        }
    }

    /// The service name carried by this descriptor.
    pub fn service_name(&self) -> (r: &str)
        ensures
            r@ == self@.service_name,
    {
        self.service_name.as_str()
    }

    /// The service version carried by this descriptor.
    pub fn service_version(&self) -> (r: &str)
        ensures
            r@ == self@.service_version,
    {
        self.service_version.as_str()
    }

    /// The ordered (key, value) attribute pairs, in export order.
    pub fn attributes(&self) -> (r: Vec<(String, String)>)
        ensures
            r@.len() == 2,
            r@[0].0@ == service_name_key(),
            r@[0].1@ == self@.service_name,
            r@[1].0@ == service_version_key(),
            r@[1].1@ == self@.service_version,
    {
        let mut pairs: Vec<(String, String)> = Vec::new();
        pairs.push(("service.name".to_owned(), self.service_name.clone()));
        pairs.push(("service.version".to_owned(), self.service_version.clone()));
        pairs
    }
}

} // verus!
