//! The process-wide provider registration.
//!
//! Somewhere in every traced process there is one slot that answers "which
//! provider is active right now?". This module models that slot as an
//! explicit value with a set/get capability pair, so its lifecycle —
//! install, replace without tearing the predecessor down, look up — is
//! stated rather than hidden in a global. A reader observes the identity
//! attributes of whichever provider was installed last, never a
//! half-constructed one; replacing does not shut the predecessor down, since
//! ownership of that shutdown stays with whoever holds the earlier handle.

use vstd::prelude::*;
use crate::provider::Tracer;
use crate::resource::{ResourceDescriptor, ResourceView};

verus! {

/// The process-wide slot holding the identity of the active provider, if any
/// was registered yet.
#[derive(Debug)]
pub struct TracerRegistry {
    active: Option<ResourceDescriptor>,
}

impl View for TracerRegistry {
    type V = Option<ResourceView>;

    closed spec fn view(&self) -> Option<ResourceView> {
        match self.active {
            Some(r) => Some(r@),
            None => None,
        }
    }
}

impl TracerRegistry {
    /// The slot before any registration.
    pub fn new() -> (r: TracerRegistry)
        ensures
            r@ is None,
    {
        TracerRegistry { active: None }
    }

    /// Installs a provider's identity as the active one. Total and
    /// non-failing: it simply overwrites whatever was registered before,
    /// without shutting the predecessor down.
    pub fn set_active(&mut self, resource: ResourceDescriptor)
        ensures
            final(self)@ == Some(resource@),
    {
        self.active = Some(resource);
    }

    /// Whether any provider is registered.
    pub fn has_active(&self) -> (r: bool)
        ensures
            r == self@ is Some,
    {
        self.active.is_some()
    }

    /// The identity attributes of the active provider, if one is registered.
    pub fn active_resource(&self) -> (r: Option<&ResourceDescriptor>)
        ensures
            match r {
                Some(rd) => self@ == Some(rd@),
                None => self@ is None,
            },
    {
        self.active.as_ref()
    }

    /// Derives a tracer from the active provider, as unrelated code anywhere
    /// in the process obtains one without being handed a provider explicitly.
    /// Observes exactly the identity installed last.
    pub fn active_tracer(&self, instrumentation_name: &str) -> (t: Option<Tracer>)
        ensures
            match t {
                Some(tr) => self@ == Some(tr@.resource)
                    && tr@.instrumentation_name == instrumentation_name@,
                None => self@ is None,
            },
    {
        match &self.active {
            Some(resource) => Some(Tracer::derived(resource, instrumentation_name)),
            None => None,
        }
    }
}

} // verus!
