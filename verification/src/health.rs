//! Per-service readiness registry.
//!
//! The host queries this registry to decide whether to route traffic. A
//! registered service is either `Serving` or `NotServing`; a `Check` on a
//! name that was never registered reports `ServiceUnknown` (chosen over
//! defaulting to `NotServing`, so that a misspelled name is
//! distinguishable from a service that is merely not ready).

use vstd::prelude::*;
use vstd::hash_map::StringHashMap;

verus! {

/// Readiness of one service, as reported to the host.
#[derive(Clone, Copy, Debug, PartialEq, Eq, Structural)]
pub enum ServingStatus {
    /// The service is ready to accept traffic.
    Serving,
    /// The service is registered but not ready.
    NotServing,
    /// The queried name was never registered.
    ServiceUnknown,
}

/// What a `check` on registry contents `m` reports for the name `k`.
pub open spec fn spec_check(m: Map<Seq<char>, ServingStatus>, k: Seq<char>) -> ServingStatus {
    if m.contains_key(k) {
        m[k]
    } else {
        ServingStatus::ServiceUnknown
    }
}

/// Registry of per-service readiness states.
pub struct HealthService {
    statuses: StringHashMap<ServingStatus>,
}

impl View for HealthService {
    type V = Map<Seq<char>, ServingStatus>;

    /// The mathematical contents: registered names to their status.
    closed spec fn view(&self) -> Map<Seq<char>, ServingStatus> {
        self.statuses@
    }
}

impl HealthService {
    /// Creates a registry with no services registered.
    pub fn new() -> (result: Self)
        ensures
            result@ == Map::<Seq<char>, ServingStatus>::empty(),
    {
        HealthService { statuses: StringHashMap::new() }
    }

    /// Registers a service, defaulting it to `NotServing`.
    pub fn register(&mut self, name: String)
        ensures
            final(self)@ == old(self)@.insert(name@, ServingStatus::NotServing),
    {
        self.statuses.insert(name, ServingStatus::NotServing);
    }

    /// Marks a service ready to accept traffic.
    pub fn set_serving(&mut self, name: String)
        ensures
            final(self)@ == old(self)@.insert(name@, ServingStatus::Serving),
    {
        self.statuses.insert(name, ServingStatus::Serving);
    }

    /// Marks a service not ready; used on degradation and at shutdown.
    pub fn set_not_serving(&mut self, name: String)
        ensures
            final(self)@ == old(self)@.insert(name@, ServingStatus::NotServing),
    {
        self.statuses.insert(name, ServingStatus::NotServing);
    }

    /// Reports the current status of the named service: its registered
    /// status, or `ServiceUnknown` if the name was never registered.
    pub fn check(&self, name: &str) -> (status: ServingStatus)
        ensures
            status == spec_check(self@, name@),
    {
        match self.statuses.get(name) {
            Some(s) => *s,
            None => ServingStatus::ServiceUnknown,
        }
    }
}

} // verus!
