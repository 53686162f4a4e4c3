//! Health of each resource, derived from the outcomes of its transitions.
use vstd::prelude::*;
use crate::text::owned;
use crate::textmap::TextMap;
use crate::types::{HealthStatus, TransitionResult};

verus! {

/// Consecutive failures after which a resource counts as unhealthy.
pub const MAX_CONSECUTIVE_FAILURES: u32 = 3;

/// Failure count after one more outcome.
pub open spec fn failures_after(failures: u32, ok: bool) -> u32 {
    if ok { 0 } else if failures < u32::MAX { (failures + 1) as u32 } else { failures }
}

/// Health flag after one more outcome.
pub open spec fn healthy_after(healthy: bool, failures: u32, ok: bool) -> bool {
    if ok { true } else { healthy && failures_after(failures, false) < MAX_CONSECUTIVE_FAILURES }
}

/// Whatever the starting record, three failures in a row leave the resource
/// unhealthy, and one success makes it healthy with no failures counted.
pub proof fn lemma_health_law(healthy: bool, failures: u32)
    ensures
        ({
            let f1 = failures_after(failures, false);
            let h1 = healthy_after(healthy, failures, false);
            let f2 = failures_after(f1, false);
            let h2 = healthy_after(h1, f1, false);
            let f3 = failures_after(f2, false);
            let h3 = healthy_after(h2, f2, false);
            !h3 && f3 >= MAX_CONSECUTIVE_FAILURES
        }),
        healthy_after(healthy, failures, true),
        failures_after(failures, true) == 0,
{
}

pub struct HealthManager {
    health_statuses: TextMap<HealthStatus>,
}

impl View for HealthManager {
    type V = Map<Seq<char>, HealthStatus>;

    closed spec fn view(&self) -> Map<Seq<char>, HealthStatus> {
        self.health_statuses@
    }
}

impl HealthManager {
    /// A manager that tracks nothing yet.
    pub fn new() -> (r: HealthManager)
        ensures
            r@ == Map::<Seq<char>, HealthStatus>::empty(),
    {
        HealthManager { health_statuses: TextMap::new() }
    }

    /// Records the outcome of a transition of `resource_key` at time `now`; an
    /// untracked resource starts healthy with no failures.
    pub fn update_health_status(&mut self, resource_key: &str, transition_result: &TransitionResult, now: u64)
        ensures
            final(self)@.contains_key(resource_key@),
            final(self)@ == old(self)@.insert(resource_key@, final(self)@[resource_key@]),
            ({
                let h = final(self)@[resource_key@];
                let ok = transition_result.succeeded();
                let (h0, f0) = if old(self)@.contains_key(resource_key@) {
                    (old(self)@[resource_key@].healthy, old(self)@[resource_key@].consecutive_failures)
                } else {
                    (true, 0u32)
                };
                &&& h.consecutive_failures == failures_after(f0, ok)
                &&& h.healthy == healthy_after(h0, f0, ok)
                &&& h.last_check == now
                &&& ok ==> h.status_message@ == "Healthy"@
                &&& !ok ==> h.status_message@ == transition_result.message@
            }),
    {
        let (h0, f0) = match self.health_statuses.get(resource_key) {
            Some(h) => (h.healthy, h.consecutive_failures),
            None => (true, 0u32),
        };
        let status = if transition_result.is_success() {
            HealthStatus { healthy: true, status_message: owned("Healthy"), last_check: now, consecutive_failures: 0 }
        } else {
            let f: u32 = if f0 < u32::MAX { f0 + 1 } else { f0 };
            HealthStatus {
                healthy: h0 && f < MAX_CONSECUTIVE_FAILURES,
                status_message: transition_result.message.clone(),
                last_check: now,
                consecutive_failures: f,
            }
        };
        self.health_statuses.insert(owned(resource_key), status);
    }

    /// Health flag of a resource; untracked resources count as healthy.
    pub fn is_resource_healthy(&self, resource_key: &str) -> (r: bool)
        ensures
            r == (!self@.contains_key(resource_key@) || self@[resource_key@].healthy),
    {
        match self.health_statuses.get(resource_key) {
            Some(h) => h.healthy,
            None => true,
        }
    }

    /// The health record of a resource, if tracked.
    pub fn get_health_status(&self, resource_key: &str) -> (r: Option<&HealthStatus>)
        ensures
            match r {
                Some(h) => self@.contains_key(resource_key@) && *h == self@[resource_key@],
                None => !self@.contains_key(resource_key@),
            },
    {
        self.health_statuses.get(resource_key)
    }

    /// Starts tracking a resource as healthy with no failures.
    pub fn initialize_health_tracking(&mut self, resource_key: String, now: u64)
        ensures
            final(self)@.contains_key(resource_key@),
            final(self)@ == old(self)@.insert(resource_key@, final(self)@[resource_key@]),
            final(self)@[resource_key@].healthy,
            final(self)@[resource_key@].consecutive_failures == 0,
            final(self)@[resource_key@].last_check == now,
            final(self)@[resource_key@].status_message@ == "Healthy"@,
    {
        self.health_statuses.insert(
            resource_key,
            HealthStatus { healthy: true, status_message: owned("Healthy"), last_check: now, consecutive_failures: 0 },
        );
    }
}

} // verus!
