//! Process-wide request counters: total, allowed and rate-limited requests,
//! with a point-in-time snapshot for external consumption.

use vstd::prelude::*;

verus! {

/// The three monotonically increasing request counters.
#[derive(Debug)]
pub struct Metrics {
    pub total_requests: u64,
    pub allowed_requests: u64,
    pub rate_limited_requests: u64,
}

impl Default for Metrics {
    fn default() -> (r: Self)
        ensures
            r.total_requests == 0,
            r.allowed_requests == 0,
            r.rate_limited_requests == 0,
    {
        Metrics { total_requests: 0, allowed_requests: 0, rate_limited_requests: 0 }
    }
}

/// An immutable copy of the three counters at a point in time.
#[derive(Debug, Clone, Copy, PartialEq, Eq, Structural)]
pub struct MetricsSnapshot {
    pub total_requests: u64,
    pub allowed_requests: u64,
    pub rate_limited_requests: u64,
}

/// The metrics registry handed to every pipeline stage that meters traffic.
#[derive(Debug)]
pub struct MetricsState(pub Metrics);

/// Mathematical model of the registry: the counter values as integers.
pub ghost struct MetricsModel {
    pub total: int,
    pub allowed: int,
    pub rate_limited: int,
}

impl View for MetricsState {
    type V = MetricsModel;

    open spec fn view(&self) -> MetricsModel {
        MetricsModel {
            total: self.0.total_requests as int,
            allowed: self.0.allowed_requests as int,
            rate_limited: self.0.rate_limited_requests as int,
        }
    }
}

impl MetricsState {
    /// A fresh registry with every counter at zero.
    pub fn new() -> (r: Self)
        ensures
            r@.total == 0,
            r@.allowed == 0,
            r@.rate_limited == 0,
    {
        MetricsState(Metrics::default())
    }

    /// A consistent copy of the three counters.
    pub fn snapshot(&self) -> (s: MetricsSnapshot)
        ensures
            s.total_requests == self@.total,
            s.allowed_requests == self@.allowed,
            s.rate_limited_requests == self@.rate_limited,
    {
        MetricsSnapshot {
            total_requests: self.0.total_requests,
            allowed_requests: self.0.allowed_requests,
            rate_limited_requests: self.0.rate_limited_requests,
        }
    }

    /// Adds one to the total-requests counter and touches nothing else.
    pub fn inc_total(&mut self)
        requires
            old(self)@.total < u64::MAX,
        ensures
            final(self)@.total == old(self)@.total + 1,
            final(self)@.allowed == old(self)@.allowed,
            final(self)@.rate_limited == old(self)@.rate_limited,
    {
        self.0.total_requests = self.0.total_requests + 1;
    }

    /// Adds one to the allowed-requests counter and touches nothing else.
    pub fn inc_allowed(&mut self)
        requires
            old(self)@.allowed < u64::MAX,
        ensures
            final(self)@.allowed == old(self)@.allowed + 1,
            final(self)@.total == old(self)@.total,
            final(self)@.rate_limited == old(self)@.rate_limited,
    {
        self.0.allowed_requests = self.0.allowed_requests + 1;
    }

    /// Adds one to the rate-limited-requests counter and touches nothing else.
    pub fn inc_rate_limited(&mut self)
        requires
            old(self)@.rate_limited < u64::MAX,
        ensures
            final(self)@.rate_limited == old(self)@.rate_limited + 1,
            final(self)@.total == old(self)@.total,
            final(self)@.allowed == old(self)@.allowed,
    {
        self.0.rate_limited_requests = self.0.rate_limited_requests + 1;
    }
}

} // verus!
