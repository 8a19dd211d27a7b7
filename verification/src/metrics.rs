//! The metrics collector: the outermost metering stage. It counts every
//! request on entry, and on exit classifies the final response — a response
//! with the admission controller's reject status is taken as blocked, any
//! other as allowed — and produces one structured observability record per
//! request. Classification by status code is a known limitation: a handler
//! that returns the same status for its own reasons is counted as blocked.

use vstd::prelude::*;

use crate::http_model::TOO_MANY_REQUESTS;
use crate::metrics_state::{MetricsModel, MetricsState};
use crate::rate_limit::spec_elapsed;

verus! {

/// Configuration of the collector stage; it carries no state of its own.
#[derive(Debug, Clone, Copy)]
pub struct MetricsLayer;

impl MetricsLayer {
    /// The collector stage itself.
    pub fn layer(&self) -> (m: MetricsMiddleware) {
        MetricsMiddleware {  }
    }
}

/// The collector stage: meters traffic into the shared registry.
#[derive(Debug, Clone, Copy)]
pub struct MetricsMiddleware {}

/// One structured observability record, emitted per processed request.
#[derive(Debug)]
pub struct LogRecord {
    pub method: String,
    pub path: String,
    pub status: u16,
    pub latency_ms: u64,
}

impl MetricsMiddleware {
    /// On request entry: counts the request unconditionally, before the
    /// admission decision is made.
    pub fn on_request(&self, metrics: &mut MetricsState)
        requires
            old(metrics)@.total < u64::MAX,
        ensures
            final(metrics)@ == (MetricsModel { total: old(metrics)@.total + 1, ..old(metrics)@ }),
    {
        metrics.inc_total();
    }

    /// On response exit: classifies the final status — the reject status
    /// counts as blocked (the admission controller has already recorded it),
    /// anything else as allowed — and produces the observability record with
    /// the elapsed time.
    pub fn on_response(
        &self,
        metrics: &mut MetricsState,
        method: String,
        path: String,
        status: u16,
        start: u64,
        now: u64,
    ) -> (log: LogRecord)
        requires
            status != TOO_MANY_REQUESTS ==> old(metrics)@.allowed < u64::MAX,
        ensures
            status == TOO_MANY_REQUESTS ==> final(metrics)@ == old(metrics)@,
            status != TOO_MANY_REQUESTS ==> final(metrics)@ == (MetricsModel {
                allowed: old(metrics)@.allowed + 1,
                ..old(metrics)@
            }),
            log.method@ == method@,
            log.path@ == path@,
            log.status == status,
            log.latency_ms == spec_elapsed(start as int, now as int),
    {
        if status != TOO_MANY_REQUESTS {
            metrics.inc_allowed();
        }
        let latency_ms = if now >= start {
            now - start
        } else {
            0
        };
        LogRecord { method, path, status, latency_ms }
    }
}

} // verus!
