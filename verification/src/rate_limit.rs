//! Admission control: a fixed-window rate limiter. One shared window record
//! counts the requests admitted since the window opened; when the configured
//! duration has elapsed the window rolls over and the count starts again.
//! Admission is global to the process, not partitioned per caller.

use vstd::prelude::*;

use crate::http_model::{HttpResponse, TOO_MANY_REQUESTS};
use crate::metrics_state::{MetricsModel, MetricsState};

verus! {

/// The terminal outcome of a rejected request: a plain-text response that
/// short-circuits the chain without reaching the inner handler.
pub fn rejection_response() -> (r: HttpResponse)
    ensures
        r.status == TOO_MANY_REQUESTS,
        r.body@ == "Too Many Requests"@,
        r.headers@.len() == 0,
{
    HttpResponse {
        status: TOO_MANY_REQUESTS,
        body: "Too Many Requests".to_string(),
        headers: Vec::new(),
    }
}

/// Configuration of the admission controller: at most `max_requests` requests
/// are admitted per `window_millis` milliseconds.
#[derive(Debug, Clone, Copy)]
pub struct RateLimitLayer {
    pub max_requests: u64,
    pub window_millis: u64,
}

impl RateLimitLayer {
    /// A rate-limit configuration with the given burst size and window.
    pub fn new(max_requests: u64, window_millis: u64) -> (r: Self)
        ensures
            r.max_requests == max_requests,
            r.window_millis == window_millis,
    {
        RateLimitLayer { max_requests, window_millis }
    }

    /// The admission stage itself, with a fresh window opened at `now`.
    pub fn layer(&self, now: u64) -> (m: RateLimitMiddleware)
        ensures
            m@ == (WindowModel {
                max_requests: self.max_requests as int,
                window: self.window_millis as int,
                count: 0,
                window_start: now as int,
            }),
            m.wf(),
    {
        RateLimitMiddleware {
            max_requests: self.max_requests,
            window_millis: self.window_millis,
            requests: 0,
            window_start: now,
        }
    }
}

/// The admission stage: the shared window record and its configuration.
#[derive(Debug)]
pub struct RateLimitMiddleware {
    pub max_requests: u64,
    pub window_millis: u64,
    pub requests: u64,
    pub window_start: u64,
}

/// Mathematical model of the window record.
pub ghost struct WindowModel {
    pub max_requests: int,
    pub window: int,
    pub count: int,
    pub window_start: int,
}

impl View for RateLimitMiddleware {
    type V = WindowModel;

    open spec fn view(&self) -> WindowModel {
        WindowModel {
            max_requests: self.max_requests as int,
            window: self.window_millis as int,
            count: self.requests as int,
            window_start: self.window_start as int,
        }
    }
}

/// A window model that admission keeps: the count never passes the limit and
/// nothing is negative.
pub open spec fn wf_window(w: WindowModel) -> bool {
    &&& 0 <= w.count <= w.max_requests
    &&& 0 <= w.window_start
    &&& 0 <= w.window
}

/// Time elapsed since the window opened, on a monotonic clock that saturates
/// rather than running backwards.
pub open spec fn spec_elapsed(window_start: int, now: int) -> int {
    if now >= window_start {
        now - window_start
    } else {
        0
    }
}

/// The fixed-window admission step. When the window has lapsed, the count
/// resets and the window reopens at `now`; then the request is admitted
/// exactly when the count is still below the limit, and an admitted request
/// is counted against the window.
pub open spec fn spec_admit(w: WindowModel, now: int) -> (WindowModel, bool) {
    let rolled = if spec_elapsed(w.window_start, now) >= w.window {
        WindowModel { count: 0, window_start: now, ..w }
    } else {
        w
    };
    if rolled.count >= rolled.max_requests {
        (rolled, false)
    } else {
        ((WindowModel { count: rolled.count + 1, ..rolled }), true)
    }
}

impl RateLimitMiddleware {
    /// The window record as admission leaves it: count within the limit.
    pub open spec fn wf(&self) -> bool {
        self@.count <= self@.max_requests
    }

    /// Decides one request under the window's exclusive lock: rolls the
    /// window over when it has lapsed, then admits the request exactly when
    /// the count is below the limit. A rejection is reported to the metrics
    /// registry; an admission only advances the window count.
    pub fn check_admission(&mut self, metrics: &mut MetricsState, now: u64) -> (admitted: bool)
        requires
            old(self).wf(),
            old(metrics)@.rate_limited < u64::MAX,
        ensures
            final(self).wf(),
            (final(self)@, admitted) == spec_admit(old(self)@, now as int),
            admitted ==> final(metrics)@ == old(metrics)@,
            !admitted ==> final(metrics)@ == (MetricsModel {
                rate_limited: old(metrics)@.rate_limited + 1,
                ..old(metrics)@
            }),
    {
        let elapsed = if now >= self.window_start {
            now - self.window_start
        } else {
            0
        };
        if elapsed >= self.window_millis {
            self.requests = 0;
            self.window_start = now;
        }
        if self.requests >= self.max_requests {
            metrics.inc_rate_limited();
            false
        } else {
            self.requests = self.requests + 1;
            true
        }
    }
}

} // verus!
