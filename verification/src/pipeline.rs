//! The pipeline composer: the three stages assembled around an inner handler
//! in a fixed order. Inbound, a request passes the tagger (correlation
//! identifier), the collector (total count, start of timing) and the
//! admission controller; only an admitted request reaches the handler. The
//! handler's response flows back through the collector (classification, one
//! observability record) and the tagger (correlation identifier on the
//! response). A transport drives the two halves: it calls `begin_request`,
//! invokes its handler only on admission, and hands the handler's response to
//! `finish_request`.

use vstd::prelude::*;

use crate::http_model::{
    request_id_header, spec_header_value, HttpRequest, HttpResponse, INTERNAL_SERVER_ERROR,
    TOO_MANY_REQUESTS,
};
use crate::metrics::{LogRecord, MetricsLayer, MetricsMiddleware};
use crate::metrics_state::{MetricsModel, MetricsSnapshot, MetricsState};
use crate::rate_limit::{
    rejection_response, spec_admit, spec_elapsed, wf_window, RateLimitLayer, RateLimitMiddleware,
    WindowModel,
};
use crate::request_id::{
    generation_failure_response, is_canonical_request_id, new_request_id, RequestIdLayer,
    RequestIdMiddleware,
};
use vstd::math::min;

verus! {

/// The composed pipeline: the shared metrics registry and the three stages.
#[derive(Debug)]
pub struct Pipeline {
    pub metrics: MetricsState,
    pub tagger: RequestIdMiddleware,
    pub collector: MetricsMiddleware,
    pub limiter: RateLimitMiddleware,
}

/// Mathematical model of the pipeline: the counters and the window record.
pub ghost struct PipelineModel {
    pub metrics: MetricsModel,
    pub window: WindowModel,
}

impl View for Pipeline {
    type V = PipelineModel;

    open spec fn view(&self) -> PipelineModel {
        PipelineModel { metrics: self.metrics@, window: self.limiter@ }
    }
}

/// A pipeline model that the stages keep: the window is well formed and no
/// counter is negative.
pub open spec fn wf_model(m: PipelineModel) -> bool {
    &&& wf_window(m.window)
    &&& 0 <= m.metrics.total
    &&& 0 <= m.metrics.allowed
    &&& 0 <= m.metrics.rate_limited
}

/// What one request does to the model on its way in: the collector counts it,
/// then the admission controller decides it, and a rejection is recorded in
/// the rate-limited counter.
pub open spec fn spec_begin(m: PipelineModel, now: int) -> (PipelineModel, bool) {
    let entered = MetricsModel { total: m.metrics.total + 1, ..m.metrics };
    let stepped = spec_admit(m.window, now);
    let decided = if stepped.1 {
        entered
    } else {
        MetricsModel { rate_limited: entered.rate_limited + 1, ..entered }
    };
    ((PipelineModel { metrics: decided, window: stepped.0 }), stepped.1)
}

/// What one response does to the model on its way out: any status other than
/// the reject status counts as allowed; the reject status was already
/// recorded at admission time.
pub open spec fn spec_finish(m: PipelineModel, status: int) -> PipelineModel {
    if status == TOO_MANY_REQUESTS as int {
        m
    } else {
        PipelineModel {
            metrics: MetricsModel { allowed: m.metrics.allowed + 1, ..m.metrics },
            ..m
        }
    }
}

/// One whole request through the pipeline at time `now`: if admitted, the
/// inner handler answers with `handler_status`; if rejected, the reject
/// status short-circuits the chain. The pair is the model afterwards and the
/// final status.
pub open spec fn spec_request(m: PipelineModel, now: int, handler_status: int) -> (
    PipelineModel,
    int,
) {
    let begun = spec_begin(m, now);
    if begun.1 {
        (spec_finish(begun.0, handler_status), handler_status)
    } else {
        (begun.0, TOO_MANY_REQUESTS as int)
    }
}

/// A whole run: the requests in `reqs` — each a time and the status the inner
/// handler would answer — pass through the pipeline one after another.
pub open spec fn spec_run(m: PipelineModel, reqs: Seq<(int, int)>) -> PipelineModel
    decreases reqs.len(),
{
    if reqs.len() == 0 {
        m
    } else {
        spec_run(spec_request(m, reqs[0].0, reqs[0].1).0, reqs.drop_first())
    }
}

/// Everything `finish_request` needs about an admitted request: the
/// correlation identifier stamped on it, what the collector captured on
/// entry, and when it entered.
#[derive(Debug)]
pub struct RequestContext {
    pub request_id: String,
    pub method: String,
    pub path: String,
    pub start: u64,
}

/// The admission outcome of `begin_request`: an admitted request carries the
/// context for `finish_request`; a rejected one is already terminal, with the
/// finished response and its observability record.
#[derive(Debug)]
pub enum Admission {
    Admitted(RequestContext),
    Rejected(HttpResponse, LogRecord),
}

impl Pipeline {
    /// A pipeline whose window record stays within its limit.
    pub open spec fn wf(&self) -> bool {
        self.limiter.wf()
    }

    /// A fresh pipeline: counters at zero and a window opened at `now`.
    pub fn new(max_requests: u64, window_millis: u64, now: u64) -> (p: Self)
        ensures
            p.wf(),
            p@.metrics == (MetricsModel { total: 0, allowed: 0, rate_limited: 0 }),
            p@.window == (WindowModel {
                max_requests: max_requests as int,
                window: window_millis as int,
                count: 0,
                window_start: now as int,
            }),
    {
        Pipeline {
            metrics: MetricsState::new(),
            tagger: RequestIdLayer.layer(),
            collector: MetricsLayer.layer(),
            limiter: RateLimitLayer::new(max_requests, window_millis).layer(now),
        }
    }

    /// A consistent copy of the three counters, for the snapshot endpoint.
    pub fn metrics_snapshot(&self) -> (s: MetricsSnapshot)
        ensures
            s.total_requests == self@.metrics.total,
            s.allowed_requests == self@.metrics.allowed,
            s.rate_limited_requests == self@.metrics.rate_limited,
    {
        self.metrics.snapshot()
    }

    /// The inbound half of one request at time `now`, stamped with the given
    /// correlation identifier: the tagger sets the correlation header on the
    /// request, the collector counts it, and the admission controller decides
    /// it. A rejected request is terminal: its response — the reject status,
    /// a plain-text body, and the same correlation identifier — and its
    /// observability record come back here, and the inner handler is never
    /// invoked.
    pub fn begin_request(
        &mut self,
        req: &mut HttpRequest,
        request_id: String,
        now: u64,
    ) -> (r: Admission)
        requires
            old(self).wf(),
            old(self)@.metrics.total < u64::MAX,
            old(self)@.metrics.rate_limited < u64::MAX,
        ensures
            final(self).wf(),
            final(self)@ == spec_begin(old(self)@, now as int).0,
            spec_header_value(final(req).headers@, request_id_header()) == Some(request_id@),
            forall|n2: Seq<char>|
                n2 != request_id_header() ==> #[trigger] spec_header_value(
                    final(req).headers@,
                    n2,
                ) == spec_header_value(old(req).headers@, n2),
            final(req).method@ == old(req).method@,
            final(req).path@ == old(req).path@,
            r is Admitted <==> spec_begin(old(self)@, now as int).1,
            match r {
                Admission::Admitted(ctx) => {
                    &&& ctx.request_id@ == request_id@
                    &&& ctx.method@ == old(req).method@
                    &&& ctx.path@ == old(req).path@
                    &&& ctx.start == now
                },
                Admission::Rejected(resp, log) => {
                    &&& resp.status == TOO_MANY_REQUESTS
                    &&& resp.body@ == "Too Many Requests"@
                    &&& spec_header_value(resp.headers@, request_id_header()) == Some(request_id@)
                    &&& resp.headers@.len() == 1
                    &&& log.method@ == old(req).method@
                    &&& log.path@ == old(req).path@
                    &&& log.status == TOO_MANY_REQUESTS
                    &&& log.latency_ms == 0
                },
            },
    {
        self.tagger.tag_request(req, &request_id);
        self.collector.on_request(&mut self.metrics);
        let admitted = self.limiter.check_admission(&mut self.metrics, now);
        if admitted {
            Admission::Admitted(
                RequestContext {
                    request_id,
                    method: req.method.clone(),
                    path: req.path.clone(),
                    start: now,
                },
            )
        } else {
            let mut resp = rejection_response();
            self.tagger.tag_response(&mut resp, &request_id);
            let log = self.collector.on_response(
                &mut self.metrics,
                req.method.clone(),
                req.path.clone(),
                TOO_MANY_REQUESTS,
                now,
                now,
            );
            Admission::Rejected(resp, log)
        }
    }

    /// As `begin_request`, with the correlation identifier freshly generated:
    /// a canonical 36-character unique string, readable afterwards from the
    /// request's correlation header. When the entropy source cannot produce
    /// an identifier, the request fails with an internal-error response
    /// instead of proceeding without one: nothing is counted, nothing is
    /// decided, and the request is left untouched.
    pub fn start_request(&mut self, req: &mut HttpRequest, now: u64) -> (r: Result<
        Admission,
        HttpResponse,
    >)
        requires
            old(self).wf(),
            old(self)@.metrics.total < u64::MAX,
            old(self)@.metrics.rate_limited < u64::MAX,
        ensures
            final(self).wf(),
            match r {
                Result::Ok(adm) => {
                    &&& final(self)@ == spec_begin(old(self)@, now as int).0
                    &&& spec_header_value(final(req).headers@, request_id_header())
                        matches Some(id) && is_canonical_request_id(id)
                    &&& forall|n2: Seq<char>|
                        n2 != request_id_header() ==> #[trigger] spec_header_value(
                            final(req).headers@,
                            n2,
                        ) == spec_header_value(old(req).headers@, n2)
                    &&& final(req).method@ == old(req).method@
                    &&& final(req).path@ == old(req).path@
                    &&& (adm is Admitted <==> spec_begin(old(self)@, now as int).1)
                    &&& match adm {
                        Admission::Admitted(ctx) => {
                            &&& Some(ctx.request_id@) == spec_header_value(
                                final(req).headers@,
                                request_id_header(),
                            )
                            &&& ctx.method@ == old(req).method@
                            &&& ctx.path@ == old(req).path@
                            &&& ctx.start == now
                        },
                        Admission::Rejected(resp, log) => {
                            &&& resp.status == TOO_MANY_REQUESTS
                            &&& resp.body@ == "Too Many Requests"@
                            &&& spec_header_value(resp.headers@, request_id_header())
                                == spec_header_value(final(req).headers@, request_id_header())
                            &&& resp.headers@.len() == 1
                            &&& log.method@ == old(req).method@
                            &&& log.path@ == old(req).path@
                            &&& log.status == TOO_MANY_REQUESTS
                            &&& log.latency_ms == 0
                        },
                    }
                },
                Result::Err(resp) => {
                    &&& final(self)@ == old(self)@
                    &&& final(req).method@ == old(req).method@
                    &&& final(req).path@ == old(req).path@
                    &&& final(req).headers@ == old(req).headers@
                    &&& resp.status == INTERNAL_SERVER_ERROR
                    &&& resp.body@ == "Internal Server Error"@
                    &&& resp.headers@.len() == 0
                },
            },
    {
        match new_request_id() {
            Some(request_id) => Ok(self.begin_request(req, request_id, now)),
            None => Err(generation_failure_response()),
        }
    }

    /// The outbound half of an admitted request: the collector classifies the
    /// final status and produces the observability record with the elapsed
    /// time, and the tagger stamps the response with the same correlation
    /// identifier that `begin_request` stamped on the request. The response
    /// itself — status, body, other headers — passes through unchanged.
    pub fn finish_request(
        &mut self,
        ctx: RequestContext,
        resp: &mut HttpResponse,
        now: u64,
    ) -> (log: LogRecord)
        requires
            old(self).wf(),
            old(resp).status != TOO_MANY_REQUESTS ==> old(self)@.metrics.allowed < u64::MAX,
        ensures
            final(self).wf(),
            final(self)@ == spec_finish(old(self)@, old(resp).status as int),
            final(resp).status == old(resp).status,
            final(resp).body@ == old(resp).body@,
            spec_header_value(final(resp).headers@, request_id_header()) == Some(ctx.request_id@),
            forall|n2: Seq<char>|
                n2 != request_id_header() ==> #[trigger] spec_header_value(
                    final(resp).headers@,
                    n2,
                ) == spec_header_value(old(resp).headers@, n2),
            log.method@ == ctx.method@,
            log.path@ == ctx.path@,
            log.status == old(resp).status,
            log.latency_ms == spec_elapsed(ctx.start as int, now as int),
    {
        let RequestContext { request_id, method, path, start } = ctx;
        let status = resp.status;
        let log = self.collector.on_response(&mut self.metrics, method, path, status, start, now);
        self.tagger.tag_response(resp, &request_id);
        log
    }
}

/// All requests of `reqs` fall into the window that is open in `m`: each
/// arrives at or after the window opened and before it lapses.
pub open spec fn all_in_window(m: PipelineModel, reqs: Seq<(int, int)>) -> bool {
    forall|i: int|
        0 <= i < reqs.len() ==> m.window.window_start <= #[trigger] reqs[i].0
            < m.window.window_start + m.window.window
}

/// No inner handler of `reqs` answers with the reject status of its own.
pub open spec fn no_handler_rejects(reqs: Seq<(int, int)>) -> bool {
    forall|i: int| 0 <= i < reqs.len() ==> #[trigger] reqs[i].1 != TOO_MANY_REQUESTS as int
}

/// What a run within one window does to the model: of `n` requests, exactly
/// as many are admitted as the window still has room for, every request is
/// counted in the total, and each rejection is counted as rate-limited.
pub proof fn lemma_run_in_window(m: PipelineModel, reqs: Seq<(int, int)>)
    requires
        wf_model(m),
        m.window.window >= 1,
        all_in_window(m, reqs),
        no_handler_rejects(reqs),
    ensures
        wf_model(spec_run(m, reqs)),
        spec_run(m, reqs).window.window_start == m.window.window_start,
        spec_run(m, reqs).window.max_requests == m.window.max_requests,
        spec_run(m, reqs).window.window == m.window.window,
        spec_run(m, reqs).window.count == m.window.count + min(
            reqs.len() as int,
            m.window.max_requests - m.window.count,
        ),
        spec_run(m, reqs).metrics.total == m.metrics.total + reqs.len(),
        spec_run(m, reqs).metrics.allowed == m.metrics.allowed + min(
            reqs.len() as int,
            m.window.max_requests - m.window.count,
        ),
        spec_run(m, reqs).metrics.rate_limited == m.metrics.rate_limited + reqs.len() - min(
            reqs.len() as int,
            m.window.max_requests - m.window.count,
        ),
    decreases reqs.len(),
{
    if reqs.len() > 0 {
        let t = reqs[0].0;
        let s = reqs[0].1;
        assert(m.window.window_start <= t < m.window.window_start + m.window.window);
        let m1 = spec_request(m, t, s).0;
        assert(forall|i: int|
            0 <= i < reqs.drop_first().len() ==> #[trigger] reqs.drop_first()[i] == reqs[i + 1]);
        lemma_run_in_window(m1, reqs.drop_first());
    }
}

/// For a sequence of `n` requests issued within one window, with the window
/// fresh and `n` at most the limit: all `n` are allowed, the allowed counter
/// grows by `n`, and the rate-limited counter does not move.
pub proof fn lemma_all_admitted_within_limit(m: PipelineModel, reqs: Seq<(int, int)>)
    requires
        wf_model(m),
        m.window.window >= 1,
        all_in_window(m, reqs),
        no_handler_rejects(reqs),
        m.window.count == 0,
        reqs.len() <= m.window.max_requests,
    ensures
        spec_run(m, reqs).metrics.allowed == m.metrics.allowed + reqs.len(),
        spec_run(m, reqs).metrics.rate_limited == m.metrics.rate_limited,
        spec_run(m, reqs).metrics.total == m.metrics.total + reqs.len(),
{
    lemma_run_in_window(m, reqs);
}

/// For a sequence of `n` requests issued within one window, with the window
/// fresh and `n` over the limit: exactly `max_requests` are allowed and the
/// remaining `n - max_requests` are rejected, however the requests interleave
/// in time within the window; together they account for all `n`.
pub proof fn lemma_excess_rejected(m: PipelineModel, reqs: Seq<(int, int)>)
    requires
        wf_model(m),
        m.window.window >= 1,
        all_in_window(m, reqs),
        no_handler_rejects(reqs),
        m.window.count == 0,
        reqs.len() > m.window.max_requests,
    ensures
        spec_run(m, reqs).metrics.allowed == m.metrics.allowed + m.window.max_requests,
        spec_run(m, reqs).metrics.rate_limited == m.metrics.rate_limited + reqs.len()
            - m.window.max_requests,
        spec_run(m, reqs).metrics.total == m.metrics.total + reqs.len(),
{
    lemma_run_in_window(m, reqs);
}

/// After the window duration elapses, the counter resets: a request that
/// would have been rejected — the window is at a state that rejects, as the
/// rejection at `now_rejected` shows — is admitted once the window has
/// lapsed, provided the limit admits anything at all.
pub proof fn lemma_window_reset(m: PipelineModel, now_rejected: int, now_later: int)
    requires
        wf_model(m),
        m.window.max_requests >= 1,
        !spec_begin(m, now_rejected).1,
        now_later >= m.window.window_start + m.window.window,
    ensures
        spec_begin(m, now_later).1,
{
}

/// The total counter counts every request that entered the pipeline, whatever
/// its outcome and whenever it arrived.
pub proof fn lemma_total_counts_every_request(m: PipelineModel, reqs: Seq<(int, int)>)
    ensures
        spec_run(m, reqs).metrics.total == m.metrics.total + reqs.len(),
    decreases reqs.len(),
{
    if reqs.len() > 0 {
        lemma_total_counts_every_request(spec_request(m, reqs[0].0, reqs[0].1).0, reqs.drop_first());
    }
}

/// Once every request has completed, the ledger balances: allowed plus
/// rate-limited equals total, provided no inner handler answers with the
/// reject status of its own (such a response is classified as blocked even
/// though admission recorded nothing — the documented limitation of
/// classifying by status code).
pub proof fn lemma_ledger_balance(m: PipelineModel, reqs: Seq<(int, int)>)
    requires
        no_handler_rejects(reqs),
        m.metrics.allowed + m.metrics.rate_limited == m.metrics.total,
    ensures
        spec_run(m, reqs).metrics.allowed + spec_run(m, reqs).metrics.rate_limited == spec_run(
            m,
            reqs,
        ).metrics.total,
    decreases reqs.len(),
{
    if reqs.len() > 0 {
        assert(forall|i: int|
            0 <= i < reqs.drop_first().len() ==> #[trigger] reqs.drop_first()[i] == reqs[i + 1]);
        lemma_ledger_balance(spec_request(m, reqs[0].0, reqs[0].1).0, reqs.drop_first());
    }
}

} // verus!
