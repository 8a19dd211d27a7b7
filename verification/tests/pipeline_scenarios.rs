use request_pipeline::http_model::{get_header, HttpRequest, HttpResponse, TOO_MANY_REQUESTS};
use request_pipeline::pipeline::{Admission, Pipeline};

fn new_req(path: &str) -> HttpRequest {
    HttpRequest { method: "GET".to_string(), path: path.to_string(), headers: Vec::new() }
}

fn ok_resp() -> HttpResponse {
    HttpResponse { status: 200, body: "ok".to_string(), headers: Vec::new() }
}

/// Runs one whole request at `now`; the handler answers 200 when admitted.
/// Returns the final status.
fn run_one(p: &mut Pipeline, now: u64) -> u16 {
    let mut req = new_req("/health");
    match p.begin_request(&mut req, format!("id-{}", now), now) {
        Admission::Admitted(ctx) => {
            let mut resp = ok_resp();
            let _log = p.finish_request(ctx, &mut resp, now);
            resp.status
        }
        Admission::Rejected(resp, _log) => resp.status,
    }
}

#[test]
fn five_then_sixth_then_after_window() {
    let mut p = Pipeline::new(5, 10_000, 0);

    for i in 0..5u64 {
        assert_ne!(run_one(&mut p, i), TOO_MANY_REQUESTS);
    }
    let s = p.metrics_snapshot();
    assert_eq!(s.total_requests, 5);
    assert_eq!(s.allowed_requests, 5);
    assert_eq!(s.rate_limited_requests, 0);

    let mut req = new_req("/health");
    match p.begin_request(&mut req, "id-6".to_string(), 5) {
        Admission::Admitted(_) => panic!("sixth request must be rejected"),
        Admission::Rejected(resp, log) => {
            assert_eq!(resp.status, 429);
            assert_eq!(resp.body, "Too Many Requests");
            assert_eq!(log.status, 429);
        }
    }
    let s = p.metrics_snapshot();
    assert_eq!(s.total_requests, 6);
    assert_eq!(s.allowed_requests, 5);
    assert_eq!(s.rate_limited_requests, 1);

    assert_ne!(run_one(&mut p, 10_000), TOO_MANY_REQUESTS);
    let s = p.metrics_snapshot();
    assert_eq!(s.total_requests, 7);
    assert_eq!(s.allowed_requests, 6);
    assert_eq!(s.rate_limited_requests, 1);
}

#[test]
fn all_admitted_within_limit() {
    let mut p = Pipeline::new(8, 1_000, 0);
    for i in 0..8u64 {
        assert_ne!(run_one(&mut p, i * 10), TOO_MANY_REQUESTS);
    }
    let s = p.metrics_snapshot();
    assert_eq!(s.allowed_requests, 8);
    assert_eq!(s.rate_limited_requests, 0);
}

#[test]
fn burst_over_limit_admits_exactly_max() {
    let max = 5u64;
    let mut p = Pipeline::new(max, 10_000, 0);
    let mut admitted = 0u64;
    let mut rejected = 0u64;
    for _ in 0..(max * 3) {
        if run_one(&mut p, 0) == TOO_MANY_REQUESTS {
            rejected += 1;
        } else {
            admitted += 1;
        }
    }
    assert_eq!(admitted, max);
    assert_eq!(rejected, max * 2);
    let s = p.metrics_snapshot();
    assert_eq!(s.total_requests, max * 3);
    assert_eq!(s.allowed_requests, max);
    assert_eq!(s.rate_limited_requests, max * 2);
    assert_eq!(s.allowed_requests + s.rate_limited_requests, s.total_requests);
}

#[test]
fn window_reset_admits_previously_rejected() {
    let mut p = Pipeline::new(1, 50, 100);
    assert_ne!(run_one(&mut p, 100), TOO_MANY_REQUESTS);
    assert_eq!(run_one(&mut p, 120), TOO_MANY_REQUESTS);
    assert_ne!(run_one(&mut p, 150), TOO_MANY_REQUESTS);
}

#[test]
fn total_counts_every_request() {
    let mut p = Pipeline::new(2, 1_000, 0);
    for i in 0..9u64 {
        run_one(&mut p, i);
    }
    assert_eq!(p.metrics_snapshot().total_requests, 9);
}

#[test]
fn correlation_header_on_both_sides() {
    let mut p = Pipeline::new(5, 1_000, 0);
    let mut req = new_req("/health");
    let ctx = match p.begin_request(&mut req, "abc-123".to_string(), 0) {
        Admission::Admitted(ctx) => ctx,
        Admission::Rejected(_, _) => panic!("first request must be admitted"),
    };
    let seen_by_handler = get_header(&req.headers, "x-request-id").expect("request is stamped");
    assert_eq!(seen_by_handler, "abc-123");
    let mut resp = ok_resp();
    p.finish_request(ctx, &mut resp, 3);
    let seen_by_caller = get_header(&resp.headers, "x-request-id").expect("response is stamped");
    assert_eq!(seen_by_caller, seen_by_handler);
}

#[test]
fn correlation_header_on_rejected_response() {
    let mut p = Pipeline::new(0, 1_000, 0);
    let mut req = new_req("/health");
    match p.begin_request(&mut req, "rej-1".to_string(), 0) {
        Admission::Admitted(_) => panic!("limit of zero admits nothing"),
        Admission::Rejected(resp, _) => {
            assert_eq!(get_header(&resp.headers, "x-request-id").as_deref(), Some("rej-1"));
            // no headers beyond the one the tagger added
            assert_eq!(resp.headers.len(), 1);
        }
    }
}

#[test]
fn generated_identifiers_are_canonical_and_fresh() {
    let mut p = Pipeline::new(5, 1_000, 0);
    let mut req1 = new_req("/a");
    let id1 = match p.start_request(&mut req1, 0) {
        Ok(Admission::Admitted(ctx)) => ctx.request_id,
        _ => panic!("must be admitted"),
    };
    let mut req2 = new_req("/b");
    let id2 = match p.start_request(&mut req2, 1) {
        Ok(Admission::Admitted(ctx)) => ctx.request_id,
        _ => panic!("must be admitted"),
    };
    for id in [&id1, &id2] {
        assert_eq!(id.len(), 36);
        for (i, c) in id.chars().enumerate() {
            if i == 8 || i == 13 || i == 18 || i == 23 {
                assert_eq!(c, '-');
            } else {
                assert!(c.is_ascii_hexdigit() && !c.is_ascii_uppercase());
            }
        }
    }
    assert_ne!(id1, id2);
    assert_eq!(get_header(&req1.headers, "x-request-id"), Some(id1));
}

#[test]
fn handler_response_passes_through_unchanged() {
    let mut p = Pipeline::new(5, 1_000, 0);
    let mut req = new_req("/health");
    let ctx = match p.begin_request(&mut req, "pt-1".to_string(), 0) {
        Admission::Admitted(ctx) => ctx,
        Admission::Rejected(_, _) => panic!("must be admitted"),
    };
    let mut resp = HttpResponse {
        status: 503,
        body: "unavailable".to_string(),
        headers: Vec::new(),
    };
    let log = p.finish_request(ctx, &mut resp, 42);
    assert_eq!(resp.status, 503);
    assert_eq!(resp.body, "unavailable");
    assert_eq!(log.method, "GET");
    assert_eq!(log.path, "/health");
    assert_eq!(log.status, 503);
    assert_eq!(log.latency_ms, 42);
    // an error response still counts as allowed: it was not blocked
    assert_eq!(p.metrics_snapshot().allowed_requests, 1);
}
