use request_pipeline::health::HealthResponse;
use request_pipeline::http_model::{get_header, set_header, Header, TOO_MANY_REQUESTS};
use request_pipeline::metrics::MetricsLayer;
use request_pipeline::metrics_state::MetricsState;
use request_pipeline::rate_limit::{rejection_response, RateLimitLayer};
use request_pipeline::request_id::{generation_failure_response, RequestIdLayer};

#[test]
fn counters_increment_independently() {
    let mut m = MetricsState::new();
    let s = m.snapshot();
    assert_eq!(s.total_requests, 0);
    assert_eq!(s.allowed_requests, 0);
    assert_eq!(s.rate_limited_requests, 0);

    m.inc_total();
    m.inc_total();
    m.inc_allowed();
    m.inc_rate_limited();
    let s = m.snapshot();
    assert_eq!(s.total_requests, 2);
    assert_eq!(s.allowed_requests, 1);
    assert_eq!(s.rate_limited_requests, 1);
}

#[test]
fn collector_classifies_by_status() {
    let collector = MetricsLayer.layer();
    let mut m = MetricsState::new();
    let log = collector.on_response(&mut m, "GET".to_string(), "/x".to_string(), 200, 10, 25);
    assert_eq!(m.snapshot().allowed_requests, 1);
    assert_eq!(log.latency_ms, 15);
    let log = collector.on_response(
        &mut m,
        "GET".to_string(),
        "/x".to_string(),
        TOO_MANY_REQUESTS,
        10,
        12,
    );
    assert_eq!(m.snapshot().allowed_requests, 1);
    assert_eq!(log.status, 429);
}

#[test]
fn admission_rolls_window_over() {
    let mut m = MetricsState::new();
    let mut limiter = RateLimitLayer::new(2, 100).layer(1_000);
    assert!(limiter.check_admission(&mut m, 1_000));
    assert!(limiter.check_admission(&mut m, 1_050));
    assert!(!limiter.check_admission(&mut m, 1_099));
    assert_eq!(m.snapshot().rate_limited_requests, 1);
    assert!(limiter.check_admission(&mut m, 1_100));
    assert_eq!(m.snapshot().rate_limited_requests, 1);
}

#[test]
fn rejection_response_is_the_contractual_outcome() {
    let r = rejection_response();
    assert_eq!(r.status, 429);
    assert_eq!(r.body, "Too Many Requests");
    assert!(r.headers.is_empty());
}

#[test]
fn tagger_stamps_and_replaces() {
    let tagger = RequestIdLayer.layer();
    let mut resp = rejection_response();
    let id = "one".to_string();
    tagger.tag_response(&mut resp, &id);
    assert_eq!(get_header(&resp.headers, "x-request-id").as_deref(), Some("one"));
    let id = "two".to_string();
    tagger.tag_response(&mut resp, &id);
    assert_eq!(get_header(&resp.headers, "x-request-id").as_deref(), Some("two"));
    assert_eq!(resp.headers.len(), 1);
}

#[test]
fn set_header_keeps_other_names() {
    let mut headers = vec![Header { name: "accept".to_string(), value: "*/*".to_string() }];
    set_header(&mut headers, "x-request-id", "r1".to_string());
    assert_eq!(get_header(&headers, "accept").as_deref(), Some("*/*"));
    assert_eq!(get_header(&headers, "x-request-id").as_deref(), Some("r1"));
    assert_eq!(get_header(&headers, "host"), None);
}

#[test]
fn generation_failure_is_a_bounded_internal_error() {
    let r = generation_failure_response();
    assert_eq!(r.status, 500);
    assert_eq!(r.body, "Internal Server Error");
    assert!(r.headers.is_empty());
}

#[test]
fn health_payload() {
    assert_eq!(HealthResponse::healthy().status, "healthy");
}
