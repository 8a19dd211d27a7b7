//! A composable HTTP request-interceptor pipeline, verified with Verus.
//!
//! The pipeline wraps an arbitrary inner request handler with three stages:
//! a request tagger that stamps a correlation identifier on both sides of a
//! request/response exchange, a metrics collector that meters traffic, and an
//! admission controller that rate-limits requests with a fixed window.
//! The stages here are the pipeline's decision logic: a transport (an HTTP
//! server, a clock, an entropy source) drives them and performs the I/O.

pub mod health;
pub mod http_model;
pub mod metrics;
pub mod metrics_state;
pub mod pipeline;
pub mod rate_limit;
pub mod request_id;
