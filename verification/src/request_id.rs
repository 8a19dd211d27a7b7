//! Request correlation: every request is stamped with a fresh unique
//! identifier before any downstream stage runs, and the same identifier is
//! stamped on the outbound response, so one exchange can be traced across
//! logs and across the request/response boundary.

use vstd::prelude::*;

use crate::http_model::{
    request_id_header, request_id_header_name, spec_header_value, set_header, HttpRequest,
    HttpResponse, INTERNAL_SERVER_ERROR,
};

verus! {

/// Configuration of the correlation stage; it carries no state.
#[derive(Debug, Clone, Copy)]
pub struct RequestIdLayer;

impl RequestIdLayer {
    /// The correlation stage itself.
    pub fn layer(&self) -> (m: RequestIdMiddleware) {
        RequestIdMiddleware {  }
    }
}

/// The correlation stage: stamps the identifier on both sides of an exchange.
#[derive(Debug, Clone, Copy)]
pub struct RequestIdMiddleware {}

/// A lowercase hexadecimal digit, as the canonical identifier encoding uses.
pub open spec fn is_hex_digit(c: char) -> bool {
    ('0' <= c && c <= '9') || ('a' <= c && c <= 'f')
}

/// The canonical hyphenated identifier shape: 36 characters, hyphens at
/// positions 8, 13, 18 and 23, lowercase hexadecimal digits everywhere else.
pub open spec fn is_canonical_request_id(s: Seq<char>) -> bool {
    &&& s.len() == 36
    &&& forall|i: int|
        0 <= i < 36 ==> (if i == 8 || i == 13 || i == 18 || i == 23 {
            s[i] == '-'
        } else {
            is_hex_digit(#[trigger] s[i])
        })
}

/// Relies on getrandom::fill: fills the buffer from the operating system's
/// entropy source, or reports that the source failed instead of panicking.
/// The bytes are random, so nothing ties them to earlier or later calls.
#[verifier::external_body]
fn random_bytes_16() -> (r: Option<[u8; 16]>) {
    let mut buf = [0u8; 16];
    match getrandom::fill(&mut buf) {
        Ok(()) => Some(buf),
        Err(_) => None,
    }
}

/// Relies on uuid::Builder::from_random_bytes and the Display form of
/// uuid::Uuid: the version-4 and variant bits are set over the given bytes
/// and the identifier is rendered in its canonical form — 36 characters,
/// hyphenated, lowercase hexadecimal. Neither call fails or panics.
#[verifier::external_body]
fn format_request_id(bytes: [u8; 16]) -> (r: String)
    ensures
        is_canonical_request_id(r@),
{
    uuid::Builder::from_random_bytes(bytes).into_uuid().to_string()
}

/// A fresh correlation identifier: 128 random bits in the canonical
/// 36-character hyphenated form, or nothing when the entropy source fails.
pub(crate) fn new_request_id() -> (r: Option<String>)
    ensures
        r matches Some(id) ==> is_canonical_request_id(id@),
{
    match random_bytes_16() {
        Some(bytes) => Some(format_request_id(bytes)),
        None => None,
    }
}

/// The terminal outcome of a request whose correlation identifier could not
/// be generated: the exchange fails with an internal error rather than
/// proceeding without an identifier.
pub fn generation_failure_response() -> (r: HttpResponse)
    ensures
        r.status == INTERNAL_SERVER_ERROR,
        r.body@ == "Internal Server Error"@,
        r.headers@.len() == 0,
{
    HttpResponse {
        status: INTERNAL_SERVER_ERROR,
        body: "Internal Server Error".to_string(),
        headers: Vec::new(),
    }
}

impl RequestIdMiddleware {
    /// Stamps `id` as the correlation header of the inbound request, so every
    /// downstream stage and the handler can read it. Method, path and the
    /// other headers stay as they were.
    pub fn tag_request(&self, req: &mut HttpRequest, id: &String)
        ensures
            spec_header_value(final(req).headers@, request_id_header()) == Some(id@),
            forall|n2: Seq<char>|
                n2 != request_id_header() ==> #[trigger] spec_header_value(
                    final(req).headers@,
                    n2,
                ) == spec_header_value(old(req).headers@, n2),
            final(req).method@ == old(req).method@,
            final(req).path@ == old(req).path@,
    {
        set_header(&mut req.headers, request_id_header_name(), id.clone());
    }

    /// Stamps `id` as the correlation header of the outbound response. Status,
    /// body and the other headers stay as they were.
    pub fn tag_response(&self, resp: &mut HttpResponse, id: &String)
        ensures
            spec_header_value(final(resp).headers@, request_id_header()) == Some(id@),
            forall|n2: Seq<char>|
                n2 != request_id_header() ==> #[trigger] spec_header_value(
                    final(resp).headers@,
                    n2,
                ) == spec_header_value(old(resp).headers@, n2),
            final(resp).status == old(resp).status,
            final(resp).body@ == old(resp).body@,
            old(resp).headers@.len() == 0 ==> final(resp).headers@.len() == 1,
    {
        set_header(&mut resp.headers, request_id_header_name(), id.clone());
    }
}

} // verus!
