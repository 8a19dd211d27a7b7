//! The health endpoint's payload. The endpoint itself is an external
//! collaborator: a transport serves it from the unrestricted routing group.

use vstd::prelude::*;

verus! {

/// What the health endpoint reports.
#[derive(Debug)]
pub struct HealthResponse {
    pub status: String,
}

impl HealthResponse {
    /// The payload of a healthy process.
    pub fn healthy() -> (r: Self)
        ensures
            r.status@ == "healthy"@,
    {
        HealthResponse { status: "healthy".to_string() }
    }
}

} // verus!
