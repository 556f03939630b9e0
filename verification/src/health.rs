//! The health endpoint's answer.

use vstd::prelude::*;

verus! {

/// The body of a health answer.
#[derive(Debug)]
pub struct HealthResponse {
    pub status: String,
}

/// The answer to a health request: status 200 and `status: "healthy"`.
pub fn health_check() -> (r: (u16, HealthResponse))
    ensures
        r.0 == 200,
        r.1.status@ == "healthy"@,
{
    proof { reveal_strlit("healthy"); }
    (200, HealthResponse { status: "healthy".to_owned() })
}

} // verus!
