use vstd::prelude::*;
use vstd::string::StringExecFns;

verus! {

/// The answer of the health check.
pub struct HealthResponse {
    /// Always "ok".
    pub status: String,
    /// Always "Rust backend is running".
    pub message: String,
}

/// The health check: takes nothing, never fails, always gives the same answer.
pub fn health() -> (r: HealthResponse)
    ensures
        r.status@ == "ok"@,
        r.message@ == "Rust backend is running"@,
{
    HealthResponse {
        status: String::from_str("ok"),
        message: String::from_str("Rust backend is running"),
    }
}

} // verus!
