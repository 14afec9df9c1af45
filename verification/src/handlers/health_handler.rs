//! Liveness and readiness probes.
use vstd::prelude::*;

verus! {

/// Body of the readiness probe.
#[derive(Debug, Clone, Copy)]
pub struct ReadinessResponse {
    pub server: &'static str,
    pub database: &'static str,
}

/// `GET /health/live`: the process runs, so the answer is 200.
pub fn get_liveness() -> (status: u16)
    ensures
        status == 200,
{
    200
}

/// `GET /health/ready`: 200 with both parts "OK" when the database answered
/// its ping, else 503 with the database part "error".
pub fn get_readiness(database_ok: bool) -> (r: (u16, ReadinessResponse))
    ensures
        r.1.server@ == "OK"@,
        database_ok ==> r.0 == 200 && r.1.database@ == "OK"@,
        !database_ok ==> r.0 == 503 && r.1.database@ == "error"@,
{
    if database_ok {
        (200, ReadinessResponse { server: "OK", database: "OK" })
    } else {
        (503, ReadinessResponse { server: "OK", database: "error" })
    }
}

} // verus!
