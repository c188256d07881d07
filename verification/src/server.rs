//! Bodies of the health endpoints.
use vstd::prelude::*;

use crate::types::HealthResponse;

verus! {

/// The liveness answer: status `ok` and the running version.
pub fn healthz(version: &str) -> (r: HealthResponse)
    ensures
        r.status@ == "ok"@,
        r.version@ == version@,
{
    HealthResponse { status: String::from_str("ok"), version: String::from_str(version) }
}

/// The readiness answer, once storage has been checked: status `ready` and
/// the running version.
pub fn readyz(version: &str) -> (r: HealthResponse)
    ensures
        r.status@ == "ready"@,
        r.version@ == version@,
{
    HealthResponse { status: String::from_str("ready"), version: String::from_str(version) }
}

} // verus!
