//! The liveness report.

use vstd::prelude::*;
use vstd::string::StringExecFns;
use crate::models::HealthResponse;

verus! {

/// How the report describes the database, given the outcome of a probe
/// (the failure as text).
pub open spec fn database_status(probe: Result<(), String>) -> Seq<char> {
    match probe {
        Ok(_) => "connected"@,
        Err(e) => "error: "@ + e@,
    }
}

/// Builds the report from the outcome of a database probe. The service
/// itself always reports `ok`.
pub fn health_check(probe: &Result<(), String>, version: &str) -> (r: HealthResponse)
    ensures
        r.status@ == "ok"@,
        r.version@ == version@,
        r.database@ == database_status(*probe),
{
    let database = match probe {
        Ok(_) => String::from_str("connected"),
        Err(e) => String::from_str("error: ").concat(e.as_str()),
    };
    HealthResponse {
        status: String::from_str("ok"),
        version: String::from_str(version),
        database,
    }
}

} // verus!
