//! The health probe.

use vstd::prelude::*;

verus! {

/// Body of a healthy probe's response.
#[derive(Debug, Clone, Copy, PartialEq, Eq)]
pub struct HealthReport {
    pub status: &'static str,
    pub database: &'static str,
}

/// What the health probe answers, given whether the database answered a
/// trivial query.
pub open spec fn health(database_reachable: bool) -> Result<HealthReport, u16> {
    if database_reachable {
        Ok(HealthReport { status: "ok", database: "connected" })
    } else {
        Err(503u16)
    }
}

/// Answers the health probe: the report when the database is reachable, the
/// status 503 (service unavailable) when it is not.
pub fn health_check(database_reachable: bool) -> (r: Result<HealthReport, u16>)
    ensures
        r == health(database_reachable),
{
    if database_reachable {
        Ok(HealthReport { status: "ok", database: "connected" })
    } else {
        Err(503)
    }
}

} // verus!
