//! The health records the service reports.

use vstd::prelude::*;

verus! {

/// The health of the service.
#[derive(Debug, Clone)]
pub struct HealthStatus {
    pub status: String,
}

impl Default for HealthStatus {
    /// A service starts out healthy.
    fn default() -> (health: Self)
        ensures
            health.status@ == "healthy"@,
    {
        HealthStatus { status: String::from_str("healthy") }
    }
}

/// What the health endpoint answers.
#[derive(Debug, Clone)]
pub struct HealthResponse {
    pub status: String,
    pub uptime_seconds: u64,
    pub service: String,
}

impl HealthResponse {
    /// The answer for a health status after `uptime_seconds` of running:
    /// the status as it stands, under the service's name.
    pub fn report(health: &HealthStatus, uptime_seconds: u64) -> (response: Self)
        ensures
            response.status@ == health.status@,
            response.uptime_seconds == uptime_seconds,
            response.service@ == "perptrix-signal-engine"@,
    {
        HealthResponse {
            status: health.status.clone(),
            uptime_seconds,
            service: String::from_str("perptrix-signal-engine"),
        }
    }
}

} // verus!
