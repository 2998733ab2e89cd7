//! Classification of a health probe's outcome. The probe itself (an HTTP
//! GET with a deadline) runs outside the library; its observable outcome —
//! the HTTP status and the measured latency, or the fact that the transport
//! failed — is classified here.

use vstd::prelude::*;

verus! {

/// Latency at or above this many milliseconds marks a successful response
/// as degraded.
pub const DEGRADED_LATENCY_MS: u64 = 2000;

#[derive(PartialEq, Eq, Structural, Clone, Copy, Debug)]
pub enum HealthStatus {
    Up,
    Degraded,
    Down,
}

impl HealthStatus {
    /// The wire spelling of the status.
    pub open spec fn spec_label(self) -> Seq<char> {
        match self {
            HealthStatus::Up => "up"@,
            HealthStatus::Degraded => "degraded"@,
            HealthStatus::Down => "down"@,
        }
    }

    pub fn label(&self) -> (r: &'static str)
        ensures
            r@ == self.spec_label(),
    {
        match self {
            HealthStatus::Up => "up",
            HealthStatus::Degraded => "degraded",
            HealthStatus::Down => "down",
        }
    }
}

/// What a health probe observed: a response with its status code and
/// latency, or a transport failure (connection error or timeout).
#[derive(Clone, Copy, Debug)]
pub enum ProbeOutcome {
    Responded { http_status: u16, latency_ms: u64 },
    Failed,
}

/// One classified health check.
#[derive(Debug)]
pub struct HealthResult {
    pub status: HealthStatus,
    pub latency_ms: u64,
    pub http_status: Option<u16>,
    /// Whether this check counts toward the error rate.
    pub is_error: bool,
}

pub open spec fn is_success_code(c: u16) -> bool {
    200 <= c < 300
}

pub open spec fn is_server_error_code(c: u16) -> bool {
    500 <= c < 600
}

/// Classifies a probe outcome:
/// - a fast success (2xx under the latency threshold) is `up`, not an error;
/// - a slow success is `degraded`, not an error;
/// - a 5xx is `degraded` and an error;
/// - any other response (the service is reachable) is `degraded`, not an
///   error;
/// - a transport failure or timeout is `down` and an error, with latency
///   reported as 0 and no status code.
pub fn check_health(outcome: ProbeOutcome) -> (r: HealthResult)
    ensures
        match outcome {
            ProbeOutcome::Responded { http_status, latency_ms } => {
                &&& r.latency_ms == latency_ms
                &&& r.http_status == Some(http_status)
                &&& r.status == if is_success_code(http_status) && latency_ms
                    < DEGRADED_LATENCY_MS {
                    HealthStatus::Up
                } else {
                    HealthStatus::Degraded
                }
                &&& r.is_error == is_server_error_code(http_status)
            },
            ProbeOutcome::Failed => {
                &&& r.latency_ms == 0
                &&& r.http_status is None
                &&& r.status == HealthStatus::Down
                &&& r.is_error
            },
        },
{
    match outcome {
        ProbeOutcome::Responded { http_status, latency_ms } => {
            let success = 200 <= http_status && http_status < 300;
            let server_error = 500 <= http_status && http_status < 600;
            let status = if success && latency_ms < DEGRADED_LATENCY_MS {
                HealthStatus::Up
            } else {
                HealthStatus::Degraded
            };
            HealthResult {
                status,
                latency_ms,
                http_status: Some(http_status),
                is_error: server_error,
            }
        },
        ProbeOutcome::Failed => HealthResult {
            status: HealthStatus::Down,
            latency_ms: 0,
            http_status: None,
            is_error: true,
        },
    }
}

} // verus!
