//! Readiness of the sidecar: where to ask, and how to read the answer.

use vstd::prelude::*;
use crate::text::{decimal, decimal_text};

verus! {

/// How long a readiness probe may take, in milliseconds.
pub const HEALTH_TIMEOUT_MILLIS: u64 = 3000;

/// What one readiness probe found.
#[derive(Clone, Copy, Debug, PartialEq, Eq, Structural)]
pub enum HealthStatus {
    /// The sidecar answered with a status in 200..=299.
    Healthy,
    /// No answer: the connection failed or the probe timed out.
    Unreachable,
    /// The sidecar answered with this status, outside 200..=299.
    ErrorStatus(u16),
}

/// Whether an HTTP status code reports success.
pub open spec fn is_success_status(status: u16) -> bool {
    200 <= status <= 299
}

/// Whether an HTTP status code reports success.
pub fn is_success(status: u16) -> (success: bool)
    ensures
        success == is_success_status(status),
{
    200 <= status && status <= 299
}

/// The reading of a probe's answer: `None` when no response arrived, else
/// the status code of the response.
pub open spec fn health_of(response: Option<u16>) -> HealthStatus {
    match response {
        None => HealthStatus::Unreachable,
        Some(status) => if is_success_status(status) {
            HealthStatus::Healthy
        } else {
            HealthStatus::ErrorStatus(status)
        },
    }
}

/// Reads a probe's answer. `response` is `None` when the connection failed or
/// timed out, else the status code that came back.
pub fn classify_probe(response: Option<u16>) -> (status: HealthStatus)
    ensures
        status == health_of(response),
{
    match response {
        None => HealthStatus::Unreachable,
        Some(code) => if is_success(code) {
            HealthStatus::Healthy
        } else {
            HealthStatus::ErrorStatus(code)
        },
    }
}

/// The address of the readiness endpoint of a sidecar on `port`.
pub open spec fn health_url_text(port: u16) -> Seq<char> {
    "http://localhost:"@ + decimal_text(port as nat) + "/health"@
}

/// The address to probe for a sidecar listening on `port`.
pub fn health_url(port: u16) -> (url: String)
    ensures
        url@ == health_url_text(port),
{
    let mut url = "http://localhost:".to_owned();
    let digits = decimal(port as u64);
    url.append(digits.as_str());
    url.append("/health");
    url
}

} // verus!
