//! Health-probe interpretation.
//!
//! The application issues the HTTP requests; this module fixes the
//! endpoints, the timeout budget, and the reading of each outcome. A
//! transport failure — connection refused, timeout, any other error — is
//! read as "not alive", never raised as a fault, so callers may poll at
//! their own cadence.

use vstd::prelude::*;

use crate::decimal::dec_digits;
use crate::decimal::u16_to_decimal;

verus! {

/// Seconds allowed for a plain liveness request.
pub const LIVENESS_TIMEOUT_SECS: u64 = 2;

/// Seconds allowed for a data-bearing request such as listing the model
/// catalog.
pub const CATALOG_TIMEOUT_SECS: u64 = 5;

/// What a single HTTP request yielded: a response with its status code,
/// or no response at all (connection refused, timeout, or any other
/// transport error).
#[derive(Clone, Copy, PartialEq, Eq, Structural, Debug)]
pub enum ProbeOutcome {
    Response(u16),
    NoResponse,
}

/// A response with a success status means the service is alive; any
/// other status, or no response, means it is not.
pub open spec fn spec_is_alive(o: ProbeOutcome) -> bool {
    match o {
        ProbeOutcome::Response(status) => 200 <= status < 300,
        ProbeOutcome::NoResponse => false,
    }
}

/// Reads one probe outcome; errors are a `false`, not a fault.
pub fn probe_indicates_alive(o: &ProbeOutcome) -> (r: bool)
    ensures
        r == spec_is_alive(*o),
{
    match o {
        ProbeOutcome::Response(status) => 200 <= *status && *status < 300,
        ProbeOutcome::NoResponse => false,
    }
}

/// The model runtime is running iff its catalog endpoint answered with a
/// success status.
pub fn check_ollama_running(o: &ProbeOutcome) -> (r: bool)
    ensures
        r == spec_is_alive(*o),
{
    probe_indicates_alive(o)
}

/// Whether the backend's secondary path must be tried: whenever the
/// health path did not yield success. The health path may answer with a
/// failure before it is implemented while the root path already serves,
/// so only a success on the primary is final.
pub open spec fn spec_backend_needs_fallback(primary: ProbeOutcome) -> bool {
    !spec_is_alive(primary)
}

/// Decides whether to probe the backend's root path after the health
/// path.
pub fn backend_needs_fallback(primary: &ProbeOutcome) -> (r: bool)
    ensures
        r == spec_backend_needs_fallback(*primary),
{
    !probe_indicates_alive(primary)
}

/// The backend's aggregate health: either path succeeding counts as
/// alive.
pub open spec fn spec_backend_alive(primary: ProbeOutcome, fallback: ProbeOutcome) -> bool {
    spec_is_alive(primary) || spec_is_alive(fallback)
}

/// The backend health verdict from both probes. `fallback` matters only
/// when the primary did not succeed; a caller that did not need to
/// probe it passes `NoResponse`.
pub fn check_backend_health(primary: &ProbeOutcome, fallback: &ProbeOutcome) -> (r: bool)
    ensures
        r == spec_backend_alive(*primary, *fallback),
{
    probe_indicates_alive(primary) || probe_indicates_alive(fallback)
}

/// Law (probe errors are answers, not faults): an outcome without a
/// response reads as "not alive" for either service — even when the
/// backend's secondary path failed too — and never as an error.
pub proof fn lemma_probe_failure_reads_not_alive(fallback: ProbeOutcome)
    ensures
        !spec_is_alive(ProbeOutcome::NoResponse),
        spec_backend_alive(ProbeOutcome::NoResponse, fallback) == spec_is_alive(fallback),
        !spec_backend_alive(ProbeOutcome::NoResponse, ProbeOutcome::NoResponse),
{
}

/// The model runtime's catalog endpoint, also its liveness target.
pub fn ollama_tags_url() -> (r: &'static str)
    ensures
        r@ == "http://127.0.0.1:11434/api/tags"@,
{
    "http://127.0.0.1:11434/api/tags"
}

/// The backend's primary health endpoint on the configured port.
pub open spec fn spec_backend_health_url(port: u16) -> Seq<char> {
    "http://127.0.0.1:"@ + dec_digits(port as nat) + "/health"@
}

/// The backend's secondary (root) endpoint on the configured port.
pub open spec fn spec_backend_root_url(port: u16) -> Seq<char> {
    "http://127.0.0.1:"@ + dec_digits(port as nat) + "/"@
}

/// Writes the backend's primary health endpoint.
pub fn backend_health_url(port: u16) -> (r: String)
    ensures
        r@ == spec_backend_health_url(port),
{
    let mut s = String::new();
    s.append("http://127.0.0.1:");
    let d = u16_to_decimal(port);
    s.append(d.as_str());
    s.append("/health");
    proof {
        assert(s@ =~= spec_backend_health_url(port));
    }
    s
}

/// Writes the backend's secondary (root) endpoint.
pub fn backend_root_url(port: u16) -> (r: String)
    ensures
        r@ == spec_backend_root_url(port),
{
    let mut s = String::new();
    s.append("http://127.0.0.1:");
    let d = u16_to_decimal(port);
    s.append(d.as_str());
    s.append("/");
    proof {
        assert(s@ =~= spec_backend_root_url(port));
    }
    s
}

} // verus!
