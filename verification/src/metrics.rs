//! Request counters for the serving facade.
//!
//! The counters are plain values owned by whoever serves requests and passed
//! explicitly; exposing them in a pull-style text format is the transport
//! layer's business.

use vstd::prelude::*;

verus! {

/// The request counters the service keeps.
pub struct RequestMetrics {
    /// How many requests the providers endpoint has answered, wrapping on
    /// overflow.
    pub providers_requests_total: u64,
}

impl RequestMetrics {
    /// Fresh counters, all zero.
    pub fn new() -> (m: RequestMetrics)
        ensures
            m.providers_requests_total == 0,
    {
        RequestMetrics { providers_requests_total: 0 }
    }
}

/// Count one more request to the providers endpoint; the counter wraps
/// around at its maximum.
pub fn increment_providers_requests(metrics: &mut RequestMetrics)
    ensures
        final(metrics).providers_requests_total == if old(metrics).providers_requests_total
            == u64::MAX {
            0u64
        } else {
            (old(metrics).providers_requests_total + 1) as u64
        },
{
    metrics.providers_requests_total = metrics.providers_requests_total.wrapping_add(1);
}

} // verus!
