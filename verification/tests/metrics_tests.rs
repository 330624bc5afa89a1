use crabrace::metrics::RequestMetrics;
use crabrace::metrics::increment_providers_requests;

#[test]
fn test_metrics_registration() {
    let mut metrics = RequestMetrics::new();
    let initial = metrics.providers_requests_total;

    // Increment
    increment_providers_requests(&mut metrics);

    // Verify increment
    assert_eq!(metrics.providers_requests_total, initial + 1);
}

#[test]
fn test_multiple_increments() {
    let mut metrics = RequestMetrics::new();
    let initial = metrics.providers_requests_total;

    for _ in 0..5 {
        increment_providers_requests(&mut metrics);
    }

    assert_eq!(metrics.providers_requests_total, initial + 5);
}

#[test]
fn test_counter_wraps_at_maximum() {
    let mut metrics = RequestMetrics { providers_requests_total: u64::MAX };
    increment_providers_requests(&mut metrics);
    assert_eq!(metrics.providers_requests_total, 0);
}
