use scoopit_api_demo::metrics::request_metrics;

#[test]
fn record_leaves_exempt_requests_out() {
    let mut metrics = request_metrics().unwrap();
    assert!(!metrics.record("GET", "/metrics", 200));
    assert!(!metrics.record("GET", "/health", 200));
    assert!(!metrics.record("GET", "/healthz", 404));
    assert!(!metrics.record("POST", "/health", 405));
    assert_eq!(metrics.requests("GET", 200), 0);
    assert_eq!(metrics.requests("GET", 404), 0);
    assert_eq!(metrics.requests("POST", 405), 0);
    assert!(metrics.record("GET", "/version", 200));
    assert_eq!(metrics.requests("GET", 200), 1);
}
