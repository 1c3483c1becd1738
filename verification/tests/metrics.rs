use messaging::metrics::{Metrics, RequestLabel};

fn label(method: &str, path: &str, status: u16) -> RequestLabel {
    RequestLabel { method: method.to_string(), path: path.to_string(), status }
}

#[test]
fn first_observation_creates_the_series() {
    let mut m = Metrics::new();
    assert_eq!(m.series_count(), 0);
    m.record(label("GET", "/v1/reply", 200), 10_000);
    assert_eq!(m.series_count(), 1);
    assert_eq!(m.counter_value(&label("GET", "/v1/reply", 200)), Some(1));
    assert_eq!(m.histogram_stats(&label("GET", "/v1/reply", 200)), Some((1, 10_000)));
}

#[test]
fn equal_labels_reuse_the_series() {
    let mut m = Metrics::new();
    m.record(label("GET", "/v1/reply", 200), 10_000);
    m.record(label("GET", "/v1/reply", 200), 20_000);
    assert_eq!(m.series_count(), 1);
    assert_eq!(m.counter_value(&label("GET", "/v1/reply", 200)), Some(2));
    assert_eq!(m.histogram_stats(&label("GET", "/v1/reply", 200)), Some((2, 30_000)));
}

#[test]
fn distinct_labels_get_their_own_series() {
    let mut m = Metrics::new();
    m.record(label("GET", "/v1/reply", 200), 1_000);
    m.record(label("POST", "/v1/reply", 200), 1_000);
    m.record(label("GET", "/v1/other", 200), 1_000);
    m.record(label("GET", "/v1/reply", 500), 1_000);
    assert_eq!(m.series_count(), 4);
    assert_eq!(m.counter_value(&label("GET", "/v1/reply", 200)), Some(1));
    assert_eq!(m.counter_value(&label("PUT", "/v1/reply", 200)), None);
}

#[test]
fn series_count_is_bounded_by_distinct_labels_not_requests() {
    let mut m = Metrics::new();
    for i in 0..100u64 {
        let status = if i % 2 == 0 { 200 } else { 500 };
        m.record(label("GET", "/v1/reply", status), i * 10);
    }
    assert_eq!(m.series_count(), 2);
    assert_eq!(m.counter_value(&label("GET", "/v1/reply", 200)), Some(50));
    assert_eq!(m.counter_value(&label("GET", "/v1/reply", 500)), Some(50));
}

#[test]
fn snapshot_is_idempotent_without_recording() {
    let mut m = Metrics::new();
    m.record(label("GET", "/v1/reply", 200), 12_500);
    m.record(label("POST", "/v1/reply", 500), 700);
    let first = m.snapshot();
    let second = m.snapshot();
    assert_eq!(first, second);
}

#[test]
fn snapshot_encodes_exactly() {
    let mut m = Metrics::new();
    m.record(label("GET", "/a", 200), 2_500);
    let expected = "# HELP request_count Number of requests received
# TYPE request_count counter
request_count_total{method=\"GET\",path=\"/a\",status=\"200\"} 1
# HELP request_duration_ms Request duration
# TYPE request_duration_ms histogram
request_duration_ms_bucket{method=\"GET\",path=\"/a\",status=\"200\",le=\"1\"} 0
request_duration_ms_bucket{method=\"GET\",path=\"/a\",status=\"200\",le=\"2.5\"} 1
request_duration_ms_bucket{method=\"GET\",path=\"/a\",status=\"200\",le=\"5\"} 1
request_duration_ms_bucket{method=\"GET\",path=\"/a\",status=\"200\",le=\"10\"} 1
request_duration_ms_bucket{method=\"GET\",path=\"/a\",status=\"200\",le=\"25\"} 1
request_duration_ms_bucket{method=\"GET\",path=\"/a\",status=\"200\",le=\"50\"} 1
request_duration_ms_bucket{method=\"GET\",path=\"/a\",status=\"200\",le=\"75\"} 1
request_duration_ms_bucket{method=\"GET\",path=\"/a\",status=\"200\",le=\"100\"} 1
request_duration_ms_bucket{method=\"GET\",path=\"/a\",status=\"200\",le=\"250\"} 1
request_duration_ms_bucket{method=\"GET\",path=\"/a\",status=\"200\",le=\"500\"} 1
request_duration_ms_bucket{method=\"GET\",path=\"/a\",status=\"200\",le=\"750\"} 1
request_duration_ms_bucket{method=\"GET\",path=\"/a\",status=\"200\",le=\"1000\"} 1
request_duration_ms_bucket{method=\"GET\",path=\"/a\",status=\"200\",le=\"1250\"} 1
request_duration_ms_bucket{method=\"GET\",path=\"/a\",status=\"200\",le=\"1500\"} 1
request_duration_ms_bucket{method=\"GET\",path=\"/a\",status=\"200\",le=\"2000\"} 1
request_duration_ms_bucket{method=\"GET\",path=\"/a\",status=\"200\",le=\"+Inf\"} 1
request_duration_ms_sum{method=\"GET\",path=\"/a\",status=\"200\"} 2.5
request_duration_ms_count{method=\"GET\",path=\"/a\",status=\"200\"} 1
# EOF
";
    assert_eq!(m.snapshot(), expected);
}

#[test]
fn buckets_are_cumulative_at_the_boundary() {
    let mut m = Metrics::new();
    // Exactly one millisecond lands in the first bucket.
    m.record(label("GET", "/a", 200), 1_000);
    let text = m.snapshot();
    assert!(text.contains("request_duration_ms_bucket{method=\"GET\",path=\"/a\",status=\"200\",le=\"1\"} 1\n"));
    // A duration past every boundary lands only in the unbounded bucket.
    let mut slow = Metrics::new();
    slow.record(label("GET", "/a", 200), 3_000_000);
    let text = slow.snapshot();
    assert!(text.contains("le=\"2000\"} 0\n"));
    assert!(text.contains("le=\"+Inf\"} 1\n"));
    assert!(text.contains("request_duration_ms_sum{method=\"GET\",path=\"/a\",status=\"200\"} 3000\n"));
}

#[test]
fn empty_snapshot_has_headers_only() {
    let m = Metrics::new();
    let expected = "# HELP request_count Number of requests received
# TYPE request_count counter
# HELP request_duration_ms Request duration
# TYPE request_duration_ms histogram
# EOF
";
    assert_eq!(m.snapshot(), expected);
}
