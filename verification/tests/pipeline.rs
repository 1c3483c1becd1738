use messaging::metrics::Metrics;
use messaging::server::{
    complete_request, configure_timeout, health_status, is_operational, metrics_content_type,
    stage_order, AppSettings, MetricSettings, Settings, Stage,
};
use messaging::timeout::{timeout_body, RaceOutcome, Timeout, TimeoutMiddleware, ConfigError, TIMEOUT_STATUS};
use messaging::trace::{Level, LevelRootSpanBuilder};
use messaging::metrics::RequestLabel;

fn label(method: &str, path: &str, status: u16) -> RequestLabel {
    RequestLabel { method: method.to_string(), path: path.to_string(), status }
}

#[test]
fn stages_wrap_in_a_fixed_order() {
    let order = stage_order();
    assert_eq!(
        order,
        vec![Stage::TraceSpan, Stage::MetricsCollection, Stage::TimeoutEnforcement]
    );
}

#[test]
fn handler_finishing_first_keeps_its_result() {
    // Deadline 50 ms, handler done after 10 ms: the handler's status stands
    // and one success observation lands near 10 ms.
    let timeout = Timeout::new(50).unwrap();
    let stage = TimeoutMiddleware::new(timeout);
    let (status, timed_out) = stage.classify(RaceOutcome::Completed(200));
    assert_eq!((status, timed_out), (200, false));

    let mut metrics = Metrics::new();
    let mut span = LevelRootSpanBuilder::on_request_start("/v1/reply");
    let status =
        complete_request(&mut metrics, &mut span, "POST", "/v1/reply", RaceOutcome::Completed(200), 10_000);
    assert_eq!(status, 200);
    assert!(!span.error);
    assert!(!span.open);
    assert_eq!(metrics.counter_value(&label("POST", "/v1/reply", 200)), Some(1));
    assert_eq!(metrics.histogram_stats(&label("POST", "/v1/reply", 200)), Some((1, 10_000)));
}

#[test]
fn deadline_firing_first_is_classified_as_timeout() {
    // Deadline 10 ms, handler asleep for 50 ms: the synthetic timeout result
    // stands, exactly one timeout outcome is recorded near 10 ms, and the
    // span is flagged.
    let timeout = Timeout::new(10).unwrap();
    let stage = TimeoutMiddleware::new(timeout);
    let (status, timed_out) = stage.classify(RaceOutcome::DeadlineElapsed);
    assert_eq!((status, timed_out), (TIMEOUT_STATUS, true));

    let mut metrics = Metrics::new();
    let mut span = LevelRootSpanBuilder::on_request_start("/v1/reply");
    let status = complete_request(
        &mut metrics,
        &mut span,
        "POST",
        "/v1/reply",
        RaceOutcome::DeadlineElapsed,
        10_000,
    );
    assert_eq!(status, 408);
    assert!(span.error);
    assert_eq!(metrics.counter_value(&label("POST", "/v1/reply", 408)), Some(1));
    // No duplicate success observation for the same request.
    assert_eq!(metrics.counter_value(&label("POST", "/v1/reply", 200)), None);
    assert_eq!(metrics.series_count(), 1);
}

#[test]
fn concurrent_requests_have_independent_spans_and_deadlines() {
    // One request timing out neither cancels nor mislabels the other.
    let mut metrics = Metrics::new();
    let mut span_a = LevelRootSpanBuilder::on_request_start("/v1/reply");
    let mut span_b = LevelRootSpanBuilder::on_request_start("/v1/other");
    let status_a = complete_request(
        &mut metrics,
        &mut span_a,
        "GET",
        "/v1/reply",
        RaceOutcome::DeadlineElapsed,
        10_000,
    );
    let status_b = complete_request(
        &mut metrics,
        &mut span_b,
        "GET",
        "/v1/other",
        RaceOutcome::Completed(200),
        2_000,
    );
    assert_eq!((status_a, status_b), (408, 200));
    assert!(span_a.error);
    assert!(!span_b.error);
    assert_eq!(metrics.counter_value(&label("GET", "/v1/reply", 408)), Some(1));
    assert_eq!(metrics.counter_value(&label("GET", "/v1/other", 200)), Some(1));
}

#[test]
fn operational_routes_bypass_timeout_and_metrics() {
    assert!(is_operational("/healthcheck"));
    assert!(is_operational("/metrics"));
    assert!(!is_operational("/v1/reply"));
    assert!(!is_operational("/healthcheck/"));

    // A health check completes without being measured or raced, whatever
    // load the measured routes are under.
    let mut metrics = Metrics::new();
    let mut span = LevelRootSpanBuilder::on_request_start("/healthcheck");
    assert_eq!(span.level, Level::Debug);
    let status = complete_request(
        &mut metrics,
        &mut span,
        "GET",
        "/healthcheck",
        RaceOutcome::Completed(200),
        5,
    );
    assert_eq!(status, 200);
    assert_eq!(metrics.series_count(), 0);
}

#[test]
fn scrape_endpoint_never_appears_in_its_own_snapshot() {
    let mut metrics = Metrics::new();
    let mut span = LevelRootSpanBuilder::on_request_start("/metrics");
    complete_request(&mut metrics, &mut span, "GET", "/metrics", RaceOutcome::Completed(200), 70);
    let mut app_span = LevelRootSpanBuilder::on_request_start("/v1/reply");
    complete_request(
        &mut metrics,
        &mut app_span,
        "POST",
        "/v1/reply",
        RaceOutcome::Completed(200),
        900,
    );
    let text = metrics.snapshot();
    assert!(!text.contains("path=\"/metrics\""));
    assert!(text.contains("path=\"/v1/reply\""));
}

#[test]
fn zero_deadline_fails_at_configuration_time() {
    assert_eq!(Timeout::new(0).unwrap_err(), ConfigError::ZeroDeadline);
    assert_eq!(Timeout::from_secs(0).unwrap_err(), ConfigError::ZeroDeadline);
    assert_eq!(Timeout::from_secs(u64::MAX).unwrap_err(), ConfigError::DeadlineTooLarge);
    let settings = AppSettings {
        host: "127.0.0.1".to_string(),
        port: 0,
        request_timeout_sec: 0,
    };
    assert!(configure_timeout(&settings).is_err());
}

#[test]
fn configured_deadline_is_kept_in_milliseconds() {
    let settings = Settings {
        app: AppSettings {
            host: "127.0.0.1".to_string(),
            port: 0,
            request_timeout_sec: 10,
        },
        metrics: MetricSettings { host: "127.0.0.1".to_string(), port: 0 },
    };
    let timeout = configure_timeout(&settings.app).unwrap();
    assert_eq!(timeout.duration_ms(), 10_000);
    let stage = TimeoutMiddleware::new(timeout);
    assert_eq!(stage.duration_ms(), 10_000);
    assert_eq!(stage.expiry_from(2_000), 12_000);
    assert_eq!(stage.expiry_from(u64::MAX), u64::MAX);
}

#[test]
fn timeout_response_shape_is_stable() {
    assert_eq!(TIMEOUT_STATUS, 408);
    assert_eq!(timeout_body(), "timeout");
}

#[test]
fn operational_responses_have_their_fixed_shapes() {
    assert_eq!(health_status(), 200);
    assert_eq!(
        metrics_content_type(),
        "application/openmetrics-text; version=1.0.0; charset=utf-8"
    );
}
