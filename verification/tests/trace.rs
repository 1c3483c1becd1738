use messaging::text::{ms_string, str_eq, u64_string};
use messaging::trace::{Level, LevelRootSpanBuilder, Span, Tracing, ERROR_STATUS_THRESHOLD};

#[test]
fn quiet_paths_get_debug_spans() {
    assert_eq!(LevelRootSpanBuilder::on_request_start("/healthcheck").level, Level::Debug);
    assert_eq!(LevelRootSpanBuilder::on_request_start("/metrics").level, Level::Debug);
}

#[test]
fn other_paths_get_info_spans() {
    assert_eq!(LevelRootSpanBuilder::on_request_start("/v1/reply").level, Level::Info);
    // Matching is exact, not prefix.
    assert_eq!(LevelRootSpanBuilder::on_request_start("/metrics2").level, Level::Info);
    assert_eq!(LevelRootSpanBuilder::on_request_start("").level, Level::Info);
}

#[test]
fn server_errors_flag_the_span() {
    assert_eq!(ERROR_STATUS_THRESHOLD, 500);
    let mut span = LevelRootSpanBuilder::on_request_start("/v1/reply");
    LevelRootSpanBuilder::on_request_end(&mut span, 500, false);
    assert!(span.error);
    assert!(!span.open);
}

#[test]
fn client_errors_do_not_flag_the_span() {
    let mut span = LevelRootSpanBuilder::on_request_start("/v1/reply");
    LevelRootSpanBuilder::on_request_end(&mut span, 499, false);
    assert!(!span.error);
}

#[test]
fn timeouts_flag_the_span_despite_their_status() {
    let mut span = LevelRootSpanBuilder::on_request_start("/v1/reply");
    LevelRootSpanBuilder::on_request_end(&mut span, 408, true);
    assert!(span.error);
}

#[test]
fn span_level_survives_closing() {
    let mut span: Span = LevelRootSpanBuilder::on_request_start("/healthcheck");
    LevelRootSpanBuilder::on_request_end(&mut span, 200, false);
    assert_eq!(span.level, Level::Debug);
}

#[test]
fn tracing_stage_hands_out_the_builder() {
    let _builder: LevelRootSpanBuilder = Tracing::middleware();
}

#[test]
fn decimal_rendering_is_exact() {
    assert_eq!(u64_string(0), "0");
    assert_eq!(u64_string(7), "7");
    assert_eq!(u64_string(1234567890), "1234567890");
    assert_eq!(u64_string(u64::MAX), "18446744073709551615");
}

#[test]
fn millisecond_rendering_drops_trailing_zeros() {
    assert_eq!(ms_string(2_500), "2.5");
    assert_eq!(ms_string(10_250), "10.25");
    assert_eq!(ms_string(45), "0.045");
    assert_eq!(ms_string(1_000), "1");
    assert_eq!(ms_string(0), "0");
    assert_eq!(ms_string(999), "0.999");
}

#[test]
fn string_equality_is_by_characters() {
    assert!(str_eq("abc", "abc"));
    assert!(!str_eq("abc", "abd"));
    assert!(!str_eq("abc", "ab"));
    assert!(str_eq("", ""));
}
