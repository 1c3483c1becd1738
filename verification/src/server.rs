//! The request pipeline's composition: the fixed stage order, which routes
//! bypass which stages, and the bookkeeping every request goes through when
//! it completes — metrics recording, span closing, and the final status.
//!
//! Stage order, outermost first: the span wraps everything so it observes
//! the final outcome including timeout classification; metrics wrap the
//! deadline race so they record the time actually spent waiting; the
//! enforcer is innermost, racing the application handler itself. The
//! operational routes — health check and metrics scrape — bypass the timeout
//! and metrics stages but are still traced, quietly.

use vstd::prelude::*;
use crate::metrics::{
    record_spec, lemma_record_wf, lemma_record_updates_only_its_series,
    lemma_path_stays_unmeasured, empty_series, series_of, has_label, view_wf, Metrics,
    MetricsView, LabelView, RequestLabel,
};
use crate::timeout::{RaceOutcome, final_status, timed_out, Timeout, ConfigError};
use crate::trace::{Span, LevelRootSpanBuilder, is_quiet_path, span_error};

verus! {

/// The three wrapping stages of the request pipeline, outermost first.
#[derive(Clone, Copy, Debug, PartialEq, Eq, Structural)]
pub enum Stage {
    TraceSpan,
    MetricsCollection,
    TimeoutEnforcement,
}

/// The fixed order of the pipeline's stages, outermost first: tracing wraps
/// metrics, metrics wrap the timeout enforcer.
pub fn stage_order() -> (r: Vec<Stage>)
    ensures
        r@ =~= seq![Stage::TraceSpan, Stage::MetricsCollection, Stage::TimeoutEnforcement],
{
    let mut r: Vec<Stage> = Vec::new();
    r.push(Stage::TraceSpan);
    r.push(Stage::MetricsCollection);
    r.push(Stage::TimeoutEnforcement);
    r
}

/// Whether a request for `p` is measured and raced against the deadline.
/// The operational paths are not: they stay responsive under load shedding
/// and never feed their own scrape into the series tables.
pub open spec fn measured(p: Seq<char>) -> bool {
    !is_quiet_path(p)
}

/// Tells whether `path` is an operational route, which bypasses the timeout
/// and metrics stages.
pub fn is_operational(path: &str) -> (r: bool)
    ensures
        r == is_quiet_path(path@),
{
    LevelRootSpanBuilder::is_quiet(path)
}

/// The collector after one request completes: requests on measured paths are
/// recorded under their method, path and final status; operational paths
/// leave the collector untouched.
pub open spec fn complete_spec(
    v: MetricsView,
    method: Seq<char>,
    path: Seq<char>,
    outcome: RaceOutcome,
    elapsed_us: u64,
) -> MetricsView {
    if measured(path) {
        record_spec(
            v,
            LabelView { method, path, status: final_status(outcome) },
            elapsed_us,
        )
    } else {
        v
    }
}

/// Settles one request once its race has resolved, in pipeline order from
/// the inside out: the timeout enforcer's classification fixes the final
/// status, the collector records the elapsed time under that status unless
/// the path is operational, and the span closes with errors and timeouts
/// flagged.
pub fn complete_request(
    metrics: &mut Metrics,
    span: &mut Span,
    method: &str,
    path: &str,
    outcome: RaceOutcome,
    elapsed_us: u64,
) -> (status: u16)
    requires
        old(metrics).wf(),
        old(span).open,
    ensures
        status == final_status(outcome),
        final(metrics).wf(),
        final(metrics)@ == complete_spec(old(metrics)@, method@, path@, outcome, elapsed_us),
        !final(span).open,
        final(span).level == old(span).level,
        final(span).error == span_error(final_status(outcome), timed_out(outcome)),
{
    let (status, is_timeout) = match outcome {
        RaceOutcome::Completed(s) => (s, false),
        RaceOutcome::DeadlineElapsed => (crate::timeout::TIMEOUT_STATUS, true),
    };
    if !is_operational(path) {
        let label = RequestLabel { method: method.to_owned(), path: path.to_owned(), status };
        proof {
            lemma_record_wf(old(metrics)@, label@, elapsed_us);
        }
        metrics.record(label, elapsed_us);
    }
    LevelRootSpanBuilder::on_request_end(span, status, is_timeout);
    status
}

/// The label a completed request is recorded under.
pub open spec fn completion_label(
    method: Seq<char>,
    path: Seq<char>,
    outcome: RaceOutcome,
) -> LabelView {
    LabelView { method, path, status: final_status(outcome) }
}

/// The series for `l` before a recording lands: the existing one, or the
/// fresh series created for `l`'s first observation.
pub open spec fn prior_series(v: MetricsView, l: LabelView) -> crate::metrics::SeriesView {
    if has_label(v, l) {
        series_of(v, l)
    } else {
        empty_series(l)
    }
}

/// A request that completes before its deadline is recorded exactly once,
/// under its handler's own status: its series' histogram sum grows by the
/// elapsed time it was handed, nothing more and nothing less, its counts by
/// one, and no other series changes.
pub proof fn lemma_completion_observes_elapsed(
    v: MetricsView,
    method: Seq<char>,
    path: Seq<char>,
    status: u16,
    elapsed_us: u64,
)
    requires
        view_wf(v),
        measured(path),
        prior_series(v, completion_label(method, path, RaceOutcome::Completed(status))).hist.sum_us
            + elapsed_us <= u64::MAX,
        prior_series(
            v,
            completion_label(method, path, RaceOutcome::Completed(status)),
        ).hist.count < u64::MAX,
        prior_series(v, completion_label(method, path, RaceOutcome::Completed(status))).count
            < u64::MAX,
    ensures
        has_label(
            complete_spec(v, method, path, RaceOutcome::Completed(status), elapsed_us),
            completion_label(method, path, RaceOutcome::Completed(status)),
        ),
        series_of(
            complete_spec(v, method, path, RaceOutcome::Completed(status), elapsed_us),
            completion_label(method, path, RaceOutcome::Completed(status)),
        ).hist.sum_us == prior_series(
            v,
            completion_label(method, path, RaceOutcome::Completed(status)),
        ).hist.sum_us + elapsed_us,
        series_of(
            complete_spec(v, method, path, RaceOutcome::Completed(status), elapsed_us),
            completion_label(method, path, RaceOutcome::Completed(status)),
        ).hist.count == prior_series(
            v,
            completion_label(method, path, RaceOutcome::Completed(status)),
        ).hist.count + 1,
        series_of(
            complete_spec(v, method, path, RaceOutcome::Completed(status), elapsed_us),
            completion_label(method, path, RaceOutcome::Completed(status)),
        ).count == prior_series(
            v,
            completion_label(method, path, RaceOutcome::Completed(status)),
        ).count + 1,
        forall|l2: LabelView|
            l2 != completion_label(method, path, RaceOutcome::Completed(status)) && has_label(
                v,
                l2,
            ) ==> series_of(
                complete_spec(v, method, path, RaceOutcome::Completed(status), elapsed_us),
                l2,
            ) == series_of(v, l2),
{
    let l = completion_label(method, path, RaceOutcome::Completed(status));
    lemma_record_updates_only_its_series(v, l, elapsed_us);
}

/// A request that exceeds its deadline is recorded as exactly one
/// timeout-classified outcome: only the series keyed by the timeout status
/// is bumped, by one, and no series keyed by any other status — in
/// particular no "success" series — records anything for the request.
pub proof fn lemma_timeout_recorded_once(
    v: MetricsView,
    method: Seq<char>,
    path: Seq<char>,
    elapsed_us: u64,
)
    requires
        view_wf(v),
        measured(path),
    ensures
        final_status(RaceOutcome::DeadlineElapsed) == crate::timeout::TIMEOUT_STATUS,
        has_label(
            complete_spec(v, method, path, RaceOutcome::DeadlineElapsed, elapsed_us),
            completion_label(method, path, RaceOutcome::DeadlineElapsed),
        ),
        series_of(
            complete_spec(v, method, path, RaceOutcome::DeadlineElapsed, elapsed_us),
            completion_label(method, path, RaceOutcome::DeadlineElapsed),
        ).count == crate::metrics::sat_inc(
            prior_series(v, completion_label(method, path, RaceOutcome::DeadlineElapsed)).count,
        ),
        forall|l2: LabelView|
            l2.status != crate::timeout::TIMEOUT_STATUS && has_label(v, l2) ==> series_of(
                complete_spec(v, method, path, RaceOutcome::DeadlineElapsed, elapsed_us),
                l2,
            ) == series_of(v, l2),
{
    let l = completion_label(method, path, RaceOutcome::DeadlineElapsed);
    lemma_record_updates_only_its_series(v, l, elapsed_us);
}

/// The metrics scrape path.
pub open spec fn scrape_path() -> Seq<char> {
    "/metrics"@
}

/// No series is keyed by the scrape path.
pub open spec fn no_scrape_series(v: MetricsView) -> bool {
    forall|i: int| 0 <= i < v.series.len() ==> (#[trigger] v.series[i].label).path != scrape_path()
}

/// The scrape endpoint never appears as a labeled series within its own
/// snapshot: a collector with no series for the scrape path still has none
/// after any request completes, whatever its path and outcome — a scrape is
/// not measured at all, and every measured path is a different path.
pub proof fn lemma_scrape_never_measured(
    v: MetricsView,
    method: Seq<char>,
    path: Seq<char>,
    outcome: RaceOutcome,
    elapsed_us: u64,
)
    requires
        view_wf(v),
        no_scrape_series(v),
    ensures
        no_scrape_series(complete_spec(v, method, path, outcome, elapsed_us)),
{
    if measured(path) {
        let l = completion_label(method, path, outcome);
        lemma_path_stays_unmeasured(v, l, elapsed_us, scrape_path());
    }
}

/// The application listener's settings: where to listen, and the per-request
/// deadline in whole seconds.
#[derive(Clone, Debug)]
pub struct AppSettings {
    pub host: String,
    pub port: u16,
    pub request_timeout_sec: u64,
}

/// The metrics listener's settings: where the scrape endpoint listens.
#[derive(Clone, Debug)]
pub struct MetricSettings {
    pub host: String,
    pub port: u16,
}

/// Everything the pipeline is composed from.
#[derive(Clone, Debug)]
pub struct Settings {
    pub app: AppSettings,
    pub metrics: MetricSettings,
}

/// Validates the configured deadline before the pipeline starts serving:
/// a zero deadline is refused here, never discovered at request time.
pub fn configure_timeout(settings: &AppSettings) -> (r: Result<Timeout, ConfigError>)
    ensures
        r is Ok <==> (settings.request_timeout_sec > 0 && settings.request_timeout_sec * 1000
            <= u64::MAX),
        r matches Ok(t) ==> t.spec_duration_ms() == settings.request_timeout_sec * 1000,
{
    Timeout::from_secs(settings.request_timeout_sec)
}

/// The content type of the metrics scrape response.
pub fn metrics_content_type() -> (r: &'static str)
    ensures
        r@ == "application/openmetrics-text; version=1.0.0; charset=utf-8"@,
{
    "application/openmetrics-text; version=1.0.0; charset=utf-8"
}

/// The status of the health check response; its body is empty.
pub fn health_status() -> (r: u16)
    ensures
        r == 200,
{
    200
}

} // verus!
