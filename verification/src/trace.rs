//! Per-request trace spans: a severity level chosen from the request path at
//! span creation, and an error flag set exactly once when the request ends
//! with a server error or a timeout.

use vstd::prelude::*;
use crate::text::str_eq;

verus! {

/// Severity of a request's root span.
#[derive(Clone, Copy, Debug, PartialEq, Eq, Structural)]
pub enum Level {
    Debug,
    Info,
}

/// Statuses at or above this are flagged as errors on the span.
pub const ERROR_STATUS_THRESHOLD: u16 = 500;

/// The operational paths that are traced quietly: the health check and the
/// metrics scrape. Matching is exact; every other path is traced normally.
pub open spec fn is_quiet_path(p: Seq<char>) -> bool {
    p == "/healthcheck"@ || p == "/metrics"@
}

/// The severity assigned to a request for `path`.
pub open spec fn level_for(p: Seq<char>) -> Level {
    if is_quiet_path(p) {
        Level::Debug
    } else {
        Level::Info
    }
}

/// Whether the span for `status` and `timed_out` ends flagged as an error:
/// any server error, and every timeout whatever its status.
pub open spec fn span_error(status: u16, timed_out: bool) -> bool {
    status >= ERROR_STATUS_THRESHOLD || timed_out
}

/// A request-scoped tracing context. It is created open with its level fixed
/// and no error recorded; closing it is the only way to set the error flag.
#[derive(Clone, Copy, Debug)]
pub struct Span {
    /// Severity chosen at creation from the request path.
    pub level: Level,
    /// Set at most once, when the request ends badly.
    pub error: bool,
    /// True until the request ends; a span is closed exactly once.
    pub open: bool,
}

/// Chooses span levels at request start and flags outcomes at request end.
pub struct LevelRootSpanBuilder;

impl LevelRootSpanBuilder {
    /// Tells whether `path` is one of the quiet operational paths.
    pub fn is_quiet(path: &str) -> (r: bool)
        ensures
            r == is_quiet_path(path@),
    {
        str_eq(path, "/healthcheck") || str_eq(path, "/metrics")
    }

    /// Opens the root span for a request: quiet paths get `Level::Debug`,
    /// every other path `Level::Info`; no error is recorded yet.
    pub fn on_request_start(path: &str) -> (s: Span)
        ensures
            s.level == level_for(path@),
            !s.error,
            s.open,
    {
        let level = if Self::is_quiet(path) {
            Level::Debug
        } else {
            Level::Info
        };
        Span { level, error: false, open: true }
    }

    /// Closes the span once the request has its final status: server errors
    /// and timeouts are flagged, the level is left as chosen at creation.
    pub fn on_request_end(span: &mut Span, status: u16, timed_out: bool)
        requires
            old(span).open,
        ensures
            final(span).level == old(span).level,
            final(span).error == span_error(status, timed_out),
            !final(span).open,
    {
        if status >= ERROR_STATUS_THRESHOLD || timed_out {
            span.error = true;
        } else {
            span.error = false;
        }
        span.open = false;
    }
}

/// Marker for the tracing stage of the request pipeline.
pub struct Tracing;

impl Tracing {
    /// The span builder the pipeline's tracing stage uses.
    pub fn middleware() -> LevelRootSpanBuilder {
        LevelRootSpanBuilder
    }
}

} // verus!
