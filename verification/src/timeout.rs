//! The deadline enforcer: a per-process request deadline, fixed at
//! configuration time, and the classification of a request's race between
//! its handler and that deadline.
//!
//! The race itself is run by the caller; it reports back which branch won.
//! The losing branch is only abandoned, never observed again, so exactly one
//! outcome is classified per request. A timed-out request is answered with
//! status [`TIMEOUT_STATUS`] and body [`timeout_body`]; this shape is part of
//! the public contract.

use vstd::prelude::*;

verus! {

/// The status of the synthetic timeout response: request timeout, a
/// client-error status.
pub const TIMEOUT_STATUS: u16 = 408;

/// A configuration rejected before the pipeline starts serving.
#[derive(Clone, Copy, Debug, PartialEq, Eq, Structural)]
pub enum ConfigError {
    /// The configured request deadline was zero.
    ZeroDeadline,
    /// The configured request deadline in seconds does not fit in
    /// milliseconds in a `u64`.
    DeadlineTooLarge,
}

/// How the race between the handler and the deadline resolved: the handler
/// finished first with a status, or the deadline fired first.
#[derive(Clone, Copy, Debug, PartialEq, Eq, Structural)]
pub enum RaceOutcome {
    Completed(u16),
    DeadlineElapsed,
}

/// The status a request is answered with for a given race outcome.
pub open spec fn final_status(outcome: RaceOutcome) -> u16 {
    match outcome {
        RaceOutcome::Completed(status) => status,
        RaceOutcome::DeadlineElapsed => TIMEOUT_STATUS,
    }
}

/// Whether a race outcome is classified as a timeout.
pub open spec fn timed_out(outcome: RaceOutcome) -> bool {
    outcome is DeadlineElapsed
}

/// The request deadline, validated at configuration time.
#[derive(Clone, Copy, Debug)]
pub struct Timeout {
    duration_ms: u64,
}

impl Timeout {
    /// The deadline in milliseconds.
    pub closed spec fn spec_duration_ms(&self) -> u64 {
        self.duration_ms
    }

    /// Accepts a positive deadline; a zero deadline is rejected here rather
    /// than producing immediate timeouts at request time.
    pub fn new(duration_ms: u64) -> (r: Result<Timeout, ConfigError>)
        ensures
            r is Ok <==> duration_ms > 0,
            r matches Ok(t) ==> t.spec_duration_ms() == duration_ms,
            r matches Err(e) ==> e == ConfigError::ZeroDeadline,
    {
        if duration_ms == 0 {
            Err(ConfigError::ZeroDeadline)
        } else {
            Ok(Timeout { duration_ms })
        }
    }

    /// Accepts a positive deadline given in whole seconds.
    pub fn from_secs(duration_sec: u64) -> (r: Result<Timeout, ConfigError>)
        ensures
            r is Ok <==> (duration_sec > 0 && duration_sec * 1000 <= u64::MAX),
            r matches Ok(t) ==> t.spec_duration_ms() == duration_sec * 1000,
            r matches Err(e) ==> if duration_sec == 0 {
                e == ConfigError::ZeroDeadline
            } else {
                e == ConfigError::DeadlineTooLarge
            },
    {
        match duration_sec.checked_mul(1000) {
            Some(ms) => Self::new(ms),
            None => {
                if duration_sec == 0 {
                    Err(ConfigError::ZeroDeadline)
                } else {
                    Err(ConfigError::DeadlineTooLarge)
                }
            },
        }
    }

    /// The deadline in milliseconds.
    pub fn duration_ms(&self) -> (r: u64)
        ensures
            r == self.spec_duration_ms(),
    {
        self.duration_ms
    }
}

/// The timeout stage of the pipeline: it carries the validated deadline and
/// classifies each request's race.
#[derive(Clone, Copy, Debug)]
pub struct TimeoutMiddleware {
    timeout: Timeout,
}

impl TimeoutMiddleware {
    /// The deadline this stage enforces, in milliseconds.
    pub closed spec fn spec_duration_ms(&self) -> u64 {
        self.timeout.spec_duration_ms()
    }

    /// Wraps the validated deadline into the pipeline stage.
    pub fn new(timeout: Timeout) -> (r: TimeoutMiddleware)
        ensures
            r.spec_duration_ms() == timeout.spec_duration_ms(),
    {
        TimeoutMiddleware { timeout }
    }

    /// The deadline this stage enforces, in milliseconds.
    pub fn duration_ms(&self) -> (r: u64)
        ensures
            r == self.spec_duration_ms(),
    {
        self.timeout.duration_ms()
    }

    /// Each request derives its own absolute expiry from its admission time;
    /// an expiry past the clock's range is capped at the range's end.
    pub fn expiry_from(&self, admitted_at_ms: u64) -> (r: u64)
        ensures
            admitted_at_ms + self.spec_duration_ms() <= u64::MAX ==> r == admitted_at_ms
                + self.spec_duration_ms(),
            admitted_at_ms + self.spec_duration_ms() > u64::MAX ==> r == u64::MAX,
    {
        admitted_at_ms.saturating_add(self.timeout.duration_ms())
    }

    /// Classifies the race: the handler's own status if it finished first,
    /// the synthetic timeout status if the deadline fired first.
    pub fn classify(&self, outcome: RaceOutcome) -> (r: (u16, bool))
        ensures
            r.0 == final_status(outcome),
            r.1 == timed_out(outcome),
    {
        match outcome {
            RaceOutcome::Completed(status) => (status, false),
            RaceOutcome::DeadlineElapsed => (TIMEOUT_STATUS, true),
        }
    }
}

/// The body of the synthetic timeout response.
pub fn timeout_body() -> (r: &'static str)
    ensures
        r@ == "timeout"@,
{
    "timeout"
}

} // verus!
