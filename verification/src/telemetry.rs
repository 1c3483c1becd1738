//! The process-wide telemetry lifecycle: exactly one global subscriber and
//! exporter pipeline is installed at startup, spans are emitted only while it
//! is live, and shutdown drains it within a fixed ceiling instead of hanging
//! on a slow or unreachable collector.
//!
//! The caller owns the real subscriber and exporter; this state machine
//! decides which installation, emission and shutdown steps are allowed, and
//! what each event turns the state into.

use vstd::prelude::*;

verus! {

/// How log records are formatted.
#[derive(Clone, Copy, Debug, PartialEq, Eq, Structural)]
pub enum LoggingOptions {
    PrettyPrint,
    JSON,
}

/// How the global log subscriber formats its output.
#[derive(Clone, Copy, Debug)]
pub struct LoggingSettings {
    pub format: LoggingOptions,
}

/// The exporter endpoint and the sampling ratio, in parts per thousand.
#[derive(Clone, Debug)]
pub struct TelemetrySettings {
    pub host: String,
    pub port: u32,
    pub sampler_per_mille: u32,
}

impl TelemetrySettings {
    /// A sampling ratio must lie in the unit interval.
    pub open spec fn wf(&self) -> bool {
        self.sampler_per_mille <= 1000
    }
}

/// Everything the telemetry pipeline is configured with.
#[derive(Clone, Debug)]
pub struct Settings {
    pub log: LoggingSettings,
    pub telemetry: TelemetrySettings,
    pub service_name: String,
}

/// The states of the process-wide telemetry pipeline.
#[derive(Clone, Copy, Debug, PartialEq, Eq, Structural)]
pub enum LifecycleState {
    /// No subscriber installed yet; nothing may be emitted.
    Uninitialized,
    /// The one subscriber and exporter are live; spans may be created.
    Active,
    /// Shutdown has begun: buffered spans flush, no new spans are created.
    Draining,
    /// The pipeline is released; everything emitted now is dropped.
    Terminated,
}

/// Why telemetry setup was refused.
#[derive(Clone, Copy, Debug, PartialEq, Eq, Structural)]
pub enum TelemetryError {
    /// A global subscriber was already installed; a second installation must
    /// fail loudly rather than double-install.
    AlreadyInitialized,
    /// The sampling ratio lay outside the unit interval.
    InvalidSampler,
}

/// What ends the wait for the shutdown flush: the flush finishing, or the
/// ceiling elapsing first.
#[derive(Clone, Copy, Debug, PartialEq, Eq, Structural)]
pub enum DrainEvent {
    FlushCompleted,
    CeilingElapsed,
}

/// How long shutdown waits for the flush before giving up, in milliseconds.
pub const DRAIN_CEILING_MS: u64 = 5000;

/// Whether spans may be created in a state: only while active.
pub open spec fn may_create_spans(s: LifecycleState) -> bool {
    s is Active
}

/// Whether telemetry already in flight is still carried in a state; outside
/// these states it is dropped, not errored.
pub open spec fn carries_telemetry(s: LifecycleState) -> bool {
    s is Active || s is Draining
}

/// The state after the drain wait ends. Whatever ended it, the pipeline is
/// terminated: shutdown never hangs on the flush.
pub open spec fn drain_transition(e: DrainEvent) -> LifecycleState {
    LifecycleState::Terminated
}

/// Shutdown always terminates: whatever ends the drain wait — the flush
/// finishing or the ceiling elapsing — the pipeline reaches its terminal
/// state, so a shutdown is delayed by at most the ceiling.
pub proof fn lemma_drain_always_terminates(e: DrainEvent)
    ensures
        drain_transition(e) == LifecycleState::Terminated,
{
}

/// The process-wide resource standing for the live exporter pipeline. One is
/// created per process; releasing it is what drains and terminates the
/// pipeline.
#[derive(Clone, Copy, Debug)]
pub struct TelemetryGuard {
    state: LifecycleState,
}

impl TelemetryGuard {
    /// The lifecycle state the guard is in.
    pub closed spec fn spec_state(&self) -> LifecycleState {
        self.state
    }

    /// A guard over a pipeline that nothing has installed yet.
    pub fn new() -> (r: TelemetryGuard)
        ensures
            r.spec_state() == LifecycleState::Uninitialized,
    {
        TelemetryGuard { state: LifecycleState::Uninitialized }
    }

    /// The lifecycle state the guard is in.
    pub fn state(&self) -> (r: LifecycleState)
        ensures
            r == self.spec_state(),
    {
        self.state
    }

    /// Installs the one global subscriber and exporter: allowed exactly once,
    /// from the uninitialized state, with a sampling ratio in the unit
    /// interval. A second installation fails loudly and changes nothing.
    pub fn initialize(&mut self, settings: &Settings) -> (r: Result<(), TelemetryError>)
        ensures
            r is Ok <==> (old(self).spec_state() == LifecycleState::Uninitialized
                && settings.telemetry.wf()),
            r is Ok ==> final(self).spec_state() == LifecycleState::Active,
            r is Err ==> final(self).spec_state() == old(self).spec_state(),
            r matches Err(e) ==> if old(self).spec_state() != LifecycleState::Uninitialized {
                e == TelemetryError::AlreadyInitialized
            } else {
                e == TelemetryError::InvalidSampler
            },
    {
        match self.state {
            LifecycleState::Uninitialized => {
                if settings.telemetry.sampler_per_mille <= 1000 {
                    self.state = LifecycleState::Active;
                    Ok(())
                } else {
                    Err(TelemetryError::InvalidSampler)
                }
            },
            _ => Err(TelemetryError::AlreadyInitialized),
        }
    }

    /// Whether a span may be created now.
    pub fn may_create_spans(&self) -> (r: bool)
        ensures
            r == may_create_spans(self.spec_state()),
    {
        matches!(self.state, LifecycleState::Active)
    }

    /// Whether telemetry already in flight is still carried now.
    pub fn carries_telemetry(&self) -> (r: bool)
        ensures
            r == carries_telemetry(self.spec_state()),
    {
        matches!(self.state, LifecycleState::Active | LifecycleState::Draining)
    }

    /// Begins shutdown: a live pipeline starts flushing its buffered spans;
    /// in any other state there is nothing to drain and nothing changes.
    pub fn begin_drain(&mut self)
        ensures
            old(self).spec_state() == LifecycleState::Active ==> final(self).spec_state()
                == LifecycleState::Draining,
            old(self).spec_state() != LifecycleState::Active ==> final(self).spec_state() == old(
                self,
            ).spec_state(),
    {
        if matches!(self.state, LifecycleState::Active) {
            self.state = LifecycleState::Draining;
        }
    }

    /// Ends the drain wait. Whether the flush completed or the ceiling
    /// elapsed first, the pipeline is terminated: a slow collector delays
    /// shutdown by at most the ceiling.
    pub fn finish_drain(&mut self, event: DrainEvent)
        requires
            old(self).spec_state() == LifecycleState::Draining,
        ensures
            final(self).spec_state() == drain_transition(event),
            final(self).spec_state() == LifecycleState::Terminated,
    {
        let _ = event;
        self.state = LifecycleState::Terminated;
    }
}

} // verus!
