//! Core of an HTTP service wrapped in an observability-and-reliability
//! pipeline: per-request metrics with a text snapshot encoder, a deadline
//! enforcer, per-request trace spans levelled by route, and a process-wide
//! telemetry lifecycle with a bounded shutdown drain.
//!
//! The pieces here are plain data and decisions; the surrounding binary owns
//! the listeners, the clock and the exporter, and drives these functions.

pub mod messages;
pub mod metrics;
pub mod server;
pub mod settings;
pub mod telemetry;
pub mod text;
pub mod timeout;
pub mod trace;
