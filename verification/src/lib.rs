//! Verified control-plane orchestrator for remotely administering a
//! long-running game server through an HTTP control API.
//!
//! The library holds the decision logic: URL and payload-shape negotiation,
//! JSON response coercion, session tracking, generation-based cooperative
//! cancellation, the save-idempotency gate, the restart scheduler and the
//! staged restart state machine.  Network and file I/O live outside, in a
//! thin driver that feeds plain values in and carries actions out.

pub mod auth;
pub mod backup;
pub mod clock;
pub mod coerce;
pub mod config;
pub mod countdown;
pub mod endpoint;
pub mod errors;
pub mod guard;
pub mod json;
pub mod negotiate;
pub mod notify;
pub mod ops;
pub mod presence;
pub mod restart;
pub mod save;
pub mod schedule;
pub mod strutil;
pub mod tracker;
pub mod urls;
