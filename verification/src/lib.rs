//! Discovery orchestration for nearby Bluetooth devices: an engine that
//! owns the adapter's lifecycle, runs one time-bounded, cancellable
//! discovery operation at a time, multiplexes adapter events, per-device
//! change streams and control signals, and notifies an observer exactly
//! once per meaningful state change. Every decision lives here, behind a
//! contract; the caller owns the hardware, the clock and the callback
//! plumbing, and feeds the engine plain events.

pub mod address;
pub mod commands;
pub mod engine;
pub mod error;
pub mod laws;
pub mod paths;
pub mod state;

use vstd::prelude::*;

verus! {

/// Number of seconds a discovery operation may run before it times out.
pub const DISCOVERY_TIMEOUT_SECS: u64 = 12;

} // verus!
