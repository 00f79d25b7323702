//! Timing diagnostics for a multi-core machine: calibration of cycle-counter
//! ticks to nanoseconds, statistical reduction of raw timing samples, a
//! latency matrix for cross-core cache-line handoff measurements, noise
//! accounting for a busy-polling core, and the ping-pong turn protocol that
//! drives the cross-core measurement.

pub mod affinity;
pub mod args;
pub mod calibrate;
pub mod cpu;
pub mod latency;
pub mod noise;
pub mod pingpong;
pub mod stats;

use vstd::prelude::*;

verus! {

/// Number of nanoseconds in one second, the numerator of every
/// ticks-to-nanoseconds conversion.
pub const NANOS_PER_SECOND: u64 = 1_000_000_000;

} // verus!
