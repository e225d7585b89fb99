//! Single-shot deadline timer over millisecond instants.
//!
//! Wall-clock readings are supplied by the caller as plain millisecond
//! counts taken from one monotonic origin; the timer itself never reads
//! a clock.  Re-arming is done by constructing a fresh timer.

use vstd::prelude::*;

verus! {

/// Represents a timer/countdown armed at some instant for a fixed length.
///
/// Instants are milliseconds since an arbitrary monotonic origin chosen
/// by the caller; the same origin must be used for every sample handed
/// to one timer.
#[derive(PartialEq, Eq, Structural, Debug, Clone, Copy)]
pub struct Timer {
    /// Instant (ms) at which the timer was started/created.
    pub start: u64,
    /// Duration (ms) of the timer.
    pub len: u64,
}

impl Timer {
    /// Creates a new timer of the given length, armed at instant `now`.
    pub fn new(now: u64, len: u64) -> (t: Timer)
        ensures
            t.start == now,
            t.len == len,
    {
        Timer { start: now, len }
    }

    /// Returns whether the timer has expired at instant `now`:
    /// true exactly when `now - start >= len`.
    pub fn expired(&self, now: u64) -> (r: bool)
        requires
            now >= self.start,
        ensures
            r == (now - self.start >= self.len),
    {
        now - self.start >= self.len
    }
}

} // verus!
