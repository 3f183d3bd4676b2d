//! A one-shot countdown in milliseconds.
//!
//! The weapon cooldown and each projectile's remaining lifetime are
//! countdowns: ticking subtracts the elapsed time and floors at zero,
//! and a reset winds the countdown back up to a fixed duration.

use vstd::prelude::*;

verus! {

/// What remains of a countdown after `dt` milliseconds pass.
pub open spec fn countdown_tick(remaining: int, dt: int) -> int {
    if dt < remaining {
        remaining - dt
    } else {
        0
    }
}

/// A value counting down toward zero, in milliseconds.
#[derive(Clone, Copy, PartialEq, Eq, Structural, Debug)]
pub struct Countdown {
    pub remaining_ms: u64,
}

impl Countdown {
    /// A countdown with `duration_ms` left.
    pub fn new(duration_ms: u64) -> (t: Countdown)
        ensures
            t.remaining_ms == duration_ms,
    {
        Countdown { remaining_ms: duration_ms }
    }

    /// Let `dt_ms` pass; the remaining time floors at zero and is
    /// reported as finished exactly when it reaches zero.
    pub fn tick(&mut self, dt_ms: u64) -> (finished: bool)
        ensures
            final(self).remaining_ms == countdown_tick(old(self).remaining_ms as int, dt_ms as int),
            finished == (final(self).remaining_ms == 0),
    {
        if dt_ms < self.remaining_ms {
            self.remaining_ms = self.remaining_ms - dt_ms;
            false
        } else {
            self.remaining_ms = 0;
            true
        }
    }

    /// Whether the countdown has run out.
    pub fn finished(&self) -> (b: bool)
        ensures
            b == (self.remaining_ms == 0),
    {
        self.remaining_ms == 0
    }

    /// Wind the countdown back up to `duration_ms`.
    pub fn reset(&mut self, duration_ms: u64)
        ensures
            final(self).remaining_ms == duration_ms,
    {
        self.remaining_ms = duration_ms;
    }
}

} // verus!
