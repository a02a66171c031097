//! Fixed-step timing: frame durations in, simulation ticks out. Time is
//! counted in whole microseconds.

use vstd::prelude::*;

verus! {

/// Accumulates frame time and fires one tick when a full interval has passed.
pub struct Clock {
    elapsed: u64,
    interval: u64,
}

impl Clock {
    /// Time accumulated since the last tick.
    pub closed spec fn elapsed_us(&self) -> nat {
        self.elapsed as nat
    }

    /// Length of one tick interval.
    pub closed spec fn interval_us(&self) -> nat {
        self.interval as nat
    }

    /// The interval is positive and less than one interval is pending.
    pub open spec fn wf(&self) -> bool {
        0 < self.interval_us() && self.elapsed_us() < self.interval_us()
    }

    /// A clock with nothing accumulated; a zero interval is a configuration error.
    pub fn new(interval: u64) -> (r: Clock)
        requires
            interval > 0,
        ensures
            r.wf(),
            r.interval_us() == interval,
            r.elapsed_us() == 0,
    {
        Clock { elapsed: 0, interval }
    }

    /// Adds the frame duration `dt`. When a full interval has built up, the
    /// accumulator goes back to zero and the result is `true`: at most one tick
    /// per call, however long the frame was.
    pub fn advance(&mut self, dt: u64) -> (fired: bool)
        requires
            old(self).wf(),
        ensures
            final(self).wf(),
            final(self).interval_us() == old(self).interval_us(),
            fired == (old(self).elapsed_us() + dt >= old(self).interval_us()),
            final(self).elapsed_us() == if fired { 0 } else { old(self).elapsed_us() + dt },
    {
        if dt >= self.interval - self.elapsed {
            self.elapsed = 0;
            true
        } else {
            self.elapsed = self.elapsed + dt;
            false
        }
    }

    /// Time accumulated since the last tick.
    pub fn elapsed(&self) -> (r: u64)
        ensures
            r == self.elapsed_us(),
    {
        self.elapsed
    }

    /// Length of one tick interval.
    pub fn interval(&self) -> (r: u64)
        ensures
            r == self.interval_us(),
    {
        self.interval
    }
}

/// Countdown for the visual effect shown after food is eaten; it has no
/// bearing on the game's rules.
pub struct EatAnimation {
    remaining: u64,
}

impl EatAnimation {
    /// Time left before the effect ends.
    pub closed spec fn remaining_us(&self) -> nat {
        self.remaining as nat
    }

    /// An animation that is not running.
    pub fn new() -> (r: EatAnimation)
        ensures
            r.remaining_us() == 0,
    {
        EatAnimation { remaining: 0 }
    }

    /// Starts (or restarts) the effect for `duration`.
    pub fn start(&mut self, duration: u64)
        ensures
            final(self).remaining_us() == duration,
    {
        self.remaining = duration;
    }

    /// Counts `dt` off the time left, stopping at zero.
    pub fn advance(&mut self, dt: u64)
        ensures
            final(self).remaining_us() == if old(self).remaining_us() > dt {
                old(self).remaining_us() - dt
            } else {
                0
            },
    {
        if self.remaining > dt {
            self.remaining = self.remaining - dt;
        } else {
            self.remaining = 0;
        }
    }

    /// True while the effect is showing.
    pub fn is_active(&self) -> (r: bool)
        ensures
            r == (self.remaining_us() > 0),
    {
        self.remaining > 0
    }
}

} // verus!
