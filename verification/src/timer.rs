use bevy::time::{Timer, TimerMode};
use std::time::Duration;
use vstd::prelude::*;

verus! {

/// Nanoseconds in one millisecond.
pub const NANOS_PER_MILLI: u64 = 1_000_000;

/// The longest interval, in milliseconds, whose length in nanoseconds fits in a `u64`.
pub const MAX_INTERVAL_MILLIS: u64 = 18_446_744_073_709;

/// What a repeating timer is, as numbers: all times in nanoseconds.
pub struct TimerState {
    /// Length of one period.
    pub interval: nat,
    /// Time run since the current period began.
    pub elapsed: nat,
    /// Periods that ended during the latest tick.
    pub times_finished: nat,
}

impl TimerState {
    /// A running timer has a period of positive length and is always inside it.
    pub open spec fn wf(self) -> bool {
        0 < self.interval && self.elapsed < self.interval
    }

    /// Whether at least one period ended during the latest tick.
    pub open spec fn just_finished(self) -> bool {
        self.times_finished > 0
    }

    /// Time left until the current period ends.
    pub open spec fn remaining(self) -> nat {
        (self.interval - self.elapsed) as nat
    }

    /// Whether the timer can count the periods that `delta` more nanoseconds complete.
    pub open spec fn can_tick(self, delta: nat) -> bool {
        (self.elapsed + delta) / self.interval <= u32::MAX
    }

    /// The timer after `delta` more nanoseconds: time wraps around at the end of
    /// each period, and every period that ended is counted.
    pub open spec fn ticked(self, delta: nat) -> TimerState {
        TimerState {
            interval: self.interval,
            elapsed: (self.elapsed + delta) % self.interval,
            times_finished: (self.elapsed + delta) / self.interval,
        }
    }
}

/// A timer that starts over each time its interval has passed.
#[derive(Debug, Clone, Copy, PartialEq, Eq)]
pub struct RepeatingTimer {
    interval_ns: u64,
    elapsed_ns: u64,
    times_finished: u32,
}

impl View for RepeatingTimer {
    type V = TimerState;

    closed spec fn view(&self) -> TimerState {
        TimerState {
            interval: self.interval_ns as nat,
            elapsed: self.elapsed_ns as nat,
            times_finished: self.times_finished as nat,
        }
    }
}

/// Advances bevy's `Timer`, in `TimerMode::Repeating`, by one call of `Timer::tick`.
///
/// The timer is set up with a period of `interval_ns` and `elapsed_ns` already run,
/// then ticked by `delta_ns`. Returned are `Timer::elapsed` and
/// `Timer::times_finished_this_tick` after the tick. The contract claims what the
/// body of `Timer::tick` does for a timer that is not paused: it adds the delta,
/// counts the whole periods in the sum and keeps the rest. A period of zero makes
/// it divide by zero, and it keeps the count in a `u32`.
#[verifier::external_body]
fn tick_repeating(interval_ns: u64, elapsed_ns: u64, delta_ns: u64) -> (after: (u64, u32))
    requires
        interval_ns > 0,
        (elapsed_ns + delta_ns) / (interval_ns as int) <= u32::MAX,
    ensures
        after.0 == (elapsed_ns + delta_ns) % (interval_ns as int),
        after.1 == (elapsed_ns + delta_ns) / (interval_ns as int),
{
    let mut timer = Timer::new(Duration::from_nanos(interval_ns), TimerMode::Repeating);
    timer.set_elapsed(Duration::from_nanos(elapsed_ns));
    timer.tick(Duration::from_nanos(delta_ns));
    (timer.elapsed().as_nanos() as u64, timer.times_finished_this_tick())
}

impl RepeatingTimer {
    /// Holds of every timer in use.
    #[verifier::type_invariant]
    pub open spec fn inv(self) -> bool {
        self@.wf()
    }

    /// A timer of the given interval, in milliseconds, with no time run yet.
    pub fn new(interval_ms: u64) -> (timer: RepeatingTimer)
        requires
            0 < interval_ms <= MAX_INTERVAL_MILLIS,
        ensures
            timer@ == (TimerState {
                interval: (interval_ms * NANOS_PER_MILLI) as nat,
                elapsed: 0,
                times_finished: 0,
            }),
            timer@.wf(),
    {
        RepeatingTimer {
            interval_ns: interval_ms * NANOS_PER_MILLI,
            elapsed_ns: 0,
            times_finished: 0,
        }
    }

    /// Length of one period, in nanoseconds.
    pub fn interval_ns(&self) -> (ns: u64)
        ensures
            ns == self@.interval,
    {
        self.interval_ns
    }

    /// Time run since the current period began, in nanoseconds.
    pub fn elapsed_ns(&self) -> (ns: u64)
        ensures
            ns == self@.elapsed,
    {
        self.elapsed_ns
    }

    /// Time left until the current period ends, in nanoseconds.
    pub fn remaining_ns(&self) -> (ns: u64)
        ensures
            ns == self@.remaining(),
            self@.wf(),
    {
        proof {
            use_type_invariant(self);
        }
        self.interval_ns - self.elapsed_ns
    }

    /// How many periods ended during the latest tick.
    pub fn times_finished_this_tick(&self) -> (times: u32)
        ensures
            times == self@.times_finished,
    {
        self.times_finished
    }

    /// Whether a period ended during the latest tick.
    pub fn just_finished(&self) -> (finished: bool)
        ensures
            finished == self@.just_finished(),
    {
        self.times_finished > 0
    }

    /// Whether `tick` accepts `delta_ns`: the periods completed must be countable.
    pub fn can_tick(&self, delta_ns: u64) -> (ok: bool)
        ensures
            ok == self@.can_tick(delta_ns as nat),
    {
        proof {
            use_type_invariant(self);
        }
        let total: u128 = self.elapsed_ns as u128 + delta_ns as u128;
        total / (self.interval_ns as u128) <= u32::MAX as u128
    }

    /// Lets `delta_ns` nanoseconds pass.
    pub fn tick(&mut self, delta_ns: u64)
        requires
            old(self)@.can_tick(delta_ns as nat),
        ensures
            final(self)@ == old(self)@.ticked(delta_ns as nat),
            final(self)@.wf(),
    {
        proof {
            use_type_invariant(&*self);
        }
        let (elapsed, times) = tick_repeating(self.interval_ns, self.elapsed_ns, delta_ns);
        self.elapsed_ns = elapsed;
        self.times_finished = times;
    }
}

} // verus!
