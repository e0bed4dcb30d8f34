//! Count-up timers, measured in nanoseconds.

use vstd::prelude::*;

verus! {

/// Nanoseconds in one millisecond.
pub const NANOS_PER_MILLI: u64 = 1_000_000;

/// What a timer does once it has reached its duration.
#[derive(Clone, Copy, Debug, PartialEq, Eq, Structural)]
pub enum TimerMode {
    /// Stop at the duration and stay finished until reset.
    Once,
    /// Wrap around and keep counting.
    Repeating,
}

/// A count-up timer. It is finished once the elapsed time has reached the
/// duration, and it only learns that when it is ticked.
#[derive(Clone, Copy, Debug, PartialEq, Eq, Structural)]
pub struct Timer {
    pub duration: u64,
    pub elapsed: u64,
    pub finished: bool,
    pub times_finished_this_tick: u32,
    pub mode: TimerMode,
}

/// `a + b`, stopping at the largest `u64`.
pub open spec fn saturating_sum(a: u64, b: u64) -> u64 {
    if a + b > u64::MAX {
        u64::MAX
    } else {
        (a + b) as u64
    }
}

impl Timer {
    /// A fresh timer: nothing elapsed, not finished.
    pub open spec fn fresh(duration: u64, mode: TimerMode) -> Timer {
        Timer { duration, elapsed: 0, finished: false, times_finished_this_tick: 0, mode }
    }

    /// The timer after `delta` nanoseconds have passed.
    pub open spec fn ticked(self, delta: u64) -> Timer {
        let total = saturating_sum(self.elapsed, delta);
        if self.mode == TimerMode::Once && self.finished {
            Timer { times_finished_this_tick: 0, ..self }
        } else if total < self.duration {
            Timer { elapsed: total, finished: false, times_finished_this_tick: 0, ..self }
        } else if self.mode == TimerMode::Once {
            Timer { elapsed: self.duration, finished: true, times_finished_this_tick: 1, ..self }
        } else if self.duration == 0 {
            Timer { elapsed: 0, finished: true, times_finished_this_tick: u32::MAX, ..self }
        } else {
            Timer {
                elapsed: (total % self.duration) as u64,
                finished: true,
                times_finished_this_tick: ((total / self.duration) % 0x1_0000_0000) as u32,
                ..self
            }
        }
    }

    /// The timer set back to zero, keeping duration and mode.
    pub open spec fn reset_spec(self) -> Timer {
        Timer { elapsed: 0, finished: false, times_finished_this_tick: 0, ..self }
    }

    /// A one-shot timer that runs for `duration` nanoseconds.
    pub fn once(duration: u64) -> (t: Timer)
        ensures
            t == Timer::fresh(duration, TimerMode::Once),
    {
        Timer {
            duration,
            elapsed: 0,
            finished: false,
            times_finished_this_tick: 0,
            mode: TimerMode::Once,
        }
    }

    /// A timer that runs for `duration` nanoseconds in the given mode.
    pub fn new(duration: u64, mode: TimerMode) -> (t: Timer)
        ensures
            t == Timer::fresh(duration, mode),
    {
        Timer { duration, elapsed: 0, finished: false, times_finished_this_tick: 0, mode }
    }

    /// A timer that runs for `millis` milliseconds, or for the longest
    /// representable time if that does not fit.
    pub fn from_millis(millis: u64, mode: TimerMode) -> (t: Timer)
        ensures
            t == Timer::fresh(millis_to_nanos(millis), mode),
    {
        Timer::new(nanos_from_millis(millis), mode)
    }

    /// Whether the last tick found the duration reached.
    pub fn finished(&self) -> (b: bool)
        ensures
            b == self.finished,
    {
        self.finished
    }

    /// Whether the duration was reached during the last tick.
    pub fn just_finished(&self) -> (b: bool)
        ensures
            b == (self.times_finished_this_tick > 0),
    {
        self.times_finished_this_tick > 0
    }

    /// Advances the timer by `delta` nanoseconds.
    pub fn tick(&mut self, delta: u64)
        ensures
            *final(self) == old(self).ticked(delta),
    {
        if self.mode == TimerMode::Once && self.finished {
            self.times_finished_this_tick = 0;
            return ;
        }
        let total: u64 = if delta > u64::MAX - self.elapsed {
            u64::MAX
        } else {
            self.elapsed + delta
        };
        if total < self.duration {
            self.elapsed = total;
            self.finished = false;
            self.times_finished_this_tick = 0;
        } else if self.mode == TimerMode::Once {
            self.elapsed = self.duration;
            self.finished = true;
            self.times_finished_this_tick = 1;
        } else if self.duration == 0 {
            self.elapsed = 0;
            self.finished = true;
            self.times_finished_this_tick = u32::MAX;
        } else {
            let laps: u64 = total / self.duration;
            self.elapsed = total % self.duration;
            self.finished = true;
            self.times_finished_this_tick = (laps % 0x1_0000_0000) as u32;
        }
    }

    /// Sets the timer back to zero, keeping duration and mode.
    pub fn reset(&mut self)
        ensures
            *final(self) == old(self).reset_spec(),
    {
        self.elapsed = 0;
        self.finished = false;
        self.times_finished_this_tick = 0;
    }

    /// Changes the duration and nothing else.
    pub fn set_duration(&mut self, duration: u64)
        ensures
            *final(self) == (Timer { duration, ..*old(self) }),
    {
        self.duration = duration;
    }
}

/// `millis` milliseconds in nanoseconds, stopping at the largest `u64`.
pub open spec fn millis_to_nanos(millis: u64) -> u64 {
    if millis * NANOS_PER_MILLI > u64::MAX {
        u64::MAX
    } else {
        (millis * NANOS_PER_MILLI) as u64
    }
}

/// Converts milliseconds to nanoseconds, saturating.
pub fn nanos_from_millis(millis: u64) -> (nanos: u64)
    ensures
        nanos == millis_to_nanos(millis),
{
    if millis > u64::MAX / NANOS_PER_MILLI {
        u64::MAX
    } else {
        millis * NANOS_PER_MILLI
    }
}

/// A one-shot timer never runs past its duration, and once finished it
/// stays finished with every further tick.
pub proof fn lemma_once_stays_finished(t: Timer, delta: u64)
    requires
        t.mode == TimerMode::Once,
        t.finished,
    ensures
        t.ticked(delta).finished,
        t.ticked(delta).elapsed == t.elapsed,
{
}

/// A one-shot timer that starts fresh is finished after a tick exactly when
/// the time passed has reached its duration.
pub proof fn lemma_once_finishes_at_duration(duration: u64, delta: u64)
    ensures
        Timer::fresh(duration, TimerMode::Once).ticked(delta).finished <==> delta >= duration,
{
}

} // verus!
