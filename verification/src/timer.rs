//! Elapsed-time tracking with reset and finished semantics.
//!
//! A `Timer` accumulates the durations it is ticked with. A single-shot timer
//! stops at its duration and stays finished until it is reset; a repeating
//! timer wraps around and reports the tick on which it wrapped.

use vstd::prelude::*;

verus! {

/// What a timer does when it reaches its duration.
#[derive(Clone, Copy, Debug, PartialEq, Eq, Structural)]
pub enum TimerMode {
    /// Stop at the duration and stay finished.
    Once,
    /// Start over, keeping what was elapsed beyond the duration.
    Repeating,
}

/// A timer over nanoseconds.
#[derive(Clone, Copy, Debug, PartialEq, Eq, Structural)]
pub struct Timer {
    /// Nanoseconds after which the timer is finished.
    pub duration: u64,
    /// Nanoseconds accumulated since the last reset or wrap.
    pub elapsed: u64,
    pub mode: TimerMode,
    /// Whether the last effective tick reached the duration.
    pub finished: bool,
    /// Whether the last tick was the one that reached the duration.
    pub just_finished: bool,
}

/// `a + b`, held at the largest `u64`.
pub open spec fn saturating_sum(a: u64, b: u64) -> u64 {
    if a + b > u64::MAX {
        u64::MAX
    } else {
        (a + b) as u64
    }
}

/// The time from `earlier` to `now`, zero if `earlier` is not in the past.
pub open spec fn elapsed_between(now: u64, earlier: u64) -> u64 {
    if now >= earlier {
        (now - earlier) as u64
    } else {
        0
    }
}

/// The time from `earlier` to `now`, zero if `earlier` is not in the past.
pub fn duration_since(now: u64, earlier: u64) -> (d: u64)
    ensures
        d == elapsed_between(now, earlier),
{
    now.saturating_sub(earlier)
}

impl Timer {
    /// A fresh timer: nothing elapsed, not finished.
    pub open spec fn fresh(duration: u64, mode: TimerMode) -> Timer {
        Timer { duration, elapsed: 0, mode, finished: false, just_finished: false }
    }

    /// The timer after `delta` more nanoseconds.
    ///
    /// A finished single-shot timer only forgets that it has just finished.
    /// Otherwise `delta` is added to the elapsed time. If that reaches the
    /// duration, a single-shot timer stops there, and a repeating timer keeps
    /// the remainder of the division by its duration.
    pub open spec fn ticked(self, delta: u64) -> Timer {
        let total = saturating_sum(self.elapsed, delta);
        if self.mode == TimerMode::Once && self.finished {
            Timer { just_finished: false, ..self }
        } else if total < self.duration {
            Timer { elapsed: total, finished: false, just_finished: false, ..self }
        } else if self.mode == TimerMode::Once {
            Timer { elapsed: self.duration, finished: true, just_finished: true, ..self }
        } else {
            Timer {
                elapsed: if self.duration == 0 { 0 } else { total % self.duration },
                finished: true,
                just_finished: true,
                ..self
            }
        }
    }

    /// The timer with nothing elapsed and not finished.
    pub open spec fn rewound(self) -> Timer {
        Timer { elapsed: 0, finished: false, just_finished: false, ..self }
    }

    /// A fresh timer that is finished after `duration` nanoseconds.
    pub fn new(duration: u64, mode: TimerMode) -> (t: Timer)
        ensures
            t == Timer::fresh(duration, mode),
    {
        Timer { duration, elapsed: 0, mode, finished: false, just_finished: false }
    }

    /// Advances the timer by `delta` nanoseconds.
    pub fn tick(&mut self, delta: u64)
        ensures
            *final(self) == old(self).ticked(delta),
    {
        if self.mode == TimerMode::Once && self.finished {
            self.just_finished = false;
            return ;
        }
        let total: u64 = self.elapsed.saturating_add(delta);
        if total < self.duration {
            self.elapsed = total;
            self.finished = false;
            self.just_finished = false;
        } else {
            self.finished = true;
            self.just_finished = true;
            if self.mode == TimerMode::Once {
                self.elapsed = self.duration;
            } else if self.duration == 0 {
                self.elapsed = 0;
            } else {
                self.elapsed = total % self.duration;
            }
        }
    }

    /// Whether the timer has reached its duration.
    pub fn finished(&self) -> (b: bool)
        ensures
            b == self.finished,
    {
        self.finished
    }

    /// Whether the last tick was the one on which the duration was reached.
    pub fn just_finished(&self) -> (b: bool)
        ensures
            b == self.just_finished,
    {
        self.just_finished
    }

    /// Nanoseconds accumulated since the last reset or wrap.
    pub fn elapsed(&self) -> (e: u64)
        ensures
            e == self.elapsed,
    {
        self.elapsed
    }

    /// Nanoseconds after which the timer is finished.
    pub fn duration(&self) -> (d: u64)
        ensures
            d == self.duration,
    {
        self.duration
    }

    /// Starts the timer over.
    pub fn reset(&mut self)
        ensures
            *final(self) == old(self).rewound(),
    {
        self.elapsed = 0;
        self.finished = false;
        self.just_finished = false;
    }
}

/// A single-shot timer never runs backwards and never past its duration,
/// and it is finished exactly when what has elapsed adds up to the duration.
pub proof fn lemma_single_shot_timer_counts_up(timer: Timer, delta: u64)
    requires
        timer.mode == TimerMode::Once,
        !timer.finished,
        timer.elapsed <= timer.duration,
    ensures
        timer.elapsed <= timer.ticked(delta).elapsed <= timer.duration,
        timer.ticked(delta).finished <==> timer.elapsed + delta >= timer.duration,
        !timer.ticked(delta).finished ==> timer.ticked(delta).elapsed == timer.elapsed + delta,
        timer.ticked(delta).duration == timer.duration,
{
}

/// A finished single-shot timer stays as it is until it is reset, and a
/// reset timer is fresh.
pub proof fn lemma_finished_timer_waits_for_reset(timer: Timer, delta: u64)
    requires
        timer.mode == TimerMode::Once,
        timer.finished,
    ensures
        timer.ticked(delta).finished,
        timer.ticked(delta).elapsed == timer.elapsed,
        !timer.ticked(delta).just_finished,
        timer.rewound() == Timer::fresh(timer.duration, timer.mode),
{
}

/// A repeating timer is due on exactly the ticks on which what has elapsed
/// adds up to its duration, and then starts over below its duration.
pub proof fn lemma_repeating_timer_wraps(timer: Timer, delta: u64)
    requires
        timer.mode == TimerMode::Repeating,
        timer.duration > 0,
    ensures
        timer.ticked(delta).just_finished <==> timer.elapsed + delta >= timer.duration,
        timer.elapsed + delta >= timer.duration ==> timer.ticked(delta).elapsed < timer.duration,
{
}

} // verus!
