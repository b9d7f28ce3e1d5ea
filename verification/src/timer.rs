//! Countdowns that fire when their duration has elapsed.

use bevy::time::{Timer, TimerMode};
use std::time::Duration;
use vstd::arithmetic::div_mod::lemma_fundamental_div_mod;
use vstd::arithmetic::div_mod::lemma_mod_bound;
use vstd::prelude::*;

verus! {

/// What a countdown does once its duration has elapsed.
#[derive(Clone, Copy, Debug, PartialEq, Eq, Structural)]
pub enum CountdownMode {
    /// Fires once, then stays finished until it is reset.
    Once,
    /// Fires, keeps the time left over and starts again.
    Repeating,
}

/// A countdown over nanoseconds.
#[derive(Clone, Copy, Debug, PartialEq, Eq, Structural)]
pub struct Countdown {
    /// Length of one run, in nanoseconds.
    pub duration: u64,
    /// Time counted in the current run, in nanoseconds.
    pub elapsed: u64,
    pub mode: CountdownMode,
    /// Whether the last tick that counted reached the duration.
    pub finished: bool,
    /// How many runs the last tick completed.
    pub completions: u32,
}

/// The countdown that a fresh timer of `duration` and `mode`, already at
/// `elapsed`, becomes when `delta` more nanoseconds pass.
pub open spec fn advanced(duration: u64, mode: CountdownMode, elapsed: u64, delta: u64) -> Countdown {
    let total = elapsed + delta;
    if total < duration {
        Countdown { duration, elapsed: total as u64, mode, finished: false, completions: 0 }
    } else if mode == CountdownMode::Once {
        Countdown { duration, elapsed: duration, mode, finished: true, completions: 1 }
    } else if duration == 0 {
        Countdown { duration, elapsed: 0, mode, finished: true, completions: u32::MAX }
    } else {
        Countdown {
            duration,
            elapsed: (total % (duration as int)) as u64,
            mode,
            finished: true,
            completions: ((total / (duration as int)) % 0x1_0000_0000) as u32,
        }
    }
}

/// Runs `bevy::time::Timer::tick` on a timer made by `Timer::new` and moved to
/// `elapsed` by `Timer::set_elapsed`, and reads the timer back.
///
/// Trusted: the result is `advanced(..)`. A timer that has not
/// finished adds `delta` to its elapsed time. Below the duration it stays
/// unfinished. At or above it a one-shot timer stops at the duration with one
/// completion; a repeating timer keeps the remainder and counts the quotient,
/// cut to 32 bits, or `u32::MAX` where the duration is zero.
#[verifier::external_body]
fn timer_tick(duration: u64, mode: CountdownMode, elapsed: u64, delta: u64) -> (after: Countdown)
    ensures
        after == advanced(duration, mode, elapsed, delta),
{
    let timer_mode = match mode {
        CountdownMode::Once => TimerMode::Once,
        CountdownMode::Repeating => TimerMode::Repeating,
    };
    let mut timer = Timer::new(Duration::from_nanos(duration), timer_mode);
    timer.set_elapsed(Duration::from_nanos(elapsed));
    timer.tick(Duration::from_nanos(delta));
    Countdown {
        duration: timer.duration().as_nanos() as u64,
        elapsed: timer.elapsed().as_nanos() as u64,
        mode,
        finished: timer.finished(),
        completions: timer.times_finished_this_tick(),
    }
}

impl Countdown {
    /// The countdown after `delta` nanoseconds: a one-shot countdown that has
    /// finished only forgets its completion, any other one advances.
    pub open spec fn ticked(self, delta: u64) -> Countdown {
        if self.mode == CountdownMode::Once && self.finished {
            Countdown { completions: 0, ..self }
        } else {
            advanced(self.duration, self.mode, self.elapsed, delta)
        }
    }

    /// The countdown, started again from zero.
    pub open spec fn restarted(self) -> Countdown {
        Countdown { elapsed: 0, finished: false, completions: 0, ..self }
    }

    /// Whether the last tick completed a run.
    pub open spec fn fired(self) -> bool {
        self.completions > 0
    }

    /// A countdown of `duration` nanoseconds that has counted nothing yet.
    pub fn new(duration: u64, mode: CountdownMode) -> (c: Countdown)
        ensures
            c == (Countdown { duration, elapsed: 0, mode, finished: false, completions: 0 }),
    {
        Countdown { duration, elapsed: 0, mode, finished: false, completions: 0 }
    }

    /// Advances the countdown by `delta` nanoseconds.
    pub fn tick(&mut self, delta: u64)
        ensures
            *final(self) == old(self).ticked(delta),
    {
        if self.mode == CountdownMode::Once && self.finished {
            self.completions = 0;
        } else {
            *self = timer_tick(self.duration, self.mode, self.elapsed, delta);
        }
    }

    /// Whether the last tick completed a run. True on that tick only.
    pub fn just_finished(&self) -> (b: bool)
        ensures
            b == self.fired(),
    {
        self.completions > 0
    }

    /// Starts the run again from zero.
    pub fn reset(&mut self)
        ensures
            *final(self) == old(self).restarted(),
    {
        self.elapsed = 0;
        self.finished = false;
        self.completions = 0;
    }
}

/// The time that the ticks `deltas` add up to, in nanoseconds.
pub open spec fn total_time(deltas: Seq<u64>) -> nat
    decreases deltas.len(),
{
    if deltas.len() == 0 {
        0
    } else {
        total_time(deltas.drop_last()) + deltas.last() as nat
    }
}

impl Countdown {
    /// The countdown after the ticks `deltas`, one after the other.
    pub open spec fn after(self, deltas: Seq<u64>) -> Countdown
        decreases deltas.len(),
    {
        if deltas.len() == 0 {
            self
        } else {
            self.after(deltas.drop_last()).ticked(deltas.last())
        }
    }

    /// On how many of the ticks `deltas` the countdown fired.
    pub open spec fn firings(self, deltas: Seq<u64>) -> nat
        decreases deltas.len(),
    {
        if deltas.len() == 0 {
            0
        } else {
            self.firings(deltas.drop_last()) + if self.after(deltas).fired() {
                1nat
            } else {
                0nat
            }
        }
    }

    /// A tick of a repeating countdown that fires uses up one whole duration
    /// of the time counted so far; one that does not fire uses up none.
    pub proof fn lemma_firing_uses_a_duration(self, delta: u64)
        requires
            self.mode == CountdownMode::Repeating,
            self.duration > 0,
        ensures
            self.ticked(delta).mode == CountdownMode::Repeating,
            self.ticked(delta).duration == self.duration,
            self.ticked(delta).fired() ==> self.ticked(delta).elapsed + self.duration
                <= self.elapsed + delta,
            self.ticked(delta).elapsed <= self.elapsed + delta,
    {
        let total = self.elapsed + delta;
        let d = self.duration as int;
        if total >= d {
            lemma_fundamental_div_mod(total, d);
            lemma_mod_bound(total, d);
            let q = total / d;
            if q <= 0 {
                assert(d * q <= 0) by (nonlinear_arith)
                    requires
                        d > 0,
                        q <= 0,
                ;
            } else {
                assert(d * q >= d) by (nonlinear_arith)
                    requires
                        d > 0,
                        q >= 1,
                ;
            }
        }
    }

    /// A repeating countdown fires at most once for every whole duration of
    /// time that has passed: over any run of ticks, the firings times the
    /// duration, plus the time left on the countdown, are no more than the
    /// time it started with plus the time of the ticks.
    pub proof fn firings_bounded_by_time(self, deltas: Seq<u64>)
        requires
            self.mode == CountdownMode::Repeating,
            self.duration > 0,
        ensures
            self.after(deltas).mode == CountdownMode::Repeating,
            self.after(deltas).duration == self.duration,
            self.firings(deltas) * self.duration + self.after(deltas).elapsed <= self.elapsed
                + total_time(deltas),
        decreases deltas.len(),
    {
        let d = self.duration as int;
        if deltas.len() == 0 {
            assert(0 * d == 0);
        } else {
            let before = deltas.drop_last();
            self.firings_bounded_by_time(before);
            self.after(before).lemma_firing_uses_a_duration(deltas.last());
            let n = self.firings(before) as int;
            assert((n + 1) * d == n * d + d) by (nonlinear_arith);
        }
    }

    /// A one-shot countdown fires on at most one tick of any run, until it is
    /// reset.
    pub proof fn one_shot_fires_once(self, deltas: Seq<u64>)
        requires
            self.mode == CountdownMode::Once,
        ensures
            self.after(deltas).mode == CountdownMode::Once,
            self.firings(deltas) <= 1,
            self.finished ==> self.firings(deltas) == 0 && self.after(deltas).finished,
            self.firings(deltas) == 1 ==> self.after(deltas).finished,
        decreases deltas.len(),
    {
        if deltas.len() > 0 {
            self.one_shot_fires_once(deltas.drop_last());
        }
    }
}

} // verus!
