//! Timers that count frame time in microseconds.
//!
//! A timer is plain data. What one tick does to the count is worked out by the
//! game engine's own timer, so that a guard's pauses agree with every other
//! timer in the game.

use vstd::prelude::*;
use std::time::Duration;

verus! {

/// What a timer does once its duration has passed.
#[derive(Clone, Copy, Debug, PartialEq, Eq, Structural)]
pub enum TimerMode {
    /// It stops and stays finished until it is reset.
    Once,
    /// It starts over and keeps what was left of the tick.
    Repeating,
}

/// The count of a timer after one tick.
#[derive(Clone, Copy, Debug, PartialEq, Eq, Structural)]
pub struct Lapse {
    /// Microseconds counted so far.
    pub elapsed: u64,
    /// Whether the duration was reached in this tick.
    pub finished: bool,
    /// How often the duration was reached in this tick.
    pub times_finished: u32,
}

/// The count of a timer of `duration` microseconds that stood at `elapsed`,
/// after a tick of `delta` microseconds.
pub open spec fn lapse_of(duration: u64, elapsed: u64, mode: TimerMode, delta: u32) -> Lapse {
    let total = elapsed + delta;
    if total < duration {
        Lapse { elapsed: total as u64, finished: false, times_finished: 0 }
    } else if mode == TimerMode::Repeating {
        Lapse {
            elapsed: (total % (duration as int)) as u64,
            finished: true,
            times_finished: (total / (duration as int)) as u32,
        }
    } else {
        Lapse { elapsed: duration, finished: true, times_finished: 1 }
    }
}

/// Calls `Timer::tick` of the `bevy` crate on a timer made with `Timer::new`
/// for `duration` and `mode` and put at `elapsed` with `Timer::set_elapsed`,
/// and reads back `elapsed`, `finished` and `times_finished_this_tick`.
///
/// Trusted: a tick adds `delta` to the count. Below the duration nothing else
/// happens. From the duration on the timer is finished; a timer that runs once
/// then stands at its duration, a repeating one has counted how often the
/// duration fits into the sum and keeps the remainder. A repeating timer must
/// stand below its duration, so that the duration is not zero and the number
/// of rounds fits its 32 bits.
#[verifier::external_body]
fn lapse(duration: u64, elapsed: u64, mode: TimerMode, delta: u32) -> (l: Lapse)
    requires
        mode == TimerMode::Repeating ==> elapsed < duration,
    ensures
        l == lapse_of(duration, elapsed, mode, delta),
{
    let engine_mode = match mode {
        TimerMode::Once => bevy::time::TimerMode::Once,
        TimerMode::Repeating => bevy::time::TimerMode::Repeating,
    };
    let mut timer = bevy::time::Timer::new(Duration::from_micros(duration), engine_mode);
    timer.set_elapsed(Duration::from_micros(elapsed));
    timer.tick(Duration::from_micros(delta as u64));
    Lapse {
        elapsed: timer.elapsed().as_micros() as u64,
        finished: timer.finished(),
        times_finished: timer.times_finished_this_tick(),
    }
}

/// What a timer is, as numbers.
pub struct TimerView {
    /// Microseconds after which the timer is finished.
    pub duration: nat,
    /// Microseconds counted so far.
    pub elapsed: nat,
    pub mode: TimerMode,
    /// Whether the last tick reached the duration.
    pub finished: bool,
    /// How often the last tick reached the duration.
    pub times_finished: nat,
}

impl TimerView {
    /// The count never passes the duration, and a repeating timer stands
    /// strictly below it.
    pub open spec fn wf(self) -> bool {
        &&& self.duration <= u64::MAX
        &&& self.elapsed <= self.duration
        &&& (self.mode == TimerMode::Repeating ==> self.elapsed < self.duration)
        &&& (self.mode == TimerMode::Once && self.finished ==> self.elapsed == self.duration)
        &&& self.times_finished <= u32::MAX
    }

    /// A timer that has not been ticked.
    pub open spec fn fresh(duration: nat, mode: TimerMode) -> TimerView {
        TimerView { duration, elapsed: 0, mode, finished: false, times_finished: 0 }
    }

    /// The timer after a tick of `delta` microseconds. A finished timer that
    /// runs once stays as it is and reports no new finish.
    pub open spec fn tick(self, delta: nat) -> TimerView {
        let total = self.elapsed + delta;
        if self.mode == TimerMode::Once && self.finished {
            TimerView { times_finished: 0, ..self }
        } else if total < self.duration {
            TimerView { elapsed: total, finished: false, times_finished: 0, ..self }
        } else if self.mode == TimerMode::Repeating {
            TimerView {
                elapsed: total % self.duration,
                finished: true,
                times_finished: total / self.duration,
                ..self
            }
        } else {
            TimerView { elapsed: self.duration, finished: true, times_finished: 1, ..self }
        }
    }

    /// The timer put back to its start.
    pub open spec fn reset(self) -> TimerView {
        TimerView { elapsed: 0, finished: false, times_finished: 0, ..self }
    }

    /// Whether the last tick reached the duration.
    pub open spec fn just_finished(self) -> bool {
        self.times_finished > 0
    }
}

/// A fresh timer has the numbers of a fresh timer.
pub proof fn lemma_fresh_timer(duration: u64, mode: TimerMode)
    ensures
        Timer::fresh(duration, mode)@ == TimerView::fresh(duration as nat, mode),
{
}

/// Two timers with the same numbers are the same timer.
pub proof fn lemma_timer_is_its_view(a: Timer, b: Timer)
    requires
        a@ == b@,
    ensures
        a == b,
{
}

/// A tick keeps a timer well-formed.
pub proof fn lemma_tick_wf(t: TimerView, delta: nat)
    requires
        t.wf(),
        delta <= u32::MAX,
    ensures
        t.tick(delta).wf(),
{
    let total = t.elapsed + delta;
    if t.mode == TimerMode::Repeating && total >= t.duration {
        lemma_rounds(t.duration as int, t.elapsed as int, delta as int);
    }
}

/// A tick on a repeating timer that stands below its duration completes
/// fewer than 2^32 rounds and leaves less than the duration.
pub proof fn lemma_rounds(duration: int, elapsed: int, delta: int)
    requires
        0 <= elapsed < duration,
        0 <= delta <= u32::MAX,
    ensures
        0 <= (elapsed + delta) / duration <= u32::MAX,
        0 <= (elapsed + delta) % duration < duration,
{
    let total = elapsed + delta;
    assert(0 <= total % duration < duration && 0 <= total / duration && total == duration * (total
        / duration) + total % duration) by (nonlinear_arith)
        requires
            0 <= total,
            0 < duration,
    ;
    let q = total / duration;
    assert(q <= 0xFFFF_FFFF) by (nonlinear_arith)
        requires
            duration * q <= total,
            total <= duration - 1 + 0xFFFF_FFFF,
            0 < duration,
            0 <= q,
    ;
}

/// A countdown over frame time.
#[derive(Clone, Copy, Debug, PartialEq, Eq, Structural)]
pub struct Timer {
    duration: u64,
    elapsed: u64,
    mode: TimerMode,
    finished: bool,
    times_finished_this_tick: u32,
}

impl Default for Timer {
    /// A timer without duration that runs once.
    fn default() -> (t: Timer)
        ensures
            t@ == TimerView::fresh(0, TimerMode::Once),
    {
        Timer::new(0, TimerMode::Once)
    }
}

impl View for Timer {
    type V = TimerView;

    closed spec fn view(&self) -> TimerView {
        TimerView {
            duration: self.duration as nat,
            elapsed: self.elapsed as nat,
            mode: self.mode,
            finished: self.finished,
            times_finished: self.times_finished_this_tick as nat,
        }
    }
}

impl Timer {
    #[verifier::type_invariant]
    spec fn inv(self) -> bool {
        self@.wf()
    }

    /// The timer of `duration` microseconds that has not been ticked.
    pub closed spec fn fresh(duration: u64, mode: TimerMode) -> Timer {
        Timer { duration, elapsed: 0, mode, finished: false, times_finished_this_tick: 0 }
    }

    /// A timer of `duration` microseconds that has not been ticked. A timer
    /// that repeats needs a duration to repeat.
    pub fn new(duration: u64, mode: TimerMode) -> (t: Timer)
        requires
            mode == TimerMode::Repeating ==> duration > 0,
        ensures
            t == Timer::fresh(duration, mode),
            t@ == TimerView::fresh(duration as nat, mode),
            t@.wf(),
    {
        Timer { duration, elapsed: 0, mode, finished: false, times_finished_this_tick: 0 }
    }

    /// Counts `delta` microseconds.
    pub fn tick(&mut self, delta: u32)
        ensures
            final(self)@ == old(self)@.tick(delta as nat),
            final(self)@.wf(),
    {
        proof {
            use_type_invariant(&*self);
        }
        if self.finished && self.mode == TimerMode::Once {
            self.times_finished_this_tick = 0;
        } else {
            proof {
                if self.mode == TimerMode::Repeating {
                    lemma_rounds(self.duration as int, self.elapsed as int, delta as int);
                }
            }
            let l: Lapse = lapse(self.duration, self.elapsed, self.mode, delta);
            self.elapsed = l.elapsed;
            self.finished = l.finished;
            self.times_finished_this_tick = l.times_finished;
        }
    }

    /// Whether the last tick reached the duration; a timer that runs once
    /// says so until it is reset.
    pub fn finished(&self) -> (b: bool)
        ensures
            b == self@.finished,
            self@.wf(),
    {
        proof {
            use_type_invariant(self);
        }
        self.finished
    }

    /// Whether the last tick reached the duration.
    pub fn just_finished(&self) -> (b: bool)
        ensures
            b == self@.just_finished(),
    {
        self.times_finished_this_tick > 0
    }

    /// Puts the timer back to its start.
    pub fn reset(&mut self)
        ensures
            final(self)@ == old(self)@.reset(),
            final(self)@.wf(),
    {
        proof {
            use_type_invariant(&*self);
        }
        self.finished = false;
        self.elapsed = 0;
        self.times_finished_this_tick = 0;
    }

    /// Microseconds counted so far.
    pub fn elapsed(&self) -> (e: u64)
        ensures
            e == self@.elapsed,
    {
        self.elapsed
    }

    /// Microseconds after which the timer is finished.
    pub fn duration(&self) -> (d: u64)
        ensures
            d == self@.duration,
    {
        self.duration
    }

    /// Microseconds that are left to count.
    pub fn remaining(&self) -> (r: u64)
        ensures
            r == self@.duration - self@.elapsed,
    {
        proof {
            use_type_invariant(self);
        }
        self.duration - self.elapsed
    }

    /// What the timer does once its duration has passed.
    pub fn mode(&self) -> (m: TimerMode)
        ensures
            m == self@.mode,
    {
        self.mode
    }

    /// How often the last tick reached the duration.
    pub fn times_finished_this_tick(&self) -> (n: u32)
        ensures
            n == self@.times_finished,
    {
        self.times_finished_this_tick
    }
}

} // verus!
