//! A repeating frame timer measured in nanoseconds, driven by bevy's `Timer`.

use bevy::time::{Timer, TimerMode};
use std::time::Duration;
use vstd::prelude::*;

verus! {

/// Relies on bevy_time's `Timer::tick` in repeating mode: the timer finishes
/// when the accumulated time reaches its duration, and keeps only the
/// remainder of the accumulated time modulo its duration.
#[verifier::external_body]
fn repeating_tick(period: u64, elapsed: u64, delta: u64) -> (r: (u64, bool))
    requires
        period > 0,
    ensures
        r.0 == (elapsed + delta) % (period as int),
        r.1 == (elapsed + delta >= period),
{
    let mut timer = Timer::new(Duration::from_nanos(period), TimerMode::Repeating);
    timer.set_elapsed(Duration::from_nanos(elapsed));
    timer.tick(Duration::from_nanos(delta));
    (timer.elapsed().as_nanos() as u64, timer.finished())
}

/// What a frame timer holds: its period, the time accumulated towards the
/// next period, and whether the last tick completed a period.
pub struct TimerView {
    pub period: nat,
    pub elapsed: nat,
    pub fired: bool,
}

impl TimerView {
    pub open spec fn wf(self) -> bool {
        self.period > 0 && self.elapsed < self.period
    }

    /// A freshly started timer of the given period.
    pub open spec fn fresh(period: nat) -> TimerView {
        TimerView { period, elapsed: 0, fired: false }
    }

    /// The timer after `delta` nanoseconds: it fires at most once, however
    /// many periods `delta` spans, and keeps the time past the last period.
    pub open spec fn tick(self, delta: nat) -> TimerView {
        TimerView {
            period: self.period,
            elapsed: (self.elapsed + delta) % self.period,
            fired: self.elapsed + delta >= self.period,
        }
    }
}

/// A repeating timer: fires each time the accumulated time completes a period.
#[derive(Clone, Copy, Debug)]
pub struct FrameTimer {
    period: u64,
    elapsed: u64,
    fired: bool,
}

impl View for FrameTimer {
    type V = TimerView;

    closed spec fn view(&self) -> TimerView {
        TimerView { period: self.period as nat, elapsed: self.elapsed as nat, fired: self.fired }
    }
}

impl FrameTimer {
    /// A timer with the given period in nanoseconds, nothing accumulated yet.
    pub fn new(period: u64) -> (r: FrameTimer)
        requires
            period > 0,
        ensures
            r@ == TimerView::fresh(period as nat),
    {
        FrameTimer { period, elapsed: 0, fired: false }
    }

    /// Adds `delta` nanoseconds.
    pub fn tick(&mut self, delta: u64)
        requires
            old(self)@.wf(),
        ensures
            final(self)@ == old(self)@.tick(delta as nat),
            final(self)@.wf(),
    {
        let (elapsed, fired) = repeating_tick(self.period, self.elapsed, delta);
        self.elapsed = elapsed;
        self.fired = fired;
    }

    /// Whether the last tick completed a period.
    pub fn finished(&self) -> (r: bool)
        ensures
            r == self@.fired,
    {
        self.fired
    }

    /// The time accumulated towards the next period, in nanoseconds.
    pub fn elapsed(&self) -> (r: u64)
        ensures
            r == self@.elapsed,
    {
        self.elapsed
    }

    /// The period in nanoseconds.
    pub fn period(&self) -> (r: u64)
        ensures
            r == self@.period,
    {
        self.period
    }
}

} // verus!
