//! The time window of a scorer: the latest tick seen and the rollover rule.

use vstd::prelude::*;

verus! {

/// Whether an event at `time` opens a new tick for a window standing at `tick`.
pub open spec fn rolls_over_at(tick: u64, time: u64) -> bool {
    time > tick
}

/// The tick of a window that stood at `tick` once it has seen `time`.
pub open spec fn tick_after(tick: u64, time: u64) -> u64 {
    if time > tick {
        time
    } else {
        tick
    }
}

/// The two phases of a scorer's life.
#[derive(Clone, Copy, Debug, PartialEq, Eq, Structural)]
pub enum Phase {
    /// No tick beyond the first has been seen: every score is zero.
    NoHistory,
    /// At least one rollover has happened.
    Active,
}

/// The phase of a window standing at `tick`.
pub open spec fn phase_at(tick: u64) -> Phase {
    if tick < 1 {
        Phase::NoHistory
    } else {
        Phase::Active
    }
}

/// The latest tick observed on a stream.
///
/// The tick starts at zero and never decreases. A time that is not greater
/// than the tick belongs to the current bucket.
#[derive(Clone, Copy, Debug)]
pub struct TemporalWindow {
    tick: u64,
}

impl TemporalWindow {
    /// The tick the window stands at.
    pub closed spec fn spec_tick(&self) -> u64 {
        self.tick
    }

    /// A window at tick zero.
    pub fn new() -> (window: TemporalWindow)
        ensures
            window.tick() == 0,
    {
        TemporalWindow { tick: 0 }
    }

    /// The tick the window stands at.
    #[verifier::when_used_as_spec(spec_tick)]
    pub fn tick(&self) -> (tick: u64)
        ensures
            tick == self.spec_tick(),
    {
        self.tick
    }

    /// The phase the window is in.
    pub fn phase(&self) -> (phase: Phase)
        ensures
            phase == phase_at(self.tick()),
    {
        if self.tick < 1 {
            Phase::NoHistory
        } else {
            Phase::Active
        }
    }

    /// Whether an event at `time` would open a new tick. The window is not
    /// changed.
    pub fn rolls_over(&self, time: u64) -> (rolled: bool)
        ensures
            rolled == rolls_over_at(self.tick(), time),
    {
        time > self.tick
    }

    /// Takes note of an event at `time`. Returns `true`, and moves to `time`,
    /// when `time` is greater than the tick; the owner then resets its
    /// current-tick counts. Otherwise nothing changes.
    pub fn advance(&mut self, time: u64) -> (rolled: bool)
        ensures
            rolled == rolls_over_at(old(self).tick(), time),
            final(self).tick() == tick_after(old(self).tick(), time),
            final(self).tick() >= old(self).tick(),
            !rolled ==> *final(self) == *old(self),
    {
        if time > self.tick {
            self.tick = time;
            true
        } else {
            false
        }
    }
}

/// A window is its tick: two windows at the same tick are equal.
pub proof fn lemma_windows_at_one_tick_agree(left: TemporalWindow, right: TemporalWindow)
    requires
        left.tick() == right.tick(),
    ensures
        left == right,
{
}

/// The tick never moves backward, and lands on the greater of the old tick
/// and the time seen.
pub proof fn lemma_tick_is_monotone(tick: u64, time: u64)
    ensures
        tick_after(tick, time) >= tick,
        tick_after(tick, time) >= time,
        tick_after(tick, time) == tick || tick_after(tick, time) == time,
{
}

/// A time rolls the window over at most once: after it has been seen, the
/// same time, or an earlier one, leaves the window as it is.
pub proof fn lemma_rollover_happens_once(tick: u64, time: u64, again: u64)
    requires
        again <= time,
    ensures
        !rolls_over_at(tick_after(tick, time), again),
        tick_after(tick_after(tick, time), again) == tick_after(tick, time),
{
}

/// A window that has left the phase without history never returns to it.
pub proof fn lemma_active_stays_active(tick: u64, time: u64)
    requires
        phase_at(tick) == Phase::Active,
    ensures
        phase_at(tick_after(tick, time)) == Phase::Active,
{
}

/// The window becomes active on the first time that is at least one.
pub proof fn lemma_first_tick_activates(tick: u64, time: u64)
    ensures
        phase_at(tick_after(tick, time)) == Phase::Active <==> (tick >= 1 || time >= 1),
{
}

} // verus!
