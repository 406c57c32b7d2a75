//! The univariate scorer: one key, one pair of counts.

use crate::score::{burst_score, burst_score_spec, Score};
use crate::window::{
    lemma_windows_at_one_tick_agree, rolls_over_at, tick_after, TemporalWindow,
};
use vstd::prelude::*;

verus! {

/// Scores single keys against their own history.
///
/// The owner of a core keeps two approximate counters over the keys of its
/// stream: one for the current tick and one for the whole stream. For each
/// event it asks [`NormalCore::rolls_over`]; on `true` it resets the
/// current-tick counter. It then inserts the key into both counters and hands
/// the two estimates that the inserts return to [`NormalCore::update`].
#[derive(Clone, Copy, Debug)]
pub struct NormalCore {
    window: TemporalWindow,
}

impl NormalCore {
    /// The tick the core stands at.
    pub closed spec fn spec_tick(&self) -> u64 {
        self.window.tick()
    }

    /// A core at tick zero.
    pub fn new() -> (core: NormalCore)
        ensures
            core.tick() == 0,
    {
        NormalCore { window: TemporalWindow::new() }
    }

    /// The tick the core stands at.
    #[verifier::when_used_as_spec(spec_tick)]
    pub fn tick(&self) -> (tick: u64)
        ensures
            tick == self.spec_tick(),
    {
        self.window.tick()
    }

    /// Whether an event at `time` opens a new tick, so that the current-tick
    /// counter is to be reset before the event is counted. The all-time
    /// counter is never reset.
    pub fn rolls_over(&self, time: u64) -> (rolled: bool)
        ensures
            rolled == rolls_over_at(self.tick(), time),
    {
        self.window.rolls_over(time)
    }

    /// The score of a key counted `a` times in the current tick and `s` times
    /// in all, at tick `t`.
    pub fn score(a: u64, s: u64, t: u64) -> (score: Score)
        ensures
            score == burst_score_spec(a, s, t),
            score.is_valid(),
    {
        burst_score(a, s, t)
    }

    /// Takes an event at `time` whose key the counters now estimate at
    /// `current` for the tick and at `all` for the stream. Moves the window to
    /// `time` if that is later than the tick, and returns the event's score.
    pub fn update(&mut self, current: u64, all: u64, time: u64) -> (score: Score)
        ensures
            final(self).tick() == tick_after(old(self).tick(), time),
            score == burst_score_spec(current, all, time),
            score.is_valid(),
            time < 2 ==> score.is_zero(),
    {
        self.window.advance(time);
        burst_score(current, all, time)
    }
}

/// Cores that are fed alike score alike. A core is its tick, so two cores
/// at the same tick are equal; for the same time they ask for the same reset
/// and end at the same tick, and the score of a step is a function of the
/// counts and the time alone.
pub proof fn lemma_cores_fed_alike_score_alike(left: NormalCore, right: NormalCore, time: u64)
    requires
        left.tick() == right.tick(),
    ensures
        left == right,
        rolls_over_at(left.tick(), time) == rolls_over_at(right.tick(), time),
        tick_after(left.tick(), time) == tick_after(right.tick(), time),
{
    lemma_windows_at_one_tick_agree(left.window, right.window);
}

} // verus!
