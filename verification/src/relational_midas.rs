//! The relational scorer: edges from a source to a destination.

use crate::ratio::{Fraction, Ratio};
use crate::score::{burst_score, burst_score_spec, Score};
use crate::window::{
    lemma_windows_at_one_tick_agree, rolls_over_at, tick_after, TemporalWindow,
};
use vstd::prelude::*;

verus! {

/// The three counts of one edge: of its source alone, of its destination
/// alone, and of the pair.
#[derive(Clone, Copy, Debug, PartialEq, Eq, Structural)]
pub struct NodeCounts {
    pub source: u64,
    pub dest: u64,
    pub combined: u64,
}

/// The three scores of one edge. The score of the edge is their mean.
#[derive(Clone, Copy, Debug, PartialEq, Eq, Structural)]
pub struct RelationalScore {
    pub source: Score,
    pub dest: Score,
    pub combined: Score,
}

impl RelationalScore {
    /// Each of the three scores is a ratio.
    pub open spec fn is_valid(self) -> bool {
        self.source.is_valid() && self.dest.is_valid() && self.combined.is_valid()
    }

    /// Whether all three scores are zero.
    pub open spec fn spec_is_zero(&self) -> bool {
        self.source.is_zero() && self.dest.is_zero() && self.combined.is_zero()
    }

    /// The score of the edge: the arithmetic mean of the three scores.
    pub open spec fn mean(self) -> Ratio {
        self.source.ratio().plus(self.dest.ratio()).plus(self.combined.ratio()).divided_by(3)
    }

    /// Whether all three scores are zero, that is, whether the mean is.
    #[verifier::when_used_as_spec(spec_is_zero)]
    pub fn is_zero(&self) -> (zero: bool)
        ensures
            zero == self.spec_is_zero(),
    {
        self.source.is_zero() && self.dest.is_zero() && self.combined.is_zero()
    }

    /// Computes the mean of the three scores as one fraction. Returns `None`
    /// where a part of it does not fit in 128 bits; the three scores say what
    /// the mean is in either case.
    pub fn mean_fraction(&self) -> (mean: Option<Fraction>)
        requires
            self.is_valid(),
        ensures
            mean is Some <==> self.mean().fits(),
            mean matches Some(f) ==> f@ == self.mean(),
    {
        proof {
            lemma_mean_bounds_its_parts(*self);
        }
        let source = match self.source.fraction() {
            Some(f) => f,
            None => {
                return None;
            },
        };
        let dest = match self.dest.fraction() {
            Some(f) => f,
            None => {
                return None;
            },
        };
        let combined = match self.combined.fraction() {
            Some(f) => f,
            None => {
                return None;
            },
        };
        let two = match source.checked_plus(&dest) {
            Some(f) => f,
            None => {
                return None;
            },
        };
        let three = match two.checked_plus(&combined) {
            Some(f) => f,
            None => {
                return None;
            },
        };
        three.checked_divided_by(3)
    }
}

/// Each value on the way to the mean of three valid scores is at most the
/// part of the mean that it goes into.
proof fn lemma_mean_bounds_its_parts(score: RelationalScore)
    requires
        score.is_valid(),
    ensures
        ({
            let s = score.source.ratio();
            let d = score.dest.ratio();
            let c = score.combined.ratio();
            let m = score.mean();
            &&& 0 <= s.num <= m.num
            &&& 0 <= d.num <= m.num
            &&& 0 <= c.num <= m.num
            &&& 0 <= s.plus(d).num <= m.num
            &&& 1 <= s.plus(d).den <= m.den
            &&& 0 <= s.plus(d).plus(c).num == m.num
            &&& 1 <= s.plus(d).plus(c).den <= m.den
        }),
{
    let s = score.source.ratio();
    let d = score.dest.ratio();
    let c = score.combined.ratio();
    assert(s.num >= 0 && d.num >= 0 && c.num >= 0) by (nonlinear_arith)
        requires
            s.num == score.source.excess * score.source.excess,
            d.num == score.dest.excess * score.dest.excess,
            c.num == score.combined.excess * score.combined.excess,
    ;
    let (sn, sd, dn, dd, cn, cd) = (s.num, s.den, d.num, d.den, c.num, c.den);
    assert(sn * dd >= sn && dn * sd >= dn && sd * dd >= 1) by (nonlinear_arith)
        requires
            sn >= 0,
            dn >= 0,
            sd >= 1,
            dd >= 1,
    ;
    let tn = sn * dd + dn * sd;
    let td = sd * dd;
    assert(tn * cd >= tn && cn * td >= cn && td * cd >= td) by (nonlinear_arith)
        requires
            tn >= 0,
            cn >= 0,
            td >= 1,
            cd >= 1,
    ;
}

/// The mean of three valid scores is zero exactly where all three are.
pub proof fn lemma_mean_is_zero_iff_all_are(score: RelationalScore)
    requires
        score.is_valid(),
    ensures
        score.mean().is_zero() <==> score.is_zero(),
        score.mean().den >= 3,
{
    lemma_mean_bounds_its_parts(score);
    let s = score.source.ratio();
    let d = score.dest.ratio();
    let c = score.combined.ratio();
    let (se, de, ce) = (
        score.source.excess as int,
        score.dest.excess as int,
        score.combined.excess as int,
    );
    assert((se == 0 <==> se * se == 0) && (de == 0 <==> de * de == 0) && (ce == 0 <==> ce * ce
        == 0)) by (nonlinear_arith);
    if score.is_zero() {
        assert(0 * d.den + 0 * s.den == 0);
        assert(0 * c.den + 0 * (s.den * d.den) == 0);
    }
}

/// The mean of three scores that are the same number is that number.
pub proof fn lemma_mean_of_equal_scores(score: Score)
    ensures
        (RelationalScore { source: score, dest: score, combined: score }).mean().same_value(
            score.ratio(),
        ),
{
    let n = score.ratio().num;
    let d = score.ratio().den;
    assert(((n * d + n * d) * d + n * (d * d)) * d == n * (d * d * d * 3)) by (nonlinear_arith);
}

/// The scores of an edge counted `a` in the current tick and `s` in all, at
/// tick `t`: the burst score of each of the three signals by itself.
pub open spec fn relational_score_spec(a: NodeCounts, s: NodeCounts, t: u64) -> RelationalScore {
    RelationalScore {
        source: burst_score_spec(a.source, s.source, t),
        dest: burst_score_spec(a.dest, s.dest, t),
        combined: burst_score_spec(a.combined, s.combined, t),
    }
}

/// Scores edges by the fan-out of the source, the fan-in of the destination
/// and the repetition of the pair.
///
/// The owner of a core keeps six approximate counters: for the current tick
/// and for the whole stream, one over sources, one over destinations and one
/// over pairs. For each event it asks [`RelationalCore::rolls_over`]; on
/// `true` it resets the three current-tick counters. It then inserts the
/// source, the destination and the pair into their counters and hands the
/// estimates that the inserts return to [`RelationalCore::update`].
#[derive(Clone, Copy, Debug)]
pub struct RelationalCore {
    window: TemporalWindow,
}

impl RelationalCore {
    /// The tick the core stands at.
    pub closed spec fn spec_tick(&self) -> u64 {
        self.window.tick()
    }

    /// A core at tick zero.
    pub fn new() -> (core: RelationalCore)
        ensures
            core.tick() == 0,
    {
        RelationalCore { window: TemporalWindow::new() }
    }

    /// The tick the core stands at.
    #[verifier::when_used_as_spec(spec_tick)]
    pub fn tick(&self) -> (tick: u64)
        ensures
            tick == self.spec_tick(),
    {
        self.window.tick()
    }

    /// Whether an event at `time` opens a new tick, so that the three
    /// current-tick counters are to be reset before the event is counted. The
    /// all-time counters are never reset.
    pub fn rolls_over(&self, time: u64) -> (rolled: bool)
        ensures
            rolled == rolls_over_at(self.tick(), time),
    {
        self.window.rolls_over(time)
    }

    /// The scores of an edge counted `a` in the current tick and `s` in all,
    /// at tick `t`.
    pub fn score(a: NodeCounts, s: NodeCounts, t: u64) -> (score: RelationalScore)
        ensures
            score == relational_score_spec(a, s, t),
            score.mean() == burst_score_spec(a.source, s.source, t).ratio().plus(
                burst_score_spec(a.dest, s.dest, t).ratio(),
            ).plus(burst_score_spec(a.combined, s.combined, t).ratio()).divided_by(3),
            score.is_valid(),
            t < 2 ==> score.is_zero(),
    {
        RelationalScore {
            source: burst_score(a.source, s.source, t),
            dest: burst_score(a.dest, s.dest, t),
            combined: burst_score(a.combined, s.combined, t),
        }
    }

    /// Takes an event at `time` whose source, destination and pair the
    /// counters now estimate at `current` for the tick and at `all` for the
    /// stream. Moves the window to `time` if that is later than the tick, and
    /// returns the event's scores.
    pub fn update(&mut self, current: NodeCounts, all: NodeCounts, time: u64) -> (score:
        RelationalScore)
        ensures
            final(self).tick() == tick_after(old(self).tick(), time),
            score == relational_score_spec(current, all, time),
            score.mean() == burst_score_spec(current.source, all.source, time).ratio().plus(
                burst_score_spec(current.dest, all.dest, time).ratio(),
            ).plus(burst_score_spec(current.combined, all.combined, time).ratio()).divided_by(3),
            score.is_valid(),
            time < 2 ==> score.is_zero(),
    {
        self.window.advance(time);
        RelationalCore::score(current, all, time)
    }
}

/// Cores that are fed alike score alike. A core is its tick, so two cores
/// at the same tick are equal; for the same time they ask for the same reset
/// and end at the same tick, and the score of a step is a function of the
/// counts and the time alone.
pub proof fn lemma_cores_fed_alike_score_alike(left: RelationalCore, right: RelationalCore, time: u64)
    requires
        left.tick() == right.tick(),
    ensures
        left == right,
        rolls_over_at(left.tick(), time) == rolls_over_at(right.tick(), time),
        tick_after(left.tick(), time) == tick_after(right.tick(), time),
{
    lemma_windows_at_one_tick_agree(left.window, right.window);
}

} // verus!
