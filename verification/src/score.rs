//! The burst statistic.

use crate::ratio::{Fraction, Ratio};
use vstd::prelude::*;

verus! {

/// An anomaly score, held exactly as the ratio `excess * excess / spread`.
///
/// For a current-tick count `a`, an all-time count `s` and a tick `t`, the
/// mean count per tick is `s / t`. `excess` is `a * t - s`, that is `t` times
/// the amount by which `a` exceeds that mean, or zero where it does not.
/// `spread` is `s * (t - 1)`. The ratio equals the squared surplus over the
/// mean, times `t * t / (s * (t - 1))`.
#[derive(Clone, Copy, Debug, PartialEq, Eq, Structural)]
pub struct Score {
    pub excess: u128,
    pub spread: u128,
}

impl Score {
    /// A score is a ratio: its denominator is not zero.
    pub open spec fn is_valid(self) -> bool {
        self.spread >= 1
    }

    /// The numerator of the ratio.
    pub open spec fn numerator(self) -> nat {
        (self.excess * self.excess) as nat
    }

    /// The denominator of the ratio.
    pub open spec fn denominator(self) -> nat {
        self.spread as nat
    }

    /// The score as a ratio.
    pub open spec fn ratio(self) -> Ratio {
        Ratio { num: self.numerator() as int, den: self.denominator() as int }
    }

    /// The score that signals nothing.
    pub open spec fn spec_zero() -> Score {
        Score { excess: 0, spread: 1 }
    }

    /// Whether the ratio is zero.
    pub open spec fn spec_is_zero(&self) -> bool {
        self.excess == 0
    }

    /// Whether this score is strictly greater than `other`.
    pub open spec fn exceeds(self, other: Score) -> bool {
        self.ratio().exceeds(other.ratio())
    }

    /// The score that signals nothing.
    #[verifier::when_used_as_spec(spec_zero)]
    pub fn zero() -> (score: Score)
        ensures
            score == Score::spec_zero(),
            score.is_valid(),
            score.is_zero(),
    {
        Score { excess: 0, spread: 1 }
    }

    /// Whether the ratio is zero.
    #[verifier::when_used_as_spec(spec_is_zero)]
    pub fn is_zero(&self) -> (zero: bool)
        ensures
            zero == self.spec_is_zero(),
    {
        self.excess == 0
    }

    /// The score as a fraction, or `None` where the square of `excess` does
    /// not fit in 128 bits.
    pub fn fraction(&self) -> (fraction: Option<Fraction>)
        ensures
            fraction is Some <==> self.ratio().fits(),
            fraction matches Some(f) ==> f@ == self.ratio(),
    {
        let ghost e = self.excess as int;
        proof {
            assert(e * e >= 0) by (nonlinear_arith);
        }
        match self.excess.checked_mul(self.excess) {
            Some(num) => Some(Fraction { num, den: self.spread }),
            None => None,
        }
    }
}

/// The burst score of a key counted `a` times in the current tick and `s`
/// times over the whole stream, at tick `t`.
///
/// It is zero while fewer than two ticks have been seen, zero where the
/// all-time count is zero, and zero where the current count is not above the
/// mean count per tick.
pub open spec fn burst_score_spec(a: u64, s: u64, t: u64) -> Score {
    if t < 2 || s == 0 || a * t <= s {
        Score::spec_zero()
    } else {
        Score { excess: (a * t - s) as u128, spread: (s * (t - 1)) as u128 }
    }
}

/// The burst statistic as it is defined. With `s / t` the count that is
/// expected in a tick, the deviation is what `a` has above it, or zero; the
/// score is the square of the deviation times `t * t / (s * (t - 1))`.
pub open spec fn burst_formula(a: u64, s: u64, t: u64) -> Ratio {
    let expected = Ratio { num: s as int, den: t as int };
    let deviation = (Ratio { num: a as int, den: 1 }).minus(expected).or_zero();
    let normalizer = Ratio { num: t * t, den: s * (t - 1) };
    deviation.times(deviation).times(normalizer)
}

/// Computes the burst score of the counts `a` and `s` at tick `t`.
pub fn burst_score(a: u64, s: u64, t: u64) -> (score: Score)
    ensures
        score == burst_score_spec(a, s, t),
        score.is_valid(),
        t < 2 ==> score.is_zero(),
        s == 0 ==> score.is_zero(),
{
    if t < 2 || s == 0 {
        return Score::zero();
    }
    proof {
        lemma_counts_fit(a, s, t);
    }
    let observed: u128 = (a as u128) * (t as u128);
    if observed <= s as u128 {
        return Score::zero();
    }
    Score { excess: observed - s as u128, spread: (s as u128) * ((t - 1) as u128) }
}

/// While no tick beyond the first has been seen, the score is zero whatever
/// the counts are.
pub proof fn lemma_no_history_scores_zero(a: u64, s: u64, t: u64)
    requires
        t < 1,
    ensures
        burst_score_spec(a, s, t) == Score::zero(),
        burst_score_spec(a, s, t).is_zero(),
{
}

/// A count that is not above the mean count per tick gives no signal.
pub proof fn lemma_only_surplus_counts(a: u64, s: u64, t: u64)
    requires
        a * t <= s,
    ensures
        burst_score_spec(a, s, t).is_zero(),
{
}

/// Where the score is not zero, its ratio is the square of `a * t - s` over
/// `s * (t - 1)`, and it is greater than zero.
pub proof fn lemma_score_of_a_surplus(a: u64, s: u64, t: u64)
    requires
        t >= 2,
        s >= 1,
        a * t > s,
    ensures
        burst_score_spec(a, s, t).is_valid(),
        !burst_score_spec(a, s, t).is_zero(),
        burst_score_spec(a, s, t).excess == a * t - s,
        burst_score_spec(a, s, t).numerator() == (a * t - s) * (a * t - s),
        burst_score_spec(a, s, t).denominator() == s * (t - 1),
        burst_score_spec(a, s, t).exceeds(Score::zero()),
{
    lemma_counts_fit(a, s, t);
    lemma_signal_exceeds_silence(burst_score_spec(a, s, t), Score::zero());
}

/// With two ticks or more of history and an all-time count that is not
/// zero, the score is the number that the burst statistic defines.
pub proof fn lemma_score_is_the_formula(a: u64, s: u64, t: u64)
    requires
        t >= 2,
        s >= 1,
    ensures
        burst_formula(a, s, t).den > 0,
        burst_score_spec(a, s, t).ratio().same_value(burst_formula(a, s, t)),
{
    lemma_counts_fit(a, s, t);
    let e = a * t - s * 1;
    let u = 1 * t;
    let v = s * (t - 1);
    let w = t * t;
    assert(u == t && s * 1 == s);
    assert(u * u > 0 && w > 0 && (u * u) * v > 0) by (nonlinear_arith)
        requires
            u >= 2,
            u == t,
            w == t * t,
            v >= 1,
    ;
    if a * t > s {
        assert((e * e) * ((u * u) * v) == ((e * e) * w) * v) by (nonlinear_arith)
            requires
                u == t,
                w == t * t,
        ;
    } else {
        assert((0 * 0) * w == 0 && ((0 * 0) * w) * 1 == 0 && (0 * 0) * ((u * u) * v) == 0) by (
            nonlinear_arith);
    }
}

/// Every score that `burst_score_spec` gives is a ratio with a denominator
/// that is not zero.
pub proof fn lemma_score_is_valid(a: u64, s: u64, t: u64)
    ensures
        burst_score_spec(a, s, t).is_valid(),
{
    if t >= 2 && s >= 1 && a * t > s {
        lemma_counts_fit(a, s, t);
    }
}

/// A key that is seen `m` times in every tick scores zero throughout: at its
/// `j`-th sight in tick `i` an exact count of it stands at `j` for the tick
/// and at `m * i + j` in all.
pub proof fn lemma_steady_key_scores_zero(m: u64, i: u64, j: u64)
    requires
        1 <= j <= m,
        m * i + j <= u64::MAX,
    ensures
        burst_score_spec(j, (m * i + j) as u64, i).is_zero(),
{
    assert(j * i <= m * i) by (nonlinear_arith)
        requires
            j <= m,
            0 <= i,
    ;
}

/// A burst beats the steady baseline. A key seen `m` times in each of the
/// ticks before `t` and then `k` times in tick `t` scores, under exact
/// counts, above every score of the steady run, as soon as `k * t` is greater
/// than `m * t + k`.
pub proof fn lemma_burst_exceeds_steady_baseline(m: u64, t: u64, k: u64, i: u64, j: u64)
    requires
        t >= 2,
        m * t + k <= u64::MAX,
        k * t > m * t + k,
        1 <= j <= m,
        m * i + j <= u64::MAX,
    ensures
        burst_score_spec(k, (m * t + k) as u64, t).exceeds(
            burst_score_spec(j, (m * i + j) as u64, i),
        ),
{
    lemma_steady_key_scores_zero(m, i, j);
    lemma_score_is_valid(j, (m * i + j) as u64, i);
    assert(m * t >= 0 && k >= 1) by (nonlinear_arith)
        requires
            m >= 0,
            t >= 2,
            k >= 0,
            k * t > m * t + k,
    ;
    lemma_score_of_a_surplus(k, (m * t + k) as u64, t);
    lemma_signal_exceeds_silence(
        burst_score_spec(k, (m * t + k) as u64, t),
        burst_score_spec(j, (m * i + j) as u64, i),
    );
}

/// A key seen for the first time at tick `t`, with two ticks or more of
/// history, scores exactly `t - 1`.
pub proof fn lemma_new_key_score(t: u64)
    requires
        t >= 2,
    ensures
        burst_score_spec(1, 1, t) == (Score { excess: (t - 1) as u128, spread: (t - 1) as u128 }),
        burst_score_spec(1, 1, t).numerator() == (t - 1) * burst_score_spec(1, 1, t).denominator(),
{
    assert(1 * t == t && 1 * (t - 1) == t - 1);
}

/// A new key beats the steady baseline: seen for the first time at a tick
/// `t` of two or more, it scores above every score of a key that is seen `m`
/// times in every tick.
pub proof fn lemma_new_key_exceeds_steady_baseline(t: u64, m: u64, i: u64, j: u64)
    requires
        t >= 2,
        1 <= j <= m,
        m * i + j <= u64::MAX,
    ensures
        burst_score_spec(1, 1, t).exceeds(burst_score_spec(j, (m * i + j) as u64, i)),
{
    lemma_steady_key_scores_zero(m, i, j);
    lemma_score_is_valid(j, (m * i + j) as u64, i);
    assert(1 * t == t);
    lemma_score_of_a_surplus(1, 1, t);
    lemma_signal_exceeds_silence(
        burst_score_spec(1, 1, t),
        burst_score_spec(j, (m * i + j) as u64, i),
    );
}

/// A score that is not zero is greater than every score that is.
pub proof fn lemma_signal_exceeds_silence(signal: Score, silence: Score)
    requires
        !signal.is_zero(),
        silence.is_zero(),
        silence.is_valid(),
    ensures
        signal.exceeds(silence),
{
    let e = signal.excess as int;
    let d = silence.spread as int;
    let z = silence.excess as int;
    let v = signal.spread as int;
    assert((e * e) * d > 0) by (nonlinear_arith)
        requires
            e > 0,
            d > 0,
    ;
    assert((z * z) * v == 0) by (nonlinear_arith)
        requires
            z == 0,
    ;
}

/// The products behind a score fit in 128 bits.
proof fn lemma_counts_fit(a: u64, s: u64, t: u64)
    requires
        t >= 2,
        s >= 1,
    ensures
        0 <= a * t <= u128::MAX,
        1 <= s * (t - 1) <= u128::MAX,
{
    assert(a * t <= u64::MAX * u64::MAX) by (nonlinear_arith)
        requires
            a <= u64::MAX,
            t <= u64::MAX,
    ;
    assert(0 <= a * t) by (nonlinear_arith)
        requires
            0 <= a,
            0 <= t,
    ;
    assert(1 <= s * (t - 1) <= u64::MAX * u64::MAX) by (nonlinear_arith)
        requires
            1 <= s <= u64::MAX,
            2 <= t <= u64::MAX,
    ;
}

} // verus!
