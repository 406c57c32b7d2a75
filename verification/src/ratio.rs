//! Ratios of integers: the numbers that scores are.

use vstd::prelude::*;

verus! {

/// A ratio of two integers, `num / den`.
pub struct Ratio {
    pub num: int,
    pub den: int,
}

impl Ratio {
    /// The sum of two ratios, over the product of their denominators.
    pub open spec fn plus(self, other: Ratio) -> Ratio {
        Ratio { num: self.num * other.den + other.num * self.den, den: self.den * other.den }
    }

    /// The difference of two ratios, over the product of their denominators.
    pub open spec fn minus(self, other: Ratio) -> Ratio {
        Ratio { num: self.num * other.den - other.num * self.den, den: self.den * other.den }
    }

    /// The product of two ratios.
    pub open spec fn times(self, other: Ratio) -> Ratio {
        Ratio { num: self.num * other.num, den: self.den * other.den }
    }

    /// The ratio where it is greater than zero, and zero where it is not. The
    /// denominator is taken to be greater than zero.
    pub open spec fn or_zero(self) -> Ratio {
        if self.num > 0 {
            self
        } else {
            Ratio { num: 0, den: self.den }
        }
    }

    /// The ratio divided by `n`.
    pub open spec fn divided_by(self, n: int) -> Ratio {
        Ratio { num: self.num, den: self.den * n }
    }

    /// Whether the two ratios are the same number. Both denominators are
    /// taken to be greater than zero.
    pub open spec fn same_value(self, other: Ratio) -> bool {
        self.num * other.den == other.num * self.den
    }

    /// Whether the ratio is zero.
    pub open spec fn is_zero(self) -> bool {
        self.num == 0
    }

    /// Whether this ratio is strictly greater than `other`. Both
    /// denominators are taken to be greater than zero.
    pub open spec fn exceeds(self, other: Ratio) -> bool {
        self.num * other.den > other.num * self.den
    }

    /// Whether both parts fit in 128 bits without a sign.
    pub open spec fn fits(self) -> bool {
        0 <= self.num <= u128::MAX && 0 <= self.den <= u128::MAX
    }
}

/// A ratio of two integers of 128 bits.
#[derive(Clone, Copy, Debug, PartialEq, Eq, Structural)]
pub struct Fraction {
    pub num: u128,
    pub den: u128,
}

impl View for Fraction {
    type V = Ratio;

    open spec fn view(&self) -> Ratio {
        Ratio { num: self.num as int, den: self.den as int }
    }
}

impl Fraction {
    /// The sum of two fractions, over the product of their denominators, or
    /// `None` where one of its parts does not fit in 128 bits.
    pub fn checked_plus(&self, other: &Fraction) -> (sum: Option<Fraction>)
        ensures
            sum is Some <==> self@.plus(other@).fits(),
            sum matches Some(f) ==> f@ == self@.plus(other@),
    {
        let ghost a = self.num as int;
        let ghost b = self.den as int;
        let ghost c = other.num as int;
        let ghost d = other.den as int;
        proof {
            assert(a * d >= 0 && c * b >= 0 && b * d >= 0) by (nonlinear_arith)
                requires
                    a >= 0,
                    b >= 0,
                    c >= 0,
                    d >= 0,
            ;
        }
        let left = match self.num.checked_mul(other.den) {
            Some(p) => p,
            None => {
                return None;
            },
        };
        let right = match other.num.checked_mul(self.den) {
            Some(p) => p,
            None => {
                return None;
            },
        };
        let num = match left.checked_add(right) {
            Some(p) => p,
            None => {
                return None;
            },
        };
        let den = match self.den.checked_mul(other.den) {
            Some(p) => p,
            None => {
                return None;
            },
        };
        Some(Fraction { num, den })
    }

    /// The fraction divided by `n`, or `None` where its denominator does not
    /// fit in 128 bits.
    pub fn checked_divided_by(&self, n: u128) -> (quotient: Option<Fraction>)
        ensures
            quotient is Some <==> self@.divided_by(n as int).fits(),
            quotient matches Some(f) ==> f@ == self@.divided_by(n as int),
    {
        let ghost b = self.den as int;
        let ghost m = n as int;
        proof {
            assert(b * m >= 0) by (nonlinear_arith)
                requires
                    b >= 0,
                    m >= 0,
            ;
        }
        match self.den.checked_mul(n) {
            Some(den) => Some(Fraction { num: self.num, den }),
            None => None,
        }
    }
}

} // verus!
