//! Exact rational numbers.
//!
//! Summaries and differences report their statistics as exact, unreduced
//! fractions of 128-bit integers. Comparisons between rationals are stated
//! by cross-multiplication, so no reduction step is ever needed.

use vstd::prelude::*;

use crate::arith::lemma_mul_abs_le;

verus! {

/// An exact rational number `num / den` with a positive denominator.
///
/// Kept unreduced: two ratios are compared by cross-multiplication, never by
/// normalizing, so equality of values is [`Ratio::spec_eq`], not structural
/// equality.
#[derive(Clone, Copy, Debug)]
pub struct Ratio {
    /// The numerator.
    pub num: i128,
    /// The denominator; always at least 1 in a well-formed ratio.
    pub den: i128,
}

/// Cross-multiplication bound under which the executable comparisons cannot
/// overflow an `i128`: both factors stay below `2^63` in magnitude.
pub const CROSS_BOUND: i128 = 0x7fff_ffff_ffff_ffff;

impl Ratio {
    /// Well-formed: the denominator is positive.
    pub open spec fn wf(self) -> bool {
        self.den >= 1
    }

    /// The two ratios denote the same rational value.
    pub open spec fn spec_eq(self, other: Ratio) -> bool {
        self.num * other.den == other.num * self.den
    }

    /// This ratio's value is at most `other`'s (denominators positive).
    pub open spec fn spec_le(self, other: Ratio) -> bool {
        self.num * other.den <= other.num * self.den
    }

    /// This ratio's value is strictly below `other`'s (denominators positive).
    pub open spec fn spec_lt(self, other: Ratio) -> bool {
        self.num * other.den < other.num * self.den
    }

    /// This ratio's value is strictly below the square of `other`'s value.
    pub open spec fn spec_lt_square_of(self, other: Ratio) -> bool {
        self.num * (other.den * other.den) < (other.num * other.num) * self.den
    }

    /// The ratio denotes zero.
    pub open spec fn spec_is_zero(self) -> bool {
        self.num == 0
    }

    /// Builds the ratio `num / den`.
    pub fn new(num: i128, den: i128) -> (r: Ratio)
        requires
            den >= 1,
        ensures
            r.num == num,
            r.den == den,
            r.wf(),
    {
        Ratio { num, den }
    }

    /// Whether the two ratios denote the same rational value, decided by
    /// cross-multiplication. The magnitude bounds keep the two products
    /// inside `i128`.
    pub fn eq_value(&self, other: &Ratio) -> (r: bool)
        requires
            self.wf(),
            other.wf(),
            -CROSS_BOUND <= self.num <= CROSS_BOUND,
            -CROSS_BOUND <= other.num <= CROSS_BOUND,
            self.den <= CROSS_BOUND,
            other.den <= CROSS_BOUND,
        ensures
            r == self.spec_eq(*other),
    {
        proof {
            lemma_mul_abs_le(self.num as int, other.den as int, CROSS_BOUND as int, CROSS_BOUND as int);
            lemma_mul_abs_le(other.num as int, self.den as int, CROSS_BOUND as int, CROSS_BOUND as int);
        }
        self.num * other.den == other.num * self.den
    }

    /// Whether this ratio's value is at most `other`'s, decided by
    /// cross-multiplication, under the same magnitude bounds.
    pub fn le_value(&self, other: &Ratio) -> (r: bool)
        requires
            self.wf(),
            other.wf(),
            -CROSS_BOUND <= self.num <= CROSS_BOUND,
            -CROSS_BOUND <= other.num <= CROSS_BOUND,
            self.den <= CROSS_BOUND,
            other.den <= CROSS_BOUND,
        ensures
            r == self.spec_le(*other),
    {
        proof {
            lemma_mul_abs_le(self.num as int, other.den as int, CROSS_BOUND as int, CROSS_BOUND as int);
            lemma_mul_abs_le(other.num as int, self.den as int, CROSS_BOUND as int, CROSS_BOUND as int);
        }
        self.num * other.den <= other.num * self.den
    }
}

} // verus!
