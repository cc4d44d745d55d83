//! Single-pass statistical summarization of a sample.
//!
//! A [`Summary`] keeps the exact first two moments of a sample of integer
//! measurements: the count, the sum, and the sum of squares. Because the
//! moments are exact integers, the sample mean and the Bessel-corrected
//! sample variance are exact rationals derived from them, and the order of
//! accumulation cannot influence the result, which is what the classical
//! one-pass (Welford) recurrences achieve only approximately in rounding
//! arithmetic.

use vstd::prelude::*;

use crate::arith::{
    lemma_cauchy_schwarz_step, lemma_le_sqrt, lemma_mul_le_nonneg, lemma_square_bound,
};
use crate::error::Error;
use crate::ratio::Ratio;

verus! {

/// The largest sample size the engine accepts; keeps every intermediate
/// product of the comparison inside 128-bit integers.
pub const MAX_COUNT: u64 = 1000;

/// The largest measurement magnitude the engine accepts, in the caller's
/// chosen unit; keeps every intermediate product of the comparison inside
/// 128-bit integers.
pub const MAX_MAGNITUDE: i64 = 1000000;

/// The fixed-point scale at which square roots are reported: four decimal
/// digits.
pub const SCALE: u64 = 10000;

/// The sum of the elements of a sequence of measurements.
pub open spec fn sum_seq(s: Seq<i64>) -> int
    decreases s.len(),
{
    if s.len() == 0 {
        0
    } else {
        sum_seq(s.drop_last()) + s.last()
    }
}

/// The sum of the squares of the elements of a sequence of measurements.
pub open spec fn sum_sq_seq(s: Seq<i64>) -> int
    decreases s.len(),
{
    if s.len() == 0 {
        0
    } else {
        sum_sq_seq(s.drop_last()) + s.last() * s.last()
    }
}

proof fn lemma_sum_remove(s: Seq<i64>, i: int)
    requires
        0 <= i < s.len(),
    ensures
        sum_seq(s.remove(i)) == sum_seq(s) - s[i],
        sum_sq_seq(s.remove(i)) == sum_sq_seq(s) - s[i] * s[i],
    decreases s.len(),
{
    if i == s.len() - 1 {
        assert(s.remove(i) =~= s.drop_last());
    } else {
        let t = s.drop_last();
        assert(s.remove(i).drop_last() =~= t.remove(i));
        assert(s.remove(i).last() == s.last());
        lemma_sum_remove(t, i);
        assert(t[i] == s[i]);
    }
}

/// The moments depend only on which measurements occur, and how often,
/// never on their order: two samples that are permutations of one another
/// have the same sum and the same sum of squares, hence identical
/// summaries. (A floating-point one-pass accumulation would only promise
/// this up to rounding.)
pub proof fn lemma_moments_permutation_invariant(s1: Seq<i64>, s2: Seq<i64>)
    requires
        s1.to_multiset() == s2.to_multiset(),
    ensures
        sum_seq(s1) == sum_seq(s2),
        sum_sq_seq(s1) == sum_sq_seq(s2),
    decreases s1.len(),
{
    broadcast use vstd::seq_lib::group_to_multiset_ensures;

    if s1.len() == 0 {
        assert(s1.to_multiset().len() == s1.len());
        assert(s2.to_multiset().len() == s2.len());
        assert(s2.len() == 0);
    } else {
        let x = s1.last();
        let t1 = s1.drop_last();
        assert(s1 =~= t1.push(x));
        assert(s1.contains(x));
        assert(s2.to_multiset().count(x) > 0);
        assert(s2.contains(x));
        let i = choose|i: int| 0 <= i < s2.len() && s2[i] == x;
        assert(s2.remove(i).to_multiset() =~= s2.to_multiset().remove(x));
        assert(t1.push(x).to_multiset() =~= t1.to_multiset().insert(x));
        assert(t1.to_multiset() =~= s2.remove(i).to_multiset());
        lemma_moments_permutation_invariant(t1, s2.remove(i));
        lemma_sum_remove(s2, i);
    }
}

proof fn lemma_sum_push(s: Seq<i64>, x: i64)
    ensures
        sum_seq(s.push(x)) == sum_seq(s) + x,
        sum_sq_seq(s.push(x)) == sum_sq_seq(s) + x * x,
{
    assert(s.push(x).drop_last() =~= s);
    assert(s.push(x).last() == x);
}

/// A statistical summary of a sample: its exact first two moments.
///
/// `mean` and `variance` are exact rationals derived from the stored
/// moments; see [`Summary::mean`] and [`Summary::variance`].
#[derive(Clone, Copy, Debug)]
pub struct Summary {
    /// The number of measurements in the sample.
    pub n: u64,
    /// The exact sum of the measurements.
    pub sum: i64,
    /// The exact sum of the squares of the measurements.
    pub sumsq: i64,
}

impl Summary {
    /// The numerator of the Bessel-corrected sample variance:
    /// `n * sum_of_squares - sum^2`, which equals `n * (n - 1)` times the
    /// variance.
    pub open spec fn spec_var_num(self) -> int {
        self.n * self.sumsq - self.sum * self.sum
    }

    /// The denominator of the Bessel-corrected sample variance:
    /// `n * (n - 1)`.
    pub open spec fn spec_var_den(self) -> int {
        self.n * (self.n - 1)
    }

    /// Well-formedness: the moments are those of some sample that the
    /// bounds admit. In particular `n * sumsq >= sum^2` (the
    /// Cauchy-Schwarz inequality), which makes the sample variance
    /// nonnegative.
    pub open spec fn wf(self) -> bool {
        &&& self.n <= 1000
        &&& -(self.n as int) * 1000000 <= self.sum as int
        &&& self.sum as int <= (self.n as int) * 1000000
        &&& 0 <= self.sumsq as int
        &&& self.sumsq as int <= (self.n as int) * 1000000000000
        &&& (self.sum as int) * (self.sum as int) <= (self.n as int) * (self.sumsq as int)
    }

    /// Reduces a sample to its [`Summary`] in a single pass.
    ///
    /// Returns `Err(SampleOutOfRange)` exactly when the sample is longer
    /// than [`MAX_COUNT`] or contains a measurement of magnitude above
    /// [`MAX_MAGNITUDE`]; those bounds are what keeps the downstream
    /// comparison arithmetic inside fixed-width integers.
    pub fn summarize(xs: &[i64]) -> (r: Result<Summary, Error>)
        ensures
            r is Ok <==> (xs@.len() <= MAX_COUNT && forall|i: int|
                0 <= i < xs@.len() ==> -MAX_MAGNITUDE <= #[trigger] xs@[i] <= MAX_MAGNITUDE),
            r matches Ok(s) ==> {
                &&& s.n == xs@.len()
                &&& s.sum == sum_seq(xs@)
                &&& s.sumsq == sum_sq_seq(xs@)
                &&& s.wf()
            },
            r matches Err(e) ==> e == Error::SampleOutOfRange,
    {
        if xs.len() > MAX_COUNT as usize {
            return Err(Error::SampleOutOfRange);
        }
        let mut i: usize = 0;
        let mut sum: i64 = 0;
        let mut sumsq: i64 = 0;
        while i < xs.len()
            invariant
                0 <= i <= xs@.len() <= MAX_COUNT,
                forall|j: int| 0 <= j < i ==> -MAX_MAGNITUDE <= #[trigger] xs@[j] <= MAX_MAGNITUDE,
                sum == sum_seq(xs@.take(i as int)),
                sumsq == sum_sq_seq(xs@.take(i as int)),
                -(i as int) * 1000000 <= sum as int,
                sum as int <= (i as int) * 1000000,
                0 <= sumsq as int,
                sumsq as int <= (i as int) * 1000000000000,
                (sum as int) * (sum as int) <= (i as int) * (sumsq as int),
            decreases xs@.len() - i,
        {
            let x = xs[i];
            if x < -MAX_MAGNITUDE || x > MAX_MAGNITUDE {
                return Err(Error::SampleOutOfRange);
            }
            proof {
                lemma_square_bound(x as int, 1000000);
                lemma_cauchy_schwarz_step(i as int, sum as int, sumsq as int, x as int);
                assert(xs@.take(i as int + 1) =~= xs@.take(i as int).push(xs@[i as int]));
                lemma_sum_push(xs@.take(i as int), x);
            }
            sum = sum + x;
            sumsq = sumsq + x * x;
            i = i + 1;
        }
        proof {
            assert(xs@.take(i as int) =~= xs@);
        }
        Ok(Summary { n: i as u64, sum, sumsq })
    }

    /// The number of measurements in the sample.
    pub fn count(&self) -> (r: u64)
        ensures
            r == self.n,
    {
        self.n
    }

    /// The arithmetic mean of the sample, as the exact rational
    /// `sum / n`.
    pub fn mean(&self) -> (r: Ratio)
        requires
            self.n >= 1,
        ensures
            r.num == self.sum,
            r.den == self.n,
            r.wf(),
    {
        Ratio { num: self.sum as i128, den: self.n as i128 }
    }

    /// The Bessel-corrected sample variance, as the exact rational
    /// `(n * sum_of_squares - sum^2) / (n * (n - 1))`; nonnegative for every
    /// well-formed summary.
    pub fn variance(&self) -> (r: Ratio)
        requires
            self.wf(),
            self.n >= 2,
        ensures
            r.num == self.spec_var_num(),
            r.den == self.spec_var_den(),
            r.num >= 0,
            r.wf(),
    {
        proof {
            lemma_var_parts_bounded(*self);
        }
        let n = self.n as i128;
        let num = n * (self.sumsq as i128) - (self.sum as i128) * (self.sum as i128);
        let den = n * (n - 1);
        Ratio { num, den }
    }

    /// The sample standard deviation at scale [`SCALE`]: the returned `r`
    /// satisfies `(r / SCALE)^2 <= variance < ((r + 1) / SCALE)^2`, stated
    /// below over the variance's exact numerator and denominator
    /// (`100000000` is `SCALE * SCALE`).
    pub fn std_dev(&self) -> (r: u64)
        requires
            self.wf(),
            self.n >= 2,
        ensures
            (r * r) * self.spec_var_den() <= self.spec_var_num() * 100000000,
            self.spec_var_num() * 100000000 < ((r + 1) * (r + 1)) * self.spec_var_den(),
    {
        proof {
            lemma_var_parts_bounded(*self);
        }
        let n = self.n as u128;
        let num = n * (self.sumsq as u128) - ((self.sum as i128 * self.sum as i128) as u128);
        let den = n * (n - 1);
        let root = crate::arith::sqrt_ratio_floor(num * 100000000, den);
        proof {
            lemma_root_fits(root as int, num as int * 100000000, den as int);
        }
        root as u64
    }

    /// The standard error of the sample mean at scale [`SCALE`]: the
    /// returned `r` satisfies
    /// `(r / SCALE)^2 <= variance / n < ((r + 1) / SCALE)^2`.
    pub fn std_err(&self) -> (r: u64)
        requires
            self.wf(),
            self.n >= 2,
        ensures
            (r * r) * (self.spec_var_den() * self.n) <= self.spec_var_num() * 100000000,
            self.spec_var_num() * 100000000 < ((r + 1) * (r + 1)) * (self.spec_var_den() * self.n),
    {
        proof {
            lemma_var_parts_bounded(*self);
            lemma_mul_le_nonneg(self.spec_var_den(), self.n as int, 1000000, 1000);
            assert(self.spec_var_den() * self.n >= 1) by (nonlinear_arith)
                requires
                    self.n >= 2,
                    self.spec_var_den() == (self.n as int) * (self.n as int - 1),
            ;
        }
        let n = self.n as u128;
        let num = n * (self.sumsq as u128) - ((self.sum as i128 * self.sum as i128) as u128);
        let den = (n * (n - 1)) * n;
        let root = crate::arith::sqrt_ratio_floor(num * 100000000, den);
        proof {
            lemma_root_fits(root as int, num as int * 100000000, den as int);
        }
        root as u64
    }
}

/// Bounds on the variance's numerator and denominator that follow from
/// well-formedness: `0 <= n * sumsq - sum^2 <= 10^18` and
/// `0 < n * (n - 1) <= 10^6` once `n >= 2`.
pub proof fn lemma_var_parts_bounded(s: Summary)
    requires
        s.wf(),
        s.n >= 2,
    ensures
        0 <= s.spec_var_num() <= 1000000000000000000,
        2 <= s.spec_var_den() <= 1000000,
        0 <= s.sum * s.sum <= 1000000000000000000,
        s.n * s.sumsq <= 1000000000000000000,
{
    lemma_mul_le_nonneg(s.n as int, s.sumsq as int, 1000, 1000000000000000);
    lemma_square_bound(s.sum as int, 1000000000);
    assert(s.spec_var_den() >= 2 && s.spec_var_den() <= 1000000) by (nonlinear_arith)
        requires
            2 <= s.n <= 1000,
    ;
}

/// A root returned by `sqrt_ratio_floor` on the variance quantities fits a
/// `u64`.
pub proof fn lemma_root_fits(root: int, num: int, den: int)
    requires
        0 <= root,
        den >= 1,
        root * root * den <= num,
        num <= 0xffffffffffffffff * 0xffffffffffffffff,
    ensures
        root <= 0xffffffffffffffff,
{
    assert(root * root <= num) by (nonlinear_arith)
        requires
            root * root * den <= num,
            den >= 1,
            root >= 0,
    ;
    lemma_le_sqrt(root, 0xffffffffffffffff);
}

} // verus!

