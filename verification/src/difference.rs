//! Comparing two summaries: the table-based two-sample t-test.
//!
//! [`Summary::compare`] decides whether two samples differ by more than
//! sampling noise can explain, at one of the supported confidence levels.
//! It follows the table-based oracle strategy: degrees of freedom are the
//! pooled `(n_a - 1) + (n_b - 1)`, the critical t-value is read from the
//! embedded table, and the standard error uses the pooled sample variance.
//! Every reported quantity is exact — magnitudes that mathematically carry
//! a square root (the critical value, Cohen's d) are reported as their
//! exact squares, plus a proved fixed-point bracket of the root for the
//! critical value — so the significance decision itself is exact, never
//! subject to rounding. In exchange, the continuous-only statistics of a
//! special-functions oracle (the p-value and the power `1 - beta`) are not
//! produced in this mode.

use vstd::prelude::*;

use crate::arith::{lemma_mul_abs_le, lemma_mul_le_nonneg, lemma_square_bound};
use crate::confidence::Confidence;
use crate::error::Error;
use crate::ratio::Ratio;
use crate::summary::{lemma_root_fits, lemma_var_parts_bounded, Summary};
use crate::table::{lemma_t_at_bounded, spec_t_at};

verus! {

/// The numerator of the difference of the two sample means over the common
/// denominator `n_a * n_b`.
pub open spec fn spec_delta(a: Summary, b: Summary) -> int {
    a.sum * b.n - b.sum * a.n
}

/// The magnitude of [`spec_delta`]: the numerator of the `effect`.
pub open spec fn spec_abs_delta(a: Summary, b: Summary) -> int {
    if spec_delta(a, b) >= 0 {
        spec_delta(a, b)
    } else {
        -spec_delta(a, b)
    }
}

/// The denominator of the `effect`: `n_a * n_b`.
pub open spec fn spec_eff_den(a: Summary, b: Summary) -> int {
    a.n * b.n
}

/// The pooled degrees of freedom `(n_a - 1) + (n_b - 1)`.
pub open spec fn spec_df(a: Summary, b: Summary) -> int {
    a.n + b.n - 2
}

/// The critical t-value for this comparison, scaled by `SCALE`.
pub open spec fn spec_t(a: Summary, b: Summary, c: Confidence) -> int {
    spec_t_at(spec_df(a, b), c)
}

/// The numerator of the squared standard error of the difference in means,
/// over the denominator [`spec_se_den`]: with `A = n * sumsq - sum^2` per
/// sample, the pooled variance is `(A_a / n_a + A_b / n_b) / df`, and the
/// squared standard error multiplies it by `1 / n_a + 1 / n_b`.
pub open spec fn spec_se_num(a: Summary, b: Summary) -> int {
    (a.spec_var_num() * b.n + b.spec_var_num() * a.n) * (a.n + b.n)
}

/// The denominator of the squared standard error:
/// `(n_a * n_b)^2 * df`.
pub open spec fn spec_se_den(a: Summary, b: Summary) -> int {
    spec_eff_den(a, b) * spec_eff_den(a, b) * spec_df(a, b)
}

/// The numerator of the squared critical value `(t * std_err)^2`, over the
/// denominator [`spec_crit_den`].
pub open spec fn spec_crit_num(a: Summary, b: Summary, c: Confidence) -> int {
    spec_t(a, b, c) * spec_t(a, b, c) * spec_se_num(a, b)
}

/// The denominator of the squared critical value; the factor `100000000`
/// is `SCALE * SCALE`, undoing the table's fixed-point scale.
pub open spec fn spec_crit_den(a: Summary, b: Summary) -> int {
    100000000 * spec_se_den(a, b)
}

/// Whether the effect exceeds the critical value: since both are
/// nonnegative, equivalent to `effect^2 > critical_value^2`, here cleared
/// of the common denominator `(n_a * n_b)^2`. Equality is not significant.
pub open spec fn spec_significant(a: Summary, b: Summary, c: Confidence) -> bool {
    spec_t(a, b, c) * spec_t(a, b, c) * spec_se_num(a, b) < spec_delta(a, b) * spec_delta(a, b)
        * (100000000 * spec_df(a, b))
}

/// The numerator of the sum of the two sample variances over the
/// denominator `n_a * (n_a - 1) * n_b * (n_b - 1)`; zero exactly when both
/// samples are constant.
pub open spec fn spec_pool_num(a: Summary, b: Summary) -> int {
    a.spec_var_num() * (b.n * (b.n - 1)) + b.spec_var_num() * (a.n * (a.n - 1))
}

/// The numerator of the squared effect size (Cohen's d squared):
/// `effect^2 / ((var_a + var_b) / 2)`, cleared of common factors.
pub open spec fn spec_es_num(a: Summary, b: Summary) -> int {
    2 * (spec_delta(a, b) * spec_delta(a, b)) * ((a.n - 1) * (b.n - 1))
}

/// The denominator of the squared effect size.
pub open spec fn spec_es_den(a: Summary, b: Summary) -> int {
    spec_eff_den(a, b) * spec_pool_num(a, b)
}

/// The statistical difference between two [`Summary`] values.
///
/// All fields are exact rationals or integers; `effect_size_sq` and
/// `critical_value_sq` are the exact squares of Cohen's d and of the
/// critical value, since the magnitudes themselves are irrational in
/// general. `critical_value_scaled` additionally brackets the critical
/// value itself at four decimal digits.
#[derive(Clone, Copy, Debug)]
pub struct Difference {
    /// The absolute difference between the two sample means.
    pub effect: Ratio,
    /// The square of Cohen's d: the squared effect normalized by the mean
    /// of the two variances. `None` when the means differ but both samples
    /// are constant, in which case no finite effect size exists.
    pub effect_size_sq: Option<Ratio>,
    /// The square of the minimum effect that would be significant at the
    /// requested confidence level.
    pub critical_value_sq: Ratio,
    /// The critical value itself in units of `1 / SCALE`, rounded down;
    /// `critical_value_scaled / SCALE` is within `1 / SCALE` below the
    /// exact critical value.
    pub critical_value_scaled: u64,
    /// The significance level `1 - confidence / 100`, exactly.
    pub alpha: Ratio,
    /// Whether the effect strictly exceeds the critical value; use
    /// [`Difference::is_significant`].
    pub significant: bool,
}

impl Difference {
    /// Well-formedness: the stored decision agrees with the stored exact
    /// quantities, and the scaled critical value brackets the exact one.
    pub open spec fn wf(self) -> bool {
        &&& self.effect.wf()
        &&& self.effect.num >= 0
        &&& self.critical_value_sq.wf()
        &&& self.critical_value_sq.num >= 0
        &&& self.alpha.wf()
        &&& self.significant == self.critical_value_sq.spec_lt_square_of(self.effect)
        &&& (self.critical_value_scaled * self.critical_value_scaled) * self.critical_value_sq.den
            <= self.critical_value_sq.num * 100000000
        &&& self.critical_value_sq.num * 100000000 < ((self.critical_value_scaled + 1) * (
        self.critical_value_scaled + 1)) * self.critical_value_sq.den
        &&& match self.effect_size_sq {
            Some(es) => es.wf() && es.num >= 0,
            None => true,
        }
    }

    /// Whether the difference is statistically significant: the effect
    /// strictly exceeds the critical value, stated over the squares.
    pub fn is_significant(&self) -> (r: bool)
        requires
            self.wf(),
        ensures
            r == self.critical_value_sq.spec_lt_square_of(self.effect),
    {
        self.significant
    }
}

/// The squared standard error's numerator and the pooled-variance
/// numerator are nonnegative for well-formed summaries: the Cauchy-Schwarz
/// part of well-formedness makes each sample's variance numerator
/// nonnegative.
pub proof fn lemma_pool_nonneg(a: Summary, b: Summary)
    requires
        a.wf(),
        b.wf(),
        a.n >= 2,
        b.n >= 2,
    ensures
        spec_se_num(a, b) >= 0,
        spec_pool_num(a, b) >= 0,
{
    lemma_var_parts_bounded(a);
    lemma_var_parts_bounded(b);
    lemma_mul_le_nonneg(a.spec_var_num(), b.n as int, 1000000000000000000, 1000);
    lemma_mul_le_nonneg(b.spec_var_num(), a.n as int, 1000000000000000000, 1000);
    lemma_mul_le_nonneg(
        a.spec_var_num() * b.n + b.spec_var_num() * a.n,
        a.n + b.n,
        2000000000000000000000,
        2000,
    );
    assert(b.n * (b.n - 1) >= 0) by (nonlinear_arith)
        requires
            b.n >= 2,
    ;
    assert(a.n * (a.n - 1) >= 0) by (nonlinear_arith)
        requires
            a.n >= 2,
    ;
    lemma_mul_le_nonneg(a.spec_var_num(), b.n * (b.n - 1), 1000000000000000000, 1000000);
    lemma_mul_le_nonneg(b.spec_var_num(), a.n * (a.n - 1), 1000000000000000000, 1000000);
}

impl Summary {
    /// Compares two summaries with a two-tailed t-test at the given
    /// confidence level, using pooled degrees of freedom and the embedded
    /// critical-value table.
    ///
    /// Returns `Err(DegenerateSample)` exactly when either sample has
    /// fewer than two measurements (its variance would be undefined);
    /// otherwise every field of the [`Difference`] is pinned down exactly
    /// by the specification functions of this module.
    pub fn compare(&self, other: &Summary, confidence: Confidence) -> (r: Result<
        Difference,
        Error,
    >)
        requires
            self.wf(),
            other.wf(),
        ensures
            r is Ok <==> (self.n >= 2 && other.n >= 2),
            r matches Err(e) ==> e == Error::DegenerateSample,
            r matches Ok(d) ==> {
                &&& d.wf()
                &&& d.effect.num == spec_abs_delta(*self, *other)
                &&& d.effect.den == spec_eff_den(*self, *other)
                &&& d.critical_value_sq.num == spec_crit_num(*self, *other, confidence)
                &&& d.critical_value_sq.den == spec_crit_den(*self, *other)
                &&& d.significant == spec_significant(*self, *other, confidence)
                &&& d.alpha.num == confidence.spec_alpha_permille()
                &&& d.alpha.den == 1000
                &&& spec_pool_num(*self, *other) > 0 ==> (d.effect_size_sq matches Some(es)
                    && es.num == spec_es_num(*self, *other) && es.den == spec_es_den(
                    *self,
                    *other,
                ))
                &&& (spec_pool_num(*self, *other) == 0 && spec_delta(*self, *other) == 0)
                    ==> (d.effect_size_sq matches Some(es) && es.num == 0 && es.den == 1)
                &&& (spec_pool_num(*self, *other) == 0 && spec_delta(*self, *other) != 0)
                    ==> d.effect_size_sq is None
            },
    {
        if self.n < 2 || other.n < 2 {
            return Err(Error::DegenerateSample);
        }
        proof {
            lemma_var_parts_bounded(*self);
            lemma_var_parts_bounded(*other);
        }
        let na: i128 = self.n as i128;
        let nb: i128 = other.n as i128;
        let df_u: u64 = self.n + other.n - 2;
        let dfi: i128 = df_u as i128;
        proof {
            lemma_t_at_bounded(df_u as int, confidence);
        }
        let t: i128 = crate::table::t_value(df_u, confidence) as i128;

        let va: i128 = na * (self.sumsq as i128) - (self.sum as i128) * (self.sum as i128);
        let vb: i128 = nb * (other.sumsq as i128) - (other.sum as i128) * (other.sum as i128);

        proof {
            lemma_mul_abs_le(self.sum as int, nb as int, 1000000000, 1000);
            lemma_mul_abs_le(other.sum as int, na as int, 1000000000, 1000);
        }
        let delta: i128 = (self.sum as i128) * nb - (other.sum as i128) * na;
        let abs_delta: i128 = if delta < 0 {
            -delta
        } else {
            delta
        };

        proof {
            lemma_mul_le_nonneg(va as int, nb as int, 1000000000000000000, 1000);
            lemma_mul_le_nonneg(vb as int, na as int, 1000000000000000000, 1000);
            lemma_mul_le_nonneg(
                va as int * nb as int + vb as int * na as int,
                na as int + nb as int,
                2000000000000000000000,
                2000,
            );
        }
        let se_num: i128 = (va * nb + vb * na) * (na + nb);

        proof {
            lemma_mul_le_nonneg(na as int, nb as int, 1000, 1000);
            assert(na * nb >= 4) by (nonlinear_arith)
                requires
                    na >= 2,
                    nb >= 2,
            ;
        }
        let nanb: i128 = na * nb;
        proof {
            lemma_square_bound(nanb as int, 1000000);
            lemma_mul_le_nonneg(nanb as int * nanb as int, dfi as int, 1000000000000, 1998);
            assert(nanb * nanb * dfi >= 1) by (nonlinear_arith)
                requires
                    nanb >= 4,
                    dfi >= 2,
            ;
        }
        let se_den: i128 = nanb * nanb * dfi;

        proof {
            lemma_square_bound(delta as int, 2000000000000);
            lemma_mul_le_nonneg(
                delta as int * delta as int,
                100000000 * dfi as int,
                4000000000000000000000000,
                199800000000,
            );
            lemma_square_bound(t as int, 140890);
            lemma_mul_le_nonneg(
                t as int * t as int,
                se_num as int,
                19849992100,
                4000000000000000000000000,
            );
        }
        let lhs: i128 = delta * delta * (100000000 * dfi);
        let rhs: i128 = t * t * se_num;
        let significant: bool = rhs < lhs;

        let crit_den: i128 = 100000000 * se_den;
        let critical_value_sq: Ratio = Ratio { num: rhs, den: crit_den };

        let root: u128 = crate::arith::sqrt_ratio_floor(rhs as u128, se_den as u128);
        proof {
            lemma_root_fits(root as int, rhs as int, se_den as int);
        }
        let critical_value_scaled: u64 = root as u64;

        let effect: Ratio = Ratio { num: abs_delta, den: nanb };

        proof {
            lemma_pool_nonneg(*self, *other);
            assert(nb * (nb - 1) <= 999000 && nb * (nb - 1) >= 0) by (nonlinear_arith)
                requires
                    2 <= nb <= 1000,
            ;
            assert(na * (na - 1) <= 999000 && na * (na - 1) >= 0) by (nonlinear_arith)
                requires
                    2 <= na <= 1000,
            ;
            lemma_mul_le_nonneg(va as int, nb as int * (nb as int - 1), 1000000000000000000, 999000);
            lemma_mul_le_nonneg(vb as int, na as int * (na as int - 1), 1000000000000000000, 999000);
        }
        let pool: i128 = va * (nb * (nb - 1)) + vb * (na * (na - 1));
        let effect_size_sq: Option<Ratio> = if pool > 0 {
            proof {
                assert((na - 1) * (nb - 1) >= 1 && (na - 1) * (nb - 1) <= 998001)
                    by (nonlinear_arith)
                    requires
                        2 <= na <= 1000,
                        2 <= nb <= 1000,
                ;
                lemma_mul_le_nonneg(
                    2 * (delta as int * delta as int),
                    (na as int - 1) * (nb as int - 1),
                    8000000000000000000000000,
                    998001,
                );
                lemma_mul_le_nonneg(
                    nanb as int,
                    pool as int,
                    1000000,
                    2000000000000000000000000,
                );
                assert(nanb * pool >= 1) by (nonlinear_arith)
                    requires
                        nanb >= 4,
                        pool >= 1,
                ;
            }
            let es_num: i128 = 2 * (delta * delta) * ((na - 1) * (nb - 1));
            let es_den: i128 = nanb * pool;
            Some(Ratio { num: es_num, den: es_den })
        } else if delta == 0 {
            Some(Ratio { num: 0, den: 1 })
        } else {
            None
        };

        let alpha: Ratio = confidence.alpha();
        let d = Difference {
            effect,
            effect_size_sq,
            critical_value_sq,
            critical_value_scaled,
            alpha,
            significant,
        };
        proof {
            assert(abs_delta * abs_delta == delta * delta) by (nonlinear_arith)
                requires
                    abs_delta == delta || abs_delta == -delta,
            ;
            // The stored decision agrees with the ratio-level statement
            // `critical_value_sq < effect^2`: both sides of the stored
            // comparison are the ratio comparison with the positive common
            // factor (n_a * n_b)^2 cancelled.
            assert((rhs < lhs) == (rhs * (nanb * nanb) < (abs_delta * abs_delta) * (100000000 * (
            nanb * nanb * dfi)))) by (nonlinear_arith)
                requires
                    nanb >= 1,
                    dfi >= 1,
                    lhs == delta * delta * (100000000 * dfi),
                    abs_delta * abs_delta == delta * delta,
            ;
            // The fixed-point bracket survives scaling both sides of the
            // root inequalities by SCALE^2.
            assert((root * root) * (100000000 * se_den) <= rhs * 100000000 && rhs * 100000000 < ((
            root + 1) * (root + 1)) * (100000000 * se_den)) by (nonlinear_arith)
                requires
                    se_den >= 1,
                    root * root * se_den <= rhs,
                    rhs < (root + 1) * (root + 1) * se_den,
            ;
        }
        Ok(d)
    }
}

} // verus!
