//! Laws relating summarization and comparison, stated once over the
//! specification functions that [`Summary::compare`]'s contract pins its
//! result to, and proved for every well-formed input.

use vstd::prelude::*;

use crate::confidence::Confidence;
use crate::difference::{
    lemma_pool_nonneg, spec_abs_delta, spec_crit_den, spec_crit_num, spec_delta, spec_df,
    spec_eff_den, spec_es_num, spec_se_num, spec_significant, spec_t,
};
use crate::summary::Summary;
use crate::table::lemma_t_row_ordered;

verus! {

/// Comparing a summary with itself finds nothing: the effect is zero, the
/// squared effect size is zero whenever it exists, and the comparison is
/// never significant, at any confidence level.
pub proof fn lemma_self_comparison(s: Summary, c: Confidence)
    requires
        s.wf(),
        s.n >= 2,
    ensures
        spec_delta(s, s) == 0,
        spec_abs_delta(s, s) == 0,
        spec_es_num(s, s) == 0,
        !spec_significant(s, s, c),
{
    lemma_pool_nonneg(s, s);
    assert(spec_t(s, s, c) * spec_t(s, s, c) * spec_se_num(s, s) >= 0) by (nonlinear_arith)
        requires
            spec_se_num(s, s) >= 0,
    ;
}

/// The comparison is symmetric in its two samples: both orders report the
/// same effect (identical numerator and denominator) and reach the same
/// significance decision, at every confidence level.
pub proof fn lemma_symmetry(a: Summary, b: Summary, c: Confidence)
    ensures
        spec_abs_delta(a, b) == spec_abs_delta(b, a),
        spec_eff_den(a, b) == spec_eff_den(b, a),
        spec_significant(a, b, c) == spec_significant(b, a, c),
{
    assert(a.n * b.n == b.n * a.n) by (nonlinear_arith);
    assert(spec_delta(a, b) * spec_delta(a, b) == spec_delta(b, a) * spec_delta(b, a))
        by (nonlinear_arith)
        requires
            spec_delta(a, b) == -spec_delta(b, a),
    ;
}

/// Raising the confidence level never lowers the critical value, and a
/// difference significant at a higher confidence level is also significant
/// at every lower one. The two critical-value ratios share the denominator
/// `spec_crit_den`, so comparing numerators compares the values.
pub proof fn lemma_confidence_monotone(a: Summary, b: Summary, c1: Confidence, c2: Confidence)
    requires
        a.wf(),
        b.wf(),
        a.n >= 2,
        b.n >= 2,
        c1.spec_index() <= c2.spec_index(),
    ensures
        spec_crit_num(a, b, c1) <= spec_crit_num(a, b, c2),
        spec_crit_den(a, b) > 0,
        spec_significant(a, b, c2) ==> spec_significant(a, b, c1),
{
    lemma_t_row_ordered(spec_df(a, b));
    assert(spec_eff_den(a, b) * spec_eff_den(a, b) * spec_df(a, b) > 0) by (nonlinear_arith)
        requires
            a.n >= 2,
            b.n >= 2,
            spec_eff_den(a, b) == (a.n as int) * (b.n as int),
            spec_df(a, b) == a.n + b.n - 2,
    ;
    assert(0 < spec_t(a, b, c1) && spec_t(a, b, c1) <= spec_t(a, b, c2));
    lemma_pool_nonneg(a, b);
    assert(spec_t(a, b, c1) * spec_t(a, b, c1) * spec_se_num(a, b) <= spec_t(a, b, c2) * spec_t(
        a,
        b,
        c2,
    ) * spec_se_num(a, b)) by (nonlinear_arith)
        requires
            0 < spec_t(a, b, c1) <= spec_t(a, b, c2),
            spec_se_num(a, b) >= 0,
    ;
}

} // verus!
