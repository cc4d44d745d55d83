//! Small nonlinear-arithmetic lemmas shared by the engine's overflow and
//! ordering proofs.

use vstd::prelude::*;

verus! {

/// Product of two nonnegative numbers bounded above by the product of their
/// bounds, and nonnegative.
pub proof fn lemma_mul_le_nonneg(a: int, b: int, bound_a: int, bound_b: int)
    by (nonlinear_arith)
    requires
        0 <= a <= bound_a,
        0 <= b <= bound_b,
    ensures
        0 <= a * b <= bound_a * bound_b,
{
}

/// Product of two numbers bounded in magnitude by the product of their
/// magnitude bounds.
pub proof fn lemma_mul_abs_le(a: int, b: int, bound_a: int, bound_b: int)
    by (nonlinear_arith)
    requires
        -bound_a <= a <= bound_a,
        -bound_b <= b <= bound_b,
        0 <= bound_a,
        0 <= bound_b,
    ensures
        -(bound_a * bound_b) <= a * b <= bound_a * bound_b,
{
}

/// A square is nonnegative, and bounded by the square of a magnitude bound.
pub proof fn lemma_square_bound(a: int, bound_a: int)
    by (nonlinear_arith)
    requires
        -bound_a <= a <= bound_a,
    ensures
        0 <= a * a <= bound_a * bound_a,
{
}

/// One step of the Cauchy-Schwarz invariant for integer moments: if
/// `n * sumsq >= sum^2` holds of the first `n` observations, it still holds
/// after one more observation `x` is added to both accumulators.
pub proof fn lemma_cauchy_schwarz_step(n: int, sum: int, sumsq: int, x: int)
    by (nonlinear_arith)
    requires
        n >= 0,
        sumsq >= 0,
        sum * sum <= n * sumsq,
    ensures
        (sum + x) * (sum + x) <= (n + 1) * (sumsq + x * x),
{
}

/// A nonnegative number whose square is bounded by a square is bounded by
/// the root.
pub proof fn lemma_le_sqrt(r: int, bound: int)
    by (nonlinear_arith)
    requires
        0 <= r,
        0 <= bound,
        r * r <= bound * bound,
    ensures
        r <= bound,
{
}

/// The integer square root: the largest `r` with `r * r <= x`.
pub fn isqrt_u128(x: u128) -> (r: u128)
    ensures
        r * r <= x,
        x < (r + 1) * (r + 1),
{
    let mut lo: u128 = 0;
    let mut hi: u128 = 0x1_0000_0000_0000_0000;
    proof {
        assert(x < hi * hi) by (nonlinear_arith)
            requires
                hi == 0x1_0000_0000_0000_0000,
                x <= u128::MAX,
        ;
    }
    while lo + 1 < hi
        invariant
            lo < hi,
            hi <= 0x1_0000_0000_0000_0000,
            lo * lo <= x,
            x < hi * hi,
        decreases hi - lo,
    {
        let mid = lo + (hi - lo) / 2;
        proof {
            vstd::arithmetic::div_mod::lemma_fundamental_div_mod(x as int, mid as int);
        }
        if mid <= x / mid {
            proof {
                assert(mid * mid <= x) by (nonlinear_arith)
                    requires
                        mid >= 1,
                        mid <= x / mid,
                        x == mid * (x / mid) + x % mid,
                        x % mid >= 0,
                ;
            }
            lo = mid;
        } else {
            proof {
                assert(x < mid * mid) by (nonlinear_arith)
                    requires
                        mid >= 1,
                        x / mid < mid,
                        x / mid >= 0,
                        x == mid * (x / mid) + x % mid,
                        x % mid < mid,
                ;
            }
            hi = mid;
        }
    }
    lo
}

/// The floor of the square root of the rational `num / den`, reported by
/// bracketing: `r * r <= num / den < (r + 1) * (r + 1)` as rationals.
/// To read the root at a fixed-point scale `s`, pass `num * s * s`.
pub fn sqrt_ratio_floor(num: u128, den: u128) -> (r: u128)
    requires
        den >= 1,
    ensures
        r * r * den <= num,
        num < (r + 1) * (r + 1) * den,
{
    let q = num / den;
    proof {
        vstd::arithmetic::div_mod::lemma_fundamental_div_mod(num as int, den as int);
    }
    let r = isqrt_u128(q);
    proof {
        assert(r * r * den <= num && num < (q + 1) * den) by (nonlinear_arith)
            requires
                den >= 1,
                r * r <= q,
                q >= 0,
                num == den * q + num % den,
                0 <= num % den < den,
        ;
        assert((q + 1) * den <= (r + 1) * (r + 1) * den) by (nonlinear_arith)
            requires
                den >= 1,
                q < (r + 1) * (r + 1),
        ;
    }
    r
}

} // verus!
