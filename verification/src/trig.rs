//! Fixed-point sine and cosine: range reduction modulo two pi followed by a
//! truncated Taylor series, with the exact truncated sums as specification.

use vstd::prelude::*;
use vstd::arithmetic::div_mod::{lemma_mod_multiples_basic, lemma_mod_multiples_vanish, lemma_mod_add_multiples_vanish, lemma_small_mod};
use crate::fixed::{div_trunc, spec_clamp_abs, lemma_div_trunc_bound, div_trunc_i128, clamp_abs_i128};
use crate::{SCALE, PI_FX, TWO_PI_FX, VEL_LIMIT};

verus! {

/// Highest power kept by the Taylor evaluation.
pub const TAYLOR_ORDER: i64 = 25;

/// The Taylor term that follows `term` (the term of degree `k`), in
/// fixed-point arithmetic: multiply by the angle twice, rescale after each
/// product, and divide by the next two factorial factors.
pub open spec fn taylor_next(x: int, term: int, k: int) -> int {
    -div_trunc(
        div_trunc(div_trunc(term * x, SCALE as int) * x, SCALE as int),
        (k + 1) * (k + 2),
    )
}

/// Sum of the fixed-point Taylor terms of degrees `k, k + 2, ...` up to
/// `TAYLOR_ORDER`, starting from the term `term` of degree `k`.
pub open spec fn taylor_tail(x: int, term: int, k: int) -> int
    decreases TAYLOR_ORDER + 2 - k,
{
    if k < 0 || k > TAYLOR_ORDER as int {
        0
    } else {
        term + taylor_tail(x, taylor_next(x, term, k), k + 2)
    }
}

/// Fixed-point sine of a reduced angle: the odd Taylor sum started at the
/// degree-one term `x`, clamped into the unit range.
pub open spec fn spec_sin_fx(x: int) -> int {
    spec_clamp_abs(taylor_tail(x, x, 1), SCALE as int)
}

/// Fixed-point cosine of a reduced angle: the even Taylor sum started at
/// the degree-zero term `1.0`, clamped into the unit range.
pub open spec fn spec_cos_fx(x: int) -> int {
    spec_clamp_abs(taylor_tail(x, SCALE as int, 0), SCALE as int)
}

/// `a` and `b` differ by a whole number of turns.
pub open spec fn congruent_angle(a: int, b: int) -> bool {
    (a - b) % (TWO_PI_FX as int) == 0
}

/// The unique angle in `[-PI_FX, PI_FX]` that differs from `d` by a whole
/// number of turns (the interval holds exactly `TWO_PI_FX` integers).
pub open spec fn spec_range_reduce(d: int) -> int {
    let m = d % (TWO_PI_FX as int);
    if m > PI_FX as int {
        m - TWO_PI_FX as int
    } else {
        m
    }
}

/// Bring an angle into `[-PI_FX, PI_FX]` by adding or subtracting whole
/// turns.
pub fn range_reduce(d: i64) -> (r: i64)
    requires
        -VEL_LIMIT <= d <= VEL_LIMIT,
    ensures
        -PI_FX <= r <= PI_FX,
        r == spec_range_reduce(d as int),
        congruent_angle(d as int, r as int),
{
    let mut r: i64 = d;
    let ghost mut k: int = 0;
    while r > PI_FX
        invariant
            d - r == k * TWO_PI_FX,
            -VEL_LIMIT <= r <= VEL_LIMIT,
        decreases r + TWO_PI_FX,
    {
        proof {
            k = k + 1;
        }
        r = r - TWO_PI_FX;
    }
    while r < -PI_FX
        invariant
            d - r == k * TWO_PI_FX,
            -VEL_LIMIT <= r <= PI_FX,
        decreases TWO_PI_FX - r,
    {
        proof {
            k = k - 1;
        }
        r = r + TWO_PI_FX;
    }
    proof {
        lemma_mod_multiples_basic(k, TWO_PI_FX as int);
        lemma_mod_multiples_vanish(k, r as int, TWO_PI_FX as int);
        assert(d as int == (TWO_PI_FX as int) * k + r as int);
        if r >= 0 {
            lemma_small_mod(r as nat, TWO_PI_FX as nat);
        } else {
            lemma_mod_add_multiples_vanish(r as int, TWO_PI_FX as int);
            lemma_small_mod((r + TWO_PI_FX) as nat, TWO_PI_FX as nat);
        }
    }
    r
}

/// Evaluate the Taylor tail starting at degree `k0` with first term `t0`.
/// `k0` is 1 with `t0 = x` for sine, 0 with `t0 = 1.0` for cosine.
fn eval_taylor(x: i64, t0: i64, k0: i64) -> (r: i128)
    requires
        -PI_FX <= x <= PI_FX,
        k0 == 0 || k0 == 1,
        k0 == 0 ==> -SCALE <= t0 <= SCALE,
        k0 == 1 ==> -PI_FX <= t0 <= PI_FX,
    ensures
        r == taylor_tail(x as int, t0 as int, k0 as int),
{
    let mut acc: i128 = 0;
    let mut term: i128 = t0 as i128;
    let mut k: i64 = k0;
    while k <= TAYLOR_ORDER
        invariant
            -PI_FX <= x <= PI_FX,
            k0 == 0 || k0 == 1,
            k0 <= k <= TAYLOR_ORDER + 2,
            k % 2 == k0 % 2,
            k == k0 && k0 == 0 ==> -10_000_000_000 <= term <= 10_000_000_000,
            k == k0 && k0 == 1 ==> -32_000_000_000 <= term <= 32_000_000_000,
            k > k0 ==> -60_000_000_000 <= term <= 60_000_000_000,
            -60_000_000_000 * (k as i128) - 60_000_000_000 <= acc <= 60_000_000_000 * (
            k as i128) + 60_000_000_000,
            taylor_tail(x as int, t0 as int, k0 as int) == acc + taylor_tail(
                x as int,
                term as int,
                k as int,
            ),
        decreases TAYLOR_ORDER + 2 - k,
    {
        acc = acc + term;
        proof {
            assert(-64_000_000_000 * 32_000_000_000 <= term * (x as i128) <= 64_000_000_000
                * 32_000_000_000) by (nonlinear_arith)
                requires
                    -64_000_000_000 <= term <= 64_000_000_000,
                    -32_000_000_000 <= x <= 32_000_000_000,
            ;
        }
        let p1: i128 = term * (x as i128);
        proof {
            assert(SCALE == 10_000_000_000);
            lemma_div_trunc_bound(p1 as int, 10_000_000_000, 204_800_000_000);
        }
        let t1: i128 = div_trunc_i128(p1, 10_000_000_000);
        proof {
            assert(-204_800_000_000 * 32_000_000_000 <= t1 * (x as i128) <= 204_800_000_000
                * 32_000_000_000) by (nonlinear_arith)
                requires
                    -204_800_000_000 <= t1 <= 204_800_000_000,
                    -32_000_000_000 <= x <= 32_000_000_000,
            ;
        }
        let p2: i128 = t1 * (x as i128);
        proof {
            lemma_div_trunc_bound(p2 as int, 10_000_000_000, 655_360_000_000);
            assert(2 <= (k + 1) * (k + 2) <= 702 && (k >= 2 ==> (k + 1) * (k + 2) >= 12))
                by (nonlinear_arith)
                requires
                    0 <= k <= 25,
            ;
        }
        let t2: i128 = div_trunc_i128(p2, 10_000_000_000);
        let den: i64 = (k + 1) * (k + 2);
        proof {
            // The term after the start term stays within six whole units;
            // later terms shrink because the factorial divisor dominates.
            if k == k0 {
                if k0 == 0 {
                    assert(-10_000_000_000 * 32_000_000_000 <= p1 <= 10_000_000_000
                        * 32_000_000_000) by (nonlinear_arith)
                        requires
                            p1 == term * (x as i128),
                            -10_000_000_000 <= term <= 10_000_000_000,
                            -32_000_000_000 <= x <= 32_000_000_000,
                    ;
                    lemma_div_trunc_bound(p1 as int, 10_000_000_000, 32_000_000_000);
                    assert(-32_000_000_000 * 32_000_000_000 <= p2 <= 32_000_000_000
                        * 32_000_000_000) by (nonlinear_arith)
                        requires
                            p2 == t1 * (x as i128),
                            -32_000_000_000 <= t1 <= 32_000_000_000,
                            -32_000_000_000 <= x <= 32_000_000_000,
                    ;
                    lemma_div_trunc_bound(p2 as int, 10_000_000_000, 102_400_000_000);
                    assert(den == 2);
                    lemma_div_trunc_bound(t2 as int, 2, 51_200_000_000);
                } else {
                    assert(-32_000_000_000 * 32_000_000_000 <= p1 <= 32_000_000_000
                        * 32_000_000_000) by (nonlinear_arith)
                        requires
                            p1 == term * (x as i128),
                            -32_000_000_000 <= term <= 32_000_000_000,
                            -32_000_000_000 <= x <= 32_000_000_000,
                    ;
                    lemma_div_trunc_bound(p1 as int, 10_000_000_000, 102_400_000_000);
                    assert(-102_400_000_000 * 32_000_000_000 <= p2 <= 102_400_000_000
                        * 32_000_000_000) by (nonlinear_arith)
                        requires
                            p2 == t1 * (x as i128),
                            -102_400_000_000 <= t1 <= 102_400_000_000,
                            -32_000_000_000 <= x <= 32_000_000_000,
                    ;
                    lemma_div_trunc_bound(p2 as int, 10_000_000_000, 327_680_000_000);
                    assert(den == 6);
                    lemma_div_trunc_bound(t2 as int, 6, 54_613_333_334);
                }
            } else {
                assert(k >= k0 + 2);
                assert(-54_613_333_334 * (den as int) <= t2 <= 54_613_333_334 * (den as int))
                    by (nonlinear_arith)
                    requires
                        den >= 12,
                        -655_360_000_000 <= t2 <= 655_360_000_000,
                ;
                lemma_div_trunc_bound(t2 as int, den as int, 54_613_333_334);
            }
        }
        let t3: i128 = div_trunc_i128(t2, den as i128);
        term = -t3;
        k = k + 2;
    }
    acc
}

/// Fixed-point sine of a reduced angle, in `[-SCALE, SCALE]`.
pub fn sin_fx(x: i64) -> (r: i64)
    requires
        -PI_FX <= x <= PI_FX,
    ensures
        r == spec_sin_fx(x as int),
        -SCALE <= r <= SCALE,
{
    let s: i128 = eval_taylor(x, x, 1);
    clamp_abs_i128(s, SCALE)
}

/// Fixed-point cosine of a reduced angle, in `[-SCALE, SCALE]`.
pub fn cos_fx(x: i64) -> (r: i64)
    requires
        -PI_FX <= x <= PI_FX,
    ensures
        r == spec_cos_fx(x as int),
        -SCALE <= r <= SCALE,
{
    let c: i128 = eval_taylor(x, SCALE, 0);
    clamp_abs_i128(c, SCALE)
}

} // verus!
