//! Fixed-point scalar helpers: truncating division and saturation, with
//! exact specifications.

use vstd::prelude::*;
use vstd::arithmetic::div_mod::{
    lemma_div_by_multiple, lemma_div_is_ordered, lemma_div_nonincreasing, lemma_div_of0,
    lemma_fundamental_div_mod, lemma_mod_bound,
};

verus! {

/// Division that truncates toward zero, as the engine's arithmetic does.
/// For `n >= 0` this is Euclidean division; for `n < 0` it is the negated
/// quotient of the magnitudes.
pub open spec fn div_trunc(n: int, d: int) -> int {
    if n >= 0 {
        n / d
    } else {
        -((-n) / d)
    }
}

/// Clamp `v` into the closed interval `[-bound, bound]`.
pub open spec fn spec_clamp_abs(v: int, bound: int) -> int {
    if v > bound {
        bound
    } else if v < -bound {
        -bound
    } else {
        v
    }
}

/// The magnitude of a truncating quotient is bounded by any `b` with
/// `|n| <= b * d`.
pub proof fn lemma_div_trunc_bound(n: int, d: int, b: int)
    requires
        d >= 1,
        b >= 0,
        -(b * d) <= n <= b * d,
    ensures
        -b <= div_trunc(n, d) <= b,
{
    if n >= 0 {
        lemma_div_is_ordered(n, b * d, d);
        lemma_div_by_multiple(b, d);
        lemma_div_is_ordered(0, n, d);
    } else {
        lemma_div_is_ordered(-n, b * d, d);
        lemma_div_by_multiple(b, d);
        lemma_div_is_ordered(0, -n, d);
    }
}

/// Truncating division never grows the magnitude.
pub proof fn lemma_div_trunc_shrinks(n: int, d: int)
    requires
        d >= 1,
    ensures
        n >= 0 ==> 0 <= div_trunc(n, d) <= n,
        n < 0 ==> n <= div_trunc(n, d) <= 0,
{
    if n >= 0 {
        lemma_div_is_ordered(0, n, d);
        lemma_div_nonincreasing(n, d);
    } else {
        lemma_div_is_ordered(0, -n, d);
        lemma_div_nonincreasing(-n, d);
    }
}

/// A truncating quotient lies between any two integers whose products
/// with the divisor enclose the dividend.
pub proof fn lemma_div_trunc_between(lo: int, n: int, hi: int, d: int)
    requires
        d >= 1,
        lo * d <= n <= hi * d,
    ensures
        lo <= div_trunc(n, d) <= hi,
    decreases (if n >= 0 { 0int } else { 1int }),
{
    if n >= 0 {
        assert(hi >= 0) by (nonlinear_arith)
            requires
                d >= 1,
                n >= 0,
                n <= hi * d,
        ;
        lemma_div_is_ordered(0, n, d);
        if hi == 0 {
            assert(n == 0) by (nonlinear_arith)
                requires
                    hi == 0,
                    0 <= n <= hi * d,
            ;
            lemma_div_of0(d);
        } else {
            lemma_div_is_ordered(n, hi * d, d);
            lemma_div_by_multiple(hi, d);
        }
        if lo > 0 {
            lemma_div_by_multiple(lo, d);
            lemma_div_is_ordered(lo * d, n, d);
        }
    } else {
        assert((-hi) * d == -(hi * d) && (-lo) * d == -(lo * d)) by (nonlinear_arith);
        lemma_div_trunc_between(-hi, -n, -lo, d);
    }
}

/// The remainder of a truncating division is smaller than the divisor and
/// has the dividend's sign.
pub proof fn lemma_div_trunc_remainder(n: int, d: int)
    requires
        d >= 1,
    ensures
        n >= 0 ==> 0 <= n - d * div_trunc(n, d) < d,
        n < 0 ==> -d < n - d * div_trunc(n, d) <= 0,
{
    if n >= 0 {
        lemma_fundamental_div_mod(n, d);
        lemma_mod_bound(n, d);
    } else {
        lemma_fundamental_div_mod(-n, d);
        lemma_mod_bound(-n, d);
        assert(n - d * div_trunc(n, d) == -((-n) - d * ((-n) / d))) by (nonlinear_arith)
            requires
                div_trunc(n, d) == -((-n) / d),
        ;
    }
}

/// Truncating division by a positive divisor, on `i128` words.
pub fn div_trunc_i128(n: i128, d: i128) -> (r: i128)
    requires
        d >= 1,
        -0x4000_0000_0000_0000_0000_0000_0000_0000 < n,
    ensures
        r == div_trunc(n as int, d as int),
{
    if n >= 0 {
        n / d
    } else {
        proof {
            lemma_div_trunc_shrinks(-n as int, d as int);
        }
        -((-n) / d)
    }
}

/// Clamp an `i128` into `[-bound, bound]` and narrow it to `i64`.
pub fn clamp_abs_i128(v: i128, bound: i64) -> (r: i64)
    requires
        0 <= bound,
    ensures
        r == spec_clamp_abs(v as int, bound as int),
{
    if v > bound as i128 {
        bound
    } else if v < -(bound as i128) {
        -bound
    } else {
        v as i64
    }
}

} // verus!
