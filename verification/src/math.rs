//! Verified integer arithmetic helpers used by the fixed-point
//! conversions and the averaging logic: truncating signed division and
//! integer square roots.

use vstd::prelude::*;
use vstd::arithmetic::div_mod::lemma_div_nonincreasing;

verus! {

/// Quotient of `a / b` rounded toward zero, as Rust's integer division
/// rounds. For non-negative `a` this is the floor quotient.
pub open spec fn div_trunc(a: int, b: int) -> int
    recommends
        b > 0,
{
    if a >= 0 {
        a / b
    } else {
        -((-a) / b)
    }
}

/// Truncating division of a (possibly negative) sum by a positive count.
pub fn div_trunc_i64(a: i64, b: u64) -> (q: i64)
    requires
        1 <= b,
        -0x4000_0000_0000_0000 < a < 0x4000_0000_0000_0000,
    ensures
        q == div_trunc(a as int, b as int),
{
    if a >= 0 {
        let n: u64 = a as u64;
        proof {
            lemma_div_nonincreasing(n as int, b as int);
        }
        (n / b) as i64
    } else {
        let n: u64 = (-a) as u64;
        proof {
            lemma_div_nonincreasing(n as int, b as int);
        }
        -((n / b) as i64)
    }
}

/// A truncating quotient stays between `lo` and `hi` whenever the
/// dividend stays between `b * lo` and `b * hi`.
pub proof fn lemma_div_trunc_bounds(a: int, b: int, lo: int, hi: int)
    requires
        1 <= b,
        lo <= 0,
        0 <= hi,
        b * lo <= a,
        a <= b * hi,
    ensures
        lo <= div_trunc(a, b) <= hi,
{
    if a >= 0 {
        vstd::arithmetic::div_mod::lemma_div_pos_is_pos(a, b);
        vstd::arithmetic::div_mod::lemma_div_is_ordered(a, b * hi, b);
        vstd::arithmetic::div_mod::lemma_div_multiples_vanish(hi, b);
    } else {
        vstd::arithmetic::div_mod::lemma_div_pos_is_pos(-a, b);
        assert(b * (-lo) == -(b * lo)) by (nonlinear_arith);
        vstd::arithmetic::div_mod::lemma_div_is_ordered(-a, b * (-lo), b);
        vstd::arithmetic::div_mod::lemma_div_multiples_vanish(-lo, b);
    }
}

/// Truncating division undoes multiplication by the divisor exactly,
/// for dividends of either sign.
pub proof fn lemma_div_trunc_multiple(f: int, k: int)
    requires
        1 <= k,
    ensures
        div_trunc(k * f, k) == f,
{
    if f >= 0 {
        assert(k * f >= 0) by (nonlinear_arith)
            requires
                k >= 1,
                f >= 0,
        ;
        vstd::arithmetic::div_mod::lemma_div_multiples_vanish(f, k);
    } else {
        assert(k * f < 0) by (nonlinear_arith)
            requires
                k >= 1,
                f < 0,
        ;
        assert(-(k * f) == k * (-f)) by (nonlinear_arith);
        vstd::arithmetic::div_mod::lemma_div_multiples_vanish(-f, k);
    }
}

/// `r` brackets `n` between consecutive squares.
pub open spec fn is_sqrt_floor(n: int, r: int) -> bool {
    0 <= r && r * r <= n && n < (r + 1) * (r + 1)
}

/// The integer square root of a non-negative `n`: the unique `r` with
/// `r * r <= n < (r + 1) * (r + 1)`.
pub open spec fn sqrt_floor(n: int) -> int {
    choose|r: int| is_sqrt_floor(n, r)
}

/// A value that brackets `n` between consecutive squares is exactly the
/// integer square root.
pub proof fn lemma_sqrt_floor_is(n: int, r: int)
    requires
        0 <= r,
        r * r <= n,
        n < (r + 1) * (r + 1),
    ensures
        sqrt_floor(n) == r,
{
    assert(exists|x: int| is_sqrt_floor(n, x)) by {
        assert(is_sqrt_floor(n, r));
    }
    let q = sqrt_floor(n);
    assert(is_sqrt_floor(n, q));
    if q < r {
        assert(false) by (nonlinear_arith)
            requires
                0 <= q < r,
                q * q <= n,
                n < (q + 1) * (q + 1),
                r * r <= n,
        ;
    }
    if r < q {
        assert(false) by (nonlinear_arith)
            requires
                0 <= r < q,
                r * r <= n,
                n < (r + 1) * (r + 1),
                q * q <= n,
        ;
    }
}

/// Integer square root by bisection over the answer.
pub fn isqrt_u128(n: u128) -> (r: u64)
    requires
        n < 0x4000_0000_0000_0000_0000_0000_0000_0000u128,
    ensures
        r == sqrt_floor(n as int),
        (r as int) * (r as int) <= n as int,
        (n as int) < (r as int + 1) * (r as int + 1),
{
    let mut lo: u64 = 0;
    let mut hi: u64 = 0x8000_0000_0000_0000;
    while lo < hi
        invariant
            lo <= hi <= 0x8000_0000_0000_0000,
            n < 0x4000_0000_0000_0000_0000_0000_0000_0000u128,
            (lo as int) * (lo as int) <= n as int,
            (n as int) < (hi as int + 1) * (hi as int + 1),
        decreases hi - lo,
    {
        let mid: u64 = (((lo as u128) + (hi as u128) + 1) / 2) as u64;
        assert(lo < mid <= hi);
        assert((mid as int) * (mid as int) <= 0x4000_0000_0000_0000_0000_0000_0000_0000int)
            by (nonlinear_arith)
            requires
                mid as int <= 0x8000_0000_0000_0000int,
                0 <= mid as int,
        ;
        if (mid as u128) * (mid as u128) <= n {
            lo = mid;
        } else {
            hi = mid - 1;
        }
    }
    proof {
        lemma_sqrt_floor_is(n as int, lo as int);
    }
    lo
}

} // verus!
