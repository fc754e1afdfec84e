//! Exact integer arithmetic helpers used by the physics step: truncating
//! division (the rounding a quotient of fixed-point quantities uses),
//! ceiling division for the collision impulse, and an integer square root
//! for the separation distance.

use vstd::prelude::*;

verus! {

/// Quotient of `a` by `b`, rounded toward zero.
pub open spec fn spec_tdiv(a: int, b: int) -> int
    recommends
        b > 0,
{
    if a >= 0 {
        a / b
    } else {
        -((-a) / b)
    }
}

/// Quotient of `a` by `b`, rounded up; defined for non-negative `a`.
pub open spec fn spec_cdiv(a: int, b: int) -> int
    recommends
        a >= 0,
        b > 0,
{
    (a + b - 1) / b
}

/// Division of `a` by `b`, rounded toward zero.
pub fn tdiv(a: i64, b: i64) -> (r: i64)
    requires
        b > 0,
        a > i64::MIN,
    ensures
        r == spec_tdiv(a as int, b as int),
        crate::spec_abs(r as int) == crate::spec_abs(a as int) / (b as int),
        crate::spec_abs(r as int) <= crate::spec_abs(a as int),
{
    if a >= 0 {
        let q: u64 = (a as u64) / (b as u64);
        assert(q <= a as u64) by {
            assert(a as u64 / b as u64 <= a as u64) by (nonlinear_arith)
                requires
                    b as u64 >= 1,
            ;
        }
        q as i64
    } else {
        let n: i64 = -a;
        let q: u64 = (n as u64) / (b as u64);
        assert(q <= n as u64) by {
            assert(n as u64 / b as u64 <= n as u64) by (nonlinear_arith)
                requires
                    b as u64 >= 1,
            ;
        }
        -(q as i64)
    }
}

/// Division of non-negative `a` by `b`, rounded up.
pub fn cdiv(a: i64, b: i64) -> (r: i64)
    requires
        0 <= a,
        0 < b,
        a + b - 1 <= i64::MAX,
    ensures
        r == spec_cdiv(a as int, b as int),
        0 <= r <= a,
{
    let s: i64 = a + (b - 1);
    let q: u64 = (s as u64) / (b as u64);
    assert(0 <= s as int / b as int <= a as int) by (nonlinear_arith)
        requires
            b as int >= 1,
            a as int >= 0,
            s as int == a as int + b as int - 1,
    ;
    q as i64
}

/// The floor of the square root of `n`: the unique non-negative `r` with
/// `r * r <= n < (r + 1) * (r + 1)`.
pub open spec fn spec_sqrt_floor(n: int) -> int {
    choose|r: int| 0 <= r && #[trigger] (r * r) <= n && (r + 1) * (r + 1) > n
}

/// Clamp `v` into `[-bound, bound]`.
pub fn clamp_abs(v: i64, bound: i64) -> (r: i64)
    requires
        0 <= bound,
    ensures
        r == crate::spec_clamp(v as int, -bound as int, bound as int),
        crate::spec_abs(r as int) <= bound,
{
    if v < -bound {
        -bound
    } else if v > bound {
        bound
    } else {
        v
    }
}

/// Floor of the square root of `n`.
pub fn isqrt(n: i64) -> (r: i64)
    requires
        0 <= n < 4_000_000,
    ensures
        0 <= r,
        r * r <= n,
        (r + 1) * (r + 1) > n,
        r == spec_sqrt_floor(n as int),
{
    let mut r: i64 = 0;
    loop
        invariant
            0 <= r <= 2000,
            r * r <= n,
            n < 4_000_000,
        ensures
            0 <= r,
            r * r <= n,
            (r + 1) * (r + 1) > n,
        decreases 2000 - r,
    {
        let next: i64 = r + 1;
        assert(next * next <= 4_004_001 && (next * next <= n ==> next <= 2000))
            by (nonlinear_arith)
            requires
                1 <= next <= 2001,
                n < 4_000_000,
        ;
        if next * next <= n {
            r = next;
        } else {
            break;
        }
    }
    proof {
        let w = r as int;
        assert(0 <= w && w * w <= n as int && (w + 1) * (w + 1) > n as int);
        assert(exists|q: int| 0 <= q && #[trigger] (q * q) <= n as int && (q + 1) * (q + 1) > n as int);
        let c = spec_sqrt_floor(n as int);
        assert(0 <= c && c * c <= n as int && (c + 1) * (c + 1) > n as int);
        assert(c == w) by (nonlinear_arith)
            requires
                0 <= c,
                c * c <= n as int,
                (c + 1) * (c + 1) > n as int,
                0 <= w,
                w * w <= n as int,
                (w + 1) * (w + 1) > n as int,
        ;
    }
    r
}

/// Bound on a product from bounds on its factors.
pub proof fn lemma_mul_abs_bound(x: int, y: int, bx: int, by: int)
    by (nonlinear_arith)
    requires
        crate::spec_abs(x) <= bx,
        crate::spec_abs(y) <= by,
    ensures
        crate::spec_abs(x * y) <= bx * by,
{
}

/// Ceiling division recovers at least the dividend once multiplied back.
pub proof fn lemma_cdiv_lb(a: int, b: int)
    by (nonlinear_arith)
    requires
        a >= 0,
        b >= 1,
    ensures
        spec_cdiv(a, b) * b >= a,
        spec_cdiv(a, b) >= 0,
{
}

} // verus!
