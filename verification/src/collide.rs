//! Pairwise elastic collision detection and resolution for equal-mass
//! bodies of a fixed uniform radius.
//!
//! Two bodies collide when the squared distance between their centers is
//! strictly positive (exact coincidence is excluded to avoid dividing by
//! zero) and strictly below the square of the summed radii. When the
//! bodies are also approaching, the component of their relative velocity
//! along the collision normal is exchanged; the impulse is rounded
//! outward so the pair never keeps approaching afterwards, and the same
//! rounded impulse is subtracted from one body and added to the other so
//! that momentum is conserved exactly. Overlapping bodies are then pushed
//! apart along the normal by half the overlap plus a small epsilon.

use vstd::prelude::*;

use crate::ball::Kin;
use crate::num::{cdiv, clamp_abs, isqrt, lemma_cdiv_lb, lemma_mul_abs_bound, spec_cdiv,
    spec_sqrt_floor, spec_tdiv, tdiv};
use crate::{MID_LIMIT, SEP_EPS, VEL_LIMIT};

verus! {

/// Sum of the radii of any two bodies, in units.
pub const SUM_RADII: i64 = 1500;

/// Squared sum of radii: the collision threshold for the squared distance.
pub const SUM_RADII_SQ: i64 = 2_250_000;

/// Squared distance between the centers of `a` and `b`.
pub open spec fn dist_sq(a: Kin, b: Kin) -> int {
    (b.x - a.x) * (b.x - a.x) + (b.y - a.y) * (b.y - a.y)
}

/// The two bodies overlap without coinciding.
pub open spec fn colliding(a: Kin, b: Kin) -> bool {
    0 < dist_sq(a, b) < SUM_RADII_SQ
}

/// Relative velocity of `a` toward `b`, projected on the center-to-center
/// displacement (the collision normal scaled by the distance). Positive
/// means the bodies are approaching.
pub open spec fn closing(a: Kin, b: Kin) -> int {
    (a.vx - b.vx) * (b.x - a.x) + (a.vy - b.vy) * (b.y - a.y)
}

/// Impulse component along displacement component `d`, for projected
/// closing value `p` over squared distance `s`: `p * d / s`, rounded away
/// from zero.
pub open spec fn spec_imp(p: int, d: int, s: int) -> int {
    if d >= 0 {
        spec_cdiv(p * d, s)
    } else {
        -spec_cdiv(p * (-d), s)
    }
}

/// Horizontal impulse exchanged when `a` and `b` collide while approaching.
pub open spec fn imp_x(a: Kin, b: Kin) -> int {
    spec_imp(closing(a, b), b.x - a.x, dist_sq(a, b))
}

/// Vertical impulse exchanged when `a` and `b` collide while approaching.
pub open spec fn imp_y(a: Kin, b: Kin) -> int {
    spec_imp(closing(a, b), b.y - a.y, dist_sq(a, b))
}

/// The exchanged impulse leaves all four velocity components within the
/// velocity limit. (Far outside any reachable regime the exchange is
/// skipped instead, so the state stays well formed.)
pub open spec fn vel_fits(a: Kin, b: Kin) -> bool {
    &&& crate::spec_abs(a.vx - imp_x(a, b)) <= VEL_LIMIT
    &&& crate::spec_abs(a.vy - imp_y(a, b)) <= VEL_LIMIT
    &&& crate::spec_abs(b.vx + imp_x(a, b)) <= VEL_LIMIT
    &&& crate::spec_abs(b.vy + imp_y(a, b)) <= VEL_LIMIT
}

/// The velocity exchange happens: the bodies collide, approach, and the
/// exchanged impulse keeps the components within the velocity limit.
pub open spec fn exchange_applies(a: Kin, b: Kin) -> bool {
    colliding(a, b) && closing(a, b) > 0 && vel_fits(a, b)
}

/// How far apart each body is pushed along the normal: half the overlap
/// plus a fixed epsilon, for squared distance `s`.
pub open spec fn sep_amount(s: int) -> int {
    (SUM_RADII - spec_sqrt_floor(s)) / 2 + SEP_EPS
}

/// Position shift along displacement component `d` for squared distance
/// `s`: the separation amount projected on the unit normal.
pub open spec fn pos_shift(s: int, d: int) -> int {
    spec_tdiv(sep_amount(s) * d, spec_sqrt_floor(s))
}

/// The mathematical definition of one pair resolution: what
/// `resolve_pair` returns, as a function of its arguments.
pub open spec fn spec_resolve(a: Kin, b: Kin) -> (Kin, Kin) {
    if !colliding(a, b) {
        (a, b)
    } else {
        let s = dist_sq(a, b);
        let exch = closing(a, b) > 0 && vel_fits(a, b);
        let na = Kin {
            x: crate::spec_clamp(
                a.x - pos_shift(s, b.x - a.x),
                -MID_LIMIT as int,
                MID_LIMIT as int,
            ) as i64,
            y: crate::spec_clamp(
                a.y - pos_shift(s, b.y - a.y),
                -MID_LIMIT as int,
                MID_LIMIT as int,
            ) as i64,
            vx: if exch {
                (a.vx - imp_x(a, b)) as i64
            } else {
                a.vx
            },
            vy: if exch {
                (a.vy - imp_y(a, b)) as i64
            } else {
                a.vy
            },
        };
        let nb = Kin {
            x: crate::spec_clamp(
                b.x + pos_shift(s, b.x - a.x),
                -MID_LIMIT as int,
                MID_LIMIT as int,
            ) as i64,
            y: crate::spec_clamp(
                b.y + pos_shift(s, b.y - a.y),
                -MID_LIMIT as int,
                MID_LIMIT as int,
            ) as i64,
            vx: if exch {
                (b.vx + imp_x(a, b)) as i64
            } else {
                b.vx
            },
            vy: if exch {
                (b.vy + imp_y(a, b)) as i64
            } else {
                b.vy
            },
        };
        (na, nb)
    }
}

/// The outward-rounded impulse projects on the displacement to at least
/// the closing value, so the exchange always cancels the approach.
proof fn lemma_impulse_dominates(p: int, dx: int, dy: int, s: int)
    requires
        s == dx * dx + dy * dy,
        1 <= s,
        1 <= p,
    ensures
        spec_imp(p, dx, s) * dx + spec_imp(p, dy, s) * dy >= p,
{
    let ax = crate::spec_abs(dx);
    let ay = crate::spec_abs(dy);
    let qx = spec_cdiv(p * ax, s);
    let qy = spec_cdiv(p * ay, s);
    assert(p * ax >= 0 && p * ay >= 0) by (nonlinear_arith)
        requires
            p >= 1,
            ax >= 0,
            ay >= 0,
    ;
    lemma_cdiv_lb(p * ax, s);
    lemma_cdiv_lb(p * ay, s);
    assert(spec_imp(p, dx, s) * dx == qx * ax) by (nonlinear_arith)
        requires
            qx == if dx >= 0 { spec_imp(p, dx, s) } else { -spec_imp(p, dx, s) },
            ax == crate::spec_abs(dx),
    ;
    assert(spec_imp(p, dy, s) * dy == qy * ay) by (nonlinear_arith)
        requires
            qy == if dy >= 0 { spec_imp(p, dy, s) } else { -spec_imp(p, dy, s) },
            ay == crate::spec_abs(dy),
    ;
    assert(qx * ax * s >= p * (ax * ax)) by (nonlinear_arith)
        requires
            qx * s >= p * ax,
            ax >= 0,
    ;
    assert(qy * ay * s >= p * (ay * ay)) by (nonlinear_arith)
        requires
            qy * s >= p * ay,
            ay >= 0,
    ;
    assert(qx * ax + qy * ay >= p) by (nonlinear_arith)
        requires
            qx * ax * s >= p * (ax * ax),
            qy * ay * s >= p * (ay * ay),
            s == dx * dx + dy * dy,
            ax == crate::spec_abs(dx),
            ay == crate::spec_abs(dy),
            s >= 1,
    ;
}

/// Detect and resolve a collision between `a` and `b`.
///
/// The result is pinned exactly: bodies that do not collide come back
/// unchanged; colliding, approaching bodies exchange the outward-rounded
/// normal impulse (skipped in the degenerate case where it would leave
/// the velocity limit) and are pushed apart along the normal. Momentum is
/// conserved in every case, and an applied exchange leaves the pair no
/// longer approaching along the collision normal.
pub fn resolve_pair(a: Kin, b: Kin) -> (r: (Kin, Kin))
    requires
        a.bounded(MID_LIMIT as int),
        b.bounded(MID_LIMIT as int),
    ensures
        r.0.bounded(MID_LIMIT as int),
        r.1.bounded(MID_LIMIT as int),
        // momentum conservation, each axis, in every case
        r.0.vx + r.1.vx == a.vx + b.vx,
        r.0.vy + r.1.vy == a.vy + b.vy,
        !colliding(a, b) ==> r.0 == a && r.1 == b,
        exchange_applies(a, b) ==> {
            &&& r.0.vx == a.vx - imp_x(a, b)
            &&& r.0.vy == a.vy - imp_y(a, b)
            &&& r.1.vx == b.vx + imp_x(a, b)
            &&& r.1.vy == b.vy + imp_y(a, b)
        },
        colliding(a, b) && !exchange_applies(a, b) ==> {
            &&& r.0.vx == a.vx
            &&& r.0.vy == a.vy
            &&& r.1.vx == b.vx
            &&& r.1.vy == b.vy
        },
        colliding(a, b) ==> {
            let s = dist_sq(a, b);
            &&& r.0.x == crate::spec_clamp(a.x - pos_shift(s, b.x - a.x), -MID_LIMIT as int, MID_LIMIT as int)
            &&& r.0.y == crate::spec_clamp(a.y - pos_shift(s, b.y - a.y), -MID_LIMIT as int, MID_LIMIT as int)
            &&& r.1.x == crate::spec_clamp(b.x + pos_shift(s, b.x - a.x), -MID_LIMIT as int, MID_LIMIT as int)
            &&& r.1.y == crate::spec_clamp(b.y + pos_shift(s, b.y - a.y), -MID_LIMIT as int, MID_LIMIT as int)
        },
        // an applied exchange cancels the approach along the old normal
        exchange_applies(a, b) ==> (r.0.vx - r.1.vx) * (b.x - a.x) + (r.0.vy - r.1.vy) * (b.y
            - a.y) <= 0,
        // the result is exactly the mathematical resolution
        r == spec_resolve(a, b),
{
    let dx: i64 = b.x - a.x;
    let dy: i64 = b.y - a.y;
    proof {
        lemma_mul_abs_bound(dx as int, dx as int, 200_000_000_000, 200_000_000_000);
        lemma_mul_abs_bound(dy as int, dy as int, 200_000_000_000, 200_000_000_000);
    }
    let s_wide: i128 = (dx as i128) * (dx as i128) + (dy as i128) * (dy as i128);
    if s_wide > 0 && s_wide < (SUM_RADII_SQ as i128) {
        assert(dx * dx >= 0 && dy * dy >= 0) by (nonlinear_arith);
        assert(crate::spec_abs(dx as int) < 1500 && crate::spec_abs(dy as int) < 1500)
            by (nonlinear_arith)
            requires
                dx * dx + dy * dy < 2_250_000,
                dx * dx >= 0,
                dy * dy >= 0,
        ;
        let s: i64 = s_wide as i64;
        let dvx: i64 = a.vx - b.vx;
        let dvy: i64 = a.vy - b.vy;
        proof {
            lemma_mul_abs_bound(dvx as int, dx as int, 2_000_000_000, 1_500);
            lemma_mul_abs_bound(dvy as int, dy as int, 2_000_000_000, 1_500);
        }
        let p: i64 = dvx * dx + dvy * dy;
        let mut ra: Kin = a;
        let mut rb: Kin = b;
        if p > 0 {
            let ax: i64 = if dx >= 0 { dx } else { -dx };
            let ay: i64 = if dy >= 0 { dy } else { -dy };
            proof {
                lemma_mul_abs_bound(p as int, ax as int, 6_000_000_000_000, 1_500);
                lemma_mul_abs_bound(p as int, ay as int, 6_000_000_000_000, 1_500);
                assert(p * ax >= 0 && p * ay >= 0) by (nonlinear_arith)
                    requires
                        p > 0,
                        ax >= 0,
                        ay >= 0,
                ;
            }
            let qx: i64 = cdiv(p * ax, s);
            let qy: i64 = cdiv(p * ay, s);
            let ix: i64 = if dx >= 0 { qx } else { -qx };
            let iy: i64 = if dy >= 0 { qy } else { -qy };
            assert(ix == spec_imp(p as int, dx as int, s as int));
            assert(iy == spec_imp(p as int, dy as int, s as int));
            let na_vx: i64 = a.vx - ix;
            let na_vy: i64 = a.vy - iy;
            let nb_vx: i64 = b.vx + ix;
            let nb_vy: i64 = b.vy + iy;
            if na_vx >= -VEL_LIMIT && na_vx <= VEL_LIMIT && na_vy >= -VEL_LIMIT && na_vy
                <= VEL_LIMIT && nb_vx >= -VEL_LIMIT && nb_vx <= VEL_LIMIT && nb_vy >= -VEL_LIMIT
                && nb_vy <= VEL_LIMIT {
                ra.vx = na_vx;
                ra.vy = na_vy;
                rb.vx = nb_vx;
                rb.vy = nb_vy;
                proof {
                    lemma_impulse_dominates(p as int, dx as int, dy as int, s as int);
                    assert((ra.vx - rb.vx) * (dx as int) + (ra.vy - rb.vy) * (dy as int) == (p
                        as int) - 2 * (ix * dx + iy * dy)) by (nonlinear_arith)
                        requires
                            ra.vx == a.vx - ix,
                            ra.vy == a.vy - iy,
                            rb.vx == b.vx + ix,
                            rb.vy == b.vy + iy,
                            p == (a.vx - b.vx) * dx + (a.vy - b.vy) * dy,
                    ;
                }
            }
        }
        // positional correction: push the bodies apart along the normal
        let dist: i64 = isqrt(s);
        assert(dist >= 1) by (nonlinear_arith)
            requires
                dist * dist <= s,
                (dist + 1) * (dist + 1) > s,
                s >= 1,
                dist >= 0,
        ;
        assert(dist < 1500) by (nonlinear_arith)
            requires
                dist * dist <= s,
                s < 2_250_000,
                dist >= 0,
        ;
        let overlap: i64 = SUM_RADII - dist;
        let sep: i64 = tdiv(overlap, 2) + SEP_EPS;
        proof {
            lemma_mul_abs_bound(sep as int, dx as int, 760, 1_500);
            lemma_mul_abs_bound(sep as int, dy as int, 760, 1_500);
        }
        let sx: i64 = tdiv(sep * dx, dist);
        let sy: i64 = tdiv(sep * dy, dist);
        ra.x = clamp_abs(a.x - sx, MID_LIMIT);
        ra.y = clamp_abs(a.y - sy, MID_LIMIT);
        rb.x = clamp_abs(b.x + sx, MID_LIMIT);
        rb.y = clamp_abs(b.y + sy, MID_LIMIT);
        (ra, rb)
    } else {
        (a, b)
    }
}

} // verus!
