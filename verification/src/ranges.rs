//! Read-only range queries over the recorded histories, consumed by the
//! charting layer: the global time bounds of the x-position histories and
//! the min/max envelope of a velocity component across all bodies.

use vstd::prelude::*;

use crate::ball::Ball;
use crate::num::{cdiv, spec_cdiv};
use crate::sim::App;
use crate::MID_LIMIT;

verus! {

/// The first-sample timestamp of body `k`'s x-history.
pub open spec fn first_t(balls: Seq<Ball>, k: int) -> u64 {
    balls[k].x_history@[0].0
}

/// The last-sample timestamp of body `k`'s x-history.
pub open spec fn last_t(balls: Seq<Ball>, k: int) -> u64 {
    balls[k].x_history@.last().0
}

/// Body `k` exists and has at least one x-history sample.
pub open spec fn has_x_samples(balls: Seq<Ball>, k: int) -> bool {
    0 <= k < balls.len() && balls[k].x_history@.len() > 0
}

/// `m` is the earliest first-sample timestamp over all bodies.
pub open spec fn is_tmin(balls: Seq<Ball>, m: u64) -> bool {
    &&& exists|k: int| has_x_samples(balls, k) && #[trigger] first_t(balls, k) == m
    &&& forall|k: int| has_x_samples(balls, k) ==> m <= #[trigger] first_t(balls, k)
}

/// `m` is the latest last-sample timestamp over all bodies.
pub open spec fn is_tmax(balls: Seq<Ball>, m: u64) -> bool {
    &&& exists|k: int| has_x_samples(balls, k) && #[trigger] last_t(balls, k) == m
    &&& forall|k: int| has_x_samples(balls, k) ==> #[trigger] last_t(balls, k) <= m
}

/// The chosen velocity history of one body: the horizontal one when
/// `is_x` is set, the vertical one otherwise.
pub open spec fn axis_hist(b: Ball, is_x: bool) -> Seq<(u64, i64)> {
    if is_x {
        b.vx_history@
    } else {
        b.vy_history@
    }
}

/// Sample `i` of body `k`'s chosen velocity history exists.
pub open spec fn has_v_sample(balls: Seq<Ball>, is_x: bool, k: int, i: int) -> bool {
    0 <= k < balls.len() && 0 <= i < axis_hist(balls[k], is_x).len()
}

/// The value of sample `i` of body `k`'s chosen velocity history.
pub open spec fn v_at(balls: Seq<Ball>, is_x: bool, k: int, i: int) -> i64 {
    axis_hist(balls[k], is_x)[i].1
}

/// `m` is the smallest recorded value of the chosen velocity component.
pub open spec fn is_vmin(balls: Seq<Ball>, is_x: bool, m: i64) -> bool {
    &&& exists|k: int, i: int|
        has_v_sample(balls, is_x, k, i) && #[trigger] v_at(balls, is_x, k, i) == m
    &&& forall|k: int, i: int|
        has_v_sample(balls, is_x, k, i) ==> m <= #[trigger] v_at(balls, is_x, k, i)
}

/// `m` is the largest recorded value of the chosen velocity component.
pub open spec fn is_vmax(balls: Seq<Ball>, is_x: bool, m: i64) -> bool {
    &&& exists|k: int, i: int|
        has_v_sample(balls, is_x, k, i) && #[trigger] v_at(balls, is_x, k, i) == m
    &&& forall|k: int, i: int|
        has_v_sample(balls, is_x, k, i) ==> #[trigger] v_at(balls, is_x, k, i) <= m
}

/// Global time bounds for the charts' shared time axis: the earliest
/// first-sample timestamp and the latest last-sample timestamp over all
/// bodies' x-histories, or the default range when there is no data or no
/// spread.
pub fn global_time_bounds(app: &App) -> (r: (u64, u64))
    ensures
        (forall|k: int|
            0 <= k < app.balls@.len() ==> (#[trigger] app.balls@[k]).x_history@.len() == 0) ==> r
            == (0u64, 1u64),
        (exists|k: int| has_x_samples(app.balls@, k)) ==> exists|mn: u64, mx: u64|
            {
                &&& #[trigger] is_tmin(app.balls@, mn)
                &&& #[trigger] is_tmax(app.balls@, mx)
                &&& mn < mx ==> r == (mn, mx)
                &&& mn >= mx ==> r == (0u64, 1u64)
            },
{
    let balls = &app.balls;
    let n = balls.len();
    let mut t_min: u64 = 0;
    let mut t_max: u64 = 0;
    let mut found: bool = false;
    let mut k: usize = 0;
    while k < n
        invariant
            n == balls@.len(),
            k <= n,
            !found ==> forall|j: int| 0 <= j < k ==> !has_x_samples(balls@, j),
            found ==> exists|j: int|
                0 <= j < k && has_x_samples(balls@, j) && #[trigger] first_t(balls@, j) == t_min,
            found ==> exists|j: int|
                0 <= j < k && has_x_samples(balls@, j) && #[trigger] last_t(balls@, j) == t_max,
            found ==> forall|j: int|
                0 <= j < k && has_x_samples(balls@, j) ==> t_min <= #[trigger] first_t(balls@, j),
            found ==> forall|j: int|
                0 <= j < k && has_x_samples(balls@, j) ==> #[trigger] last_t(balls@, j) <= t_max,
        decreases n - k,
    {
        let hist = &balls[k].x_history;
        if hist.len() > 0 {
            let ft = hist[0].0;
            let lt = hist[hist.len() - 1].0;
            if !found {
                t_min = ft;
                t_max = lt;
                found = true;
            } else {
                if ft < t_min {
                    t_min = ft;
                }
                if lt > t_max {
                    t_max = lt;
                }
            }
            assert(first_t(balls@, k as int) == ft && last_t(balls@, k as int) == lt);
        }
        k = k + 1;
    }
    proof {
        if exists|j: int| has_x_samples(balls@, j) {
            let j0 = choose|j: int| has_x_samples(balls@, j);
            assert(has_x_samples(balls@, j0));
            assert(found);
            assert(is_tmin(balls@, t_min));
            assert(is_tmax(balls@, t_max));
        }
    }
    if found && t_min < t_max {
        (t_min, t_max)
    } else {
        (0, 1)
    }
}

/// The displayed range of one velocity component across all bodies: the
/// true minimum and maximum over every recorded sample, widened on each
/// side by a tenth of the spread, rounded up so that differing samples
/// always fall strictly inside the range, or the default range when
/// there is no data or no spread.
pub fn velocity_bounds(app: &App, is_x: bool) -> (r: (i64, i64))
    requires
        app.wf(),
    ensures
        (forall|k: int|
            0 <= k < app.balls@.len() ==> axis_hist(#[trigger] app.balls@[k], is_x).len() == 0)
            ==> r == (-1000i64, 1000i64),
        (exists|k: int, i: int| has_v_sample(app.balls@, is_x, k, i)) ==> exists|
            mn: i64,
            mx: i64,
        |
            {
                &&& #[trigger] is_vmin(app.balls@, is_x, mn)
                &&& #[trigger] is_vmax(app.balls@, is_x, mx)
                &&& mn < mx ==> r.0 == mn - spec_cdiv(mx - mn, 10) && r.1 == mx + spec_cdiv(
                    mx - mn,
                    10,
                )
                // the margin never truncates away: the data lies strictly inside
                &&& mn < mx ==> r.0 < mn && mx < r.1
                &&& mn >= mx ==> r == (-1000i64, 1000i64)
            },
{
    let balls = &app.balls;
    let n = balls.len();
    let mut v_min: i64 = 0;
    let mut v_max: i64 = 0;
    let mut found: bool = false;
    let mut k: usize = 0;
    while k < n
        invariant
            n == balls@.len(),
            k <= n,
            app.wf(),
            balls@ == app.balls@,
            !found ==> forall|j: int, i: int|
                !(0 <= j < k) || !has_v_sample(balls@, is_x, j, i),
            found ==> exists|j: int, i: int|
                0 <= j < k && has_v_sample(balls@, is_x, j, i) && #[trigger] v_at(
                    balls@,
                    is_x,
                    j,
                    i,
                ) == v_min,
            found ==> exists|j: int, i: int|
                0 <= j < k && has_v_sample(balls@, is_x, j, i) && #[trigger] v_at(
                    balls@,
                    is_x,
                    j,
                    i,
                ) == v_max,
            found ==> forall|j: int, i: int|
                0 <= j < k && has_v_sample(balls@, is_x, j, i) ==> v_min <= #[trigger] v_at(
                    balls@,
                    is_x,
                    j,
                    i,
                ),
            found ==> forall|j: int, i: int|
                0 <= j < k && has_v_sample(balls@, is_x, j, i) ==> #[trigger] v_at(
                    balls@,
                    is_x,
                    j,
                    i,
                ) <= v_max,
            found ==> -MID_LIMIT <= v_min <= MID_LIMIT && -MID_LIMIT <= v_max <= MID_LIMIT,
        decreases n - k,
    {
        let m = if is_x {
            balls[k].vx_history.len()
        } else {
            balls[k].vy_history.len()
        };
        let mut i: usize = 0;
        while i < m
            invariant
                n == balls@.len(),
                k < n,
                i <= m,
                app.wf(),
                balls@ == app.balls@,
                m == axis_hist(balls@[k as int], is_x).len(),
                !found ==> forall|j: int, q: int|
                    !(0 <= j < k || (j == k && 0 <= q < i)) || !has_v_sample(balls@, is_x, j, q),
                found ==> exists|j: int, q: int|
                    (0 <= j < k || (j == k && 0 <= q < i)) && has_v_sample(balls@, is_x, j, q)
                        && #[trigger] v_at(balls@, is_x, j, q) == v_min,
                found ==> exists|j: int, q: int|
                    (0 <= j < k || (j == k && 0 <= q < i)) && has_v_sample(balls@, is_x, j, q)
                        && #[trigger] v_at(balls@, is_x, j, q) == v_max,
                found ==> forall|j: int, q: int|
                    (0 <= j < k || (j == k && 0 <= q < i)) && has_v_sample(balls@, is_x, j, q)
                        ==> v_min <= #[trigger] v_at(balls@, is_x, j, q),
                found ==> forall|j: int, q: int|
                    (0 <= j < k || (j == k && 0 <= q < i)) && has_v_sample(balls@, is_x, j, q)
                        ==> #[trigger] v_at(balls@, is_x, j, q) <= v_max,
                found ==> -MID_LIMIT <= v_min <= MID_LIMIT && -MID_LIMIT <= v_max <= MID_LIMIT,
            decreases m - i,
        {
            let v = if is_x {
                balls[k].vx_history[i].1
            } else {
                balls[k].vy_history[i].1
            };
            assert(v == v_at(balls@, is_x, k as int, i as int));
            assert(crate::spec_abs(v as int) <= MID_LIMIT) by {
                assert(balls@[k as int].wf(crate::POS_LIMIT as int));
            }
            if !found {
                v_min = v;
                v_max = v;
                found = true;
            } else {
                if v < v_min {
                    v_min = v;
                }
                if v > v_max {
                    v_max = v;
                }
            }
            i = i + 1;
        }
        k = k + 1;
    }
    proof {
        if exists|j: int, q: int| has_v_sample(balls@, is_x, j, q) {
            let (j0, q0) = choose|j: int, q: int| has_v_sample(balls@, is_x, j, q);
            assert(has_v_sample(balls@, is_x, j0, q0));
            assert(found);
            assert(is_vmin(balls@, is_x, v_min));
            assert(is_vmax(balls@, is_x, v_max));
        }
    }
    if found && v_min < v_max {
        let margin = cdiv(v_max - v_min, 10);
        assert(margin >= 1);
        (v_min - margin, v_max + margin)
    } else {
        (-1000, 1000)
    }
}

} // verus!
