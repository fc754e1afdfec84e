//! The simulation engine: the aggregate state, the command handlers, and
//! the tick step that integrates motion, resolves pairwise collisions,
//! reflects bodies off the walls, and records history samples.

use vstd::prelude::*;

use crate::ball::{hist_step, with_kin, Ball, Kin};
use crate::collide::resolve_pair;
use crate::num::{spec_tdiv, tdiv};
use crate::{
    DIM_LIMIT, MAX_HISTORY, MID_LIMIT, PALETTE_COLORS, PALETTE_GLYPHS, POS_LIMIT, SCALE,
    SPEED_MAX, SPEED_MIN, SPEED_STEP, VEL_LIMIT,
};

verus! {

/// The aggregate simulation state.
pub struct App {
    /// Bodies in creation order; the remove command pops the last.
    pub balls: Vec<Ball>,
    /// While set, ticks are no-ops; commands still apply.
    pub paused: bool,
    /// Monotonic tick counter, the time axis of every history sample.
    pub tick_count: u64,
    /// Total bodies ever created; never decremented, so visual
    /// identities never repeat within a run.
    pub ball_counter: usize,
    /// Arena width, in units; refreshed from the render surface.
    pub area_width: i64,
    /// Arena height, in units.
    pub area_height: i64,
    /// Scales velocity's contribution to the position update, in units.
    pub speed_multiplier: i64,
}

/// Larger of `a` and `b`.
pub open spec fn spec_max(a: int, b: int) -> int {
    if a >= b {
        a
    } else {
        b
    }
}

/// Deterministic initial horizontal position for creation index `idx`.
pub open spec fn init_x(idx: nat, width: int) -> int {
    5 * SCALE + ((idx as int) * 7300) % spec_max(width as int, 20 * SCALE)
}

/// Deterministic initial vertical position for creation index `idx`.
pub open spec fn init_y(idx: nat, height: int) -> int {
    3 * SCALE + ((idx as int) * 4100) % spec_max(height as int, 10 * SCALE)
}

/// Deterministic initial horizontal velocity: a magnitude derived from
/// the index, pointing right for even indices and left for odd ones.
pub open spec fn init_vx(idx: nat) -> int {
    let mag = 500 + ((idx as int) * 170) % 800;
    if idx % 2 == 0 {
        mag
    } else {
        -mag
    }
}

/// Deterministic initial vertical velocity: a magnitude derived from the
/// index, pointing down for indices divisible by three and up otherwise.
pub open spec fn init_vy(idx: nat) -> int {
    let mag = 300 + ((idx as int) * 130) % 600;
    if idx % 3 == 0 {
        mag
    } else {
        -mag
    }
}

/// Wall reflection of a coordinate against the wall at `w1` (the arena
/// dimension minus one cell): clamp below at zero, then above at `w1`.
pub open spec fn reflect_pos(x: int, w1: int) -> int {
    let x1 = if x <= 0 {
        0int
    } else {
        x
    };
    if x1 >= w1 {
        w1
    } else {
        x1
    }
}

/// Wall reflection of a velocity component: forced non-negative at the
/// low wall, then non-positive at the high wall, in that order.
pub open spec fn reflect_vel(x: int, v: int, w1: int) -> int {
    let v1 = if x <= 0 {
        crate::spec_abs(v)
    } else {
        v
    };
    let x1 = if x <= 0 {
        0int
    } else {
        x
    };
    if x1 >= w1 {
        -crate::spec_abs(v1)
    } else {
        v1
    }
}

impl App {
    /// Well-formedness of the aggregate: every body well formed within
    /// the resting position bound, arena dimensions at least one cell
    /// and within the dimension limit, and the speed multiplier a
    /// multiple of the step inside its range.
    pub open spec fn wf(self) -> bool {
        &&& forall|k: int|
            0 <= k < self.balls@.len() ==> (#[trigger] self.balls@[k]).wf(POS_LIMIT as int)
        &&& SCALE <= self.area_width <= DIM_LIMIT
        &&& SCALE <= self.area_height <= DIM_LIMIT
        &&& SPEED_MIN <= self.speed_multiplier <= SPEED_MAX
        &&& self.speed_multiplier % SPEED_STEP == 0
    }

    /// All fields other than the bodies and the creation counter are
    /// unchanged between `self` and `other`.
    pub open spec fn same_settings(self, other: App) -> bool {
        &&& self.paused == other.paused
        &&& self.tick_count == other.tick_count
        &&& self.area_width == other.area_width
        &&& self.area_height == other.area_height
        &&& self.speed_multiplier == other.speed_multiplier
    }

    /// A fresh simulation: default arena of eighty by twenty cells,
    /// multiplier one, unpaused, with a single body for index zero.
    pub fn new() -> (app: App)
        ensures
            app.wf(),
            app.balls@.len() == 1,
            app.ball_counter == 1,
            app.paused == false,
            app.tick_count == 0,
            app.area_width == 80 * SCALE,
            app.area_height == 20 * SCALE,
            app.speed_multiplier == SCALE,
            app.balls@[0].x == init_x(0, 80 * SCALE),
            app.balls@[0].y == init_y(0, 20 * SCALE),
            app.balls@[0].vx == init_vx(0),
            app.balls@[0].vy == init_vy(0),
            app.balls@[0].radius == crate::BALL_RADIUS,
            app.balls@[0].color_idx == 0,
            app.balls@[0].char_idx == 0,
            app.balls@[0].x_history@.len() == 0,
            app.balls@[0].y_history@.len() == 0,
            app.balls@[0].vx_history@.len() == 0,
            app.balls@[0].vy_history@.len() == 0,
    {
        let mut app = App {
            balls: Vec::new(),
            paused: false,
            tick_count: 0,
            ball_counter: 0,
            area_width: 80 * SCALE,
            area_height: 20 * SCALE,
            speed_multiplier: SCALE,
        };
        app.add_ball();
        app
    }

    /// Append a new body with the deterministic, index-derived initial
    /// state and visual identity, and advance the creation counter.
    pub fn add_ball(&mut self)
        requires
            old(self).wf(),
            old(self).ball_counter < usize::MAX,
        ensures
            final (self).wf(),
            final (self).same_settings(*old(self)),
            final (self).ball_counter == old(self).ball_counter + 1,
            final (self).balls@.len() == old(self).balls@.len() + 1,
            forall|k: int|
                0 <= k < old(self).balls@.len() ==> final (self).balls@[k] == old(
                    self,
                ).balls@[k],
            ({
                let nb = final (self).balls@.last();
                let idx = old(self).ball_counter as nat;
                &&& nb.x == init_x(idx, old(self).area_width as int)
                &&& nb.y == init_y(idx, old(self).area_height as int)
                &&& nb.vx == init_vx(idx)
                &&& nb.vy == init_vy(idx)
                &&& nb.radius == crate::BALL_RADIUS
                &&& nb.color_idx == idx % (PALETTE_COLORS as nat)
                &&& nb.char_idx == idx % (PALETTE_GLYPHS as nat)
                &&& nb.x_history@.len() == 0
                &&& nb.y_history@.len() == 0
                &&& nb.vx_history@.len() == 0
                &&& nb.vy_history@.len() == 0
            }),
    {
        let idx = self.ball_counter;
        let wm: i64 = if self.area_width >= 20 * SCALE {
            self.area_width
        } else {
            20 * SCALE
        };
        let hm: i64 = if self.area_height >= 10 * SCALE {
            self.area_height
        } else {
            10 * SCALE
        };
        let x: i64 = 5 * SCALE + (((idx as i128) * 7300) % (wm as i128)) as i64;
        let y: i64 = 3 * SCALE + (((idx as i128) * 4100) % (hm as i128)) as i64;
        let mag_x: i64 = 500 + (((idx as i128) * 170) % 800) as i64;
        let mag_y: i64 = 300 + (((idx as i128) * 130) % 600) as i64;
        let vx: i64 = if idx % 2 == 0 {
            mag_x
        } else {
            -mag_x
        };
        let vy: i64 = if idx % 3 == 0 {
            mag_y
        } else {
            -mag_y
        };
        self.balls.push(Ball::new(x, y, vx, vy, idx));
        self.ball_counter = idx + 1;
    }

    /// Remove the most recently added body; a no-op when there is none.
    /// The creation counter is not decremented.
    pub fn remove_ball(&mut self)
        requires
            old(self).wf(),
        ensures
            final (self).wf(),
            final (self).same_settings(*old(self)),
            final (self).ball_counter == old(self).ball_counter,
            old(self).balls@.len() == 0 ==> final (self).balls@ == old(self).balls@,
            old(self).balls@.len() > 0 ==> final (self).balls@ == old(self).balls@.subrange(
                0,
                old(self).balls@.len() - 1,
            ),
    {
        if self.balls.len() > 0 {
            self.balls.pop();
            proof {
                assert(final (self).balls@ =~= old(self).balls@.subrange(
                    0,
                    old(self).balls@.len() - 1,
                ));
            }
        }
    }

    /// Raise the speed multiplier by one step, saturating at the maximum.
    pub fn speed_up(&mut self)
        requires
            old(self).wf(),
        ensures
            final (self).wf(),
            final (self).balls@ == old(self).balls@,
            final (self).ball_counter == old(self).ball_counter,
            final (self).paused == old(self).paused,
            final (self).tick_count == old(self).tick_count,
            final (self).area_width == old(self).area_width,
            final (self).area_height == old(self).area_height,
            final (self).speed_multiplier == if old(self).speed_multiplier + SPEED_STEP
                <= SPEED_MAX {
                old(self).speed_multiplier + SPEED_STEP
            } else {
                SPEED_MAX as int
            },
            SPEED_MIN <= final (self).speed_multiplier <= SPEED_MAX,
    {
        let raised = self.speed_multiplier + SPEED_STEP;
        self.speed_multiplier = if raised <= SPEED_MAX {
            raised
        } else {
            SPEED_MAX
        };
    }

    /// Lower the speed multiplier by one step, saturating at the minimum.
    pub fn speed_down(&mut self)
        requires
            old(self).wf(),
        ensures
            final (self).wf(),
            final (self).balls@ == old(self).balls@,
            final (self).ball_counter == old(self).ball_counter,
            final (self).paused == old(self).paused,
            final (self).tick_count == old(self).tick_count,
            final (self).area_width == old(self).area_width,
            final (self).area_height == old(self).area_height,
            final (self).speed_multiplier == if old(self).speed_multiplier - SPEED_STEP
                >= SPEED_MIN {
                old(self).speed_multiplier - SPEED_STEP
            } else {
                SPEED_MIN as int
            },
            SPEED_MIN <= final (self).speed_multiplier <= SPEED_MAX,
    {
        let lowered = self.speed_multiplier - SPEED_STEP;
        self.speed_multiplier = if lowered >= SPEED_MIN {
            lowered
        } else {
            SPEED_MIN
        };
    }

    /// Flip the paused flag; no other state is touched.
    pub fn toggle_pause(&mut self)
        requires
            old(self).wf(),
        ensures
            final (self).wf(),
            final (self).paused == !old(self).paused,
            final (self).balls@ == old(self).balls@,
            final (self).ball_counter == old(self).ball_counter,
            final (self).tick_count == old(self).tick_count,
            final (self).area_width == old(self).area_width,
            final (self).area_height == old(self).area_height,
            final (self).speed_multiplier == old(self).speed_multiplier,
    {
        self.paused = !self.paused;
    }

    /// Refresh the arena dimensions from the render surface. Bodies are
    /// not moved here; the next tick clamps them to the new walls.
    pub fn set_arena_bounds(&mut self, width: i64, height: i64)
        requires
            old(self).wf(),
            SCALE <= width <= DIM_LIMIT,
            SCALE <= height <= DIM_LIMIT,
        ensures
            final (self).wf(),
            final (self).area_width == width,
            final (self).area_height == height,
            final (self).balls@ == old(self).balls@,
            final (self).ball_counter == old(self).ball_counter,
            final (self).paused == old(self).paused,
            final (self).tick_count == old(self).tick_count,
            final (self).speed_multiplier == old(self).speed_multiplier,
    {
        self.area_width = width;
        self.area_height = height;
    }

    /// Advance the simulation by one tick. While paused, nothing at all
    /// changes. Otherwise the tick counter advances by exactly one, every
    /// body is integrated, pairwise collisions are resolved in ascending
    /// index order, bodies are reflected off the walls into the arena,
    /// and one sample per history sequence is recorded, all four tagged
    /// with the new tick.
    pub fn tick(&mut self)
        requires
            old(self).wf(),
            old(self).tick_count < u64::MAX,
        ensures
            final (self).wf(),
            old(self).paused ==> *final (self) == *old(self),
            !old(self).paused ==> {
                &&& final (self).tick_count == old(self).tick_count + 1
                &&& final (self).paused == old(self).paused
                &&& final (self).ball_counter == old(self).ball_counter
                &&& final (self).area_width == old(self).area_width
                &&& final (self).area_height == old(self).area_height
                &&& final (self).speed_multiplier == old(self).speed_multiplier
                &&& final (self).balls@.len() == old(self).balls@.len()
                &&& forall|k: int|
                    0 <= k < old(self).balls@.len() ==> {
                        let ob = old(self).balls@[k];
                        let nb = #[trigger] final (self).balls@[k];
                        let t = (old(self).tick_count + 1) as u64;
                        &&& nb.radius == ob.radius
                        &&& nb.color_idx == ob.color_idx
                        &&& nb.char_idx == ob.char_idx
                        &&& 0 <= nb.x <= old(self).area_width - SCALE
                        &&& 0 <= nb.y <= old(self).area_height - SCALE
                        // a body left on a wall moves inward (for arenas
                        // wider than one cell, where the walls differ)
                        &&& nb.x == 0 && old(self).area_width > SCALE ==> nb.vx >= 0
                        &&& nb.x == old(self).area_width - SCALE && old(self).area_width > SCALE
                            ==> nb.vx <= 0
                        &&& nb.y == 0 && old(self).area_height > SCALE ==> nb.vy >= 0
                        &&& nb.y == old(self).area_height - SCALE && old(self).area_height > SCALE
                            ==> nb.vy <= 0
                        &&& nb.x_history@ == hist_step(ob.x_history@, (t, nb.x))
                        &&& nb.y_history@ == hist_step(ob.y_history@, (t, nb.y))
                        &&& nb.vx_history@ == hist_step(ob.vx_history@, (t, nb.vx))
                        &&& nb.vy_history@ == hist_step(ob.vy_history@, (t, nb.vy))
                    }
                // the new positions and velocities are exactly the old
                // bodies integrated, collided pair by pair, and reflected
                &&& ({
                    let mid = pairs_pass(
                        integrate_all(kins(old(self).balls@), old(self).speed_multiplier as int),
                        0,
                        1,
                    );
                    let w1 = old(self).area_width - SCALE;
                    let h1 = old(self).area_height - SCALE;
                    forall|k: int|
                        0 <= k < old(self).balls@.len() ==> {
                            let nb = #[trigger] final (self).balls@[k];
                            &&& nb.x == reflect_pos(mid[k].x as int, w1 as int)
                            &&& nb.vx == reflect_vel(mid[k].x as int, mid[k].vx as int, w1 as int)
                            &&& nb.y == reflect_pos(mid[k].y as int, h1 as int)
                            &&& nb.vy == reflect_vel(mid[k].y as int, mid[k].vy as int, h1 as int)
                        }
                })
            },
    {
        if self.paused {
            return ;
        }
        self.tick_count = self.tick_count + 1;
        let t = self.tick_count;
        let ghost base = kins(self.balls@);
        integrate_balls(&mut self.balls, self.speed_multiplier);
        collide_all(&mut self.balls);
        let ghost after_col = kins(self.balls@);
        reflect_and_record(&mut self.balls, self.area_width, self.area_height, t);
        proof {
            assert(base =~= kins(old(self).balls@));
            assert(after_col == pairs_pass(
                integrate_all(kins(old(self).balls@), old(self).speed_multiplier as int),
                0,
                1,
            ));
        }
    }
}

/// The kinematic parts of a collection of bodies, in order.
pub open spec fn kins(s: Seq<Ball>) -> Seq<Kin> {
    s.map_values(|b: Ball| b.kin())
}

/// One body's integration step: the position advances by the velocity
/// scaled by the speed multiplier, rounded toward zero.
pub open spec fn spec_integrate(k: Kin, speed: int) -> Kin {
    Kin {
        x: (k.x + spec_tdiv(k.vx * speed, SCALE as int)) as i64,
        y: (k.y + spec_tdiv(k.vy * speed, SCALE as int)) as i64,
        vx: k.vx,
        vy: k.vy,
    }
}

/// The integration step applied to every body.
pub open spec fn integrate_all(s: Seq<Kin>, speed: int) -> Seq<Kin> {
    s.map_values(|k: Kin| spec_integrate(k, speed))
}

/// The whole collision pass: every unordered pair `(i, j)` with `i < j`,
/// in ascending lexicographic order, resolved in turn, with corrections
/// accumulating. `pairs_pass(s, i, j)` is the state after processing the
/// pairs from `(i, j)` onward.
pub open spec fn pairs_pass(s: Seq<Kin>, i: int, j: int) -> Seq<Kin>
    decreases s.len() - i, s.len() + 1 - j,
{
    if i < 0 || j <= i || i >= s.len() {
        s
    } else if j >= s.len() {
        pairs_pass(s, i + 1, i + 2)
    } else {
        let rr = crate::collide::spec_resolve(s[i], s[j]);
        pairs_pass(s.update(i, rr.0).update(j, rr.1), i, j + 1)
    }
}

/// Sum of the horizontal velocity components of a collection of bodies.
pub open spec fn sum_vx(s: Seq<Ball>) -> int
    decreases s.len(),
{
    if s.len() == 0 {
        0
    } else {
        sum_vx(s.drop_last()) + s.last().vx
    }
}

/// Sum of the vertical velocity components of a collection of bodies.
pub open spec fn sum_vy(s: Seq<Ball>) -> int
    decreases s.len(),
{
    if s.len() == 0 {
        0
    } else {
        sum_vy(s.drop_last()) + s.last().vy
    }
}

/// Replacing one body changes the velocity sums by exactly the
/// difference at that index.
proof fn lemma_sum_update(s: Seq<Ball>, i: int, b: Ball)
    requires
        0 <= i < s.len(),
    ensures
        sum_vx(s.update(i, b)) == sum_vx(s) - s[i].vx + b.vx,
        sum_vy(s.update(i, b)) == sum_vy(s) - s[i].vy + b.vy,
    decreases s.len(),
{
    let su = s.update(i, b);
    if i == s.len() - 1 {
        assert(su.drop_last() =~= s.drop_last());
    } else {
        assert(su.drop_last() =~= s.drop_last().update(i, b));
        lemma_sum_update(s.drop_last(), i, b);
        assert(su.last() == s.last());
    }
}

/// Overwrite the position and velocity of the body at index `i`, leaving
/// its identity and histories untouched.
fn set_kin(balls: &mut Vec<Ball>, i: usize, k: Kin)
    requires
        i < old(balls)@.len(),
    ensures
        final (balls)@ == old(balls)@.update(i as int, with_kin(old(balls)@[i as int], k)),
{
    balls[i].x = k.x;
    balls[i].y = k.y;
    balls[i].vx = k.vx;
    balls[i].vy = k.vy;
    proof {
        assert(final (balls)@ =~= old(balls)@.update(
            i as int,
            with_kin(old(balls)@[i as int], k),
        ));
    }
}

/// Integration: every body's position advances by its velocity scaled by
/// the speed multiplier, exactly and componentwise.
fn integrate_balls(balls: &mut Vec<Ball>, speed: i64)
    requires
        forall|k: int|
            0 <= k < old(balls)@.len() ==> (#[trigger] old(balls)@[k]).wf(POS_LIMIT as int),
        SPEED_MIN <= speed <= SPEED_MAX,
    ensures
        final (balls)@.len() == old(balls)@.len(),
        forall|k: int|
            0 <= k < old(balls)@.len() ==> {
                let ob = old(balls)@[k];
                let nb = #[trigger] final (balls)@[k];
                &&& nb.wf(MID_LIMIT as int)
                &&& nb.same_identity(ob)
                &&& nb.vx == ob.vx
                &&& nb.vy == ob.vy
                &&& nb.x == ob.x + spec_tdiv(ob.vx * speed, SCALE as int)
                &&& nb.y == ob.y + spec_tdiv(ob.vy * speed, SCALE as int)
            },
        kins(final (balls)@) == integrate_all(kins(old(balls)@), speed as int),
{
    let n = balls.len();
    let mut i: usize = 0;
    while i < n
        invariant
            n == balls@.len(),
            balls@.len() == old(balls)@.len(),
            i <= n,
            SPEED_MIN <= speed <= SPEED_MAX,
            forall|k: int|
                0 <= k < old(balls)@.len() ==> (#[trigger] old(balls)@[k]).wf(POS_LIMIT as int),
            forall|k: int| i <= k < n ==> #[trigger] balls@[k] == old(balls)@[k],
            forall|k: int|
                0 <= k < i ==> {
                    let ob = old(balls)@[k];
                    let nb = #[trigger] balls@[k];
                    &&& nb.wf(MID_LIMIT as int)
                    &&& nb.same_identity(ob)
                    &&& nb.vx == ob.vx
                    &&& nb.vy == ob.vy
                    &&& nb.x == ob.x + spec_tdiv(ob.vx * speed, SCALE as int)
                    &&& nb.y == ob.y + spec_tdiv(ob.vy * speed, SCALE as int)
                },
        decreases n - i,
    {
        let vx = balls[i].vx;
        let vy = balls[i].vy;
        proof {
            crate::num::lemma_mul_abs_bound(
                vx as int,
                speed as int,
                VEL_LIMIT as int,
                SPEED_MAX as int,
            );
            crate::num::lemma_mul_abs_bound(
                vy as int,
                speed as int,
                VEL_LIMIT as int,
                SPEED_MAX as int,
            );
        }
        let sx = tdiv(vx * speed, SCALE);
        let sy = tdiv(vy * speed, SCALE);
        let nx = balls[i].x + sx;
        let ny = balls[i].y + sy;
        balls[i].x = nx;
        balls[i].y = ny;
        i = i + 1;
    }
    proof {
        assert(kins(balls@) =~= integrate_all(kins(old(balls)@), speed as int));
    }
}

/// Collision pass: every unordered pair, in ascending index order, is
/// detected and resolved by `resolve_pair`. The pass preserves each
/// body's identity and histories, keeps the kinematics within the
/// in-tick bounds, and conserves the total velocity sums exactly.
fn collide_all(balls: &mut Vec<Ball>)
    requires
        forall|k: int|
            0 <= k < old(balls)@.len() ==> (#[trigger] old(balls)@[k]).wf(MID_LIMIT as int),
    ensures
        final (balls)@.len() == old(balls)@.len(),
        forall|k: int|
            0 <= k < old(balls)@.len() ==> {
                let nb = #[trigger] final (balls)@[k];
                &&& nb.wf(MID_LIMIT as int)
                &&& nb.same_identity(old(balls)@[k])
            },
        sum_vx(final (balls)@) == sum_vx(old(balls)@),
        sum_vy(final (balls)@) == sum_vy(old(balls)@),
        kins(final (balls)@) == pairs_pass(kins(old(balls)@), 0, 1),
{
    let n = balls.len();
    let mut i: usize = 0;
    while i < n
        invariant
            n == balls@.len(),
            balls@.len() == old(balls)@.len(),
            i <= n,
            forall|k: int|
                0 <= k < old(balls)@.len() ==> {
                    let nb = #[trigger] balls@[k];
                    &&& nb.wf(MID_LIMIT as int)
                    &&& nb.same_identity(old(balls)@[k])
                },
            sum_vx(balls@) == sum_vx(old(balls)@),
            sum_vy(balls@) == sum_vy(old(balls)@),
            pairs_pass(kins(old(balls)@), 0, 1) == pairs_pass(kins(balls@), i as int, i as int + 1),
        decreases n - i,
    {
        let mut j: usize = i + 1;
        while j < n
            invariant
                n == balls@.len(),
                balls@.len() == old(balls)@.len(),
                i < n,
                i < j <= n,
                forall|k: int|
                    0 <= k < old(balls)@.len() ==> {
                        let nb = #[trigger] balls@[k];
                        &&& nb.wf(MID_LIMIT as int)
                        &&& nb.same_identity(old(balls)@[k])
                    },
                sum_vx(balls@) == sum_vx(old(balls)@),
                sum_vy(balls@) == sum_vy(old(balls)@),
                pairs_pass(kins(old(balls)@), 0, 1) == pairs_pass(kins(balls@), i as int, j as int),
            decreases n - j,
        {
            let ka = Kin { x: balls[i].x, y: balls[i].y, vx: balls[i].vx, vy: balls[i].vy };
            let kb = Kin { x: balls[j].x, y: balls[j].y, vx: balls[j].vx, vy: balls[j].vy };
            let ghost pre = balls@;
            let (na, nb) = resolve_pair(ka, kb);
            set_kin(balls, i, na);
            set_kin(balls, j, nb);
            proof {
                let mid = pre.update(i as int, with_kin(pre[i as int], na));
                lemma_sum_update(pre, i as int, with_kin(pre[i as int], na));
                lemma_sum_update(mid, j as int, with_kin(mid[j as int], nb));
                assert(ka == kins(pre)[i as int] && kb == kins(pre)[j as int]);
                assert(kins(balls@) =~= kins(pre).update(i as int, na).update(j as int, nb));
                assert(pairs_pass(kins(pre), i as int, j as int) == pairs_pass(
                    kins(balls@),
                    i as int,
                    j as int + 1,
                ));
            }
            j = j + 1;
        }
        proof {
            assert(pairs_pass(kins(balls@), i as int, n as int) == pairs_pass(
                kins(balls@),
                i as int + 1,
                i as int + 2,
            ));
        }
        i = i + 1;
    }
    proof {
        assert(pairs_pass(kins(balls@), n as int, n as int + 1) == kins(balls@));
    }
}

/// Wall reflection and history recording: every body is clamped into the
/// arena with its velocity forced away from any wall it touched, and one
/// sample per history sequence is appended, with the oldest evicted past
/// the cap.
fn reflect_and_record(balls: &mut Vec<Ball>, w: i64, h: i64, t: u64)
    requires
        forall|k: int|
            0 <= k < old(balls)@.len() ==> (#[trigger] old(balls)@[k]).wf(MID_LIMIT as int),
        SCALE <= w <= DIM_LIMIT,
        SCALE <= h <= DIM_LIMIT,
    ensures
        final (balls)@.len() == old(balls)@.len(),
        forall|k: int|
            0 <= k < old(balls)@.len() ==> {
                let ob = old(balls)@[k];
                let nb = #[trigger] final (balls)@[k];
                &&& nb.wf(POS_LIMIT as int)
                &&& nb.x == reflect_pos(ob.x as int, w - SCALE)
                &&& nb.vx == reflect_vel(ob.x as int, ob.vx as int, w - SCALE)
                &&& nb.y == reflect_pos(ob.y as int, h - SCALE)
                &&& nb.vy == reflect_vel(ob.y as int, ob.vy as int, h - SCALE)
                &&& 0 <= nb.x <= w - SCALE
                &&& 0 <= nb.y <= h - SCALE
                &&& nb.x == 0 && w - SCALE > 0 ==> nb.vx >= 0
                &&& nb.x == w - SCALE && w - SCALE > 0 ==> nb.vx <= 0
                &&& nb.y == 0 && h - SCALE > 0 ==> nb.vy >= 0
                &&& nb.y == h - SCALE && h - SCALE > 0 ==> nb.vy <= 0
                &&& nb.radius == ob.radius
                &&& nb.color_idx == ob.color_idx
                &&& nb.char_idx == ob.char_idx
                &&& nb.x_history@ == hist_step(ob.x_history@, (t, nb.x))
                &&& nb.y_history@ == hist_step(ob.y_history@, (t, nb.y))
                &&& nb.vx_history@ == hist_step(ob.vx_history@, (t, nb.vx))
                &&& nb.vy_history@ == hist_step(ob.vy_history@, (t, nb.vy))
            },
{
    let w1 = w - SCALE;
    let h1 = h - SCALE;
    let n = balls.len();
    let mut i: usize = 0;
    while i < n
        invariant
            n == balls@.len(),
            balls@.len() == old(balls)@.len(),
            i <= n,
            0 <= w1 <= DIM_LIMIT,
            0 <= h1 <= DIM_LIMIT,
            forall|k: int|
                0 <= k < old(balls)@.len() ==> (#[trigger] old(balls)@[k]).wf(MID_LIMIT as int),
            forall|k: int| i <= k < n ==> #[trigger] balls@[k] == old(balls)@[k],
            forall|k: int|
                0 <= k < i ==> {
                    let ob = old(balls)@[k];
                    let nb = #[trigger] balls@[k];
                    &&& nb.wf(POS_LIMIT as int)
                    &&& nb.x == reflect_pos(ob.x as int, w1 as int)
                    &&& nb.vx == reflect_vel(ob.x as int, ob.vx as int, w1 as int)
                    &&& nb.y == reflect_pos(ob.y as int, h1 as int)
                    &&& nb.vy == reflect_vel(ob.y as int, ob.vy as int, h1 as int)
                    &&& 0 <= nb.x <= w1
                    &&& 0 <= nb.y <= h1
                    &&& nb.x == 0 && w1 > 0 ==> nb.vx >= 0
                    &&& nb.x == w1 && w1 > 0 ==> nb.vx <= 0
                    &&& nb.y == 0 && h1 > 0 ==> nb.vy >= 0
                    &&& nb.y == h1 && h1 > 0 ==> nb.vy <= 0
                    &&& nb.radius == ob.radius
                    &&& nb.color_idx == ob.color_idx
                    &&& nb.char_idx == ob.char_idx
                    &&& nb.x_history@ == hist_step(ob.x_history@, (t, nb.x))
                    &&& nb.y_history@ == hist_step(ob.y_history@, (t, nb.y))
                    &&& nb.vx_history@ == hist_step(ob.vx_history@, (t, nb.vx))
                    &&& nb.vy_history@ == hist_step(ob.vy_history@, (t, nb.vy))
                },
        decreases n - i,
    {
        reflect_record_one(&mut balls[i], w1, h1, t);
        i = i + 1;
    }
}

/// Reflect one body off the walls at `w1` and `h1` and record one sample
/// per history sequence, tagged `t`.
#[verifier::rlimit(40)]
fn reflect_record_one(b: &mut Ball, w1: i64, h1: i64, t: u64)
    requires
        old(b).wf(MID_LIMIT as int),
        0 <= w1 <= DIM_LIMIT,
        0 <= h1 <= DIM_LIMIT,
    ensures
        ({
            let ob = *old(b);
            let nb = *final (b);
            &&& nb.wf(POS_LIMIT as int)
            &&& nb.x == reflect_pos(ob.x as int, w1 as int)
            &&& nb.vx == reflect_vel(ob.x as int, ob.vx as int, w1 as int)
            &&& nb.y == reflect_pos(ob.y as int, h1 as int)
            &&& nb.vy == reflect_vel(ob.y as int, ob.vy as int, h1 as int)
            &&& 0 <= nb.x <= w1
            &&& 0 <= nb.y <= h1
            // a body left on a wall moves inward (low and high walls
            // coincide in a one-cell arena, where the high rule wins)
            &&& nb.x == 0 && w1 > 0 ==> nb.vx >= 0
            &&& nb.x == w1 && w1 > 0 ==> nb.vx <= 0
            &&& nb.y == 0 && h1 > 0 ==> nb.vy >= 0
            &&& nb.y == h1 && h1 > 0 ==> nb.vy <= 0
            &&& nb.radius == ob.radius
            &&& nb.color_idx == ob.color_idx
            &&& nb.char_idx == ob.char_idx
            &&& nb.x_history@ == hist_step(ob.x_history@, (t, nb.x))
            &&& nb.y_history@ == hist_step(ob.y_history@, (t, nb.y))
            &&& nb.vx_history@ == hist_step(ob.vx_history@, (t, nb.vx))
            &&& nb.vy_history@ == hist_step(ob.vy_history@, (t, nb.vy))
        }),
{
    let mut nx = b.x;
    let mut nvx = b.vx;
    if nx <= 0 {
        nx = 0;
        nvx = if nvx < 0 {
            -nvx
        } else {
            nvx
        };
    }
    if nx >= w1 {
        nx = w1;
        let a = if nvx < 0 {
            -nvx
        } else {
            nvx
        };
        nvx = -a;
    }
    let mut ny = b.y;
    let mut nvy = b.vy;
    if ny <= 0 {
        ny = 0;
        nvy = if nvy < 0 {
            -nvy
        } else {
            nvy
        };
    }
    if ny >= h1 {
        ny = h1;
        let a = if nvy < 0 {
            -nvy
        } else {
            nvy
        };
        nvy = -a;
    }
    b.x = nx;
    b.vx = nvx;
    b.y = ny;
    b.vy = nvy;
    b.x_history.push((t, nx));
    if b.x_history.len() > MAX_HISTORY {
        b.x_history.remove(0);
    }
    b.y_history.push((t, ny));
    if b.y_history.len() > MAX_HISTORY {
        b.y_history.remove(0);
    }
    b.vx_history.push((t, nvx));
    if b.vx_history.len() > MAX_HISTORY {
        b.vx_history.remove(0);
    }
    b.vy_history.push((t, nvy));
    if b.vy_history.len() > MAX_HISTORY {
        b.vy_history.remove(0);
    }
    proof {
        let ob = *old(b);
        let nb = *b;
        assert(nb.x_history@ =~= hist_step(ob.x_history@, (t, nb.x)));
        assert(nb.y_history@ =~= hist_step(ob.y_history@, (t, nb.y)));
        assert(nb.vx_history@ =~= hist_step(ob.vx_history@, (t, nb.vx)));
        assert(nb.vy_history@ =~= hist_step(ob.vy_history@, (t, nb.vy)));
    }
}

} // verus!