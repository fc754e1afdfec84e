//! A deterministic 2D bouncing-ball simulation engine.
//!
//! The engine owns an ordered collection of bodies inside a rectangular
//! arena, advances them on discrete ticks (integration, pairwise elastic
//! collision resolution, wall reflection), records a bounded per-body
//! history of positions and velocities for charting, and applies
//! add/remove/pause/speed commands.
//!
//! All quantities are signed fixed-point integers: one arena cell is
//! `SCALE` units. This keeps every step of the physics exact and lets the
//! contracts pin each update down to the unit.

use vstd::prelude::*;

pub mod ball;
pub mod collide;
pub mod num;
pub mod ranges;
pub mod sim;

verus! {

/// Fixed-point scale: units per arena cell.
pub const SCALE: i64 = 1000;

/// Radius of every body, in units (three quarters of a cell).
pub const BALL_RADIUS: i64 = 750;

/// Bound on each history sequence's length; the oldest sample is evicted
/// beyond it.
pub const MAX_HISTORY: usize = 300;

/// Smallest speed multiplier, in units (a quarter).
pub const SPEED_MIN: i64 = 250;

/// Largest speed multiplier, in units (five).
pub const SPEED_MAX: i64 = 5000;

/// Speed adjustment step, in units (a quarter).
pub const SPEED_STEP: i64 = 250;

/// Bound on a velocity component's magnitude, in units.
pub const VEL_LIMIT: i64 = 1_000_000_000;

/// Bound on a position coordinate's magnitude between ticks, in units.
pub const POS_LIMIT: i64 = 10_000_000_000;

/// Bound on a position coordinate's magnitude while a tick is in
/// progress (integration may carry a body past the walls before the
/// reflection step pulls it back).
pub const MID_LIMIT: i64 = 100_000_000_000;

/// Bound on an arena dimension, in units.
pub const DIM_LIMIT: i64 = 1_000_000_000;

/// Extra separation applied when two overlapping bodies are pushed
/// apart, in units (a hundredth of a cell).
pub const SEP_EPS: i64 = 10;

/// Number of distinct colors in the palette bodies cycle through.
pub const PALETTE_COLORS: usize = 8;

/// Number of distinct glyphs bodies cycle through.
pub const PALETTE_GLYPHS: usize = 8;

/// Clamp `v` into the closed interval `[lo, hi]`.
pub open spec fn spec_clamp(v: int, lo: int, hi: int) -> int {
    if v < lo {
        lo
    } else if v > hi {
        hi
    } else {
        v
    }
}

/// Absolute value.
pub open spec fn spec_abs(v: int) -> int {
    if v < 0 {
        -v
    } else {
        v
    }
}

} // verus!
