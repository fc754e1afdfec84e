//! The simulated body: kinematic state, fixed radius, palette-derived
//! visual identity, and four bounded history sequences.

use vstd::prelude::*;

use crate::{BALL_RADIUS, MAX_HISTORY, MID_LIMIT, PALETTE_COLORS, PALETTE_GLYPHS, VEL_LIMIT};

verus! {

/// The kinematic part of a body: position and velocity, in fixed-point
/// units.
#[derive(Clone, Copy)]
pub struct Kin {
    pub x: i64,
    pub y: i64,
    pub vx: i64,
    pub vy: i64,
}

impl Kin {
    /// Position within `bound` and velocity within the velocity limit.
    pub open spec fn bounded(self, bound: int) -> bool {
        &&& crate::spec_abs(self.x as int) <= bound
        &&& crate::spec_abs(self.y as int) <= bound
        &&& crate::spec_abs(self.vx as int) <= VEL_LIMIT
        &&& crate::spec_abs(self.vy as int) <= VEL_LIMIT
    }
}

/// One simulated body.
pub struct Ball {
    /// Horizontal position, in units.
    pub x: i64,
    /// Vertical position, in units.
    pub y: i64,
    /// Horizontal velocity, in units per tick at multiplier one.
    pub vx: i64,
    /// Vertical velocity, in units per tick at multiplier one.
    pub vy: i64,
    /// Radius, in units; the same fixed constant for every body.
    pub radius: i64,
    /// Index into the color palette, derived from the creation counter.
    pub color_idx: usize,
    /// Index into the glyph palette, derived from the creation counter.
    pub char_idx: usize,
    /// Samples of `x` over time: `(tick, value)` pairs in tick order.
    pub x_history: Vec<(u64, i64)>,
    /// Samples of `y` over time.
    pub y_history: Vec<(u64, i64)>,
    /// Samples of `vx` over time.
    pub vx_history: Vec<(u64, i64)>,
    /// Samples of `vy` over time.
    pub vy_history: Vec<(u64, i64)>,
}

/// A history sequence is well formed when it respects the length cap and
/// every recorded value is within the in-tick position bound.
pub open spec fn hist_wf(h: Seq<(u64, i64)>) -> bool {
    &&& h.len() <= MAX_HISTORY
    &&& forall|i: int| 0 <= i < h.len() ==> crate::spec_abs(#[trigger] h[i].1 as int) <= MID_LIMIT
}

/// `b` with its position and velocity replaced by `k`.
pub open spec fn with_kin(b: Ball, k: Kin) -> Ball {
    Ball { x: k.x, y: k.y, vx: k.vx, vy: k.vy, ..b }
}

/// One recording step of a history sequence: append the sample, and
/// evict the oldest sample once the cap is exceeded.
pub open spec fn hist_step(h: Seq<(u64, i64)>, s: (u64, i64)) -> Seq<(u64, i64)>
    recommends
        h.len() <= MAX_HISTORY,
{
    if h.len() < MAX_HISTORY {
        h.push(s)
    } else {
        h.push(s).subrange(1, h.len() as int + 1)
    }
}

impl Ball {
    /// The kinematic part of this body.
    pub open spec fn kin(self) -> Kin {
        Kin { x: self.x, y: self.y, vx: self.vx, vy: self.vy }
    }

    /// Well-formedness: bounded kinematics, the fixed radius, palette
    /// indices in range, and well-formed histories.
    pub open spec fn wf(self, bound: int) -> bool {
        &&& self.kin().bounded(bound)
        &&& self.radius == BALL_RADIUS
        &&& self.color_idx < PALETTE_COLORS
        &&& self.char_idx < PALETTE_GLYPHS
        &&& hist_wf(self.x_history@)
        &&& hist_wf(self.y_history@)
        &&& hist_wf(self.vx_history@)
        &&& hist_wf(self.vy_history@)
    }

    /// Everything except position and velocity is unchanged between
    /// `self` and `other`.
    pub open spec fn same_identity(self, other: Ball) -> bool {
        &&& self.radius == other.radius
        &&& self.color_idx == other.color_idx
        &&& self.char_idx == other.char_idx
        &&& self.x_history@ == other.x_history@
        &&& self.y_history@ == other.y_history@
        &&& self.vx_history@ == other.vx_history@
        &&& self.vy_history@ == other.vy_history@
    }

    /// A new body at the given kinematic state, with the visual identity
    /// derived from the creation index and empty histories.
    pub fn new(x: i64, y: i64, vx: i64, vy: i64, index: usize) -> (b: Ball)
        ensures
            b.x == x,
            b.y == y,
            b.vx == vx,
            b.vy == vy,
            b.radius == BALL_RADIUS,
            b.color_idx == index % PALETTE_COLORS,
            b.char_idx == index % PALETTE_GLYPHS,
            b.x_history@ == Seq::<(u64, i64)>::empty(),
            b.y_history@ == Seq::<(u64, i64)>::empty(),
            b.vx_history@ == Seq::<(u64, i64)>::empty(),
            b.vy_history@ == Seq::<(u64, i64)>::empty(),
    {
        Ball {
            x,
            y,
            vx,
            vy,
            radius: BALL_RADIUS,
            color_idx: index % PALETTE_COLORS,
            char_idx: index % PALETTE_GLYPHS,
            x_history: Vec::new(),
            y_history: Vec::new(),
            vx_history: Vec::new(),
            vy_history: Vec::new(),
        }
    }
}

} // verus!
