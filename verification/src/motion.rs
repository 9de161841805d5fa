//! Points, vectors and the motion step, all in fixed-point units.

use vstd::prelude::*;
use crate::bounds::{DIAG, DIST_LIMIT, UNIT, VEL_LIMIT};
use crate::numeric::{scaled_delta, scaled_delta_spec};

verus! {

/// A position in screen space, in units (thousandths of a pixel); origin
/// top-left, y grows downward.
#[derive(Clone, Copy, Debug, PartialEq, Eq, Structural)]
pub struct Point {
    pub x: i64,
    pub y: i64,
}

/// A direction with magnitude, in per-mille units: a vector of length 1000
/// covers the full step distance each step.
#[derive(Clone, Copy, Debug, PartialEq, Eq, Structural)]
pub struct Vector {
    pub x: i64,
    pub y: i64,
}

impl Point {
    pub open spec fn wf(self, limit: i64) -> bool {
        -limit <= self.x <= limit && -limit <= self.y <= limit
    }

    /// Runtime check of `wf`, for callers outside the verified world.
    pub fn is_within(&self, limit: i64) -> (b: bool)
        requires
            limit >= 0,
        ensures
            b == self.wf(limit),
    {
        -limit <= self.x && self.x <= limit && -limit <= self.y && self.y <= limit
    }
}

impl Vector {
    pub open spec fn wf(self) -> bool {
        -VEL_LIMIT <= self.x <= VEL_LIMIT && -VEL_LIMIT <= self.y <= VEL_LIMIT
    }

    /// Runtime check of `wf`, for callers outside the verified world.
    pub fn is_wf(&self) -> (b: bool)
        ensures
            b == self.wf(),
    {
        -VEL_LIMIT <= self.x && self.x <= VEL_LIMIT && -VEL_LIMIT <= self.y && self.y
            <= VEL_LIMIT
    }
}

/// Where a point ends up after moving with velocity `v` over a travelled
/// length of `dist` units.
pub open spec fn stepped_point_spec(p: Point, v: Vector, dist: int) -> Point {
    Point {
        x: (p.x + scaled_delta_spec(v.x as int, dist)) as i64,
        y: (p.y + scaled_delta_spec(v.y as int, dist)) as i64,
    }
}

/// Advance `p` by `v` scaled to the travelled length `dist`.
pub fn step_point(p: Point, v: Vector, dist: u64) -> (r: Point)
    requires
        p.wf(crate::bounds::POS_LIMIT),
        v.wf(),
        dist <= DIST_LIMIT,
    ensures
        r == stepped_point_spec(p, v, dist as int),
        r.wf(11_000_000_000),
{
    Point { x: p.x + scaled_delta(v.x, dist), y: p.y + scaled_delta(v.y, dist) }
}

/// The ship's velocity for one frame, derived from the held directional
/// actions: each held direction contributes -1 or 1 to an axis, and the
/// resulting direction is brought to unit length. When no direction is held
/// the velocity is exactly zero — the zero vector is never normalised, so no
/// degenerate direction can arise.
pub open spec fn input_velocity_spec(left: bool, right: bool, up: bool, down: bool) -> Vector {
    let dx = (if right { 1int } else { 0int }) - (if left { 1int } else { 0int });
    let dy = (if down { 1int } else { 0int }) - (if up { 1int } else { 0int });
    if dx == 0 && dy == 0 {
        Vector { x: 0, y: 0 }
    } else if dx == 0 {
        Vector { x: 0, y: (dy * UNIT) as i64 }
    } else if dy == 0 {
        Vector { x: (dx * UNIT) as i64, y: 0 }
    } else {
        Vector { x: (dx * DIAG) as i64, y: (dy * DIAG) as i64 }
    }
}

/// Compute the frame velocity for the held directional actions.
pub fn input_velocity(left: bool, right: bool, up: bool, down: bool) -> (v: Vector)
    ensures
        v == input_velocity_spec(left, right, up, down),
        v.wf(),
{
    let dx: i64 = (if right { 1i64 } else { 0i64 }) - (if left { 1i64 } else { 0i64 });
    let dy: i64 = (if down { 1i64 } else { 0i64 }) - (if up { 1i64 } else { 0i64 });
    if dx == 0 && dy == 0 {
        Vector { x: 0, y: 0 }
    } else if dx == 0 {
        Vector { x: 0, y: dy * UNIT }
    } else if dy == 0 {
        Vector { x: dx * UNIT, y: 0 }
    } else {
        Vector { x: dx * DIAG, y: dy * DIAG }
    }
}

/// No held direction means no motion: the derived velocity is the zero
/// vector, and a motion step with it leaves any position exactly unchanged,
/// whatever the travelled length.
pub proof fn lemma_zero_input_zero_motion(p: Point, dist: int)
    ensures
        input_velocity_spec(false, false, false, false) == (Vector { x: 0i64, y: 0i64 }),
        stepped_point_spec(p, input_velocity_spec(false, false, false, false), dist) == p,
{
}

} // verus!
