//! Hitboxes: collision rectangles derived from a position, a visual extent
//! and per-kind scale and offset multipliers.

use vstd::prelude::*;
use crate::extent::{Extent, VisualExtent};
use crate::geometry::Rect;
use crate::motion::Point;
use crate::numeric::half_nonneg;
use crate::position::Position;

verus! {

/// Positions handed to hitbox computations may exceed the stored-position
/// bound by a whole frame's worth of motion, so the requirement here is
/// looser than `POS_LIMIT`.
pub const HITBOX_POS_LIMIT: i64 = 100_000_000_000;

/// Per-kind hitbox multipliers, in per-mille: the box is the visual extent
/// scaled by `w_mul` and `h_mul`, centred on the entity's position shifted
/// by the offsets. Offsets are measured in per-mille of the sprite width,
/// for both axes alike.
#[derive(Clone, Copy, Debug, PartialEq, Eq, Structural)]
pub struct HitboxTuning {
    pub w_mul: u32,
    pub h_mul: u32,
    pub x_off_mul: u32,
    pub y_off_mul: u32,
}

impl HitboxTuning {
    /// Multipliers never enlarge beyond the sprite itself.
    pub open spec fn wf(self) -> bool {
        self.w_mul <= 1000 && self.h_mul <= 1000 && self.x_off_mul <= 1000
            && self.y_off_mul <= 1000
    }
}

/// A length scaled by a per-mille multiplier, rounded down.
pub open spec fn scaled_len_spec(len: u32, mul: u32) -> int {
    (len as int * mul as int) / 1000
}

/// The collision rectangle: the extent scaled per kind, centred on the
/// position, shifted by the per-kind offsets.
pub open spec fn hitbox_spec(p: Point, e: Extent, t: HitboxTuning) -> Rect {
    let w = scaled_len_spec(e.w, t.w_mul);
    let h = scaled_len_spec(e.h, t.h_mul);
    let x_off = scaled_len_spec(e.w, t.x_off_mul);
    let y_off = scaled_len_spec(e.w, t.y_off_mul);
    Rect {
        x: (p.x - w / 2 + x_off) as i64,
        y: (p.y - h / 2 + y_off) as i64,
        w: w as i64,
        h: h as i64,
    }
}

/// A length scaled by a per-mille multiplier.
fn scaled_len(len: u32, mul: u32) -> (r: i64)
    requires
        mul <= 1000,
    ensures
        r == scaled_len_spec(len, mul),
        0 <= r <= len,
{
    proof {
        assert(len as int * mul as int <= len as int * 1000) by (nonlinear_arith)
            requires
                0 <= len,
                0 <= mul <= 1000,
        ;
    }
    let r = (len as u64) * (mul as u64) / 1000;
    r as i64
}

/// Compute the collision rectangle for a position, an extent and a kind's
/// tuning.
pub fn compute_hitbox(p: Point, e: Extent, t: HitboxTuning) -> (r: Rect)
    requires
        p.wf(HITBOX_POS_LIMIT),
        e.wf(),
        t.wf(),
    ensures
        r == hitbox_spec(p, e, t),
{
    let w = scaled_len(e.w, t.w_mul);
    let h = scaled_len(e.h, t.h_mul);
    let x_off = scaled_len(e.w, t.x_off_mul);
    let y_off = scaled_len(e.w, t.y_off_mul);
    Rect {
        x: p.x - half_nonneg(w) + x_off,
        y: p.y - half_nonneg(h) + y_off,
        w,
        h,
    }
}

/// A hitbox stays close to its position: its sides never exceed the extent,
/// and its corner lies within one extent of the position. This is what lets
/// an entity whose hitbox still touches the screen be bounded by the screen.
pub proof fn lemma_hitbox_bounds(p: Point, e: Extent, t: HitboxTuning)
    requires
        p.wf(HITBOX_POS_LIMIT),
        e.wf(),
        t.wf(),
    ensures
        0 <= hitbox_spec(p, e, t).w <= e.w,
        0 <= hitbox_spec(p, e, t).h <= e.h,
        p.x - e.w <= hitbox_spec(p, e, t).x <= p.x + e.w,
        p.y - e.h <= hitbox_spec(p, e, t).y <= p.y + e.w,
{
    lemma_scaled_len_bounds(e.w, t.w_mul);
    lemma_scaled_len_bounds(e.h, t.h_mul);
    lemma_scaled_len_bounds(e.w, t.x_off_mul);
    lemma_scaled_len_bounds(e.w, t.y_off_mul);
}

/// A per-mille multiplier of at most 1000 never grows a length.
pub proof fn lemma_scaled_len_bounds(len: u32, mul: u32)
    requires
        mul <= 1000,
    ensures
        0 <= scaled_len_spec(len, mul) <= len,
{
    assert(0 <= len as int * mul as int <= len as int * 1000) by (nonlinear_arith)
        requires
            0 <= len,
            0 <= mul <= 1000,
    ;
    vstd::arithmetic::div_mod::lemma_div_is_ordered(
        len as int * mul as int,
        len as int * 1000,
        1000,
    );
    vstd::arithmetic::div_mod::lemma_div_by_multiple(len as int, 1000);
    vstd::arithmetic::div_mod::lemma_div_pos_is_pos(len as int * mul as int, 1000);
}

/// An entity with a collision rectangle.
pub trait Hitbox: Position + VisualExtent {
    /// The kind's scale and offset multipliers.
    spec fn tuning_spec() -> HitboxTuning;

    fn tuning() -> (t: HitboxTuning)
        ensures
            t == Self::tuning_spec(),
    ;

    fn hitbox(&self) -> (r: Rect)
        requires
            self.pos_spec().wf(HITBOX_POS_LIMIT),
            self.extent_spec().wf(),
        ensures
            r == hitbox_spec(self.pos_spec(), self.extent_spec(), Self::tuning_spec()),
    ;
}

} // verus!
