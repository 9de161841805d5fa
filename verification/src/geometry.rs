//! Axis-aligned rectangles and the strict overlap predicate.

use vstd::prelude::*;

verus! {

/// An axis-aligned box in screen space: origin top-left, y grows downward.
/// Coordinates and sizes are in units (thousandths of a pixel). It is used
/// only as a collision volume, never as stored entity state.
#[derive(Clone, Copy, Debug, PartialEq, Eq, Structural)]
pub struct Rect {
    pub x: i64,
    pub y: i64,
    pub w: i64,
    pub h: i64,
}

/// Two rectangles overlap when their projections intersect on both axes with
/// strict inequality: rectangles sharing only a boundary edge do not overlap.
pub open spec fn overlaps_spec(a: Rect, b: Rect) -> bool {
    &&& a.x < b.x + b.w
    &&& a.x + a.w > b.x
    &&& a.y < b.y + b.h
    &&& a.y + a.h > b.y
}

impl Rect {
    /// The strict overlap test. Computed in 128-bit arithmetic so that it is
    /// total over every representable rectangle.
    pub fn overlaps(&self, other: &Rect) -> (r: bool)
        ensures
            r == overlaps_spec(*self, *other),
    {
        let ax = self.x as i128;
        let ay = self.y as i128;
        let aw = self.w as i128;
        let ah = self.h as i128;
        let bx = other.x as i128;
        let by = other.y as i128;
        let bw = other.w as i128;
        let bh = other.h as i128;
        ax < bx + bw && ax + aw > bx && ay < by + bh && ay + ah > by
    }
}

/// The visible screen's size in units. It is re-read every frame from the
/// windowing collaborator, since the display may resize between frames.
#[derive(Clone, Copy, Debug, PartialEq, Eq, Structural)]
pub struct ScreenDims {
    pub w: i64,
    pub h: i64,
}

impl ScreenDims {
    pub open spec fn wf(self) -> bool {
        0 <= self.w <= crate::bounds::SCREEN_LIMIT && 0 <= self.h <= crate::bounds::SCREEN_LIMIT
    }

    /// Runtime check of `wf`, for callers outside the verified world.
    pub fn is_wf(&self) -> (b: bool)
        ensures
            b == self.wf(),
    {
        0 <= self.w && self.w <= crate::bounds::SCREEN_LIMIT && 0 <= self.h && self.h
            <= crate::bounds::SCREEN_LIMIT
    }

    /// The full-screen rectangle, against which entities are kept or culled.
    pub open spec fn rect_spec(self) -> Rect {
        Rect { x: 0, y: 0, w: self.w, h: self.h }
    }

    pub fn rect(&self) -> (r: Rect)
        ensures
            r == self.rect_spec(),
    {
        Rect { x: 0, y: 0, w: self.w, h: self.h }
    }
}

/// Overlap is symmetric: the test never depends on the order of its
/// arguments.
pub proof fn lemma_overlaps_symmetric(a: Rect, b: Rect)
    ensures
        overlaps_spec(a, b) == overlaps_spec(b, a),
{
}

} // verus!
