//! Entity positions and the derived draw anchor.

use vstd::prelude::*;
use crate::bounds::POS_LIMIT;
use crate::extent::{Extent, VisualExtent};
use crate::motion::Point;
use crate::numeric::half_nonneg;

verus! {

/// An entity with a position. The position is the centre of the entity's
/// sprite; hitboxes are centred on it and drawing starts half an extent up
/// and to the left of it.
pub trait Position {
    spec fn pos_spec(&self) -> Point;

    fn pos(&self) -> (p: Point)
        ensures
            p == self.pos_spec(),
    ;
}

/// The top-left corner of the entity's sprite: where the rendering
/// collaborator anchors the image.
pub open spec fn center_pos_spec(p: Point, e: Extent) -> Point {
    Point { x: (p.x - e.w as int / 2) as i64, y: (p.y - e.h as int / 2) as i64 }
}

/// An entity whose sprite's top-left draw anchor can be derived.
pub trait CenterPosition: Position + VisualExtent {
    fn center_pos(&self) -> (p: Point)
        requires
            self.pos_spec().wf(POS_LIMIT),
            self.extent_spec().wf(),
        ensures
            p == center_pos_spec(self.pos_spec(), self.extent_spec()),
    ;
}

impl<T: Position + VisualExtent> CenterPosition for T {
    fn center_pos(&self) -> (p: Point) {
        let pos = self.pos();
        let e = self.extent();
        let half_w = half_nonneg(e.w as i64);
        let half_h = half_nonneg(e.h as i64);
        Point { x: pos.x - half_w, y: pos.y - half_h }
    }
}

} // verus!
