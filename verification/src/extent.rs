//! Visual extents: the width and height of an entity's sprite, handed in by
//! the rendering collaborator and used only to derive hitboxes and draw
//! anchors.

use vstd::prelude::*;
use crate::bounds::EXTENT_LIMIT;

verus! {

/// A sprite's width and height in units (thousandths of a pixel).
#[derive(Clone, Copy, Debug, PartialEq, Eq, Structural)]
pub struct Extent {
    pub w: u32,
    pub h: u32,
}

impl Extent {
    pub open spec fn wf(self) -> bool {
        self.w <= EXTENT_LIMIT && self.h <= EXTENT_LIMIT
    }

    /// Runtime check of `wf`, for callers outside the verified world.
    pub fn is_wf(&self) -> (b: bool)
        ensures
            b == self.wf(),
    {
        self.w <= EXTENT_LIMIT && self.h <= EXTENT_LIMIT
    }
}

/// An entity with a sprite whose size the simulation knows.
pub trait VisualExtent {
    spec fn extent_spec(&self) -> Extent;

    fn extent(&self) -> (e: Extent)
        ensures
            e == self.extent_spec(),
    ;
}

} // verus!
