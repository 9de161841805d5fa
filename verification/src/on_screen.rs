//! The on-screen test: whether an entity's hitbox still overlaps the
//! visible screen rectangle.

use vstd::prelude::*;
use crate::geometry::{overlaps_spec, Rect};
use crate::hitbox::{hitbox_spec, Hitbox, HITBOX_POS_LIMIT};

verus! {

/// An entity that can be tested against the screen rectangle. An entity is
/// on screen exactly when its hitbox strictly overlaps the screen.
pub trait OnScreen: Hitbox {
    fn is_on_screen(&self, screen: Rect) -> (r: bool)
        requires
            self.pos_spec().wf(HITBOX_POS_LIMIT),
            self.extent_spec().wf(),
        ensures
            r == overlaps_spec(
                hitbox_spec(self.pos_spec(), self.extent_spec(), Self::tuning_spec()),
                screen,
            ),
    ;
}

impl<T: Hitbox> OnScreen for T {
    fn is_on_screen(&self, screen: Rect) -> (r: bool) {
        self.hitbox().overlaps(&screen)
    }
}

} // verus!
