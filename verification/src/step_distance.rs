//! The generic motion step: advance an entity's position by its stored
//! velocity over a travelled length.

use vstd::prelude::*;
use crate::bounds::{DIST_LIMIT, POS_LIMIT};
use crate::position::Position;
use crate::velocity::Velocity;

verus! {

/// An entity that moves by its stored velocity. A step changes the position
/// by the velocity scaled to the travelled length and nothing else.
pub trait StepDistance: Position + Velocity + Sized {
    /// The entity after a step over `dist` units of travelled length.
    spec fn stepped(self, dist: int) -> Self;

    fn step_distance(&mut self, dist: u64)
        requires
            old(self).pos_spec().wf(POS_LIMIT),
            old(self).velocity_spec().wf(),
            dist <= DIST_LIMIT,
        ensures
            *final(self) == old(self).stepped(dist as int),
    ;
}

} // verus!
