//! Entity velocities.

use vstd::prelude::*;
use crate::motion::Vector;

verus! {

/// An entity with a stored velocity.
pub trait Velocity {
    spec fn velocity_spec(&self) -> Vector;

    fn velocity(&self) -> (v: Vector)
        ensures
            v == self.velocity_spec(),
    ;
}

} // verus!
