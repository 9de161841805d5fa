//! Per-kind damage constants and the act of taking damage.

use vstd::prelude::*;
use crate::health::{apply_damage_spec, Health};

verus! {

/// An entity kind that deals a fixed amount of damage on a hit.
pub trait Damage {
    spec fn damage_spec() -> u16;

    fn damage() -> (d: u16)
        ensures
            d == Self::damage_spec(),
    ;
}

/// An entity with health that can be hit by a damager: its health counter
/// drops by the damager kind's constant, saturating at zero, and nothing
/// else about the entity changes.
pub trait TakeDamage: Health {
    fn take_damage<D: Damage>(&mut self, damager: &D)
        ensures
            *final(self) == old(self).with_health(
                apply_damage_spec(old(self).health_spec(), D::damage_spec()),
            ),
    ;
}

} // verus!
