//! Bounded health counters and saturating damage.

use vstd::prelude::*;

verus! {

/// `h` after taking `d` points of damage: saturating subtraction, so a fatal
/// hit leaves the counter at exactly zero and never wraps.
pub open spec fn apply_damage_spec(h: u16, d: u16) -> u16 {
    if d < h {
        (h - d) as u16
    } else {
        0u16
    }
}

/// Apply `d` points of damage to a health counter of `h`: the result is
/// `max(0, h - d)`.
pub fn apply_damage(h: u16, d: u16) -> (r: u16)
    ensures
        r == apply_damage_spec(h, d),
        r as int == vstd::math::max(0, h as int - d as int),
{
    if d < h {
        h - d
    } else {
        0
    }
}

/// Damage saturates: a dead counter stays at zero under any further damage.
pub proof fn lemma_dead_stays_dead(d: u16)
    ensures
        apply_damage_spec(0, d) == 0u16,
{
}

/// An entity with a bounded health counter. A well-formed counter never
/// exceeds the kind's maximum, and the entity is dead exactly when the
/// counter is zero.
pub trait Health: Sized {
    spec fn max_health_spec() -> u16;

    spec fn health_spec(&self) -> u16;

    /// The same entity with its health counter replaced and every other
    /// attribute unchanged.
    spec fn with_health(self, h: u16) -> Self;

    fn max_health() -> (m: u16)
        ensures
            m == Self::max_health_spec(),
    ;

    fn health(&self) -> (h: u16)
        ensures
            h == self.health_spec(),
    ;

    fn is_dead(&self) -> (d: bool)
        ensures
            d == (self.health_spec() == 0),
    ;
}

} // verus!
