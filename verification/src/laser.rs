//! The player's projectile: position only, moving up the screen by a fixed
//! speed each frame.

use vstd::prelude::*;
use crate::bounds::{DIST_LIMIT, POS_LIMIT};
use crate::damage::Damage;
use crate::extent::{Extent, VisualExtent};
use crate::geometry::Rect;
use crate::hitbox::{compute_hitbox, Hitbox, HitboxTuning};
use crate::motion::Point;
use crate::position::Position;

verus! {

/// Damage a laser deals to the sky core on a hit.
pub const LASER_DAMAGE: u16 = 1;

/// A player-fired laser. It has no stored velocity: each frame it rises by
/// the laser speed times the elapsed time.
#[derive(Clone, Copy, Debug, PartialEq, Eq, Structural)]
pub struct Laser {
    pub pos: Point,
    pub extent: Extent,
}

impl Laser {
    pub open spec fn wf(self) -> bool {
        self.pos.wf(POS_LIMIT) && self.extent.wf()
    }

    /// Runtime check of `wf`, for callers outside the verified world.
    pub fn is_wf(&self) -> (b: bool)
        ensures
            b == self.wf(),
    {
        self.pos.is_within(POS_LIMIT) && self.extent.is_wf()
    }

    /// Spawn a laser at `pos` with the given sprite extent.
    pub fn new(pos: Point, extent: Extent) -> (l: Laser)
        ensures
            l == (Laser { pos, extent }),
    {
        Laser { pos, extent }
    }

    /// The laser after rising `dist` units up the screen.
    pub open spec fn risen(self, dist: int) -> Laser {
        Laser { pos: Point { x: self.pos.x, y: (self.pos.y - dist) as i64 }, ..self }
    }

    /// Move the laser `dist` units up the screen (toward smaller y).
    pub fn rise(&mut self, dist: u64)
        requires
            old(self).pos.wf(POS_LIMIT),
            dist <= DIST_LIMIT,
        ensures
            *final(self) == old(self).risen(dist as int),
    {
        self.pos.y = self.pos.y - dist as i64;
    }
}

impl Position for Laser {
    open spec fn pos_spec(&self) -> Point {
        self.pos
    }

    fn pos(&self) -> (p: Point) {
        self.pos
    }
}

impl VisualExtent for Laser {
    open spec fn extent_spec(&self) -> Extent {
        self.extent
    }

    fn extent(&self) -> (e: Extent) {
        self.extent
    }
}

impl Damage for Laser {
    open spec fn damage_spec() -> u16 {
        LASER_DAMAGE
    }

    fn damage() -> (d: u16) {
        LASER_DAMAGE
    }
}

impl Hitbox for Laser {
    open spec fn tuning_spec() -> HitboxTuning {
        HitboxTuning { w_mul: 1000, h_mul: 1000, x_off_mul: 0, y_off_mul: 0 }
    }

    fn tuning() -> (t: HitboxTuning) {
        HitboxTuning { w_mul: 1000, h_mul: 1000, x_off_mul: 0, y_off_mul: 0 }
    }

    fn hitbox(&self) -> (r: Rect) {
        compute_hitbox(self.pos(), self.extent(), Self::tuning())
    }
}

} // verus!
