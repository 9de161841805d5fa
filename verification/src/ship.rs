//! The player's ship: position, per-frame velocity from input, bounded
//! health, clamped to the screen.

use vstd::prelude::*;
use crate::bounds::{POS_LIMIT, UNIT};
use crate::damage::{Damage, TakeDamage};
use crate::extent::{Extent, VisualExtent};
use crate::geometry::{Rect, ScreenDims};
use crate::health::{apply_damage, Health};
use crate::hitbox::{compute_hitbox, Hitbox, HitboxTuning};
use crate::laser::Laser;
use crate::motion::{stepped_point_spec, step_point, Point, Vector};
use crate::numeric::{clamp_i64, clamp_spec};
use crate::position::Position;
use crate::step_distance::StepDistance;
use crate::velocity::Velocity;

verus! {

/// The ship starts each round with this much health.
pub const SHIP_MAX_HEALTH: u16 = 10;

/// The player's ship.
#[derive(Clone, Copy, Debug, PartialEq, Eq, Structural)]
pub struct Ship {
    pub pos: Point,
    pub velocity: Vector,
    pub extent: Extent,
    pub health: u16,
}

impl Ship {
    pub open spec fn wf(self) -> bool {
        &&& self.pos.wf(POS_LIMIT)
        &&& self.velocity.wf()
        &&& self.extent.wf()
        &&& self.health <= SHIP_MAX_HEALTH
    }

    /// Runtime check of `wf`, for callers outside the verified world.
    pub fn is_wf(&self) -> (b: bool)
        ensures
            b == self.wf(),
    {
        self.pos.is_within(POS_LIMIT) && self.velocity.is_wf() && self.extent.is_wf()
            && self.health <= SHIP_MAX_HEALTH
    }

    /// A fresh ship at `pos` with full health, initially headed down.
    pub fn new(pos: Point, extent: Extent) -> (s: Ship)
        ensures
            s == (Ship {
                pos,
                velocity: Vector { x: 0, y: UNIT },
                extent,
                health: SHIP_MAX_HEALTH,
            }),
    {
        Ship { pos, velocity: Vector { x: 0, y: UNIT }, extent, health: SHIP_MAX_HEALTH }
    }

    /// Fire: a new laser spawned at the ship's current position.
    pub fn shoot(&self, laser_extent: Extent) -> (l: Laser)
        ensures
            l == (Laser { pos: self.pos, extent: laser_extent }),
    {
        Laser::new(self.pos, laser_extent)
    }

    /// The ship with its anchor point forced back onto the screen. Only the
    /// anchor is clamped, not the hitbox, so the sprite may extend a little
    /// past an edge.
    pub open spec fn clamped_to(self, screen: ScreenDims) -> Ship {
        Ship {
            pos: Point {
                x: clamp_spec(self.pos.x as int, 0, screen.w as int) as i64,
                y: clamp_spec(self.pos.y as int, 0, screen.h as int) as i64,
            },
            ..self
        }
    }

    /// Clamp the ship's position to the screen.
    pub fn clamp_pos_to_screen(&mut self, screen: ScreenDims)
        requires
            screen.wf(),
        ensures
            *final(self) == old(self).clamped_to(screen),
    {
        self.pos.x = clamp_i64(self.pos.x, 0, screen.w);
        self.pos.y = clamp_i64(self.pos.y, 0, screen.h);
    }
}

impl Position for Ship {
    open spec fn pos_spec(&self) -> Point {
        self.pos
    }

    fn pos(&self) -> (p: Point) {
        self.pos
    }
}

impl Velocity for Ship {
    open spec fn velocity_spec(&self) -> Vector {
        self.velocity
    }

    fn velocity(&self) -> (v: Vector) {
        self.velocity
    }
}

impl VisualExtent for Ship {
    open spec fn extent_spec(&self) -> Extent {
        self.extent
    }

    fn extent(&self) -> (e: Extent) {
        self.extent
    }
}

impl Health for Ship {
    open spec fn max_health_spec() -> u16 {
        SHIP_MAX_HEALTH
    }

    open spec fn health_spec(&self) -> u16 {
        self.health
    }

    open spec fn with_health(self, h: u16) -> Ship {
        Ship { health: h, ..self }
    }

    fn max_health() -> (m: u16) {
        SHIP_MAX_HEALTH
    }

    fn health(&self) -> (h: u16) {
        self.health
    }

    fn is_dead(&self) -> (d: bool) {
        self.health == 0
    }
}

impl TakeDamage for Ship {
    fn take_damage<D: Damage>(&mut self, damager: &D) {
        self.health = apply_damage(self.health, D::damage());
    }
}

impl StepDistance for Ship {
    open spec fn stepped(self, dist: int) -> Ship {
        Ship { pos: stepped_point_spec(self.pos, self.velocity, dist), ..self }
    }

    fn step_distance(&mut self, dist: u64) {
        self.pos = step_point(self.pos, self.velocity, dist);
    }
}

impl Hitbox for Ship {
    open spec fn tuning_spec() -> HitboxTuning {
        HitboxTuning { w_mul: 500, h_mul: 400, x_off_mul: 0, y_off_mul: 50 }
    }

    fn tuning() -> (t: HitboxTuning) {
        HitboxTuning { w_mul: 500, h_mul: 400, x_off_mul: 0, y_off_mul: 50 }
    }

    fn hitbox(&self) -> (r: Rect) {
        compute_hitbox(self.pos(), self.extent(), Self::tuning())
    }
}

} // verus!
