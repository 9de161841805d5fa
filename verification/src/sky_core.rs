//! The boss "sky core": spawns at the top centre, marches down to the
//! screen's vertical centre, and fires bullets.

use vstd::prelude::*;
use crate::bounds::{POS_LIMIT, UNIT};
use crate::bullet::{bullet_velocity_spec, Bullet, DIR_SAMPLE_LIMIT, MAG_SAMPLE_MAX, MAG_SAMPLE_MIN};
use crate::damage::{Damage, TakeDamage};
use crate::extent::{Extent, VisualExtent};
use crate::geometry::{Rect, ScreenDims};
use crate::health::{apply_damage, Health};
use crate::hitbox::{compute_hitbox, Hitbox, HitboxTuning};
use crate::motion::{stepped_point_spec, step_point, Point, Vector};
use crate::numeric::half_nonneg;
use crate::position::Position;
use crate::step_distance::StepDistance;
use crate::velocity::Velocity;

verus! {

/// The sky core starts each round with this much health.
pub const SKY_CORE_MAX_HEALTH: u16 = 500;

/// The boss.
#[derive(Clone, Copy, Debug, PartialEq, Eq, Structural)]
pub struct SkyCore {
    pub pos: Point,
    pub velocity: Vector,
    pub extent: Extent,
    pub health: u16,
}

impl SkyCore {
    pub open spec fn wf(self) -> bool {
        &&& self.pos.wf(POS_LIMIT)
        &&& self.velocity.wf()
        &&& self.extent.wf()
        &&& self.health <= SKY_CORE_MAX_HEALTH
    }

    /// Runtime check of `wf`, for callers outside the verified world.
    pub fn is_wf(&self) -> (b: bool)
        ensures
            b == self.wf(),
    {
        self.pos.is_within(POS_LIMIT) && self.velocity.is_wf() && self.extent.is_wf()
            && self.health <= SKY_CORE_MAX_HEALTH
    }

    /// A fresh sky core at the top centre of the screen, moving down, with
    /// full health.
    pub fn new(screen: ScreenDims, extent: Extent) -> (c: SkyCore)
        requires
            screen.wf(),
        ensures
            c == (SkyCore {
                pos: Point { x: (screen.w as int / 2) as i64, y: 0 },
                velocity: Vector { x: 0, y: UNIT },
                extent,
                health: SKY_CORE_MAX_HEALTH,
            }),
    {
        SkyCore {
            pos: Point { x: half_nonneg(screen.w), y: 0 },
            velocity: Vector { x: 0, y: UNIT },
            extent,
            health: SKY_CORE_MAX_HEALTH,
        }
    }

    /// Fire: a new bullet spawned at the core's current position, with a
    /// velocity computed from the raw random samples.
    pub fn shoot(&self, bullet_extent: Extent, dx: i64, dy: i64, mag: i64) -> (b: Bullet)
        requires
            -DIR_SAMPLE_LIMIT <= dx <= DIR_SAMPLE_LIMIT,
            -DIR_SAMPLE_LIMIT <= dy <= DIR_SAMPLE_LIMIT,
            MAG_SAMPLE_MIN <= mag <= MAG_SAMPLE_MAX,
        ensures
            b == (Bullet {
                pos: self.pos,
                velocity: bullet_velocity_spec(dx as int, dy as int, mag as int),
                extent: bullet_extent,
            }),
            (mag - 3) * (mag - 3) <= b.velocity.x * b.velocity.x + b.velocity.y * b.velocity.y
                <= (mag + 2) * (mag + 2),
            b.velocity.wf(),
    {
        Bullet::new(self.pos, bullet_extent, dx, dy, mag)
    }
}

impl Position for SkyCore {
    open spec fn pos_spec(&self) -> Point {
        self.pos
    }

    fn pos(&self) -> (p: Point) {
        self.pos
    }
}

impl Velocity for SkyCore {
    open spec fn velocity_spec(&self) -> Vector {
        self.velocity
    }

    fn velocity(&self) -> (v: Vector) {
        self.velocity
    }
}

impl VisualExtent for SkyCore {
    open spec fn extent_spec(&self) -> Extent {
        self.extent
    }

    fn extent(&self) -> (e: Extent) {
        self.extent
    }
}

impl Health for SkyCore {
    open spec fn max_health_spec() -> u16 {
        SKY_CORE_MAX_HEALTH
    }

    open spec fn health_spec(&self) -> u16 {
        self.health
    }

    open spec fn with_health(self, h: u16) -> SkyCore {
        SkyCore { health: h, ..self }
    }

    fn max_health() -> (m: u16) {
        SKY_CORE_MAX_HEALTH
    }

    fn health(&self) -> (h: u16) {
        self.health
    }

    fn is_dead(&self) -> (d: bool) {
        self.health == 0
    }
}

impl TakeDamage for SkyCore {
    fn take_damage<D: Damage>(&mut self, damager: &D) {
        self.health = apply_damage(self.health, D::damage());
    }
}

impl StepDistance for SkyCore {
    open spec fn stepped(self, dist: int) -> SkyCore {
        SkyCore { pos: stepped_point_spec(self.pos, self.velocity, dist), ..self }
    }

    fn step_distance(&mut self, dist: u64) {
        self.pos = step_point(self.pos, self.velocity, dist);
    }
}

impl Hitbox for SkyCore {
    open spec fn tuning_spec() -> HitboxTuning {
        HitboxTuning { w_mul: 1000, h_mul: 1000, x_off_mul: 0, y_off_mul: 0 }
    }

    fn tuning() -> (t: HitboxTuning) {
        HitboxTuning { w_mul: 1000, h_mul: 1000, x_off_mul: 0, y_off_mul: 0 }
    }

    fn hitbox(&self) -> (r: Rect) {
        compute_hitbox(self.pos(), self.extent(), Self::tuning())
    }
}

} // verus!
