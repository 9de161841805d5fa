//! The immutable per-round configuration: speeds, cooldown, spawn policy
//! and the visual extents handed in by the rendering collaborator.

use vstd::prelude::*;
use crate::bounds::{SCREEN_LIMIT, SPEED_LIMIT};
use crate::extent::Extent;

verus! {

/// Everything the simulation is parameterised over. Passing it at
/// construction (rather than reading globals) lets tests vary any of it.
#[derive(Clone, Copy, Debug, PartialEq, Eq, Structural)]
pub struct Config {
    /// Ship speed in pixels per second.
    pub ship_speed: u32,
    /// Laser speed in pixels per second (upward).
    pub laser_speed: u32,
    /// Base bullet speed in pixels per second.
    pub bullet_speed: u32,
    /// Sky core descent speed in pixels per second.
    pub sky_core_speed: u32,
    /// Minimum time between player shots, in milliseconds.
    pub laser_cooldown_ms: u64,
    /// The ship spawns this many units above the screen's bottom edge.
    pub ship_offset_from_bottom: i64,
    /// Overlay fade-in per frozen frame, in per-mille of full opacity.
    pub overlay_alpha_step: u32,
    /// The sky core fires a bullet when a fair roll of this many sides
    /// lands on zero: one-in-N per frame.
    pub bullet_spawn_one_in: u64,
    pub ship_extent: Extent,
    pub sky_core_extent: Extent,
    pub laser_extent: Extent,
    pub bullet_extent: Extent,
}

impl Config {
    pub open spec fn wf(self) -> bool {
        &&& self.ship_speed <= SPEED_LIMIT
        &&& self.laser_speed <= SPEED_LIMIT
        &&& self.bullet_speed <= SPEED_LIMIT
        &&& self.sky_core_speed <= SPEED_LIMIT
        &&& 0 <= self.ship_offset_from_bottom <= SCREEN_LIMIT
        &&& self.overlay_alpha_step <= 1000
        &&& self.bullet_spawn_one_in >= 1
        &&& self.ship_extent.wf()
        &&& self.sky_core_extent.wf()
        &&& self.laser_extent.wf()
        &&& self.bullet_extent.wf()
    }

    /// Runtime check of `wf`, for callers outside the verified world.
    pub fn is_wf(&self) -> (b: bool)
        ensures
            b == self.wf(),
    {
        self.ship_speed <= SPEED_LIMIT && self.laser_speed <= SPEED_LIMIT && self.bullet_speed
            <= SPEED_LIMIT && self.sky_core_speed <= SPEED_LIMIT && 0
            <= self.ship_offset_from_bottom && self.ship_offset_from_bottom <= SCREEN_LIMIT
            && self.overlay_alpha_step <= 1000 && self.bullet_spawn_one_in >= 1
            && self.ship_extent.is_wf() && self.sky_core_extent.is_wf()
            && self.laser_extent.is_wf() && self.bullet_extent.is_wf()
    }

    /// The standard game tuning, with the caller's sprite extents.
    pub fn standard(
        ship_extent: Extent,
        sky_core_extent: Extent,
        laser_extent: Extent,
        bullet_extent: Extent,
    ) -> (c: Config)
        requires
            ship_extent.wf(),
            sky_core_extent.wf(),
            laser_extent.wf(),
            bullet_extent.wf(),
        ensures
            c == (Config {
                ship_speed: 200,
                laser_speed: 900,
                bullet_speed: 100,
                sky_core_speed: 10,
                laser_cooldown_ms: 250,
                ship_offset_from_bottom: 100_000,
                overlay_alpha_step: 10,
                bullet_spawn_one_in: 2,
                ship_extent,
                sky_core_extent,
                laser_extent,
                bullet_extent,
            }),
            c.wf(),
    {
        Config {
            ship_speed: 200,
            laser_speed: 900,
            bullet_speed: 100,
            sky_core_speed: 10,
            laser_cooldown_ms: 250,
            ship_offset_from_bottom: 100_000,
            overlay_alpha_step: 10,
            bullet_spawn_one_in: 2,
            ship_extent,
            sky_core_extent,
            laser_extent,
            bullet_extent,
        }
    }
}

} // verus!
