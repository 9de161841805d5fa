//! Simulation core of a single-screen shoot-'em-up.
//!
//! The library advances a small set of moving entities (a player ship, a boss
//! "sky core", player lasers, boss bullets) each frame, resolves collisions,
//! applies damage, and drives a Playing/Frozen game state machine.
//!
//! All coordinates, sizes and distances are fixed-point integers measured in
//! thousandths of a pixel ("units"), so that sub-pixel motion is exact and
//! every step of the simulation has a precise arithmetic meaning. Velocities
//! are per-mille unit vectors (a length of 1000 is "one"), speeds are pixels
//! per second, and elapsed time is counted in milliseconds; with these scales
//! `speed * elapsed_ms` is exactly the distance travelled in units.
//!
//! Rendering, window handling and input polling are outside collaborators:
//! they hand the simulation an elapsed time, the set of held actions and the
//! screen size, and read back entity positions, hitboxes and health.

pub mod bounds;
pub mod bullet;
pub mod config;
pub mod damage;
pub mod extent;
pub mod game;
pub mod geometry;
pub mod health;
pub mod health_bar;
pub mod hitbox;
pub mod input;
pub mod laser;
pub mod motion;
pub mod numeric;
pub mod on_screen;
pub mod position;
pub mod rng;
pub mod round;
pub mod ship;
pub mod sky_core;
pub mod step_distance;
pub mod velocity;

pub use {
    bullet::Bullet,
    config::Config,
    damage::{Damage, TakeDamage},
    extent::{Extent, VisualExtent},
    game::{Game, GameState},
    geometry::{Rect, ScreenDims},
    health::Health,
    health_bar::HealthBar,
    hitbox::Hitbox,
    input::Input,
    laser::Laser,
    motion::{Point, Vector},
    on_screen::OnScreen,
    position::{CenterPosition, Position},
    round::Round,
    ship::Ship,
    sky_core::SkyCore,
    step_distance::StepDistance,
    velocity::Velocity,
};
