//! Global fixed-point scales and the size limits that keep every arithmetic
//! step of the simulation inside 64-bit integers.

use vstd::prelude::*;

verus! {

/// Fixed-point "1.0" for velocities and per-kind multipliers: a velocity
/// component of 1000 is one unit of distance per unit of travelled length.
pub const UNIT: i64 = 1000;

/// Unit diagonal component: the integer part of 1000 / sqrt(2). A diagonal
/// direction (±707, ±707) has length within one per-mille of `UNIT`.
pub const DIAG: i64 = 707;

/// Stored entity positions stay within ±this many units (ten million pixels).
pub const POS_LIMIT: i64 = 10_000_000_000;

/// Within a frame, before culling restores `POS_LIMIT`, a position may
/// exceed it by up to one frame's worth of motion.
pub const MID_POS_LIMIT: i64 = 11_000_000_000;

/// Screen dimensions are at most this many units (one million pixels).
pub const SCREEN_LIMIT: i64 = 1_000_000_000;

/// Sprite extents are at most this many units (one hundred thousand pixels).
pub const EXTENT_LIMIT: u32 = 100_000_000;

/// Velocity components stay within ±this (ten times unit length).
pub const VEL_LIMIT: i64 = 10_000;

/// Speeds are at most this many pixels per second.
pub const SPEED_LIMIT: u32 = 10_000;

/// A frame's elapsed time is at most this many milliseconds (ten seconds).
pub const DT_LIMIT: u64 = 10_000;

/// A step distance (speed times elapsed time) is at most this many units:
/// the product of `SPEED_LIMIT` and `DT_LIMIT`.
pub const DIST_LIMIT: u64 = 100_000_000;

} // verus!
