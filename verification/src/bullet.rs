//! The boss's projectile: spawned with a randomised velocity, moving by the
//! generic motion step.

use vstd::prelude::*;
use vstd::arithmetic::div_mod::{lemma_div_by_multiple, lemma_div_is_ordered, lemma_fundamental_div_mod};
use crate::bounds::POS_LIMIT;
use crate::damage::Damage;
use crate::extent::{Extent, VisualExtent};
use crate::geometry::Rect;
use crate::hitbox::{compute_hitbox, Hitbox, HitboxTuning};
use crate::motion::{stepped_point_spec, step_point, Point, Vector};
use crate::numeric::{isqrt_u64, sqrt_floor};
use crate::position::Position;
use crate::step_distance::StepDistance;
use crate::velocity::Velocity;

verus! {

/// Damage a bullet deals to the ship on a hit.
pub const BULLET_DAMAGE: u16 = 1;

/// Raw direction samples at spawn are per-mille components in `[-1000, 1000]`.
pub const DIR_SAMPLE_LIMIT: i64 = 1000;

/// The randomised speed multiplier at spawn lies in `[500, 2000)` per-mille:
/// between half and twice the base speed.
pub const MAG_SAMPLE_MIN: i64 = 500;
pub const MAG_SAMPLE_MAX: i64 = 2000;

/// One component of the spawn velocity: the raw component `c` scaled by
/// `mag` and divided by the direction's per-mille length `len`, magnitude
/// rounded toward zero. `c` is first scaled by 1000 so that the division
/// works at the same per-mille precision as `len`.
pub open spec fn scaled_component_spec(c: int, mag: int, len: int) -> i64 {
    if c >= 0 {
        ((1000 * c * mag) / len) as i64
    } else {
        (-((1000 * (-c) * mag) / len)) as i64
    }
}

/// The spawn velocity for raw direction samples `(dx, dy)` and speed sample
/// `mag`: the direction is brought to unit length (so the speed of every
/// bullet starts from the same base) and then scaled by `mag` per-mille.
/// The direction's length is computed at per-mille precision — the integer
/// square root of a million times the squared length — so the speed of the
/// result stays within rounding of `mag` even for the shortest samples.
/// A zero direction sample cannot be normalised; that draw degenerates to
/// straight down the screen at speed `mag`.
pub open spec fn bullet_velocity_spec(dx: int, dy: int, mag: int) -> Vector {
    let len = sqrt_floor((1_000_000 * (dx * dx + dy * dy)) as nat) as int;
    if len == 0 {
        Vector { x: 0, y: mag as i64 }
    } else {
        Vector {
            x: scaled_component_spec(dx, mag, len),
            y: scaled_component_spec(dy, mag, len),
        }
    }
}

/// Normalising at per-mille precision keeps the spawn speed within
/// rounding of the drawn magnitude: for a non-zero direction sample whose
/// per-mille length is `len`, the squared speed of the scaled components
/// lies between `(mag - 3)^2` and `(mag + 2)^2`. `a` and `b` are the
/// magnitudes of the two scaled components, `ax` and `ay` the per-mille
/// magnitudes of the raw components.
#[verifier::rlimit(80)]
proof fn lemma_speed_envelope(ax: int, ay: int, mag: int, len: int, a: int, b: int)
    requires
        0 <= ax,
        0 <= ay,
        len >= 1000,
        len * len <= ax * ax + ay * ay < (len + 1) * (len + 1),
        500 <= mag <= 2000,
        a == (ax * mag) / len,
        b == (ay * mag) / len,
    ensures
        (mag - 3) * (mag - 3) <= a * a + b * b <= (mag + 2) * (mag + 2),
{
    lemma_fundamental_div_mod(ax * mag, len);
    lemma_fundamental_div_mod(ay * mag, len);
    assert(0 <= ax * mag && 0 <= ay * mag) by (nonlinear_arith)
        requires
            0 <= ax,
            0 <= ay,
            0 <= mag,
    ;
    vstd::arithmetic::div_mod::lemma_div_pos_is_pos(ax * mag, len);
    vstd::arithmetic::div_mod::lemma_div_pos_is_pos(ay * mag, len);
    let n = ax * ax + ay * ay;
    // The division's defining inequalities for each component.
    assert(len * a <= ax * mag < len * a + len);
    assert(len * b <= ay * mag < len * b + len);
    // Upper bound: (len a)^2 + (len b)^2 <= mag^2 n < mag^2 (len+1)^2,
    // and 1000 (len+1) <= 1001 len, so a^2 + b^2 < ((1001/1000) mag)^2
    // <= (mag + 2)^2.
    assert(len * len * (a * a + b * b) <= mag * mag * n) by (nonlinear_arith)
        requires
            0 <= len * a <= ax * mag,
            0 <= len * b <= ay * mag,
            n == ax * ax + ay * ay,
    ;
    assert(1_000_000 * (mag * mag * n) < (1001 * mag) * (1001 * mag) * (len * len))
        by (nonlinear_arith)
        requires
            n < (len + 1) * (len + 1),
            1000 * (len + 1) <= 1001 * len,
            0 < mag,
            0 < len,
    ;
    assert(1_000_000 * (a * a + b * b) < (1001 * mag) * (1001 * mag)) by (nonlinear_arith)
        requires
            1_000_000 * (len * len * (a * a + b * b)) < (1001 * mag) * (1001 * mag) * (len
                * len),
            0 < len,
    ;
    assert(a * a + b * b <= (mag + 2) * (mag + 2)) by (nonlinear_arith)
        requires
            1_000_000 * (a * a + b * b) < (1001 * mag) * (1001 * mag),
            1001 * mag <= 1000 * (mag + 2),
            0 < mag,
    ;
    // Lower bound: each flooring loses at most one, so
    // (len a)^2 >= (ax mag)^2 - 2 len (ax mag), and the cross terms are
    // bounded through 2 (ax + ay) <= 3 len + 2.
    assert((len * a) * (len * a) >= (ax * mag) * (ax * mag) - 2 * len * (ax * mag))
        by (nonlinear_arith)
        requires
            len * a > ax * mag - len,
            0 <= len * a,
            0 <= ax * mag,
            0 < len,
    ;
    assert((len * b) * (len * b) >= (ay * mag) * (ay * mag) - 2 * len * (ay * mag))
        by (nonlinear_arith)
        requires
            len * b > ay * mag - len,
            0 <= len * b,
            0 <= ay * mag,
            0 < len,
    ;
    assert(2 * (ax + ay) <= 3 * len + 2) by (nonlinear_arith)
        requires
            0 <= ax,
            0 <= ay,
            ax * ax + ay * ay < (len + 1) * (len + 1),
            0 < len,
    ;
    assert(len * len * (a * a) + 2 * len * mag * ax >= mag * mag * (ax * ax))
        by (nonlinear_arith)
        requires
            (len * a) * (len * a) >= (ax * mag) * (ax * mag) - 2 * len * (ax * mag),
    ;
    assert(len * len * (b * b) + 2 * len * mag * ay >= mag * mag * (ay * ay))
        by (nonlinear_arith)
        requires
            (len * b) * (len * b) >= (ay * mag) * (ay * mag) - 2 * len * (ay * mag),
    ;
    assert(len * len * (a * a + b * b) + 2 * len * mag * (ax + ay) >= mag * mag * n)
        by (nonlinear_arith)
        requires
            len * len * (a * a) + 2 * len * mag * ax >= mag * mag * (ax * ax),
            len * len * (b * b) + 2 * len * mag * ay >= mag * mag * (ay * ay),
            n == ax * ax + ay * ay,
    ;
    assert(len * len * (a * a + b * b) >= mag * mag * n - len * mag * (3 * len + 2))
        by (nonlinear_arith)
        requires
            len * len * (a * a + b * b) + 2 * len * mag * (ax + ay) >= mag * mag * n,
            2 * (ax + ay) <= 3 * len + 2,
            0 < len,
            0 < mag,
    ;
    assert(1000 * (a * a + b * b) >= 1000 * (mag * mag) - 3002 * mag) by (nonlinear_arith)
        requires
            len * len * (a * a + b * b) >= mag * mag * n - len * mag * (3 * len + 2),
            len * len <= n,
            1000 <= len,
            0 < mag,
    ;
    assert((mag - 3) * (mag - 3) <= a * a + b * b) by (nonlinear_arith)
        requires
            1000 * (a * a + b * b) >= 1000 * (mag * mag) - 3002 * mag,
            500 <= mag,
    ;
}

/// One component of the spawn velocity.
fn scaled_component(c: i64, mag: i64, len: u64) -> (r: i64)
    requires
        1000 <= len <= 1_500_000,
        -(len as int) <= 1000 * c <= len as int,
        MAG_SAMPLE_MIN <= mag <= MAG_SAMPLE_MAX,
    ensures
        r == scaled_component_spec(c as int, mag as int, len as int),
        c >= 0 ==> r == (1000 * c * mag) / (len as int),
        c < 0 ==> r == -((1000 * (-c) * mag) / (len as int)),
        -mag <= r <= mag,
{
    proof {
        let a = if c >= 0 { 1000 * c as int } else { 1000 * (-c as int) };
        assert(a * mag <= len as int * mag && a * mag <= 3_000_000_000) by (nonlinear_arith)
            requires
                0 <= a <= len as int,
                len <= 1_500_000,
                0 <= mag <= 2000,
        ;
        lemma_div_is_ordered(a * mag, len as int * mag, len as int);
        lemma_div_by_multiple(mag as int, len as int);
    }
    if c >= 0 {
        let m = 1000 * (c as u64) * (mag as u64) / len;
        m as i64
    } else {
        let m = 1000 * ((-c) as u64) * (mag as u64) / len;
        -(m as i64)
    }
}

/// Compute the spawn velocity from the raw random samples. Its speed
/// (squared) stays within rounding of the drawn magnitude: between
/// `(mag - 3)^2` and `(mag + 2)^2` per-mille of the base speed.
pub fn bullet_velocity(dx: i64, dy: i64, mag: i64) -> (v: Vector)
    requires
        -DIR_SAMPLE_LIMIT <= dx <= DIR_SAMPLE_LIMIT,
        -DIR_SAMPLE_LIMIT <= dy <= DIR_SAMPLE_LIMIT,
        MAG_SAMPLE_MIN <= mag <= MAG_SAMPLE_MAX,
    ensures
        v == bullet_velocity_spec(dx as int, dy as int, mag as int),
        -mag <= v.x <= mag,
        -mag <= v.y <= mag,
        (mag - 3) * (mag - 3) <= v.x * v.x + v.y * v.y <= (mag + 2) * (mag + 2),
        v.wf(),
{
    proof {
        assert(dx * dx <= 1_000_000 && 0 <= dx * dx) by (nonlinear_arith)
            requires
                -1000 <= dx <= 1000,
        ;
        assert(dy * dy <= 1_000_000 && 0 <= dy * dy) by (nonlinear_arith)
            requires
                -1000 <= dy <= 1000,
        ;
    }
    let n = (dx * dx + dy * dy) as u64;
    let scaled_n = 1_000_000 * n;
    let len = isqrt_u64(scaled_n);
    if len == 0 {
        proof {
            assert(n == 0);
            assert(mag * mag <= (mag + 2) * (mag + 2) && (mag - 3) * (mag - 3) <= mag * mag)
                by (nonlinear_arith)
                requires
                    500 <= mag <= 2000,
            ;
        }
        Vector { x: 0, y: mag }
    } else {
        proof {
            assert(len >= 1000) by (nonlinear_arith)
                requires
                    scaled_n < (len as int + 1) * (len as int + 1),
                    scaled_n >= 1_000_000,
                    0 <= len,
            ;
            assert(len <= 1_500_000) by (nonlinear_arith)
                requires
                    len as int * len as int <= scaled_n,
                    0 <= scaled_n <= 2_000_000_000_000,
                    0 <= len,
            ;
            assert((1000 * dx) * (1000 * dx) + (1000 * dy) * (1000 * dy) == scaled_n)
                by (nonlinear_arith)
                requires
                    scaled_n == 1_000_000 * (dx * dx + dy * dy),
            ;
            assert(0 <= (1000 * dx) * (1000 * dx) && 0 <= (1000 * dy) * (1000 * dy))
                by (nonlinear_arith);
            assert(-(len as int) <= 1000 * dx <= len as int) by (nonlinear_arith)
                requires
                    (1000 * dx) * (1000 * dx) <= scaled_n,
                    scaled_n < (len as int + 1) * (len as int + 1),
                    0 <= len,
            ;
            assert(-(len as int) <= 1000 * dy <= len as int) by (nonlinear_arith)
                requires
                    (1000 * dy) * (1000 * dy) <= scaled_n,
                    scaled_n < (len as int + 1) * (len as int + 1),
                    0 <= len,
            ;
        }
        let x = scaled_component(dx, mag, len);
        let y = scaled_component(dy, mag, len);
        proof {
            let ax = if dx >= 0 { 1000 * dx as int } else { 1000 * (-dx as int) };
            let ay = if dy >= 0 { 1000 * dy as int } else { 1000 * (-dy as int) };
            let a = (ax * (mag as int)) / (len as int);
            let b = (ay * (mag as int)) / (len as int);
            assert(ax * ax + ay * ay == scaled_n) by (nonlinear_arith)
                requires
                    (1000 * dx) * (1000 * dx) + (1000 * dy) * (1000 * dy) == scaled_n,
                    ax == if dx >= 0 { 1000 * dx as int } else { 1000 * (-dx as int) },
                    ay == if dy >= 0 { 1000 * dy as int } else { 1000 * (-dy as int) },
            ;
            lemma_speed_envelope(ax, ay, mag as int, len as int, a, b);
            assert(x * x == a * a && y * y == b * b) by (nonlinear_arith)
                requires
                    x == a || x == -a,
                    y == b || y == -b,
            ;
        }
        Vector { x, y }
    }
}

/// A boss-fired bullet with a stored velocity fixed at spawn.
#[derive(Clone, Copy, Debug, PartialEq, Eq, Structural)]
pub struct Bullet {
    pub pos: Point,
    pub velocity: Vector,
    pub extent: Extent,
}

impl Bullet {
    pub open spec fn wf(self) -> bool {
        self.pos.wf(POS_LIMIT) && self.velocity.wf() && self.extent.wf()
    }

    /// Runtime check of `wf`, for callers outside the verified world.
    pub fn is_wf(&self) -> (b: bool)
        ensures
            b == self.wf(),
    {
        self.pos.is_within(POS_LIMIT) && self.velocity.is_wf() && self.extent.is_wf()
    }

    /// Spawn a bullet at `pos` whose velocity is computed from the raw
    /// random direction and speed samples.
    pub fn new(pos: Point, extent: Extent, dx: i64, dy: i64, mag: i64) -> (b: Bullet)
        requires
            -DIR_SAMPLE_LIMIT <= dx <= DIR_SAMPLE_LIMIT,
            -DIR_SAMPLE_LIMIT <= dy <= DIR_SAMPLE_LIMIT,
            MAG_SAMPLE_MIN <= mag <= MAG_SAMPLE_MAX,
        ensures
            b == (Bullet {
                pos,
                velocity: bullet_velocity_spec(dx as int, dy as int, mag as int),
                extent,
            }),
            -mag <= b.velocity.x <= mag,
            -mag <= b.velocity.y <= mag,
            (mag - 3) * (mag - 3) <= b.velocity.x * b.velocity.x + b.velocity.y * b.velocity.y
                <= (mag + 2) * (mag + 2),
            b.velocity.wf(),
    {
        Bullet { pos, velocity: bullet_velocity(dx, dy, mag), extent }
    }
}

impl Position for Bullet {
    open spec fn pos_spec(&self) -> Point {
        self.pos
    }

    fn pos(&self) -> (p: Point) {
        self.pos
    }
}

impl Velocity for Bullet {
    open spec fn velocity_spec(&self) -> Vector {
        self.velocity
    }

    fn velocity(&self) -> (v: Vector) {
        self.velocity
    }
}

impl VisualExtent for Bullet {
    open spec fn extent_spec(&self) -> Extent {
        self.extent
    }

    fn extent(&self) -> (e: Extent) {
        self.extent
    }
}

impl Damage for Bullet {
    open spec fn damage_spec() -> u16 {
        BULLET_DAMAGE
    }

    fn damage() -> (d: u16) {
        BULLET_DAMAGE
    }
}

impl StepDistance for Bullet {
    open spec fn stepped(self, dist: int) -> Bullet {
        Bullet { pos: stepped_point_spec(self.pos, self.velocity, dist), ..self }
    }

    fn step_distance(&mut self, dist: u64) {
        self.pos = step_point(self.pos, self.velocity, dist);
    }
}

impl Hitbox for Bullet {
    open spec fn tuning_spec() -> HitboxTuning {
        HitboxTuning { w_mul: 850, h_mul: 850, x_off_mul: 0, y_off_mul: 0 }
    }

    fn tuning() -> (t: HitboxTuning) {
        HitboxTuning { w_mul: 850, h_mul: 850, x_off_mul: 0, y_off_mul: 0 }
    }

    fn hitbox(&self) -> (r: Rect) {
        compute_hitbox(self.pos(), self.extent(), Self::tuning())
    }
}

} // verus!
