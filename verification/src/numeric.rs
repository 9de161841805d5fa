//! Small exact integer operations the simulation is built from: clamping,
//! saturating addition, halving, and fixed-point velocity scaling.

use vstd::prelude::*;
use crate::bounds::{DIST_LIMIT, VEL_LIMIT};

verus! {

/// `x` forced into the interval `[lo, hi]`.
pub open spec fn clamp_spec(x: int, lo: int, hi: int) -> int {
    if x < lo {
        lo
    } else if x > hi {
        hi
    } else {
        x
    }
}

/// Clamp `x` to `[lo, hi]`.
pub fn clamp_i64(x: i64, lo: i64, hi: i64) -> (r: i64)
    requires
        lo <= hi,
    ensures
        r == clamp_spec(x as int, lo as int, hi as int),
{
    if x < lo {
        lo
    } else if x > hi {
        hi
    } else {
        x
    }
}

/// Addition on `u64` that stops at the largest representable value.
pub open spec fn sat_add_u64_spec(a: u64, b: u64) -> u64 {
    if a + b > u64::MAX {
        u64::MAX
    } else {
        (a + b) as u64
    }
}

/// Saturating addition on `u64`.
pub fn sat_add_u64(a: u64, b: u64) -> (r: u64)
    ensures
        r == sat_add_u64_spec(a, b),
{
    if a > u64::MAX - b {
        u64::MAX
    } else {
        a + b
    }
}

/// Half of a non-negative length, rounded down.
pub fn half_nonneg(x: i64) -> (r: i64)
    requires
        x >= 0,
    ensures
        r == x as int / 2,
{
    let h = (x as u64) / 2;
    h as i64
}

/// The signed distance covered along one axis: the per-mille velocity
/// component `v` times the travelled length `dist`, scaled back down by
/// 1000 with the magnitude rounded toward zero.
pub open spec fn scaled_delta_spec(v: int, dist: int) -> int {
    if v >= 0 {
        (v * dist) / 1000
    } else {
        -(((-v) * dist) / 1000)
    }
}

/// One axis of a motion step: how far a velocity component `v` carries an
/// entity over a travelled length of `dist` units.
pub fn scaled_delta(v: i64, dist: u64) -> (r: i64)
    requires
        -VEL_LIMIT <= v <= VEL_LIMIT,
        dist <= DIST_LIMIT,
    ensures
        r == scaled_delta_spec(v as int, dist as int),
        -1_000_000_000 <= r <= 1_000_000_000,
{
    if v >= 0 {
        proof {
            assert((v as int) * (dist as int) <= 1_000_000_000_000) by (nonlinear_arith)
                requires
                    0 <= v <= VEL_LIMIT,
                    0 <= dist <= DIST_LIMIT,
            ;
        }
        let m = (v as u64) * dist / 1000;
        m as i64
    } else {
        proof {
            assert((-v as int) * (dist as int) <= 1_000_000_000_000) by (nonlinear_arith)
                requires
                    0 <= -v <= VEL_LIMIT,
                    0 <= dist <= DIST_LIMIT,
            ;
        }
        let m = ((-v) as u64) * dist / 1000;
        -(m as i64)
    }
}

/// A bounded velocity over a bounded travelled length moves an entity at
/// most a billion units along an axis.
pub proof fn lemma_scaled_delta_bounds(v: int, dist: int)
    requires
        -VEL_LIMIT <= v <= VEL_LIMIT,
        0 <= dist <= DIST_LIMIT,
    ensures
        -1_000_000_000 <= scaled_delta_spec(v, dist) <= 1_000_000_000,
{
    let a = if v >= 0 { v } else { -v };
    assert(0 <= a * dist <= 1_000_000_000_000) by (nonlinear_arith)
        requires
            0 <= a <= VEL_LIMIT,
            0 <= dist <= DIST_LIMIT,
    ;
    vstd::arithmetic::div_mod::lemma_div_is_ordered(a * dist, 1_000_000_000_000, 1000);
    vstd::arithmetic::div_mod::lemma_div_pos_is_pos(a * dist, 1000);
}

/// The integer square root: the largest `r` with `r * r <= n`, by the
/// classic quartering recursion.
pub open spec fn sqrt_floor(n: nat) -> nat
    decreases n,
{
    if n == 0 {
        0
    } else {
        let r = 2 * sqrt_floor(n / 4);
        if (r + 1) * (r + 1) <= n {
            r + 1
        } else {
            r
        }
    }
}

/// `sqrt_floor` is the rounded-down square root: its square is at most `n`
/// and the next square is beyond `n`.
pub proof fn lemma_sqrt_floor_bounds(n: nat)
    ensures
        sqrt_floor(n) * sqrt_floor(n) <= n,
        n < (sqrt_floor(n) + 1) * (sqrt_floor(n) + 1),
    decreases n,
{
    if n == 0 {
        assert(n < (sqrt_floor(n) + 1) * (sqrt_floor(n) + 1)) by (nonlinear_arith)
            requires
                n == 0nat,
                sqrt_floor(n) == 0nat,
        ;
    } else {
        lemma_sqrt_floor_bounds(n / 4);
        let q = n / 4;
        let r0 = sqrt_floor(q);
        let r = 2 * r0;
        assert(4 * q <= n && n < 4 * q + 4);
        assert(r * r <= 4 * q) by (nonlinear_arith)
            requires
                r == 2 * r0,
                r0 * r0 <= q,
        ;
        assert(4 * q + 4 <= (r + 2) * (r + 2)) by (nonlinear_arith)
            requires
                r == 2 * r0,
                q < (r0 + 1) * (r0 + 1),
        ;
        if (r + 1) * (r + 1) <= n {
            assert(sqrt_floor(n) == r + 1);
        } else {
            assert(sqrt_floor(n) == r);
        }
    }
}

/// Compute the integer square root of `n`. The bound on `n` keeps the
/// `(r + 1) * (r + 1)` probe within `u64`.
pub fn isqrt_u64(n: u64) -> (r: u64)
    requires
        n <= 0x4000_0000_0000_0000,
    ensures
        r == sqrt_floor(n as nat),
        r * r <= n < (r + 1) * (r + 1),
    decreases n,
{
    proof {
        lemma_sqrt_floor_bounds(n as nat);
    }
    if n == 0 {
        0
    } else {
        let r0 = isqrt_u64(n / 4);
        proof {
            assert(r0 <= 0x4000_0000) by (nonlinear_arith)
                requires
                    r0 * r0 <= n / 4,
                    0 <= n / 4 <= 0x1000_0000_0000_0000,
                    r0 >= 0,
            ;
        }
        let r = 2 * r0;
        proof {
            assert(r * r <= 4 * (n as nat / 4)) by (nonlinear_arith)
                requires
                    r == 2 * sqrt_floor(n as nat / 4),
                    sqrt_floor(n as nat / 4) * sqrt_floor(n as nat / 4) <= n as nat / 4,
            ;
            assert(r <= 0x8000_0000) by (nonlinear_arith)
                requires
                    r * r <= n,
                    0 <= n <= 0x4000_0000_0000_0000,
                    r >= 0,
            ;
            assert((r as int + 1) * (r as int + 1) <= u64::MAX) by (nonlinear_arith)
                requires
                    0 <= r <= 0x8000_0000,
            ;
        }
        if (r + 1) * (r + 1) <= n {
            r + 1
        } else {
            r
        }
    }
}

} // verus!
