//! Randomness for bullet spawning, drawn from the `rand` crate behind
//! trusted wrappers. Everything that consumes a random value is a verified
//! function taking the drawn sample as an argument, so the simulation is
//! verified for every possible outcome of a draw.

use vstd::prelude::*;
use rand::Rng;
use crate::bullet::{DIR_SAMPLE_LIMIT, MAG_SAMPLE_MAX, MAG_SAMPLE_MIN};

verus! {

#[verifier::external_type_specification]
#[verifier::external_body]
pub struct ExThreadRng(rand::rngs::ThreadRng);

/// Relies on `rand::Rng::gen_range` over `0..n`: the sample is uniform in
/// `[0, n)`; the call panics on an empty range, which the precondition
/// rules out. (The thread-local generator can still abort if the
/// operating system's entropy source fails at a reseed — an environmental
/// failure, like running out of memory, that no input controls.) Only the
/// range bound is assumed; which value comes back is not.
#[verifier::external_body]
fn rand_u64_below(rng: &mut rand::rngs::ThreadRng, n: u64) -> (r: u64)
    requires
        n >= 1,
    ensures
        r < n,
{
    rng.gen_range(0..n)
}

/// Relies on `rand::Rng::gen_range` over `lo..hi`: the sample is uniform in
/// `[lo, hi)`; the call panics on an empty range, which the precondition
/// rules out (and, as above, the generator can abort on an environmental
/// entropy failure). Only the range bounds are assumed.
#[verifier::external_body]
fn rand_i64_in(rng: &mut rand::rngs::ThreadRng, lo: i64, hi: i64) -> (r: i64)
    requires
        lo < hi,
    ensures
        lo <= r < hi,
{
    rng.gen_range(lo..hi)
}

/// The raw random samples one frame of simulation consumes: the bullet
/// spawn roll, the bullet direction components, and the bullet speed
/// multiplier.
#[derive(Clone, Copy, Debug, PartialEq, Eq, Structural)]
pub struct FrameSamples {
    pub roll: u64,
    pub dir_x: i64,
    pub dir_y: i64,
    pub mag: i64,
}

impl FrameSamples {
    pub open spec fn wf(self) -> bool {
        &&& -DIR_SAMPLE_LIMIT <= self.dir_x <= DIR_SAMPLE_LIMIT
        &&& -DIR_SAMPLE_LIMIT <= self.dir_y <= DIR_SAMPLE_LIMIT
        &&& MAG_SAMPLE_MIN <= self.mag <= MAG_SAMPLE_MAX
    }
}

/// Draw one frame's worth of random samples. The spawn roll is uniform
/// below `one_in`; a roll of zero means the sky core fires this frame.
pub fn draw_frame_samples(rng: &mut rand::rngs::ThreadRng, one_in: u64) -> (s: FrameSamples)
    requires
        one_in >= 1,
    ensures
        s.wf(),
        s.roll < one_in,
{
    let roll = rand_u64_below(rng, one_in);
    let dir_x = rand_i64_in(rng, -DIR_SAMPLE_LIMIT, DIR_SAMPLE_LIMIT);
    let dir_y = rand_i64_in(rng, -DIR_SAMPLE_LIMIT, DIR_SAMPLE_LIMIT);
    let mag = rand_i64_in(rng, MAG_SAMPLE_MIN, MAG_SAMPLE_MAX);
    FrameSamples { roll, dir_x, dir_y, mag }
}

} // verus!
