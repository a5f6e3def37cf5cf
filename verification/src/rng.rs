//! The seeded pseudo-random generator behind every selection.
//!
//! The generator is rand's `StdRng`, kept opaque. Its contract is the one the
//! selection pipeline needs: the state built from a seed, and the index drawn
//! below a bound, are functions of the seed (respectively of the state and
//! the bound) alone, so a seed determines every later selection.

use vstd::prelude::*;
use crate::SeedDerivationError;
use crate::utils::{seed_from_date, spec_seed_from_date};

verus! {

#[verifier::external_type_specification]
#[verifier::external_body]
pub struct ExStdRng(rand::rngs::StdRng);

/// The generator state that seeding with the given 64-bit seed produces.
pub uninterp spec fn rng_of_seed(seed: u64) -> rand::rngs::StdRng;

/// The index below `bound` that a draw from the given generator state yields.
pub uninterp spec fn draw_index(rng: rand::rngs::StdRng, bound: usize) -> usize;

/// The generator state left behind by that same draw.
pub uninterp spec fn rng_after_draw(rng: rand::rngs::StdRng, bound: usize) -> rand::rngs::StdRng;

/// Relies on rand's StdRng::seed_from_u64: the generator state is a function
/// of the seed alone.
#[verifier::external_body]
fn rng_with_seed(seed: u64) -> (r: rand::rngs::StdRng)
    ensures
        r == rng_of_seed(seed),
{
    <rand::rngs::StdRng as rand_core::SeedableRng>::seed_from_u64(seed)
}

/// Relies on rand::random: a 64-bit seed from the thread-local entropy-seeded
/// generator; nothing is assumed of its value.
#[verifier::external_body]
fn entropy_seed() -> u64 {
    rand::random::<u64>()
}

/// Relies on rand's Rng::gen_range over `0..bound`: the draw yields an index
/// below the bound, and the index and the state the generator is left in are
/// functions of the prior state and the bound alone.
#[verifier::external_body]
pub(crate) fn gen_index(rng: &mut rand::rngs::StdRng, bound: usize) -> (r: usize)
    requires
        bound > 0,
    ensures
        r < bound,
        r == draw_index(*old(rng), bound),
        *final(rng) == rng_after_draw(*old(rng), bound),
{
    rand::Rng::gen_range(rng, 0..bound)
}

/// A generator seeded from the entropy source, for a fresh (non-daily) verse.
pub fn get_rng() -> rand::rngs::StdRng {
    let seed = entropy_seed();
    rng_with_seed(seed)
}

/// A generator seeded deterministically from a date string, so that every
/// resolution on the same calendar day draws the same indices.
pub fn get_rng_from_date(date: &str) -> (r: Result<rand::rngs::StdRng, SeedDerivationError>)
    ensures
        r is Ok <==> spec_seed_from_date(date@) is Ok,
        r is Ok ==> r->Ok_0 == rng_of_seed(spec_seed_from_date(date@)->Ok_0),
{
    match seed_from_date(date) {
        Ok(seed) => Ok(rng_with_seed(seed)),
        Err(e) => Err(e),
    }
}

/// The drawn index is a function of the generator state and the bound alone:
/// generators in equal states draw the same index for the same bound.
pub proof fn lemma_draw_deterministic(r1: rand::rngs::StdRng, r2: rand::rngs::StdRng, bound: usize)
    requires
        r1 == r2,
    ensures
        draw_index(r1, bound) == draw_index(r2, bound),
        rng_after_draw(r1, bound) == rng_after_draw(r2, bound),
{
}

} // verus!
