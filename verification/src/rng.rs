//! The random stream, consumed as an opaque capability.
//!
//! A generator is threaded explicitly through every function that draws from
//! it, so a caller that seeds it fixes the whole render.  Nothing is assumed
//! about the values drawn: every consumer states what holds of each possible
//! outcome.

use vstd::prelude::*;

verus! {

#[verifier::external_type_specification]
#[verifier::external_body]
pub struct ExStdRng(rand::rngs::StdRng);

/// Relies on rand's `SeedableRng::seed_from_u64`: builds a generator whose
/// stream is a function of the seed alone.
#[verifier::external_body]
pub fn rng_from_seed(seed: u64) -> rand::rngs::StdRng {
    rand::SeedableRng::seed_from_u64(seed)
}

/// Relies on rand's `RngCore::next_u64`: one draw from the stream.  Nothing
/// is promised of the value; callers state what holds of every outcome.
#[verifier::external_body]
pub fn next_u64(rng: &mut rand::rngs::StdRng) -> u64 {
    rand::RngCore::next_u64(rng)
}

} // verus!
