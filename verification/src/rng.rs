//! The source of randomness that a round hands to the engine: seeded by the
//! caller, so that a run can be repeated, or keyed from the thread's secure
//! generator.

use vstd::prelude::*;
use crate::bytes::to_array;

verus! {

/// Number of bytes in a seed.
pub const SEED_LEN: usize = 32;

#[verifier::external_type_specification]
#[verifier::external_body]
pub struct ExChaCha20Rng(rand_chacha::ChaCha20Rng);

/// The generator that `ChaCha20Rng::from_seed` makes of a key of 32 bytes: a
/// ChaCha stream of twenty rounds under that key, at its first word.
pub uninterp spec fn seeded_generator(seed: Seq<u8>) -> rand_chacha::ChaCha20Rng;

/// Calls `ChaCha20Rng::from_seed`. Nothing is proved of it: the contract
/// names the generator, which depends on the key alone, so that the same
/// key gives the same generator and the same stream.
#[verifier::external_body]
fn generator_from_seed(seed: [u8; 32]) -> (rng: rand_chacha::ChaCha20Rng)
    ensures
        rng == seeded_generator(seed@),
{
    <rand_chacha::ChaCha20Rng as rand::SeedableRng>::from_seed(seed)
}

/// Draws a key of 32 bytes from `rand::thread_rng()`. The contract claims
/// nothing of the bytes.
#[verifier::external_body]
fn fresh_seed() -> (seed: [u8; 32]) {
    rand::Rng::gen(&mut rand::thread_rng())
}

/// Whether a caller's choice of seed can be taken: no seed, or 32 bytes.
pub open spec fn seed_is_valid(seed: Option<&[u8]>) -> bool {
    seed matches Some(bytes) ==> bytes@.len() == SEED_LEN
}

/// Whether `rng` is the generator that a caller's choice of seed asks for:
/// the generator of the seed, or without a seed the generator of some key
/// of 32 bytes.
pub open spec fn seeded_by(rng: rand_chacha::ChaCha20Rng, seed: Option<&[u8]>) -> bool {
    match seed {
        Some(bytes) => rng == seeded_generator(bytes@),
        None => exists|key: Seq<u8>| key.len() == SEED_LEN && rng == seeded_generator(key),
    }
}

/// The generator for one call into the engine. With a seed it is the
/// generator of that seed, the same for every call with the same seed;
/// without one it is keyed with 32 bytes drawn from the thread's secure
/// generator.
pub fn maybe_seeded_rng(seed: Option<&[u8]>) -> (rng: rand_chacha::ChaCha20Rng)
    requires
        seed_is_valid(seed),
    ensures
        seeded_by(rng, seed),
{
    match seed {
        None => {
            let key = fresh_seed();
            assert(key@.len() == SEED_LEN);
            generator_from_seed(key)
        },
        Some(bytes) => generator_from_seed(to_array(bytes)),
    }
}

} // verus!
