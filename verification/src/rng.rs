//! The deterministic random generator used for key splitting.
//!
//! The library draws its randomness through a stream-cipher generator
//! of the outside `rand_chacha` crate, seeded either from the operating
//! system or from a caller-supplied 32-byte seed.

use rand::SeedableRng;
use vstd::prelude::*;

verus! {

#[verifier::external_type_specification]
#[verifier::external_body]
pub struct ExChaCha8Rng(rand_chacha::ChaCha8Rng);

/// Relies on `rand::thread_rng` and `rand::SeedableRng::from_rng`: a
/// generator freshly seeded from the operating system.  Nothing is
/// assumed of the values it will produce.
#[verifier::external_body]
pub(crate) fn fresh_rng() -> rand_chacha::ChaCha8Rng {
    rand_chacha::ChaCha8Rng::from_rng(rand::thread_rng()).expect("system randomness is available")
}

/// The deterministic generator state expanded from a seed: a function
/// of the seed bytes alone.
pub uninterp spec fn chacha_of(seed: Seq<u8>) -> rand_chacha::ChaCha8Rng;

/// Relies on `rand::SeedableRng::from_seed` for `ChaCha8Rng`: a
/// deterministic generator expanded from the given seed.
#[verifier::external_body]
pub(crate) fn rng_from_seed(seed: [u8; 32]) -> (r: rand_chacha::ChaCha8Rng)
    ensures
        r == chacha_of(seed@),
{
    rand_chacha::ChaCha8Rng::from_seed(seed)
}

} // verus!
