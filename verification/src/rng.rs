//! The crate's only source of randomness: `rand`'s thread-local generator,
//! reached through trusted wrappers. Nothing is assumed about the values it
//! yields; every function that consumes them is verified for every possible
//! outcome.

use vstd::prelude::*;

use rand::Rng;

verus! {

/// Declares rand's `ThreadRng` so that it can stand in signatures and
/// fields; its values are opaque to the verifier.
#[verifier::external_type_specification]
#[verifier::external_body]
pub struct ExThreadRng(rand::rngs::ThreadRng);

/// Relies on rand::thread_rng: hands out the thread-local generator.
#[verifier::external_body]
pub fn fresh_rng() -> rand::rngs::ThreadRng {
    rand::thread_rng()
}

/// Relies on rand::Rng::gen for u8: draws one uniformly random byte and
/// advances the generator. No ensures: nothing holds of a random value.
#[verifier::external_body]
pub fn random_byte(rng: &mut rand::rngs::ThreadRng) -> u8 {
    rng.gen()
}

} // verus!
