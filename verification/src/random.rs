//! The random generator and the two places where the library draws from it.
//!
//! A single generator is owned by the caller for a whole run and handed by
//! `&mut` to every function that consumes randomness, so that a generator with
//! a fixed seed makes a run reproducible.

use vstd::prelude::*;

verus! {

/// The generator type, opaque to the verifier: a value of it is only carried
/// through to the two functions below.
#[verifier::external_type_specification]
#[verifier::external_body]
pub struct ExChaCha20Rng(rand_chacha::ChaCha20Rng);

/// Calls `rand::RngCore::fill_bytes` on a fresh 32-byte buffer and returns it.
///
/// The bytes depend on the state of the generator, so nothing is claimed of
/// them beyond their number, which the type gives.
#[verifier::external_body]
pub(crate) fn fill_entropy(rng: &mut rand_chacha::ChaCha20Rng) -> (entropy: [u8; 32]) {
    let mut entropy: [u8; 32] = [0; 32];
    rand::RngCore::fill_bytes(rng, &mut entropy);
    entropy
}

/// Calls `rand::seq::SliceRandom::shuffle` on the vector.
///
/// The shuffle only swaps elements of the slice, so the vector afterwards holds
/// the same elements, each as often as before. Which order comes out depends on
/// the generator and is left open.
#[verifier::external_body]
pub(crate) fn shuffle_indices(indices: &mut Vec<u32>, rng: &mut rand_chacha::ChaCha20Rng)
    ensures
        final(indices)@.to_multiset() == old(indices)@.to_multiset(),
{
    rand::seq::SliceRandom::shuffle(indices.as_mut_slice(), rng);
}

} // verus!
