//! The source of randomness for the durations of scheduled actions.

use bevy_prng::WyRand;
use rand_core::RngCore;
use vstd::prelude::*;

verus! {

/// The generator that the game draws from. Its state is not visible to
/// proofs.
#[verifier::external_type_specification]
#[verifier::external_body]
pub struct ExWyRand(WyRand);

/// Draws 32 fresh bits from the generator with `RngCore::next_u32`.
///
/// Not proved: nothing is claimed of the value drawn, so whatever is built
/// on it has to hold for every `u32`.
#[verifier::external_body]
pub(crate) fn next_u32(rng: &mut WyRand) -> (roll: u32) {
    rng.next_u32()
}

} // verus!
