//! The source of randomness used to place food.

use vstd::prelude::*;

verus! {

/// Relies on rand::random: one uniformly distributed `u32` from the
/// thread-local generator. Nothing is promised of the value; every caller
/// must hold for every outcome.
#[verifier::external_body]
pub(crate) fn random_u32() -> (r: u32) {
    rand::random()
}

} // verus!
