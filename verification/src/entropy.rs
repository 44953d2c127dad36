//! The single source of randomness. Nothing can be promised of a random
//! value, so callers state what holds of every outcome.

use vstd::prelude::*;

verus! {

/// Relies on rand::random: draws a uniform `u64` from the thread-local
/// generator. Nothing is assumed of the result.
#[verifier::external_body]
pub fn random_u64() -> u64 {
    rand::random::<u64>()
}

} // verus!
