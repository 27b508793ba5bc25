use vstd::prelude::*;

verus! {

/// Relies on rand::random: one draw from the thread-local generator.
/// Nothing is promised of the value; every caller must hold for every
/// possible outcome.
#[verifier::external_body]
pub(crate) fn random_u64() -> u64 {
    rand::random::<u64>()
}

} // verus!
