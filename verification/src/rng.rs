//! Randomness for the extensions that need it: the padding extension's
//! jittered timer delay and the path-validation nonce.
//!
//! The generator comes from the `fastrand` crate. Nothing is promised of a
//! drawn value beyond its range: to the contracts here, two draws on equal
//! state may differ, so every caller is verified for every value the range
//! admits.

use vstd::prelude::*;

verus! {

#[verifier::external_type_specification]
#[verifier::external_body]
pub struct ExRng(fastrand::Rng);

/// Relies on fastrand::Rng::with_seed: a generator built from the seed.
/// Nothing is stated of the sequence it will produce.
#[verifier::external_body]
pub(crate) fn rng_with_seed(seed: u64) -> fastrand::Rng {
    fastrand::Rng::with_seed(seed)
}

/// Relies on fastrand::Rng::u64 over the full range: some 64-bit value.
#[verifier::external_body]
pub(crate) fn rng_any_u64(rng: &mut fastrand::Rng) -> u64 {
    rng.u64(..)
}

/// Relies on fastrand::Rng::u64 over `0..bound`: a value below `bound`.
/// The range must be non-empty, since fastrand panics on an empty one.
#[verifier::external_body]
pub(crate) fn rng_below(rng: &mut fastrand::Rng, bound: u64) -> (r: u64)
    requires
        bound >= 1,
    ensures
        r < bound,
{
    rng.u64(0..bound)
}

} // verus!
