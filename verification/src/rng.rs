//! The source of randomness: a seedable generator from the `fastrand`
//! crate, held as an explicit instance so that runs can be reproduced.
//!
//! Nothing is assumed about the values a generator yields beyond the range
//! each wrapper states, so everything proved here holds for every draw.

use vstd::prelude::*;

verus! {

/// `fastrand::Rng` carried opaquely through the library's state.
#[verifier::external_type_specification]
#[verifier::external_body]
pub struct ExRng(fastrand::Rng);

/// Relies on fastrand::Rng::new: a fresh generator seeded from ambient
/// entropy.
#[verifier::external_body]
pub(crate) fn rng_new() -> fastrand::Rng {
    fastrand::Rng::new()
}

/// Relies on fastrand::Rng::with_seed: a fresh generator in the state the
/// seed determines.
#[verifier::external_body]
pub(crate) fn rng_with_seed(seed: u64) -> fastrand::Rng {
    fastrand::Rng::with_seed(seed)
}

/// Relies on fastrand::Rng::usize: a value drawn from the given range,
/// which must not be empty (it panics on an empty one).
#[verifier::external_body]
pub(crate) fn rng_usize_below(rng: &mut fastrand::Rng, n: usize) -> (r: usize)
    requires
        n > 0,
    ensures
        r < n,
{
    rng.usize(0..n)
}

/// Relies on fastrand::Rng::u64: a value drawn from the given range, which
/// must not be empty (it panics on an empty one).
#[verifier::external_body]
pub(crate) fn rng_u64_below(rng: &mut fastrand::Rng, n: u64) -> (r: u64)
    requires
        n > 0,
    ensures
        r < n,
{
    rng.u64(0..n)
}

} // verus!
