//! Random coordinates, drawn from a seeded generator of the `rand` crate.

use vstd::prelude::*;
use rand::distributions::{Distribution, Uniform};
use rand::rngs::StdRng;
use rand::SeedableRng;

verus! {

/// The standard generator of `rand`, carried through as an opaque value.
#[verifier::external_type_specification]
#[verifier::external_body]
pub struct ExStdRng(StdRng);

/// Calls `StdRng::seed_from_u64`. Nothing is claimed of the generator it
/// returns.
#[verifier::external_body]
pub(crate) fn seeded(seed: u64) -> StdRng {
    StdRng::seed_from_u64(seed)
}

/// Calls `Uniform::from(low..high).sample(rng)`. The range must not be empty,
/// since `Uniform::from` panics on one; the sample is claimed to lie in the
/// range, and nothing is claimed of which value it is.
#[verifier::external_body]
pub(crate) fn sample_between(rng: &mut StdRng, low: i32, high: i32) -> (r: i32)
    requires
        low < high,
    ensures
        low <= r < high,
{
    Uniform::from(low..high).sample(rng)
}

/// A coordinate between `low` and `high`: drawn uniformly from the half-open
/// range where it holds more than nothing, and `low` where the two coincide.
pub fn sample_coordinate(rng: &mut StdRng, low: i32, high: i32) -> (r: i32)
    requires
        low <= high,
    ensures
        low <= r <= high,
        low < high ==> r < high,
{
    if low < high {
        sample_between(rng, low, high)
    } else {
        low
    }
}

} // verus!
