//! The source of randomness for obstacle generation: bracket-lib's
//! `RandomNumberGenerator`, behind trusted wrappers. Nothing is assumed of a
//! drawn value beyond the half-open range that the generator's documentation
//! promises.

use bracket_lib::random::RandomNumberGenerator;
use vstd::prelude::*;

verus! {

/// bracket-lib's random number generator, opaque to verification.
#[verifier::external_type_specification]
#[verifier::external_body]
pub struct ExRandomNumberGenerator(RandomNumberGenerator);

/// Relies on `RandomNumberGenerator::new`: builds a generator from a fresh
/// seed. Nothing is promised of the values it will produce.
#[verifier::external_body]
pub(crate) fn new_rng() -> RandomNumberGenerator {
    RandomNumberGenerator::new()
}

/// Relies on `RandomNumberGenerator::range`: returns a value inclusive of
/// `min` and exclusive of `max`; it panics on an empty range, which the
/// precondition rules out.
#[verifier::external_body]
pub(crate) fn rng_range(rng: &mut RandomNumberGenerator, min: i32, max: i32) -> (r: i32)
    requires
        min < max,
    ensures
        min <= r < max,
{
    rng.range(min, max)
}

} // verus!
