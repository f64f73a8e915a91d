use vstd::prelude::*;
use bracket_lib::prelude::RandomNumberGenerator;

verus! {

#[verifier::external_type_specification]
#[verifier::external_body]
pub struct ExRandomNumberGenerator(RandomNumberGenerator);

/// Relies on bracket-lib's `RandomNumberGenerator::range`, which samples
/// `min..max` through rand's `gen_range`: the result is at least `min` and
/// below `max`. The range must not be empty, as `gen_range` panics on an
/// empty one.
#[verifier::external_body]
pub(crate) fn random_in_range(rng: &mut RandomNumberGenerator, min: i32, max: i32) -> (r: i32)
    requires
        min < max,
    ensures
        min <= r < max,
{
    rng.range(min, max)
}

} // verus!
