//! The pseudo-random source behind map generation.
//!
//! The generator seeds itself from the operating system, so nothing is
//! known of a roll beyond its range; whatever uses a roll is verified for
//! every value in that range.

use vstd::prelude::*;

verus! {

/// The dice roller of `rltk`. Its state is never looked at.
#[verifier::external_type_specification]
#[verifier::external_body]
pub struct ExRandomNumberGenerator(rltk::RandomNumberGenerator);

/// `RandomNumberGenerator::new` seeds a generator from system entropy (or
/// the clock); nothing is claimed of the generator it returns.
pub assume_specification[ rltk::RandomNumberGenerator::new ]() -> (rng:
    rltk::RandomNumberGenerator);

/// `RandomNumberGenerator::roll_dice` adds up `n` rolls of a die with
/// faces `1..=die_type`, each drawn from the half-open range
/// `1..die_type + 1`. The sum therefore lies between `n` and
/// `n * die_type`. A die without faces, a `die_type + 1` that overflows,
/// or a sum beyond `i32::MAX` would make it panic and are excluded.
pub assume_specification[ rltk::RandomNumberGenerator::roll_dice ](
    rng: &mut rltk::RandomNumberGenerator,
    n: i32,
    die_type: i32,
) -> (r: i32)
    requires
        0 <= n,
        1 <= die_type < i32::MAX,
        n * die_type <= i32::MAX,
    ensures
        n <= r <= n * die_type,
;

} // verus!
