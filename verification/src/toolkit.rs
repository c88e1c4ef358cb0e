//! The calls into the roguelike toolkit: dice, random numbers and glyphs.

use vstd::prelude::*;

verus! {

/// The toolkit's source of random numbers. Nothing is known of its state.
#[verifier::external_type_specification]
#[verifier::external_body]
pub struct ExRandomNumberGenerator(rltk::RandomNumberGenerator);

/// The code that a character has in code page 437.
pub uninterp spec fn cp437_of(c: char) -> u16;

/// The glyph of a character: its code in code page 437.
///
/// Trusted: the body is `rltk::to_cp437`, a table from characters to codes
/// that gives the same code for the same character every time. The contract
/// gives that code a name and says no more of it.
#[verifier::external_body]
pub(crate) fn to_cp437(c: char) -> (glyph: u16)
    ensures
        glyph == cp437_of(c),
{
    rltk::to_cp437(c)
}

/// Rolls `n` dice of `die_type` sides and adds them up.
///
/// Trusted: the body is `RandomNumberGenerator::roll_dice`, which sums `n`
/// draws from `1..die_type + 1`. Each draw lies between 1 and `die_type`, so
/// the sum lies between `n` and `n * die_type`; which value comes out is left
/// open. The `requires` keeps away the inputs on which the draw or the sum
/// would fail: an empty range and a sum that leaves 32 bits.
#[verifier::external_body]
pub(crate) fn roll_dice(rng: &mut rltk::RandomNumberGenerator, n: i32, die_type: i32) -> (r: i32)
    requires
        0 <= n,
        1 <= die_type < i32::MAX,
        n * die_type <= i32::MAX,
    ensures
        n <= r <= n * die_type,
{
    rng.roll_dice(n, die_type)
}

/// Draws a number from `min` up to, but not including, `max`.
///
/// Trusted: the body is `RandomNumberGenerator::range`, which samples the
/// half-open range `min..max` and fails on an empty one. Which value comes
/// out is left open.
#[verifier::external_body]
pub(crate) fn roll_range(rng: &mut rltk::RandomNumberGenerator, min: i128, max: i128) -> (r: i128)
    requires
        min < max,
    ensures
        min <= r < max,
{
    rng.range(min, max)
}

} // verus!
