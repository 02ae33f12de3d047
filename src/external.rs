//! The calls into bracket-lib that the game logic makes.
use vstd::prelude::*;

use bracket_lib::random::RandomNumberGenerator;

verus! {

#[verifier::external_type_specification]
#[verifier::external_body]
pub struct ExRandomNumberGenerator(RandomNumberGenerator);

/// What bracket-lib's `to_cp437` gives for a character: its code in code page 437.
pub uninterp spec fn cp437_of(c: char) -> u16;

/// Relies on bracket-lib's `RandomNumberGenerator::new`: a generator seeded
/// from the clock, so nothing is known of the values it will hand out.
#[verifier::external_body]
pub(crate) fn fresh_rng() -> RandomNumberGenerator {
    RandomNumberGenerator::new()
}

/// Relies on bracket-lib's `RandomNumberGenerator::range`, which draws with
/// rand's `gen_range(lo..hi)`: a value in `[lo, hi)`; it panics when `lo >= hi`.
#[verifier::external_body]
pub(crate) fn draw_in_range(rng: &mut RandomNumberGenerator, lo: i32, hi: i32) -> (r: i32)
    requires
        lo < hi,
    ensures
        lo <= r < hi,
{
    rng.range(lo, hi)
}

/// Relies on bracket-lib's `to_cp437`: the code page 437 index of a character,
/// which for printable ASCII (space to tilde) is the character's own code.
#[verifier::external_body]
pub(crate) fn glyph_code(c: char) -> (r: u16)
    ensures
        r == cp437_of(c),
        32 <= c as u32 <= 126 ==> r as u32 == c as u32,
{
    bracket_lib::terminal::to_cp437(c)
}

} // verus!
