//! Words that encode IEEE-754 binary32 numbers, and the few operations on
//! them that are exact on the encoding itself.

use vstd::prelude::*;

verus! {

/// The bit that holds the sign of a binary32 word.
pub const SIGN_BIT: u32 = 0x8000_0000;

/// The bits of a binary32 word that hold its exponent and fraction.
pub const MAGNITUDE_BITS: u32 = 0x7FFF_FFFF;

/// The word of `0.0`.
pub const ZERO: u32 = 0;

/// The word of `1.0`.
pub const ONE: u32 = 0x3F80_0000;

/// The word of `-1.0`.
pub const MINUS_ONE: u32 = 0xBF80_0000;

/// The word with the sign cleared: the encoding of the absolute value.
pub open spec fn magnitude(word: u32) -> u32 {
    word & MAGNITUDE_BITS
}

/// The word with the other sign and the same magnitude: the encoding of the
/// negated number. For a NaN this is the NaN with the other sign.
pub open spec fn negation(word: u32) -> u32 {
    word ^ SIGN_BIT
}

/// Whether the word encodes a zero, of either sign.
pub open spec fn is_zero(word: u32) -> bool {
    magnitude(word) == ZERO
}

/// Whether the word encodes `1.0` or `-1.0`.
pub open spec fn is_unit(word: u32) -> bool {
    magnitude(word) == ONE
}

/// Negates the number that `word` encodes.
pub fn negate(word: u32) -> (negated: u32)
    ensures
        negated == negation(word),
{
    word ^ SIGN_BIT
}

/// Whether `word` encodes a zero, of either sign.
pub fn encodes_zero(word: u32) -> (yes: bool)
    ensures
        yes == is_zero(word),
{
    word & MAGNITUDE_BITS == ZERO
}

/// Whether `word` encodes `1.0` or `-1.0`.
pub fn encodes_unit(word: u32) -> (yes: bool)
    ensures
        yes == is_unit(word),
{
    word & MAGNITUDE_BITS == ONE
}

/// Negation changes the sign bit and nothing else, so negating twice gives
/// the word back.
pub proof fn lemma_negation(word: u32)
    ensures
        magnitude(negation(word)) == magnitude(word),
        negation(word) & SIGN_BIT != word & SIGN_BIT,
        negation(negation(word)) == word,
{
    assert((word ^ 0x8000_0000u32) & 0x7FFF_FFFFu32 == word & 0x7FFF_FFFFu32) by (bit_vector);
    assert((word ^ 0x8000_0000u32) & 0x8000_0000u32 != word & 0x8000_0000u32) by (bit_vector);
    assert((word ^ 0x8000_0000u32) ^ 0x8000_0000u32 == word) by (bit_vector);
}

} // verus!
