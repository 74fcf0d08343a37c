use vstd::arithmetic::power2::pow2;
use vstd::bits::{
    lemma_u32_low_bits_mask_is_mod, lemma_u32_pow2_no_overflow, lemma_u32_shr_is_div,
    low_bits_mask,
};
use vstd::prelude::*;

verus! {

/// Whether bit `index` of `word` is set. Bit 0 is the lowest bit.
pub open spec fn bit_set(word: u32, index: u32) -> bool {
    (word >> index) & 1 == 1
}

/// The bits of `word` from bit `low` upward that `mask` selects, moved down
/// so that bit `low` becomes bit 0.
pub open spec fn field(word: u32, low: u32, mask: u32) -> u32 {
    (word >> low) & mask
}

/// Tests one bit of a word.
pub fn test_bit(word: u32, index: u32) -> (r: bool)
    requires
        index < 32,
    ensures
        r == bit_set(word, index),
{
    assert((word & (1u32 << index) != 0) == ((word >> index) & 1 == 1)) by (bit_vector)
        requires
            index < 32,
    ;
    word & (1u32 << index) != 0
}

/// Reads a field of a word: the bits that `mask` selects, counted from `low`.
pub fn extract(word: u32, low: u32, mask: u32) -> (r: u32)
    requires
        low < 32,
    ensures
        r == field(word, low, mask),
        r <= mask,
{
    assert(((word >> low) & mask) <= mask) by (bit_vector);
    (word >> low) & mask
}

/// What a set bit means in arithmetic: bit `index` is the binary digit of
/// weight `2^index`.
pub proof fn lemma_bit_is_binary_digit(word: u32, index: u32)
    requires
        index < 32,
    ensures
        bit_set(word, index) <==> (word as nat / pow2(index as nat)) % 2 == 1,
{
    let upper: u32 = word >> index;
    lemma_u32_shr_is_div(word, index);
    assert(upper & 1 == upper % 2) by (bit_vector);
}

/// What a field means in arithmetic: dividing by `2^low` drops the bits below
/// the field, and the remainder modulo `2^width` drops the bits above it.
pub proof fn lemma_field_is_quotient_remainder(word: u32, low: u32, width: nat)
    requires
        low < 32,
        width < 32,
    ensures
        field(word, low, low_bits_mask(width) as u32) == (word as nat / pow2(low as nat)) % pow2(
            width,
        ),
{
    lemma_u32_shr_is_div(word, low);
    lemma_u32_pow2_no_overflow(width);
    lemma_u32_low_bits_mask_is_mod(word >> low, width);
}

/// A value written into a field that was clear is what the field then
/// reads, whatever the rest of the word holds.
pub proof fn lemma_field_of_placed(rest: u32, low: u32, mask: u32, value: u32)
    by (bit_vector)
    requires
        low < 32,
        (mask << low) >> low == mask,
        value & mask == value,
        rest & (mask << low) == 0,
    ensures
        field(rest | (value << low), low, mask) == value,
{
}

} // verus!
