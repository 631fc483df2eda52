//! Fields packed most-significant-bit first into 16-bit register words.
//!
//! A field is described by the position of its least significant bit (`lo`)
//! and its width in bits. A register word travels on the bus as two bytes,
//! the most significant byte first.

use vstd::prelude::*;

verus! {

/// A field of `width` bits starting at bit `lo` lies inside a 16-bit word.
pub open spec fn fits(lo: u16, width: u16) -> bool {
    1 <= width && lo + width <= 16
}

/// Two fields of the same word share no bit.
pub open spec fn disjoint(lo1: u16, width1: u16, lo2: u16, width2: u16) -> bool {
    lo1 + width1 <= lo2 || lo2 + width2 <= lo1
}

/// The mask with the `width` lowest bits set.
pub open spec fn low_mask(width: u16) -> u16 {
    0xffffu16 >> ((16 - width) as u16)
}

/// The value of the field of `width` bits at bit `lo` of `word`.
pub open spec fn field(word: u16, lo: u16, width: u16) -> u16 {
    (word >> lo) & low_mask(width)
}

/// `word` with the field of `width` bits at bit `lo` replaced by `value`.
pub open spec fn with_field(word: u16, lo: u16, width: u16, value: u16) -> u16 {
    (word & !(low_mask(width) << lo)) | (value << lo)
}

/// The single-bit encoding of a flag.
pub open spec fn flag_bit(flag: bool) -> u16 {
    if flag { 1 } else { 0 }
}

/// The word whose most significant byte is `hi` and least significant byte is `lo`.
pub open spec fn word_of(hi: u8, lo: u8) -> u16 {
    ((hi as u16) << 8u16) | (lo as u16)
}

/// The most significant byte of a word.
pub open spec fn high_byte(word: u16) -> u8 {
    (word >> 8u16) as u8
}

/// The least significant byte of a word.
pub open spec fn low_byte(word: u16) -> u8 {
    (word & 0xffu16) as u8
}

/// The masks of the field widths used by the Si470x registers.
pub proof fn lemma_low_mask_values()
    ensures
        low_mask(1) == 1,
        low_mask(2) == 3,
        low_mask(3) == 7,
        low_mask(4) == 15,
        low_mask(6) == 63,
        low_mask(8) == 255,
        low_mask(10) == 1023,
        low_mask(12) == 4095,
        low_mask(16) == 0xffff,
{
    assert(0xffffu16 >> 15u16 == 1 && 0xffffu16 >> 14u16 == 3 && 0xffffu16 >> 13u16 == 7
        && 0xffffu16 >> 12u16 == 15 && 0xffffu16 >> 10u16 == 63 && 0xffffu16 >> 8u16 == 255
        && 0xffffu16 >> 6u16 == 1023 && 0xffffu16 >> 4u16 == 4095 && 0xffffu16 >> 0u16 == 0xffff)
        by (bit_vector);
}

/// A field value read back is never wider than the field.
pub proof fn lemma_field_bound(word: u16, lo: u16, width: u16)
    requires
        fits(lo, width),
    ensures
        field(word, lo, width) <= low_mask(width),
{
    assert((word >> lo) & (0xffffu16 >> ((16 - width) as u16)) <= (0xffffu16 >> ((16 - width) as u16)))
        by (bit_vector)
        requires
            1 <= width && lo + width <= 16,
    ;
}

/// Writing a field and reading it back gives the value written.
pub proof fn lemma_field_of_with_field(word: u16, lo: u16, width: u16, value: u16)
    requires
        fits(lo, width),
        value <= low_mask(width),
    ensures
        field(with_field(word, lo, width, value), lo, width) == value,
{
    assert((((word & !((0xffffu16 >> ((16 - width) as u16)) << lo)) | (value << lo)) >> lo) & (
    0xffffu16 >> ((16 - width) as u16)) == value) by (bit_vector)
        requires
            1 <= width && lo + width <= 16,
            value <= (0xffffu16 >> ((16 - width) as u16)),
    ;
}

/// Writing a field leaves every field that shares no bit with it unchanged.
pub proof fn lemma_field_of_with_other_field(
    word: u16,
    lo: u16,
    width: u16,
    value: u16,
    lo2: u16,
    width2: u16,
)
    requires
        fits(lo, width),
        fits(lo2, width2),
        disjoint(lo, width, lo2, width2),
        value <= low_mask(width),
    ensures
        field(with_field(word, lo, width, value), lo2, width2) == field(word, lo2, width2),
{
    assert((((word & !((0xffffu16 >> ((16 - width) as u16)) << lo)) | (value << lo)) >> lo2) & (
    0xffffu16 >> ((16 - width2) as u16)) == (word >> lo2) & (0xffffu16 >> ((16 - width2) as u16)))
        by (bit_vector)
        requires
            1 <= width && lo + width <= 16,
            1 <= width2 && lo2 + width2 <= 16,
            lo + width <= lo2 || lo2 + width2 <= lo,
            value <= (0xffffu16 >> ((16 - width) as u16)),
    ;
}

/// Writing back the value a field already holds leaves the word unchanged.
pub proof fn lemma_with_field_of_field(word: u16, lo: u16, width: u16)
    requires
        fits(lo, width),
    ensures
        with_field(word, lo, width, field(word, lo, width)) == word,
{
    assert((word & !((0xffffu16 >> ((16 - width) as u16)) << lo)) | (((word >> lo) & (0xffffu16 >> (
    (16 - width) as u16))) << lo) == word) by (bit_vector)
        requires
            1 <= width && lo + width <= 16,
    ;
}

/// A second write of the same field replaces the first.
pub proof fn lemma_with_field_twice(word: u16, lo: u16, width: u16, first: u16, second: u16)
    requires
        fits(lo, width),
        first <= low_mask(width),
        second <= low_mask(width),
    ensures
        with_field(with_field(word, lo, width, first), lo, width, second) == with_field(
            word,
            lo,
            width,
            second,
        ),
{
    assert((((word & !((0xffffu16 >> ((16 - width) as u16)) << lo)) | (first << lo)) & !((0xffffu16
        >> ((16 - width) as u16)) << lo)) | (second << lo) == (word & !((0xffffu16 >> ((16
        - width) as u16)) << lo)) | (second << lo)) by (bit_vector)
        requires
            1 <= width && lo + width <= 16,
            first <= (0xffffu16 >> ((16 - width) as u16)),
            second <= (0xffffu16 >> ((16 - width) as u16)),
    ;
}

/// Splitting a word into its two bytes and joining them again gives the word back,
/// and joining two bytes and splitting the word gives the bytes back.
pub proof fn lemma_word_bytes(word: u16, hi: u8, lo: u8)
    ensures
        word_of(high_byte(word), low_byte(word)) == word,
        high_byte(word_of(hi, lo)) == hi,
        low_byte(word_of(hi, lo)) == lo,
{
    assert((((word >> 8u16) as u8 as u16) << 8u16) | ((word & 0xffu16) as u8 as u16) == word)
        by (bit_vector);
    assert(((((hi as u16) << 8u16) | (lo as u16)) >> 8u16) as u8 == hi) by (bit_vector);
    assert(((((hi as u16) << 8u16) | (lo as u16)) & 0xffu16) as u8 == lo) by (bit_vector);
}

/// The bit of `word` at position `i`.
pub open spec fn bit(word: u16, i: u16) -> bool {
    (word >> i) & 1u16 == 1u16
}

/// Bit by bit: a field holds bits `lo .. lo + width` of the word, from its
/// least significant bit up, and nothing above them.
pub proof fn lemma_field_bits(word: u16, lo: u16, width: u16, i: u16)
    requires
        fits(lo, width),
        i < 16,
    ensures
        i < width ==> (bit(field(word, lo, width), i) == bit(word, (lo + i) as u16)),
        i >= width ==> !bit(field(word, lo, width), i),
{
    assert(i < width ==> ((((word >> lo) & (0xffffu16 >> ((16 - width) as u16))) >> i) & 1u16 == 1u16)
        == ((word >> ((lo + i) as u16)) & 1u16 == 1u16)) by (bit_vector)
        requires
            1 <= width && lo + width <= 16,
            i < 16,
    ;
    assert(i >= width ==> (((word >> lo) & (0xffffu16 >> ((16 - width) as u16))) >> i) & 1u16 == 0u16)
        by (bit_vector)
        requires
            1 <= width && lo + width <= 16,
            i < 16,
    ;
}

/// Bit by bit: replacing a field puts the bits of `value` at positions
/// `lo .. lo + width` and keeps every other bit of the word.
pub proof fn lemma_with_field_bits(word: u16, lo: u16, width: u16, value: u16, i: u16)
    requires
        fits(lo, width),
        value <= low_mask(width),
        i < 16,
    ensures
        lo <= i < lo + width ==> (bit(with_field(word, lo, width, value), i) == bit(
            value,
            (i - lo) as u16,
        )),
        !(lo <= i < lo + width) ==> (bit(with_field(word, lo, width, value), i) == bit(word, i)),
{
    assert(lo <= i && i < lo + width ==> ((((word & !((0xffffu16 >> ((16 - width) as u16)) << lo))
        | (value << lo)) >> i) & 1u16 == 1u16) == ((value >> ((i - lo) as u16)) & 1u16 == 1u16))
        by (bit_vector)
        requires
            1 <= width && lo + width <= 16,
            value <= (0xffffu16 >> ((16 - width) as u16)),
            i < 16,
    ;
    assert(!(lo <= i && i < lo + width) ==> ((((word & !((0xffffu16 >> ((16 - width) as u16)) << lo))
        | (value << lo)) >> i) & 1u16 == 1u16) == ((word >> i) & 1u16 == 1u16)) by (bit_vector)
        requires
            1 <= width && lo + width <= 16,
            value <= (0xffffu16 >> ((16 - width) as u16)),
            i < 16,
    ;
}

/// A word is the number whose high byte is `hi` and low byte is `lo`.
pub proof fn lemma_word_of_value(hi: u8, lo: u8)
    ensures
        word_of(hi, lo) as int == hi as int * 256 + lo as int,
        high_byte(word_of(hi, lo)) as int == word_of(hi, lo) as int / 256,
        low_byte(word_of(hi, lo)) as int == word_of(hi, lo) as int % 256,
{
    assert((((hi as u16) << 8u16) | (lo as u16)) == (hi as u16) * 256u16 + (lo as u16)) by (bit_vector);
    let w: u16 = word_of(hi, lo);
    assert((w >> 8u16) as u8 as u16 == w / 256u16) by (bit_vector);
    assert((w & 0xffu16) as u8 as u16 == w % 256u16) by (bit_vector);
}

/// Reads the field of `width` bits at bit `lo` of `word`.
pub fn get_field(word: u16, lo: u16, width: u16) -> (r: u16)
    requires
        fits(lo, width),
    ensures
        r == field(word, lo, width),
        r <= low_mask(width),
{
    proof {
        lemma_field_bound(word, lo, width);
    }
    (word >> lo) & (0xffffu16 >> (16 - width))
}

/// Returns `word` with the field of `width` bits at bit `lo` set to `value`.
pub fn put_field(word: u16, lo: u16, width: u16, value: u16) -> (r: u16)
    requires
        fits(lo, width),
        value <= low_mask(width),
    ensures
        r == with_field(word, lo, width, value),
{
    (word & !((0xffffu16 >> (16 - width)) << lo)) | (value << lo)
}

/// Joins two bytes, the most significant first, into a word.
pub fn word_from_bytes(bytes: [u8; 2]) -> (r: u16)
    ensures
        r == word_of(bytes[0], bytes[1]),
{
    ((bytes[0] as u16) << 8u16) | (bytes[1] as u16)
}

/// Splits a word into two bytes, the most significant first.
pub fn word_to_bytes(word: u16) -> (r: [u8; 2])
    ensures
        r[0] == high_byte(word),
        r[1] == low_byte(word),
{
    [(word >> 8u16) as u8, (word & 0xffu16) as u8]
}

} // verus!
