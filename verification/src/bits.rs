//! Bytes and 16-bit words: how the processor splits, joins and tests them.
use vstd::prelude::*;

verus! {

/// The 16-bit word with low byte `lo` and high byte `hi`.
pub open spec fn word_of(lo: u8, hi: u8) -> u16 {
    ((hi as u16) << 8) | (lo as u16)
}

/// The low byte of a word.
pub open spec fn low_byte(w: u16) -> u8 {
    (w & 0x00FF) as u8
}

/// The high byte of a word.
pub open spec fn high_byte(w: u16) -> u8 {
    ((w >> 8) & 0x00FF) as u8
}

/// The page of an address: the address with its low byte cleared.
pub open spec fn page_of(w: u16) -> u16 {
    w & 0xFF00
}

/// Whether bit 7 of a byte is set.
pub open spec fn bit7(v: u8) -> bool {
    v & 0x80 != 0
}

/// A signed 8-bit offset widened to 16 bits: where bit 7 is set, bits 8 to
/// 15 are all set.
pub open spec fn sign_extended(v: u8) -> u16 {
    if v & 0x80 != 0 {
        (v as u16) | 0xFF00
    } else {
        v as u16
    }
}

/// Joins two bytes into a word.
pub(crate) fn word(lo: u8, hi: u8) -> (w: u16)
    ensures
        w == word_of(lo, hi),
{
    ((hi as u16) << 8) | (lo as u16)
}

/// Takes the low byte of a word.
pub(crate) fn lo(w: u16) -> (b: u8)
    ensures
        b == low_byte(w),
{
    (w & 0x00FF) as u8
}

/// Takes the high byte of a word.
pub(crate) fn hi(w: u16) -> (b: u8)
    ensures
        b == high_byte(w),
{
    ((w >> 8) & 0x00FF) as u8
}

/// Clears the low byte of an address.
pub(crate) fn page(w: u16) -> (p: u16)
    ensures
        p == page_of(w),
{
    w & 0xFF00
}

/// Tests bit 7 of a byte.
pub(crate) fn negative(v: u8) -> (n: bool)
    ensures
        n == bit7(v),
{
    v & 0x80 != 0
}

/// Widens a signed 8-bit offset to 16 bits.
pub(crate) fn sign_extend(v: u8) -> (w: u16)
    ensures
        w == sign_extended(v),
{
    if v & 0x80 != 0 {
        (v as u16) | 0xFF00
    } else {
        v as u16
    }
}

/// A word is its low byte plus 256 times its high byte, and splitting a
/// word gives back the bytes it was joined from.
pub proof fn lemma_word_bytes(lo: u8, hi: u8)
    ensures
        word_of(lo, hi) == lo + 256 * hi,
        low_byte(word_of(lo, hi)) == lo,
        high_byte(word_of(lo, hi)) == hi,
{
    assert(((hi as u16) << 8) | (lo as u16) == lo + 256 * hi) by (bit_vector);
    assert(((((hi as u16) << 8) | (lo as u16)) & 0x00FF) as u8 == lo) by (bit_vector);
    assert((((((hi as u16) << 8) | (lo as u16)) >> 8) & 0x00FF) as u8 == hi) by (bit_vector);
}

/// Splitting a word and joining the bytes gives the word back; the bytes are
/// the remainder and the quotient by 256.
pub proof fn lemma_split_word(w: u16)
    ensures
        word_of(low_byte(w), high_byte(w)) == w,
        low_byte(w) == w % 256,
        high_byte(w) == w / 256,
{
    assert((((((w >> 8) & 0x00FF) as u8) as u16) << 8) | (((w & 0x00FF) as u8) as u16) == w)
        by (bit_vector);
    assert((w & 0x00FF) as u8 == w % 256) by (bit_vector);
    assert(((w >> 8) & 0x00FF) as u8 == w / 256) by (bit_vector);
}

/// Two addresses lie in one page exactly when their quotients by 256 agree.
pub proof fn lemma_page(a: u16, b: u16)
    ensures
        page_of(a) == page_of(b) <==> a / 256 == b / 256,
{
    assert((a & 0xFF00 == b & 0xFF00) <==> (a / 256 == b / 256)) by (bit_vector);
}

/// Bit 7 is set exactly in the bytes from 128 up, and the widened offset is
/// the two's-complement word of the signed byte.
pub proof fn lemma_sign(v: u8)
    ensures
        bit7(v) <==> v >= 128,
        sign_extended(v) == if v >= 128 { v + 0xFF00 } else { v as int },
{
    assert((v & 0x80 != 0) <==> v >= 128) by (bit_vector);
    assert(v & 0x80 != 0 ==> (v as u16) | 0xFF00 == v + 0xFF00) by (bit_vector);
}

} // verus!
