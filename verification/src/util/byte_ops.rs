//! Bytes, 16-bit words and the 3-bit fields of an opcode byte, with the
//! lemmas that read the shifts and masks on them as arithmetic.

use vstd::prelude::*;

verus! {

/// Mask selecting bits 5..3 of an opcode byte.
pub const OPCODE_HI_MASK: u8 = 0b00111000;

/// Mask selecting bits 2..0 of an opcode byte.
pub const OPCODE_LO_MASK: u8 = 0b111;

/// The 16-bit word whose high byte is `hi` and whose low byte is `lo`.
pub open spec fn word_of(hi: u8, lo: u8) -> u16 {
    (hi as int * 256 + lo as int) as u16
}

/// The high byte of a 16-bit word.
pub open spec fn high_byte(word: u16) -> u8 {
    (word / 256) as u8
}

/// The low byte of a 16-bit word.
pub open spec fn low_byte(word: u16) -> u8 {
    (word % 256) as u8
}

/// Bits 5..3 of a byte, as a number in `0..8`.
pub open spec fn hi3(byte: u8) -> u8 {
    ((byte / 8) % 8) as u8
}

/// Bits 2..0 of a byte, as a number in `0..8`.
pub open spec fn lo3(byte: u8) -> u8 {
    (byte % 8) as u8
}

/// How the shifts and masks on a byte read as arithmetic.
pub proof fn lemma_byte_fields(b: u8)
    by (bit_vector)
    ensures
        ((b as u16) << 8) as int == (b as int) * 256,
        (b & 0b00111000) >> 3 == (b / 8) % 8,
        b & 0b111 == b % 8,
        b & 0x0F == b % 16,
        b & 0xF0 == (b / 16) * 16,
        b >> 4 == b / 16,
        b >> 7 == b / 128,
        b >> 1 == b / 2,
        b & 1 == b % 2,
        b & 0x80 == (b / 128) * 128,
        b & 0b011 == b % 4,
        b & 0xFE == (b / 2) * 2,
        b & 0x7F == b % 128,
        (b & 0b100) >> 2 == (b / 4) % 2,
{
}

/// How the shifts and masks on a 16-bit word read as arithmetic.
pub proof fn lemma_word_fields(w: u16)
    by (bit_vector)
    ensures
        w & 0x00FF == w % 256,
        (w & 0xFF00) >> 8 == w / 256,
        w >> 8 == w / 256,
        w & 0x0FFF == w % 4096,
        w & 0x000F == w % 16,
        w & 0xFFF0 == (w / 16) * 16,
{
}

/// A word is put together from its two bytes by shifting and or-ing.
pub proof fn lemma_word_join(hi: u8, lo: u8)
    by (bit_vector)
    ensures
        (((hi as u16) << 8) | (lo as u16)) as int == (hi as int) * 256 + (lo as int),
{
}

/// Splitting a word into its bytes and joining them again gives the word back,
/// and the other way round.
pub proof fn lemma_word_round_trip(hi: u8, lo: u8, word: u16)
    ensures
        word_of(high_byte(word), low_byte(word)) == word,
        high_byte(word_of(hi, lo)) == hi,
        low_byte(word_of(hi, lo)) == lo,
{
}

/// Moves a byte into the high half of a 16-bit word.
pub fn left_shift(b: u8) -> (r: u16)
    ensures
        r == word_of(b, 0),
        r == b as int * 256,
        r == (b as u16) << 8,
{
    proof {
        lemma_byte_fields(b);
    }
    (b as u16) << 8
}

/// Joins a high and a low byte into a 16-bit word.
pub fn hi_lo_combine(hi: u8, lo: u8) -> (r: u16)
    ensures
        r == word_of(hi, lo),
        r == hi as int * 256 + lo as int,
{
    proof {
        lemma_byte_fields(hi);
        lemma_word_join(hi, lo);
    }
    left_shift(hi) | (lo as u16)
}

/// Bits 5..3 of an opcode byte: the first register or pair selector.
pub fn extract_lhs(byte: u8) -> (r: u8)
    ensures
        r == hi3(byte),
        r < 8,
{
    proof {
        lemma_byte_fields(byte);
    }
    (byte & OPCODE_HI_MASK) >> 3
}

/// Bits 2..0 of an opcode byte: the second register selector.
pub fn extract_rhs(byte: u8) -> (r: u8)
    ensures
        r == lo3(byte),
        r < 8,
{
    proof {
        lemma_byte_fields(byte);
    }
    byte & OPCODE_LO_MASK
}

/// The high byte of a word.
pub fn split_hi(word: u16) -> (r: u8)
    ensures
        r == high_byte(word),
{
    proof {
        lemma_word_fields(word);
    }
    ((word & 0xFF00) >> 8) as u8
}

/// The low byte of a word.
pub fn split_lo(word: u16) -> (r: u8)
    ensures
        r == low_byte(word),
{
    proof {
        lemma_word_fields(word);
    }
    (word & 0x00FF) as u8
}

} // verus!
