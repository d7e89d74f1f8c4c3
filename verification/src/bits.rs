//! Bit-level arithmetic on 16-bit words: wraparound addition, sign
//! extension and the bytes of a word.

use vstd::prelude::*;

verus! {

/// Addition modulo 2^16.
pub open spec fn wrapping_sum(a: u16, b: u16) -> u16 {
    ((a + b) % 0x1_0000) as u16
}

/// The word `x` with every bit above bit `bit_count - 1` set if that bit
/// is set, and `x` itself otherwise.
pub open spec fn sign_extension(x: u16, bit_count: u16) -> u16 {
    if (x >> ((bit_count - 1) as u16)) & 1 == 1 {
        x | (0xFFFFu16 << bit_count)
    } else {
        x
    }
}

/// The number that a 16-bit word stands for in two's complement.
pub open spec fn signed_value(word: u16) -> int {
    if word >= 0x8000 {
        word - 0x1_0000
    } else {
        word as int
    }
}

/// The number that the low `bit_count` bits of `field` stand for in
/// two's complement, for a field that has no bit set above them.
pub open spec fn field_value(field: u16, bit_count: u16) -> int {
    if field >= (1u16 << ((bit_count - 1) as u16)) {
        field - (1u32 << bit_count)
    } else {
        field as int
    }
}

/// The low eight bits of a word.
pub open spec fn low_byte_of(word: u16) -> u8 {
    (word & 0xFF) as u8
}

/// The high eight bits of a word.
pub open spec fn high_byte_of(word: u16) -> u8 {
    (word >> 8) as u8
}

/// The word whose high byte is `high` and whose low byte is `low`.
pub open spec fn word_of_bytes(high: u8, low: u8) -> u16 {
    (high * 256 + low) as u16
}

/// Adds two words, wrapping around at 2^16.
pub fn add_wrapping(a: u16, b: u16) -> (sum: u16)
    ensures
        sum == wrapping_sum(a, b),
{
    a.wrapping_add(b)
}

/// Extends the sign of the `bit_count`-bit field in the low bits of `x`
/// to the full width of a word.
pub fn extend_sign(x: u16, bit_count: u16) -> (extended: u16)
    requires
        1 <= bit_count <= 15,
    ensures
        extended == sign_extension(x, bit_count),
{
    if (x >> (bit_count - 1)) & 1 == 1 {
        x | (0xFFFFu16 << bit_count)
    } else {
        x
    }
}

/// The low eight bits of a word, as a byte.
pub fn low_byte(word: u16) -> (byte: u8)
    ensures
        byte == low_byte_of(word),
        byte == word % 256,
{
    assert(word & 0xFF == word % 256) by (bit_vector);
    (word & 0xFF) as u8
}

/// The high eight bits of a word, as a byte.
pub fn high_byte(word: u16) -> (byte: u8)
    ensures
        byte == high_byte_of(word),
        byte == word / 256,
{
    assert(word >> 8 == word / 256) by (bit_vector);
    (word >> 8) as u8
}

/// Joins two bytes into a word, the high byte first.
pub fn join_bytes(high: u8, low: u8) -> (word: u16)
    ensures
        word == word_of_bytes(high, low),
        high_byte_of(word) == high,
        low_byte_of(word) == low,
{
    let word: u16 = (high as u16) * 256 + (low as u16);
    assert(word & 0xFF == word % 256) by (bit_vector);
    assert(word >> 8 == word / 256) by (bit_vector);
    word
}

/// Sign extension widens a field without changing the number it stands
/// for: for a field of `bit_count` bits, the extended word read in
/// two's complement over 16 bits is the field read in two's complement
/// over `bit_count` bits.
pub proof fn lemma_sign_extension_keeps_value(field: u16, bit_count: u16)
    requires
        1 <= bit_count <= 15,
        field < (1u32 << bit_count),
    ensures
        signed_value(sign_extension(field, bit_count)) == field_value(field, bit_count),
{
    let extended = sign_extension(field, bit_count);
    let half = 1u16 << ((bit_count - 1) as u16);
    let full = 1u32 << bit_count;
    assert(((field >> ((bit_count - 1) as u16)) & 1 == 1) <==> field >= half) by (bit_vector)
        requires
            1 <= bit_count <= 15,
            field < (1u32 << bit_count),
            half == 1u16 << ((bit_count - 1) as u16),
    ;
    assert(field >= half ==> (field | (0xFFFFu16 << bit_count)) == field + 0x1_0000 - full
        && (field | (0xFFFFu16 << bit_count)) >= 0x8000) by (bit_vector)
        requires
            1 <= bit_count <= 15,
            field < (1u32 << bit_count),
            half == 1u16 << ((bit_count - 1) as u16),
            full == 1u32 << bit_count,
    ;
    assert(field < half ==> field < 0x8000) by (bit_vector)
        requires
            1 <= bit_count <= 15,
            half == 1u16 << ((bit_count - 1) as u16),
    ;
}

/// The case of a five-bit immediate written out: the values 0 to 15
/// stand for themselves and the values 16 to 31 for -16 to -1.
pub proof fn lemma_sign_extension_imm5(imm5: u16)
    requires
        imm5 < 32,
    ensures
        signed_value(sign_extension(imm5, 5)) == (if imm5 >= 16 {
            imm5 - 32
        } else {
            imm5 as int
        }),
{
    assert(1u32 << 5u16 == 32) by (bit_vector);
    assert(1u16 << 4u16 == 16) by (bit_vector);
    lemma_sign_extension_keeps_value(imm5, 5);
}

} // verus!
