//! Bytes and 16-bit words: modular arithmetic and little-endian composition.

use vstd::prelude::*;

verus! {

/// `i` reduced modulo 256.
pub open spec fn wrap8(i: int) -> u8 {
    (i % 0x100) as u8
}

/// `i` reduced modulo 65536.
pub open spec fn wrap16(i: int) -> u16 {
    (i % 0x10000) as u16
}

/// The little-endian word with the given low and high bytes.
pub open spec fn word(low: u8, high: u8) -> u16 {
    (low + 0x100 * high) as u16
}

/// The two's-complement value of a byte, between -128 and 127.
pub open spec fn signed(byte: u8) -> int {
    if byte < 0x80 {
        byte as int
    } else {
        byte - 0x100
    }
}

/// Joins two bytes into a word, low byte first.
pub fn make_word(low: u8, high: u8) -> (w: u16)
    ensures
        w == word(low, high),
{
    let w = low as u16 | (high as u16) << 8;
    assert(low as u16 | (high as u16) << 8 == low + 0x100 * high) by (bit_vector);
    w
}

/// The low byte of a word.
pub fn low_byte(w: u16) -> (b: u8)
    ensures
        b == w % 0x100,
{
    let b = (w & 0xFF) as u8;
    assert(w & 0xFF == w % 0x100) by (bit_vector);
    b
}

/// The high byte of a word.
pub fn high_byte(w: u16) -> (b: u8)
    ensures
        b == w / 0x100,
{
    let b = (w >> 8) as u8;
    assert(w >> 8 == w / 0x100) by (bit_vector);
    b
}

/// The two's-complement value of a byte.
pub fn signed_value(byte: u8) -> (value: i16)
    ensures
        value == signed(byte),
{
    if byte < 0x80 {
        byte as i16
    } else {
        byte as i16 - 0x100
    }
}

/// The address after `address`, modulo 65536.
pub fn following(address: u16) -> (next: u16)
    ensures
        next == wrap16(address + 1),
{
    address.wrapping_add(1)
}

/// The byte after `byte`, modulo 256.
pub fn increment(byte: u8) -> (next: u8)
    ensures
        next == wrap8(byte + 1),
{
    byte.wrapping_add(1)
}

/// The byte before `byte`, modulo 256.
pub fn decrement(byte: u8) -> (previous: u8)
    ensures
        previous == wrap8(byte - 1),
{
    byte.wrapping_sub(1)
}

} // verus!
