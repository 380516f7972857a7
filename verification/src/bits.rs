//! Facts that tie the bitwise operators to arithmetic on bytes.

use vstd::prelude::*;

verus! {

/// Masking a byte with 0x0F keeps its remainder modulo 16, and masking it
/// with 0xF0 removes that remainder.
pub proof fn lemma_low_nibble(v: u8)
    by (bit_vector)
    ensures
        v & 0x0F == v % 16,
        v & 0xF0 == v - v % 16,
        (v & 0x0F == 0) <==> (v % 16 == 0),
{
}

/// The low five bits of a byte are its remainder modulo 32.
pub proof fn lemma_low_five(v: u8)
    by (bit_vector)
    ensures
        v & 0x1F == v % 32,
{
}

/// Shifts and rotations of a byte by one place, and the exchange of its
/// nibbles, as arithmetic.
pub proof fn lemma_shift_byte(v: u8)
    by (bit_vector)
    ensures
        v << 1 == (v % 128) * 2,
        (v << 1) | 1 == (v % 128) * 2 + 1,
        (v << 1) | 0 == (v % 128) * 2,
        (v << 1) | (v >> 7) == (v % 128) * 2 + v / 128,
        v >> 1 == v / 2,
        (v >> 1) | 0x80 == v / 2 + 128,
        (v >> 1) | 0 == v / 2,
        (v >> 1) | (v << 7) == v / 2 + (v % 2) * 128,
        (v >> 1) | (v & 0x80) == v / 2 + (v / 128) * 128,
        (v << 4) | (v >> 4) == (v % 16) * 16 + v / 16,
        (v & 0x80 == 0x80) <==> v >= 128,
        (v & 0x01 == 0x01) <==> v % 2 == 1,
        !v == 255 - v,
{
}

/// The low twelve bits of a 16-bit value are its remainder modulo 4096.
pub proof fn lemma_low_twelve(v: u16)
    by (bit_vector)
    ensures
        v & 0x0FFF == v % 4096,
        v & 0x000F == v % 16,
        v & 0x00FF == v % 256,
{
}

} // verus!
