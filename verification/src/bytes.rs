//! Additional functionality for working with bytes and words.

use vstd::prelude::*;

verus! {

/// Whether bit `n` of `byte` is set.
#[verifier::opaque]
pub open spec fn bit(byte: u8, n: int) -> bool {
    (byte as int / pow2_u8(n)) % 2 == 1
}

/// `2^n` for the bit positions of a byte.
pub open spec fn pow2_u8(n: int) -> int {
    if n == 0 { 1 }
    else if n == 1 { 2 }
    else if n == 2 { 4 }
    else if n == 3 { 8 }
    else if n == 4 { 16 }
    else if n == 5 { 32 }
    else if n == 6 { 64 }
    else { 128 }
}

/// The byte with bit `n` forced to `set`, all other bits kept.
pub open spec fn with_bit(byte: u8, n: int, set: bool) -> u8 {
    let mask = pow2_u8(n);
    if bit(byte, n) == set {
        byte
    } else if set {
        (byte + mask) as u8
    } else {
        (byte - mask) as u8
    }
}

/// `2^n`, for the bit positions of a byte, as a shifted one.
proof fn lemma_pow2_shift(n: u8)
    requires
        n < 8,
    ensures
        pow2_u8(n as int) == (1u8 << n) as int,
{
    assert(1u8 << 0u8 == 1u8 && 1u8 << 1u8 == 2u8 && 1u8 << 2u8 == 4u8 && 1u8 << 3u8 == 8u8 && 1u8 << 4u8 == 16u8
        && 1u8 << 5u8 == 32u8 && 1u8 << 6u8 == 64u8 && 1u8 << 7u8 == 128u8) by (bit_vector);
}

/// Bit `n` of a byte, read by shifting.
pub proof fn lemma_bit_shift(byte: u8, n: u8)
    requires
        n < 8,
    ensures
        bit(byte, n as int) == ((byte >> n) & 1 == 1),
{
    reveal(bit);
    lemma_pow2_shift(n);
    assert((byte / (1u8 << n)) % 2 == 1 <==> (byte >> n) & 1 == 1) by (bit_vector)
        requires
            n < 8;
}

/// Setting or clearing bit `n` of a byte sets or clears that bit and keeps all the others.
pub proof fn lemma_with_bit(byte: u8, n: u8, set: bool, m: u8)
    requires
        n < 8,
        m < 8,
    ensures
        bit(with_bit(byte, n as int, set), n as int) == set,
        m != n ==> bit(with_bit(byte, n as int, set), m as int) == bit(byte, m as int),
{
    lemma_pow2_shift(n);
    lemma_bit_shift(byte, n);
    lemma_bit_shift(byte, m);
    let r = with_bit(byte, n as int, set);
    lemma_bit_shift(r, n);
    lemma_bit_shift(r, m);
    if bit(byte, n as int) != set {
        if set {
            assert(r == (byte + (1u8 << n)) as u8);
            assert((byte >> n) & 1 != 1 ==> ((((byte + (1u8 << n)) as u8) >> n) & 1 == 1
                && (m != n ==> (((byte + (1u8 << n)) as u8) >> m) & 1 == (byte >> m) & 1))) by (bit_vector)
                requires
                    n < 8,
                    m < 8;
        } else {
            assert(r == (byte - (1u8 << n)) as u8);
            assert((byte >> n) & 1 == 1 ==> ((((byte - (1u8 << n)) as u8) >> n) & 1 != 1
                && (m != n ==> (((byte - (1u8 << n)) as u8) >> m) & 1 == (byte >> m) & 1))) by (bit_vector)
                requires
                    n < 8,
                    m < 8;
        }
    }
}

/// A byte with the given eight bits, bit 0 first.
pub open spec fn byte_of_bits(b0: bool, b1: bool, b2: bool, b3: bool, b4: bool, b5: bool, b6: bool, b7: bool) -> u8 {
    ((if b0 { 1int } else { 0 }) + (if b1 { 2int } else { 0 }) + (if b2 { 4int } else { 0 })
        + (if b3 { 8int } else { 0 }) + (if b4 { 16int } else { 0 }) + (if b5 { 32int } else { 0 })
        + (if b6 { 64int } else { 0 }) + (if b7 { 128int } else { 0 })) as u8
}

/// Reading back the bits of a byte built from bits.
pub proof fn lemma_bits_of_byte(b0: bool, b1: bool, b2: bool, b3: bool, b4: bool, b5: bool, b6: bool, b7: bool)
    ensures
        ({
            let b = byte_of_bits(b0, b1, b2, b3, b4, b5, b6, b7);
            &&& bit(b, 0) == b0
            &&& bit(b, 1) == b1
            &&& bit(b, 2) == b2
            &&& bit(b, 3) == b3
            &&& bit(b, 4) == b4
            &&& bit(b, 5) == b5
            &&& bit(b, 6) == b6
            &&& bit(b, 7) == b7
        }),
{
    reveal(bit);
}

/// Packs eight bits into a byte, bit 0 first.
pub fn pack_bits(b0: bool, b1: bool, b2: bool, b3: bool, b4: bool, b5: bool, b6: bool, b7: bool) -> (r: u8)
    ensures
        r == byte_of_bits(b0, b1, b2, b3, b4, b5, b6, b7),
{
    (if b0 { 1u8 } else { 0 }) + (if b1 { 2u8 } else { 0 }) + (if b2 { 4u8 } else { 0 })
        + (if b3 { 8u8 } else { 0 }) + (if b4 { 16u8 } else { 0 }) + (if b5 { 32u8 } else { 0 })
        + (if b6 { 64u8 } else { 0 }) + (if b7 { 128u8 } else { 0 })
}

/// The single-bit mask `1 << n`.
pub fn bit_mask(n: u8) -> (m: u8)
    requires
        n <= 7,
    ensures
        m == pow2_u8(n as int),
{
    match n {
        0 => 1,
        1 => 2,
        2 => 4,
        3 => 8,
        4 => 16,
        5 => 32,
        6 => 64,
        _ => 128,
    }
}

/// Additional methods for `u8`.
pub trait ByteExt: Sized {
    /// Returns whether the byte has its nth bit set.
    fn has_bit_set(&self, n: u8) -> bool
        requires
            n <= 7,
    ;

    /// If `set` is true, flips bit `n` on, and vice-versa.
    fn set_bit(&mut self, n: u8, set: bool)
        requires
            n <= 7,
    ;

    /// Returns the wrapped sum and whether there was a carry from bit 3 to bit 4.
    fn half_carry_add(&self, other: Self) -> (Self, bool);

    /// Returns the wrapped difference and whether there was a borrow from bit 4 to bit 3.
    fn half_carry_sub(&self, other: Self) -> (Self, bool);
}

impl ByteExt for u8 {
    fn has_bit_set(&self, n: u8) -> (r: bool)
        ensures
            r == bit(*self, n as int),
    {
        proof {
            reveal(bit);
        }
        (*self / bit_mask(n)) % 2 == 1
    }

    fn set_bit(&mut self, n: u8, set: bool)
        ensures
            *final(self) == with_bit(*old(self), n as int, set),
    {
        proof {
            reveal(bit);
            reveal(with_bit);
        }
        let m = bit_mask(n);
        let is_set = (*self / m) % 2 == 1;
        if set && !is_set {
            *self = *self + m;
        } else if !set && is_set {
            *self = *self - m;
        }
    }

    fn half_carry_add(&self, other: u8) -> (r: (u8, bool))
        ensures
            r.0 == (*self as int + other as int) % 256,
            r.1 == (*self as int % 16 + other as int % 16 >= 16),
    {
        let is_half_carry = (*self % 16) + (other % 16) >= 16;
        (self.wrapping_add(other), is_half_carry)
    }

    fn half_carry_sub(&self, other: u8) -> (r: (u8, bool))
        ensures
            r.0 == (*self as int - other as int + 256) % 256,
            r.1 == (*self as int % 16 < other as int % 16),
    {
        let is_half_carry = (*self % 16) < (other % 16);
        (self.wrapping_sub(other), is_half_carry)
    }
}

/// Additional methods for `u16`.
pub trait WordExt: Sized {
    /// Returns the low byte (bits 0-7) of the word.
    fn lo(&self) -> u8;

    /// Returns the high byte (bits 8-15) of the word.
    fn hi(&self) -> u8;

    /// Returns the wrapped sum and whether there was a carry from bit 11 to bit 12.
    fn half_carry_add(&self, other: u16) -> (Self, bool);
}

impl WordExt for u16 {
    fn lo(&self) -> (r: u8)
        ensures
            r == *self as int % 256,
    {
        (*self % 256) as u8
    }

    fn hi(&self) -> (r: u8)
        ensures
            r == *self as int / 256,
    {
        (*self / 256) as u8
    }

    fn half_carry_add(&self, other: u16) -> (r: (u16, bool))
        ensures
            r.0 == (*self as int + other as int) % 65536,
            r.1 == (*self as int % 4096 + other as int % 4096 >= 4096),
    {
        let is_half_carry = (*self % 4096) + (other % 4096) >= 4096;
        (self.wrapping_add(other), is_half_carry)
    }
}

/// The word made of a high and a low byte.
pub open spec fn word(hi: u8, lo: u8) -> u16 {
    (hi as int * 256 + lo as int) as u16
}

/// Reads a word stored in little-endian order (low byte first).
pub fn read_u16_le(lo: u8, hi: u8) -> (r: u16)
    ensures
        r == word(hi, lo),
{
    (hi as u16) * 256 + (lo as u16)
}

/// Reads a word stored in big-endian order (high byte first).
pub fn read_u16_be(hi: u8, lo: u8) -> (r: u16)
    ensures
        r == word(hi, lo),
{
    (hi as u16) * 256 + (lo as u16)
}

/// Splits a word into its bytes in little-endian order (low byte first).
pub fn write_u16_le(value: u16) -> (r: (u8, u8))
    ensures
        r.0 == value as int % 256,
        r.1 == value as int / 256,
        word(r.1, r.0) == value,
{
    ((value % 256) as u8, (value / 256) as u8)
}

} // verus!
