//! CPU arithmetic on a single byte and the flags.
//!
//! These are the operations that the `INC`/`DEC` instructions and the prefix (`0xCB`)
//! instructions apply to any 8-bit register or to the byte at `(HL)`.

use vstd::prelude::*;

use crate::bytes::{with_bit, ByteExt};
use crate::cpu::registers::{carry_in, flags, Flags};

verus! {

/// Increments a byte by 1 (with overflow).
///
/// Zero: set if the result is 0. Subtract: reset. Half-carry: set on a carry from bit 3.
/// Carry: not affected.
pub fn inc(byte: &mut u8, flags_reg: &mut Flags)
    ensures
        *final(byte) == (*old(byte) as int + 1) % 256,
        *final(flags_reg) == flags(
            *final(byte) == 0,
            false,
            *old(byte) % 16 == 15,
            old(flags_reg).carry,
        ),
{
    let (sum, is_half_carry) = byte.half_carry_add(1);
    *byte = sum;
    flags_reg.zero = sum == 0;
    flags_reg.subtract = false;
    flags_reg.half_carry = is_half_carry;
}

/// Decrements a byte by 1 (with underflow).
///
/// Zero: set if the result is 0. Subtract: set. Half-carry: set on a borrow from bit 4.
/// Carry: not affected.
pub fn dec(byte: &mut u8, flags_reg: &mut Flags)
    ensures
        *final(byte) == (*old(byte) as int + 255) % 256,
        *final(flags_reg) == flags(
            *final(byte) == 0,
            true,
            *old(byte) % 16 == 0,
            old(flags_reg).carry,
        ),
{
    let (difference, is_half_carry) = byte.half_carry_sub(1);
    *byte = difference;
    flags_reg.zero = difference == 0;
    flags_reg.subtract = true;
    flags_reg.half_carry = is_half_carry;
}

/// Rotate left; the leaving bit 7 is copied into bit 0 and into the carry.
pub fn rlc(byte: &mut u8, flags_reg: &mut Flags)
    ensures
        *final(byte) == (*old(byte) as int * 2) % 256 + *old(byte) as int / 128,
        *final(flags_reg) == flags(*final(byte) == 0, false, false, *old(byte) >= 128),
{
    let hi = *byte / 128;
    *byte = (*byte % 128) * 2 + hi;
    *flags_reg = Flags { zero: *byte == 0, subtract: false, half_carry: false, carry: hi == 1 };
}

/// Rotate right; the leaving bit 0 is copied into bit 7 and into the carry.
pub fn rrc(byte: &mut u8, flags_reg: &mut Flags)
    ensures
        *final(byte) == *old(byte) as int / 2 + 128 * (*old(byte) as int % 2),
        *final(flags_reg) == flags(*final(byte) == 0, false, false, *old(byte) % 2 == 1),
{
    let lo = *byte % 2;
    *byte = *byte / 2 + 128 * lo;
    *flags_reg = Flags { zero: *byte == 0, subtract: false, half_carry: false, carry: lo == 1 };
}

/// Rotate left through the carry: bit 0 takes the old carry, the carry takes the leaving bit 7.
pub fn rl(byte: &mut u8, flags_reg: &mut Flags)
    ensures
        *final(byte) == (*old(byte) as int * 2) % 256 + carry_in(*old(flags_reg)),
        *final(flags_reg) == flags(*final(byte) == 0, false, false, *old(byte) >= 128),
{
    let old_carry: u8 = if flags_reg.carry { 1 } else { 0 };
    let new_carry = *byte >= 128;
    *byte = (*byte % 128) * 2 + old_carry;
    *flags_reg = Flags { zero: *byte == 0, subtract: false, half_carry: false, carry: new_carry };
}

/// Rotate right through the carry: bit 7 takes the old carry, the carry takes the leaving bit 0.
pub fn rr(byte: &mut u8, flags_reg: &mut Flags)
    ensures
        *final(byte) == *old(byte) as int / 2 + 128 * carry_in(*old(flags_reg)),
        *final(flags_reg) == flags(*final(byte) == 0, false, false, *old(byte) % 2 == 1),
{
    let top: u8 = if flags_reg.carry { 128 } else { 0 };
    let new_carry = *byte % 2 == 1;
    *byte = *byte / 2 + top;
    *flags_reg = Flags { zero: *byte == 0, subtract: false, half_carry: false, carry: new_carry };
}

/// Shift left into the carry; bit 0 is reset.
pub fn sla(byte: &mut u8, flags_reg: &mut Flags)
    ensures
        *final(byte) == (*old(byte) as int * 2) % 256,
        *final(flags_reg) == flags(*final(byte) == 0, false, false, *old(byte) >= 128),
{
    let new_carry = *byte >= 128;
    *byte = (*byte % 128) * 2;
    *flags_reg = Flags { zero: *byte == 0, subtract: false, half_carry: false, carry: new_carry };
}

/// Arithmetic shift right into the carry; bit 7 keeps its value.
pub fn sra(byte: &mut u8, flags_reg: &mut Flags)
    ensures
        *final(byte) == *old(byte) as int / 2 + (if *old(byte) >= 128 { 128int } else { 0 }),
        *final(flags_reg) == flags(*final(byte) == 0, false, false, *old(byte) % 2 == 1),
{
    let top: u8 = if *byte >= 128 { 128 } else { 0 };
    let new_carry = *byte % 2 == 1;
    *byte = *byte / 2 + top;
    *flags_reg = Flags { zero: *byte == 0, subtract: false, half_carry: false, carry: new_carry };
}

/// Swaps the high and low nibbles.
pub fn swap(byte: &mut u8, flags_reg: &mut Flags)
    ensures
        *final(byte) == (*old(byte) as int % 16) * 16 + *old(byte) as int / 16,
        *final(flags_reg) == flags(*final(byte) == 0, false, false, false),
{
    *byte = (*byte % 16) * 16 + *byte / 16;
    *flags_reg = Flags { zero: *byte == 0, subtract: false, half_carry: false, carry: false };
}

/// Logical shift right into the carry; bit 7 is reset.
pub fn srl(byte: &mut u8, flags_reg: &mut Flags)
    ensures
        *final(byte) == *old(byte) as int / 2,
        *final(flags_reg) == flags(*final(byte) == 0, false, false, *old(byte) % 2 == 1),
{
    let new_carry = *byte % 2 == 1;
    *byte = *byte / 2;
    *flags_reg = Flags { zero: *byte == 0, subtract: false, half_carry: false, carry: new_carry };
}

/// Tests bit `n`: the zero flag is set if the bit is clear.
pub fn bit(byte: u8, n: u8, flags_reg: &mut Flags)
    requires
        n <= 7,
    ensures
        *final(flags_reg) == flags(!crate::bytes::bit(byte, n as int), false, true, old(flags_reg).carry),
{
    let set = byte.has_bit_set(n);
    flags_reg.zero = !set;
    flags_reg.subtract = false;
    flags_reg.half_carry = true;
}

/// Resets bit `n`.
pub fn res(byte: &mut u8, n: u8)
    requires
        n <= 7,
    ensures
        *final(byte) == with_bit(*old(byte), n as int, false),
{
    byte.set_bit(n, false);
}

/// Sets bit `n`.
pub fn set(byte: &mut u8, n: u8)
    requires
        n <= 7,
    ensures
        *final(byte) == with_bit(*old(byte), n as int, true),
{
    byte.set_bit(n, true);
}

} // verus!
