//! CPU registers and the arithmetic that operates on the accumulator.

use vstd::prelude::*;

use crate::bytes::{bit, lemma_bit_shift, word};
use crate::text::{bin_digits, hex_digits, push_bin, push_hex};

verus! {

/// CPU status flags: the high nibble of register `F`.
///
/// Bit 7 is the zero flag, bit 6 the subtract flag, bit 5 the half-carry flag and bit 4 the
/// carry flag. The low nibble always reads as zero.
#[derive(Debug, Clone, Copy, PartialEq, Eq, Structural)]
pub struct Flags {
    /// Set if the value of the computation is zero.
    pub zero: bool,
    /// Set if the last operation was a subtraction.
    pub subtract: bool,
    /// Set if there was a carry from bit 3 to bit 4.
    pub half_carry: bool,
    /// Set if the result did not fit in the register.
    pub carry: bool,
}

/// The flags with the given values.
pub open spec fn flags(zero: bool, subtract: bool, half_carry: bool, carry: bool) -> Flags {
    Flags { zero, subtract, half_carry, carry }
}

/// The byte that a set of flags reads as.
pub open spec fn flags_byte(f: Flags) -> u8 {
    ((if f.zero { 128int } else { 0 }) + (if f.subtract { 64int } else { 0 }) + (if f.half_carry {
        32int
    } else {
        0
    }) + (if f.carry { 16int } else { 0 })) as u8
}

/// The flags that a byte of register `F` holds; the low nibble is dropped.
pub open spec fn flags_from_byte(b: u8) -> Flags {
    flags(bit(b, 7), bit(b, 6), bit(b, 5), bit(b, 4))
}

impl Flags {
    /// No flag set.
    pub fn empty() -> (r: Flags)
        ensures
            r == flags(false, false, false, false),
    {
        Flags { zero: false, subtract: false, half_carry: false, carry: false }
    }

    /// Every flag set.
    pub fn all() -> (r: Flags)
        ensures
            r == flags(true, true, true, true),
    {
        Flags { zero: true, subtract: true, half_carry: true, carry: true }
    }

    /// Only the zero flag.
    pub fn zero() -> (r: Flags)
        ensures
            r == flags(true, false, false, false),
    {
        Flags { zero: true, subtract: false, half_carry: false, carry: false }
    }

    /// Only the subtract flag.
    pub fn subtract() -> (r: Flags)
        ensures
            r == flags(false, true, false, false),
    {
        Flags { zero: false, subtract: true, half_carry: false, carry: false }
    }

    /// Only the half-carry flag.
    pub fn half_carry() -> (r: Flags)
        ensures
            r == flags(false, false, true, false),
    {
        Flags { zero: false, subtract: false, half_carry: true, carry: false }
    }

    /// Only the carry flag.
    pub fn carry() -> (r: Flags)
        ensures
            r == flags(false, false, false, true),
    {
        Flags { zero: false, subtract: false, half_carry: false, carry: true }
    }

    /// The flags as the high nibble of a byte.
    pub fn bits(&self) -> (r: u8)
        ensures
            r == flags_byte(*self),
    {
        let mut r: u8 = 0;
        if self.zero {
            r = r + 128;
        }
        if self.subtract {
            r = r + 64;
        }
        if self.half_carry {
            r = r + 32;
        }
        if self.carry {
            r = r + 16;
        }
        r
    }

    /// The flags of a byte; the low nibble is ignored.
    pub fn from_bits_truncate(b: u8) -> (r: Flags)
        ensures
            r == flags_from_byte(b),
    {
        proof {
            reveal(bit);
        }
        Flags {
            zero: b / 128 % 2 == 1,
            subtract: b / 64 % 2 == 1,
            half_carry: b / 32 % 2 == 1,
            carry: b / 16 % 2 == 1,
        }
    }

    /// The flags of a byte, or `None` if any bit of the low nibble is set.
    pub fn from_bits(b: u8) -> (r: Option<Flags>)
        ensures
            r == (if b % 16 == 0 { Some(flags_from_byte(b)) } else { None::<Flags> }),
    {
        if b % 16 == 0 {
            Some(Flags::from_bits_truncate(b))
        } else {
            None
        }
    }

    /// Whether every flag of `other` is set in `self`.
    pub fn contains(&self, other: Flags) -> (r: bool)
        ensures
            r == ((other.zero ==> self.zero) && (other.subtract ==> self.subtract) && (
            other.half_carry ==> self.half_carry) && (other.carry ==> self.carry)),
    {
        (!other.zero || self.zero) && (!other.subtract || self.subtract) && (!other.half_carry
            || self.half_carry) && (!other.carry || self.carry)
    }

    /// Whether any flag of `other` is set in `self`.
    pub fn intersects(&self, other: Flags) -> (r: bool)
        ensures
            r == ((other.zero && self.zero) || (other.subtract && self.subtract) || (
            other.half_carry && self.half_carry) || (other.carry && self.carry)),
    {
        (other.zero && self.zero) || (other.subtract && self.subtract) || (other.half_carry
            && self.half_carry) || (other.carry && self.carry)
    }

    /// Whether no flag is set.
    pub fn is_empty(&self) -> (r: bool)
        ensures
            r == (!self.zero && !self.subtract && !self.half_carry && !self.carry),
    {
        !self.zero && !self.subtract && !self.half_carry && !self.carry
    }

    /// The flags set in either operand.
    pub fn union(self, other: Flags) -> (r: Flags)
        ensures
            r == flags_union(self, other),
    {
        Flags {
            zero: self.zero || other.zero,
            subtract: self.subtract || other.subtract,
            half_carry: self.half_carry || other.half_carry,
            carry: self.carry || other.carry,
        }
    }

    /// Sets every flag of `other`.
    pub fn insert(&mut self, other: Flags)
        ensures
            *final(self) == flags_union(*old(self), other),
    {
        *self = self.union(other);
    }

    /// Clears every flag of `other`.
    pub fn remove(&mut self, other: Flags)
        ensures
            *final(self) == flags(
                old(self).zero && !other.zero,
                old(self).subtract && !other.subtract,
                old(self).half_carry && !other.half_carry,
                old(self).carry && !other.carry,
            ),
    {
        self.zero = self.zero && !other.zero;
        self.subtract = self.subtract && !other.subtract;
        self.half_carry = self.half_carry && !other.half_carry;
        self.carry = self.carry && !other.carry;
    }

    /// Sets (if `value`) or clears (if not) every flag of `other`.
    pub fn set(&mut self, other: Flags, value: bool)
        ensures
            *final(self) == flags(
                if other.zero { value } else { old(self).zero },
                if other.subtract { value } else { old(self).subtract },
                if other.half_carry { value } else { old(self).half_carry },
                if other.carry { value } else { old(self).carry },
            ),
    {
        if other.zero {
            self.zero = value;
        }
        if other.subtract {
            self.subtract = value;
        }
        if other.half_carry {
            self.half_carry = value;
        }
        if other.carry {
            self.carry = value;
        }
    }
}

/// The flags set in either operand.
pub open spec fn flags_union(x: Flags, y: Flags) -> Flags {
    flags(x.zero || y.zero, x.subtract || y.subtract, x.half_carry || y.half_carry, x.carry || y.carry)
}

impl core::ops::BitOr for Flags {
    type Output = Flags;

    fn bitor(self, rhs: Flags) -> (r: Flags) {
        self.union(rhs)
    }
}

impl vstd::std_specs::ops::BitOrSpecImpl for Flags {
    open spec fn obeys_bitor_spec() -> bool {
        true
    }

    open spec fn bitor_req(self, rhs: Flags) -> bool {
        true
    }

    open spec fn bitor_spec(self, rhs: Flags) -> Flags {
        flags_union(self, rhs)
    }
}

impl Default for Flags {
    fn default() -> (r: Flags)
        ensures
            r == flags(false, false, false, false),
    {
        Flags::empty()
    }
}

/// The registers: high speed data storage for the CPU.
///
/// The 8-bit registers may be read and written as the word pairs `AF`, `BC`, `DE` and `HL`, the
/// left register being the high byte.
#[derive(Debug, Clone, Copy, PartialEq, Eq, Structural)]
pub struct Registers {
    /// Accumulator.
    pub a: u8,
    /// Status flags.
    pub f: Flags,
    /// General purpose register `B`.
    pub b: u8,
    /// General purpose register `C`.
    pub c: u8,
    /// General purpose register `D`.
    pub d: u8,
    /// General purpose register `E`.
    pub e: u8,
    /// General purpose register `H`.
    pub h: u8,
    /// General purpose register `L`.
    pub l: u8,
    /// Program counter.
    pub pc: u16,
    /// Stack pointer.
    pub sp: u16,
}

/// The carry flag as a number.
pub open spec fn carry_in(f: Flags) -> int {
    if f.carry { 1 } else { 0 }
}

/// The accumulator and flags after adding `rhs` and `carry` (0 or 1) to `a`.
pub open spec fn add_result(a: u8, rhs: u8, carry: int) -> (u8, Flags) {
    let sum = (a + rhs + carry) % 256;
    (
        sum as u8,
        flags(sum == 0, false, a % 16 + rhs % 16 + carry >= 16, a + rhs + carry >= 256),
    )
}

/// The accumulator and flags after subtracting `rhs` and `carry` (0 or 1) from `a`.
pub open spec fn sub_result(a: u8, rhs: u8, carry: int) -> (u8, Flags) {
    let diff = (a - rhs - carry + 512) % 256;
    (diff as u8, flags(diff == 0, true, a % 16 < rhs % 16 + carry, a < rhs + carry))
}

/// The flags after adding the signed byte `rhs` to the stack pointer `sp`: carry and half carry
/// are those of adding `rhs`, taken as unsigned, to the low byte of `sp`.
pub open spec fn sp_r8_flags(sp: u16, rhs: i8) -> Flags {
    let lo = sp % 256;
    let r = (rhs + 256) % 256;
    flags(false, false, lo % 16 + r % 16 >= 16, lo + r >= 256)
}

/// `sp` plus a signed byte, wrapped to 16 bits.
pub open spec fn sp_plus(sp: u16, rhs: i8) -> u16 {
    ((sp + rhs + 65536) % 65536) as u16
}

/// The accumulator and flags after the decimal adjustment of `a` under flags `f`.
pub open spec fn daa_result(a: u8, f: Flags) -> (u8, Flags) {
    let carry = a > 0x99 || f.carry;
    let correction = (if carry { 0x60int } else { 0 }) + (if a % 16 > 9 || f.half_carry {
        6int
    } else {
        0
    });
    let a2 = (if f.subtract { (a - correction + 256) % 256 } else { (a + correction) % 256 }) as u8;
    (a2, flags(a2 == 0, f.subtract, bit(a, 4) == bit(a2, 4), carry))
}

/// Whether a byte holds a binary-coded decimal number: both nibbles at most 9.
pub open spec fn is_bcd(v: u8) -> bool {
    v % 16 <= 9 && v / 16 <= 9
}

/// The number that a binary-coded decimal byte holds.
pub open spec fn bcd_value(v: u8) -> int {
    10 * (v / 16) + v % 16
}

/// The binary-coded decimal byte of a number below 100.
pub open spec fn bcd_of(n: int) -> u8 {
    (16 * (n / 10) + n % 10) as u8
}

/// The decimal adjustment of a sum of two binary-coded decimal bytes, bit by bit.
proof fn lemma_daa_add_bits(x: u8, y: u8)
    by (bit_vector)
    requires
        x % 16 <= 9,
        x / 16 <= 9,
        y % 16 <= 9,
        y / 16 <= 9,
    ensures
        ({
            let a = ((x + y) % 256) as u8;
            let c = a > 0x99 || x + y >= 256;
            let corr = (if c { 0x60u8 } else { 0u8 }) + (if a % 16 > 9 || x % 16 + y % 16 >= 16 { 6u8 } else { 0u8 });
            let r = ((a + corr) % 256) as u8;
            let n = 10 * (x / 16) + x % 16 + 10 * (y / 16) + y % 16;
            &&& r == 16 * ((n % 100) / 10) + (n % 100) % 10
            &&& c == (n >= 100)
        }),
{
}

/// The decimal adjustment of a difference of two binary-coded decimal bytes, bit by bit.
proof fn lemma_daa_sub_bits(x: u8, y: u8)
    by (bit_vector)
    requires
        x % 16 <= 9,
        x / 16 <= 9,
        y % 16 <= 9,
        y / 16 <= 9,
    ensures
        ({
            let a = ((x - y + 512) % 256) as u8;
            let c = a > 0x99 || x < y;
            let corr = (if c { 0x60u8 } else { 0u8 }) + (if a % 16 > 9 || x % 16 < y % 16 { 6u8 } else { 0u8 });
            let r = ((a - corr + 256) % 256) as u8;
            let n = 10 * (x / 16) + x % 16 + 100 - (10 * (y / 16) + y % 16);
            &&& r == 16 * ((n % 100) / 10) + (n % 100) % 10
            &&& c == (10 * (x / 16) + x % 16 < 10 * (y / 16) + y % 16)
        }),
{
}

/// Decimal adjustment after adding two binary-coded decimal numbers gives their sum, modulo
/// 100, in binary-coded decimal, with the carry flag set where the sum reaches 100.
pub proof fn lemma_daa_after_add(x: u8, y: u8)
    requires
        is_bcd(x),
        is_bcd(y),
    ensures
        daa_result(add_result(x, y, 0).0, add_result(x, y, 0).1).0 == bcd_of((bcd_value(x) + bcd_value(y)) % 100),
        daa_result(add_result(x, y, 0).0, add_result(x, y, 0).1).1.carry == (bcd_value(x) + bcd_value(y) >= 100),
        daa_result(add_result(x, y, 0).0, add_result(x, y, 0).1).1.zero == (daa_result(add_result(x, y, 0).0, add_result(x, y, 0).1).0 == 0),
        !daa_result(add_result(x, y, 0).0, add_result(x, y, 0).1).1.subtract,
{
    lemma_daa_add_bits(x, y);
}

/// Decimal adjustment after subtracting two binary-coded decimal numbers gives their
/// difference, modulo 100, in binary-coded decimal, with the carry flag set where a borrow
/// was needed.
pub proof fn lemma_daa_after_sub(x: u8, y: u8)
    requires
        is_bcd(x),
        is_bcd(y),
    ensures
        daa_result(sub_result(x, y, 0).0, sub_result(x, y, 0).1).0 == bcd_of((bcd_value(x) - bcd_value(y) + 100) % 100),
        daa_result(sub_result(x, y, 0).0, sub_result(x, y, 0).1).1.carry == (bcd_value(x) < bcd_value(y)),
        daa_result(sub_result(x, y, 0).0, sub_result(x, y, 0).1).1.zero == (daa_result(sub_result(x, y, 0).0, sub_result(x, y, 0).1).0 == 0),
        daa_result(sub_result(x, y, 0).0, sub_result(x, y, 0).1).1.subtract,
{
    lemma_daa_sub_bits(x, y);
}

impl Registers {
    /// Create a new register set, with every register zero.
    pub fn new() -> (r: Self)
        ensures
            r == registers_zero(),
    {
        Registers {
            a: 0,
            f: Flags::empty(),
            b: 0,
            c: 0,
            d: 0,
            e: 0,
            h: 0,
            l: 0,
            pc: 0,
            sp: 0,
        }
    }

    pub open spec fn spec_af(self) -> u16 {
        word(self.a, flags_byte(self.f))
    }

    pub open spec fn spec_bc(self) -> u16 {
        word(self.b, self.c)
    }

    pub open spec fn spec_de(self) -> u16 {
        word(self.d, self.e)
    }

    pub open spec fn spec_hl(self) -> u16 {
        word(self.h, self.l)
    }

    /// Returns register pair `AF`.
    pub fn af(&self) -> (r: u16)
        ensures
            r == self.spec_af(),
    {
        (self.a as u16) * 256 + (self.f.bits() as u16)
    }

    /// Returns register pair `BC`.
    pub fn bc(&self) -> (r: u16)
        ensures
            r == self.spec_bc(),
    {
        (self.b as u16) * 256 + (self.c as u16)
    }

    /// Returns register pair `DE`.
    pub fn de(&self) -> (r: u16)
        ensures
            r == self.spec_de(),
    {
        (self.d as u16) * 256 + (self.e as u16)
    }

    /// Returns register pair `HL`.
    pub fn hl(&self) -> (r: u16)
        ensures
            r == self.spec_hl(),
    {
        (self.h as u16) * 256 + (self.l as u16)
    }

    /// Returns register pair `BC`.
    pub fn read_bc(&self) -> (r: u16)
        ensures
            r == self.spec_bc(),
    {
        self.bc()
    }

    /// Returns register pair `DE`.
    pub fn read_de(&self) -> (r: u16)
        ensures
            r == self.spec_de(),
    {
        self.de()
    }

    /// Returns register pair `HL`.
    pub fn read_hl(&self) -> (r: u16)
        ensures
            r == self.spec_hl(),
    {
        self.hl()
    }

    /// Writes register pair `AF`; the low nibble of the low byte is dropped.
    pub fn write_af(&mut self, value: u16)
        ensures
            *final(self) == (Registers {
                a: (value / 256) as u8,
                f: flags_from_byte((value % 256) as u8),
                ..*old(self)
            }),
    {
        self.a = (value / 256) as u8;
        self.f = Flags::from_bits_truncate((value % 256) as u8);
    }

    /// Writes register pair `BC`.
    pub fn write_bc(&mut self, value: u16)
        ensures
            *final(self) == (Registers { b: (value / 256) as u8, c: (value % 256) as u8, ..*old(self) }),
            final(self).spec_bc() == value,
    {
        self.b = (value / 256) as u8;
        self.c = (value % 256) as u8;
    }

    /// Writes register pair `DE`.
    pub fn write_de(&mut self, value: u16)
        ensures
            *final(self) == (Registers { d: (value / 256) as u8, e: (value % 256) as u8, ..*old(self) }),
            final(self).spec_de() == value,
    {
        self.d = (value / 256) as u8;
        self.e = (value % 256) as u8;
    }

    /// Writes register pair `HL`.
    pub fn write_hl(&mut self, value: u16)
        ensures
            *final(self) == (Registers { h: (value / 256) as u8, l: (value % 256) as u8, ..*old(self) }),
            final(self).spec_hl() == value,
    {
        self.h = (value / 256) as u8;
        self.l = (value % 256) as u8;
    }

    /// Bitwise ANDs a byte with the accumulator and sets the flags appropriately.
    pub fn and(&mut self, rhs: u8)
        ensures
            *final(self) == (Registers {
                a: old(self).a & rhs,
                f: flags(old(self).a & rhs == 0, false, true, false),
                ..*old(self)
            }),
    {
        self.a = self.a & rhs;
        self.f = Flags { zero: self.a == 0, subtract: false, half_carry: true, carry: false };
    }

    /// Compares a byte with the accumulator: the flags are set as by a subtraction, and the
    /// accumulator is left unchanged.
    pub fn cp(&mut self, rhs: u8)
        ensures
            *final(self) == (Registers { f: sub_result(old(self).a, rhs, 0).1, ..*old(self) }),
    {
        let a = self.a;
        self.sub(rhs);
        self.a = a;
    }

    /// Adds a byte to the accumulator and sets the flags appropriately.
    pub fn add(&mut self, rhs: u8)
        ensures
            *final(self) == (Registers {
                a: add_result(old(self).a, rhs, 0).0,
                f: add_result(old(self).a, rhs, 0).1,
                ..*old(self)
            }),
    {
        self.f.carry = false;
        self.adc(rhs);
    }

    /// Adds a byte and the value of the carry flag to the accumulator and sets the flags
    /// appropriately.
    pub fn adc(&mut self, rhs: u8)
        ensures
            *final(self) == (Registers {
                a: add_result(old(self).a, rhs, carry_in(old(self).f)).0,
                f: add_result(old(self).a, rhs, carry_in(old(self).f)).1,
                ..*old(self)
            }),
    {
        let carry: u16 = if self.f.carry { 1 } else { 0 };
        let a = self.a as u16;
        let r = rhs as u16;
        let total = a + r + carry;
        let sum = (total % 256) as u8;
        self.f = Flags {
            zero: sum == 0,
            subtract: false,
            half_carry: a % 16 + r % 16 + carry >= 16,
            carry: total >= 256,
        };
        self.a = sum;
    }

    /// Adds a 16-bit number to the register pair `HL` and sets the flags appropriately; the zero
    /// flag is kept.
    pub fn add_hl(&mut self, rhs: u16)
        ensures
            final(self).spec_hl() == (old(self).spec_hl() + rhs) % 65536,
            *final(self) == (Registers {
                h: final(self).h,
                l: final(self).l,
                f: flags(
                    old(self).f.zero,
                    false,
                    old(self).spec_hl() % 4096 + rhs % 4096 >= 4096,
                    old(self).spec_hl() + rhs >= 65536,
                ),
                ..*old(self)
            }),
    {
        let hl = self.hl() as u32;
        let r = rhs as u32;
        let sum = ((hl + r) % 65536) as u16;
        self.write_hl(sum);
        self.f.subtract = false;
        self.f.half_carry = hl % 4096 + r % 4096 >= 4096;
        self.f.carry = hl + r >= 65536;
    }

    /// Adds a signed byte to the stack pointer and sets the flags appropriately.
    pub fn add_sp(&mut self, rhs: i8)
        ensures
            *final(self) == (Registers {
                sp: sp_plus(old(self).sp, rhs),
                f: sp_r8_flags(old(self).sp, rhs),
                ..*old(self)
            }),
    {
        self.set_sp_r8_flags(rhs);
        self.sp = sp_add_signed(self.sp, rhs);
    }

    /// Places the result of adding a signed byte to the stack pointer in the register pair `HL`,
    /// and sets the flags appropriately.
    pub fn ld_hl_sp_r8(&mut self, rhs: i8)
        ensures
            final(self).spec_hl() == sp_plus(old(self).sp, rhs),
            *final(self) == (Registers {
                h: final(self).h,
                l: final(self).l,
                f: sp_r8_flags(old(self).sp, rhs),
                ..*old(self)
            }),
    {
        self.set_sp_r8_flags(rhs);
        let value = sp_add_signed(self.sp, rhs);
        self.write_hl(value);
    }

    /// Subtracts a byte from the accumulator and sets the flags appropriately.
    pub fn sub(&mut self, rhs: u8)
        ensures
            *final(self) == (Registers {
                a: sub_result(old(self).a, rhs, 0).0,
                f: sub_result(old(self).a, rhs, 0).1,
                ..*old(self)
            }),
    {
        self.f.carry = false;
        self.sbc(rhs);
    }

    /// Subtracts a byte and the carry flag from the accumulator and sets the flags
    /// appropriately.
    pub fn sbc(&mut self, rhs: u8)
        ensures
            *final(self) == (Registers {
                a: sub_result(old(self).a, rhs, carry_in(old(self).f)).0,
                f: sub_result(old(self).a, rhs, carry_in(old(self).f)).1,
                ..*old(self)
            }),
    {
        let carry: u16 = if self.f.carry { 1 } else { 0 };
        let a = self.a as u16;
        let r = rhs as u16;
        let diff = ((a + 512 - r - carry) % 256) as u8;
        self.f = Flags {
            zero: diff == 0,
            subtract: true,
            half_carry: a % 16 < r % 16 + carry,
            carry: a < r + carry,
        };
        self.a = diff;
    }

    /// Performs an exclusive OR with the accumulator and sets the zero flag appropriately. Unsets
    /// the other flags.
    pub fn xor(&mut self, rhs: u8)
        ensures
            *final(self) == (Registers {
                a: old(self).a ^ rhs,
                f: flags(old(self).a ^ rhs == 0, false, false, false),
                ..*old(self)
            }),
    {
        self.a = self.a ^ rhs;
        self.f = Flags { zero: self.a == 0, subtract: false, half_carry: false, carry: false };
    }

    /// Performs an OR with the accumulator and sets the zero flag appropriately. Unsets the other
    /// flags.
    pub fn or(&mut self, rhs: u8)
        ensures
            *final(self) == (Registers {
                a: old(self).a | rhs,
                f: flags(old(self).a | rhs == 0, false, false, false),
                ..*old(self)
            }),
    {
        self.a = self.a | rhs;
        self.f = Flags { zero: self.a == 0, subtract: false, half_carry: false, carry: false };
    }

    /// Performs a decimal adjust (DAA) operation on register A so that the correct representation
    /// of Binary Coded Decimal (BCD) is obtained.
    pub fn daa(&mut self)
        ensures
            *final(self) == (Registers {
                a: daa_result(old(self).a, old(self).f).0,
                f: daa_result(old(self).a, old(self).f).1,
                ..*old(self)
            }),
    {
        let a = self.a;
        let f = self.f;
        let carry = a > 0x99 || f.carry;
        let hi_fix: u16 = if carry { 0x60 } else { 0 };
        let lo_fix: u16 = if a % 16 > 9 || f.half_carry { 6 } else { 0 };
        let correction = hi_fix + lo_fix;
        let a2 = if f.subtract {
            ((a as u16 + 256 - correction) % 256) as u8
        } else {
            ((a as u16 + correction) % 256) as u8
        };
        proof {
            reveal(bit);
        }
        assert(crate::bytes::pow2_u8(4) == 16);
        self.a = a2;
        self.f = Flags {
            zero: a2 == 0,
            subtract: f.subtract,
            half_carry: (a / 16) % 2 == (a2 / 16) % 2,
            carry: carry,
        };
    }

    /// Rotates register A left one bit; the leaving bit is copied into the carry flag, and the
    /// other flags are reset.
    pub fn rlc(&mut self)
        ensures
            *final(self) == (Registers {
                a: ((old(self).a * 2) % 256 + old(self).a / 128) as u8,
                f: flags(false, false, false, old(self).a >= 128),
                ..*old(self)
            }),
    {
        let hi = self.a / 128;
        self.a = (self.a % 128) * 2 + hi;
        self.f = Flags { zero: false, subtract: false, half_carry: false, carry: hi == 1 };
    }

    /// Rotates register A left one bit (`RLCA`); the same as `rlc`.
    pub fn rlca(&mut self)
        ensures
            *final(self) == (Registers {
                a: ((old(self).a * 2) % 256 + old(self).a / 128) as u8,
                f: flags(false, false, false, old(self).a >= 128),
                ..*old(self)
            }),
    {
        self.rlc();
    }

    /// Rotates register A left one bit through the carry flag (`RLA`): bit 0 takes the old carry
    /// and the carry takes the leaving bit. The other flags are reset.
    pub fn rla(&mut self)
        ensures
            *final(self) == (Registers {
                a: ((old(self).a * 2) % 256 + carry_in(old(self).f)) as u8,
                f: flags(false, false, false, old(self).a >= 128),
                ..*old(self)
            }),
    {
        let old_carry: u8 = if self.f.carry { 1 } else { 0 };
        let hi = self.a / 128;
        self.a = (self.a % 128) * 2 + old_carry;
        self.f = Flags { zero: false, subtract: false, half_carry: false, carry: hi == 1 };
    }

    /// Rotates register A right one bit through the carry flag: bit 7 takes the old carry and the
    /// carry takes the leaving bit. The other flags are reset.
    pub fn rr(&mut self)
        ensures
            *final(self) == (Registers {
                a: (old(self).a / 2 + 128 * carry_in(old(self).f)) as u8,
                f: flags(false, false, false, old(self).a % 2 == 1),
                ..*old(self)
            }),
    {
        let new_carry = self.a % 2 == 1;
        let top: u8 = if self.f.carry { 128 } else { 0 };
        self.a = self.a / 2 + top;
        self.f = Flags { zero: false, subtract: false, half_carry: false, carry: new_carry };
    }

    /// Rotates register A right one bit through the carry flag (`RRA`); the same as `rr`.
    pub fn rra(&mut self)
        ensures
            *final(self) == (Registers {
                a: (old(self).a / 2 + 128 * carry_in(old(self).f)) as u8,
                f: flags(false, false, false, old(self).a % 2 == 1),
                ..*old(self)
            }),
    {
        self.rr();
    }

    /// Rotates register A right one bit; the leaving bit is copied into the carry flag, and the
    /// other flags are reset.
    pub fn rrc(&mut self)
        ensures
            *final(self) == (Registers {
                a: (old(self).a / 2 + 128 * (old(self).a % 2)) as u8,
                f: flags(false, false, false, old(self).a % 2 == 1),
                ..*old(self)
            }),
    {
        let lo = self.a % 2;
        self.a = self.a / 2 + 128 * lo;
        self.f = Flags { zero: false, subtract: false, half_carry: false, carry: lo == 1 };
    }

    /// Rotates register A right one bit (`RRCA`); the same as `rrc`.
    pub fn rrca(&mut self)
        ensures
            *final(self) == (Registers {
                a: (old(self).a / 2 + 128 * (old(self).a % 2)) as u8,
                f: flags(false, false, false, old(self).a % 2 == 1),
                ..*old(self)
            }),
    {
        self.rrc();
    }

    /// Inverts all bits in `A` and sets the subtract and half-carry flags.
    pub fn cpl(&mut self)
        ensures
            *final(self) == (Registers {
                a: (255 - old(self).a) as u8,
                f: flags(old(self).f.zero, true, true, old(self).f.carry),
                ..*old(self)
            }),
    {
        self.a = 255 - self.a;
        self.f.subtract = true;
        self.f.half_carry = true;
    }

    /// Complements the carry flag and resets the subtract and half-carry flags.
    pub fn ccf(&mut self)
        ensures
            *final(self) == (Registers {
                f: flags(old(self).f.zero, false, false, !old(self).f.carry),
                ..*old(self)
            }),
    {
        self.f.subtract = false;
        self.f.half_carry = false;
        self.f.carry = !self.f.carry;
    }

    /// Sets the carry flag and resets the subtract and half-carry flags.
    pub fn scf(&mut self)
        ensures
            *final(self) == (Registers {
                f: flags(old(self).f.zero, false, false, true),
                ..*old(self)
            }),
    {
        self.f.subtract = false;
        self.f.half_carry = false;
        self.f.carry = true;
    }

    /// Sets the flags for adding a signed byte to the stack pointer: the carry and half-carry are
    /// set as if the signed byte were unsigned and added to the low byte of `SP`.
    fn set_sp_r8_flags(&mut self, rhs: i8)
        ensures
            *final(self) == (Registers { f: sp_r8_flags(old(self).sp, rhs), ..*old(self) }),
    {
        let low = (self.sp % 256) as u16;
        let r: u16 = if rhs < 0 { (rhs as i16 + 256) as u16 } else { rhs as u16 };
        self.f = Flags {
            zero: false,
            subtract: false,
            half_carry: low % 16 + r % 16 >= 16,
            carry: low + r >= 256,
        };
    }

    /// The registers as the debugger shows them: each in hexadecimal, the 8-bit ones in pairs,
    /// then the flags in binary under their letters.
    pub fn to_string(&self) -> (r: String)
        ensures
            r@ == registers_text(*self),
    {
        let mut s = String::from_str("A 0x");
        push_hex(&mut s, self.a as u32, 2);
        s.append("\nB 0x");
        push_hex(&mut s, self.b as u32, 2);
        s.append("  0x");
        push_hex(&mut s, self.c as u32, 2);
        s.append(" C\nD 0x");
        push_hex(&mut s, self.d as u32, 2);
        s.append("  0x");
        push_hex(&mut s, self.e as u32, 2);
        s.append(" E\nH 0x");
        push_hex(&mut s, self.h as u32, 2);
        s.append("  0x");
        push_hex(&mut s, self.l as u32, 2);
        s.append(" L\n\nSP 0x");
        push_hex(&mut s, self.sp as u32, 4);
        s.append("\nPC 0x");
        push_hex(&mut s, self.pc as u32, 4);
        s.append("\n\n  ZNHC\nF ");
        push_bin(&mut s, self.f.bits() as u32, 8);
        s.append("\n");
        s
    }
}

/// The registers as the debugger shows them.
pub open spec fn registers_text(r: Registers) -> Seq<char> {
    "A 0x"@ + hex_digits(r.a as int, 2) + "\nB 0x"@ + hex_digits(r.b as int, 2) + "  0x"@ + hex_digits(r.c as int, 2)
        + " C\nD 0x"@ + hex_digits(r.d as int, 2) + "  0x"@ + hex_digits(r.e as int, 2) + " E\nH 0x"@
        + hex_digits(r.h as int, 2) + "  0x"@ + hex_digits(r.l as int, 2) + " L\n\nSP 0x"@ + hex_digits(r.sp as int, 4)
        + "\nPC 0x"@ + hex_digits(r.pc as int, 4) + "\n\n  ZNHC\nF "@ + bin_digits(flags_byte(r.f) as int, 8) + "\n"@
}

/// A register set with every register zero.
pub open spec fn registers_zero() -> Registers {
    Registers {
        a: 0,
        f: flags(false, false, false, false),
        b: 0,
        c: 0,
        d: 0,
        e: 0,
        h: 0,
        l: 0,
        pc: 0,
        sp: 0,
    }
}

/// `sp` plus a signed byte, wrapped to 16 bits.
pub fn sp_add_signed(sp: u16, rhs: i8) -> (r: u16)
    ensures
        r == sp_plus(sp, rhs),
{
    let v = (sp as i32) + (rhs as i32) + 65536;
    (v % 65536) as u16
}

impl Default for Registers {
    fn default() -> (r: Registers)
        ensures
            r == registers_zero(),
    {
        Registers::new()
    }
}

/// A register pair: `AF`, `BC`, `DE` or `HL`.
#[derive(Debug, Clone, Copy, PartialEq, Eq, Structural)]
pub enum Pair {
    AF,
    BC,
    DE,
    HL,
}

/// The value of a register pair, the left register being the high byte.
pub open spec fn pair_value(r: Registers, pair: Pair) -> u16 {
    match pair {
        Pair::AF => r.spec_af(),
        Pair::BC => r.spec_bc(),
        Pair::DE => r.spec_de(),
        Pair::HL => r.spec_hl(),
    }
}

/// The registers with a register pair written. Register `F` keeps the flags of the low byte's
/// high nibble.
pub open spec fn pair_written(r: Registers, pair: Pair, value: u16) -> Registers {
    let (hi, lo) = ((value / 256) as u8, (value % 256) as u8);
    match pair {
        Pair::AF => Registers { a: hi, f: flags_from_byte(lo), ..r },
        Pair::BC => Registers { b: hi, c: lo, ..r },
        Pair::DE => Registers { d: hi, e: lo, ..r },
        Pair::HL => Registers { h: hi, l: lo, ..r },
    }
}

/// Register `F` reads back the high nibble of the byte written to it; the low nibble reads zero.
pub proof fn lemma_flags_roundtrip(b: u8)
    ensures
        flags_byte(flags_from_byte(b)) == b - b % 16,
{
    lemma_bit_shift(b, 4);
    lemma_bit_shift(b, 5);
    lemma_bit_shift(b, 6);
    lemma_bit_shift(b, 7);
    assert((if (b >> 7u8) & 1 == 1 { 128int } else { 0int }) + (if (b >> 6u8) & 1 == 1 { 64int } else { 0int })
        + (if (b >> 5u8) & 1 == 1 { 32int } else { 0int }) + (if (b >> 4u8) & 1 == 1 { 16int } else { 0int })
        == b - b % 16) by (bit_vector);
}

/// Reading a register pair gives back the word written to it, but for the low nibble of `F`,
/// which reads zero; the other pairs keep their values.
pub proof fn lemma_pair_roundtrip(r: Registers, pair: Pair, value: u16, other: Pair)
    ensures
        pair_value(pair_written(r, pair, value), pair) == (if pair == Pair::AF { value - value % 16 } else { value as int }),
        other != pair ==> pair_value(pair_written(r, pair, value), other) == pair_value(r, other),
{
    lemma_flags_roundtrip((value % 256) as u8);
}

/// Mutable access to a register pair, as a word.
pub struct RegisterPairMut<'a> {
    /// The registers.
    pub registers: &'a mut Registers,
    /// The pair that is accessed.
    pub pair: Pair,
}

impl<'a> RegisterPairMut<'a> {
    /// Returns the register pair as a word.
    pub fn as_word(&self) -> (r: u16)
        ensures
            r == pair_value(*old(self.registers), self.pair),
    {
        match self.pair {
            Pair::AF => self.registers.af(),
            Pair::BC => self.registers.bc(),
            Pair::DE => self.registers.de(),
            Pair::HL => self.registers.hl(),
        }
    }

    /// Write a word to the register pair.
    pub fn write(&mut self, value: u16)
        ensures
            final(self).pair == old(self).pair,
            *final(final(self).registers) == *final(old(self).registers),
            *final(self).registers == pair_written(*old(self).registers, old(self).pair, value),
    {
        match self.pair {
            Pair::AF => self.registers.write_af(value),
            Pair::BC => self.registers.write_bc(value),
            Pair::DE => self.registers.write_de(value),
            Pair::HL => self.registers.write_hl(value),
        }
    }

    /// Adds to the register pair, wrapping around.
    pub fn add_assign(&mut self, rhs: u16)
        ensures
            final(self).pair == old(self).pair,
            *final(final(self).registers) == *final(old(self).registers),
            *final(self).registers == pair_written(
                *old(self).registers,
                old(self).pair,
                ((pair_value(*old(self).registers, old(self).pair) + rhs) % 0x10000) as u16,
            ),
    {
        let value = self.as_word().wrapping_add(rhs);
        self.write(value);
    }

    /// Subtracts from the register pair, wrapping around.
    pub fn sub_assign(&mut self, rhs: u16)
        ensures
            final(self).pair == old(self).pair,
            *final(final(self).registers) == *final(old(self).registers),
            *final(self).registers == pair_written(
                *old(self).registers,
                old(self).pair,
                ((pair_value(*old(self).registers, old(self).pair) + 0x10000 - rhs) % 0x10000) as u16,
            ),
    {
        let value = self.as_word().wrapping_sub(rhs);
        self.write(value);
    }
}

impl Registers {
    /// Mutable access to register pair `AF`.
    pub fn af_mut(&mut self) -> (r: RegisterPairMut<'_>)
        ensures
            *r.registers == *old(self),
            r.pair == Pair::AF,
            *final(self) == *final(r.registers),
    {
        RegisterPairMut { registers: self, pair: Pair::AF }
    }

    /// Mutable access to register pair `BC`.
    pub fn bc_mut(&mut self) -> (r: RegisterPairMut<'_>)
        ensures
            *r.registers == *old(self),
            r.pair == Pair::BC,
            *final(self) == *final(r.registers),
    {
        RegisterPairMut { registers: self, pair: Pair::BC }
    }

    /// Mutable access to register pair `DE`.
    pub fn de_mut(&mut self) -> (r: RegisterPairMut<'_>)
        ensures
            *r.registers == *old(self),
            r.pair == Pair::DE,
            *final(self) == *final(r.registers),
    {
        RegisterPairMut { registers: self, pair: Pair::DE }
    }

    /// Mutable access to register pair `HL`.
    pub fn hl_mut(&mut self) -> (r: RegisterPairMut<'_>)
        ensures
            *r.registers == *old(self),
            r.pair == Pair::HL,
            *final(self) == *final(r.registers),
    {
        RegisterPairMut { registers: self, pair: Pair::HL }
    }
}

} // verus!
