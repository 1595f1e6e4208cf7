//! Memory: the memory manager unit (MMU) and the cartridge.

pub mod mbc;

use vstd::prelude::*;

use crate::bytes::{read_u16_le, word, write_u16_le};

use self::mbc::{is_cartridge_address, Mbc, Mbc1, Mbc3};

verus! {

/// The size (in bytes) of the DMG BIOS.
pub const BIOS_SIZE: usize = 0x0100;

/// The size of ROM banks 0 and 1.
pub const ROM_SIZE: usize = 0x8000;

/// The size of working RAM.
pub const WRAM_SIZE: usize = 0x2000;

/// The size of zero-page RAM.
pub const ZRAM_SIZE: usize = 0x0080;

/// Operations of memory-like components: bytes read and written at addresses, and words made
/// of two bytes in little-endian order.
pub trait Addressable: Sized {
    /// Whether `address` may be read in this state.
    spec fn can_read(&self, address: u16) -> bool;

    /// The byte that reading `address` gives.
    spec fn byte_at(&self, address: u16) -> u8;

    /// Whether `byte` may be written at `address` in this state.
    spec fn can_write(&self, address: u16, byte: u8) -> bool;

    /// What a write does: `after` is the component after writing `byte` at `address`.
    spec fn wrote(&self, address: u16, byte: u8, after: Self) -> bool;

    /// Returns the byte at a given memory address.
    fn read_byte(&self, address: u16) -> (r: u8)
        requires
            self.can_read(address),
        ensures
            r == self.byte_at(address),
    ;

    /// Writes a byte to a given memory address.
    fn write_byte(&mut self, address: u16, byte: u8)
        requires
            old(self).can_write(address, byte),
        ensures
            old(self).wrote(address, byte, *final(self)),
    ;

    /// Returns the word at a given memory address, read in little-endian order.
    fn read_word(&self, address: u16) -> (r: u16)
        requires
            address < 0xFFFF,
            self.can_read(address),
            self.can_read((address + 1) as u16),
        ensures
            r == word(self.byte_at((address + 1) as u16), self.byte_at(address)),
    {
        let lo = self.read_byte(address);
        let hi = self.read_byte(address + 1);
        read_u16_le(lo, hi)
    }

    /// Writes a word to a given memory address in little-endian order: the low byte first.
    fn write_word(&mut self, address: u16, value: u16)
        requires
            address < 0xFFFF,
            old(self).can_write(address, (value % 256) as u8),
            forall|mid: Self| #[trigger] old(self).wrote(address, (value % 256) as u8, mid)
                ==> mid.can_write((address + 1) as u16, (value / 256) as u8),
        ensures
            exists|mid: Self| #[trigger] old(self).wrote(address, (value % 256) as u8, mid)
                && mid.wrote((address + 1) as u16, (value / 256) as u8, *final(self)),
    {
        let (lo, hi) = write_u16_le(value);
        self.write_byte(address, lo);
        let ghost mid = *self;
        self.write_byte(address + 1, hi);
        assert(old(self).wrote(address, (value % 256) as u8, mid));
    }
}

/// Why a BIOS was refused.
#[derive(Debug, Clone, Copy, PartialEq, Eq, Structural)]
pub enum BiosError {
    /// The BIOS must be exactly 256 bytes.
    InvalidSize,
}

/// Why a cartridge ROM was refused.
#[derive(Debug)]
pub enum CartridgeError {
    /// The size of the ROM must be at least 32KB.
    InvalidSize,
    /// The header checksum is not equal to the sum of the header bytes.
    BadChecksum { checksum: u8, sum: u8 },
    /// The cartridge type is not implemented; holds the type's name.
    Unimplemented(String),
}

/// The sum, over the header bytes `start..end`, of each byte plus one.
pub open spec fn header_bytes_sum(rom: Seq<u8>, start: int, end: int) -> int
    decreases end - start,
{
    if end <= start {
        0
    } else {
        header_bytes_sum(rom, start, end - 1) + rom[end - 1] + 1
    }
}

/// The header checksum a cartridge ROM should hold at `0x14D`: zero minus, for each byte of
/// `0x134-0x14C`, the byte and one, wrapped to a byte.
pub open spec fn header_sum(rom: Seq<u8>) -> u8 {
    ((0 - header_bytes_sum(rom, 0x134, 0x14D)) % 256) as u8
}

/// The name of a cartridge type, by the code at `0x147` of the header.
pub open spec fn cartridge_type_name(code: u8) -> &'static str {
    if code == 0x00 { "ROM ONLY" }
    else if code == 0x01 { "MBC1" }
    else if code == 0x02 { "MBC1+RAM" }
    else if code == 0x03 { "MBC1+RAM+BATTERY" }
    else if code == 0x05 { "MBC2" }
    else if code == 0x06 { "MBC2+BATTERY" }
    else if code == 0x08 { "ROM+RAM" }
    else if code == 0x09 { "ROM+RAM+BATTERY" }
    else if code == 0x0B { "MMM01" }
    else if code == 0x0C { "MMM01+RAM" }
    else if code == 0x0D { "MMM01+RAM+BATTERY" }
    else if code == 0x0F { "MBC3+TIMER+BATTERY" }
    else if code == 0x10 { "MBC3+TIMER+RAM+BATTERY" }
    else if code == 0x11 { "MBC3" }
    else if code == 0x12 { "MBC3+RAM" }
    else if code == 0x13 { "MBC3+RAM+BATTERY" }
    else if code == 0x19 { "MBC5" }
    else if code == 0x1A { "MBC5+RAM" }
    else if code == 0x1B { "MBC4+RAM+BATTERY" }
    else if code == 0x1C { "MBC5+RUMBLE" }
    else if code == 0x1D { "MBC5+RUMBLE+RAM" }
    else if code == 0x1E { "MBC5+RUMBLE+RAM+BATTERY" }
    else if code == 0x20 { "MBC6" }
    else if code == 0x22 { "MBC7+SENSOR+RUMBLE+RAM+BATTERY" }
    else if code == 0xFC { "POCKET CAMERA" }
    else if code == 0xFD { "BANDAI TAMAS" }
    else if code == 0xFE { "HuC3" }
    else if code == 0xFF { "HuC1+RAM+BATTERY" }
    else { "unknown" }
}

/// Whether `part` occurs in `s`.
pub open spec fn text_contains(s: Seq<char>, part: Seq<char>) -> bool {
    exists|i: int| 0 <= i && i + part.len() <= s.len() && #[trigger] s.subrange(i, i + part.len()) == part
}

/// A short text that no position of `s` spells out does not occur in it.
proof fn lemma_absent(s: Seq<char>, part: Seq<char>)
    requires
        2 <= part.len() <= 4,
        forall|i: int| 0 <= i && i + part.len() <= s.len() ==> !(#[trigger] s[i] == part[0] && s[i + 1] == part[1]
            && (part.len() > 2 ==> s[i + 2] == part[2]) && (part.len() > 3 ==> s[i + 3] == part[3])),
    ensures
        !text_contains(s, part),
{
    if text_contains(s, part) {
        let i = choose|i: int| 0 <= i && i + part.len() <= s.len() && #[trigger] s.subrange(i, i + part.len()) == part;
        let t = s.subrange(i, i + part.len());
        assert(t[0] == s[i] && t[1] == s[i + 1]);
        if part.len() > 2 {
            assert(t[2] == s[i + 2]);
        }
        if part.len() > 3 {
            assert(t[3] == s[i + 3]);
        }
    }
}

/// Which cartridge type names name which memory bank controller.
proof fn lemma_type_name_kinds(code: u8)
    ensures
        text_contains(cartridge_type_name(code)@, "ROM"@) <==> is_plain_rom(code),
        text_contains(cartridge_type_name(code)@, "MBC1"@) <==> is_mbc1(code),
        text_contains(cartridge_type_name(code)@, "MBC3"@) <==> is_mbc3(code),
{
    reveal_strlit("BANDAI TAMAS");
    reveal_strlit("HuC1+RAM+BATTERY");
    reveal_strlit("HuC3");
    reveal_strlit("MBC1");
    reveal_strlit("MBC1+RAM");
    reveal_strlit("MBC1+RAM+BATTERY");
    reveal_strlit("MBC2");
    reveal_strlit("MBC2+BATTERY");
    reveal_strlit("MBC3");
    reveal_strlit("MBC3+RAM");
    reveal_strlit("MBC3+RAM+BATTERY");
    reveal_strlit("MBC3+TIMER+BATTERY");
    reveal_strlit("MBC3+TIMER+RAM+BATTERY");
    reveal_strlit("MBC4+RAM+BATTERY");
    reveal_strlit("MBC5");
    reveal_strlit("MBC5+RAM");
    reveal_strlit("MBC5+RUMBLE");
    reveal_strlit("MBC5+RUMBLE+RAM");
    reveal_strlit("MBC5+RUMBLE+RAM+BATTERY");
    reveal_strlit("MBC6");
    reveal_strlit("MBC7+SENSOR+RUMBLE+RAM+BATTERY");
    reveal_strlit("MMM01");
    reveal_strlit("MMM01+RAM");
    reveal_strlit("MMM01+RAM+BATTERY");
    reveal_strlit("POCKET CAMERA");
    reveal_strlit("ROM");
    reveal_strlit("ROM ONLY");
    reveal_strlit("ROM+RAM");
    reveal_strlit("ROM+RAM+BATTERY");
    reveal_strlit("unknown");
    if code == 0x00 {
        assert("ROM ONLY"@.subrange(0, 0 + "ROM"@.len() as int) =~= "ROM"@);
        lemma_absent("ROM ONLY"@, "MBC1"@);
        lemma_absent("ROM ONLY"@, "MBC3"@);
    } else if code == 0x01 {
        lemma_absent("MBC1"@, "ROM"@);
        assert("MBC1"@.subrange(0, 0 + "MBC1"@.len() as int) =~= "MBC1"@);
        lemma_absent("MBC1"@, "MBC3"@);
    } else if code == 0x02 {
        lemma_absent("MBC1+RAM"@, "ROM"@);
        assert("MBC1+RAM"@.subrange(0, 0 + "MBC1"@.len() as int) =~= "MBC1"@);
        lemma_absent("MBC1+RAM"@, "MBC3"@);
    } else if code == 0x03 {
        lemma_absent("MBC1+RAM+BATTERY"@, "ROM"@);
        assert("MBC1+RAM+BATTERY"@.subrange(0, 0 + "MBC1"@.len() as int) =~= "MBC1"@);
        lemma_absent("MBC1+RAM+BATTERY"@, "MBC3"@);
    } else if code == 0x05 {
        lemma_absent("MBC2"@, "ROM"@);
        lemma_absent("MBC2"@, "MBC1"@);
        lemma_absent("MBC2"@, "MBC3"@);
    } else if code == 0x06 {
        lemma_absent("MBC2+BATTERY"@, "ROM"@);
        lemma_absent("MBC2+BATTERY"@, "MBC1"@);
        lemma_absent("MBC2+BATTERY"@, "MBC3"@);
    } else if code == 0x08 {
        assert("ROM+RAM"@.subrange(0, 0 + "ROM"@.len() as int) =~= "ROM"@);
        lemma_absent("ROM+RAM"@, "MBC1"@);
        lemma_absent("ROM+RAM"@, "MBC3"@);
    } else if code == 0x09 {
        assert("ROM+RAM+BATTERY"@.subrange(0, 0 + "ROM"@.len() as int) =~= "ROM"@);
        lemma_absent("ROM+RAM+BATTERY"@, "MBC1"@);
        lemma_absent("ROM+RAM+BATTERY"@, "MBC3"@);
    } else if code == 0x0B {
        lemma_absent("MMM01"@, "ROM"@);
        lemma_absent("MMM01"@, "MBC1"@);
        lemma_absent("MMM01"@, "MBC3"@);
    } else if code == 0x0C {
        lemma_absent("MMM01+RAM"@, "ROM"@);
        lemma_absent("MMM01+RAM"@, "MBC1"@);
        lemma_absent("MMM01+RAM"@, "MBC3"@);
    } else if code == 0x0D {
        lemma_absent("MMM01+RAM+BATTERY"@, "ROM"@);
        lemma_absent("MMM01+RAM+BATTERY"@, "MBC1"@);
        lemma_absent("MMM01+RAM+BATTERY"@, "MBC3"@);
    } else if code == 0x0F {
        lemma_absent("MBC3+TIMER+BATTERY"@, "ROM"@);
        lemma_absent("MBC3+TIMER+BATTERY"@, "MBC1"@);
        assert("MBC3+TIMER+BATTERY"@.subrange(0, 0 + "MBC3"@.len() as int) =~= "MBC3"@);
    } else if code == 0x10 {
        lemma_absent("MBC3+TIMER+RAM+BATTERY"@, "ROM"@);
        lemma_absent("MBC3+TIMER+RAM+BATTERY"@, "MBC1"@);
        assert("MBC3+TIMER+RAM+BATTERY"@.subrange(0, 0 + "MBC3"@.len() as int) =~= "MBC3"@);
    } else if code == 0x11 {
        lemma_absent("MBC3"@, "ROM"@);
        lemma_absent("MBC3"@, "MBC1"@);
        assert("MBC3"@.subrange(0, 0 + "MBC3"@.len() as int) =~= "MBC3"@);
    } else if code == 0x12 {
        lemma_absent("MBC3+RAM"@, "ROM"@);
        lemma_absent("MBC3+RAM"@, "MBC1"@);
        assert("MBC3+RAM"@.subrange(0, 0 + "MBC3"@.len() as int) =~= "MBC3"@);
    } else if code == 0x13 {
        lemma_absent("MBC3+RAM+BATTERY"@, "ROM"@);
        lemma_absent("MBC3+RAM+BATTERY"@, "MBC1"@);
        assert("MBC3+RAM+BATTERY"@.subrange(0, 0 + "MBC3"@.len() as int) =~= "MBC3"@);
    } else if code == 0x19 {
        lemma_absent("MBC5"@, "ROM"@);
        lemma_absent("MBC5"@, "MBC1"@);
        lemma_absent("MBC5"@, "MBC3"@);
    } else if code == 0x1A {
        lemma_absent("MBC5+RAM"@, "ROM"@);
        lemma_absent("MBC5+RAM"@, "MBC1"@);
        lemma_absent("MBC5+RAM"@, "MBC3"@);
    } else if code == 0x1B {
        lemma_absent("MBC4+RAM+BATTERY"@, "ROM"@);
        lemma_absent("MBC4+RAM+BATTERY"@, "MBC1"@);
        lemma_absent("MBC4+RAM+BATTERY"@, "MBC3"@);
    } else if code == 0x1C {
        lemma_absent("MBC5+RUMBLE"@, "ROM"@);
        lemma_absent("MBC5+RUMBLE"@, "MBC1"@);
        lemma_absent("MBC5+RUMBLE"@, "MBC3"@);
    } else if code == 0x1D {
        lemma_absent("MBC5+RUMBLE+RAM"@, "ROM"@);
        lemma_absent("MBC5+RUMBLE+RAM"@, "MBC1"@);
        lemma_absent("MBC5+RUMBLE+RAM"@, "MBC3"@);
    } else if code == 0x1E {
        lemma_absent("MBC5+RUMBLE+RAM+BATTERY"@, "ROM"@);
        lemma_absent("MBC5+RUMBLE+RAM+BATTERY"@, "MBC1"@);
        lemma_absent("MBC5+RUMBLE+RAM+BATTERY"@, "MBC3"@);
    } else if code == 0x20 {
        lemma_absent("MBC6"@, "ROM"@);
        lemma_absent("MBC6"@, "MBC1"@);
        lemma_absent("MBC6"@, "MBC3"@);
    } else if code == 0x22 {
        lemma_absent("MBC7+SENSOR+RUMBLE+RAM+BATTERY"@, "ROM"@);
        lemma_absent("MBC7+SENSOR+RUMBLE+RAM+BATTERY"@, "MBC1"@);
        lemma_absent("MBC7+SENSOR+RUMBLE+RAM+BATTERY"@, "MBC3"@);
    } else if code == 0xFC {
        lemma_absent("POCKET CAMERA"@, "ROM"@);
        lemma_absent("POCKET CAMERA"@, "MBC1"@);
        lemma_absent("POCKET CAMERA"@, "MBC3"@);
    } else if code == 0xFD {
        lemma_absent("BANDAI TAMAS"@, "ROM"@);
        lemma_absent("BANDAI TAMAS"@, "MBC1"@);
        lemma_absent("BANDAI TAMAS"@, "MBC3"@);
    } else if code == 0xFE {
        lemma_absent("HuC3"@, "ROM"@);
        lemma_absent("HuC3"@, "MBC1"@);
        lemma_absent("HuC3"@, "MBC3"@);
    } else if code == 0xFF {
        lemma_absent("HuC1+RAM+BATTERY"@, "ROM"@);
        lemma_absent("HuC1+RAM+BATTERY"@, "MBC1"@);
        lemma_absent("HuC1+RAM+BATTERY"@, "MBC3"@);
    } else {
        lemma_absent("unknown"@, "ROM"@);
        lemma_absent("unknown"@, "MBC1"@);
        lemma_absent("unknown"@, "MBC3"@);
    }
}

/// The cartridge types without a memory bank controller: their names hold "ROM".
pub open spec fn is_plain_rom(code: u8) -> bool {
    code == 0x00 || code == 0x08 || code == 0x09
}

/// The cartridge types with an MBC1.
pub open spec fn is_mbc1(code: u8) -> bool {
    code == 0x01 || code == 0x02 || code == 0x03
}

/// The cartridge types with an MBC3.
pub open spec fn is_mbc3(code: u8) -> bool {
    0x0F <= code <= 0x13
}

/// The name of a cartridge type, by the code at `0x147` of the header.
pub fn cartridge_type(code: u8) -> (r: &'static str)
    ensures
        r == cartridge_type_name(code),
{
    match code {
        0x00 => "ROM ONLY",
        0x01 => "MBC1",
        0x02 => "MBC1+RAM",
        0x03 => "MBC1+RAM+BATTERY",
        0x05 => "MBC2",
        0x06 => "MBC2+BATTERY",
        0x08 => "ROM+RAM",
        0x09 => "ROM+RAM+BATTERY",
        0x0B => "MMM01",
        0x0C => "MMM01+RAM",
        0x0D => "MMM01+RAM+BATTERY",
        0x0F => "MBC3+TIMER+BATTERY",
        0x10 => "MBC3+TIMER+RAM+BATTERY",
        0x11 => "MBC3",
        0x12 => "MBC3+RAM",
        0x13 => "MBC3+RAM+BATTERY",
        0x19 => "MBC5",
        0x1A => "MBC5+RAM",
        0x1B => "MBC4+RAM+BATTERY",
        0x1C => "MBC5+RUMBLE",
        0x1D => "MBC5+RUMBLE+RAM",
        0x1E => "MBC5+RUMBLE+RAM+BATTERY",
        0x20 => "MBC6",
        0x22 => "MBC7+SENSOR+RUMBLE+RAM+BATTERY",
        0xFC => "POCKET CAMERA",
        0xFD => "BANDAI TAMAS",
        0xFE => "HuC3",
        0xFF => "HuC1+RAM+BATTERY",
        _ => "unknown",
    }
}

/// Computes the header checksum of a cartridge ROM.
pub fn compute_header_sum(rom: &[u8]) -> (r: u8)
    requires
        rom@.len() >= ROM_SIZE,
    ensures
        r == header_sum(rom@),
{
    let mut x: u8 = 0;
    let mut i: usize = 0x134;
    while i < 0x14D
        invariant
            0x134 <= i <= 0x14D,
            rom@.len() >= ROM_SIZE,
            x == (0 - header_bytes_sum(rom@, 0x134, i as int)) % 256,
        decreases 0x14D - i,
    {
        let ghost before = header_bytes_sum(rom@, 0x134, i as int);
        x = x.wrapping_sub(rom[i]).wrapping_sub(1);
        assert(header_bytes_sum(rom@, 0x134, i + 1) == before + rom@[i as int] + 1);
        assert(x == (0 - (before + rom@[i as int] + 1)) % 256) by (nonlinear_arith)
            requires
                x == ((((0 - before) % 256) - rom@[i as int] + 256) % 256 - 1 + 256) % 256;
        i = i + 1;
    }
    x
}

/// A memory bank controller of the inserted cartridge.
#[derive(Debug)]
pub enum Controller {
    Mbc1(Mbc1),
    Mbc3(Mbc3),
}

impl Controller {
    pub open spec fn wf(self) -> bool {
        match self {
            Controller::Mbc1(m) => m.wf(),
            Controller::Mbc3(m) => m.wf(),
        }
    }

    pub open spec fn readable(self, address: u16) -> bool {
        match self {
            Controller::Mbc1(m) => m.spec_in_bounds(address),
            Controller::Mbc3(m) => m.spec_in_bounds(address),
        }
    }

    pub open spec fn value_at(self, address: u16) -> u8 {
        match self {
            Controller::Mbc1(m) => m.spec_read_byte(address),
            Controller::Mbc3(m) => m.spec_read_byte(address),
        }
    }

    /// The byte at a cartridge address; `0xFF` where the selected bank lies beyond the ROM.
    pub open spec fn read_or_open_bus(self, address: u16) -> u8 {
        if self.readable(address) { self.value_at(address) } else { 0xFF }
    }

    /// Writes to a cartridge address. Writes that the controller's hardware does not define (an
    /// MBC1 mode select other than 0 or 1, the MBC3 clock latch) change nothing.
    pub fn write_byte(&mut self, address: u16, value: u8)
        requires
            old(self).wf(),
            is_cartridge_address(address),
        ensures
            final(self).wf(),
            controller_write_relation(*old(self), *final(self), address, value),
    {
        match self {
            Controller::Mbc1(m) => {
                if !(0x6000 <= address && address <= 0x7FFF && value > 1) {
                    m.write_byte(address, value);
                }
            },
            Controller::Mbc3(m) => {
                if !(0x6000 <= address && address <= 0x7FFF) {
                    m.write_byte(address, value);
                }
            },
        }
    }

    /// Reads a cartridge address; `0xFF` where the selected bank lies beyond the ROM.
    pub fn read_byte(&self, address: u16) -> (r: u8)
        requires
            self.wf(),
            is_cartridge_address(address),
        ensures
            r == self.read_or_open_bus(address),
    {
        match self {
            Controller::Mbc1(m) => if m.in_bounds(address) { m.read_byte(address) } else { 0xFF },
            Controller::Mbc3(m) => if m.in_bounds(address) { m.read_byte(address) } else { 0xFF },
        }
    }
}

/// How a write of `value` at a cartridge address changes a controller.
pub open spec fn controller_write_relation(c: Controller, d: Controller, address: u16, value: u8) -> bool {
    match (c, d) {
        (Controller::Mbc1(m), Controller::Mbc1(n)) => if 0x6000 <= address <= 0x7FFF && value > 1 {
            n == m
        } else {
            n == self::mbc::mbc1_written(m, address, value)
        },
        (Controller::Mbc3(m), Controller::Mbc3(n)) => if 0x6000 <= address <= 0x7FFF {
            n == m
        } else {
            self::mbc::mbc3_write_relation(m, n, address, value)
        },
        _ => false,
    }
}

/// Memory managed by the MMU. VRAM and OAM are stored in the PPU.
#[derive(Debug)]
pub struct Memory {
    /// BIOS memory.
    pub bios: Option<Vec<u8>>,
    /// ROM banks 0 and 1.
    pub rom: Vec<u8>,
    /// Working RAM.
    pub wram: Vec<u8>,
    /// Zero-page RAM.
    pub zram: Vec<u8>,
}

/// The memory manager unit.
#[derive(Debug)]
pub struct Mmu {
    /// ROM and RAM.
    pub mem: Memory,
    /// Whether the BIOS is mapped or not.
    pub bios_mapped: bool,
    /// The entire ROM contained on the inserted cartridge.
    pub cartridge_rom: Vec<u8>,
    /// Memory bank controller.
    pub mbc: Option<Controller>,
}

/// The addresses the MMU answers: all but video RAM, sprite memory and the I/O registers.
pub open spec fn is_mmu_address(address: u16) -> bool {
    !(0x8000 <= address <= 0x9FFF) && !(0xFE00 <= address <= 0xFE9F) && !(0xFF00 <= address <= 0xFF7F)
        && address != 0xFFFF
}

impl Mmu {
    /// The buffers have their sizes and the controller its invariant.
    pub open spec fn wf(self) -> bool {
        &&& self.mem.rom@.len() == ROM_SIZE
        &&& self.mem.wram@.len() == WRAM_SIZE
        &&& self.mem.zram@.len() == ZRAM_SIZE
        &&& (self.mem.bios matches Some(b) ==> b@.len() == BIOS_SIZE)
        &&& (self.mbc matches Some(c) ==> c.wf())
    }

    pub open spec fn spec_has_bios(self) -> bool {
        self.mem.bios is Some
    }

    /// The byte that reading an MMU address gives.
    ///
    /// The BIOS shadows the first 256 bytes while it is mapped. Addresses `0xE000-0xFDFF` mirror
    /// working RAM. Cartridge RAM reads `0xFF` without a memory bank controller.
    pub open spec fn spec_read(self, address: u16) -> u8 {
        if address <= 0x00FF && self.bios_mapped && self.spec_has_bios() {
            self.mem.bios->Some_0@[address as int]
        } else if address <= 0x7FFF {
            match self.mbc {
                Some(c) => c.read_or_open_bus(address),
                None => self.mem.rom@[address as int],
            }
        } else if 0xA000 <= address <= 0xBFFF {
            match self.mbc {
                Some(c) => c.read_or_open_bus(address),
                None => 0xFF,
            }
        } else if 0xC000 <= address <= 0xFDFF {
            self.mem.wram@[address as int % 0x2000]
        } else if 0xFEA0 <= address <= 0xFEFF {
            0x00
        } else {
            self.mem.zram@[address as int % 0x80]
        }
    }

    /// The initial state: zeroed memory, no BIOS, no cartridge, BIOS mapped.
    pub open spec fn is_initial(self) -> bool {
        &&& self.bios_mapped
        &&& !self.spec_has_bios()
        &&& self.mbc is None
        &&& self.cartridge_rom@.len() == 0
        &&& forall|i: int| 0 <= i < ROM_SIZE ==> self.mem.rom@[i] == 0
        &&& forall|i: int| 0 <= i < WRAM_SIZE ==> self.mem.wram@[i] == 0
        &&& forall|i: int| 0 <= i < ZRAM_SIZE ==> self.mem.zram@[i] == 0
    }

    /// Creates a new memory manager unit: zeroed memory, no BIOS, no cartridge, BIOS mapped.
    pub fn new() -> (r: Self)
        ensures
            r.wf(),
            r.is_initial(),
    {
        Mmu {
            mem: Memory { bios: None, rom: vec![0; ROM_SIZE], wram: vec![0; WRAM_SIZE], zram: vec![0; ZRAM_SIZE] },
            bios_mapped: true,
            cartridge_rom: Vec::new(),
            mbc: None,
        }
    }

    /// What loading a BIOS does: `after` is the MMU after loading `bios`, `r` the result. A BIOS
    /// of exactly 256 bytes is stored and nothing else changes; any other length is refused.
    pub open spec fn load_bios_effect(self, bios: Seq<u8>, after: Mmu, r: Result<(), BiosError>) -> bool {
        &&& bios.len() != BIOS_SIZE ==> r == Err::<(), BiosError>(BiosError::InvalidSize) && after == self
        &&& bios.len() == BIOS_SIZE ==> {
            &&& r is Ok
            &&& after.mem.bios matches Some(b) && b@ == bios
            &&& after.mem.rom == self.mem.rom
            &&& after.mem.wram == self.mem.wram
            &&& after.mem.zram == self.mem.zram
            &&& after.bios_mapped == self.bios_mapped
            &&& after.cartridge_rom == self.cartridge_rom
            &&& after.mbc == self.mbc
        }
    }

    /// Loads a byte slice containing the BIOS. Returns an error if the slice is not exactly 256
    /// bytes long.
    pub fn load_bios(&mut self, bios: &[u8]) -> (r: Result<(), BiosError>)
        requires
            old(self).wf(),
        ensures
            final(self).wf(),
            old(self).load_bios_effect(bios@, *final(self), r),
    {
        if bios.len() != BIOS_SIZE {
            return Err(BiosError::InvalidSize);
        }
        let mut copy: Vec<u8> = Vec::new();
        let mut i: usize = 0;
        while i < bios.len()
            invariant
                i <= bios@.len(),
                copy@ == bios@.subrange(0, i as int),
            decreases bios@.len() - i,
        {
            copy.push(bios[i]);
            i = i + 1;
        }
        assert(copy@ =~= bios@);
        self.mem.bios = Some(copy);
        Ok(())
    }

    /// Returns `true` if a BIOS has been loaded.
    pub fn has_bios(&self) -> (r: bool)
        ensures
            r == self.spec_has_bios(),
    {
        self.mem.bios.is_some()
    }

    /// What a reset does: `after` is the MMU after resetting `self`. It returns to its initial
    /// state, the loaded BIOS and cartridge kept: working RAM is cleared and the BIOS is mapped.
    pub open spec fn reset_relation(self, after: Mmu) -> bool {
        &&& after.mem.wram@.len() == WRAM_SIZE
        &&& forall|i: int| 0 <= i < WRAM_SIZE ==> after.mem.wram@[i] == 0
        &&& after.bios_mapped
        &&& after.mem.bios == self.mem.bios
        &&& after.mem.rom == self.mem.rom
        &&& after.mem.zram == self.mem.zram
        &&& after.cartridge_rom == self.cartridge_rom
        &&& after.mbc == self.mbc
    }

    /// Resets the MMU to its initial state, the loaded BIOS and cartridge kept: working RAM is
    /// cleared and the BIOS is mapped.
    pub fn reset(&mut self)
        requires
            old(self).wf(),
        ensures
            final(self).wf(),
            old(self).reset_relation(*final(self)),
    {
        self.mem.wram = vec![0; WRAM_SIZE];
        self.bios_mapped = true;
    }

    /// Unmaps the BIOS, so that bytes `0x00`-`0xFF` read as cartridge ROM.
    pub fn unmap_bios(&mut self)
        ensures
            *final(self) == (Mmu { bios_mapped: false, ..*old(self) }),
    {
        self.bios_mapped = false;
    }

    /// Reads a byte from memory.
    pub fn read_byte(&self, address: u16) -> (r: u8)
        requires
            self.wf(),
            is_mmu_address(address),
        ensures
            r == self.spec_read(address),
    {
        if address <= 0x00FF && self.bios_mapped && self.has_bios() {
            match &self.mem.bios {
                Some(bios) => bios[address as usize],
                None => 0,
            }
        } else if address <= 0x7FFF {
            match &self.mbc {
                Some(c) => c.read_byte(address),
                None => self.mem.rom[address as usize],
            }
        } else if 0xA000 <= address && address <= 0xBFFF {
            match &self.mbc {
                Some(c) => c.read_byte(address),
                None => 0xFF,
            }
        } else if 0xC000 <= address && address <= 0xFDFF {
            self.mem.wram[(address % 0x2000) as usize]
        } else if 0xFEA0 <= address && address <= 0xFEFF {
            0x00
        } else {
            self.mem.zram[(address % 0x80) as usize]
        }
    }

    /// What a write to an MMU address does: `after` is the MMU after writing `byte` at
    /// `address`. Working RAM (with its echo) and zero-page RAM store the byte; ROM and cartridge
    /// RAM writes go to the memory bank controller, if any.
    pub open spec fn write_relation(self, address: u16, byte: u8, after: Mmu) -> bool {
        &&& after.bios_mapped == self.bios_mapped
        &&& after.cartridge_rom == self.cartridge_rom
        &&& after.mem.bios == self.mem.bios
        &&& after.mem.rom == self.mem.rom
        &&& 0xC000 <= address <= 0xFDFF ==> after.mem.wram@ == self.mem.wram@.update(address as int % 0x2000, byte)
        &&& !(0xC000 <= address <= 0xFDFF) ==> after.mem.wram == self.mem.wram
        &&& 0xFF80 <= address <= 0xFFFE ==> after.mem.zram@ == self.mem.zram@.update(address as int % 0x80, byte)
        &&& !(0xFF80 <= address <= 0xFFFE) ==> after.mem.zram == self.mem.zram
        &&& is_cartridge_address(address) ==> match (self.mbc, after.mbc) {
            (Some(c), Some(d)) => controller_write_relation(c, d, address, byte),
            (None, None) => true,
            _ => false,
        }
        &&& !is_cartridge_address(address) ==> after.mbc == self.mbc
    }

    /// Writes a byte to memory. ROM and cartridge RAM writes go to the memory bank controller,
    /// if any; the unused range `0xFEA0-0xFEFF` ignores writes.
    pub fn write_byte(&mut self, address: u16, byte: u8)
        requires
            old(self).wf(),
            is_mmu_address(address),
        ensures
            final(self).wf(),
            old(self).write_relation(address, byte, *final(self)),
    {
        if address <= 0x7FFF || (0xA000 <= address && address <= 0xBFFF) {
            match &mut self.mbc {
                Some(c) => c.write_byte(address, byte),
                None => {},
            }
        } else if 0xC000 <= address && address <= 0xFDFF {
            self.mem.wram.set((address % 0x2000) as usize, byte);
        } else if 0xFF80 <= address && address <= 0xFFFE {
            self.mem.zram.set((address % 0x80) as usize, byte);
        }
    }

    /// What loading a cartridge ROM does: `after` is the MMU after loading `rom`, `r` the result.
    pub open spec fn load_rom_effect(self, rom: Seq<u8>, after: Mmu, r: Result<(), CartridgeError>) -> bool {
        &&& after.mem.bios == self.mem.bios
        &&& after.mem.wram == self.mem.wram
        &&& after.mem.zram == self.mem.zram
        &&& after.bios_mapped == self.bios_mapped
        &&& rom.len() < ROM_SIZE ==> (r matches Err(CartridgeError::InvalidSize)) && after == self
        &&& rom.len() >= ROM_SIZE ==> {
            &&& after.cartridge_rom@ == rom
            &&& after.mem.rom@ == rom.subrange(0, ROM_SIZE as int)
            &&& if header_sum(rom) != rom[0x14D] {
                &&& (r matches Err(CartridgeError::BadChecksum { checksum, sum })
                    && checksum == rom[0x14D] && sum == header_sum(rom))
                &&& after.mbc == self.mbc
            } else if is_plain_rom(rom[0x147]) {
                r is Ok && after.mbc is None
            } else if is_mbc1(rom[0x147]) {
                &&& r is Ok
                &&& (after.mbc matches Some(Controller::Mbc1(m))
                    && m.rom@ == rom && m.rom_num == 1 && m.ram_num == 0 && !m.ram_enabled && !m.rom_ram_select
                    && forall|i: int| 0 <= i < self::mbc::RAM_SIZE ==> m.ram@[i] == 0)
            } else if is_mbc3(rom[0x147]) {
                &&& r is Ok
                &&& (after.mbc matches Some(Controller::Mbc3(m))
                    && m.rom@ == rom && m.rom_select == 1 && m.ram_rtc_select == self::mbc::RamRtcSelect::Ram(0)
                    && !m.ram_timer_enabled
                    && (forall|i: int| 0 <= i < self::mbc::RAM_SIZE ==> m.ram@[i] == 0)
                    && (forall|i: int| 0 <= i < self::mbc::RTC_SIZE ==> m.rtc@[i] == 0))
            } else {
                &&& (r matches Err(CartridgeError::Unimplemented(name)) && name@ == cartridge_type_name(rom[0x147])@)
                &&& after.mbc == self.mbc
            }
        }
    }

    /// Loads a cartridge ROM, of at least 32KB.
    ///
    /// The first two banks are copied to ROM memory and the whole ROM is kept. The header
    /// checksum is then verified, and a memory bank controller chosen by the cartridge type.
    pub fn load_rom(&mut self, rom: &[u8]) -> (r: Result<(), CartridgeError>)
        requires
            old(self).wf(),
        ensures
            final(self).wf(),
            old(self).load_rom_effect(rom@, *final(self), r),
    {
        if rom.len() < ROM_SIZE {
            return Err(CartridgeError::InvalidSize);
        }
        self.cartridge_rom = vstd::slice::slice_to_vec(rom);
        let banks = vstd::slice::slice_subrange(rom, 0, ROM_SIZE);
        self.mem.rom = vstd::slice::slice_to_vec(banks);
        assert(self.mem.rom@ =~= rom@.subrange(0, ROM_SIZE as int));

        let sum = compute_header_sum(rom);
        let checksum = rom[0x14D];
        if sum != checksum {
            return Err(CartridgeError::BadChecksum { checksum, sum });
        }

        let code = rom[0x147];
        if code == 0x00 || code == 0x08 || code == 0x09 {
            self.mbc = None;
        } else if code == 0x01 || code == 0x02 || code == 0x03 {
            self.mbc = Some(Controller::Mbc1(Mbc1::new(vstd::slice::slice_to_vec(rom))));
        } else if 0x0F <= code && code <= 0x13 {
            self.mbc = Some(Controller::Mbc3(Mbc3::new(vstd::slice::slice_to_vec(rom))));
        } else {
            let name = cartridge_type(code);
            return Err(CartridgeError::Unimplemented(name.to_owned()));
        }
        Ok(())
    }
}

impl Default for Mmu {
    /// The initial state, as `Mmu::new` gives it.
    fn default() -> (r: Mmu)
        ensures
            r.wf(),
            r.is_initial(),
    {
        Mmu::new()
    }
}

/// The controller a cartridge gets goes by the name of its type: a ROM of at least 32KB whose
/// header checksum is right loads with no controller when the name of its type (the byte at
/// `0x147`) contains "ROM", with an MBC1 over the whole ROM when it contains "MBC1", with an MBC3
/// over the whole ROM when it contains "MBC3", and is refused as unimplemented, by that name,
/// otherwise.
pub proof fn lemma_controller_by_type_name(m: Mmu, rom: Seq<u8>, after: Mmu, r: Result<(), CartridgeError>)
    requires
        m.load_rom_effect(rom, after, r),
        rom.len() >= ROM_SIZE,
        header_sum(rom) == rom[0x14D],
    ensures
        ({
            let name = cartridge_type_name(rom[0x147])@;
            &&& text_contains(name, "ROM"@) ==> r is Ok && after.mbc is None
            &&& text_contains(name, "MBC1"@) ==> r is Ok && (after.mbc matches Some(Controller::Mbc1(c)) && c.rom@ == rom)
            &&& text_contains(name, "MBC3"@) ==> r is Ok && (after.mbc matches Some(Controller::Mbc3(c)) && c.rom@ == rom)
            &&& !text_contains(name, "ROM"@) && !text_contains(name, "MBC1"@) && !text_contains(name, "MBC3"@)
                ==> (r matches Err(CartridgeError::Unimplemented(n)) && n@ == name)
            &&& after.cartridge_rom@ == rom
        }),
{
    lemma_type_name_kinds(rom[0x147]);
}

} // verus!
