//! Memory bank controllers: the cartridge hardware that switches ROM and RAM banks.

use vstd::prelude::*;

use super::Addressable;

verus! {

/// The size of the cartridge RAM: four banks.
pub const RAM_SIZE: usize = 0x2000 * 4;
/// The size of the clock registers: five banks.
pub const RTC_SIZE: usize = 0x2000 * 5;
/// The size of a ROM bank.
pub const ROM_BANK_SIZE: usize = 0x4000;
/// The size of a RAM bank or clock register bank.
pub const RAM_BANK_RTC_REG_SIZE: usize = 0x2000;

/// The addresses a memory bank controller answers: ROM and cartridge RAM.
pub open spec fn is_cartridge_address(address: u16) -> bool {
    address <= 0x7FFF || (0xA000 <= address <= 0xBFFF)
}

/// A memory bank controller: a memory-like component that answers the cartridge addresses.
pub trait Mbc: Addressable {
    /// The controller's internal invariant.
    spec fn inv(&self) -> bool;

    /// Whether reading `address` stays inside the cartridge's data.
    fn in_bounds(&self, address: u16) -> (r: bool)
        requires
            self.inv(),
            is_cartridge_address(address),
        ensures
            r == self.can_read(address),
    ;
}

/// The MBC1 controller: up to 2MB ROM and 32KB RAM.
#[derive(Debug)]
pub struct Mbc1 {
    /// The whole cartridge ROM.
    pub rom: Vec<u8>,
    /// The ROM bank mapped at `0x4000-0x7FFF`.
    pub rom_num: u8,
    /// Cartridge RAM.
    pub ram: Vec<u8>,
    /// The RAM bank mapped at `0xA000-0xBFFF`.
    pub ram_num: u8,
    /// Whether RAM is enabled.
    pub ram_enabled: bool,
    /// Whether writes to `0x4000-0x5FFF` select the upper ROM bank bits (true) or the RAM bank.
    pub rom_ram_select: bool,
}

/// The MBC1 register state after a write (cartridge RAM is not written by this controller).
pub open spec fn mbc1_written(m: Mbc1, address: u16, value: u8) -> Mbc1 {
    if address <= 0x1FFF {
        if value == 0x00 {
            Mbc1 { ram_enabled: false, ..m }
        } else if value == 0x0A {
            Mbc1 { ram_enabled: true, ..m }
        } else {
            m
        }
    } else if address <= 0x3FFF {
        let num = ((value & 0x1F) | (m.rom_num & 0x60)) as u8;
        Mbc1 { rom_num: if num % 0x20 == 0 { (num + 1) as u8 } else { num }, ..m }
    } else if address <= 0x5FFF {
        if m.rom_ram_select {
            let num = ((m.rom_num & 0x1F) | (value & 0x03)) as u8;
            Mbc1 { rom_num: if num % 0x20 == 0 { (num + 1) as u8 } else { num }, ..m }
        } else {
            Mbc1 { ram_num: value & 0x03, ..m }
        }
    } else if address <= 0x7FFF {
        Mbc1 { rom_ram_select: value == 0x01, ..m }
    } else {
        m
    }
}

impl Mbc1 {
    /// A controller for the given ROM with bank 1 mapped and RAM disabled.
    pub fn new(rom: Vec<u8>) -> (r: Mbc1)
        ensures
            r.wf(),
            r.rom@ == rom@,
            r.rom_num == 1,
            r.ram_num == 0,
            !r.ram_enabled,
            !r.rom_ram_select,
            forall|i: int| 0 <= i < RAM_SIZE ==> r.ram@[i] == 0,
    {
        Mbc1 { rom, rom_num: 1, ram: vec![0; RAM_SIZE], ram_num: 0, ram_enabled: false, rom_ram_select: false }
    }

    /// The RAM holds four banks and the RAM bank number selects one of them.
    pub open spec fn wf(self) -> bool {
        &&& self.ram@.len() == RAM_SIZE
        &&& self.ram_num <= 3
    }

    /// The index into the ROM or RAM that an address reads.
    pub open spec fn index_of(self, address: u16) -> int {
        if address <= 0x3FFF {
            address as int
        } else if address <= 0x7FFF {
            self.rom_num * ROM_BANK_SIZE + (address - 0x4000)
        } else {
            self.ram_num * RAM_BANK_RTC_REG_SIZE + (address - 0xA000)
        }
    }

    pub open spec fn spec_in_bounds(self, address: u16) -> bool {
        address > 0x7FFF || self.index_of(address) < self.rom@.len()
    }

    pub open spec fn spec_read_byte(self, address: u16) -> u8 {
        if address <= 0x7FFF {
            self.rom@[self.index_of(address)]
        } else {
            self.ram@[self.index_of(address)]
        }
    }
}

impl Mbc for Mbc1 {
    open spec fn inv(&self) -> bool {
        self.wf()
    }

    fn in_bounds(&self, address: u16) -> (r: bool) {
        if address <= 0x3FFF {
            (address as usize) < self.rom.len()
        } else if address <= 0x7FFF {
            (self.rom_num as usize) * ROM_BANK_SIZE + (address as usize - 0x4000) < self.rom.len()
        } else {
            true
        }
    }
}

impl Addressable for Mbc1 {
    open spec fn can_read(&self, address: u16) -> bool {
        self.wf() && is_cartridge_address(address) && self.spec_in_bounds(address)
    }

    open spec fn byte_at(&self, address: u16) -> u8 {
        self.spec_read_byte(address)
    }

    open spec fn can_write(&self, address: u16, byte: u8) -> bool {
        self.wf() && (0x6000 <= address <= 0x7FFF ==> byte <= 1)
    }

    open spec fn wrote(&self, address: u16, byte: u8, after: Self) -> bool {
        after.wf() && after == mbc1_written(*self, address, byte)
    }

    fn read_byte(&self, address: u16) -> (r: u8) {
        if address <= 0x3FFF {
            self.rom[address as usize]
        } else if address <= 0x7FFF {
            self.rom[(self.rom_num as usize) * ROM_BANK_SIZE + (address as usize - 0x4000)]
        } else {
            self.ram[(self.ram_num as usize) * RAM_BANK_RTC_REG_SIZE + (address as usize - 0xA000)]
        }
    }

    /// Writes to the controller's registers.
    fn write_byte(&mut self, address: u16, value: u8) {
        if address <= 0x1FFF {
            if value == 0x00 {
                self.ram_enabled = false;
            } else if value == 0x0A {
                self.ram_enabled = true;
            }
        } else if address <= 0x3FFF {
            let num = (value & 0x1F) | (self.rom_num & 0x60);
            self.rom_num = if num % 0x20 == 0 { num + 1 } else { num };
        } else if address <= 0x5FFF {
            if self.rom_ram_select {
                let num = (self.rom_num & 0x1F) | (value & 0x03);
                self.rom_num = if num % 0x20 == 0 { num + 1 } else { num };
            } else {
                self.ram_num = value & 0x03;
                assert((value & 0x03) <= 3) by (bit_vector);
            }
        } else if address <= 0x7FFF {
            self.rom_ram_select = value == 0x01;
        }
    }
}

/// What cartridge RAM addresses of an MBC3 map: a RAM bank (0-3) or a clock register (0-4).
#[derive(Debug, Clone, Copy, PartialEq, Eq, Structural)]
pub enum RamRtcSelect {
    Ram(u8),
    Rtc(u8),
}

/// The MBC3 controller: up to 2MB ROM, 32KB RAM and a real time clock.
#[derive(Debug)]
pub struct Mbc3 {
    /// The whole cartridge ROM.
    pub rom: Vec<u8>,
    /// Cartridge RAM.
    pub ram: Vec<u8>,
    /// Clock registers.
    pub rtc: Vec<u8>,
    /// Whether RAM and the clock are enabled.
    pub ram_timer_enabled: bool,
    /// The ROM bank mapped at `0x4000-0x7FFF`.
    pub rom_select: u8,
    /// What `0xA000-0xBFFF` maps.
    pub ram_rtc_select: RamRtcSelect,
}

/// The MBC3 register state after a write to `0x0000-0x5FFF`.
pub open spec fn mbc3_registers_written(m: Mbc3, address: u16, value: u8) -> Mbc3 {
    if address <= 0x1FFF {
        Mbc3 {
            ram_timer_enabled: if value == 0x00 { false } else if value == 0x0A { true } else { m.ram_timer_enabled },
            ..m
        }
    } else if address <= 0x3FFF {
        let sel = (value & 0x7F) as u8;
        Mbc3 { rom_select: if sel == 0 { 1 } else { sel }, ..m }
    } else {
        Mbc3 {
            ram_rtc_select: if value <= 0x03 {
                RamRtcSelect::Ram(value)
            } else if 0x08 <= value <= 0x0C {
                RamRtcSelect::Rtc((value - 8) as u8)
            } else {
                m.ram_rtc_select
            },
            ..m
        }
    }
}

/// How a write of `value` at `address` changes an MBC3: registers at `0x0000-0x5FFF`, the
/// selected RAM bank or clock register at `0xA000-0xBFFF`; other addresses change nothing.
pub open spec fn mbc3_write_relation(m: Mbc3, n: Mbc3, address: u16, value: u8) -> bool {
    if address <= 0x5FFF {
        n == mbc3_registers_written(m, address, value)
    } else if 0xA000 <= address <= 0xBFFF {
        &&& n.rom == m.rom
        &&& n.ram_timer_enabled == m.ram_timer_enabled
        &&& n.rom_select == m.rom_select
        &&& n.ram_rtc_select == m.ram_rtc_select
        &&& match m.ram_rtc_select {
            RamRtcSelect::Ram(_) => n.ram@ == m.ram@.update(m.ram_index(address), value) && n.rtc == m.rtc,
            RamRtcSelect::Rtc(_) => n.rtc@ == m.rtc@.update(m.ram_index(address), value) && n.ram == m.ram,
        }
    } else {
        n == m
    }
}

impl Mbc3 {
    /// A controller for the given ROM with bank 1 mapped, RAM bank 0 selected and RAM disabled.
    pub fn new(rom: Vec<u8>) -> (r: Mbc3)
        ensures
            r.wf(),
            r.rom@ == rom@,
            r.rom_select == 1,
            r.ram_rtc_select == RamRtcSelect::Ram(0),
            !r.ram_timer_enabled,
            forall|i: int| 0 <= i < RAM_SIZE ==> r.ram@[i] == 0,
            forall|i: int| 0 <= i < RTC_SIZE ==> r.rtc@[i] == 0,
    {
        Mbc3 {
            rom,
            ram: vec![0; RAM_SIZE],
            rtc: vec![0; RTC_SIZE],
            ram_timer_enabled: false,
            rom_select: 1,
            ram_rtc_select: RamRtcSelect::Ram(0),
        }
    }

    /// RAM holds four banks, the clock five, and the selection names one of them.
    pub open spec fn wf(self) -> bool {
        &&& self.ram@.len() == RAM_SIZE
        &&& self.rtc@.len() == RTC_SIZE
        &&& match self.ram_rtc_select {
            RamRtcSelect::Ram(n) => n <= 3,
            RamRtcSelect::Rtc(n) => n <= 4,
        }
    }

    /// The index into the RAM or clock registers that a cartridge RAM address maps.
    pub open spec fn ram_index(self, address: u16) -> int {
        match self.ram_rtc_select {
            RamRtcSelect::Ram(n) => n * RAM_BANK_RTC_REG_SIZE + (address - 0xA000),
            RamRtcSelect::Rtc(n) => n * RAM_BANK_RTC_REG_SIZE + (address - 0xA000),
        }
    }

    pub open spec fn spec_in_bounds(self, address: u16) -> bool {
        if address <= 0x3FFF {
            address < self.rom@.len()
        } else if address <= 0x7FFF {
            self.rom_select * ROM_BANK_SIZE + (address - 0x4000) < self.rom@.len()
        } else {
            true
        }
    }

    pub open spec fn spec_read_byte(self, address: u16) -> u8 {
        if address <= 0x3FFF {
            self.rom@[address as int]
        } else if address <= 0x7FFF {
            self.rom@[self.rom_select * ROM_BANK_SIZE + (address - 0x4000)]
        } else {
            match self.ram_rtc_select {
                RamRtcSelect::Ram(_) => self.ram@[self.ram_index(address)],
                RamRtcSelect::Rtc(_) => self.rtc@[self.ram_index(address)],
            }
        }
    }
}

impl Mbc for Mbc3 {
    open spec fn inv(&self) -> bool {
        self.wf()
    }

    fn in_bounds(&self, address: u16) -> (r: bool) {
        if address <= 0x3FFF {
            (address as usize) < self.rom.len()
        } else if address <= 0x7FFF {
            (self.rom_select as usize) * ROM_BANK_SIZE + (address as usize - 0x4000) < self.rom.len()
        } else {
            true
        }
    }
}

impl Addressable for Mbc3 {
    open spec fn can_read(&self, address: u16) -> bool {
        self.wf() && is_cartridge_address(address) && self.spec_in_bounds(address)
    }

    open spec fn byte_at(&self, address: u16) -> u8 {
        self.spec_read_byte(address)
    }

    open spec fn can_write(&self, address: u16, byte: u8) -> bool {
        self.wf() && is_cartridge_address(address) && !(0x6000 <= address <= 0x7FFF)
    }

    open spec fn wrote(&self, address: u16, byte: u8, after: Self) -> bool {
        after.wf() && mbc3_write_relation(*self, after, address, byte)
    }

    fn read_byte(&self, address: u16) -> (r: u8) {
        if address <= 0x3FFF {
            self.rom[address as usize]
        } else if address <= 0x7FFF {
            self.rom[(self.rom_select as usize) * ROM_BANK_SIZE + (address as usize - 0x4000)]
        } else {
            match self.ram_rtc_select {
                RamRtcSelect::Ram(bank) => self.ram[(bank as usize) * RAM_BANK_RTC_REG_SIZE + (address as usize - 0xa000)],
                RamRtcSelect::Rtc(reg) => self.rtc[(reg as usize) * RAM_BANK_RTC_REG_SIZE + (address as usize - 0xa000)],
            }
        }
    }

    /// Writes to the controller's registers, or to the selected RAM bank or clock register.
    fn write_byte(&mut self, address: u16, value: u8) {
        if address <= 0x1FFF {
            if value == 0x00 {
                self.ram_timer_enabled = false;
            } else if value == 0x0a {
                self.ram_timer_enabled = true;
            }
        } else if address <= 0x3FFF {
            let sel = value & 0x7F;
            self.rom_select = if sel == 0 { 1 } else { sel };
        } else if address <= 0x5FFF {
            if value <= 0x03 {
                self.ram_rtc_select = RamRtcSelect::Ram(value);
            } else if 0x08 <= value && value <= 0x0c {
                self.ram_rtc_select = RamRtcSelect::Rtc(value - 0x08);
            }
        } else {
            match self.ram_rtc_select {
                RamRtcSelect::Ram(bank) => {
                    let index = (bank as usize) * RAM_BANK_RTC_REG_SIZE + (address as usize - 0xa000);
                    self.ram.set(index, value);
                },
                RamRtcSelect::Rtc(reg) => {
                    let index = (reg as usize) * RAM_BANK_RTC_REG_SIZE + (address as usize - 0xa000);
                    self.rtc.set(index, value);
                },
            }
        }
    }
}

/// The ROM bank that an MBC1 selects after `value` is written to `0x2000-0x3FFF`: its low five
/// bits are those of `value`, 0 counting as 1, and its bits 5-6 are kept.
pub open spec fn mbc1_bank_after_select(rom_num: u8, value: u8) -> int {
    (rom_num as int / 32 % 4) * 32 + (if value % 32 == 0 { 1 } else { value % 32 })
}

/// ROM bank switching on an MBC1: after `value` is written to `0x2000-0x3FFF`, the low five bits
/// of the selected bank are those of `value` (bank 0 standing for bank 1), everything else is
/// kept, and reading `0x4000 + k` gives byte `k` of that bank of the cartridge ROM.
pub proof fn lemma_mbc1_rom_bank_switch(m: Mbc1, address: u16, value: u8, n: Mbc1, k: int)
    requires
        m.can_write(address, value),
        m.wrote(address, value, n),
        0x2000 <= address <= 0x3FFF,
        0 <= k < 0x4000,
    ensures
        n.rom_num == mbc1_bank_after_select(m.rom_num, value),
        n == (Mbc1 { rom_num: n.rom_num, ..m }),
        n.can_read((0x4000 + k) as u16) <==> mbc1_bank_after_select(m.rom_num, value) * 0x4000 + k < m.rom@.len(),
        n.can_read((0x4000 + k) as u16) ==> n.byte_at((0x4000 + k) as u16)
            == m.rom@[mbc1_bank_after_select(m.rom_num, value) * 0x4000 + k],
{
    let r = m.rom_num;
    assert(((value & 0x1F) | (r & 0x60)) as int == (r as int / 32 % 4) * 32 + value as int % 32
        && ((((value & 0x1F) | (r & 0x60)) as int % 0x20 == 0) == (value as int % 32 == 0))) by (bit_vector);
}

/// ROM bank switching on an MBC3: after `value` is written to `0x2000-0x3FFF`, the selected
/// bank is the low seven bits of `value` (bank 0 standing for bank 1), nothing else changes,
/// and reading `0x4000 + k` gives byte `k` of that bank of the cartridge ROM.
pub proof fn lemma_mbc3_rom_bank_switch(m: Mbc3, address: u16, value: u8, n: Mbc3, k: int)
    requires
        m.can_write(address, value),
        m.wrote(address, value, n),
        0x2000 <= address <= 0x3FFF,
        0 <= k < 0x4000,
    ensures
        n.rom_select == (if value % 128 == 0 { 1 } else { value % 128 }),
        n == (Mbc3 { rom_select: n.rom_select, ..m }),
        n.can_read((0x4000 + k) as u16) <==> n.rom_select * 0x4000 + k < m.rom@.len(),
        n.can_read((0x4000 + k) as u16) ==> n.byte_at((0x4000 + k) as u16) == m.rom@[n.rom_select * 0x4000 + k],
{
    assert((value & 0x7F) as int == value as int % 128) by (bit_vector);
}

} // verus!
