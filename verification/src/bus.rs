//! Inter-component communication.
//!
//! The `Bus` contains each individual component. All memory accesses are proxied through the
//! `Bus`, which then dispatches the read or write to the correct component.

use vstd::prelude::*;

use crate::audio::{is_sound_address, is_sound_register, SoundController};
use crate::bytes::{bit, byte_of_bits, pack_bits, read_u16_le, write_u16_le, ByteExt};
use crate::cpu::timer::Timer;
use crate::cpu::{InterruptState, Interrupts, MCycles, TCycles};
use crate::graphics::{is_ppu_address, Ppu, VideoMemory};
use crate::input::{ButtonState, SelectFlags};
use crate::memory::{is_mmu_address, Addressable, Mmu};
use crate::text::{hex_digits, push_hex};

verus! {

/// The "wires" of the emulator.
#[derive(Debug)]
pub struct Bus {
    pub ppu: Ppu,
    pub audio: SoundController,
    pub mmu: Mmu,
    pub interrupts: Interrupts,
    pub timer: Timer,
    pub button_state: ButtonState,
    /// The byte last written to the serial transfer data register (`SB`).
    pub serial_transfer_data: u8,
    /// The bytes sent over the serial port, when they are collected.
    pub serial_out: Option<Vec<u8>>,
}

/// Video RAM and sprite memory, which the PPU holds.
pub open spec fn is_video_address(address: u16) -> bool {
    (0x8000 <= address <= 0x9FFF) || (0xFE00 <= address <= 0xFE9F)
}

/// The I/O registers.
pub open spec fn is_io_address(address: u16) -> bool {
    (0xFF00 <= address <= 0xFF7F) || address == 0xFFFF
}

/// The Interrupt Flag register (`IF`): one requested bit per interrupt, the high bits set.
pub open spec fn interrupt_flag_byte(i: Interrupts) -> u8 {
    byte_of_bits(
        i.vblank.requested,
        i.lcd_status.requested,
        i.timer.requested,
        i.serial.requested,
        i.joypad.requested,
        true,
        true,
        true,
    )
}

/// The Interrupt Enable register (`IE`): one enabled bit per interrupt, the high bits set.
pub open spec fn interrupt_enable_byte(i: Interrupts) -> u8 {
    byte_of_bits(
        i.vblank.enabled,
        i.lcd_status.enabled,
        i.timer.enabled,
        i.serial.enabled,
        i.joypad.enabled,
        true,
        true,
        true,
    )
}

/// The interrupts with their requested bits set from a write to `IF`.
pub open spec fn interrupts_requested(i: Interrupts, byte: u8) -> Interrupts {
    Interrupts {
        vblank: InterruptState { requested: bit(byte, 0), ..i.vblank },
        lcd_status: InterruptState { requested: bit(byte, 1), ..i.lcd_status },
        timer: InterruptState { requested: bit(byte, 2), ..i.timer },
        serial: InterruptState { requested: bit(byte, 3), ..i.serial },
        joypad: InterruptState { requested: bit(byte, 4), ..i.joypad },
        ..i
    }
}

/// The interrupts with their enabled bits set from a write to `IE`.
pub open spec fn interrupts_enabled(i: Interrupts, byte: u8) -> Interrupts {
    Interrupts {
        vblank: InterruptState { enabled: bit(byte, 0), ..i.vblank },
        lcd_status: InterruptState { enabled: bit(byte, 1), ..i.lcd_status },
        timer: InterruptState { enabled: bit(byte, 2), ..i.timer },
        serial: InterruptState { enabled: bit(byte, 3), ..i.serial },
        joypad: InterruptState { enabled: bit(byte, 4), ..i.joypad },
        ..i
    }
}

impl Bus {
    /// Each component keeps its invariant.
    pub open spec fn wf(self) -> bool {
        &&& self.ppu.wf()
        &&& self.mmu.wf()
        &&& self.timer.wf()
    }

    /// The byte that reading an I/O register gives.
    ///
    /// Registers that nothing implements read `0xFF` (`0x00` below the sound registers), and so
    /// does a sound address that no sound register answers.
    pub open spec fn spec_read_io(self, address: u16) -> u8 {
        if address == 0xFF00 {
            self.button_state.spec_as_byte()
        } else if address == 0xFF04 {
            self.timer.reg.divider
        } else if address == 0xFF05 {
            self.timer.reg.counter
        } else if address == 0xFF06 {
            self.timer.reg.modulo
        } else if address == 0xFF07 {
            self.timer.reg.control
        } else if address == 0xFF0F {
            interrupt_flag_byte(self.interrupts)
        } else if 0xFF10 <= address <= 0xFF3F {
            if !self.audio.sound_enabled || is_sound_address(address) {
                self.audio.spec_read_byte(address)
            } else {
                0xFF
            }
        } else if 0xFF40 <= address <= 0xFF4B {
            self.ppu.spec_read(address)
        } else if 0xFF4C <= address <= 0xFF7F {
            0xFF
        } else if address == 0xFFFF {
            interrupt_enable_byte(self.interrupts)
        } else {
            0x00
        }
    }

    /// The byte that reading an address gives, without any time passing.
    pub open spec fn spec_read(self, address: u16) -> u8 {
        if is_video_address(address) {
            self.ppu.spec_read(address)
        } else if is_io_address(address) {
            self.spec_read_io(address)
        } else {
            self.mmu.spec_read(address)
        }
    }

    /// What a write does, without any time passing: `after` is the bus after writing `byte`
    /// at `address`.
    ///
    /// A write to `0xFF46` copies `0xA0` bytes from `byte * 0x100` into sprite memory (DMA).
    /// Writes to registers that nothing implements, and to sound addresses that no sound
    /// register answers, change nothing.
    pub open spec fn write_relation(self, address: u16, byte: u8, after: Bus) -> bool {
        if is_video_address(address) {
            &&& self.ppu.write_relation(address, byte, after.ppu)
            &&& after == (Bus { ppu: after.ppu, ..self })
        } else if address == 0xFF00 {
            after == (Bus {
                button_state: ButtonState {
                    select: SelectFlags { button: bit(byte, 4), direction: bit(byte, 5) },
                    ..self.button_state
                },
                ..self
            })
        } else if address == 0xFF01 {
            after == (Bus { serial_transfer_data: byte, ..self })
        } else if address == 0xFF02 {
            &&& after == (Bus { serial_out: after.serial_out, ..self })
            &&& match self.serial_out {
                Some(out) => after.serial_out matches Some(o) && o@ == out@.push(self.serial_transfer_data),
                None => after.serial_out is None,
            }
        } else if address == 0xFF04 {
            after == (Bus {
                timer: Timer {
                    div_counter: 0,
                    timer_counter: 0,
                    reg: crate::cpu::timer::TimerRegisters { divider: 0, ..self.timer.reg },
                    ..self.timer
                },
                ..self
            })
        } else if address == 0xFF05 {
            after == (Bus {
                timer: Timer { reg: crate::cpu::timer::TimerRegisters { counter: byte, ..self.timer.reg }, ..self.timer },
                ..self
            })
        } else if address == 0xFF06 {
            after == (Bus {
                timer: Timer { reg: crate::cpu::timer::TimerRegisters { modulo: byte, ..self.timer.reg }, ..self.timer },
                ..self
            })
        } else if address == 0xFF07 {
            after == (Bus {
                timer: Timer {
                    reg: crate::cpu::timer::TimerRegisters { control: byte & 0x7, ..self.timer.reg },
                    ..self.timer
                },
                ..self
            })
        } else if address == 0xFF0F {
            after == (Bus { interrupts: interrupts_requested(self.interrupts, byte), ..self })
        } else if 0xFF10 <= address <= 0xFF3F {
            if !self.audio.sound_enabled || is_sound_address(address) {
                &&& self.audio.write_relation(address, byte, after.audio)
                &&& after == (Bus { audio: after.audio, ..self })
            } else {
                after == self
            }
        } else if address == 0xFF46 {
            &&& after.ppu.mem.oam@ == Seq::new(0xA0, |i: int| self.spec_read((byte as int * 0x100 + i) as u16))
            &&& after == (Bus {
                ppu: Ppu { mem: VideoMemory { oam: after.ppu.mem.oam, ..self.ppu.mem }, ..self.ppu },
                ..self
            })
        } else if 0xFF40 <= address <= 0xFF4B {
            &&& self.ppu.write_relation(address, byte, after.ppu)
            &&& after == (Bus { ppu: after.ppu, ..self })
        } else if address == 0xFF50 {
            after == (Bus { mmu: Mmu { bios_mapped: false, ..self.mmu }, ..self })
        } else if address == 0xFFFF {
            after == (Bus { interrupts: interrupts_enabled(self.interrupts, byte), ..self })
        } else if is_io_address(address) {
            after == self
        } else {
            &&& self.mmu.write_relation(address, byte, after.mmu)
            &&& after == (Bus { mmu: after.mmu, ..self })
        }
    }

    /// What ticking does: `after` is the bus after `m` M-cycles from `self`.
    ///
    /// The PPU steps four times per M-cycle, requesting its interrupts, then the timer ticks,
    /// requesting its interrupt. Nothing else changes.
    pub open spec fn tick_relation(self, m: u32, after: Bus) -> bool {
        exists|j: Interrupts| {
            &&& #[trigger] self.ppu.steps_relation(self.interrupts, after.ppu, j, (4 * m) as nat)
            &&& self.timer.tick_relation(m, j.timer.requested, after.timer, after.interrupts.timer.requested)
            &&& after.interrupts == (Interrupts {
                timer: InterruptState { requested: after.interrupts.timer.requested, ..j.timer },
                ..j
            })
            &&& after == (Bus { ppu: after.ppu, interrupts: after.interrupts, timer: after.timer, ..self })
        }
    }

    /// A read that takes one M-cycle: `value` is the byte read, `after` the bus after it.
    pub open spec fn read_cycle(self, address: u16, value: u8, after: Bus) -> bool {
        value == self.spec_read(address) && self.tick_relation(1, after)
    }

    /// A write that takes one M-cycle: `after` is the bus after it.
    pub open spec fn write_cycle(self, address: u16, value: u8, after: Bus) -> bool {
        exists|mid: Bus| #[trigger] self.write_relation(address, value, mid) && mid.tick_relation(1, after)
    }

    /// A little-endian word read in two M-cycles: `word`'s low byte at `address`, then its
    /// high byte at the next address.
    pub open spec fn read_word_cycles(self, address: u16, word: u16, after: Bus) -> bool {
        exists|mid: Bus| #[trigger] self.read_cycle(address, (word % 256) as u8, mid)
            && mid.read_cycle(next_address(address), (word / 256) as u8, after)
    }

    /// A little-endian word written in two M-cycles: `word`'s low byte at `address`, then its
    /// high byte at the next address.
    pub open spec fn write_word_cycles(self, address: u16, word: u16, after: Bus) -> bool {
        exists|mid: Bus| #[trigger] self.write_cycle(address, (word % 256) as u8, mid)
            && mid.write_cycle(next_address(address), (word / 256) as u8, after)
    }

    /// The memories have their sizes (as `wf` requires).
    pub open spec fn sized(self) -> bool {
        &&& self.ppu.mem.bg_map@.len() == crate::graphics::BG_MAP_SIZE
        &&& self.ppu.mem.chram@.len() == crate::graphics::CHRAM_SIZE
        &&& self.ppu.mem.oam@.len() == crate::graphics::OAM_SIZE
        &&& self.mmu.mem.wram@.len() == crate::memory::WRAM_SIZE
        &&& self.mmu.mem.zram@.len() == crate::memory::ZRAM_SIZE
    }

    /// Room for `m` more M-cycles in the timer's elapsed-time counter.
    pub open spec fn has_room(self, m: int) -> bool {
        self.timer.diff + m <= u32::MAX
    }

    /// The power-on state of the joypad: no group selected and no button held.
    pub open spec fn joypad_initial(self) -> bool {
        &&& self.button_state.select == SelectFlags::spec_empty()
        &&& forall|i: int| 0 <= i < 8 ==> !self.button_state.pressed@[i]
    }

    /// Every component in its power-on state, and no serial output collected.
    pub open spec fn is_initial(self) -> bool {
        &&& self.ppu.is_initial()
        &&& self.audio.is_initial()
        &&& self.mmu.is_initial()
        &&& self.interrupts == crate::cpu::interrupts_none()
        &&& self.timer == Timer::new_spec()
        &&& self.joypad_initial()
        &&& self.serial_transfer_data == 0
        &&& self.serial_out is None
    }

    /// A bus whose components are all in their power-on state.
    pub fn new() -> (r: Bus)
        ensures
            r.wf(),
            r.is_initial(),
    {
        Bus {
            ppu: Ppu::new(),
            audio: SoundController::new(),
            mmu: Mmu::new(),
            interrupts: Interrupts::new(),
            timer: Timer::new(),
            button_state: ButtonState::new(),
            serial_transfer_data: 0,
            serial_out: None,
        }
    }

    /// Reads a single byte from memory. This read happens instantaneously: no components are
    /// ticked.
    pub fn read_byte_no_tick(&self, address: u16) -> (r: u8)
        requires
            self.wf(),
        ensures
            r == self.spec_read(address),
    {
        if (0x8000 <= address && address <= 0x9FFF) || (0xFE00 <= address && address <= 0xFE9F) {
            self.ppu.read_byte(address)
        } else if (0xFF00 <= address && address <= 0xFF7F) || address == 0xFFFF {
            self.read_io_register(address)
        } else {
            self.mmu.read_byte(address)
        }
    }

    fn read_io_register(&self, address: u16) -> (r: u8)
        requires
            self.wf(),
            is_io_address(address),
        ensures
            r == self.spec_read_io(address),
    {
        let i = &self.interrupts;
        match address {
            // P1/JOYP - Joypad
            0xFF00 => self.button_state.as_byte(),
            // DIV - Divider Register
            0xFF04 => self.timer.reg.divider(),
            // TIMA - Timer Counter
            0xFF05 => self.timer.reg.counter,
            // TMA - Timer Modulo
            0xFF06 => self.timer.reg.modulo,
            // TAC - Timer Control
            0xFF07 => self.timer.reg.control,
            // IF - Interrupt Flag; the higher bits are unspecified and read high.
            0xFF0F => pack_bits(
                i.vblank.requested,
                i.lcd_status.requested,
                i.timer.requested,
                i.serial.requested,
                i.joypad.requested,
                true,
                true,
                true,
            ),
            // Sound memory
            0xFF10..=0xFF3F => {
                if !self.audio.sound_enabled || is_sound_register(address) {
                    self.audio.read_byte(address)
                } else {
                    0xFF
                }
            },
            // LCD registers
            0xFF40..=0xFF4B => self.ppu.read_byte(address),
            // CGB-only and undocumented registers
            0xFF4C..=0xFF7F => 0xFF,
            // IE - Interrupt Enable; the remaining bits are unspecified and read high.
            0xFFFF => pack_bits(
                i.vblank.enabled,
                i.lcd_status.enabled,
                i.timer.enabled,
                i.serial.enabled,
                i.joypad.enabled,
                true,
                true,
                true,
            ),
            _ => 0x00,
        }
    }

    /// Writes a single byte to memory. This write happens instantaneously: no components are
    /// ticked.
    pub fn write_byte_no_tick(&mut self, address: u16, byte: u8)
        requires
            old(self).wf(),
        ensures
            final(self).wf(),
            old(self).write_relation(address, byte, *final(self)),
    {
        if (0x8000 <= address && address <= 0x9FFF) || (0xFE00 <= address && address <= 0xFE9F) {
            self.ppu.write_byte(address, byte);
        } else if (0xFF00 <= address && address <= 0xFF7F) || address == 0xFFFF {
            self.write_io_register(address, byte);
        } else {
            self.mmu.write_byte(address, byte);
        }
    }

    fn write_io_register(&mut self, address: u16, byte: u8)
        requires
            old(self).wf(),
            is_io_address(address),
        ensures
            final(self).wf(),
            old(self).write_relation(address, byte, *final(self)),
    {
        if address <= 0xFF02 {
            self.write_port_register(address, byte);
        } else if 0xFF04 <= address && address <= 0xFF07 {
            self.write_timer_register(address, byte);
        } else if address == 0xFF0F || address == 0xFFFF {
            self.write_interrupt_register(address, byte);
        } else if 0xFF10 <= address && address <= 0xFF3F {
            // Sound control registers
            if !self.audio.sound_enabled || is_sound_register(address) {
                self.audio.write_byte(address, byte);
            }
        } else if address == 0xFF46 {
            // DMA Transfer
            self.dma_transfer(byte);
        } else if 0xFF40 <= address && address <= 0xFF4B {
            // LCD registers
            self.ppu.write_byte(address, byte);
        } else if address == 0xFF50 {
            // Unmap BIOS
            if self.mmu.bios_mapped {
                self.mmu.unmap_bios();
            }
        }
    }

    /// The joypad and serial port registers.
    fn write_port_register(&mut self, address: u16, byte: u8)
        requires
            old(self).wf(),
            0xFF00 <= address <= 0xFF02,
        ensures
            final(self).wf(),
            old(self).write_relation(address, byte, *final(self)),
    {
        if address == 0xFF00 {
            // P1/JOYP - Joypad
            self.button_state.select(byte);
        } else if address == 0xFF01 {
            // SB - Serial transfer data
            self.serial_transfer_data = byte;
        } else {
            // SC - Serial Transfer Control: the data byte goes out.
            let data = self.serial_transfer_data;
            match &mut self.serial_out {
                Some(out) => out.push(data),
                None => {},
            }
        }
    }

    /// The divider and timer registers.
    fn write_timer_register(&mut self, address: u16, byte: u8)
        requires
            old(self).wf(),
            0xFF04 <= address <= 0xFF07,
        ensures
            final(self).wf(),
            old(self).write_relation(address, byte, *final(self)),
    {
        if address == 0xFF04 {
            // DIV - Divider Register
            self.timer.reset_divider();
        } else if address == 0xFF05 {
            // TIMA - Timer Counter
            self.timer.reg.counter = byte;
        } else if address == 0xFF06 {
            // TMA - Timer Modulo
            self.timer.reg.modulo = byte;
        } else {
            // TAC - Timer Control
            self.timer.reg.control = byte & 0x7;
        }
    }

    /// The interrupt flag (`IF`) and interrupt enable (`IE`) registers.
    fn write_interrupt_register(&mut self, address: u16, byte: u8)
        requires
            old(self).wf(),
            address == 0xFF0F || address == 0xFFFF,
        ensures
            final(self).wf(),
            old(self).write_relation(address, byte, *final(self)),
    {
        let i = self.interrupts;
        let b0 = byte.has_bit_set(0);
        let b1 = byte.has_bit_set(1);
        let b2 = byte.has_bit_set(2);
        let b3 = byte.has_bit_set(3);
        let b4 = byte.has_bit_set(4);
        if address == 0xFF0F {
            self.interrupts = Interrupts {
                vblank: InterruptState { requested: b0, enabled: i.vblank.enabled },
                lcd_status: InterruptState { requested: b1, enabled: i.lcd_status.enabled },
                timer: InterruptState { requested: b2, enabled: i.timer.enabled },
                serial: InterruptState { requested: b3, enabled: i.serial.enabled },
                joypad: InterruptState { requested: b4, enabled: i.joypad.enabled },
                enabled: i.enabled,
            };
        } else {
            self.interrupts = Interrupts {
                vblank: InterruptState { enabled: b0, requested: i.vblank.requested },
                lcd_status: InterruptState { enabled: b1, requested: i.lcd_status.requested },
                timer: InterruptState { enabled: b2, requested: i.timer.requested },
                serial: InterruptState { enabled: b3, requested: i.serial.requested },
                joypad: InterruptState { enabled: b4, requested: i.joypad.requested },
                enabled: i.enabled,
            };
        }
    }

    /// Copies `0xA0` bytes starting at `byte * 0x100` into sprite memory.
    fn dma_transfer(&mut self, byte: u8)
        requires
            old(self).wf(),
        ensures
            final(self).wf(),
            final(self).ppu.mem.oam@ == Seq::new(0xA0, |i: int| old(self).spec_read((byte as int * 0x100 + i) as u16)),
            *final(self) == (Bus {
                ppu: Ppu { mem: VideoMemory { oam: final(self).ppu.mem.oam, ..old(self).ppu.mem }, ..old(self).ppu },
                ..*old(self)
            }),
    {
        // The source fills the XX in 0xXXNN, where 00 <= NN < A0.
        let transfer_address: u16 = (byte as u16) * 256;
        let ghost b0 = *old(self);
        let mut i: u16 = 0;
        while i < 0xA0
            invariant
                i <= 0xA0,
                transfer_address == byte as int * 0x100,
                self.wf(),
                forall|k: int| 0 <= k < i ==> #[trigger] self.ppu.mem.oam@[k] == b0.spec_read((transfer_address + k) as u16),
                forall|k: int| i <= k < 0xA0 ==> #[trigger] self.ppu.mem.oam@[k] == b0.ppu.mem.oam@[k],
                *self == (Bus {
                    ppu: Ppu { mem: VideoMemory { oam: self.ppu.mem.oam, ..b0.ppu.mem }, ..b0.ppu },
                    ..b0
                }),
            decreases 0xA0 - i,
        {
            let transfer_byte = self.read_byte_no_tick(transfer_address + i);
            assert(transfer_byte == b0.spec_read((transfer_address + i) as u16));
            self.ppu.write_byte(0xFE00 + i, transfer_byte);
            i = i + 1;
        }
        assert(self.ppu.mem.oam@ =~= Seq::new(0xA0, |k: int| b0.spec_read((byte as int * 0x100 + k) as u16)));
    }

    /// Tick each component individually: the PPU four times per M-cycle, then the timer.
    pub fn tick(&mut self, cycles: MCycles)
        requires
            old(self).wf(),
            cycles.0 <= 0x3FFF_FFFF,
            old(self).has_room(cycles.0 as int),
        ensures
            final(self).wf(),
            old(self).tick_relation(cycles.0, *final(self)),
    {
        let t_cycles = TCycles::from(cycles);
        let ghost b0 = *old(self);
        proof {
            b0.ppu.lemma_steps_zero(b0.interrupts);
        }
        let mut k: u32 = 0;
        while k < t_cycles.0
            invariant
                k <= t_cycles.0,
                t_cycles.0 == 4 * cycles.0,
                self.wf(),
                b0.ppu.steps_relation(b0.interrupts, self.ppu, self.interrupts, k as nat),
                *self == (Bus { ppu: self.ppu, interrupts: self.interrupts, ..b0 }),
            decreases t_cycles.0 - k,
        {
            let ghost p = self.ppu;
            let ghost i = self.interrupts;
            self.ppu.step(&mut self.interrupts);
            proof {
                b0.ppu.lemma_steps_extend(b0.interrupts, p, i, self.ppu, self.interrupts, k as nat);
            }
            k = k + 1;
        }
        let ghost j = self.interrupts;
        let mut requested = self.interrupts.timer.requested;
        self.timer.tick(cycles, &mut requested);
        self.interrupts.timer = InterruptState { requested, enabled: self.interrupts.timer.enabled };
        assert(b0.ppu.steps_relation(b0.interrupts, self.ppu, j, (4 * cycles.0) as nat));
    }

    /// Reads a single byte from memory. Ticks each component a cycle.
    pub fn read_byte(&mut self, address: u16) -> (r: u8)
        requires
            old(self).wf(),
            old(self).has_room(1),
        ensures
            final(self).wf(),
            old(self).read_cycle(address, r, *final(self)),
    {
        let byte = self.read_byte_no_tick(address);
        self.tick(MCycles(1));
        byte
    }

    /// Writes a single byte to memory. Ticks each component a cycle.
    pub fn write_byte(&mut self, address: u16, byte: u8)
        requires
            old(self).wf(),
            old(self).has_room(1),
        ensures
            final(self).wf(),
            old(self).write_cycle(address, byte, *final(self)),
    {
        self.write_byte_no_tick(address, byte);
        let ghost mid = *self;
        self.tick(MCycles(1));
        assert(old(self).write_relation(address, byte, mid) && mid.tick_relation(1, *self));
    }

    /// Returns the word at a given memory address, read in little-endian order. Each component is
    /// ticked two cycles.
    pub fn read_word(&mut self, address: u16) -> (r: u16)
        requires
            old(self).wf(),
            old(self).has_room(2),
        ensures
            final(self).wf(),
            old(self).read_word_cycles(address, r, *final(self)),
    {
        let lo = self.read_byte(address);
        let ghost mid = *self;
        let hi = self.read_byte(address.wrapping_add(1));
        let r = read_u16_le(lo, hi);
        assert(old(self).read_cycle(address, (r % 256) as u8, mid));
        r
    }

    /// Writes a word to a given memory address in little-endian order. Each component is ticked
    /// two cycles.
    pub fn write_word(&mut self, address: u16, word: u16)
        requires
            old(self).wf(),
            old(self).has_room(2),
        ensures
            final(self).wf(),
            old(self).write_word_cycles(address, word, *final(self)),
    {
        let (lo, hi) = write_u16_le(word);
        self.write_byte(address, lo);
        let ghost mid = *self;
        self.write_byte(address.wrapping_add(1), hi);
        assert(old(self).write_cycle(address, (word % 256) as u8, mid));
    }

    /// The memory space as text, 32 bytes per line in hexadecimal, each half line led by the
    /// address of its first byte.
    pub fn to_string(&self) -> (r: String)
        requires
            self.wf(),
        ensures
            r@ == memory_text(*self, 0x10000),
    {
        let mut s = String::new();
        let mut address: u32 = 0;
        while address < 0x10000
            invariant
                self.wf(),
                address <= 0x10000,
                s@ == memory_text(*self, address as nat),
            decreases 0x10000 - address,
        {
            let byte = self.read_byte_no_tick(address as u16);
            let ghost before = s@;
            if address % 32 == 0 || address % 32 == 16 {
                push_hex(&mut s, address, 4);
                s.append(" ");
            }
            push_hex(&mut s, byte as u32, 2);
            s.append(" ");
            if address % 32 == 31 {
                s.append("\n");
            }
            assert(s@ =~= before + byte_text(address as int, byte));
            address = address + 1;
        }
        s
    }

    /// Create an iterator over the entire memory space.
    pub fn iter(&self) -> (r: MemoryIterator<'_>)
        requires
            self.wf(),
        ensures
            r.bus == self,
            r.address == 0,
            r.remaining() == memory_bytes(*self),
    {
        MemoryIterator { bus: self, address: 0 }
    }
}

/// The text of the byte at `address` in a memory dump: the address first at the start of each
/// half line of 16 bytes, a line break after the last byte of a line of 32.
pub open spec fn byte_text(address: int, byte: u8) -> Seq<char> {
    (if address % 32 == 0 || address % 32 == 16 { hex_digits(address, 4) + " "@ } else { Seq::empty() })
        + hex_digits(byte as int, 2) + " "@ + (if address % 32 == 31 { "\n"@ } else { Seq::empty() })
}

/// The text of the first `n` bytes of the memory space.
pub open spec fn memory_text(bus: Bus, n: nat) -> Seq<char>
    decreases n,
{
    if n == 0 {
        Seq::empty()
    } else {
        memory_text(bus, (n - 1) as nat) + byte_text(n - 1, bus.spec_read((n - 1) as u16))
    }
}

/// The address after `address`, wrapping around the memory space.
pub open spec fn next_address(address: u16) -> u16 {
    ((address + 1) % 0x10000) as u16
}

/// An iterator over the memory space, one byte per address from `0x0000` to `0xFFFF`.
pub struct MemoryIterator<'a> {
    pub bus: &'a Bus,
    /// The next address to read; `0x10000` once every address has been read.
    pub address: u32,
}

/// The bytes of the whole memory space, as reads without ticking give them, by address.
pub open spec fn memory_bytes(bus: Bus) -> Seq<u8> {
    Seq::new(0x10000, |i: int| bus.spec_read(i as u16))
}

impl<'a> MemoryIterator<'a> {
    /// The bytes still to come: those of the addresses from the next one to `0xFFFF`.
    pub open spec fn remaining(self) -> Seq<u8> {
        if self.address >= 0x10000 {
            Seq::empty()
        } else {
            memory_bytes(*self.bus).subrange(self.address as int, 0x10000)
        }
    }

    /// Reads the byte at the next address, without any time passing. `None` once the whole
    /// memory space has been read.
    pub fn next(&mut self) -> (r: Option<u8>)
        requires
            old(self).bus.wf(),
        ensures
            final(self).bus == old(self).bus,
            old(self).remaining().len() > 0 ==> r == Some(old(self).remaining()[0])
                && final(self).remaining() == old(self).remaining().drop_first(),
            old(self).remaining().len() == 0 ==> r is None && final(self).remaining().len() == 0,
            old(self).address < 0x10000 ==> r == Some(old(self).bus.spec_read(old(self).address as u16))
                && final(self).address == old(self).address + 1,
            old(self).address >= 0x10000 ==> r is None && final(self).address == old(self).address,
    {
        if self.address < 0x10000 {
            let byte = self.bus.read_byte_no_tick(self.address as u16);
            self.address = self.address + 1;
            proof {
                assert(self.remaining() =~= old(self).remaining().drop_first());
            }
            Some(byte)
        } else {
            None
        }
    }
}

/// Iterating over the memory space from its start gives each address's byte in turn, as a
/// read without ticking gives it, and then nothing: after `k` calls of `next`, taking the
/// iterator through `its` and giving `items`, item `i` is the byte at address `i` for
/// `i < 0x10000`, and any later item is `None`.
pub proof fn lemma_iteration(bus: Bus, its: Seq<MemoryIterator>, items: Seq<Option<u8>>)
    requires
        its.len() == items.len() + 1,
        its[0].remaining() == memory_bytes(bus),
        forall|k: int| 0 <= k < items.len() ==> {
            &&& (#[trigger] its[k]).remaining().len() > 0 ==> items[k] == Some(its[k].remaining()[0])
                && its[k + 1].remaining() == its[k].remaining().drop_first()
            &&& its[k].remaining().len() == 0 ==> items[k] is None && its[k + 1].remaining().len() == 0
        },
    ensures
        forall|i: int| 0 <= i < items.len() && i < 0x10000 ==> items[i] == Some(bus.spec_read(i as u16)),
        forall|i: int| 0x10000 <= i < items.len() ==> items[i] is None,
{
    assert forall|i: int| 0 <= i < items.len() && i < 0x10000 implies items[i] == Some(bus.spec_read(i as u16)) by {
        lemma_iteration_remaining(bus, its, items, i);
        assert(its[i].remaining().len() > 0);
        assert(items[i] == Some(its[i].remaining()[0]));
    }
    assert forall|i: int| 0x10000 <= i < items.len() implies items[i] is None by {
        lemma_iteration_remaining(bus, its, items, i);
        assert(its[i].remaining().len() == 0);
    }
}

/// After `k` calls of `next` from the start, the bytes still to come are those from address
/// `k` on.
proof fn lemma_iteration_remaining(bus: Bus, its: Seq<MemoryIterator>, items: Seq<Option<u8>>, k: int)
    requires
        its.len() == items.len() + 1,
        0 <= k <= items.len(),
        its[0].remaining() == memory_bytes(bus),
        forall|j: int| 0 <= j < items.len() ==> {
            &&& (#[trigger] its[j]).remaining().len() > 0 ==> items[j] == Some(its[j].remaining()[0])
                && its[j + 1].remaining() == its[j].remaining().drop_first()
            &&& its[j].remaining().len() == 0 ==> items[j] is None && its[j + 1].remaining().len() == 0
        },
    ensures
        k <= 0x10000 ==> its[k].remaining() == memory_bytes(bus).subrange(k, 0x10000),
        k >= 0x10000 ==> its[k].remaining().len() == 0,
    decreases k,
{
    if k > 0 {
        lemma_iteration_remaining(bus, its, items, k - 1);
        let j = k - 1;
        assert(its[j].remaining().len() > 0 ==> its[j + 1].remaining() == its[j].remaining().drop_first());
        if k <= 0x10000 {
            assert(its[k].remaining() =~= memory_bytes(bus).subrange(k, 0x10000));
        }
    }
}

impl Default for Bus {
    fn default() -> (r: Bus)
        ensures
            r.wf(),
            r.is_initial(),
    {
        Bus::new()
    }
}

/// Video RAM, sprite memory, working RAM (with its echo) and zero-page RAM: the memory that
/// reads back what was written.
pub open spec fn is_ram_address(address: u16) -> bool {
    (0x8000 <= address <= 0x9FFF) || (0xC000 <= address <= 0xFDFF) || (0xFE00 <= address <= 0xFE9F)
        || (0xFF80 <= address <= 0xFFFE)
}

/// Time passing changes neither the video memory nor anything the MMU holds.
pub proof fn lemma_tick_keeps_memory(b0: Bus, m: u32, b1: Bus)
    requires
        b0.tick_relation(m, b1),
    ensures
        b1.ppu.mem == b0.ppu.mem,
        b1.mmu == b0.mmu,
        b1.audio == b0.audio,
        b1.button_state == b0.button_state,
        b1.ppu.control == b0.ppu.control,
        b1.serial_out == b0.serial_out,
{
    let j = choose|j: Interrupts| {
        &&& #[trigger] b0.ppu.steps_relation(b0.interrupts, b1.ppu, j, (4 * m) as nat)
        &&& b0.timer.tick_relation(m, j.timer.requested, b1.timer, b1.interrupts.timer.requested)
        &&& b1.interrupts == (Interrupts {
            timer: InterruptState { requested: b1.interrupts.timer.requested, ..j.timer },
            ..j
        })
        &&& b1 == (Bus { ppu: b1.ppu, interrupts: b1.interrupts, timer: b1.timer, ..b0 })
    };
    b0.ppu.lemma_steps_frame(b0.interrupts, b1.ppu, j, (4 * m) as nat);
}

/// The interrupt registers read back the five interrupt bits written to them, with the three
/// high bits set: a write of `byte` to `IF` or `IE`, without time passing, reads back as
/// `byte | 0xE0`.
pub proof fn lemma_interrupt_registers_read_back(b0: Bus, address: u16, byte: u8, b1: Bus)
    requires
        address == 0xFF0F || address == 0xFFFF,
        b0.write_relation(address, byte, b1),
    ensures
        b1.spec_read(address) == byte | 0xE0,
        b1.spec_read(address) % 32 == byte % 32,
{
    crate::bytes::lemma_bit_shift(byte, 0);
    crate::bytes::lemma_bit_shift(byte, 1);
    crate::bytes::lemma_bit_shift(byte, 2);
    crate::bytes::lemma_bit_shift(byte, 3);
    crate::bytes::lemma_bit_shift(byte, 4);
    assert(((if (byte >> 0u8) & 1 == 1 { 1int } else { 0int }) + (if (byte >> 1u8) & 1 == 1 { 2int } else { 0int })
        + (if (byte >> 2u8) & 1 == 1 { 4int } else { 0int }) + (if (byte >> 3u8) & 1 == 1 { 8int } else { 0int })
        + (if (byte >> 4u8) & 1 == 1 { 16int } else { 0int }) + 32 + 64 + 128) as u8 == byte | 0xE0
        && (byte | 0xE0) % 32 == byte % 32) by (bit_vector);
}

/// A byte written to RAM reads back, though an M-cycle passes between.
pub proof fn lemma_read_after_write(b0: Bus, address: u16, value: u8, b1: Bus)
    requires
        b0.sized(),
        is_ram_address(address),
        b0.write_cycle(address, value, b1),
    ensures
        b1.spec_read(address) == value,
{
    let mid = choose|mid: Bus| #[trigger] b0.write_relation(address, value, mid) && mid.tick_relation(1, b1);
    lemma_tick_keeps_memory(mid, 1, b1);
}

/// Working RAM is mirrored: a byte written at `0xC000-0xDDFF` reads back `0x2000` higher, and
/// one written at `0xE000-0xFDFF` reads back `0x2000` lower.
pub proof fn lemma_echo_ram(b0: Bus, address: u16, value: u8, b1: Bus)
    requires
        b0.sized(),
        0xC000 <= address <= 0xDDFF || 0xE000 <= address <= 0xFDFF,
        b0.write_cycle(address, value, b1),
    ensures
        address <= 0xDDFF ==> b1.spec_read((address + 0x2000) as u16) == value,
        address >= 0xE000 ==> b1.spec_read((address - 0x2000) as u16) == value,
{
    let mid = choose|mid: Bus| #[trigger] b0.write_relation(address, value, mid) && mid.tick_relation(1, b1);
    lemma_tick_keeps_memory(mid, 1, b1);
}

/// The byte of memory that an address reads: working RAM's echo shares the cells of working
/// RAM.
pub open spec fn ram_cell(address: u16) -> int {
    if 0xE000 <= address <= 0xFDFF { address - 0x2000 } else { address as int }
}

/// A write to RAM leaves every other RAM cell as it was.
pub proof fn lemma_write_keeps_other_cells(b0: Bus, address: u16, value: u8, b1: Bus, other: u16)
    requires
        b0.sized(),
        is_ram_address(address),
        is_ram_address(other),
        ram_cell(address) != ram_cell(other),
        b0.write_cycle(address, value, b1),
    ensures
        b1.spec_read(other) == b0.spec_read(other),
{
    let mid = choose|mid: Bus| #[trigger] b0.write_relation(address, value, mid) && mid.tick_relation(1, b1);
    lemma_tick_keeps_memory(mid, 1, b1);
}

/// A word written to RAM reads back, though M-cycles pass between.
pub proof fn lemma_word_read_after_write(b0: Bus, address: u16, word: u16, b1: Bus, read: u16, b2: Bus)
    requires
        b0.sized(),
        is_ram_address(address),
        is_ram_address(next_address(address)),
        b0.write_word_cycles(address, word, b1),
        b1.read_word_cycles(address, read, b2),
    ensures
        read == word,
{
    let mid = choose|mid: Bus| #[trigger] b0.write_cycle(address, (word % 256) as u8, mid)
        && mid.write_cycle(next_address(address), (word / 256) as u8, b1);
    let m2 = choose|m2: Bus| #[trigger] b1.read_cycle(address, (read % 256) as u8, m2)
        && m2.read_cycle(next_address(address), (read / 256) as u8, b2);
    lemma_read_after_write(b0, address, (word % 256) as u8, mid);
    lemma_write_keeps_sizes(b0, address, (word % 256) as u8, mid);
    lemma_write_keeps_other_cells(mid, next_address(address), (word / 256) as u8, b1, address);
    lemma_read_after_write(mid, next_address(address), (word / 256) as u8, b1);
    lemma_tick_keeps_memory(b1, 1, m2);
}

/// A write to RAM keeps the memories' sizes.
pub proof fn lemma_write_keeps_sizes(b0: Bus, address: u16, value: u8, b1: Bus)
    requires
        b0.sized(),
        is_ram_address(address),
        b0.write_cycle(address, value, b1),
    ensures
        b1.sized(),
{
    let mid = choose|mid: Bus| #[trigger] b0.write_relation(address, value, mid) && mid.tick_relation(1, b1);
    lemma_tick_keeps_memory(mid, 1, b1);
}

} // verus!
