//! Audio: the registers of the Game Boy sound hardware.

use vstd::prelude::*;

use crate::bytes::{bit, with_bit, ByteExt};
use crate::memory::Addressable;

verus! {

/// The sweep register data for a channel.
#[derive(Debug, Default, Clone, Copy, PartialEq, Eq, Structural)]
pub struct Sweep {
    /// The sweep time.
    pub time: u8,
    /// Whether the sweep increases (if false) or decreases (if true) the frequency.
    pub decrease: bool,
    /// The sweep shift number.
    pub shift: u8,
}

impl Sweep {
    /// The sweep register as read: bits 6-4 the time, bit 3 the direction, bits 2-0 the shift.
    pub open spec fn spec_read(self) -> u8 {
        with_bit(((self.time << 4u8) | self.shift) as u8, 3, self.decrease)
    }

    /// Gets the result of reading the sweep register for the current sweep state.
    pub fn read(&self) -> (r: u8)
        ensures
            r == self.spec_read(),
    {
        let mut byte = (self.time << 4u8) | self.shift;
        byte.set_bit(3, self.decrease);
        byte
    }

    /// Modifies the sweep state according to the written byte.
    pub fn write(&mut self, byte: u8)
        ensures
            *final(self) == (Sweep { shift: byte & 0x7, decrease: bit(byte, 3), time: (byte >> 4u8) & 0x7 }),
    {
        self.shift = byte & 0x7;
        self.decrease = byte.has_bit_set(3);
        self.time = (byte >> 4u8) & 0x7;
    }
}

/// The sound length/wave pattern duty for a channel.
#[derive(Debug, Default, Clone, Copy, PartialEq, Eq, Structural)]
pub struct Wave {
    /// Wave pattern duty (0-3).
    pub pattern: u8,
    /// Sound length (0-63).
    pub length: u8,
}

impl Wave {
    /// The wave register as read: the duty in bits 7-6; the length is write-only and reads as 1s.
    pub open spec fn spec_read(self) -> u8 {
        ((self.pattern << 6u8) | 0x3F) as u8
    }

    /// Gets the result of reading the wave register for the current register state.
    pub fn read(&self) -> (r: u8)
        ensures
            r == self.spec_read(),
    {
        (self.pattern << 6u8) | 0x3F
    }

    /// Modifies the wave state according to the written byte.
    pub fn write(&mut self, byte: u8)
        ensures
            *final(self) == (Wave { length: byte & 0x3F, pattern: byte >> 6u8 }),
    {
        self.length = byte & 0x3F;
        self.pattern = byte >> 6u8;
    }
}

/// The volume envelope for a channel.
#[derive(Debug, Default, Clone, Copy, PartialEq, Eq, Structural)]
pub struct Envelope {
    /// The initial volume of the envelope (0-15).
    pub initial_vol: u8,
    /// The direction of the envelope: `true` means increase, `false` means decrease.
    pub direction_increase: bool,
    /// Number of envelope sweep (0-7).
    pub number: u8,
}

impl Envelope {
    /// The envelope register as read: bits 7-4 the volume, bit 3 the direction, bits 2-0 the
    /// sweep number.
    pub open spec fn spec_read(self) -> u8 {
        (with_bit((self.initial_vol << 4u8) as u8, 3, self.direction_increase) | self.number) as u8
    }

    /// Gets the result of reading the envelope register for the current register state.
    pub fn read(&self) -> (r: u8)
        ensures
            r == self.spec_read(),
    {
        let mut byte = self.initial_vol << 4u8;
        byte.set_bit(3, self.direction_increase);
        byte | self.number
    }

    /// Modifies the envelope state according to the written byte.
    pub fn write(&mut self, byte: u8)
        ensures
            *final(self) == (Envelope {
                initial_vol: byte >> 4u8,
                direction_increase: bit(byte, 3),
                number: byte & 0x7,
            }),
    {
        self.initial_vol = byte >> 4u8;
        self.direction_increase = byte.has_bit_set(3);
        self.number = byte & 0x7;
    }
}

/// The frequency data for a channel.
#[derive(Debug, Default, Clone, Copy, PartialEq, Eq, Structural)]
pub struct Frequency {
    /// Initial (`true` = restart sound) (write only).
    pub initial: bool,
    /// Counter/consecutive selection (`true` = stop output when the length expires).
    pub counter: bool,
    /// The 11-bit frequency (write only).
    pub frequency: u16,
}

impl Frequency {
    /// Modifies the lower 8 bits of the frequency according to the written byte.
    pub fn write_lo(&mut self, byte: u8)
        ensures
            *final(self) == (Frequency { frequency: ((old(self).frequency & 0xFF00) | byte as u16) as u16, ..*old(self) }),
    {
        self.frequency = (self.frequency & 0xFF00) | (byte as u16);
    }

    /// The high frequency register as read: only bit 6, the counter selection, is readable.
    pub open spec fn spec_read_hi(self) -> u8 {
        with_bit(0xFF, 6, self.counter)
    }

    /// Gets the result of reading the high bits of the frequency data.
    pub fn read_hi(&self) -> (r: u8)
        ensures
            r == self.spec_read_hi(),
    {
        let mut byte: u8 = 0xFF;
        byte.set_bit(6, self.counter);
        byte
    }

    /// Modifies the high bits of the frequency data according to the written byte.
    pub fn write_hi(&mut self, byte: u8)
        ensures
            *final(self) == (Frequency {
                initial: bit(byte, 7),
                counter: bit(byte, 6),
                frequency: ((((byte & 0x7) as u16) << 8u16) | (old(self).frequency & 0xFF)) as u16,
            }),
    {
        self.initial = byte.has_bit_set(7);
        self.counter = byte.has_bit_set(6);
        self.frequency = (((byte & 0x7) as u16) << 8u16) | (self.frequency & 0xFF);
    }
}

/// The sound length for channel 3.
#[derive(Debug, Default, Clone, Copy, PartialEq, Eq, Structural)]
pub struct BigLength {
    /// Sound length (0-255).
    pub length: u8,
}

impl BigLength {
    /// Gets the result of reading the length register.
    pub fn read(&self) -> (r: u8)
        ensures
            r == self.length,
    {
        self.length
    }

    /// Modifies the length according to the written byte.
    pub fn write(&mut self, byte: u8)
        ensures
            final(self).length == byte,
    {
        self.length = byte;
    }
}

/// The output level of channel 3.
#[derive(Debug, Default, Clone, Copy, PartialEq, Eq, Structural)]
pub struct OutputLevel {
    /// The output level (0-3).
    pub output_level: u8,
}

impl OutputLevel {
    /// Gets the result of reading the output level register.
    pub fn read(&self) -> (r: u8)
        ensures
            r == self.output_level,
    {
        self.output_level
    }

    /// Modifies the output level according to the written byte: bits 6-5.
    pub fn write(&mut self, byte: u8)
        ensures
            final(self).output_level == (byte >> 5u8) & 0x3,
    {
        self.output_level = (byte >> 5u8) & 0x3;
    }
}

/// The sound length for channel 4.
#[derive(Debug, Default, Clone, Copy, PartialEq, Eq, Structural)]
pub struct Length {
    /// Sound length (0-63).
    pub length: u8,
}

impl Length {
    /// Gets the result of reading the length register.
    pub fn read(&self) -> (r: u8)
        ensures
            r == self.length,
    {
        self.length
    }

    /// Modifies the length according to the written byte: bits 5-0.
    pub fn write(&mut self, byte: u8)
        ensures
            final(self).length == byte & 0x3F,
    {
        self.length = byte & 0x3F;
    }
}

/// The polynomial counter for channel 4.
#[derive(Debug, Default, Clone, Copy, PartialEq, Eq, Structural)]
pub struct PolynomialCounter {
    /// The shift clock frequency.
    pub shift_clock_frequency: u8,
    /// Counter step/width (false = 15 bits, true = 7 bits).
    pub counter_step: bool,
    /// Dividing ratio of frequencies.
    pub divide_ratio: u8,
}

impl PolynomialCounter {
    /// The register as read: bits 7-4 the shift clock frequency, bit 3 the step, bits 2-0 the
    /// ratio.
    pub open spec fn spec_read(self) -> u8 {
        with_bit(((self.shift_clock_frequency << 4u8) | self.divide_ratio) as u8, 3, self.counter_step)
    }

    /// Gets the result of reading the polynomial counter register.
    pub fn read(&self) -> (r: u8)
        ensures
            r == self.spec_read(),
    {
        let mut byte = (self.shift_clock_frequency << 4u8) | self.divide_ratio;
        byte.set_bit(3, self.counter_step);
        byte
    }

    /// Modifies the polynomial counter according to the written byte.
    pub fn write(&mut self, byte: u8)
        ensures
            *final(self) == (PolynomialCounter {
                shift_clock_frequency: byte >> 4u8,
                counter_step: bit(byte, 3),
                divide_ratio: byte & 0x7,
            }),
    {
        self.shift_clock_frequency = byte >> 4u8;
        self.counter_step = byte.has_bit_set(3);
        self.divide_ratio = byte & 0x7;
    }
}

/// The counter/consecutive selection and initial flag of channel 4.
#[derive(Debug, Default, Clone, Copy, PartialEq, Eq, Structural)]
pub struct InitialCounterConsecutive {
    /// Initial flag (true = restart sound); write only.
    pub initial: bool,
    /// Counter/consecutive selection (true = stop output when the length expires).
    pub counter: bool,
}

impl InitialCounterConsecutive {
    /// The register as read: only bit 6, the counter selection.
    pub open spec fn spec_read(self) -> u8 {
        with_bit(0, 6, self.counter)
    }

    /// Gets the result of reading the register.
    pub fn read(&self) -> (r: u8)
        ensures
            r == self.spec_read(),
    {
        let mut byte: u8 = 0;
        byte.set_bit(6, self.counter);
        byte
    }

    /// Modifies the state according to the written byte: bit 7 the initial flag, bit 6 the
    /// counter selection.
    pub fn write(&mut self, byte: u8)
        ensures
            *final(self) == (InitialCounterConsecutive { initial: bit(byte, 7), counter: bit(byte, 6) }),
    {
        self.initial = byte.has_bit_set(7);
        self.counter = byte.has_bit_set(6);
    }
}

/// A square-wave sound channel (channels 1 and 2).
#[derive(Debug, Default, Clone, Copy, PartialEq, Eq, Structural)]
pub struct Sound {
    /// Whether or not the sound is enabled.
    pub is_on: bool,
    /// Whether to output this sound to the SO1 terminal.
    pub so1_enabled: bool,
    /// Whether to output this sound to the SO2 terminal.
    pub so2_enabled: bool,
    /// The sweep register data.
    pub sweep: Sweep,
    /// The sound length/wave pattern data.
    pub wave: Wave,
    /// The volume envelope data.
    pub envelope: Envelope,
    /// The frequency data.
    pub frequency: Frequency,
}

/// Sound channel 3.
#[derive(Debug, Default, Clone, Copy)]
pub struct Sound3 {
    /// Whether or not the sound is enabled.
    pub is_on: bool,
    /// Whether to output this sound to the SO1 terminal.
    pub so1_enabled: bool,
    /// Whether to output this sound to the SO2 terminal.
    pub so2_enabled: bool,
    /// The volume level of this sound.
    pub output_level: OutputLevel,
    /// The sound length.
    pub length: BigLength,
    /// The frequency data.
    pub frequency: Frequency,
    /// The wave pattern memory: 32 4-bit samples.
    pub wave_pattern: [u8; 16],
}

/// Sound channel 4.
#[derive(Debug, Default, Clone, Copy, PartialEq, Eq, Structural)]
pub struct Sound4 {
    /// Whether or not the sound is enabled.
    pub is_on: bool,
    /// Whether to output this sound to the SO1 terminal.
    pub so1_enabled: bool,
    /// Whether to output this sound to the SO2 terminal.
    pub so2_enabled: bool,
    /// The sound length.
    pub length: Length,
    /// The volume envelope data.
    pub envelope: Envelope,
    /// The polynomial counter.
    pub polynomial_counter: PolynomialCounter,
    /// The initial flag and counter/consecutive selection.
    pub initial_counter_consecutive: InitialCounterConsecutive,
}

/// The controller for the four sound channels output by the Game Boy.
#[derive(Debug, Default, Clone, Copy)]
pub struct SoundController {
    /// Sound 1: rectangle waveform with sweep and envelope functions.
    pub sound_1: Sound,
    /// Sound 2: rectangle waveform with envelope function.
    pub sound_2: Sound,
    /// Sound 3: a waveform specified by the waveform RAM.
    pub sound_3: Sound3,
    /// Sound 4: white noise with an envelope function.
    pub sound_4: Sound4,
    /// Whether sound is enabled.
    pub sound_enabled: bool,
    /// The volume to output to the SO1 terminal.
    pub so1_vol: u8,
    /// The volume to output to the SO2 terminal.
    pub so2_vol: u8,
    /// Whether to output Vin to SO1.
    pub vin_so1: bool,
    /// Whether to output Vin to SO2.
    pub vin_so2: bool,
}

/// The addresses of the sound registers and the wave pattern memory.
pub open spec fn is_sound_address(address: u16) -> bool {
    (0xFF10 <= address <= 0xFF14) || (0xFF16 <= address <= 0xFF1E) || (0xFF20 <= address <= 0xFF26)
        || (0xFF30 <= address <= 0xFF3F)
}

/// Whether a sound register or the wave pattern memory answers an address.
pub fn is_sound_register(address: u16) -> (r: bool)
    ensures
        r == is_sound_address(address),
{
    (0xFF10 <= address && address <= 0xFF14) || (0xFF16 <= address && address <= 0xFF1E) || (0xFF20
        <= address && address <= 0xFF26) || (0xFF30 <= address && address <= 0xFF3F)
}

/// The envelope written by a byte.
pub open spec fn envelope_of(byte: u8) -> Envelope {
    Envelope { initial_vol: byte >> 4u8, direction_increase: bit(byte, 3), number: byte & 0x7 }
}

/// The frequency after a write to its low register.
pub open spec fn frequency_lo(f: Frequency, byte: u8) -> Frequency {
    Frequency { frequency: ((f.frequency & 0xFF00) | byte as u16) as u16, ..f }
}

/// The frequency after a write to its high register.
pub open spec fn frequency_hi(f: Frequency, byte: u8) -> Frequency {
    Frequency {
        initial: bit(byte, 7),
        counter: bit(byte, 6),
        frequency: ((((byte & 0x7) as u16) << 8u16) | (f.frequency & 0xFF)) as u16,
    }
}

/// A square-wave channel after a write to its register `offset` (0 sweep, 1 wave, 2 envelope,
/// 3 frequency low, 4 frequency high).
pub open spec fn square_written(s: Sound, offset: int, byte: u8) -> Sound {
    if offset == 0 {
        Sound { sweep: Sweep { shift: byte & 0x7, decrease: bit(byte, 3), time: (byte >> 4u8) & 0x7 }, ..s }
    } else if offset == 1 {
        Sound { wave: Wave { length: byte & 0x3F, pattern: byte >> 6u8 }, ..s }
    } else if offset == 2 {
        Sound { envelope: envelope_of(byte), ..s }
    } else if offset == 3 {
        Sound { frequency: frequency_lo(s.frequency, byte), ..s }
    } else {
        Sound { frequency: frequency_hi(s.frequency, byte), ..s }
    }
}

fn write_square(s: &mut Sound, offset: u16, byte: u8)
    requires
        offset <= 4,
    ensures
        *final(s) == square_written(*old(s), offset as int, byte),
{
    match offset {
        0 => s.sweep.write(byte),
        1 => s.wave.write(byte),
        2 => s.envelope.write(byte),
        3 => s.frequency.write_lo(byte),
        _ => s.frequency.write_hi(byte),
    }
}

/// Channel 3 after a write to its register `offset` (0 on/off, 1 length, 2 output level,
/// 3 frequency low, 4 frequency high).
pub open spec fn wave_channel_written(s: Sound3, offset: int, byte: u8) -> Sound3 {
    if offset == 0 {
        Sound3 { is_on: bit(byte, 7), ..s }
    } else if offset == 1 {
        Sound3 { length: BigLength { length: byte }, ..s }
    } else if offset == 2 {
        Sound3 { output_level: OutputLevel { output_level: (byte >> 5u8) & 0x3 }, ..s }
    } else if offset == 3 {
        Sound3 { frequency: frequency_lo(s.frequency, byte), ..s }
    } else {
        Sound3 { frequency: frequency_hi(s.frequency, byte), ..s }
    }
}

fn write_wave_channel(s: &mut Sound3, offset: u16, byte: u8)
    requires
        offset <= 4,
    ensures
        *final(s) == wave_channel_written(*old(s), offset as int, byte),
{
    match offset {
        0 => s.is_on = byte.has_bit_set(7),
        1 => s.length.write(byte),
        2 => s.output_level.write(byte),
        3 => s.frequency.write_lo(byte),
        _ => s.frequency.write_hi(byte),
    }
}

/// Channel 4 after a write to its register `offset` (0 length, 1 envelope, 2 polynomial counter,
/// 3 initial/consecutive).
pub open spec fn noise_written(s: Sound4, offset: int, byte: u8) -> Sound4 {
    if offset == 0 {
        Sound4 { length: Length { length: byte & 0x3F }, ..s }
    } else if offset == 1 {
        Sound4 { envelope: envelope_of(byte), ..s }
    } else if offset == 2 {
        Sound4 {
            polynomial_counter: PolynomialCounter {
                shift_clock_frequency: byte >> 4u8,
                counter_step: bit(byte, 3),
                divide_ratio: byte & 0x7,
            },
            ..s
        }
    } else {
        Sound4 {
            initial_counter_consecutive: InitialCounterConsecutive { initial: bit(byte, 7), counter: bit(byte, 6) },
            ..s
        }
    }
}

fn write_noise(s: &mut Sound4, offset: u16, byte: u8)
    requires
        offset <= 3,
    ensures
        *final(s) == noise_written(*old(s), offset as int, byte),
{
    match offset {
        0 => s.length.write(byte),
        1 => s.envelope.write(byte),
        2 => s.polynomial_counter.write(byte),
        _ => s.initial_counter_consecutive.write(byte),
    }
}

fn sound_default() -> (r: Sound)
    ensures
        r == sound_zero(),
{
    Sound {
        is_on: false,
        so1_enabled: false,
        so2_enabled: false,
        sweep: Sweep { time: 0, decrease: false, shift: 0 },
        wave: Wave { pattern: 0, length: 0 },
        envelope: Envelope { initial_vol: 0, direction_increase: false, number: 0 },
        frequency: Frequency { initial: false, counter: false, frequency: 0 },
    }
}

/// A square-wave channel in its initial state.
pub open spec fn sound_zero() -> Sound {
    Sound {
        is_on: false,
        so1_enabled: false,
        so2_enabled: false,
        sweep: Sweep { time: 0, decrease: false, shift: 0 },
        wave: Wave { pattern: 0, length: 0 },
        envelope: Envelope { initial_vol: 0, direction_increase: false, number: 0 },
        frequency: Frequency { initial: false, counter: false, frequency: 0 },
    }
}

impl SoundController {
    /// The power-on state: sound disabled, every channel off and every register zero, the wave
    /// pattern memory included.
    pub open spec fn is_initial(self) -> bool {
        &&& !self.sound_enabled
        &&& self.sound_1 == sound_zero()
        &&& self.sound_2 == sound_zero()
        &&& !self.sound_3.is_on
        &&& !self.sound_3.so1_enabled
        &&& !self.sound_3.so2_enabled
        &&& self.sound_3.output_level == (OutputLevel { output_level: 0 })
        &&& self.sound_3.length == (BigLength { length: 0 })
        &&& self.sound_3.frequency == (Frequency { initial: false, counter: false, frequency: 0 })
        &&& forall|i: int| 0 <= i < 16 ==> self.sound_3.wave_pattern@[i] == 0
        &&& self.sound_4 == (Sound4 {
            is_on: false,
            so1_enabled: false,
            so2_enabled: false,
            length: Length { length: 0 },
            envelope: Envelope { initial_vol: 0, direction_increase: false, number: 0 },
            polynomial_counter: PolynomialCounter { shift_clock_frequency: 0, counter_step: false, divide_ratio: 0 },
            initial_counter_consecutive: InitialCounterConsecutive { initial: false, counter: false },
        })
        &&& self.so1_vol == 0
        &&& self.so2_vol == 0
        &&& !self.vin_so1
        &&& !self.vin_so2
    }

    /// A sound controller with sound disabled and every register zero.
    pub fn new() -> (r: SoundController)
        ensures
            r.is_initial(),
    {
        SoundController {
            sound_1: sound_default(),
            sound_2: sound_default(),
            sound_3: Sound3 {
                is_on: false,
                so1_enabled: false,
                so2_enabled: false,
                output_level: OutputLevel { output_level: 0 },
                length: BigLength { length: 0 },
                frequency: Frequency { initial: false, counter: false, frequency: 0 },
                wave_pattern: [0; 16],
            },
            sound_4: Sound4 {
                is_on: false,
                so1_enabled: false,
                so2_enabled: false,
                length: Length { length: 0 },
                envelope: Envelope { initial_vol: 0, direction_increase: false, number: 0 },
                polynomial_counter: PolynomialCounter {
                    shift_clock_frequency: 0,
                    counter_step: false,
                    divide_ratio: 0,
                },
                initial_counter_consecutive: InitialCounterConsecutive {
                    initial: false,
                    counter: false,
                },
            },
            sound_enabled: false,
            so1_vol: 0,
            so2_vol: 0,
            vin_so1: false,
            vin_so2: false,
        }
    }

    /// `NR50`: bit 7 Vin to SO2, bits 6-4 the SO2 volume, bit 3 Vin to SO1, bits 2-0 the SO1
    /// volume.
    pub open spec fn spec_nr50(self) -> u8 {
        with_bit(with_bit(((self.so2_vol << 4u8) | self.so1_vol) as u8, 3, self.vin_so1), 7, self.vin_so2)
    }

    /// `NR51`: which channel is output to which terminal.
    pub open spec fn spec_nr51(self) -> u8 {
        crate::bytes::byte_of_bits(
            self.sound_1.so1_enabled,
            self.sound_2.so1_enabled,
            self.sound_3.so1_enabled,
            self.sound_4.so1_enabled,
            self.sound_1.so2_enabled,
            self.sound_2.so2_enabled,
            self.sound_3.so2_enabled,
            self.sound_4.so2_enabled,
        )
    }

    /// `NR52`: bit 7 sound on, bits 3-0 the channel on flags.
    pub open spec fn spec_nr52(self) -> u8 {
        crate::bytes::byte_of_bits(
            self.sound_1.is_on,
            self.sound_2.is_on,
            self.sound_3.is_on,
            self.sound_4.is_on,
            false,
            false,
            false,
            self.sound_enabled,
        )
    }

    /// The value read at a sound address. While sound is disabled every register but `NR52`
    /// reads as `0xFF`; write-only registers read as `0xFF`.
    pub open spec fn spec_read_byte(self, address: u16) -> u8 {
        if !self.sound_enabled && address != 0xFF26 {
            0xFF
        } else if address == 0xFF10 {
            self.sound_1.sweep.spec_read()
        } else if address == 0xFF11 {
            self.sound_1.wave.spec_read()
        } else if address == 0xFF12 {
            self.sound_1.envelope.spec_read()
        } else if address == 0xFF14 {
            self.sound_1.frequency.spec_read_hi()
        } else if address == 0xFF16 {
            self.sound_2.wave.spec_read()
        } else if address == 0xFF17 {
            self.sound_2.envelope.spec_read()
        } else if address == 0xFF19 {
            self.sound_2.frequency.spec_read_hi()
        } else if address == 0xFF1A {
            if self.sound_3.is_on { 1 } else { 0 }
        } else if address == 0xFF1B {
            self.sound_3.length.length
        } else if address == 0xFF1C {
            self.sound_3.output_level.output_level
        } else if address == 0xFF1E {
            self.sound_3.frequency.spec_read_hi()
        } else if address == 0xFF20 {
            self.sound_4.length.length
        } else if address == 0xFF21 {
            self.sound_4.envelope.spec_read()
        } else if address == 0xFF22 {
            self.sound_4.polynomial_counter.spec_read()
        } else if address == 0xFF23 {
            self.sound_4.initial_counter_consecutive.spec_read()
        } else if address == 0xFF24 {
            self.spec_nr50()
        } else if address == 0xFF25 {
            self.spec_nr51()
        } else if address == 0xFF26 {
            self.spec_nr52()
        } else if 0xFF30 <= address <= 0xFF3F {
            self.sound_3.wave_pattern@[address - 0xFF30]
        } else {
            0xFF
        }
    }


    /// The controller after a write to `NR51`.
    pub open spec fn nr51_written(self, byte: u8) -> SoundController {
        SoundController {
            sound_1: Sound { so1_enabled: bit(byte, 0), so2_enabled: bit(byte, 4), ..self.sound_1 },
            sound_2: Sound { so1_enabled: bit(byte, 1), so2_enabled: bit(byte, 5), ..self.sound_2 },
            sound_3: Sound3 { so1_enabled: bit(byte, 2), so2_enabled: bit(byte, 6), ..self.sound_3 },
            sound_4: Sound4 { so1_enabled: bit(byte, 3), so2_enabled: bit(byte, 7), ..self.sound_4 },
            ..self
        }
    }

    fn write_nr51(&mut self, byte: u8)
        ensures
            *final(self) == old(self).nr51_written(byte),
    {
        let b0 = byte.has_bit_set(0);
        let b1 = byte.has_bit_set(1);
        let b2 = byte.has_bit_set(2);
        let b3 = byte.has_bit_set(3);
        let b4 = byte.has_bit_set(4);
        let b5 = byte.has_bit_set(5);
        let b6 = byte.has_bit_set(6);
        let b7 = byte.has_bit_set(7);
        self.sound_1 = Sound { so1_enabled: b0, so2_enabled: b4, ..self.sound_1 };
        self.sound_2 = Sound { so1_enabled: b1, so2_enabled: b5, ..self.sound_2 };
        self.sound_3 = Sound3 { so1_enabled: b2, so2_enabled: b6, ..self.sound_3 };
        self.sound_4 = Sound4 { so1_enabled: b3, so2_enabled: b7, ..self.sound_4 };
    }

    /// What a write to a sound address does: `after` is the controller after writing `byte` at
    /// `address`. Only `NR52` can be written while the sound is off.
    pub open spec fn write_relation(self, address: u16, byte: u8, after: SoundController) -> bool {
        &&& !self.sound_enabled && address != 0xFF26 ==> after == self
        &&& self.sound_enabled && 0xFF10 <= address <= 0xFF14 ==> after == (SoundController {
            sound_1: square_written(self.sound_1, address - 0xFF10, byte),
            ..self
        })
        &&& self.sound_enabled && 0xFF16 <= address <= 0xFF19 ==> after == (SoundController {
            sound_2: square_written(self.sound_2, address - 0xFF15, byte),
            ..self
        })
        &&& self.sound_enabled && 0xFF1A <= address <= 0xFF1E ==> after == (SoundController {
            sound_3: wave_channel_written(self.sound_3, address - 0xFF1A, byte),
            ..self
        })
        &&& self.sound_enabled && 0xFF20 <= address <= 0xFF23 ==> after == (SoundController {
            sound_4: noise_written(self.sound_4, address - 0xFF20, byte),
            ..self
        })
        &&& self.sound_enabled && address == 0xFF24 ==> after == (SoundController {
            so1_vol: byte & 0x7,
            vin_so1: bit(byte, 3),
            so2_vol: (byte >> 4u8) & 0x7,
            vin_so2: bit(byte, 7),
            ..self
        })
        &&& self.sound_enabled && address == 0xFF25 ==> after == self.nr51_written(byte)
        &&& address == 0xFF26 ==> after == (SoundController { sound_enabled: bit(byte, 7), ..self })
        &&& self.sound_enabled && 0xFF30 <= address <= 0xFF3F ==> {
            &&& after.sound_3.wave_pattern@ == self.sound_3.wave_pattern@.update(address - 0xFF30, byte)
            &&& after == (SoundController {
                    sound_3: Sound3 { wave_pattern: after.sound_3.wave_pattern, ..self.sound_3 },
                    ..self
                })
        }
    }

}


impl Addressable for SoundController {
    /// Outside the sound registers, only a controller with the sound off answers.
    open spec fn can_read(&self, address: u16) -> bool {
        !self.sound_enabled || is_sound_address(address)
    }

    open spec fn byte_at(&self, address: u16) -> u8 {
        self.spec_read_byte(address)
    }

    open spec fn can_write(&self, address: u16, byte: u8) -> bool {
        !self.sound_enabled || is_sound_address(address)
    }

    open spec fn wrote(&self, address: u16, byte: u8, after: Self) -> bool {
        self.write_relation(address, byte, after)
    }

    /// Reads a byte of audio memory. Unreadable memory reads as 1s.
    fn read_byte(&self, address: u16) -> (r: u8) {
        if !self.sound_enabled && address != 0xFF26 {
            return 0xFF;
        }
        match address {
            0xFF10 => self.sound_1.sweep.read(),
            0xFF11 => self.sound_1.wave.read(),
            0xFF12 => self.sound_1.envelope.read(),
            0xFF13 => 0xFF,
            0xFF14 => self.sound_1.frequency.read_hi(),
            0xFF16 => self.sound_2.wave.read(),
            0xFF17 => self.sound_2.envelope.read(),
            0xFF18 => 0xFF,
            0xFF19 => self.sound_2.frequency.read_hi(),
            0xFF1A => if self.sound_3.is_on { 1 } else { 0 },
            0xFF1B => self.sound_3.length.read(),
            0xFF1C => self.sound_3.output_level.read(),
            0xFF1D => 0xFF,
            0xFF1E => self.sound_3.frequency.read_hi(),
            0xFF20 => self.sound_4.length.read(),
            0xFF21 => self.sound_4.envelope.read(),
            0xFF22 => self.sound_4.polynomial_counter.read(),
            0xFF23 => self.sound_4.initial_counter_consecutive.read(),
            0xFF24 => {
                let mut byte: u8 = (self.so2_vol << 4u8) | self.so1_vol;
                byte.set_bit(3, self.vin_so1);
                byte.set_bit(7, self.vin_so2);
                byte
            },
            0xFF25 => crate::bytes::pack_bits(
                self.sound_1.so1_enabled,
                self.sound_2.so1_enabled,
                self.sound_3.so1_enabled,
                self.sound_4.so1_enabled,
                self.sound_1.so2_enabled,
                self.sound_2.so2_enabled,
                self.sound_3.so2_enabled,
                self.sound_4.so2_enabled,
            ),
            0xFF26 => crate::bytes::pack_bits(
                self.sound_1.is_on,
                self.sound_2.is_on,
                self.sound_3.is_on,
                self.sound_4.is_on,
                false,
                false,
                false,
                self.sound_enabled,
            ),
            _ => {
                let index = (address - 0xFF30) as usize;
                self.sound_3.wave_pattern[index]
            },
        }
    }

    /// Writes a byte of audio memory.
    fn write_byte(&mut self, address: u16, byte: u8) {
        if !self.sound_enabled && address != 0xFF26 {
            return;
        }
        match address {
            0xFF10..=0xFF14 => write_square(&mut self.sound_1, address - 0xFF10, byte),
            0xFF16..=0xFF19 => write_square(&mut self.sound_2, address - 0xFF15, byte),
            0xFF1A..=0xFF1E => write_wave_channel(&mut self.sound_3, address - 0xFF1A, byte),
            0xFF20..=0xFF23 => write_noise(&mut self.sound_4, address - 0xFF20, byte),
            0xFF24 => {
                self.so1_vol = byte & 0x7;
                self.vin_so1 = byte.has_bit_set(3);
                self.so2_vol = (byte >> 4u8) & 0x7;
                self.vin_so2 = byte.has_bit_set(7);
            },
            0xFF25 => self.write_nr51(byte),
            0xFF26 => {
                self.sound_enabled = byte.has_bit_set(7);
            },
            _ => {
                let index = (address - 0xFF30) as usize;
                self.sound_3.wave_pattern[index] = byte;
            },
        }
    }
}

} // verus!
