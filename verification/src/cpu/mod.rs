//! The CPU: its registers, arithmetic, timer and instruction set.

pub mod arithmetic;
pub mod clock;
pub mod execute;
pub mod instructions;
pub mod registers;
pub mod timer;

use vstd::prelude::*;

pub use self::instructions::Instruction;
pub use self::registers::{Flags, Registers};

use crate::bus::{next_address, Bus};
use crate::text::{dec_digits, push_dec};
use self::execute::{execute_effect, instruction_m_cycles, lemma_instruction_time};
use self::instructions::fetch_effect;
use self::registers::{flags_from_byte, registers_zero};

verus! {

/// CPU frequency in Hz.
pub const FREQUENCY: u32 = 4_194_304;

/// Machine cycles. All instructions take 1-6 whole M-cycles; an M-cycle is 4 T-cycles.
#[derive(Debug, Clone, Copy, PartialEq, Eq, PartialOrd, Ord, Structural)]
pub struct MCycles(pub u32);

/// Time cycles. An individual clock of the CPU.
#[derive(Debug, Clone, Copy, PartialEq, Eq, PartialOrd, Ord, Structural)]
pub struct TCycles(pub u32);

impl From<TCycles> for MCycles {
    fn from(t_cycles: TCycles) -> (r: MCycles) {
        MCycles(t_cycles.0 / 4)
    }
}

impl vstd::std_specs::convert::FromSpecImpl<TCycles> for MCycles {
    open spec fn obeys_from_spec() -> bool {
        true
    }

    open spec fn from_spec(t_cycles: TCycles) -> MCycles {
        MCycles(t_cycles.0 / 4)
    }
}

impl From<MCycles> for TCycles {
    fn from(m_cycles: MCycles) -> (r: TCycles) {
        TCycles((m_cycles.0 as u64 * 4 % 0x1_0000_0000) as u32)
    }
}

impl vstd::std_specs::convert::FromSpecImpl<MCycles> for TCycles {
    open spec fn obeys_from_spec() -> bool {
        true
    }

    open spec fn from_spec(m_cycles: MCycles) -> TCycles {
        TCycles((m_cycles.0 * 4 % 0x1_0000_0000) as u32)
    }
}

impl MCycles {
    /// The sum of two durations.
    pub fn plus(self, other: MCycles) -> (r: MCycles)
        requires
            self.0 + other.0 <= u32::MAX,
        ensures
            r.0 == self.0 + other.0,
    {
        MCycles(self.0 + other.0)
    }

    /// The duration in words: the number of M-cycles in decimal.
    pub fn to_string(&self) -> (r: String)
        ensures
            r@ == dec_digits(self.0 as nat) + " M-cycles"@,
    {
        let mut s = String::new();
        push_dec(&mut s, self.0);
        s.append(" M-cycles");
        s
    }
}

impl TCycles {
    /// The sum of two durations.
    pub fn plus(self, other: TCycles) -> (r: TCycles)
        requires
            self.0 + other.0 <= u32::MAX,
        ensures
            r.0 == self.0 + other.0,
    {
        TCycles(self.0 + other.0)
    }

    /// The duration in words: the number of T-cycles in decimal.
    pub fn to_string(&self) -> (r: String)
        ensures
            r@ == dec_digits(self.0 as nat) + " T-cycles"@,
    {
        let mut s = String::new();
        push_dec(&mut s, self.0);
        s.append(" T-cycles");
        s
    }
}

impl Default for MCycles {
    fn default() -> (r: MCycles)
        ensures
            r.0 == 0,
    {
        MCycles(0)
    }
}

impl Default for TCycles {
    fn default() -> (r: TCycles)
        ensures
            r.0 == 0,
    {
        TCycles(0)
    }
}

/// Current state of the CPU.
#[derive(Debug, Clone, Copy, PartialEq, Eq, Structural)]
pub enum State {
    /// The CPU is executing code.
    Running,
    /// The CPU is paused while waiting for an interrupt or reset.
    Halted,
    /// The CPU is paused while waiting for a button press or reset.
    Stopped,
    /// The CPU executed an illegal instruction and requires a reset.
    Locked,
}

impl Default for State {
    fn default() -> (r: State)
        ensures
            r == State::Running,
    {
        State::Running
    }
}

/// Whether an interrupt is enabled and whether it is requested.
#[derive(Debug, Clone, Copy, PartialEq, Eq, Structural)]
pub struct InterruptState {
    /// Whether the interrupt has been enabled via the Interrupt Enable register (`0xFFFF`).
    pub enabled: bool,
    /// Whether the interrupt has been requested, through the Interrupt Flag register (`0xFF0F`)
    /// or by a condition.
    pub requested: bool,
}

/// CPU interrupt state.
#[derive(Debug, Clone, Copy, PartialEq, Eq, Structural)]
pub struct Interrupts {
    /// Interrupt Master Enable (IME).
    pub enabled: bool,
    /// The V-blank interrupt.
    pub vblank: InterruptState,
    /// The LCD status interrupt.
    pub lcd_status: InterruptState,
    /// The timer interrupt.
    pub timer: InterruptState,
    /// The serial interrupt.
    pub serial: InterruptState,
    /// The joypad interrupt.
    pub joypad: InterruptState,
}

/// An interrupt that is both requested and enabled.
pub open spec fn is_pending(i: InterruptState) -> bool {
    i.requested && i.enabled
}

impl Interrupts {
    /// Whether any interrupt is requested and enabled.
    pub open spec fn spec_pending(self) -> bool {
        is_pending(self.vblank) || is_pending(self.lcd_status) || is_pending(self.timer) || is_pending(
            self.serial,
        ) || is_pending(self.joypad)
    }

    /// Master enable off, every interrupt disabled and not requested.
    pub fn new() -> (r: Interrupts)
        ensures
            r == interrupts_none(),
    {
        let none = InterruptState { enabled: false, requested: false };
        Interrupts { enabled: false, vblank: none, lcd_status: none, timer: none, serial: none, joypad: none }
    }

    /// Returns true if there is a requested and enabled interrupt.
    pub fn pending(&self) -> (r: bool)
        ensures
            r == self.spec_pending(),
    {
        (self.vblank.requested && self.vblank.enabled) || (self.lcd_status.requested
            && self.lcd_status.enabled) || (self.timer.requested && self.timer.enabled) || (
        self.serial.requested && self.serial.enabled) || (self.joypad.requested && self.joypad.enabled)
    }
}

/// Master enable off, every interrupt disabled and not requested.
pub open spec fn interrupts_none() -> Interrupts {
    let none = InterruptState { enabled: false, requested: false };
    Interrupts { enabled: false, vblank: none, lcd_status: none, timer: none, serial: none, joypad: none }
}

impl Default for Interrupts {
    fn default() -> (r: Interrupts)
        ensures
            r == interrupts_none(),
    {
        Interrupts::new()
    }
}

/// The CPU.
#[derive(Debug, Clone, Copy, PartialEq, Eq, Structural)]
pub struct Cpu {
    /// Registers.
    pub reg: Registers,
    /// The state of execution.
    pub state: State,
    /// Whether the next instruction runs without the program counter advancing past it (the
    /// `HALT` bug).
    pub halt_bug: bool,
}

/// The stack pointer two bytes lower, wrapping.
pub open spec fn sp_down(sp: u16) -> u16 {
    ((sp + 0x10000 - 2) % 0x10000) as u16
}

/// The stack pointer two bytes higher, wrapping.
pub open spec fn sp_up(sp: u16) -> u16 {
    ((sp + 2) % 0x10000) as u16
}

/// The registers after a reset that skips the BIOS: the values the BIOS leaves behind.
pub open spec fn registers_after_bios() -> Registers {
    Registers {
        a: 0x01,
        f: flags_from_byte(0x90),
        b: 0x00,
        c: 0x13,
        d: 0x00,
        e: 0xd8,
        h: 0x01,
        l: 0x4d,
        sp: 0xfffe,
        pc: 0x100,
    }
}

impl Cpu {
    /// The CPU as the debugger shows it: its registers.
    pub fn to_string(&self) -> (r: String)
        ensures
            r@ == self::registers::registers_text(self.reg),
    {
        self.reg.to_string()
    }
}

impl Cpu {
    /// A CPU with every register zero, running.
    pub open spec fn new_spec() -> Cpu {
        Cpu { reg: registers_zero(), state: State::Running, halt_bug: false }
    }

    /// A CPU with every register zero, running.
    pub fn new() -> (r: Cpu)
        ensures
            r == (Cpu { reg: registers_zero(), state: State::Running, halt_bug: false }),
    {
        Cpu { reg: Registers::new(), state: State::Running, halt_bug: false }
    }

    /// Push a value onto the stack: `SP` is decremented by two and the word written there.
    pub fn push(&mut self, value: u16, bus: &mut Bus)
        requires
            old(bus).wf(),
            old(bus).has_room(2),
        ensures
            final(bus).wf(),
            *final(self) == (Cpu { reg: Registers { sp: sp_down(old(self).reg.sp), ..old(self).reg }, ..*old(self) }),
            old(bus).write_word_cycles(sp_down(old(self).reg.sp), value, *final(bus)),
    {
        self.reg.sp = self.reg.sp.wrapping_sub(2);
        bus.write_word(self.reg.sp, value);
    }

    /// Pop a value off the stack: the word at `SP` is read and `SP` incremented by two.
    pub fn pop(&mut self, bus: &mut Bus) -> (r: u16)
        requires
            old(bus).wf(),
            old(bus).has_room(2),
        ensures
            final(bus).wf(),
            *final(self) == (Cpu { reg: Registers { sp: sp_up(old(self).reg.sp), ..old(self).reg }, ..*old(self) }),
            old(bus).read_word_cycles(old(self).reg.sp, r, *final(bus)),
    {
        let value = bus.read_word(self.reg.sp);
        self.reg.sp = self.reg.sp.wrapping_add(2);
        value
    }

    /// Reset registers to their initial values: with a BIOS, all zero, so that execution starts
    /// at address 0; without one, the values that the BIOS leaves.
    pub fn reset(&mut self, bios_loaded: bool)
        ensures
            final(self).state == State::Running,
            !final(self).halt_bug,
            bios_loaded ==> final(self).reg == registers_zero(),
            !bios_loaded ==> final(self).reg == registers_after_bios(),
    {
        self.halt_bug = false;
        if bios_loaded {
            self.reg = Registers::new();
        } else {
            self.reg.a = 0x01;
            self.reg.f = Flags::from_bits_truncate(0x90);
            self.reg.write_bc(0x0013);
            self.reg.write_de(0x00d8);
            self.reg.write_hl(0x014d);
            self.reg.sp = 0xfffe;
            self.reg.pc = 0x100;
        }
        self.state = State::Running;
    }
}

/// What a CPU step does: a halted CPU idles for the time of a `NOP`; a running one fetches
/// an instruction and executes it, taking the instruction's time in all.
#[verifier::opaque]
pub open spec fn step_effect(cpu: Cpu, bus: Bus, after: Cpu, bus_after: Bus) -> bool {
    if cpu.state == State::Halted {
        after == cpu && bus.tick_relation(1, bus_after)
    } else {
        exists|ins: Instruction, mid: Bus| {
            &&& #[trigger] fetch_effect(cpu.reg.pc, bus, ins, mid)
            &&& ins.wf()
            &&& execute_effect(cpu, ins, mid, after, bus_after)
            &&& bus_after.timer.diff == bus.timer.diff + instruction_m_cycles(ins, cpu.reg.f)
        }
    }
}

/// The interrupts by priority: V-blank, LCD status, timer, serial, joypad.
pub open spec fn interrupt_by_priority(i: Interrupts, k: int) -> InterruptState {
    if k == 0 {
        i.vblank
    } else if k == 1 {
        i.lcd_status
    } else if k == 2 {
        i.timer
    } else if k == 3 {
        i.serial
    } else {
        i.joypad
    }
}

/// The first pending interrupt by priority, 5 when none is.
pub open spec fn first_pending(i: Interrupts) -> int {
    if is_pending(i.vblank) {
        0
    } else if is_pending(i.lcd_status) {
        1
    } else if is_pending(i.timer) {
        2
    } else if is_pending(i.serial) {
        3
    } else if is_pending(i.joypad) {
        4
    } else {
        5
    }
}

/// The interrupts with the master enable off and the request of interrupt `k` (by priority)
/// cleared.
pub open spec fn interrupt_serviced(i: Interrupts, k: int) -> Interrupts {
    let none = InterruptState { requested: false, ..interrupt_by_priority(i, k) };
    if k == 0 {
        Interrupts { enabled: false, vblank: none, ..i }
    } else if k == 1 {
        Interrupts { enabled: false, lcd_status: none, ..i }
    } else if k == 2 {
        Interrupts { enabled: false, timer: none, ..i }
    } else if k == 3 {
        Interrupts { enabled: false, serial: none, ..i }
    } else {
        Interrupts { enabled: false, joypad: none, ..i }
    }
}

/// A halted CPU waking: an M-cycle passes. A running one takes no time.
pub open spec fn woke(cpu: Cpu, bus: Bus, after: Bus) -> bool {
    if cpu.state == State::Halted { bus.tick_relation(1, after) } else { after == bus }
}

/// What handling interrupts does.
///
/// With the master enable on, the first pending interrupt by priority is serviced: a halted
/// CPU wakes (one M-cycle), the master enable goes off and the request is cleared, and after
/// an internal delay of three M-cycles the program counter is pushed and execution jumps to
/// the interrupt's vector (`0x40`, `0x48`, `0x50`, `0x58`, `0x60`). With it off, a halted CPU
/// wakes on a pending interrupt, skipping a byte, in one M-cycle.
#[verifier::opaque]
pub open spec fn interrupt_effect(cpu: Cpu, bus: Bus, after: Cpu, bus_after: Bus) -> bool {
    let k = first_pending(bus.interrupts);
    if bus.interrupts.enabled && k < 5 {
        &&& exists|woken: Bus| {
            &&& #[trigger] woke(cpu, bus, woken)
            &&& exists|delayed: Bus| {
                &&& #[trigger] (Bus { interrupts: interrupt_serviced(woken.interrupts, k), ..woken }).tick_relation(3, delayed)
                &&& delayed.write_word_cycles(sp_down(cpu.reg.sp), cpu.reg.pc, bus_after)
            }
        }
        &&& after == (Cpu {
            state: if cpu.state == State::Halted { State::Running } else { cpu.state },
            reg: Registers { pc: (0x40 + 8 * k) as u16, sp: sp_down(cpu.reg.sp), ..cpu.reg },
            ..cpu
        })
    } else if !bus.interrupts.enabled && cpu.state == State::Halted && bus.interrupts.spec_pending() {
        &&& after == (Cpu { state: State::Running, reg: Registers { pc: ((cpu.reg.pc + 1) % 0x10000) as u16, ..cpu.reg }, ..cpu })
        &&& bus.tick_relation(1, bus_after)
    } else {
        after == cpu && bus_after == bus
    }
}

/// Bit `k` of `IE & IF`, the interrupt registers, is set exactly when interrupt `k` (V-blank,
/// LCD status, timer, serial, joypad) is both enabled and requested.
proof fn lemma_pending_bits(i: Interrupts)
    ensures
        ({
            let p = crate::bus::interrupt_enable_byte(i) & crate::bus::interrupt_flag_byte(i) & 0x1F;
            &&& ((p >> 0u8) & 1 == 1) == is_pending(i.vblank)
            &&& ((p >> 1u8) & 1 == 1) == is_pending(i.lcd_status)
            &&& ((p >> 2u8) & 1 == 1) == is_pending(i.timer)
            &&& ((p >> 3u8) & 1 == 1) == is_pending(i.serial)
            &&& ((p >> 4u8) & 1 == 1) == is_pending(i.joypad)
            &&& forall|j: u8| 5 <= j < 8 ==> (p >> j) & 1 == 0
        }),
{
    let (e0, e1, e2, e3, e4) = (i.vblank.enabled, i.lcd_status.enabled, i.timer.enabled, i.serial.enabled, i.joypad.enabled);
    let (r0, r1, r2, r3, r4) = (i.vblank.requested, i.lcd_status.requested, i.timer.requested, i.serial.requested, i.joypad.requested);
    let ie = crate::bus::interrupt_enable_byte(i);
    let fl = crate::bus::interrupt_flag_byte(i);
    assert(ie == ((if e0 { 1int } else { 0 }) + (if e1 { 2int } else { 0 }) + (if e2 { 4int } else { 0 })
        + (if e3 { 8int } else { 0 }) + (if e4 { 16int } else { 0 }) + 224) as u8);
    assert(fl == ((if r0 { 1int } else { 0 }) + (if r1 { 2int } else { 0 }) + (if r2 { 4int } else { 0 })
        + (if r3 { 8int } else { 0 }) + (if r4 { 16int } else { 0 }) + 224) as u8);
    assert({
        let a = ((if e0 { 1int } else { 0 }) + (if e1 { 2int } else { 0 }) + (if e2 { 4int } else { 0 })
            + (if e3 { 8int } else { 0 }) + (if e4 { 16int } else { 0 }) + 224) as u8;
        let b = ((if r0 { 1int } else { 0 }) + (if r1 { 2int } else { 0 }) + (if r2 { 4int } else { 0 })
            + (if r3 { 8int } else { 0 }) + (if r4 { 16int } else { 0 }) + 224) as u8;
        let p = a & b & 0x1F;
        &&& ((p >> 0u8) & 1 == 1) == (e0 && r0)
        &&& ((p >> 1u8) & 1 == 1) == (e1 && r1)
        &&& ((p >> 2u8) & 1 == 1) == (e2 && r2)
        &&& ((p >> 3u8) & 1 == 1) == (e3 && r3)
        &&& ((p >> 4u8) & 1 == 1) == (e4 && r4)
        &&& (p >> 5u8) & 1 == 0 && (p >> 6u8) & 1 == 0 && (p >> 7u8) & 1 == 0
    }) by (bit_vector);
    let p = ie & fl & 0x1F;
    assert forall|j: u8| 5 <= j < 8 implies (p >> j) & 1 == 0 by {
        if j == 5 {} else if j == 6 {} else {}
    }
}

/// Interrupts are serviced by priority: with the master enable on and some interrupt both
/// enabled in `IE` and requested in `IF`, the CPU jumps to the vector of the lowest-numbered
/// set bit `k` of `IE & IF` (V-blank 0, LCD status 1, timer 2, serial 3, joypad 4), which is
/// `0x40 + 8 * k`, pushing the program counter.
pub proof fn lemma_interrupt_priority(cpu: Cpu, bus: Bus, after: Cpu, bus_after: Bus)
    requires
        interrupt_effect(cpu, bus, after, bus_after),
        bus.interrupts.enabled,
        bus.spec_read(0xFFFF) & bus.spec_read(0xFF0F) & 0x1F != 0,
    ensures
        ({
            let p = bus.spec_read(0xFFFF) & bus.spec_read(0xFF0F) & 0x1F;
            exists|k: u8| {
                &&& k < 5
                &&& (p >> k) & 1 == 1
                &&& (forall|j: u8| j < k ==> (p >> j) & 1 == 0)
                &&& after.reg.pc == 0x40 + 8 * k
                &&& after.reg.sp == sp_down(cpu.reg.sp)
            }
        }),
{
    reveal(interrupt_effect);
    let i = bus.interrupts;
    lemma_pending_bits(i);
    let p = bus.spec_read(0xFFFF) & bus.spec_read(0xFF0F) & 0x1F;
    assert(p == crate::bus::interrupt_enable_byte(i) & crate::bus::interrupt_flag_byte(i) & 0x1F);
    assert((p >> 5u8) & 1 == 0 && (p >> 6u8) & 1 == 0 && (p >> 7u8) & 1 == 0);
    let k = first_pending(i);
    let q = crate::bus::interrupt_enable_byte(i) & crate::bus::interrupt_flag_byte(i) & 0x1F;
    assert(((q >> 0u8) & 1 == 1) == is_pending(i.vblank));
    assert(((q >> 1u8) & 1 == 1) == is_pending(i.lcd_status));
    assert(((q >> 2u8) & 1 == 1) == is_pending(i.timer));
    assert(((q >> 3u8) & 1 == 1) == is_pending(i.serial));
    assert(((q >> 4u8) & 1 == 1) == is_pending(i.joypad));
    assert(q == p);
    if k == 5 {
        assert((p >> 0u8) & 1 != 1 && (p >> 1u8) & 1 != 1 && (p >> 2u8) & 1 != 1 && (p >> 3u8) & 1 != 1
            && (p >> 4u8) & 1 != 1);
        assert((p >> 0u8) & 1 != 1 && (p >> 1u8) & 1 != 1 && (p >> 2u8) & 1 != 1 && (p >> 3u8) & 1 != 1
            && (p >> 4u8) & 1 != 1 && (p >> 5u8) & 1 == 0 && (p >> 6u8) & 1 == 0 && (p >> 7u8) & 1 == 0
            ==> p == 0) by (bit_vector);
    }
    assert(k < 5);
    let kk = k as u8;
    assert forall|j: u8| j < kk implies (p >> j) & 1 == 0 by {
        assert((p >> j) & 1 != 1 ==> (p >> j) & 1 == 0) by (bit_vector);
        if j == 0 {
            assert(p >> j == p >> 0u8);
        } else if j == 1 {
            assert(p >> j == p >> 1u8);
        } else if j == 2 {
            assert(p >> j == p >> 2u8);
        } else {
            assert(p >> j == p >> 3u8);
        }
    }
    if kk == 0 {
        assert(p >> kk == p >> 0u8);
    } else if kk == 1 {
        assert(p >> kk == p >> 1u8);
    } else if kk == 2 {
        assert(p >> kk == p >> 2u8);
    } else if kk == 3 {
        assert(p >> kk == p >> 3u8);
    } else {
        assert(p >> kk == p >> 4u8);
    }
    assert(after.reg.pc == 0x40 + 8 * kk);
}

impl Cpu {
    /// Fetch and execute a single instruction, or idle while halted.
    pub fn step(&mut self, bus: &mut Bus)
        requires
            old(bus).wf(),
            old(bus).has_room(9),
            old(self).state == State::Running || old(self).state == State::Halted,
        ensures
            final(bus).wf(),
            step_effect(*old(self), *old(bus), *final(self), *final(bus)),
            old(bus).timer.diff + 1 <= final(bus).timer.diff <= old(bus).timer.diff + 6,
    {
        proof {
            reveal(step_effect);
        }
        if self.state == State::Halted {
            // Tick the duration of a NOP.
            bus.tick(MCycles(1));
        } else {
            let instruction = self.fetch(bus);
            let ghost mid = *bus;
            self.execute(&instruction, bus);
            proof {
                lemma_instruction_time(instruction, old(self).reg.f);
                assert(fetch_effect(old(self).reg.pc, *old(bus), instruction, mid));
            }
        }
    }

    /// Execute any enabled interrupt requests.
    pub fn handle_interrupts(&mut self, bus: &mut Bus)
        requires
            old(bus).wf(),
            old(bus).has_room(6),
            old(bus).interrupts.enabled || old(self).state == State::Running || old(self).state == State::Halted,
        ensures
            final(bus).wf(),
            interrupt_effect(*old(self), *old(bus), *final(self), *final(bus)),
            old(self).state == State::Running || old(self).state == State::Halted ==> final(self).state
                == State::Running || final(self).state == State::Halted,
            final(bus).timer.diff <= old(bus).timer.diff + 6,
    {
        proof {
            reveal(interrupt_effect);
        }
        let i = bus.interrupts;
        if i.enabled {
            let k: u16 = if i.vblank.requested && i.vblank.enabled {
                0
            } else if i.lcd_status.requested && i.lcd_status.enabled {
                1
            } else if i.timer.requested && i.timer.enabled {
                2
            } else if i.serial.requested && i.serial.enabled {
                3
            } else if i.joypad.requested && i.joypad.enabled {
                4
            } else {
                5
            };
            if k < 5 {
                if self.state == State::Halted {
                    self.state = State::Running;
                    bus.tick(MCycles(1));
                }
                let ghost woken = *bus;
                let w = bus.interrupts;
                bus.interrupts = if k == 0 {
                    Interrupts { enabled: false, vblank: InterruptState { requested: false, ..w.vblank }, ..w }
                } else if k == 1 {
                    Interrupts { enabled: false, lcd_status: InterruptState { requested: false, ..w.lcd_status }, ..w }
                } else if k == 2 {
                    Interrupts { enabled: false, timer: InterruptState { requested: false, ..w.timer }, ..w }
                } else if k == 3 {
                    Interrupts { enabled: false, serial: InterruptState { requested: false, ..w.serial }, ..w }
                } else {
                    Interrupts { enabled: false, joypad: InterruptState { requested: false, ..w.joypad }, ..w }
                };
                // Internal delay
                bus.tick(MCycles(3));
                let ghost delayed = *bus;
                self.rst(0x40 + 8 * k, bus);
                assert(woke(*old(self), *old(bus), woken));
                assert((Bus { interrupts: interrupt_serviced(woken.interrupts, k as int), ..woken }).tick_relation(3, delayed));
            }
        } else if self.state == State::Halted {
            if bus.interrupts.pending() {
                self.state = State::Running;
                self.reg.pc = self.reg.pc.wrapping_add(1);
                bus.tick(MCycles(1));
            }
        }
    }
}

impl Default for Cpu {
    fn default() -> (r: Cpu)
        ensures
            r == (Cpu { reg: registers_zero(), state: State::Running, halt_bug: false }),
    {
        Cpu::new()
    }
}

/// A word pushed onto a stack in RAM pops back, and the pop leaves the CPU as it was before the
/// push: the stack pointer is restored and no other register changes.
pub proof fn lemma_push_pop(c0: Cpu, value: u16, b0: Bus, c1: Cpu, b1: Bus, popped: u16, c2: Cpu, b2: Bus)
    requires
        b0.sized(),
        crate::bus::is_ram_address(sp_down(c0.reg.sp)),
        crate::bus::is_ram_address(next_address(sp_down(c0.reg.sp))),
        c1 == (Cpu { reg: Registers { sp: sp_down(c0.reg.sp), ..c0.reg }, ..c0 }),
        b0.write_word_cycles(sp_down(c0.reg.sp), value, b1),
        c2 == (Cpu { reg: Registers { sp: sp_up(c1.reg.sp), ..c1.reg }, ..c1 }),
        b1.read_word_cycles(c1.reg.sp, popped, b2),
    ensures
        popped == value,
        c2 == c0,
{
    crate::bus::lemma_word_read_after_write(b0, sp_down(c0.reg.sp), value, b1, popped, b2);
    assert(sp_up(sp_down(c0.reg.sp)) == c0.reg.sp);
}

} // verus!
