//! A Game Boy emulator.

pub mod audio;
pub mod bus;
pub mod bytes;
pub mod cpu;
pub mod graphics;
pub mod input;
pub mod memory;
pub mod text;
pub mod tui;

use std::collections::HashSet;

use vstd::prelude::*;

use crate::bus::Bus;
use crate::cpu::instructions::pc_plus;
use crate::cpu::{interrupt_effect, step_effect, Cpu, Instruction, MCycles, State, TCycles};
use crate::memory::{BiosError, CartridgeError};

pub use crate::graphics::SCREEN_DIMENSIONS;
pub use crate::input::Button;

verus! {

broadcast use vstd::std_specs::hash::group_hash_axioms;

/// The time, in nanoseconds, that a physical Game Boy takes to complete a single cycle.
pub const CYCLE_NANOS: u128 = 234;

/// The number of clock cycles that fit in a span of time given in nanoseconds, truncated to
/// 32 bits.
pub fn cycles_in(nanos: u128) -> (r: TCycles)
    ensures
        r.0 == (nanos / CYCLE_NANOS) as u32,
{
    TCycles((nanos / CYCLE_NANOS) as u32)
}

/// The debugger's state: the breakpoints and whether execution is paused.
#[derive(Debug)]
pub struct Debugger {
    /// The addresses at which execution pauses.
    pub breakpoints: HashSet<u16>,
    /// Whether execution is paused.
    pub paused: bool,
}

impl Debugger {
    /// No breakpoints; paused, so that commands are read before the first instruction runs.
    pub fn new() -> (r: Debugger)
        ensures
            r.breakpoints@ == Set::<u16>::empty(),
            r.paused,
    {
        Debugger { breakpoints: HashSet::new(), paused: true }
    }
}

impl Default for Debugger {
    fn default() -> (r: Debugger)
        ensures
            r.breakpoints@ == Set::<u16>::empty(),
            r.paused,
    {
        Debugger::new()
    }
}

/// The emulator itself. Contains all components required to emulate the Game Boy.
#[derive(Debug)]
pub struct Emulator {
    /// The CPU.
    pub cpu: Cpu,
    /// Other components of the emulator.
    pub bus: Bus,
    /// The debugger, when enabled.
    pub debug: Option<Debugger>,
}

/// The I/O register values that the BIOS leaves behind, written on a reset without a BIOS.
pub open spec fn power_up_writes() -> Seq<(u16, u8)> {
    seq![
        (0xff05u16, 0x00u8), (0xff06, 0x00), (0xff07, 0x00), (0xff10, 0x80), (0xff11, 0xbf),
        (0xff12, 0xf3), (0xff14, 0xbf), (0xff16, 0x3f), (0xff17, 0x00), (0xff19, 0xbf),
        (0xff1a, 0x7f), (0xff1b, 0xff), (0xff1c, 0x9f), (0xff1e, 0xbf), (0xff20, 0xff),
        (0xff21, 0x00), (0xff22, 0x00), (0xff23, 0xbf), (0xff24, 0x77), (0xff25, 0xf3),
        (0xff26, 0xf1), (0xff40, 0x91), (0xff42, 0x00), (0xff43, 0x00), (0xff45, 0x00),
        (0xff47, 0xfc), (0xff48, 0xff), (0xff49, 0xff), (0xff4a, 0x00), (0xff4b, 0x00),
        (0xffff, 0x00),
    ]
}

fn power_up_register_values() -> (r: Vec<(u16, u8)>)
    ensures
        r@ == power_up_writes(),
{
    let r = vec![
        (0xff05u16, 0x00u8), (0xff06, 0x00), (0xff07, 0x00), (0xff10, 0x80), (0xff11, 0xbf),
        (0xff12, 0xf3), (0xff14, 0xbf), (0xff16, 0x3f), (0xff17, 0x00), (0xff19, 0xbf),
        (0xff1a, 0x7f), (0xff1b, 0xff), (0xff1c, 0x9f), (0xff1e, 0xbf), (0xff20, 0xff),
        (0xff21, 0x00), (0xff22, 0x00), (0xff23, 0xbf), (0xff24, 0x77), (0xff25, 0xf3),
        (0xff26, 0xf1), (0xff40, 0x91), (0xff42, 0x00), (0xff43, 0x00), (0xff45, 0x00),
        (0xff47, 0xfc), (0xff48, 0xff), (0xff49, 0xff), (0xff4a, 0x00), (0xff4b, 0x00),
        (0xffff, 0x00),
    ];
    assert(r@ =~= power_up_writes());
    r
}

/// `trace` lists the buses of a sequence of instantaneous writes, from `bus` to `after`.
pub open spec fn is_write_trace(bus: Bus, writes: Seq<(u16, u8)>, after: Bus, trace: Seq<Bus>) -> bool {
    &&& trace.len() == writes.len() + 1
    &&& trace[0] == bus
    &&& trace[writes.len() as int] == after
    &&& forall|i: int| 0 <= i < writes.len() ==> #[trigger] trace[i].write_relation(writes[i].0, writes[i].1, trace[i + 1])
}

/// The bus after a sequence of instantaneous writes, in order.
pub open spec fn wrote_all(bus: Bus, writes: Seq<(u16, u8)>, after: Bus) -> bool {
    exists|trace: Seq<Bus>| #[trigger] is_write_trace(bus, writes, after, trace)
}

/// What a reset does to the bus: `after` is `bus` with every component back in its initial
/// state, but for the loaded BIOS and cartridge, the buttons held and the serial output.
pub open spec fn reset_bus(bus: Bus, after: Bus) -> bool {
    &&& bus.mmu.reset_relation(after.mmu)
    &&& after.ppu.is_initial()
    &&& after.audio.is_initial()
    &&& after.timer == crate::cpu::timer::Timer::new_spec()
    &&& after.interrupts == crate::cpu::interrupts_none()
    &&& after.serial_transfer_data == 0
    &&& after.button_state == bus.button_state
    &&& after.serial_out == bus.serial_out
}

/// The elapsed-time counter cleared.
pub open spec fn with_diff_reset(bus: Bus) -> Bus {
    Bus { timer: crate::cpu::timer::Timer { diff: 0, ..bus.timer }, ..bus }
}

/// What a step of the emulator does: interrupts are handled, then the CPU steps; the time
/// counted is that of both.
pub open spec fn emulator_step_effect(cpu: Cpu, bus: Bus, after: Cpu, bus_after: Bus, cycles: TCycles) -> bool {
    exists|woken: Cpu, serviced: Bus| {
        &&& #[trigger] interrupt_effect(cpu, with_diff_reset(bus), woken, serviced)
        &&& step_effect(woken, with_diff_reset(serviced), after, bus_after)
        &&& cycles.0 == 4 * (serviced.timer.diff + bus_after.timer.diff)
    }
}

/// What a step does to the whole emulator: `after` is `e` after one step that counted `cycles`.
/// The debugger, if any, keeps its breakpoints and pauses when the new program counter is one.
pub open spec fn emulator_stepped(e: Emulator, after: Emulator, cycles: TCycles) -> bool {
    &&& emulator_step_effect(e.cpu, e.bus, after.cpu, after.bus, cycles)
    &&& match (e.debug, after.debug) {
        (Some(d), Some(g)) => g.breakpoints@ == d.breakpoints@
            && g.paused == (d.paused || d.breakpoints@.contains(after.cpu.reg.pc)),
        (None, None) => true,
        _ => false,
    }
    &&& 4 <= cycles.0 <= 48
}

/// Whether the emulator can step: it is not paused, and the CPU runs or is halted.
pub open spec fn can_step(e: Emulator) -> bool {
    &&& !e.spec_is_paused()
    &&& (e.cpu.state == State::Running || e.cpu.state == State::Halted)
}

/// The sum of a sequence of cycle counts.
pub open spec fn total_cycles(cycles: Seq<TCycles>) -> int
    decreases cycles.len(),
{
    if cycles.len() == 0 {
        0
    } else {
        total_cycles(cycles.drop_last()) + cycles.last().0
    }
}

/// `trace` lists the emulator's states over a run of steps, `cycles` the time each step took.
pub open spec fn is_run_trace(trace: Seq<Emulator>, cycles: Seq<TCycles>) -> bool {
    &&& trace.len() == cycles.len() + 1
    &&& forall|i: int| 0 <= i < cycles.len() ==> can_step(#[trigger] trace[i])
    &&& forall|i: int| 0 <= i < cycles.len() ==> emulator_stepped(#[trigger] trace[i], trace[i + 1], cycles[i])
}

/// Whether the CPU can execute: it runs or is halted.
pub open spec fn cpu_can_step(e: Emulator) -> bool {
    e.cpu.state == State::Running || e.cpu.state == State::Halted
}

/// `trace` lists the emulator's states over steps taken one after the other, paused or not,
/// `cycles` the time each step took.
pub open spec fn is_step_trace(trace: Seq<Emulator>, cycles: Seq<TCycles>) -> bool {
    &&& trace.len() == cycles.len() + 1
    &&& forall|i: int| 0 <= i < cycles.len() ==> cpu_can_step(#[trigger] trace[i])
    &&& forall|i: int| 0 <= i < cycles.len() ==> emulator_stepped(#[trigger] trace[i], trace[i + 1], cycles[i])
}

/// What running for `target` cycles does: the emulator steps from `e` to `after`, one step at a
/// time, for as long as it can step and the cycles counted fall short of `target`. `executed` is
/// the number of cycles counted.
pub open spec fn ran_for(e: Emulator, target: int, after: Emulator, executed: int) -> bool {
    exists|trace: Seq<Emulator>, cycles: Seq<TCycles>| {
        &&& #[trigger] is_run_trace(trace, cycles)
        &&& trace[0] == e
        &&& trace.last() == after
        &&& executed == total_cycles(cycles)
        &&& forall|k: int| 0 <= k < cycles.len() ==> #[trigger] total_cycles(cycles.take(k)) < target
        &&& (executed >= target || !can_step(after))
    }
}

/// A paused emulator does not run: it counts no cycles and stays as it was.
pub proof fn lemma_paused_runs_nothing(e: Emulator, target: int, after: Emulator, executed: int)
    requires
        ran_for(e, target, after, executed),
        e.spec_is_paused(),
    ensures
        executed == 0,
        after == e,
{
    let (trace, cycles) = choose|trace: Seq<Emulator>, cycles: Seq<TCycles>| {
        &&& #[trigger] is_run_trace(trace, cycles)
        &&& trace[0] == e
        &&& trace.last() == after
        &&& executed == total_cycles(cycles)
        &&& forall|k: int| 0 <= k < cycles.len() ==> #[trigger] total_cycles(cycles.take(k)) < target
        &&& (executed >= target || !can_step(after))
    };
    if cycles.len() > 0 {
        assert(can_step(trace[0]));
    }
}

impl Emulator {
    /// The bus keeps its invariant.
    pub open spec fn wf(self) -> bool {
        self.bus.wf()
    }

    /// Whether the emulator is paused: only with the debugger, at its command.
    pub open spec fn spec_is_paused(self) -> bool {
        match self.debug {
            Some(d) => d.paused,
            None => false,
        }
    }

    /// Create a new emulator.
    pub fn new() -> (r: Emulator)
        ensures
            r.wf(),
            r.cpu == Cpu::new_spec(),
            r.debug is None,
            r.bus.mmu.bios_mapped,
            !r.bus.mmu.spec_has_bios(),
            r.bus.timer == crate::cpu::timer::Timer::new_spec(),
            r.bus.interrupts == crate::cpu::interrupts_none(),
    {
        Emulator { cpu: Cpu::new(), bus: Bus::new(), debug: None }
    }

    /// Create a new emulator with the debugger enabled.
    pub fn new_with_debug() -> (r: Emulator)
        ensures
            r.wf(),
            r.cpu == Cpu::new_spec(),
            (r.debug matches Some(d) && d.paused && d.breakpoints@ == Set::<u16>::empty()),
            r.bus.mmu.bios_mapped,
            !r.bus.mmu.spec_has_bios(),
    {
        let mut emulator = Emulator::new();
        emulator.debug = Some(Debugger::new());
        emulator
    }

    /// Whether a BIOS was loaded.
    pub fn bios_loaded(&self) -> (r: bool)
        ensures
            r == self.bus.mmu.spec_has_bios(),
    {
        self.bus.mmu.has_bios()
    }

    /// Reset all emulator components to their initial states.
    ///
    /// If the BIOS has been loaded, remaps it and sets the PC to 0. If a BIOS was not loaded,
    /// sets register values as if the BIOS had already executed.
    ///
    /// The loaded BIOS and cartridge, the buttons held and the serial output collected are kept.
    pub fn reset(&mut self)
        requires
            old(self).wf(),
        ensures
            final(self).wf(),
            final(self).debug == old(self).debug,
            final(self).cpu.state == State::Running,
            !final(self).cpu.halt_bug,
            old(self).bus.mmu.spec_has_bios() ==> {
                &&& final(self).cpu.reg == crate::cpu::registers::registers_zero()
                &&& reset_bus(old(self).bus, final(self).bus)
            },
            !old(self).bus.mmu.spec_has_bios() ==> {
                &&& final(self).cpu.reg == crate::cpu::registers_after_bios()
                &&& exists|start: Bus| {
                    &&& #[trigger] reset_bus(old(self).bus, start)
                    &&& wrote_all(start, power_up_writes(), final(self).bus)
                }
            },
    {
        self.bus.mmu.reset();
        self.bus.ppu = crate::graphics::Ppu::new();
        self.bus.audio = crate::audio::SoundController::new();
        self.bus.timer = crate::cpu::timer::Timer::new();
        self.bus.interrupts = crate::cpu::Interrupts::new();
        self.bus.serial_transfer_data = 0;
        let bios_loaded = self.bios_loaded();
        self.cpu.reset(bios_loaded);
        if !bios_loaded {
            let ghost start = self.bus;
            let ghost cpu = self.cpu;
            let writes = power_up_register_values();
            proof {
                assert(is_write_trace(start, writes@.take(0), start, seq![start]));
            }
            let mut i: usize = 0;
            while i < writes.len()
                invariant
                    i <= writes@.len(),
                    writes@ == power_up_writes(),
                    self.bus.wf(),
                    wrote_all(start, writes@.take(i as int), self.bus),
                    self.debug == old(self).debug,
                    self.cpu == cpu,
                decreases writes@.len() - i,
            {
                let ghost before = self.bus;
                let (address, value) = writes[i];
                self.bus.write_byte_no_tick(address, value);
                proof {
                    let trace = choose|trace: Seq<Bus>| #[trigger] is_write_trace(start, writes@.take(i as int), before, trace);
                    let longer = trace.push(self.bus);
                    let ws = writes@.take(i as int + 1);
                    assert forall|k: int| 0 <= k < ws.len() implies #[trigger] longer[k].write_relation(ws[k].0, ws[k].1, longer[k + 1]) by {
                        if k < i {
                            assert(writes@.take(i as int)[k] == ws[k]);
                            assert(trace[k].write_relation(writes@.take(i as int)[k].0, writes@.take(i as int)[k].1, trace[k + 1]));
                        }
                    }
                    assert(is_write_trace(start, ws, self.bus, longer));
                }
                i = i + 1;
            }
            assert(writes@.take(writes@.len() as int) =~= power_up_writes());
            assert(reset_bus(old(self).bus, start));
        }
    }

    /// Load a BIOS dump into the emulator.
    pub fn load_bios(&mut self, bios: &[u8]) -> (r: Result<(), BiosError>)
        requires
            old(self).wf(),
        ensures
            final(self).wf(),
            final(self).cpu == old(self).cpu,
            final(self).debug == old(self).debug,
            final(self).bus == (Bus { mmu: final(self).bus.mmu, ..old(self).bus }),
            old(self).bus.mmu.load_bios_effect(bios@, final(self).bus.mmu, r),
    {
        self.bus.mmu.load_bios(bios)
    }

    /// Load a cartridge ROM into the emulator.
    pub fn load_rom(&mut self, rom: &[u8]) -> (r: Result<(), CartridgeError>)
        requires
            old(self).wf(),
        ensures
            final(self).wf(),
            final(self).cpu == old(self).cpu,
            final(self).debug == old(self).debug,
            final(self).bus == (Bus { mmu: final(self).bus.mmu, ..old(self).bus }),
            old(self).bus.mmu.load_rom_effect(rom@, final(self).bus.mmu, r),
    {
        self.bus.mmu.load_rom(rom)
    }

    /// Render the current frame into a frame buffer of RGBA pixels.
    pub fn render(&self, frame: &mut [u8])
        requires
            self.wf(),
            old(frame)@.len() == crate::graphics::SCREEN_WIDTH * crate::graphics::SCREEN_HEIGHT * 4,
        ensures
            final(frame)@.len() == old(frame)@.len(),
            forall|i: int| 0 <= i < old(frame)@.len() ==> #[trigger] final(frame)@[i]
                == crate::graphics::palette::rgba_of(self.bus.ppu.pixels.0@[i / 4])[i % 4],
    {
        self.bus.ppu.render(frame);
    }

    /// Handle interrupts, then fetch and execute a single instruction (or idle, halted).
    /// Returns the number of cycles executed; pauses at a breakpoint.
    #[verifier::spinoff_prover]
    pub fn step(&mut self) -> (r: TCycles)
        requires
            old(self).wf(),
            old(self).cpu.state == State::Running || old(self).cpu.state == State::Halted,
        ensures
            final(self).wf(),
            emulator_stepped(*old(self), *final(self), r),
    {
        self.bus.timer.reset_diff();
        let ghost reset = self.bus;
        let ghost start = self.cpu;
        self.cpu.handle_interrupts(&mut self.bus);
        let ghost woken = self.cpu;
        let ghost serviced = self.bus;
        let first = self.bus.timer.diff();
        // The interrupt handling time counted, the CPU step is timed on its own.
        self.bus.timer.reset_diff();
        self.cpu.step(&mut self.bus);
        let second = self.bus.timer.diff();
        let cycles = MCycles(first.0 + second.0);
        let pc = self.cpu.reg.pc;
        match &mut self.debug {
            Some(debugger) => {
                if debugger.breakpoints.contains(&pc) {
                    debugger.paused = true;
                }
            },
            None => {},
        }
        proof {
            assert(reset == with_diff_reset(old(self).bus));
            assert(interrupt_effect(start, reset, woken, serviced));
            assert(step_effect(woken, with_diff_reset(serviced), self.cpu, self.bus));
        }
        TCycles::from(cycles)
    }

    /// Hold a button.
    pub fn press(&mut self, button: Button)
        ensures
            final(self).cpu == old(self).cpu,
            final(self).bus == (Bus { button_state: final(self).bus.button_state, ..old(self).bus }),
            final(self).bus.button_state.pressed@ == old(self).bus.button_state.pressed@.update(
                crate::input::button_index(button),
                true,
            ),
            final(self).bus.button_state.select == old(self).bus.button_state.select,
    {
        self.bus.button_state.press(button);
    }

    /// Let go of a button.
    pub fn release(&mut self, button: Button)
        ensures
            final(self).cpu == old(self).cpu,
            final(self).bus == (Bus { button_state: final(self).bus.button_state, ..old(self).bus }),
            final(self).bus.button_state.pressed@ == old(self).bus.button_state.pressed@.update(
                crate::input::button_index(button),
                false,
            ),
            final(self).bus.button_state.select == old(self).bus.button_state.select,
    {
        self.bus.button_state.release(button);
    }

    /// Resume execution after pausing.
    pub fn resume(&mut self)
        ensures
            final(self).cpu == old(self).cpu,
            final(self).bus == old(self).bus,
            !final(self).spec_is_paused(),
            match (old(self).debug, final(self).debug) {
                (Some(d), Some(e)) => e.breakpoints@ == d.breakpoints@,
                (None, None) => true,
                _ => false,
            },
    {
        match &mut self.debug {
            Some(debugger) => debugger.paused = false,
            None => {},
        }
    }

    /// Whether the emulator is paused.
    pub fn is_paused(&self) -> (r: bool)
        ensures
            r == self.spec_is_paused(),
    {
        match &self.debug {
            Some(d) => d.paused,
            None => false,
        }
    }

    /// Insert a breakpoint at a given memory address; without the debugger, nothing happens.
    pub fn add_breakpoint(&mut self, breakpoint: u16)
        ensures
            final(self).cpu == old(self).cpu,
            final(self).bus == old(self).bus,
            match (old(self).debug, final(self).debug) {
                (Some(d), Some(e)) => e.breakpoints@ == d.breakpoints@.insert(breakpoint) && e.paused == d.paused,
                (None, None) => true,
                _ => false,
            },
    {
        match &mut self.debug {
            Some(debugger) => {
                debugger.breakpoints.insert(breakpoint);
            },
            None => {},
        }
    }

    /// Return a list of active breakpoints, each once, in no particular order; none without
    /// the debugger.
    pub fn breakpoints(&self) -> (r: Vec<u16>)
        ensures
            r@.no_duplicates(),
            match self.debug {
                Some(d) => r@.to_set() == d.breakpoints@,
                None => r@.len() == 0,
            },
    {
        let mut list: Vec<u16> = Vec::new();
        match &self.debug {
            Some(d) => {
                let keys = d.breakpoints.iter();
                let ghost all = vstd::std_specs::iter::IteratorSpec::remaining(&keys).unref();
                proof {
                    broadcast use vstd::std_specs::hash::axiom_spec_hash_keys_iter;
                    assert(all.to_set() == d.breakpoints@ && all.no_duplicates());
                }
                for k in it: keys
                    invariant
                        list@ == it.seq().unref().take(it.index() as int),
                        it.seq().unref() == all,
                {
                    list.push(*k);
                }
                assert(list@ =~= all);
            },
            None => {},
        }
        list
    }

    /// Runs the emulator for a number of clock cycles, stopping early when the debugger pauses
    /// it or when the CPU stops or locks up. Returns the number of cycles executed.
    pub fn run_cycles(&mut self, cycles_to_execute: TCycles) -> (r: TCycles)
        requires
            old(self).wf(),
            cycles_to_execute.0 <= u32::MAX - 48,
        ensures
            final(self).wf(),
            ran_for(*old(self), cycles_to_execute.0 as int, *final(self), r.0 as int),
    {
        let mut executed: u32 = 0;
        let ghost mut trace: Seq<Emulator> = seq![*self];
        let ghost mut steps: Seq<TCycles> = Seq::empty();
        while executed < cycles_to_execute.0
            invariant
                self.wf(),
                cycles_to_execute.0 <= u32::MAX - 48,
                executed <= cycles_to_execute.0 + 48,
                is_run_trace(trace, steps),
                trace[0] == *old(self),
                trace.last() == *self,
                executed == total_cycles(steps),
                forall|k: int| 0 <= k < steps.len() ==> #[trigger] total_cycles(steps.take(k)) < cycles_to_execute.0,
            ensures
                self.wf(),
                is_run_trace(trace, steps),
                trace[0] == *old(self),
                trace.last() == *self,
                executed == total_cycles(steps),
                forall|k: int| 0 <= k < steps.len() ==> #[trigger] total_cycles(steps.take(k)) < cycles_to_execute.0,
                executed >= cycles_to_execute.0 || !can_step(*self),
            decreases cycles_to_execute.0 + 48 - executed,
        {
            if self.is_paused() || !(self.cpu.state == State::Running || self.cpu.state == State::Halted) {
                break;
            }
            let ghost before = *self;
            let cycles = self.step();
            proof {
                let longer = steps.push(cycles);
                assert(longer.drop_last() =~= steps);
                assert forall|k: int| 0 <= k < longer.len() implies #[trigger] total_cycles(longer.take(k))
                    < cycles_to_execute.0 by {
                    if k < steps.len() {
                        assert(longer.take(k) =~= steps.take(k));
                    } else {
                        assert(longer.take(k) =~= steps);
                    }
                }
                let grown = trace.push(*self);
                assert forall|i: int| 0 <= i < longer.len() implies can_step(#[trigger] grown[i]) by {
                    if i < steps.len() {
                        assert(grown[i] == trace[i]);
                    }
                }
                assert forall|i: int| 0 <= i < longer.len() implies emulator_stepped(#[trigger] grown[i], grown[i + 1], longer[i]) by {
                    if i < steps.len() {
                        assert(grown[i] == trace[i] && grown[i + 1] == trace[i + 1]);
                    }
                }
                trace = grown;
                steps = longer;
            }
            executed = executed + cycles.0;
        }
        TCycles(executed)
    }

    /// Steps the emulator `count` times, paused or not, as the debugger's step command does;
    /// stops early when the CPU stops or locks up. Returns the number of steps taken and the
    /// number of cycles they took.
    pub fn step_times(&mut self, count: i32) -> (r: (u32, u64))
        requires
            old(self).wf(),
        ensures
            final(self).wf(),
            exists|trace: Seq<Emulator>, cycles: Seq<TCycles>| {
                &&& #[trigger] is_step_trace(trace, cycles)
                &&& trace[0] == *old(self)
                &&& trace.last() == *final(self)
                &&& cycles.len() == r.0
                &&& r.1 == total_cycles(cycles)
            },
            r.0 <= (if count < 0 { 0 } else { count as int }),
            r.0 == (if count < 0 { 0 } else { count as int }) || !cpu_can_step(*final(self)),
    {
        let mut steps: u32 = 0;
        let mut total: u64 = 0;
        let ghost mut trace: Seq<Emulator> = seq![*self];
        let ghost mut taken: Seq<TCycles> = Seq::empty();
        while (steps as i64) < (count as i64)
            invariant
                self.wf(),
                0 <= steps <= (if count < 0 { 0 } else { count as int }),
                total <= 48 * steps,
                is_step_trace(trace, taken),
                trace[0] == *old(self),
                trace.last() == *self,
                taken.len() == steps,
                total == total_cycles(taken),
            ensures
                self.wf(),
                is_step_trace(trace, taken),
                trace[0] == *old(self),
                trace.last() == *self,
                taken.len() == steps,
                total == total_cycles(taken),
                steps <= (if count < 0 { 0 } else { count as int }),
                steps == (if count < 0 { 0 } else { count as int }) || !cpu_can_step(*self),
            decreases count as int - steps,
        {
            if !(self.cpu.state == State::Running || self.cpu.state == State::Halted) {
                break;
            }
            let cycles = self.step();
            proof {
                let longer = taken.push(cycles);
                assert(longer.drop_last() =~= taken);
                let grown = trace.push(*self);
                assert forall|i: int| 0 <= i < longer.len() implies cpu_can_step(#[trigger] grown[i]) by {
                    if i < taken.len() {
                        assert(grown[i] == trace[i]);
                    }
                }
                assert forall|i: int| 0 <= i < longer.len() implies emulator_stepped(#[trigger] grown[i], grown[i + 1], longer[i]) by {
                    if i < taken.len() {
                        assert(grown[i] == trace[i] && grown[i + 1] == trace[i + 1]);
                    }
                }
                trace = grown;
                taken = longer;
            }
            total = total + cycles.0 as u64;
            steps = steps + 1;
        }
        (steps, total)
    }

    /// Returns the current value of the program counter and the instruction at that memory
    /// address.
    pub fn current_instruction(&self) -> (r: (u16, Instruction))
        requires
            self.wf(),
        ensures
            r.0 == self.cpu.reg.pc,
            r.1.wf(),
            r.1.def.byte == self.bus.spec_read(self.cpu.reg.pc),
            forall|i: int| 0 <= i < r.1.def.num_operands ==> #[trigger] crate::cpu::instructions::operand_bytes(
                r.1.operands,
            )[i] == self.bus.spec_read(pc_plus(self.cpu.reg.pc, 1 + i)),
    {
        (self.cpu.reg.pc, self.cpu.current_instruction(&self.bus))
    }
}

impl Default for Emulator {
    fn default() -> (r: Emulator)
        ensures
            r.wf(),
            r.cpu == Cpu::new_spec(),
            r.debug is None,
    {
        Emulator::new()
    }
}

} // verus!
