use feo_boy::cpu::State;
use feo_boy::tui::{parse_breakpoint, parse_command, parse_step, Command, CommandError};
use feo_boy::Emulator;

#[test]
fn tick_while_halted() {
    let mut emulator = Emulator::new();
    emulator.cpu.state = State::Halted;

    assert_eq!(emulator.bus.timer.reg.divider(), 0);

    // Step at least enough times for the divider to increase.
    for _ in 0..64 {
        emulator.step();
    }

    assert!(emulator.bus.timer.reg.divider() > 0);
}

#[test]
fn wake_from_halt() {
    let mut emulator = Emulator::new();

    // Load a test program into RAM
    emulator.cpu.reg.pc = 0xC000;
    assert!(!emulator.bus.interrupts.enabled);

    let test_program = [
        0x76, // HALT
        0x00, // NOP
        0x00, // NOP
    ];

    for (offset, byte) in test_program.iter().enumerate() {
        emulator.bus.write_byte_no_tick(emulator.cpu.reg.pc + offset as u16, *byte);
    }

    emulator.step();

    assert_eq!(emulator.cpu.state, State::Halted);
    assert_eq!(emulator.cpu.reg.pc, 0xC001);

    emulator.step();

    assert_eq!(emulator.cpu.state, State::Halted);
    assert_eq!(emulator.cpu.reg.pc, 0xC001);

    // Request an interrupt
    emulator.bus.interrupts.timer.enabled = true;
    emulator.bus.interrupts.timer.requested = true;

    emulator.step();
    assert_eq!(emulator.cpu.reg.pc, 0xC003);
    assert!(emulator.bus.interrupts.timer.requested);
}

#[test]
fn halt_bug() {
    // The notorious "HALT bug". If interrupts are disabled and there is a pending interrupt
    // when a HALT instruction is encountered, then the HALT state is skipped, and the PC fails
    // to increase for the next instruction.
    let mut emulator = Emulator::new();

    // Load a test program into RAM
    emulator.cpu.reg.pc = 0xC000;

    let test_program = [
        0xAF, // XOR A
        0x76, // HALT
        0x3C, // INC A    (this instruction will be executed twice)
        0x22, // LD (HL+),A
    ];

    emulator.cpu.reg.hl_mut().write(0xD000);
    emulator.bus.interrupts.enabled = false;
    emulator.bus.interrupts.timer.enabled = true;
    emulator.bus.interrupts.timer.requested = true;

    for (offset, byte) in test_program.iter().enumerate() {
        emulator.bus.write_byte(emulator.cpu.reg.pc + offset as u16, *byte);
    }

    for _ in 0..5 {
        emulator.step();
    }

    assert_eq!(emulator.cpu.reg.a, 2);
    assert_eq!(emulator.bus.read_byte(0xD000), 2);
}

#[test]
fn breakpoints_pause() {
    let mut emulator = Emulator::new_with_debug();
    assert!(emulator.is_paused());
    emulator.cpu.reg.pc = 0xC000;
    emulator.add_breakpoint(0xC002);
    emulator.add_breakpoint(0xC002);
    assert_eq!(emulator.breakpoints(), vec![0xC002]);
    emulator.resume();
    assert!(!emulator.is_paused());
    emulator.step();
    assert!(!emulator.is_paused());
    emulator.step();
    assert!(emulator.is_paused());
    assert_eq!(emulator.cpu.reg.pc, 0xC002);
}

#[test]
fn run_cycles_stops_when_paused() {
    let mut emulator = Emulator::new_with_debug();
    assert_eq!(emulator.run_cycles(feo_boy::cpu::TCycles(100)).0, 0);
    emulator.resume();
    let executed = emulator.run_cycles(feo_boy::cpu::TCycles(100));
    assert!(executed.0 >= 100);
}

#[test]
fn reset_without_bios() {
    let mut emulator = Emulator::new();
    emulator.reset();
    assert_eq!(emulator.cpu.reg.pc, 0x100);
    assert_eq!(emulator.bus.read_byte_no_tick(0xFF40), 0x91);
    assert_eq!(emulator.bus.read_byte_no_tick(0xFF47), 0xFC);
    assert_eq!(emulator.bus.read_byte_no_tick(0xFF26), 0x80);
}

#[test]
fn reset_with_bios() {
    let mut emulator = Emulator::new();
    emulator.load_bios(&[0x31; 256]).unwrap();
    emulator.cpu.reg.pc = 0x1234;
    emulator.reset();
    assert_eq!(emulator.cpu.reg.pc, 0);
    assert_eq!(emulator.current_instruction().1.def.byte, 0x31);
}

#[test]
fn parse_breakpoint_errors() {
    assert_eq!(parse_breakpoint("b"), Err(CommandError::BreakpointArguments));
    assert_eq!(parse_breakpoint("b 0x1 2"), Err(CommandError::BreakpointArguments));
    assert_eq!(parse_breakpoint("b 174"), Err(CommandError::BreakpointPrefix));
    assert_eq!(parse_breakpoint("b 0x"), Err(CommandError::BreakpointNumber));
    assert_eq!(parse_breakpoint("b 0x10000"), Err(CommandError::BreakpointNumber));
    assert_eq!(parse_breakpoint("b 0xfffg"), Err(CommandError::BreakpointNumber));
    assert_eq!(parse_breakpoint("b 0xFFFF"), Ok(0xFFFF));
    assert_eq!(parse_breakpoint("b 0x+1A"), Ok(0x1A));
}

#[test]
fn parse_step_command() {
    assert_eq!(parse_step("s"), Ok(None));
    assert_eq!(parse_step("s 10"), Ok(Some(10)));
    assert_eq!(parse_step("s -3"), Ok(Some(-3)));
    assert_eq!(parse_step("s -2147483648"), Ok(Some(i32::MIN)));
    assert_eq!(parse_step("s 2147483648"), Err(CommandError::StepCount));
    assert_eq!(parse_step("s x"), Err(CommandError::StepCount));
    assert_eq!(parse_step("s 1 2"), Err(CommandError::StepArguments));
}

#[test]
fn parse_commands() {
    assert_eq!(parse_command("s"), Ok(Command::Step(1)));
    assert_eq!(parse_command("s 4"), Ok(Command::Step(4)));
    assert_eq!(parse_command("b 0x100"), Ok(Command::Breakpoint(0x100)));
    assert_eq!(parse_command("l"), Ok(Command::List));
    assert_eq!(parse_command("r"), Ok(Command::Resume));
    assert_eq!(parse_command("p"), Ok(Command::Print));
    assert_eq!(parse_command("d"), Ok(Command::Dump));
    assert_eq!(parse_command("c"), Ok(Command::Cpu));
    assert_eq!(parse_command("q"), Ok(Command::Quit));
    assert_eq!(parse_command("?"), Ok(Command::Help));
    assert_eq!(parse_command("x"), Ok(Command::Unknown));
    assert_eq!(parse_command("b"), Err(CommandError::BreakpointArguments));
}

#[test]
fn cycles_in_time() {
    assert_eq!(feo_boy::cycles_in(0).0, 0);
    assert_eq!(feo_boy::cycles_in(233).0, 0);
    assert_eq!(feo_boy::cycles_in(234).0, 1);
    assert_eq!(feo_boy::cycles_in(16_000_000).0, 68376);
    assert_eq!(feo_boy::cycles_in(234 * (1u128 << 32) + 234 * 5).0, 5);
}

#[test]
fn run_cycles_stops_at_breakpoint() {
    let mut emulator = Emulator::new_with_debug();
    emulator.reset();
    emulator.add_breakpoint(0x0103);
    emulator.resume();
    let executed = emulator.run_cycles(feo_boy::cpu::TCycles(1000));
    assert_eq!(emulator.cpu.reg.pc, 0x0103);
    assert!(emulator.is_paused());
    assert_eq!(executed.0, 12);
}

#[test]
fn step_times_steps_while_paused() {
    let mut emulator = Emulator::new_with_debug();
    emulator.reset();
    assert!(emulator.is_paused());
    let (steps, cycles) = emulator.step_times(3);
    assert_eq!(steps, 3);
    assert_eq!(cycles, 12);
    assert_eq!(emulator.cpu.reg.pc, 0x0103);
    assert_eq!(emulator.step_times(-2), (0, 0));
    assert_eq!(emulator.step_times(0), (0, 0));
}

#[test]
fn step_times_stops_when_stopped() {
    let mut emulator = Emulator::new();
    emulator.reset();
    emulator.cpu.state = feo_boy::cpu::State::Stopped;
    assert_eq!(emulator.step_times(5), (0, 0));
}

#[test]
fn reset_restores_components() {
    let mut emulator = Emulator::new();
    emulator.bus.write_byte_no_tick(0x8000, 0x12);
    emulator.bus.write_byte_no_tick(0xFF0F, 0x1F);
    emulator.bus.timer.reg.control = 0b101;
    emulator.bus.ppu.line = 5;
    emulator.reset();
    assert_eq!(emulator.bus.read_byte_no_tick(0x8000), 0);
    assert_eq!(emulator.bus.read_byte_no_tick(0xFF0F), 0xE0);
    assert_eq!(emulator.bus.timer.reg.control, 0);
    assert_eq!(emulator.bus.ppu.line, 0);
    assert!(emulator.bus.mmu.bios_mapped);
}

#[test]
fn reset_with_bios_zeroes_registers() {
    let mut emulator = Emulator::new();
    emulator.load_bios(&[0; 256]).unwrap();
    emulator.cpu.reg.a = 7;
    emulator.cpu.reg.pc = 0x1234;
    emulator.reset();
    assert_eq!(emulator.cpu.reg.a, 0);
    assert_eq!(emulator.cpu.reg.pc, 0);
}
