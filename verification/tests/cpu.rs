use feo_boy::bus::Bus;
use feo_boy::cpu::{Cpu, Flags, MCycles, State};

#[test]
fn skip_bios() {
    let mut cpu = Cpu::new();
    cpu.reset(false);

    assert_eq!(cpu.reg.pc, 0x100);

    let mut bus = Bus::default();
    let mut cpu = Cpu::new();

    // Load dummy BIOS
    bus.mmu.load_bios(&[0; 256]).unwrap();
    cpu.reset(true);

    assert_eq!(cpu.reg.pc, 0x00);
}

#[test]
fn push_pop() {
    let mut bus = Bus::default();
    let mut cpu = Cpu::new();

    cpu.reg.sp = 0xE000;

    cpu.push(0xcafe, &mut bus);
    assert_eq!(cpu.pop(&mut bus), 0xcafe);

    cpu.reg.sp = 0xD000;
    cpu.push(0xbeef, &mut bus);
    assert_eq!(cpu.pop(&mut bus), 0xbeef);
}

#[test]
fn reset_registers_without_bios() {
    let mut cpu = Cpu::new();
    cpu.reset(false);
    assert_eq!(cpu.reg.a, 0x01);
    assert_eq!(cpu.reg.f.bits(), 0x90);
    assert_eq!(cpu.reg.bc(), 0x0013);
    assert_eq!(cpu.reg.de(), 0x00d8);
    assert_eq!(cpu.reg.hl(), 0x014d);
    assert_eq!(cpu.reg.sp, 0xfffe);
    assert_eq!(cpu.state, State::Running);
}

#[test]
fn halted_step_ticks() {
    let mut bus = Bus::default();
    let mut cpu = Cpu::new();
    cpu.state = State::Halted;
    cpu.step(&mut bus);
    assert_eq!(bus.timer.diff(), MCycles(1));
    assert_eq!(cpu.reg.pc, 0);
}

#[test]
fn interrupt_service() {
    let mut bus = Bus::default();
    let mut cpu = Cpu::new();
    cpu.reg.pc = 0x1234;
    cpu.reg.sp = 0xD000;
    bus.interrupts.enabled = true;
    bus.interrupts.timer.enabled = true;
    bus.interrupts.timer.requested = true;
    bus.interrupts.joypad.enabled = true;
    bus.interrupts.joypad.requested = true;

    cpu.handle_interrupts(&mut bus);

    assert_eq!(cpu.reg.pc, 0x50);
    assert_eq!(cpu.reg.sp, 0xCFFE);
    assert!(!bus.interrupts.enabled);
    assert!(!bus.interrupts.timer.requested);
    assert!(bus.interrupts.joypad.requested);
    assert_eq!(bus.timer.diff(), MCycles(5));
    assert_eq!(cpu.pop(&mut bus), 0x1234);
}

#[test]
fn prefix_instructions() {
    let mut bus = Bus::default();
    let mut cpu = Cpu::new();

    // SWAP A
    cpu.reg.a = 0x12;
    cpu.execute_prefix(0x37, &mut bus);
    assert_eq!(cpu.reg.a, 0x21);
    assert_eq!(cpu.reg.f, Flags::empty());

    // BIT 7,H
    cpu.reg.h = 0x80;
    cpu.execute_prefix(0x7c, &mut bus);
    assert_eq!(cpu.reg.f, Flags::half_carry());

    // SET 0,(HL)
    cpu.reg.h = 0xC0;
    cpu.reg.l = 0x00;
    cpu.execute_prefix(0xC6, &mut bus);
    assert_eq!(bus.read_byte_no_tick(0xC000), 0x01);

    // RES 0,(HL)
    cpu.execute_prefix(0x86, &mut bus);
    assert_eq!(bus.read_byte_no_tick(0xC000), 0x00);
}

#[test]
fn cpu_text_is_registers_text() {
    let mut cpu = Cpu::new();
    cpu.reset(false);
    assert_eq!(cpu.to_string(), cpu.reg.to_string());
    assert!(cpu.to_string().starts_with("A 0x01\n"));
}

#[test]
fn cycles_text() {
    assert_eq!(MCycles(0).to_string(), "0 M-cycles");
    assert_eq!(MCycles(1234).to_string(), "1234 M-cycles");
    assert_eq!(feo_boy::cpu::TCycles(4_294_967_295).to_string(), "4294967295 T-cycles");
    assert_eq!(feo_boy::cpu::TCycles(70).to_string(), "70 T-cycles");
}
