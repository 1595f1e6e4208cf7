use feo_boy::bus::Bus;
use feo_boy::cpu::instructions::{
    instruction_def, is_carry_add, is_carry_sub, is_half_carry_add, is_half_carry_sub,
    prefix_instruction_def, Instruction, InstructionDef,
};
use feo_boy::cpu::{Cpu, Flags, MCycles, TCycles};

#[test]
fn instructions_half_carry() {
    assert!(is_half_carry_add(0x0f, 0x01));
    assert!(!is_half_carry_add(0x37, 0x44));

    assert!(is_half_carry_sub(0xf0, 0x01));
    assert!(!is_half_carry_sub(0xff, 0xf0));
}

#[test]
fn carry() {
    assert!(is_carry_add(0xff, 0xff));
    assert!(is_carry_add(0xff, 0x01));
    assert!(!is_carry_add(0x00, 0x01));

    assert!(is_carry_sub(0x00, 0x01));
    assert!(!is_carry_sub(0xff, 0x0f));
}

#[test]
fn instructions_instruction_display() {
    let nop = Instruction::new(0x00, &[]);
    assert_eq!(&nop.to_string(), "NOP");

    let jr_nz_r8 = Instruction::new(0x20, &[0xfe]);
    assert_eq!(&jr_nz_r8.to_string(), "JR NZ,$0xfe");

    let ld_hl_d16 = Instruction::new(0x21, &[0xef, 0xbe]);
    assert_eq!(&ld_hl_d16.to_string(), "LD HL,$0xbeef");
}

#[test]
fn mod_instruction_display() {
    let nop = Instruction::new(0x00, &[]);
    assert_eq!(&nop.to_string(), "NOP");

    let jr_nz_r8 = Instruction::new(0x20, &[0xfe]);
    assert_eq!(&jr_nz_r8.to_string(), "JR NZ,$0xfe");

    let ld_hl_d16 = Instruction::new(0x21, &[0xef, 0xbe]);
    assert_eq!(&ld_hl_d16.to_string(), "LD HL,$0xbeef");

    let rl_c = Instruction::new(0xCB, &[0x11]);
    assert_eq!(&rl_c.to_string(), "RL C");
}

#[test]
fn instruction_display_small_operand() {
    let ld_a_d8 = Instruction::new(0x3E, &[0x05]);
    assert_eq!(&ld_a_d8.to_string(), "LD A,$0x05");
    let jp = Instruction::new(0xC3, &[0x50, 0x01]);
    assert_eq!(&jp.to_string(), "JP $0x0150");
}

#[test]
fn fetch_nop() {
    let mut bus = Bus::default();
    let cpu = Cpu::new();
    let nop = cpu.fetch(&mut bus);
    assert_eq!(nop.def.byte, 0x00);
    assert_eq!(nop.def.num_operands, 0);
    assert_eq!(nop.operand_count(), 0);
}

#[test]
fn fetch() {
    let mut bus = Bus::default();
    let mut cpu = Cpu::new();
    bus.write_byte_no_tick(0xC000, 0x00);
    cpu.reg.pc = 0xC000;
    let nop = cpu.fetch(&mut bus);
    assert_eq!(nop.def.byte, 0x00);
    assert_eq!(nop.def.num_operands, 0);
    assert_eq!(nop.operand_count(), 0);

    let mut bus = Bus::default();
    let mut cpu = Cpu::new();
    bus.write_byte_no_tick(0xC000, 0xcb);
    bus.write_byte_no_tick(0xC001, 0x7c);
    cpu.reg.pc = 0xC000;
    let prefix_instruction = cpu.fetch(&mut bus);
    assert_eq!(prefix_instruction.def.byte, 0xcb);
    assert_eq!(prefix_instruction.def.num_operands, 1);
    assert_eq!(prefix_instruction.operand_count(), 1);
    assert_eq!(prefix_instruction.operand(0), 0x7c);
}

#[test]
fn execute() {
    let mut bus = Bus::default();
    let mut cpu = Cpu::new();

    let nop = Instruction::new(0x00, &[]);
    bus.tick(MCycles(1));

    cpu.execute(&nop, &mut bus);
    assert_eq!(bus.timer.diff(), MCycles(1));
}

#[test]
fn instructions_rst() {
    let mut bus = Bus::default();
    let mut cpu = Cpu::new();

    cpu.reg.sp = 0xFFF0;
    cpu.reg.pc = 0xAB;

    let instruction = Instruction::new(0xff, &[]);
    cpu.execute(&instruction, &mut bus);

    assert_eq!(cpu.reg.pc, 0x38);
    assert_eq!(cpu.pop(&mut bus), 0xAB + 1);
}

#[test]
fn mod_rst() {
    let mut bus = Bus::default();
    let mut cpu = Cpu::new();

    cpu.reg.sp = 0xFFF0;
    cpu.reg.pc = 0xAB;

    let instruction = Instruction::new(0xff, &[]);
    bus.tick(MCycles(1));
    cpu.execute(&instruction, &mut bus);

    assert_eq!(cpu.reg.pc, 0x38);
    assert_eq!(cpu.pop(&mut bus), 0xAB + 1);
}

#[test]
fn instructions_jr_nz() {
    let mut bus = Bus::default();
    let mut cpu = Cpu::new();
    cpu.reg.pc = 0;

    // Move forward 10
    let instruction = Instruction::new(0x20, &[0x0a]);
    cpu.execute(&instruction, &mut bus);
    assert_eq!(cpu.reg.pc, 12);

    // Move backward 10
    let instruction = Instruction::new(0x20, &[!0x0a + 1]);
    cpu.execute(&instruction, &mut bus);
    assert_eq!(cpu.reg.pc, 4);
}

#[test]
fn mod_jr_nz() {
    let mut bus = Bus::default();
    let mut cpu = Cpu::new();

    cpu.reg.pc = 0;

    // Move forward 10
    let instruction = Instruction::new(0x20, &[0x0a]);
    bus.tick(MCycles(2));
    cpu.execute(&instruction, &mut bus);
    assert_eq!(cpu.reg.pc, 12);
    assert_eq!(bus.timer.diff(), MCycles(3));

    // Move backward 10
    bus.timer.reset_diff();
    let instruction = Instruction::new(0x20, &[!0x0a + 1]);
    bus.tick(MCycles(2));
    cpu.execute(&instruction, &mut bus);
    assert_eq!(cpu.reg.pc, 4);
    assert_eq!(bus.timer.diff(), MCycles(3));

    // Do not jump
    bus.timer.reset_diff();
    cpu.reg.f.insert(Flags::zero());
    let instruction = Instruction::new(0x20, &[0x0a]);
    bus.tick(MCycles(2));
    cpu.execute(&instruction, &mut bus);
    assert_eq!(cpu.reg.pc, 6);
    assert_eq!(bus.timer.diff(), MCycles(2));
}

#[test]
fn instructions_jr() {
    let mut cpu = Cpu::new();

    cpu.reg.pc = 0x01;

    // Move forward 10
    cpu.jr(0x0a);
    assert_eq!(cpu.reg.pc, 0x0b);

    // Move backward 10
    cpu.jr(!0x0a + 1);
    assert_eq!(cpu.reg.pc, 0x01);
}

#[test]
fn mod_jr() {
    let mut cpu = Cpu::new();

    cpu.reg.pc = 0x01;

    // Move forward 10
    cpu.jr(0x0a);
    assert_eq!(cpu.reg.pc, 0x0b);

    // Move backward 10
    cpu.jr(!0x0a + 1);
    assert_eq!(cpu.reg.pc, 0x01);
}

#[test]
fn instructions_ld_addr_c_a() {
    let mut bus = Bus::default();
    let mut cpu = Cpu::new();
    cpu.reg.c = 0x11;
    cpu.reg.a = 0xab;

    let instruction = Instruction::new(0xe2, &[]);
    cpu.execute(&instruction, &mut bus);
}

#[test]
fn mod_ld_addr_c_a() {
    let mut bus = Bus::default();
    let mut cpu = Cpu::new();

    // Write to the SCY (Scroll Y) register.
    cpu.reg.c = 0x42;
    cpu.reg.a = 0xab;
    let instruction = Instruction::new(0xe2, &[]);
    bus.tick(MCycles(1));
    cpu.execute(&instruction, &mut bus);

    assert_eq!(bus.read_byte(0xFF42), 0xab);
}

#[test]
fn ldh_c() {
    let mut bus = Bus::default();
    let mut cpu = Cpu::new();

    // Write to SCX (Scroll X) register.
    bus.write_byte(0xFF42, 0xBE);
    cpu.reg.c = 0x42;
    let instruction = Instruction::new(0xf2, &[]);
    cpu.execute(&instruction, &mut bus);

    assert_eq!(cpu.reg.a, 0xBE);
}

#[test]
fn instructions_ld_addr_a16_a() {
    let mut bus = Bus::default();
    let mut cpu = Cpu::new();
    cpu.reg.a = 0x11;

    let instruction = Instruction::new(0xea, &[0x00, 0xc0]);
    cpu.execute(&instruction, &mut bus);

    assert_eq!(bus.mmu.read_byte(0xc000), 0x11);
}

#[test]
fn mod_ld_addr_a16_a() {
    let mut bus = Bus::default();
    let mut cpu = Cpu::new();

    cpu.reg.a = 0x11;

    let instruction = Instruction::new(0xea, &[0x00, 0xc0]);
    bus.tick(MCycles(3));
    cpu.execute(&instruction, &mut bus);

    assert_eq!(bus.read_byte(0xc000), 0x11);
}

#[test]
fn instructions_ld_a_addr_a16() {
    let mut bus = Bus::default();
    let mut cpu = Cpu::new();
    bus.mmu.write_byte(0xc000, 0xaa);

    let instruction = Instruction::new(0xfa, &[0x00, 0xc0]);
    cpu.execute(&instruction, &mut bus);

    assert_eq!(cpu.reg.a, 0xaa);
}

#[test]
fn mod_ld_a_addr_a16() {
    let mut bus = Bus::default();
    let mut cpu = Cpu::new();

    bus.write_byte_no_tick(0xc000, 0xaa);

    let instruction = Instruction::new(0xfa, &[0x00, 0xc0]);
    bus.tick(MCycles(3));
    cpu.execute(&instruction, &mut bus);

    assert_eq!(cpu.reg.a, 0xaa);
}

#[test]
fn load_16() {
    let mut bus = Bus::default();
    let mut cpu = Cpu::new();

    cpu.reg.sp = 0xFFF8;

    let instruction = Instruction::new(0x08, &[0x00, 0xC1]);
    bus.tick(MCycles(3));
    cpu.execute(&instruction, &mut bus);

    assert_eq!(bus.read_byte(0xC100), 0xF8);
    assert_eq!(bus.read_byte(0xC101), 0xFF);
}

#[test]
fn instructions_call() {
    let mut bus = Bus::default();
    let mut cpu = Cpu::new();

    cpu.reg.sp = 0xffff;
    cpu.reg.pc = 1;
    cpu.call(4, &mut bus);

    assert_eq!(cpu.reg.pc, 4);
    assert_eq!(cpu.pop(&mut bus), 1);
}

#[test]
fn mod_call() {
    let mut bus = Bus::default();
    let mut cpu = Cpu::new();

    cpu.reg.sp = 0xffff;
    cpu.reg.pc = 1;
    cpu.call(4, &mut bus);

    assert_eq!(cpu.reg.pc, 4);
    assert_eq!(cpu.pop(&mut bus), 1);
}

#[test]
fn instructions_ret() {
    let mut bus = Bus::default();
    let mut cpu = Cpu::new();

    cpu.reg.sp = 0xffff;
    cpu.push(5, &mut bus);
    cpu.ret(&mut bus);

    assert_eq!(cpu.reg.sp, 0xffff);
    assert_eq!(cpu.reg.pc, 5);
}

#[test]
fn mod_ret() {
    let mut bus = Bus::default();
    let mut cpu = Cpu::new();

    cpu.reg.sp = 0xffff;
    cpu.push(5, &mut bus);
    cpu.ret(&mut bus);

    assert_eq!(cpu.reg.sp, 0xffff);
    assert_eq!(cpu.reg.pc, 5);
}

#[test]
fn scf() {
    let mut bus = Bus::default();
    let mut cpu = Cpu::new();

    cpu.reg.f = Flags::empty();

    let instruction_1 = Instruction::new(0x37, &[]);
    bus.tick(MCycles(1));
    cpu.execute(&instruction_1, &mut bus);

    assert_eq!(cpu.reg.f, Flags::carry());

    cpu.reg
        .f
        .insert(Flags::zero() | Flags::subtract() | Flags::half_carry() | Flags::carry());

    bus.timer.reset_diff();
    let instruction_2 = Instruction::new(0x37, &[]);
    bus.tick(MCycles(1));
    cpu.execute(&instruction_2, &mut bus);

    assert_eq!(cpu.reg.f, Flags::zero() | Flags::carry());
}

#[test]
fn jp_hl() {
    let mut bus = Bus::default();
    let mut cpu = Cpu::new();

    cpu.reg.pc = 0;
    cpu.reg.hl_mut().write(0xbeef);

    let instruction = Instruction::new(0xe9, &[]);
    bus.tick(MCycles(1));
    cpu.execute(&instruction, &mut bus);

    assert_eq!(cpu.reg.pc, 0xbeef);
}

#[test]
fn ld_sp_hl() {
    let mut bus = Bus::default();
    let mut cpu = Cpu::new();

    cpu.reg.sp = 0;
    cpu.reg.hl_mut().write(0xbeef);

    let instruction = Instruction::new(0xf9, &[]);
    bus.tick(MCycles(1));
    cpu.execute(&instruction, &mut bus);

    assert_eq!(cpu.reg.sp, 0xbeef);
}

#[test]
fn pop_af() {
    let mut bus = Bus::default();
    let mut cpu = Cpu::new();
    cpu.reg.sp = 0xFFFD;
    bus.write_byte_no_tick(cpu.reg.sp, 0xFF);
    bus.write_byte_no_tick(cpu.reg.sp + 1, 0xFF);

    let instruction = Instruction::new(0xF1, &[]);
    bus.tick(MCycles(1));
    cpu.execute(&instruction, &mut bus);

    assert_eq!(cpu.reg.a, 0xFF);
    assert_eq!(cpu.reg.f.bits(), 0xF0);
    assert_eq!(cpu.reg.f, Flags::all());
}

#[test]
fn mod_timings() {
    // These timings taken from blargg's instruction timing test ROM.
    let timings: Vec<u32> = vec![
        1,3,2,2,1,1,2,1,5,2,2,2,1,1,2,1,
        0,3,2,2,1,1,2,1,3,2,2,2,1,1,2,1,
        2,3,2,2,1,1,2,1,2,2,2,2,1,1,2,1,
        2,3,2,2,3,3,3,1,2,2,2,2,1,1,2,1,
        1,1,1,1,1,1,2,1,1,1,1,1,1,1,2,1,
        1,1,1,1,1,1,2,1,1,1,1,1,1,1,2,1,
        1,1,1,1,1,1,2,1,1,1,1,1,1,1,2,1,
        2,2,2,2,2,2,0,2,1,1,1,1,1,1,2,1,
        1,1,1,1,1,1,2,1,1,1,1,1,1,1,2,1,
        1,1,1,1,1,1,2,1,1,1,1,1,1,1,2,1,
        1,1,1,1,1,1,2,1,1,1,1,1,1,1,2,1,
        1,1,1,1,1,1,2,1,1,1,1,1,1,1,2,1,
        2,3,3,4,3,4,2,4,2,4,3,0,3,6,2,4,
        2,3,3,0,3,4,2,4,2,4,3,0,3,0,2,4,
        3,3,2,0,0,4,2,4,4,1,4,0,0,0,2,4,
        3,3,2,1,0,4,2,4,3,2,4,1,0,0,2,4,
    ];

    let condition_timings: Vec<u32> = vec![
        1,3,2,2,1,1,2,1,5,2,2,2,1,1,2,1,
        0,3,2,2,1,1,2,1,3,2,2,2,1,1,2,1,
        3,3,2,2,1,1,2,1,3,2,2,2,1,1,2,1,
        3,3,2,2,3,3,3,1,3,2,2,2,1,1,2,1,
        1,1,1,1,1,1,2,1,1,1,1,1,1,1,2,1,
        1,1,1,1,1,1,2,1,1,1,1,1,1,1,2,1,
        1,1,1,1,1,1,2,1,1,1,1,1,1,1,2,1,
        2,2,2,2,2,2,0,2,1,1,1,1,1,1,2,1,
        1,1,1,1,1,1,2,1,1,1,1,1,1,1,2,1,
        1,1,1,1,1,1,2,1,1,1,1,1,1,1,2,1,
        1,1,1,1,1,1,2,1,1,1,1,1,1,1,2,1,
        1,1,1,1,1,1,2,1,1,1,1,1,1,1,2,1,
        5,3,4,4,6,4,2,4,5,4,4,0,6,6,2,4,
        5,3,4,0,6,4,2,4,5,4,4,0,6,0,2,4,
        3,3,2,0,0,4,2,4,4,1,4,0,0,0,2,4,
        3,3,2,1,0,4,2,4,3,2,4,1,0,0,2,4,
    ];

    for byte in 0..=255u8 {
        let instruction = instruction_def(byte);
        let timing = MCycles(timings[byte as usize]);

        // Skip the assertion if the timing isn't tested.
        if timing.0 == 0 {
            continue;
        }

        if timing != MCycles::from(instruction.cycles) {
            panic!(
                "wrong timing for {}: has {:?}, expected {:?}",
                instruction.description, instruction.cycles, timing
            );
        }

        if let Some(condition_cycles) = instruction.condition_cycles {
            let clock_cycles = MCycles(condition_timings[byte as usize]);

            if clock_cycles != MCycles::from(condition_cycles) {
                panic!(
                    "wrong condition timing for {}: has {:?}, expected {:?}",
                    instruction.description, condition_cycles, clock_cycles
                );
            }
        }
    }
}

#[test]
fn instructions() {
    let nop = instruction_def(0x00);
    assert_eq!(
        nop,
        InstructionDef {
            byte: 0x00,
            description: "NOP",
            num_operands: 0,
            cycles: TCycles(4),
            condition_cycles: None,
        }
    );

    let ld = instruction_def(0x3e);
    assert_eq!(
        ld,
        InstructionDef {
            byte: 0x3e,
            description: "LD A,d8",
            num_operands: 1,
            cycles: TCycles(8),
            condition_cycles: None,
        }
    );

    let jp = instruction_def(0xc3);
    assert_eq!(
        jp,
        InstructionDef {
            byte: 0xc3,
            description: "JP a16",
            num_operands: 2,
            cycles: TCycles(16),
            condition_cycles: None,
        }
    );

    let conditional_jp = instruction_def(0xc8);
    assert_eq!(
        conditional_jp,
        InstructionDef {
            byte: 0xc8,
            description: "RET Z",
            num_operands: 0,
            cycles: TCycles(8),
            condition_cycles: Some(TCycles(20)),
        }
    );

    let prefix_instruction = instruction_def(0xcb);
    assert_eq!(
        prefix_instruction,
        InstructionDef {
            byte: 0xcb,
            description: "PREFIX CB",
            num_operands: 1,
            cycles: TCycles(0),
            condition_cycles: None,
        }
    );
}

#[test]
fn cycles() {
    let rl_c = Instruction::new(0xCB, &[0x11]);
    assert_eq!(rl_c.cycles(), TCycles(8));

    let res_0_hl = Instruction::new(0xCB, &[0x86]);
    assert_eq!(res_0_hl.cycles(), TCycles(16));
}

#[test]
fn prefix_timings() {
    // These timings taken from blargg's instruction timing test ROM.
    let timings: Vec<u32> = vec![
        2,2,2,2,2,2,4,2,2,2,2,2,2,2,4,2,
        2,2,2,2,2,2,4,2,2,2,2,2,2,2,4,2,
        2,2,2,2,2,2,4,2,2,2,2,2,2,2,4,2,
        2,2,2,2,2,2,4,2,2,2,2,2,2,2,4,2,
        2,2,2,2,2,2,3,2,2,2,2,2,2,2,3,2,
        2,2,2,2,2,2,3,2,2,2,2,2,2,2,3,2,
        2,2,2,2,2,2,3,2,2,2,2,2,2,2,3,2,
        2,2,2,2,2,2,3,2,2,2,2,2,2,2,3,2,
        2,2,2,2,2,2,4,2,2,2,2,2,2,2,4,2,
        2,2,2,2,2,2,4,2,2,2,2,2,2,2,4,2,
        2,2,2,2,2,2,4,2,2,2,2,2,2,2,4,2,
        2,2,2,2,2,2,4,2,2,2,2,2,2,2,4,2,
        2,2,2,2,2,2,4,2,2,2,2,2,2,2,4,2,
        2,2,2,2,2,2,4,2,2,2,2,2,2,2,4,2,
        2,2,2,2,2,2,4,2,2,2,2,2,2,2,4,2,
        2,2,2,2,2,2,4,2,2,2,2,2,2,2,4,2,
    ];

    for byte in 0..=255u8 {
        let instruction = prefix_instruction_def(byte);
        let clock_cycles = timings[byte as usize] * 4;

        if clock_cycles != instruction.cycles.0 {
            panic!(
                "wrong timing for {:?}: has {:?}, expected {}",
                instruction.description, instruction.cycles, clock_cycles
            );
        }
    }
}

#[test]
fn execute_takes_the_instruction_time() {
    // Every instruction, fetched and executed from working RAM, takes the time that its
    // definition gives.
    for byte in 0..=255u8 {
        if byte == 0x10 || byte == 0x76 {
            continue;
        }
        let mut bus = Bus::default();
        let mut cpu = Cpu::new();
        cpu.reg.pc = 0xC000;
        cpu.reg.sp = 0xD000;
        bus.write_byte_no_tick(0xC000, byte);
        bus.write_byte_no_tick(0xC001, 0x00);
        bus.write_byte_no_tick(0xC002, 0xC1);
        cpu.step(&mut bus);
        let def = instruction_def(byte);
        // With the flags clear, the conditions NZ and NC hold, Z and C do not.
        let taken = (byte >> 3) & 1 == 0;
        let expected = if byte == 0xCB {
            prefix_instruction_def(0x00).cycles
        } else {
            match def.condition_cycles {
                Some(cycles) if taken => cycles,
                _ => def.cycles,
            }
        };
        assert_eq!(TCycles::from(bus.timer.diff()), expected, "{}", def.description);
    }
}
