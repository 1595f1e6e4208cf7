//! What each instruction does, and its execution.
//!
//! An opcode is read as `x y z` (bits 7-6, 5-3 and 2-0), with `y` also read as `p q` (bits
//! 5-4 and 3). The 8-bit register operands are numbered `B C D E H L (HL) A`, the register
//! pairs `BC DE HL SP` (or `AF` in place of `SP` for the stack), and the conditions
//! `NZ Z NC C`.

use vstd::prelude::*;

use crate::bus::Bus;
use crate::bytes::{bit, with_bit, word};
use crate::cpu::instructions::{
    op_p, op_q, op_x, op_y, op_z, operands_of, Instruction,
};
use crate::cpu::registers::{
    add_result, carry_in, daa_result, flags, flags_from_byte, sp_plus, sp_r8_flags, sub_result,
};
use crate::cpu::{sp_down, sp_up, Cpu, Flags, MCycles, Registers, State};

verus! {

/// An 8-bit register by number: `B C D E H L - A`.
pub open spec fn r8(r: Registers, i: int) -> u8 {
    if i == 0 {
        r.b
    } else if i == 1 {
        r.c
    } else if i == 2 {
        r.d
    } else if i == 3 {
        r.e
    } else if i == 4 {
        r.h
    } else if i == 5 {
        r.l
    } else {
        r.a
    }
}

/// The registers with an 8-bit register, by number, set.
pub open spec fn with_r8(r: Registers, i: int, v: u8) -> Registers {
    if i == 0 {
        Registers { b: v, ..r }
    } else if i == 1 {
        Registers { c: v, ..r }
    } else if i == 2 {
        Registers { d: v, ..r }
    } else if i == 3 {
        Registers { e: v, ..r }
    } else if i == 4 {
        Registers { h: v, ..r }
    } else if i == 5 {
        Registers { l: v, ..r }
    } else {
        Registers { a: v, ..r }
    }
}

/// A register pair by number: `BC DE HL SP`.
pub open spec fn r16(r: Registers, p: int) -> u16 {
    if p == 0 {
        word(r.b, r.c)
    } else if p == 1 {
        word(r.d, r.e)
    } else if p == 2 {
        word(r.h, r.l)
    } else {
        r.sp
    }
}

/// The registers with a register pair, by number, set.
pub open spec fn with_r16(r: Registers, p: int, v: u16) -> Registers {
    let (hi, lo) = ((v / 256) as u8, (v % 256) as u8);
    if p == 0 {
        Registers { b: hi, c: lo, ..r }
    } else if p == 1 {
        Registers { d: hi, e: lo, ..r }
    } else if p == 2 {
        Registers { h: hi, l: lo, ..r }
    } else {
        Registers { sp: v, ..r }
    }
}

/// A register pair of the stack by number: `BC DE HL AF`.
pub open spec fn r16_stack(r: Registers, p: int) -> u16 {
    if p == 3 {
        word(r.a, crate::cpu::registers::flags_byte(r.f))
    } else {
        r16(r, p)
    }
}

/// The registers with a register pair of the stack, by number, set. Register `F` keeps the
/// flags of the low byte's high nibble.
pub open spec fn with_r16_stack(r: Registers, p: int, v: u16) -> Registers {
    if p == 3 {
        Registers { a: (v / 256) as u8, f: flags_from_byte((v % 256) as u8), ..r }
    } else {
        with_r16(r, p, v)
    }
}

/// A condition by number: `NZ Z NC C`.
pub open spec fn condition(f: Flags, cc: int) -> bool {
    if cc == 0 {
        !f.zero
    } else if cc == 1 {
        f.zero
    } else if cc == 2 {
        !f.carry
    } else {
        f.carry
    }
}

/// A word plus an integer, wrapped to 16 bits.
pub open spec fn wrap16(v: int) -> u16 {
    ((v + 0x20000) % 0x10000) as u16
}

/// A byte taken as a signed (two's complement) number.
pub open spec fn signed(b: u8) -> i8 {
    if b >= 128 { (b - 256) as i8 } else { b as i8 }
}

/// The target of a relative jump: the program counter plus the operand taken as signed.
pub open spec fn jr_target(pc: u16, offset: u8) -> u16 {
    wrap16(pc + (if offset >= 128 { offset - 256 } else { offset as int }))
}

/// The registers after an arithmetic or logic operation on the accumulator, by number:
/// `ADD ADC SUB SBC AND XOR OR CP`.
pub open spec fn alu_result(r: Registers, k: int, v: u8) -> Registers {
    if k == 0 {
        Registers { a: add_result(r.a, v, 0).0, f: add_result(r.a, v, 0).1, ..r }
    } else if k == 1 {
        Registers { a: add_result(r.a, v, carry_in(r.f)).0, f: add_result(r.a, v, carry_in(r.f)).1, ..r }
    } else if k == 2 {
        Registers { a: sub_result(r.a, v, 0).0, f: sub_result(r.a, v, 0).1, ..r }
    } else if k == 3 {
        Registers { a: sub_result(r.a, v, carry_in(r.f)).0, f: sub_result(r.a, v, carry_in(r.f)).1, ..r }
    } else if k == 4 {
        Registers { a: r.a & v, f: flags(r.a & v == 0, false, true, false), ..r }
    } else if k == 5 {
        Registers { a: r.a ^ v, f: flags(r.a ^ v == 0, false, false, false), ..r }
    } else if k == 6 {
        Registers { a: r.a | v, f: flags(r.a | v == 0, false, false, false), ..r }
    } else {
        Registers { f: sub_result(r.a, v, 0).1, ..r }
    }
}

/// A byte and the flags after `INC`.
pub open spec fn inc_result(v: u8, f: Flags) -> (u8, Flags) {
    let r = ((v + 1) % 256) as u8;
    (r, flags(r == 0, false, v % 16 == 15, f.carry))
}

/// A byte and the flags after `DEC`.
pub open spec fn dec_result(v: u8, f: Flags) -> (u8, Flags) {
    let r = ((v + 255) % 256) as u8;
    (r, flags(r == 0, true, v % 16 == 0, f.carry))
}

/// The registers after the accumulator operations of block 0, by number:
/// `RLCA RRCA RLA RRA DAA CPL SCF CCF`.
pub open spec fn accumulator_result(r: Registers, y: int) -> Registers {
    let a = r.a;
    if y == 0 {
        Registers { a: ((a * 2) % 256 + a / 128) as u8, f: flags(false, false, false, a >= 128), ..r }
    } else if y == 1 {
        Registers { a: (a / 2 + 128 * (a % 2)) as u8, f: flags(false, false, false, a % 2 == 1), ..r }
    } else if y == 2 {
        Registers { a: ((a * 2) % 256 + carry_in(r.f)) as u8, f: flags(false, false, false, a >= 128), ..r }
    } else if y == 3 {
        Registers { a: (a / 2 + 128 * carry_in(r.f)) as u8, f: flags(false, false, false, a % 2 == 1), ..r }
    } else if y == 4 {
        Registers { a: daa_result(a, r.f).0, f: daa_result(a, r.f).1, ..r }
    } else if y == 5 {
        Registers { a: (255 - a) as u8, f: flags(r.f.zero, true, true, r.f.carry), ..r }
    } else if y == 6 {
        Registers { f: flags(r.f.zero, false, false, true), ..r }
    } else {
        Registers { f: flags(r.f.zero, false, false, !r.f.carry), ..r }
    }
}

/// A byte and the flags after a prefix operation, by prefix opcode: the rotations and shifts
/// `RLC RRC RL RR SLA SRA SWAP SRL` (block 0), `BIT` (block 1, the byte unchanged), `RES` and
/// `SET` (blocks 2 and 3, the flags unchanged).
pub open spec fn prefix_result(op: u8, v: u8, f: Flags) -> (u8, Flags) {
    let (x, y) = (op_x(op), op_y(op));
    if x == 0 {
        let r: u8 = if y == 0 {
            ((v * 2) % 256 + v / 128) as u8
        } else if y == 1 {
            (v / 2 + 128 * (v % 2)) as u8
        } else if y == 2 {
            ((v * 2) % 256 + carry_in(f)) as u8
        } else if y == 3 {
            (v / 2 + 128 * carry_in(f)) as u8
        } else if y == 4 {
            ((v * 2) % 256) as u8
        } else if y == 5 {
            (v / 2 + (if v >= 128 { 128int } else { 0 })) as u8
        } else if y == 6 {
            ((v % 16) * 16 + v / 16) as u8
        } else {
            (v / 2) as u8
        };
        let carry = if y == 6 { false } else if y == 0 || y == 2 || y == 4 { v >= 128 } else { v % 2 == 1 };
        (r, flags(r == 0, false, false, carry))
    } else if x == 1 {
        (v, flags(!bit(v, y), false, true, f.carry))
    } else if x == 2 {
        (with_bit(v, y, false), f)
    } else {
        (with_bit(v, y, true), f)
    }
}

/// The CPU with its program counter moved past an instruction of `n` operands, unless the
/// `HALT` bug holds it back (once).
pub open spec fn advanced(cpu: Cpu, n: u8) -> Cpu {
    if cpu.halt_bug {
        Cpu { halt_bug: false, ..cpu }
    } else {
        Cpu { reg: Registers { pc: wrap16(cpu.reg.pc + 1 + n), ..cpu.reg }, ..cpu }
    }
}

/// Whether the condition of a conditional instruction holds under flags `f`.
pub open spec fn taken(op: u8, f: Flags) -> bool {
    crate::cpu::instructions::is_conditional(op) && condition(f, op_y(op) % 4)
}

/// The number of M-cycles that executing an instruction takes, its fetch left out: the
/// instruction's cycles (its condition's when that holds), less one per byte fetched.
pub open spec fn execute_m_cycles(ins: Instruction, f: Flags) -> int {
    let op = ins.def.byte;
    if op == 0xCB {
        crate::cpu::instructions::prefix_m_cycles_of(ins.imm8()) - 2
    } else if taken(op, f) {
        crate::cpu::instructions::taken_m_cycles_of(op) - 1 - operands_of(op)
    } else {
        crate::cpu::instructions::m_cycles_of(op) - 1 - operands_of(op)
    }
}

/// A read of `(HL)` and a write back of `value` there, one M-cycle each.
pub open spec fn read_modify_write(bus: Bus, address: u16, value: u8, after: Bus) -> bool {
    exists|mid: Bus| #[trigger] bus.tick_relation(1, mid) && mid.write_cycle(address, value, after)
}

/// An internal delay of one M-cycle, then `value` pushed at `sp`.
pub open spec fn delay_push(bus: Bus, sp: u16, value: u16, after: Bus) -> bool {
    exists|mid: Bus| #[trigger] bus.tick_relation(1, mid) && mid.write_word_cycles(sp_down(sp), value, after)
}

/// `value` popped from `sp`, then an internal delay of one M-cycle.
pub open spec fn pop_delay(bus: Bus, sp: u16, value: u16, after: Bus) -> bool {
    exists|mid: Bus| #[trigger] bus.read_word_cycles(sp, value, mid) && mid.tick_relation(1, after)
}

/// An address of the I/O page: `0xFF00` plus a byte.
pub open spec fn high_page(low: u8) -> u16 {
    (0xFF00 + low) as u16
}

/// What executing a prefix instruction does, the CPU `c` having fetched it.
pub open spec fn prefix_effect(c: Cpu, op: u8, bus: Bus, after: Cpu, bus_after: Bus) -> bool {
    let (x, y, z) = (op_x(op), op_y(op), op_z(op));
    let hl = word(c.reg.h, c.reg.l);
    if z != 6 {
        let (v, f) = prefix_result(op, r8(c.reg, z), c.reg.f);
        &&& bus_after == bus
        &&& after == Cpu { reg: with_r8(Registers { f, ..c.reg }, z, v), ..c }
    } else if x == 1 {
        &&& bus.read_cycle(hl, bus.spec_read(hl), bus_after)
        &&& after == Cpu { reg: Registers { f: prefix_result(op, bus.spec_read(hl), c.reg.f).1, ..c.reg }, ..c }
    } else {
        let (v, f) = prefix_result(op, bus.spec_read(hl), c.reg.f);
        &&& read_modify_write(bus, hl, v, bus_after)
        &&& after == Cpu { reg: Registers { f, ..c.reg }, ..c }
    }
}

/// What executing an instruction of block 0 does, the CPU `c` having fetched it.
#[verifier::opaque]
pub open spec fn block0_effect(c: Cpu, ins: Instruction, bus: Bus, after: Cpu, bus_after: Bus) -> bool {
    let op = ins.def.byte;
    let (y, z, p, q) = (op_y(op), op_z(op), op_p(op), op_q(op));
    let r = c.reg;
    let hl = word(r.h, r.l);
    if z == 0 {
        if y == 0 {
            after == c && bus_after == bus
        } else if y == 1 {
            after == c && bus.write_word_cycles(ins.imm16(), r.sp, bus_after)
        } else if y == 2 {
            after == Cpu { state: State::Stopped, ..c } && bus_after == bus
        } else if y == 3 || condition(r.f, y - 4) {
            &&& after == Cpu { reg: Registers { pc: jr_target(r.pc, ins.imm8()), ..r }, ..c }
            &&& bus.tick_relation(1, bus_after)
        } else {
            after == c && bus_after == bus
        }
    } else if z == 1 {
        if q == 0 {
            after == Cpu { reg: with_r16(r, p, ins.imm16()), ..c } && bus_after == bus
        } else {
            let sum = hl + r16(r, p);
            &&& after == Cpu {
                reg: Registers {
                    f: flags(r.f.zero, false, hl % 4096 + r16(r, p) % 4096 >= 4096, sum >= 65536),
                    ..with_r16(r, 2, (sum % 65536) as u16)
                },
                ..c
            }
            &&& bus.tick_relation(1, bus_after)
        }
    } else if z == 2 {
        let address = if p == 0 { word(r.b, r.c) } else if p == 1 { word(r.d, r.e) } else { hl };
        let adjusted = if p == 2 { with_r16(r, 2, wrap16(hl + 1)) } else if p == 3 { with_r16(r, 2, wrap16(hl - 1)) } else { r };
        if q == 0 {
            after == Cpu { reg: adjusted, ..c } && bus.write_cycle(address, r.a, bus_after)
        } else {
            after == Cpu { reg: Registers { a: bus.spec_read(address), ..adjusted }, ..c }
                && bus.read_cycle(address, bus.spec_read(address), bus_after)
        }
    } else if z == 3 {
        let v = if q == 0 { wrap16(r16(r, p) + 1) } else { wrap16(r16(r, p) - 1) };
        after == Cpu { reg: with_r16(r, p, v), ..c } && bus.tick_relation(1, bus_after)
    } else if z == 4 || z == 5 {
        if y == 6 {
            let (v, f) = if z == 4 { inc_result(bus.spec_read(hl), r.f) } else { dec_result(bus.spec_read(hl), r.f) };
            after == Cpu { reg: Registers { f, ..r }, ..c } && read_modify_write(bus, hl, v, bus_after)
        } else {
            let (v, f) = if z == 4 { inc_result(r8(r, y), r.f) } else { dec_result(r8(r, y), r.f) };
            after == Cpu { reg: with_r8(Registers { f, ..r }, y, v), ..c } && bus_after == bus
        }
    } else if z == 6 {
        if y == 6 {
            after == c && bus.write_cycle(hl, ins.imm8(), bus_after)
        } else {
            after == Cpu { reg: with_r8(r, y, ins.imm8()), ..c } && bus_after == bus
        }
    } else {
        after == Cpu { reg: accumulator_result(r, y), ..c } && bus_after == bus
    }
}

/// What executing an instruction of block 1 (loads between registers, and `HALT`) or block 2
/// (arithmetic and logic on registers) does, the CPU `c` having fetched it.
#[verifier::opaque]
pub open spec fn block12_effect(c: Cpu, ins: Instruction, bus: Bus, after: Cpu, bus_after: Bus) -> bool {
    let op = ins.def.byte;
    let (x, y, z) = (op_x(op), op_y(op), op_z(op));
    let r = c.reg;
    let hl = word(r.h, r.l);
    if op == 0x76 {
        &&& bus_after == bus
        &&& if bus.interrupts.enabled || !bus.interrupts.spec_pending() {
            after == Cpu { state: State::Halted, ..c }
        } else {
            after == Cpu { halt_bug: true, ..c }
        }
    } else if x == 1 {
        if z == 6 {
            after == Cpu { reg: with_r8(r, y, bus.spec_read(hl)), ..c } && bus.read_cycle(hl, bus.spec_read(hl), bus_after)
        } else if y == 6 {
            after == c && bus.write_cycle(hl, r8(r, z), bus_after)
        } else {
            after == Cpu { reg: with_r8(r, y, r8(r, z)), ..c } && bus_after == bus
        }
    } else if z == 6 {
        after == Cpu { reg: alu_result(r, y, bus.spec_read(hl)), ..c } && bus.read_cycle(hl, bus.spec_read(hl), bus_after)
    } else {
        after == Cpu { reg: alu_result(r, y, r8(r, z)), ..c } && bus_after == bus
    }
}

/// What executing an instruction of block 3 does, the CPU `c` having fetched it.
#[verifier::opaque]
pub open spec fn block3_effect(c: Cpu, ins: Instruction, bus: Bus, after: Cpu, bus_after: Bus) -> bool {
    let op = ins.def.byte;
    let (y, z, p, q) = (op_y(op), op_z(op), op_p(op), op_q(op));
    let r = c.reg;
    let hl = word(r.h, r.l);
    if z == 0 {
        if y < 4 {
            exists|mid: Bus| #[trigger] bus.tick_relation(1, mid) && (if condition(r.f, y) {
                &&& after == Cpu { reg: Registers { pc: after.reg.pc, sp: sp_up(r.sp), ..r }, ..c }
                &&& pop_delay(mid, r.sp, after.reg.pc, bus_after)
            } else {
                after == c && bus_after == mid
            })
        } else if y == 4 {
            after == c && bus.write_cycle(high_page(ins.imm8()), r.a, bus_after)
        } else if y == 5 {
            &&& after == Cpu { reg: Registers { sp: sp_plus(r.sp, signed(ins.imm8())), f: sp_r8_flags(r.sp, signed(ins.imm8())), ..r }, ..c }
            &&& bus.tick_relation(2, bus_after)
        } else if y == 6 {
            &&& after == Cpu { reg: Registers { a: bus.spec_read(high_page(ins.imm8())), ..r }, ..c }
            &&& bus.read_cycle(high_page(ins.imm8()), bus.spec_read(high_page(ins.imm8())), bus_after)
        } else {
            &&& after == Cpu {
                reg: Registers { f: sp_r8_flags(r.sp, signed(ins.imm8())), ..with_r16(r, 2, sp_plus(r.sp, signed(ins.imm8()))) },
                ..c
            }
            &&& bus.tick_relation(1, bus_after)
        }
    } else if z == 1 {
        if q == 0 {
            exists|value: u16| {
                &&& #[trigger] bus.read_word_cycles(r.sp, value, bus_after)
                &&& after == Cpu { reg: with_r16_stack(Registers { sp: sp_up(r.sp), ..r }, p, value), ..c }
            }
        } else if p == 0 {
            &&& after == Cpu { reg: Registers { pc: after.reg.pc, sp: sp_up(r.sp), ..r }, ..c }
            &&& pop_delay(bus, r.sp, after.reg.pc, bus_after)
        } else if p == 1 {
            &&& after == Cpu { reg: Registers { pc: after.reg.pc, sp: sp_up(r.sp), ..r }, ..c }
            &&& exists|mid: Bus| #[trigger] bus.read_word_cycles(r.sp, after.reg.pc, mid)
                && (Bus { interrupts: crate::cpu::Interrupts { enabled: true, ..mid.interrupts }, ..mid }).tick_relation(1, bus_after)
        } else if p == 2 {
            after == Cpu { reg: Registers { pc: hl, ..r }, ..c } && bus_after == bus
        } else {
            after == Cpu { reg: Registers { sp: hl, ..r }, ..c } && bus.tick_relation(1, bus_after)
        }
    } else if z == 2 {
        if y < 4 {
            if condition(r.f, y) {
                after == Cpu { reg: Registers { pc: ins.imm16(), ..r }, ..c } && bus.tick_relation(1, bus_after)
            } else {
                after == c && bus_after == bus
            }
        } else {
            let address = if y == 4 || y == 6 { high_page(r.c) } else { ins.imm16() };
            if y <= 5 {
                after == c && bus.write_cycle(address, r.a, bus_after)
            } else {
                after == Cpu { reg: Registers { a: bus.spec_read(address), ..r }, ..c }
                    && bus.read_cycle(address, bus.spec_read(address), bus_after)
            }
        }
    } else if z == 3 {
        if y == 0 {
            after == Cpu { reg: Registers { pc: ins.imm16(), ..r }, ..c } && bus.tick_relation(1, bus_after)
        } else if y == 1 {
            prefix_effect(c, ins.imm8(), bus, after, bus_after)
        } else if y == 6 || y == 7 {
            &&& after == c
            &&& bus_after == (Bus { interrupts: crate::cpu::Interrupts { enabled: y == 7, ..bus.interrupts }, ..bus })
        } else {
            after == Cpu { state: State::Locked, ..c } && bus_after == bus
        }
    } else if z == 4 || z == 5 {
        if (z == 4 && y < 4 && condition(r.f, y)) || (z == 5 && y == 1) {
            &&& after == Cpu { reg: Registers { pc: ins.imm16(), sp: sp_down(r.sp), ..r }, ..c }
            &&& delay_push(bus, r.sp, r.pc, bus_after)
        } else if z == 4 && y < 4 {
            after == c && bus_after == bus
        } else if z == 5 && q == 0 {
            &&& after == Cpu { reg: Registers { sp: sp_down(r.sp), ..r }, ..c }
            &&& delay_push(bus, r.sp, r16_stack(r, p), bus_after)
        } else {
            after == Cpu { state: State::Locked, ..c } && bus_after == bus
        }
    } else if z == 6 {
        after == Cpu { reg: alu_result(r, y, ins.imm8()), ..c } && bus_after == bus
    } else {
        &&& after == Cpu { reg: Registers { pc: (y * 8) as u16, sp: sp_down(r.sp), ..r }, ..c }
        &&& delay_push(bus, r.sp, r.pc, bus_after)
    }
}

/// What executing an instruction does: `after` and `bus_after` are the CPU and the bus after
/// the CPU `cpu` executes `ins` on `bus`.
pub open spec fn execute_effect(cpu: Cpu, ins: Instruction, bus: Bus, after: Cpu, bus_after: Bus) -> bool {
    let c = advanced(cpu, ins.def.num_operands);
    let x = op_x(ins.def.byte);
    if x == 0 {
        block0_effect(c, ins, bus, after, bus_after)
    } else if x == 3 {
        block3_effect(c, ins, bus, after, bus_after)
    } else {
        block12_effect(c, ins, bus, after, bus_after)
    }
}

/// A byte taken as a signed (two's complement) number.
pub fn signed_byte(b: u8) -> (r: i8)
    ensures
        r == signed(b),
{
    if b >= 128 {
        (b as i16 - 256) as i8
    } else {
        b as i8
    }
}

/// Reads an 8-bit register by number.
fn read_r8(r: &Registers, i: u8) -> (v: u8)
    requires
        i < 8,
    ensures
        v == r8(*r, i as int),
{
    match i {
        0 => r.b,
        1 => r.c,
        2 => r.d,
        3 => r.e,
        4 => r.h,
        5 => r.l,
        _ => r.a,
    }
}

/// Writes an 8-bit register by number.
fn write_r8(r: &mut Registers, i: u8, v: u8)
    requires
        i < 8,
    ensures
        *final(r) == with_r8(*old(r), i as int, v),
{
    match i {
        0 => r.b = v,
        1 => r.c = v,
        2 => r.d = v,
        3 => r.e = v,
        4 => r.h = v,
        5 => r.l = v,
        _ => r.a = v,
    }
}

/// Reads a register pair by number.
fn read_r16(r: &Registers, p: u8) -> (v: u16)
    requires
        p < 4,
    ensures
        v == r16(*r, p as int),
{
    match p {
        0 => r.bc(),
        1 => r.de(),
        2 => r.hl(),
        _ => r.sp,
    }
}

/// Writes a register pair by number.
fn write_r16(r: &mut Registers, p: u8, v: u16)
    requires
        p < 4,
    ensures
        *final(r) == with_r16(*old(r), p as int, v),
{
    match p {
        0 => r.write_bc(v),
        1 => r.write_de(v),
        2 => r.write_hl(v),
        _ => r.sp = v,
    }
}

/// Whether a condition, by number, holds.
fn condition_holds(f: &Flags, cc: u8) -> (r: bool)
    requires
        cc < 4,
    ensures
        r == condition(*f, cc as int),
{
    match cc {
        0 => !f.zero,
        1 => f.zero,
        2 => !f.carry,
        _ => f.carry,
    }
}

/// An arithmetic or logic operation on the accumulator, by number.
fn alu(r: &mut Registers, k: u8, v: u8)
    requires
        k < 8,
    ensures
        *final(r) == alu_result(*old(r), k as int, v),
{
    match k {
        0 => r.add(v),
        1 => r.adc(v),
        2 => r.sub(v),
        3 => r.sbc(v),
        4 => r.and(v),
        5 => r.xor(v),
        6 => r.or(v),
        _ => r.cp(v),
    }
}

/// A prefix operation on a byte: returns the byte and sets the flags.
fn prefix_operation(op: u8, byte: u8, f: &mut Flags) -> (r: u8)
    ensures
        (r, *final(f)) == prefix_result(op, byte, *old(f)),
{
    let mut v = byte;
    let y = (op / 8) % 8;
    if op < 0x40 {
        match y {
            0 => crate::cpu::arithmetic::rlc(&mut v, f),
            1 => crate::cpu::arithmetic::rrc(&mut v, f),
            2 => crate::cpu::arithmetic::rl(&mut v, f),
            3 => crate::cpu::arithmetic::rr(&mut v, f),
            4 => crate::cpu::arithmetic::sla(&mut v, f),
            5 => crate::cpu::arithmetic::sra(&mut v, f),
            6 => crate::cpu::arithmetic::swap(&mut v, f),
            _ => crate::cpu::arithmetic::srl(&mut v, f),
        }
    } else if op < 0x80 {
        crate::cpu::arithmetic::bit(v, y, f);
    } else if op < 0xC0 {
        crate::cpu::arithmetic::res(&mut v, y);
    } else {
        crate::cpu::arithmetic::set(&mut v, y);
    }
    v
}

impl Cpu {
    /// Performs a relative jump: the program counter moves by a signed byte. Does not modify
    /// any flags.
    pub fn jr(&mut self, jump: i8)
        ensures
            *final(self) == (Cpu { reg: Registers { pc: wrap16(old(self).reg.pc + jump), ..old(self).reg }, ..*old(self) }),
    {
        let pc = self.reg.pc as i32 + jump as i32 + 0x10000;
        self.reg.pc = (pc % 0x10000) as u16;
    }

    /// Pushes the current value of the program counter onto the stack, then jumps to a specific
    /// address.
    ///
    /// The current value of the program counter is assumed to be the address of the next
    /// instruction.
    pub fn rst(&mut self, addr: u16, bus: &mut Bus)
        requires
            old(bus).wf(),
            old(bus).has_room(2),
        ensures
            final(bus).wf(),
            *final(self) == (Cpu {
                reg: Registers { pc: addr, sp: sp_down(old(self).reg.sp), ..old(self).reg },
                ..*old(self)
            }),
            old(bus).write_word_cycles(sp_down(old(self).reg.sp), old(self).reg.pc, *final(bus)),
    {
        let pc = self.reg.pc;
        self.push(pc, bus);
        self.reg.pc = addr;
    }

    /// Performs a CALL operation: pushes the program counter and jumps. Does not modify any
    /// flags.
    pub fn call(&mut self, address: u16, bus: &mut Bus)
        requires
            old(bus).wf(),
            old(bus).has_room(2),
        ensures
            final(bus).wf(),
            *final(self) == (Cpu {
                reg: Registers { pc: address, sp: sp_down(old(self).reg.sp), ..old(self).reg },
                ..*old(self)
            }),
            old(bus).write_word_cycles(sp_down(old(self).reg.sp), old(self).reg.pc, *final(bus)),
    {
        let pc = self.reg.pc;
        self.push(pc, bus);
        self.reg.pc = address;
    }

    /// Performs a RET operation: pops the program counter. Does not modify any flags.
    pub fn ret(&mut self, bus: &mut Bus)
        requires
            old(bus).wf(),
            old(bus).has_room(2),
        ensures
            final(bus).wf(),
            *final(self) == (Cpu {
                reg: Registers { pc: final(self).reg.pc, sp: sp_up(old(self).reg.sp), ..old(self).reg },
                ..*old(self)
            }),
            old(bus).read_word_cycles(old(self).reg.sp, final(self).reg.pc, *final(bus)),
    {
        self.reg.pc = self.pop(bus);
    }
}

impl Cpu {
    fn block0_z0(&mut self, ins: &Instruction, bus: &mut Bus)
        requires
            old(bus).wf(),
            old(bus).has_room(6),
            ins.wf(),
            op_x(ins.def.byte) == 0 && op_z(ins.def.byte) == 0,
        ensures
            final(bus).wf(),
            block0_effect(*old(self), *ins, *old(bus), *final(self), *final(bus)),
            final(bus).timer.diff == old(bus).timer.diff + execute_m_cycles(*ins, old(self).reg.f),
    {
        proof {
            reveal(block0_effect);
        }
        let op = ins.def.byte;
        let y = (op / 8) % 8;
        if y == 0 {
            // NOP
        } else if y == 1 {
            // LD (a16),SP
            let address = ins.imm16_value();
            let sp = self.reg.sp;
            bus.write_word(address, sp);
        } else if y == 2 {
            // STOP
            self.state = State::Stopped;
        } else {
            // JR r8, JR cc,r8
            let jump = if y == 3 { true } else { condition_holds(&self.reg.f, y - 4) };
            if jump {
                let offset = signed_byte(ins.imm8_value());
                self.jr(offset);
                // Internal delay
                bus.tick(MCycles(1));
            }
        }
    }

    fn block0_z1(&mut self, ins: &Instruction, bus: &mut Bus)
        requires
            old(bus).wf(),
            old(bus).has_room(6),
            ins.wf(),
            op_x(ins.def.byte) == 0 && op_z(ins.def.byte) == 1,
        ensures
            final(bus).wf(),
            block0_effect(*old(self), *ins, *old(bus), *final(self), *final(bus)),
            final(bus).timer.diff == old(bus).timer.diff + execute_m_cycles(*ins, old(self).reg.f),
    {
        proof {
            reveal(block0_effect);
        }
        let op = ins.def.byte;
        let p = (op / 16) % 4;
        if (op / 8) % 2 == 0 {
            // LD rr,d16
            let value = ins.imm16_value();
            let mut r = self.reg;
            write_r16(&mut r, p, value);
            self.reg = r;
        } else {
            // ADD HL,rr
            // Internal delay (not observable)
            bus.tick(MCycles(1));
            let mut r = self.reg;
            let value = read_r16(&r, p);
            r.add_hl(value);
            self.reg = r;
        }
    }

    #[verifier::spinoff_prover]
    #[verifier::rlimit(50)]
    fn block0_z2_store(&mut self, ins: &Instruction, bus: &mut Bus)
        requires
            old(bus).wf(),
            old(bus).has_room(6),
            ins.wf(),
            op_x(ins.def.byte) == 0 && op_z(ins.def.byte) == 2 && op_q(ins.def.byte) == 0,
        ensures
            final(bus).wf(),
            block0_effect(*old(self), *ins, *old(bus), *final(self), *final(bus)),
            final(bus).timer.diff == old(bus).timer.diff + execute_m_cycles(*ins, old(self).reg.f),
    {
        proof {
            reveal(block0_effect);
        }
        let op = ins.def.byte;
        let p = (op / 16) % 4;
        assert(p == op_p(op));
        assert(execute_m_cycles(*ins, old(self).reg.f) == 1) by {
            assert(!crate::cpu::instructions::is_conditional(op));
            assert(crate::cpu::instructions::m_cycles_of(op) == 2);
            assert(operands_of(op) == 0);
        }
        let mut r = self.reg;
        let address = if p == 0 { r.bc() } else if p == 1 { r.de() } else { r.hl() };
        let ghost adjusted = if p == 2 { with_r16(r, 2, wrap16(address + 1)) } else if p == 3 { with_r16(r, 2, wrap16(address - 1)) } else { r };
        // LD (BC),A / LD (DE),A / LD (HL+),A / LD (HL-),A
        bus.write_byte(address, r.a);
        if p == 2 {
            r.write_hl(address.wrapping_add(1));
        } else if p == 3 {
            r.write_hl(address.wrapping_sub(1));
        }
        assert(r == adjusted);
        self.reg = r;
    }

    #[verifier::spinoff_prover]
    #[verifier::rlimit(50)]
    fn block0_z2_load(&mut self, ins: &Instruction, bus: &mut Bus)
        requires
            old(bus).wf(),
            old(bus).has_room(6),
            ins.wf(),
            op_x(ins.def.byte) == 0 && op_z(ins.def.byte) == 2 && op_q(ins.def.byte) == 1,
        ensures
            final(bus).wf(),
            block0_effect(*old(self), *ins, *old(bus), *final(self), *final(bus)),
            final(bus).timer.diff == old(bus).timer.diff + execute_m_cycles(*ins, old(self).reg.f),
    {
        proof {
            reveal(block0_effect);
        }
        let op = ins.def.byte;
        let p = (op / 16) % 4;
        assert(p == op_p(op));
        assert(execute_m_cycles(*ins, old(self).reg.f) == 1) by {
            assert(!crate::cpu::instructions::is_conditional(op));
            assert(crate::cpu::instructions::m_cycles_of(op) == 2);
            assert(operands_of(op) == 0);
        }
        let mut r = self.reg;
        let address = if p == 0 { r.bc() } else if p == 1 { r.de() } else { r.hl() };
        let ghost adjusted = if p == 2 { with_r16(r, 2, wrap16(address + 1)) } else if p == 3 { with_r16(r, 2, wrap16(address - 1)) } else { r };
        // LD A,(BC) / LD A,(DE) / LD A,(HL+) / LD A,(HL-)
        let value = bus.read_byte(address);
        if p == 2 {
            r.write_hl(address.wrapping_add(1));
        } else if p == 3 {
            r.write_hl(address.wrapping_sub(1));
        }
        assert(r == adjusted);
        r.a = value;
        self.reg = r;
    }

    #[verifier::spinoff_prover]
    #[verifier::rlimit(50)]
    fn block0_z3(&mut self, ins: &Instruction, bus: &mut Bus)
        requires
            old(bus).wf(),
            old(bus).has_room(6),
            ins.wf(),
            op_x(ins.def.byte) == 0 && op_z(ins.def.byte) == 3,
        ensures
            final(bus).wf(),
            block0_effect(*old(self), *ins, *old(bus), *final(self), *final(bus)),
            final(bus).timer.diff == old(bus).timer.diff + execute_m_cycles(*ins, old(self).reg.f),
    {
        let op = ins.def.byte;
        let p = (op / 16) % 4;
        let increment = (op / 8) % 2 == 0;
        assert(p == op_p(op) && increment == (op_q(op) == 0));
        assert(execute_m_cycles(*ins, old(self).reg.f) == 1) by {
            assert(!crate::cpu::instructions::is_conditional(op));
            assert(crate::cpu::instructions::m_cycles_of(op) == 2);
            assert(operands_of(op) == 0);
        }
        // Internal delay (not observable)
        bus.tick(MCycles(1));
        let mut r = self.reg;
        let value = read_r16(&r, p);
        let result = if increment { value.wrapping_add(1) } else { value.wrapping_sub(1) };
        // INC rr / DEC rr
        write_r16(&mut r, p, result);
        self.reg = r;
        proof {
            let v = if increment { wrap16(r16(old(self).reg, p as int) + 1) } else { wrap16(r16(old(self).reg, p as int) - 1) };
            assert(result == v);
            reveal(block0_effect);
        }
    }

    fn block0_z45(&mut self, ins: &Instruction, bus: &mut Bus)
        requires
            old(bus).wf(),
            old(bus).has_room(6),
            ins.wf(),
            op_x(ins.def.byte) == 0 && (op_z(ins.def.byte) == 4 || op_z(ins.def.byte) == 5),
        ensures
            final(bus).wf(),
            block0_effect(*old(self), *ins, *old(bus), *final(self), *final(bus)),
            final(bus).timer.diff == old(bus).timer.diff + execute_m_cycles(*ins, old(self).reg.f),
    {
        proof {
            reveal(block0_effect);
        }
        let op = ins.def.byte;
        let y = (op / 8) % 8;
        let increment = op % 8 == 4;
        let mut r = self.reg;
        let mut f = r.f;
        if y == 6 {
            // INC (HL) / DEC (HL)
            let address = r.hl();
            let mut byte = bus.read_byte(address);
            if increment {
                crate::cpu::arithmetic::inc(&mut byte, &mut f);
            } else {
                crate::cpu::arithmetic::dec(&mut byte, &mut f);
            }
            bus.write_byte(address, byte);
            r.f = f;
        } else {
            // INC r / DEC r
            let mut byte = read_r8(&r, y);
            if increment {
                crate::cpu::arithmetic::inc(&mut byte, &mut f);
            } else {
                crate::cpu::arithmetic::dec(&mut byte, &mut f);
            }
            r.f = f;
            write_r8(&mut r, y, byte);
        }
        self.reg = r;
    }

    fn block0_z67(&mut self, ins: &Instruction, bus: &mut Bus)
        requires
            old(bus).wf(),
            old(bus).has_room(6),
            ins.wf(),
            op_x(ins.def.byte) == 0 && (op_z(ins.def.byte) == 6 || op_z(ins.def.byte) == 7),
        ensures
            final(bus).wf(),
            block0_effect(*old(self), *ins, *old(bus), *final(self), *final(bus)),
            final(bus).timer.diff == old(bus).timer.diff + execute_m_cycles(*ins, old(self).reg.f),
    {
        proof {
            reveal(block0_effect);
        }
        let op = ins.def.byte;
        let y = (op / 8) % 8;
        let mut r = self.reg;
        if op % 8 == 6 {
            let value = ins.imm8_value();
            if y == 6 {
                // LD (HL),d8
                bus.write_byte(r.hl(), value);
            } else {
                // LD r,d8
                write_r8(&mut r, y, value);
            }
        } else {
            match y {
                0 => r.rlca(),
                1 => r.rrca(),
                2 => r.rla(),
                3 => r.rra(),
                4 => r.daa(),
                5 => r.cpl(),
                6 => r.scf(),
                _ => r.ccf(),
            }
        }
        self.reg = r;
    }

}

impl Cpu {
    fn block1(&mut self, ins: &Instruction, bus: &mut Bus)
        requires
            old(bus).wf(),
            old(bus).has_room(6),
            ins.wf(),
            op_x(ins.def.byte) == 1,
        ensures
            final(bus).wf(),
            block12_effect(*old(self), *ins, *old(bus), *final(self), *final(bus)),
            final(bus).timer.diff == old(bus).timer.diff + execute_m_cycles(*ins, old(self).reg.f),
    {
        proof {
            reveal(block12_effect);
        }
        let op = ins.def.byte;
        let y = (op / 8) % 8;
        let z = op % 8;
        let mut r = self.reg;
        if op == 0x76 {
            // HALT, as the giibiiadvance documentation describes it.
            if bus.interrupts.enabled {
                // HALT executed normally.
                self.state = State::Halted;
            } else if !bus.interrupts.pending() {
                // HALT mode entered, but interrupts aren't serviced.
                self.state = State::Halted;
            } else {
                // HALT mode is not entered, and the HALT bug occurs.
                self.halt_bug = true;
            }
        } else if z == 6 {
            // LD r,(HL)
            let value = bus.read_byte(r.hl());
            write_r8(&mut r, y, value);
            self.reg = r;
        } else if y == 6 {
            // LD (HL),r
            bus.write_byte(r.hl(), read_r8(&r, z));
        } else {
            // LD r,r'
            let value = read_r8(&r, z);
            write_r8(&mut r, y, value);
            self.reg = r;
        }
    }

    fn block2(&mut self, ins: &Instruction, bus: &mut Bus)
        requires
            old(bus).wf(),
            old(bus).has_room(6),
            ins.wf(),
            op_x(ins.def.byte) == 2,
        ensures
            final(bus).wf(),
            block12_effect(*old(self), *ins, *old(bus), *final(self), *final(bus)),
            final(bus).timer.diff == old(bus).timer.diff + execute_m_cycles(*ins, old(self).reg.f),
    {
        proof {
            reveal(block12_effect);
        }
        let op = ins.def.byte;
        let y = (op / 8) % 8;
        let z = op % 8;
        let mut r = self.reg;
        let value = if z == 6 { bus.read_byte(r.hl()) } else { read_r8(&r, z) };
        alu(&mut r, y, value);
        self.reg = r;
    }

    #[verifier::spinoff_prover]
    #[verifier::rlimit(50)]
    fn block3_z0(&mut self, ins: &Instruction, bus: &mut Bus)
        requires
            old(bus).wf(),
            old(bus).has_room(6),
            ins.wf(),
            op_x(ins.def.byte) == 3 && op_z(ins.def.byte) == 0,
        ensures
            final(bus).wf(),
            block3_effect(*old(self), *ins, *old(bus), *final(self), *final(bus)),
            final(bus).timer.diff == old(bus).timer.diff + execute_m_cycles(*ins, old(self).reg.f),
    {
        proof {
            reveal(block3_effect);
        }
        let op = ins.def.byte;
        let y = (op / 8) % 8;
        if y < 4 {
            // RET cc
            // Internal delay
            bus.tick(MCycles(1));
            let ghost mid = *bus;
            if condition_holds(&self.reg.f, y) {
                self.ret(bus);
                let ghost popped = *bus;
                // Internal delay
                bus.tick(MCycles(1));
                assert(mid.read_word_cycles(old(self).reg.sp, self.reg.pc, popped));
            }
            assert(old(bus).tick_relation(1, mid));
        } else if y == 4 {
            // LDH (a8),A
            let address = 0xFF00u16 + ins.imm8_value() as u16;
            bus.write_byte(address, self.reg.a);
        } else if y == 5 {
            // ADD SP,r8
            let offset = signed_byte(ins.imm8_value());
            let mut r = self.reg;
            r.add_sp(offset);
            self.reg = r;
            // Internal delay
            bus.tick(MCycles(2));
        } else if y == 6 {
            // LDH A,(a8)
            let address = 0xFF00u16 + ins.imm8_value() as u16;
            self.reg.a = bus.read_byte(address);
        } else {
            // LD HL,SP+r8
            let offset = signed_byte(ins.imm8_value());
            let mut r = self.reg;
            r.ld_hl_sp_r8(offset);
            self.reg = r;
            // Internal delay
            bus.tick(MCycles(1));
        }
    }

}

impl Cpu {
    #[verifier::spinoff_prover]
    #[verifier::rlimit(50)]
    fn block3_pop(&mut self, ins: &Instruction, bus: &mut Bus)
        requires
            old(bus).wf(),
            old(bus).has_room(6),
            ins.wf(),
            op_x(ins.def.byte) == 3 && op_z(ins.def.byte) == 1 && op_q(ins.def.byte) == 0,
        ensures
            final(bus).wf(),
            block3_effect(*old(self), *ins, *old(bus), *final(self), *final(bus)),
            final(bus).timer.diff == old(bus).timer.diff + execute_m_cycles(*ins, old(self).reg.f),
    {
        proof {
            reveal(block3_effect);
        }
        let op = ins.def.byte;
        let p = (op / 16) % 4;
        assert(p == op_p(op));
        assert(execute_m_cycles(*ins, old(self).reg.f) == 2) by {
            assert(!crate::cpu::instructions::is_conditional(op));
            assert(crate::cpu::instructions::m_cycles_of(op) == 3);
            assert(operands_of(op) == 0);
        }
        // POP rr
        let value = self.pop(bus);
        let mut r = self.reg;
        if p == 3 {
            r.write_af(value);
        } else {
            write_r16(&mut r, p, value);
        }
        self.reg = r;
        assert(old(bus).read_word_cycles(old(self).reg.sp, value, *bus));
    }

    #[verifier::spinoff_prover]
    #[verifier::rlimit(50)]
    fn block3_z1(&mut self, ins: &Instruction, bus: &mut Bus)
        requires
            old(bus).wf(),
            old(bus).has_room(6),
            ins.wf(),
            op_x(ins.def.byte) == 3 && op_z(ins.def.byte) == 1 && op_q(ins.def.byte) == 1,
        ensures
            final(bus).wf(),
            block3_effect(*old(self), *ins, *old(bus), *final(self), *final(bus)),
            final(bus).timer.diff == old(bus).timer.diff + execute_m_cycles(*ins, old(self).reg.f),
    {
        proof {
            reveal(block3_effect);
        }
        let op = ins.def.byte;
        let p = (op / 16) % 4;
        assert(p == op_p(op));
        if p == 0 || p == 1 {
            // RET / RETI
            self.ret(bus);
            let ghost popped = *bus;
            if p == 1 {
                bus.interrupts.enabled = true;
            }
            // Internal delay
            bus.tick(MCycles(1));
            assert(old(bus).read_word_cycles(old(self).reg.sp, self.reg.pc, popped));
        } else if p == 2 {
            // JP (HL)
            self.reg.pc = self.reg.hl();
        } else {
            // LD SP,HL
            // Internal delay (not observable)
            bus.tick(MCycles(1));
            self.reg.sp = self.reg.hl();
        }
    }

    #[verifier::spinoff_prover]
    #[verifier::rlimit(50)]
    fn block3_z2(&mut self, ins: &Instruction, bus: &mut Bus)
        requires
            old(bus).wf(),
            old(bus).has_room(6),
            ins.wf(),
            op_x(ins.def.byte) == 3 && op_z(ins.def.byte) == 2,
        ensures
            final(bus).wf(),
            block3_effect(*old(self), *ins, *old(bus), *final(self), *final(bus)),
            final(bus).timer.diff == old(bus).timer.diff + execute_m_cycles(*ins, old(self).reg.f),
    {
        proof {
            reveal(block3_effect);
        }
        let op = ins.def.byte;
        let y = (op / 8) % 8;
        if y < 4 {
            // JP cc,a16
            if condition_holds(&self.reg.f, y) {
                self.reg.pc = ins.imm16_value();
                // Internal delay
                bus.tick(MCycles(1));
            }
        } else {
            let address = if y == 4 || y == 6 { 0xFF00u16 + self.reg.c as u16 } else { ins.imm16_value() };
            if y <= 5 {
                // LD (C),A / LD (a16),A
                bus.write_byte(address, self.reg.a);
            } else {
                // LD A,(C) / LD A,(a16)
                self.reg.a = bus.read_byte(address);
            }
        }
    }

    #[verifier::spinoff_prover]
    #[verifier::rlimit(50)]
    fn block3_z3(&mut self, ins: &Instruction, bus: &mut Bus)
        requires
            old(bus).wf(),
            old(bus).has_room(6),
            ins.wf(),
            op_x(ins.def.byte) == 3 && op_z(ins.def.byte) == 3,
        ensures
            final(bus).wf(),
            block3_effect(*old(self), *ins, *old(bus), *final(self), *final(bus)),
            final(bus).timer.diff == old(bus).timer.diff + execute_m_cycles(*ins, old(self).reg.f),
    {
        proof {
            reveal(block3_effect);
        }
        let op = ins.def.byte;
        let y = (op / 8) % 8;
        if y == 0 {
            // JP a16
            self.reg.pc = ins.imm16_value();
            // Internal delay
            bus.tick(MCycles(1));
        } else if y == 1 {
            // PREFIX CB
            self.execute_prefix(ins.imm8_value(), bus);
        } else if y == 6 || y == 7 {
            // DI / EI
            bus.interrupts.enabled = y == 7;
        } else {
            // Unused instructions
            self.state = State::Locked;
        }
    }

    #[verifier::spinoff_prover]
    #[verifier::rlimit(50)]
    fn block3_z45(&mut self, ins: &Instruction, bus: &mut Bus)
        requires
            old(bus).wf(),
            old(bus).has_room(6),
            ins.wf(),
            op_x(ins.def.byte) == 3 && (op_z(ins.def.byte) == 4 || op_z(ins.def.byte) == 5),
        ensures
            final(bus).wf(),
            block3_effect(*old(self), *ins, *old(bus), *final(self), *final(bus)),
            final(bus).timer.diff == old(bus).timer.diff + execute_m_cycles(*ins, old(self).reg.f),
    {
        proof {
            reveal(block3_effect);
        }
        let op = ins.def.byte;
        let y = (op / 8) % 8;
        let z = op % 8;
        let call = if z == 4 && y < 4 { condition_holds(&self.reg.f, y) } else { z == 5 && y == 1 };
        if call {
            // CALL cc,a16 / CALL a16
            let address = ins.imm16_value();
            // Internal delay
            bus.tick(MCycles(1));
            let ghost mid = *bus;
            self.call(address, bus);
            assert(old(bus).tick_relation(1, mid));
        } else if z == 4 && y < 4 {
            // The condition does not hold.
        } else if z == 5 && y % 2 == 0 {
            // PUSH rr
            let p = y / 2;
            // Internal delay
            bus.tick(MCycles(1));
            let ghost mid = *bus;
            let value = if p == 3 { self.reg.af() } else { read_r16(&self.reg, p) };
            self.push(value, bus);
            assert(old(bus).tick_relation(1, mid));
        } else {
            // Unused instructions
            self.state = State::Locked;
        }
    }

    #[verifier::spinoff_prover]
    #[verifier::rlimit(50)]
    fn block3_z67(&mut self, ins: &Instruction, bus: &mut Bus)
        requires
            old(bus).wf(),
            old(bus).has_room(6),
            ins.wf(),
            op_x(ins.def.byte) == 3 && (op_z(ins.def.byte) == 6 || op_z(ins.def.byte) == 7),
        ensures
            final(bus).wf(),
            block3_effect(*old(self), *ins, *old(bus), *final(self), *final(bus)),
            final(bus).timer.diff == old(bus).timer.diff + execute_m_cycles(*ins, old(self).reg.f),
    {
        proof {
            reveal(block3_effect);
        }
        let op = ins.def.byte;
        let y = (op / 8) % 8;
        if op % 8 == 6 {
            // ALU A,d8
            let mut r = self.reg;
            alu(&mut r, y, ins.imm8_value());
            self.reg = r;
        } else {
            // RST
            // Internal delay
            bus.tick(MCycles(1));
            let ghost mid = *bus;
            self.rst((y * 8) as u16, bus);
            assert(old(bus).tick_relation(1, mid));
        }
    }

    /// Executes a prefix (`0xCB`) instruction, by its byte.
    pub fn execute_prefix(&mut self, instruction: u8, bus: &mut Bus)
        requires
            old(bus).wf(),
            old(bus).has_room(2),
        ensures
            final(bus).wf(),
            prefix_effect(*old(self), instruction, *old(bus), *final(self), *final(bus)),
            final(bus).timer.diff == old(bus).timer.diff + crate::cpu::instructions::prefix_m_cycles_of(instruction) - 2,
    {
        let z = instruction % 8;
        let mut r = self.reg;
        let mut f = r.f;
        if z != 6 {
            let value = prefix_operation(instruction, read_r8(&r, z), &mut f);
            r.f = f;
            write_r8(&mut r, z, value);
        } else {
            let address = r.hl();
            let byte = bus.read_byte(address);
            let value = prefix_operation(instruction, byte, &mut f);
            r.f = f;
            if instruction / 64 != 1 {
                bus.write_byte(address, value);
            }
        }
        self.reg = r;
    }
}

/// The number of M-cycles an instruction takes, fetch included: its cycles, or its condition's
/// cycles when the condition holds under flags `f`, or the cycles of the prefix instruction it
/// holds.
pub open spec fn instruction_m_cycles(ins: Instruction, f: Flags) -> int {
    if ins.def.byte == 0xCB {
        ins.spec_cycles().0 as int / 4
    } else if taken(ins.def.byte, f) {
        ins.def.condition_cycles->Some_0.0 as int / 4
    } else {
        ins.def.cycles.0 as int / 4
    }
}

/// An instruction's time splits into one M-cycle per byte fetched and the time it executes.
pub proof fn lemma_instruction_time(ins: Instruction, f: Flags)
    requires
        ins.wf(),
    ensures
        instruction_m_cycles(ins, f) == 1 + ins.def.num_operands + execute_m_cycles(ins, f),
{
}

/// An instruction does what its description says of moves between `A` and memory: one
/// described as a store of `A` (`LD (..),A` or `LDH (..),A`) writes the value `A` had to some
/// address, one M-cycle passing, and leaves `A` as it was; one described as a load of `A`
/// (`LD A,(..)` or `LDH A,(..)`) reads some address, one M-cycle passing, and puts the byte read
/// in `A`.
pub proof fn lemma_move_direction(cpu: Cpu, ins: Instruction, bus: Bus, after: Cpu, bus_after: Bus)
    requires
        ins.wf(),
        execute_effect(cpu, ins, bus, after, bus_after),
    ensures
        crate::cpu::instructions::describes_store_of_a(ins.def.description@) ==> {
            &&& after.reg.a == cpu.reg.a
            &&& exists|address: u16| #[trigger] bus.write_cycle(address, cpu.reg.a, bus_after)
        },
        crate::cpu::instructions::describes_load_of_a(ins.def.description@) ==> exists|address: u16| {
            &&& #[trigger] bus.read_cycle(address, bus.spec_read(address), bus_after)
            &&& after.reg.a == bus.spec_read(address)
        },
{
    let op = ins.def.byte;
    crate::cpu::instructions::lemma_move_descriptions(op);
    if crate::cpu::instructions::is_a_store_opcode(op) {
        lemma_store_of_a(cpu, ins, bus, after, bus_after);
    }
    if crate::cpu::instructions::is_a_load_opcode(op) {
        lemma_load_of_a(cpu, ins, bus, after, bus_after);
    }
}

/// The stores of `A` write it to memory.
proof fn lemma_store_of_a(cpu: Cpu, ins: Instruction, bus: Bus, after: Cpu, bus_after: Bus)
    requires
        execute_effect(cpu, ins, bus, after, bus_after),
        crate::cpu::instructions::is_a_store_opcode(ins.def.byte),
    ensures
        after.reg.a == cpu.reg.a,
        exists|address: u16| #[trigger] bus.write_cycle(address, cpu.reg.a, bus_after),
{
    if ins.def.byte == 0x02 {
        lemma_store_02(cpu, ins, bus, after, bus_after);
    } else if ins.def.byte == 0x12 {
        lemma_store_12(cpu, ins, bus, after, bus_after);
    } else if ins.def.byte == 0x22 {
        lemma_store_22(cpu, ins, bus, after, bus_after);
    } else if ins.def.byte == 0x32 {
        lemma_store_32(cpu, ins, bus, after, bus_after);
    } else if ins.def.byte == 0x77 {
        lemma_store_77(cpu, ins, bus, after, bus_after);
    } else if ins.def.byte == 0xe0 {
        lemma_store_e0(cpu, ins, bus, after, bus_after);
    } else if ins.def.byte == 0xe2 {
        lemma_store_e2(cpu, ins, bus, after, bus_after);
    } else if ins.def.byte == 0xea {
        lemma_store_ea(cpu, ins, bus, after, bus_after);
    }
}

/// The loads of `A` read it from memory.
proof fn lemma_load_of_a(cpu: Cpu, ins: Instruction, bus: Bus, after: Cpu, bus_after: Bus)
    requires
        execute_effect(cpu, ins, bus, after, bus_after),
        crate::cpu::instructions::is_a_load_opcode(ins.def.byte),
    ensures
        exists|address: u16| {
            &&& #[trigger] bus.read_cycle(address, bus.spec_read(address), bus_after)
            &&& after.reg.a == bus.spec_read(address)
        },
{
    if ins.def.byte == 0x0a {
        lemma_load_0a(cpu, ins, bus, after, bus_after);
    } else if ins.def.byte == 0x1a {
        lemma_load_1a(cpu, ins, bus, after, bus_after);
    } else if ins.def.byte == 0x2a {
        lemma_load_2a(cpu, ins, bus, after, bus_after);
    } else if ins.def.byte == 0x3a {
        lemma_load_3a(cpu, ins, bus, after, bus_after);
    } else if ins.def.byte == 0x7e {
        lemma_load_7e(cpu, ins, bus, after, bus_after);
    } else if ins.def.byte == 0xf0 {
        lemma_load_f0(cpu, ins, bus, after, bus_after);
    } else if ins.def.byte == 0xf2 {
        lemma_load_f2(cpu, ins, bus, after, bus_after);
    } else if ins.def.byte == 0xfa {
        lemma_load_fa(cpu, ins, bus, after, bus_after);
    }
}

/// Opcode 0x02 writes `A` to memory.
#[verifier::spinoff_prover]
proof fn lemma_store_02(cpu: Cpu, ins: Instruction, bus: Bus, after: Cpu, bus_after: Bus)
    requires
        ins.def.byte == 0x02,
        execute_effect(cpu, ins, bus, after, bus_after),
    ensures
        after.reg.a == cpu.reg.a,
        exists|address: u16| #[trigger] bus.write_cycle(address, cpu.reg.a, bus_after),
{
    reveal(block0_effect);
    let c = advanced(cpu, ins.def.num_operands);
    let r = c.reg;
    assert(op_x(ins.def.byte) == 0 && op_y(ins.def.byte) == 0 && op_z(ins.def.byte) == 2);
    assert(bus.write_cycle(word(r.b, r.c), cpu.reg.a, bus_after));
}

/// Opcode 0x12 writes `A` to memory.
#[verifier::spinoff_prover]
proof fn lemma_store_12(cpu: Cpu, ins: Instruction, bus: Bus, after: Cpu, bus_after: Bus)
    requires
        ins.def.byte == 0x12,
        execute_effect(cpu, ins, bus, after, bus_after),
    ensures
        after.reg.a == cpu.reg.a,
        exists|address: u16| #[trigger] bus.write_cycle(address, cpu.reg.a, bus_after),
{
    reveal(block0_effect);
    let c = advanced(cpu, ins.def.num_operands);
    let r = c.reg;
    assert(op_x(ins.def.byte) == 0 && op_y(ins.def.byte) == 2 && op_z(ins.def.byte) == 2);
    assert(bus.write_cycle(word(r.d, r.e), cpu.reg.a, bus_after));
}

/// Opcode 0x22 writes `A` to memory.
#[verifier::spinoff_prover]
proof fn lemma_store_22(cpu: Cpu, ins: Instruction, bus: Bus, after: Cpu, bus_after: Bus)
    requires
        ins.def.byte == 0x22,
        execute_effect(cpu, ins, bus, after, bus_after),
    ensures
        after.reg.a == cpu.reg.a,
        exists|address: u16| #[trigger] bus.write_cycle(address, cpu.reg.a, bus_after),
{
    reveal(block0_effect);
    let c = advanced(cpu, ins.def.num_operands);
    let r = c.reg;
    assert(op_x(ins.def.byte) == 0 && op_y(ins.def.byte) == 4 && op_z(ins.def.byte) == 2);
    assert(bus.write_cycle(word(r.h, r.l), cpu.reg.a, bus_after));
}

/// Opcode 0x32 writes `A` to memory.
#[verifier::spinoff_prover]
proof fn lemma_store_32(cpu: Cpu, ins: Instruction, bus: Bus, after: Cpu, bus_after: Bus)
    requires
        ins.def.byte == 0x32,
        execute_effect(cpu, ins, bus, after, bus_after),
    ensures
        after.reg.a == cpu.reg.a,
        exists|address: u16| #[trigger] bus.write_cycle(address, cpu.reg.a, bus_after),
{
    reveal(block0_effect);
    let c = advanced(cpu, ins.def.num_operands);
    let r = c.reg;
    assert(op_x(ins.def.byte) == 0 && op_y(ins.def.byte) == 6 && op_z(ins.def.byte) == 2);
    assert(bus.write_cycle(word(r.h, r.l), cpu.reg.a, bus_after));
}

/// Opcode 0x77 writes `A` to memory.
#[verifier::spinoff_prover]
proof fn lemma_store_77(cpu: Cpu, ins: Instruction, bus: Bus, after: Cpu, bus_after: Bus)
    requires
        ins.def.byte == 0x77,
        execute_effect(cpu, ins, bus, after, bus_after),
    ensures
        after.reg.a == cpu.reg.a,
        exists|address: u16| #[trigger] bus.write_cycle(address, cpu.reg.a, bus_after),
{
    reveal(block12_effect);
    let c = advanced(cpu, ins.def.num_operands);
    let r = c.reg;
    assert(op_x(ins.def.byte) == 1 && op_y(ins.def.byte) == 6 && op_z(ins.def.byte) == 7);
    assert(bus.write_cycle(word(r.h, r.l), cpu.reg.a, bus_after));
}

/// Opcode 0xe0 writes `A` to memory.
#[verifier::spinoff_prover]
proof fn lemma_store_e0(cpu: Cpu, ins: Instruction, bus: Bus, after: Cpu, bus_after: Bus)
    requires
        ins.def.byte == 0xe0,
        execute_effect(cpu, ins, bus, after, bus_after),
    ensures
        after.reg.a == cpu.reg.a,
        exists|address: u16| #[trigger] bus.write_cycle(address, cpu.reg.a, bus_after),
{
    reveal(block3_effect);
    let c = advanced(cpu, ins.def.num_operands);
    let r = c.reg;
    assert(op_x(ins.def.byte) == 3 && op_y(ins.def.byte) == 4 && op_z(ins.def.byte) == 0);
    assert(bus.write_cycle(high_page(ins.imm8()), cpu.reg.a, bus_after));
}

/// Opcode 0xe2 writes `A` to memory.
#[verifier::spinoff_prover]
proof fn lemma_store_e2(cpu: Cpu, ins: Instruction, bus: Bus, after: Cpu, bus_after: Bus)
    requires
        ins.def.byte == 0xe2,
        execute_effect(cpu, ins, bus, after, bus_after),
    ensures
        after.reg.a == cpu.reg.a,
        exists|address: u16| #[trigger] bus.write_cycle(address, cpu.reg.a, bus_after),
{
    reveal(block3_effect);
    let c = advanced(cpu, ins.def.num_operands);
    let r = c.reg;
    assert(op_x(ins.def.byte) == 3 && op_y(ins.def.byte) == 4 && op_z(ins.def.byte) == 2);
    assert(bus.write_cycle(high_page(r.c), cpu.reg.a, bus_after));
}

/// Opcode 0xea writes `A` to memory.
#[verifier::spinoff_prover]
proof fn lemma_store_ea(cpu: Cpu, ins: Instruction, bus: Bus, after: Cpu, bus_after: Bus)
    requires
        ins.def.byte == 0xea,
        execute_effect(cpu, ins, bus, after, bus_after),
    ensures
        after.reg.a == cpu.reg.a,
        exists|address: u16| #[trigger] bus.write_cycle(address, cpu.reg.a, bus_after),
{
    reveal(block3_effect);
    let c = advanced(cpu, ins.def.num_operands);
    let r = c.reg;
    assert(op_x(ins.def.byte) == 3 && op_y(ins.def.byte) == 5 && op_z(ins.def.byte) == 2);
    assert(bus.write_cycle(ins.imm16(), cpu.reg.a, bus_after));
}

/// Opcode 0x0a reads `A` from memory.
#[verifier::spinoff_prover]
proof fn lemma_load_0a(cpu: Cpu, ins: Instruction, bus: Bus, after: Cpu, bus_after: Bus)
    requires
        ins.def.byte == 0x0a,
        execute_effect(cpu, ins, bus, after, bus_after),
    ensures
        exists|address: u16| {
            &&& #[trigger] bus.read_cycle(address, bus.spec_read(address), bus_after)
            &&& after.reg.a == bus.spec_read(address)
        },
{
    reveal(block0_effect);
    let c = advanced(cpu, ins.def.num_operands);
    let r = c.reg;
    assert(op_x(ins.def.byte) == 0 && op_y(ins.def.byte) == 1 && op_z(ins.def.byte) == 2);
    assert(bus.read_cycle(word(r.b, r.c), bus.spec_read(word(r.b, r.c)), bus_after));
}

/// Opcode 0x1a reads `A` from memory.
#[verifier::spinoff_prover]
proof fn lemma_load_1a(cpu: Cpu, ins: Instruction, bus: Bus, after: Cpu, bus_after: Bus)
    requires
        ins.def.byte == 0x1a,
        execute_effect(cpu, ins, bus, after, bus_after),
    ensures
        exists|address: u16| {
            &&& #[trigger] bus.read_cycle(address, bus.spec_read(address), bus_after)
            &&& after.reg.a == bus.spec_read(address)
        },
{
    reveal(block0_effect);
    let c = advanced(cpu, ins.def.num_operands);
    let r = c.reg;
    assert(op_x(ins.def.byte) == 0 && op_y(ins.def.byte) == 3 && op_z(ins.def.byte) == 2);
    assert(bus.read_cycle(word(r.d, r.e), bus.spec_read(word(r.d, r.e)), bus_after));
}

/// Opcode 0x2a reads `A` from memory.
#[verifier::spinoff_prover]
proof fn lemma_load_2a(cpu: Cpu, ins: Instruction, bus: Bus, after: Cpu, bus_after: Bus)
    requires
        ins.def.byte == 0x2a,
        execute_effect(cpu, ins, bus, after, bus_after),
    ensures
        exists|address: u16| {
            &&& #[trigger] bus.read_cycle(address, bus.spec_read(address), bus_after)
            &&& after.reg.a == bus.spec_read(address)
        },
{
    reveal(block0_effect);
    let c = advanced(cpu, ins.def.num_operands);
    let r = c.reg;
    assert(op_x(ins.def.byte) == 0 && op_y(ins.def.byte) == 5 && op_z(ins.def.byte) == 2);
    assert(bus.read_cycle(word(r.h, r.l), bus.spec_read(word(r.h, r.l)), bus_after));
}

/// Opcode 0x3a reads `A` from memory.
#[verifier::spinoff_prover]
proof fn lemma_load_3a(cpu: Cpu, ins: Instruction, bus: Bus, after: Cpu, bus_after: Bus)
    requires
        ins.def.byte == 0x3a,
        execute_effect(cpu, ins, bus, after, bus_after),
    ensures
        exists|address: u16| {
            &&& #[trigger] bus.read_cycle(address, bus.spec_read(address), bus_after)
            &&& after.reg.a == bus.spec_read(address)
        },
{
    reveal(block0_effect);
    let c = advanced(cpu, ins.def.num_operands);
    let r = c.reg;
    assert(op_x(ins.def.byte) == 0 && op_y(ins.def.byte) == 7 && op_z(ins.def.byte) == 2);
    assert(bus.read_cycle(word(r.h, r.l), bus.spec_read(word(r.h, r.l)), bus_after));
}

/// Opcode 0x7e reads `A` from memory.
#[verifier::spinoff_prover]
proof fn lemma_load_7e(cpu: Cpu, ins: Instruction, bus: Bus, after: Cpu, bus_after: Bus)
    requires
        ins.def.byte == 0x7e,
        execute_effect(cpu, ins, bus, after, bus_after),
    ensures
        exists|address: u16| {
            &&& #[trigger] bus.read_cycle(address, bus.spec_read(address), bus_after)
            &&& after.reg.a == bus.spec_read(address)
        },
{
    reveal(block12_effect);
    let c = advanced(cpu, ins.def.num_operands);
    let r = c.reg;
    assert(op_x(ins.def.byte) == 1 && op_y(ins.def.byte) == 7 && op_z(ins.def.byte) == 6);
    assert(bus.read_cycle(word(r.h, r.l), bus.spec_read(word(r.h, r.l)), bus_after));
}

/// Opcode 0xf0 reads `A` from memory.
#[verifier::spinoff_prover]
proof fn lemma_load_f0(cpu: Cpu, ins: Instruction, bus: Bus, after: Cpu, bus_after: Bus)
    requires
        ins.def.byte == 0xf0,
        execute_effect(cpu, ins, bus, after, bus_after),
    ensures
        exists|address: u16| {
            &&& #[trigger] bus.read_cycle(address, bus.spec_read(address), bus_after)
            &&& after.reg.a == bus.spec_read(address)
        },
{
    reveal(block3_effect);
    let c = advanced(cpu, ins.def.num_operands);
    let r = c.reg;
    assert(op_x(ins.def.byte) == 3 && op_y(ins.def.byte) == 6 && op_z(ins.def.byte) == 0);
    assert(bus.read_cycle(high_page(ins.imm8()), bus.spec_read(high_page(ins.imm8())), bus_after));
}

/// Opcode 0xf2 reads `A` from memory.
#[verifier::spinoff_prover]
proof fn lemma_load_f2(cpu: Cpu, ins: Instruction, bus: Bus, after: Cpu, bus_after: Bus)
    requires
        ins.def.byte == 0xf2,
        execute_effect(cpu, ins, bus, after, bus_after),
    ensures
        exists|address: u16| {
            &&& #[trigger] bus.read_cycle(address, bus.spec_read(address), bus_after)
            &&& after.reg.a == bus.spec_read(address)
        },
{
    reveal(block3_effect);
    let c = advanced(cpu, ins.def.num_operands);
    let r = c.reg;
    assert(op_x(ins.def.byte) == 3 && op_y(ins.def.byte) == 6 && op_z(ins.def.byte) == 2);
    assert(bus.read_cycle(high_page(r.c), bus.spec_read(high_page(r.c)), bus_after));
}

/// Opcode 0xfa reads `A` from memory.
#[verifier::spinoff_prover]
proof fn lemma_load_fa(cpu: Cpu, ins: Instruction, bus: Bus, after: Cpu, bus_after: Bus)
    requires
        ins.def.byte == 0xfa,
        execute_effect(cpu, ins, bus, after, bus_after),
    ensures
        exists|address: u16| {
            &&& #[trigger] bus.read_cycle(address, bus.spec_read(address), bus_after)
            &&& after.reg.a == bus.spec_read(address)
        },
{
    reveal(block3_effect);
    let c = advanced(cpu, ins.def.num_operands);
    let r = c.reg;
    assert(op_x(ins.def.byte) == 3 && op_y(ins.def.byte) == 7 && op_z(ins.def.byte) == 2);
    assert(bus.read_cycle(ins.imm16(), bus.spec_read(ins.imm16()), bus_after));
}

impl Cpu {
    /// Executes an instruction: the program counter moves past it (unless the `HALT` bug holds
    /// it back), then the instruction does its work, ticking the bus for every memory access
    /// and internal delay.
    pub fn execute(&mut self, instruction: &Instruction, bus: &mut Bus)
        requires
            old(bus).wf(),
            old(bus).has_room(6),
            instruction.wf(),
        ensures
            final(bus).wf(),
            execute_effect(*old(self), *instruction, *old(bus), *final(self), *final(bus)),
            final(bus).timer.diff == old(bus).timer.diff + execute_m_cycles(*instruction, old(self).reg.f),
    {
        if !self.halt_bug {
            // Increment the program counter (PC) *before* executing the instruction: relative
            // jumps and other PC-related instructions assume that it points at the next one.
            self.reg.pc = self.reg.pc.wrapping_add(1 + instruction.def.num_operands as u16);
        } else {
            self.halt_bug = false;
        }
        let op = instruction.def.byte;
        let x = op / 64;
        let z = op % 8;
        if x == 0 {
            if z == 0 {
                self.block0_z0(instruction, bus);
            } else if z == 1 {
                self.block0_z1(instruction, bus);
            } else if z == 2 {
                if (op / 8) % 2 == 0 {
                    self.block0_z2_store(instruction, bus);
                } else {
                    self.block0_z2_load(instruction, bus);
                }
            } else if z == 3 {
                self.block0_z3(instruction, bus);
            } else if z == 4 || z == 5 {
                self.block0_z45(instruction, bus);
            } else {
                self.block0_z67(instruction, bus);
            }
        } else if x == 1 {
            self.block1(instruction, bus);
        } else if x == 2 {
            self.block2(instruction, bus);
        } else if z == 0 {
            self.block3_z0(instruction, bus);
        } else if z == 1 {
            if (op / 8) % 2 == 0 {
                self.block3_pop(instruction, bus);
            } else {
                self.block3_z1(instruction, bus);
            }
        } else if z == 2 {
            self.block3_z2(instruction, bus);
        } else if z == 3 {
            self.block3_z3(instruction, bus);
        } else if z == 4 || z == 5 {
            self.block3_z45(instruction, bus);
        } else {
            self.block3_z67(instruction, bus);
        }
    }
}

} // verus!
