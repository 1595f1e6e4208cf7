//! The CPU instruction set: instruction definitions, decoding and execution.
//!
//! Information concerning instruction definitions and implementations can be found on devrs
//! (<http://www.devrs.com/gb/files/opcodes.html>).

use vstd::prelude::*;

use smallvec::SmallVec;

use crate::bytes::{read_u16_le, word};
use crate::text::{hex_digits, push_hex};
use crate::bus::Bus;
use crate::cpu::{Cpu, TCycles};

verus! {

/// The operands of an instruction, held in a `SmallVec` with room for two bytes inline.
#[verifier::external_body]
#[derive(Debug)]
pub struct Operands {
    bytes: SmallVec<[u8; 2]>,
}

/// The bytes that a vector of operands holds, in order.
pub uninterp spec fn operand_bytes(v: Operands) -> Seq<u8>;

impl Clone for Operands {
    /// Calls `SmallVec::clone`, which holds the same items in the same order.
    #[verifier::external_body]
    fn clone(&self) -> (r: Operands)
        ensures
            operand_bytes(r) == operand_bytes(*self),
    {
        Operands { bytes: self.bytes.clone() }
    }
}

/// Copies a slice into a new vector: calls `SmallVec::from_slice`, which holds the slice's
/// items in order.
#[verifier::external_body]
fn operands_from_slice(slice: &[u8]) -> (r: Operands)
    ensures
        operand_bytes(r) == slice@,
{
    Operands { bytes: SmallVec::from_slice(slice) }
}

/// An empty vector of operands: calls `SmallVec::new`, which holds no item.
#[verifier::external_body]
fn operands_new() -> (r: Operands)
    ensures
        operand_bytes(r) == Seq::<u8>::empty(),
{
    Operands { bytes: SmallVec::new() }
}

/// Calls `SmallVec::push`, which appends the byte after the items held.
#[verifier::external_body]
fn operands_push(v: &mut Operands, byte: u8)
    ensures
        operand_bytes(*final(v)) == operand_bytes(*old(v)).push(byte),
{
    v.bytes.push(byte);
}

/// Calls `SmallVec::len`, the number of items held.
#[verifier::external_body]
fn operands_len(v: &Operands) -> (r: usize)
    ensures
        r == operand_bytes(*v).len(),
{
    v.bytes.len()
}

/// Indexes the vector (`Index` of `SmallVec`, through its slice): the item at `index`.
#[verifier::external_body]
fn operands_get(v: &Operands, index: usize) -> (r: u8)
    requires
        index < operand_bytes(*v).len(),
    ensures
        r == operand_bytes(*v)[index as int],
{
    v.bytes[index]
}

/// A definition of a single instruction.
#[derive(Debug, Clone, Copy, PartialEq, Eq)]
pub struct InstructionDef {
    /// The byte that identifies this instruction.
    pub byte: u8,
    /// A short, human readable representation of the instruction in Z80 assembly syntax.
    pub description: &'static str,
    /// The number of clock cycles it takes to execute this instruction.
    ///
    /// Prefix instructions have a cycle count of 0 in this representation: the `cycles` method
    /// of `Instruction` gives theirs.
    pub cycles: TCycles,
    /// The number of clock cycles it takes to execute this instruction if the instruction's
    /// condition is true. Only conditional instructions have this field set.
    pub condition_cycles: Option<TCycles>,
    /// The number of operands that this instruction uses.
    pub num_operands: u8,
}

/// A definition of a prefix (`0xCB`) instruction. These take no operand of their own and 8,
/// 12 or 16 cycles each.
#[derive(Debug, Clone, Copy, PartialEq, Eq)]
pub struct PrefixInstructionDef {
    /// The byte that identifies this prefix instruction.
    pub byte: u8,
    /// A short, human readable representation of the prefix instruction in Z80 assembly syntax.
    pub description: &'static str,
    /// The number of clock cycles it takes to execute this instruction.
    pub cycles: TCycles,
}

/// The block of an opcode: bits 6-7.
pub open spec fn op_x(op: u8) -> int {
    op as int / 64
}

/// The middle field of an opcode: bits 3-5.
pub open spec fn op_y(op: u8) -> int {
    (op as int / 8) % 8
}

/// The low field of an opcode: bits 0-2.
pub open spec fn op_z(op: u8) -> int {
    op as int % 8
}

/// The register pair field of an opcode: bits 4-5.
pub open spec fn op_p(op: u8) -> int {
    op_y(op) / 2
}

/// Bit 3 of an opcode.
pub open spec fn op_q(op: u8) -> int {
    op_y(op) % 2
}

/// The number of M-cycles an instruction takes, its condition false where it has one.
pub open spec fn m_cycles_of(op: u8) -> int {
    let (x, y, z, p, q) = (op_x(op), op_y(op), op_z(op), op_p(op), op_q(op));
    if x == 0 {
        if z == 0 {
            if y == 1 { 5 } else if y == 3 { 3 } else if y >= 4 { 2 } else { 1 }
        } else if z == 1 {
            if q == 0 { 3 } else { 2 }
        } else if z == 2 || z == 3 {
            2
        } else if z == 4 || z == 5 {
            if y == 6 { 3 } else { 1 }
        } else if z == 6 {
            if y == 6 { 3 } else { 2 }
        } else {
            1
        }
    } else if x == 1 {
        if op == 0x76 { 1 } else if y == 6 || z == 6 { 2 } else { 1 }
    } else if x == 2 {
        if z == 6 { 2 } else { 1 }
    } else if z == 0 {
        if y < 4 { 2 } else if y == 5 { 4 } else { 3 }
    } else if z == 1 {
        if q == 0 { 3 } else if p <= 1 { 4 } else if p == 2 { 1 } else { 2 }
    } else if z == 2 {
        if y < 4 { 3 } else if y == 4 || y == 6 { 2 } else { 4 }
    } else if z == 3 {
        if y == 0 { 4 } else { 1 }
    } else if z == 4 {
        if y < 4 { 3 } else { 1 }
    } else if z == 5 {
        if q == 0 { 4 } else if p == 0 { 6 } else { 1 }
    } else if z == 6 {
        2
    } else {
        4
    }
}

/// Whether an instruction has a condition: `JR cc`, `RET cc`, `JP cc` and `CALL cc`.
pub open spec fn is_conditional(op: u8) -> bool {
    (op_x(op) == 0 && op_z(op) == 0 && op_y(op) >= 4) || (op_x(op) == 3 && op_y(op) < 4 && (op_z(op) == 0
        || op_z(op) == 2 || op_z(op) == 4))
}

/// The number of M-cycles a conditional instruction takes when its condition holds.
pub open spec fn taken_m_cycles_of(op: u8) -> int {
    if op_x(op) == 0 { 3 } else if op_z(op) == 0 { 5 } else if op_z(op) == 2 { 4 } else { 6 }
}

/// The number of operand bytes that follow an opcode.
pub open spec fn operands_of(op: u8) -> u8 {
    let (x, y, z, q) = (op_x(op), op_y(op), op_z(op), op_q(op));
    if x == 0 {
        if z == 0 {
            if y == 1 { 2 } else if y >= 3 { 1 } else { 0 }
        } else if z == 1 {
            if q == 0 { 2 } else { 0 }
        } else if z == 6 {
            1
        } else {
            0
        }
    } else if x == 1 || x == 2 {
        0
    } else if z == 0 {
        if y >= 4 { 1 } else { 0 }
    } else if z == 2 {
        if y < 4 || y == 5 || y == 7 { 2 } else { 0 }
    } else if z == 3 {
        if y == 0 { 2 } else if y == 1 { 1 } else { 0 }
    } else if z == 4 {
        if y < 4 { 2 } else { 0 }
    } else if z == 5 {
        if y == 1 { 2 } else { 0 }
    } else if z == 6 {
        1
    } else {
        0
    }
}

/// The definition of the instruction with a given byte.
pub open spec fn spec_instruction_def(byte: u8) -> InstructionDef {
    InstructionDef {
        byte,
        description: description_of(byte),
        num_operands: operands_of(byte),
        cycles: TCycles(if byte == 0xCB { 0 } else { (4 * m_cycles_of(byte)) as u32 }),
        condition_cycles: if is_conditional(byte) {
            Some(TCycles((4 * taken_m_cycles_of(byte)) as u32))
        } else {
            None
        },
    }
}

/// The number of M-cycles a prefix instruction takes, its fetch included: 4 when it reads and
/// writes `(HL)`, 3 for `BIT n,(HL)`, which only reads it, and 2 otherwise.
pub open spec fn prefix_m_cycles_of(op: u8) -> int {
    if op_z(op) == 6 {
        if op_x(op) == 1 { 3 } else { 4 }
    } else {
        2
    }
}

/// The definition of the prefix instruction with a given byte.
pub open spec fn spec_prefix_instruction_def(byte: u8) -> PrefixInstructionDef {
    PrefixInstructionDef {
        byte,
        description: prefix_description_of(byte),
        cycles: TCycles((4 * prefix_m_cycles_of(byte)) as u32),
    }
}

/// A single instruction to be executed by the CPU.
#[derive(Debug)]
pub struct Instruction {
    /// The definition of the instruction.
    pub def: InstructionDef,
    /// The operands of the instruction. May be empty.
    pub operands: Operands,
}

impl Clone for Instruction {
    /// The same definition and the same operands.
    fn clone(&self) -> (r: Instruction)
        ensures
            r.def == self.def,
            operand_bytes(r.operands) == operand_bytes(self.operands),
    {
        Instruction { def: self.def, operands: self.operands.clone() }
    }
}

impl Instruction {
    /// The definition comes from the instruction set and the operands are as many as it says.
    pub open spec fn wf(self) -> bool {
        &&& self.def == spec_instruction_def(self.def.byte)
        &&& operand_bytes(self.operands).len() == self.def.num_operands
    }

    /// The first operand.
    pub open spec fn imm8(self) -> u8 {
        operand_bytes(self.operands)[0]
    }

    /// The two operands as a little-endian word.
    pub open spec fn imm16(self) -> u16 {
        word(operand_bytes(self.operands)[1], operand_bytes(self.operands)[0])
    }

    /// The number of clock cycles this instruction takes, its condition false where it has one.
    pub open spec fn spec_cycles(self) -> TCycles {
        if self.def.byte == 0xCB {
            spec_prefix_instruction_def(self.imm8()).cycles
        } else {
            self.def.cycles
        }
    }

    /// The instruction with the given byte and operands.
    pub fn new(byte: u8, operands: &[u8]) -> (r: Instruction)
        ensures
            r.def == spec_instruction_def(byte),
            operand_bytes(r.operands) == operands@,
            operands@.len() == operands_of(byte) ==> r.wf(),
    {
        Instruction { def: instruction_def(byte), operands: operands_from_slice(operands) }
    }

    /// The number of operand bytes this instruction holds.
    pub fn operand_count(&self) -> (r: usize)
        ensures
            r == operand_bytes(self.operands).len(),
    {
        operands_len(&self.operands)
    }

    /// The operand byte at `index`.
    pub fn operand(&self, index: usize) -> (r: u8)
        requires
            index < operand_bytes(self.operands).len(),
        ensures
            r == operand_bytes(self.operands)[index as int],
    {
        operands_get(&self.operands, index)
    }

    /// The number of clock cycles it takes to execute this instruction.
    pub fn cycles(&self) -> (r: TCycles)
        requires
            self.wf(),
        ensures
            r == self.spec_cycles(),
    {
        if self.def.byte == 0xCB {
            prefix_instruction_def(operands_get(&self.operands, 0)).cycles
        } else {
            self.def.cycles
        }
    }

    /// The first operand.
    pub fn imm8_value(&self) -> (r: u8)
        requires
            operand_bytes(self.operands).len() >= 1,
        ensures
            r == self.imm8(),
    {
        operands_get(&self.operands, 0)
    }

    /// The two operands as a little-endian word.
    pub fn imm16_value(&self) -> (r: u16)
        requires
            operand_bytes(self.operands).len() >= 2,
        ensures
            r == self.imm16(),
    {
        read_u16_le(operands_get(&self.operands, 0), operands_get(&self.operands, 1))
    }
}

impl Default for Instruction {
    /// Returns the `NOP` instruction.
    fn default() -> (r: Instruction)
        ensures
            r.def == spec_instruction_def(0x00),
            operand_bytes(r.operands).len() == 0,
            r.wf(),
    {
        Instruction { def: instruction_def(0x00), operands: operands_new() }
    }
}

/// The address after `pc` by `k` bytes, wrapping.
pub open spec fn pc_plus(pc: u16, k: int) -> u16 {
    ((pc + k) % 0x10000) as u16
}

/// What fetching an instruction does: its byte is read at `pc`, then its operands one by one,
/// each read taking an M-cycle.
pub open spec fn fetch_effect(pc: u16, bus: Bus, ins: Instruction, after: Bus) -> bool {
    let ops = operand_bytes(ins.operands);
    exists|b1: Bus| {
        &&& #[trigger] bus.read_cycle(pc, ins.def.byte, b1)
        &&& ops.len() == 0 ==> after == b1
        &&& ops.len() == 1 ==> b1.read_cycle(pc_plus(pc, 1), ops[0], after)
        &&& ops.len() == 2 ==> exists|b2: Bus| #[trigger] b1.read_cycle(pc_plus(pc, 1), ops[0], b2)
            && b2.read_cycle(pc_plus(pc, 2), ops[1], after)
    }
}

impl Cpu {
    /// Retrieves the current instruction. Does not consume any cycles.
    #[verifier::spinoff_prover]
    pub fn current_instruction(&self, bus: &Bus) -> (r: Instruction)
        requires
            bus.wf(),
        ensures
            r.wf(),
            r.def.byte == bus.spec_read(self.reg.pc),
            forall|i: int| 0 <= i < r.def.num_operands ==> #[trigger] operand_bytes(r.operands)[i]
                == bus.spec_read(pc_plus(self.reg.pc, 1 + i)),
    {
        let pc = self.reg.pc;
        let byte = bus.read_byte_no_tick(pc);
        let def = instruction_def(byte);
        let mut operands = operands_new();
        if def.num_operands >= 1 {
            operands_push(&mut operands, bus.read_byte_no_tick(pc.wrapping_add(1)));
        }
        if def.num_operands >= 2 {
            operands_push(&mut operands, bus.read_byte_no_tick(pc.wrapping_add(2)));
        }
        proof {
            assert(def.num_operands <= 2);
        }
        Instruction { def, operands }
    }

    /// Decodes the next instruction: its byte and then each operand are read, ticking the bus.
    #[verifier::spinoff_prover]
    #[verifier::rlimit(50)]
    pub fn fetch(&self, bus: &mut Bus) -> (r: Instruction)
        requires
            old(bus).wf(),
            old(bus).has_room(3),
        ensures
            final(bus).wf(),
            r.wf(),
            fetch_effect(self.reg.pc, *old(bus), r, *final(bus)),
            final(bus).timer.diff == old(bus).timer.diff + 1 + r.def.num_operands,
    {
        let pc = self.reg.pc;
        let byte = bus.read_byte(pc);
        let ghost b1 = *bus;
        let def = instruction_def(byte);
        let n = def.num_operands;
        assert(n <= 2);
        let mut operands = operands_new();
        if n == 0 {
            let r = Instruction { def, operands };
            assert(old(bus).read_cycle(pc, r.def.byte, b1));
            r
        } else if n == 1 {
            let first = bus.read_byte(pc.wrapping_add(1));
            operands_push(&mut operands, first);
            let r = Instruction { def, operands };
            assert(operand_bytes(r.operands)[0] == first);
            assert(old(bus).read_cycle(pc, r.def.byte, b1));
            r
        } else {
            let first = bus.read_byte(pc.wrapping_add(1));
            let ghost b2 = *bus;
            let second = bus.read_byte(pc.wrapping_add(2));
            operands_push(&mut operands, first);
            operands_push(&mut operands, second);
            let r = Instruction { def, operands };
            assert(operand_bytes(r.operands)[0] == first && operand_bytes(r.operands)[1] == second);
            assert(b1.read_cycle(pc_plus(pc, 1), operand_bytes(r.operands)[0], b2));
            assert(old(bus).read_cycle(pc, r.def.byte, b1));
            r
        }
    }
}

/// The regular expression that matches the operand placeholders of the descriptions.
pub const DATA_TOKEN_PATTERN: &'static str = "d8|d16|a8|a16|r8|PREFIX CB";

/// The operand placeholders of the descriptions, in the order in which the regular expression
/// `d8|d16|a8|a16|r8|PREFIX CB` alternates them.
pub open spec fn data_tokens() -> Seq<Seq<char>> {
    seq!["d8"@, "d16"@, "a8"@, "a16"@, "r8"@, "PREFIX CB"@]
}

/// The operand placeholders of the descriptions.
pub open spec fn is_data_token(t: Seq<char>) -> bool {
    data_tokens().contains(t)
}

/// Whether `t` occurs in `s` at position `i`.
pub open spec fn occurs_at(s: Seq<char>, i: int, t: Seq<char>) -> bool {
    0 <= i && i + t.len() <= s.len() && s.subrange(i, i + t.len()) == t
}

/// The first placeholder, in the order of the alternation, that occurs at position `i`.
pub open spec fn token_at(s: Seq<char>, i: int) -> Option<Seq<char>> {
    let ts = data_tokens();
    if occurs_at(s, i, ts[0]) { Some(ts[0]) }
    else if occurs_at(s, i, ts[1]) { Some(ts[1]) }
    else if occurs_at(s, i, ts[2]) { Some(ts[2]) }
    else if occurs_at(s, i, ts[3]) { Some(ts[3]) }
    else if occurs_at(s, i, ts[4]) { Some(ts[4]) }
    else if occurs_at(s, i, ts[5]) { Some(ts[5]) }
    else { None }
}

/// The leftmost placeholder of `s` at or after position `from`: the first match of the regular
/// expression, whose alternatives are tried in order at each position.
pub open spec fn data_match_from(s: Seq<char>, from: int) -> Option<Seq<char>>
    decreases s.len() - from,
{
    if from < 0 || from >= s.len() {
        None
    } else {
        match token_at(s, from) {
            Some(t) => Some(t),
            None => data_match_from(s, from + 1),
        }
    }
}

/// The first placeholder of a description, if any.
pub open spec fn data_match(description: Seq<char>) -> Option<Seq<char>> {
    data_match_from(description, 0)
}

/// `s` from position `from` on, each placeholder replaced by `replacement`: the matches are
/// found from left to right, each search starting after the previous match.
pub open spec fn data_replaced_from(s: Seq<char>, from: int, replacement: Seq<char>) -> Seq<char>
    decreases s.len() - from,
{
    if from < 0 || from >= s.len() {
        Seq::empty()
    } else {
        match token_at(s, from) {
            Some(t) => if t.len() > 0 {
                replacement + data_replaced_from(s, from + t.len(), replacement)
            } else {
                Seq::empty()
            },
            None => seq![s[from]] + data_replaced_from(s, from + 1, replacement),
        }
    }
}

/// A description with every placeholder replaced by `replacement`.
pub open spec fn data_replaced(description: Seq<char>, replacement: Seq<char>) -> Seq<char> {
    data_replaced_from(description, 0, replacement)
}

/// The first placeholder of a description is a placeholder.
proof fn lemma_data_match_is_token(s: Seq<char>, from: int)
    ensures
        data_match_from(s, from) matches Some(t) ==> is_data_token(t),
    decreases s.len() - from,
{
    if 0 <= from < s.len() {
        let ts = data_tokens();
        assert(ts.contains(ts[0]) && ts.contains(ts[1]) && ts.contains(ts[2]) && ts.contains(ts[3])
            && ts.contains(ts[4]) && ts.contains(ts[5]));
        if token_at(s, from) is None {
            lemma_data_match_is_token(s, from + 1);
        }
    }
}

/// Finds the first operand placeholder of a description: calls `Regex::find` with the
/// expression `d8|d16|a8|a16|r8|PREFIX CB` and gives the text of the match. The match is the
/// leftmost one, and at its position the alternatives are tried in order (leftmost-first).
#[verifier::external_body]
fn find_data_token(description: &str) -> (r: Option<String>)
    ensures
        r matches Some(t) ==> Some(t@) == data_match(description@),
        r is None ==> data_match(description@) is None,
{
    let re = regex::Regex::new(DATA_TOKEN_PATTERN).unwrap();
    re.find(description).map(|m| m.as_str().to_string())
}

/// Replaces every operand placeholder of a description: calls `Regex::replace_all` with the
/// expression `d8|d16|a8|a16|r8|PREFIX CB` and a `NoExpand` replacement, which is inserted as
/// it is. The matches replaced are the successive non-overlapping leftmost-first matches.
#[verifier::external_body]
fn replace_data_tokens(description: &str, replacement: &str) -> (r: String)
    ensures
        r@ == data_replaced(description@, replacement@),
{
    let re = regex::Regex::new(DATA_TOKEN_PATTERN).unwrap();
    re.replace_all(description, regex::NoExpand(replacement)).to_string()
}

/// Formats a byte as `$0x` and two hexadecimal digits.
fn hex_byte_text(value: u8) -> (r: String)
    ensures
        r@ == seq!['$', '0', 'x'] + hex_digits(value as int, 2),
{
    proof {
        reveal_strlit("$0x");
    }
    let mut r = String::from_str("$0x");
    push_hex(&mut r, value as u32, 2);
    r
}

/// Formats a word as `$0x` and four hexadecimal digits.
fn hex_word_text(value: u16) -> (r: String)
    ensures
        r@ == seq!['$', '0', 'x'] + hex_digits(value as int, 4),
{
    proof {
        reveal_strlit("$0x");
    }
    let mut r = String::from_str("$0x");
    push_hex(&mut r, value as u32, 4);
    r
}

/// The number of operands that the placeholder `token` stands for.
pub open spec fn token_operands(token: Seq<char>) -> int {
    if token == "d16"@ || token == "a16"@ { 2 } else { 1 }
}

/// The text that replaces the operand placeholder `token` of an instruction.
pub open spec fn operand_text(ins: Instruction, token: Seq<char>) -> Seq<char> {
    if token == "d8"@ || token == "a8"@ || token == "r8"@ {
        seq!['$', '0', 'x'] + hex_digits(ins.imm8() as int, 2)
    } else if token == "d16"@ || token == "a16"@ {
        seq!['$', '0', 'x'] + hex_digits(ins.imm16() as int, 4)
    } else {
        prefix_description_of(ins.imm8())@
    }
}

/// Whether a string holds the given text.
fn same_text(s: &String, text: &str) -> (r: bool)
    ensures
        r == (s@ == text@),
{
    let t = text.to_owned();
    *s == t
}

impl Instruction {
    /// The instruction in assembly syntax, the operands in place of their placeholders: bytes
    /// and words in hexadecimal, a prefix instruction by its own description.
    pub fn to_string(&self) -> (r: String)
        requires
            self.wf(),
        ensures
            match data_match(self.def.description@) {
                Some(token) => if operand_bytes(self.operands).len() >= token_operands(token) {
                    r@ == data_replaced(self.def.description@, operand_text(*self, token))
                } else {
                    r@ == self.def.description@
                },
                None => r@ == self.def.description@,
            },
    {
        proof {
            reveal_strlit("d8");
            reveal_strlit("d16");
            reveal_strlit("a8");
            reveal_strlit("a16");
            reveal_strlit("r8");
            reveal_strlit("PREFIX CB");
            lemma_data_match_is_token(self.def.description@, 0);
        }
        match find_data_token(self.def.description) {
            Some(token) => {
                let t = &token;
                let needed: usize = if same_text(t, "d16") || same_text(t, "a16") { 2 } else { 1 };
                if operands_len(&self.operands) < needed {
                    return self.def.description.to_owned();
                }
                let replacement = if same_text(t, "d8") || same_text(t, "a8") || same_text(t, "r8") {
                    hex_byte_text(operands_get(&self.operands, 0))
                } else if same_text(t, "d16") || same_text(t, "a16") {
                    hex_word_text(read_u16_le(operands_get(&self.operands, 0), operands_get(&self.operands, 1)))
                } else {
                    prefix_instruction_def(operands_get(&self.operands, 0)).description.to_owned()
                };
                replace_data_tokens(self.def.description, replacement.as_str())
            },
            None => self.def.description.to_owned(),
        }
    }
}

/// Returns `true` if the addition of two bytes requires a carry out of the most significant bit.
pub fn is_carry_add(a: u8, b: u8) -> (r: bool)
    ensures
        r == (a + b >= 256),
{
    (a as u16 + b as u16) >= 0x100
}

/// Returns `true` if the addition of two bytes requires a half carry (a carry from the low
/// nibble to the high nibble).
pub fn is_half_carry_add(a: u8, b: u8) -> (r: bool)
    ensures
        r == (a % 16 + b % 16 >= 16),
{
    (a % 16) + (b % 16) >= 16
}

/// Returns `true` if the subtraction of two bytes requires a borrow into the most significant
/// bit.
pub fn is_carry_sub(a: u8, b: u8) -> (r: bool)
    ensures
        r == (b > a),
{
    b > a
}

/// Returns `true` if the subtraction of two bytes requires a half carry (a borrow from the
/// high nibble to the low nibble).
pub fn is_half_carry_sub(a: u8, b: u8) -> (r: bool)
    ensures
        r == (b % 16 > a % 16),
{
    (b % 16) > (a % 16)
}

/// Whether `s` begins with `p`.
pub open spec fn text_starts_with(s: Seq<char>, p: Seq<char>) -> bool {
    p.len() <= s.len() && s.subrange(0, p.len() as int) == p
}

/// Whether `s` ends with `p`.
pub open spec fn text_ends_with(s: Seq<char>, p: Seq<char>) -> bool {
    p.len() <= s.len() && s.subrange(s.len() - p.len(), s.len() as int) == p
}

/// Whether a description is that of a store of `A` to memory: `LD (..),A` or `LDH (..),A`.
pub open spec fn describes_store_of_a(d: Seq<char>) -> bool {
    (text_starts_with(d, "LD ("@) || text_starts_with(d, "LDH ("@)) && text_ends_with(d, ",A"@)
}

/// Whether a description is that of a load of `A` from memory: `LD A,(..)` or `LDH A,(..)`.
pub open spec fn describes_load_of_a(d: Seq<char>) -> bool {
    (text_starts_with(d, "LD A,("@) || text_starts_with(d, "LDH A,("@)) && text_ends_with(d, ")"@)
}

/// The opcodes that store `A` to memory.
pub open spec fn is_a_store_opcode(b: u8) -> bool {
    b == 0x02 || b == 0x12 || b == 0x22 || b == 0x32 || b == 0x77 || b == 0xe0 || b == 0xe2 || b == 0xea
}

/// The opcodes that load `A` from memory.
pub open spec fn is_a_load_opcode(b: u8) -> bool {
    b == 0x0a || b == 0x1a || b == 0x2a || b == 0x3a || b == 0x7e || b == 0xf0 || b == 0xf2 || b == 0xfa
}

/// A text whose character `k` differs from that of `p` does not begin with `p`.
proof fn lemma_not_prefix(s: Seq<char>, p: Seq<char>, k: int)
    requires
        0 <= k < p.len(),
        s.len() < p.len() || s[k] != p[k],
    ensures
        !text_starts_with(s, p),
{
    if text_starts_with(s, p) {
        assert(s.subrange(0, p.len() as int)[k] == s[k]);
    }
}

/// A text whose `k`-th character from the end of `p`'s length differs does not end with `p`.
proof fn lemma_not_suffix(s: Seq<char>, p: Seq<char>, k: int)
    requires
        0 <= k < p.len(),
        s.len() < p.len() || s[s.len() - p.len() + k] != p[k],
    ensures
        !text_ends_with(s, p),
{
    if text_ends_with(s, p) {
        assert(s.subrange(s.len() - p.len(), s.len() as int)[k] == s[s.len() - p.len() + k]);
    }
}

/// Which opcodes from 0x00 to 0x1f are described as moves between `A` and memory.
proof fn lemma_move_descriptions_0(b: u8)
    requires
        0x00 <= b <= 0x1f,
    ensures
        describes_store_of_a(description_of(b)@) ==> is_a_store_opcode(b),
        describes_load_of_a(description_of(b)@) ==> is_a_load_opcode(b),
{
    reveal_strlit("LD (");
    reveal_strlit("LDH (");
    reveal_strlit(",A");
    reveal_strlit("LD A,(");
    reveal_strlit("LDH A,(");
    reveal_strlit(")");
    if b == 0x00 {
        reveal_strlit("NOP");
        lemma_not_suffix("NOP"@, ",A"@, 0);
        lemma_not_suffix("NOP"@, ")"@, 0);
    } else if b == 0x01 {
        reveal_strlit("LD BC,d16");
        lemma_not_suffix("LD BC,d16"@, ",A"@, 0);
        lemma_not_suffix("LD BC,d16"@, ")"@, 0);
    } else if b == 0x02 {
        reveal_strlit("LD (BC),A");
        lemma_not_suffix("LD (BC),A"@, ")"@, 0);
    } else if b == 0x03 {
        reveal_strlit("INC BC");
        lemma_not_suffix("INC BC"@, ",A"@, 0);
        lemma_not_suffix("INC BC"@, ")"@, 0);
    } else if b == 0x04 {
        reveal_strlit("INC B");
        lemma_not_suffix("INC B"@, ",A"@, 0);
        lemma_not_suffix("INC B"@, ")"@, 0);
    } else if b == 0x05 {
        reveal_strlit("DEC B");
        lemma_not_suffix("DEC B"@, ",A"@, 0);
        lemma_not_suffix("DEC B"@, ")"@, 0);
    } else if b == 0x06 {
        reveal_strlit("LD B,d8");
        lemma_not_suffix("LD B,d8"@, ",A"@, 0);
        lemma_not_suffix("LD B,d8"@, ")"@, 0);
    } else if b == 0x07 {
        reveal_strlit("RLCA");
        lemma_not_suffix("RLCA"@, ",A"@, 0);
        lemma_not_suffix("RLCA"@, ")"@, 0);
    } else if b == 0x08 {
        reveal_strlit("LD (a16),SP");
        lemma_not_suffix("LD (a16),SP"@, ",A"@, 0);
        lemma_not_suffix("LD (a16),SP"@, ")"@, 0);
    } else if b == 0x09 {
        reveal_strlit("ADD HL,BC");
        lemma_not_suffix("ADD HL,BC"@, ",A"@, 0);
        lemma_not_suffix("ADD HL,BC"@, ")"@, 0);
    } else if b == 0x0a {
        reveal_strlit("LD A,(BC)");
        lemma_not_suffix("LD A,(BC)"@, ",A"@, 0);
    } else if b == 0x0b {
        reveal_strlit("DEC BC");
        lemma_not_suffix("DEC BC"@, ",A"@, 0);
        lemma_not_suffix("DEC BC"@, ")"@, 0);
    } else if b == 0x0c {
        reveal_strlit("INC C");
        lemma_not_suffix("INC C"@, ",A"@, 0);
        lemma_not_suffix("INC C"@, ")"@, 0);
    } else if b == 0x0d {
        reveal_strlit("DEC C");
        lemma_not_suffix("DEC C"@, ",A"@, 0);
        lemma_not_suffix("DEC C"@, ")"@, 0);
    } else if b == 0x0e {
        reveal_strlit("LD C,d8");
        lemma_not_suffix("LD C,d8"@, ",A"@, 0);
        lemma_not_suffix("LD C,d8"@, ")"@, 0);
    } else if b == 0x0f {
        reveal_strlit("RRCA");
        lemma_not_suffix("RRCA"@, ",A"@, 0);
        lemma_not_suffix("RRCA"@, ")"@, 0);
    } else if b == 0x10 {
        reveal_strlit("STOP");
        lemma_not_suffix("STOP"@, ",A"@, 0);
        lemma_not_suffix("STOP"@, ")"@, 0);
    } else if b == 0x11 {
        reveal_strlit("LD DE,d16");
        lemma_not_suffix("LD DE,d16"@, ",A"@, 0);
        lemma_not_suffix("LD DE,d16"@, ")"@, 0);
    } else if b == 0x12 {
        reveal_strlit("LD (DE),A");
        lemma_not_suffix("LD (DE),A"@, ")"@, 0);
    } else if b == 0x13 {
        reveal_strlit("INC DE");
        lemma_not_suffix("INC DE"@, ",A"@, 0);
        lemma_not_suffix("INC DE"@, ")"@, 0);
    } else if b == 0x14 {
        reveal_strlit("INC D");
        lemma_not_suffix("INC D"@, ",A"@, 0);
        lemma_not_suffix("INC D"@, ")"@, 0);
    } else if b == 0x15 {
        reveal_strlit("DEC D");
        lemma_not_suffix("DEC D"@, ",A"@, 0);
        lemma_not_suffix("DEC D"@, ")"@, 0);
    } else if b == 0x16 {
        reveal_strlit("LD D,d8");
        lemma_not_suffix("LD D,d8"@, ",A"@, 0);
        lemma_not_suffix("LD D,d8"@, ")"@, 0);
    } else if b == 0x17 {
        reveal_strlit("RLA");
        lemma_not_suffix("RLA"@, ",A"@, 0);
        lemma_not_suffix("RLA"@, ")"@, 0);
    } else if b == 0x18 {
        reveal_strlit("JR r8");
        lemma_not_suffix("JR r8"@, ",A"@, 0);
        lemma_not_suffix("JR r8"@, ")"@, 0);
    } else if b == 0x19 {
        reveal_strlit("ADD HL,DE");
        lemma_not_suffix("ADD HL,DE"@, ",A"@, 0);
        lemma_not_suffix("ADD HL,DE"@, ")"@, 0);
    } else if b == 0x1a {
        reveal_strlit("LD A,(DE)");
        lemma_not_suffix("LD A,(DE)"@, ",A"@, 0);
    } else if b == 0x1b {
        reveal_strlit("DEC DE");
        lemma_not_suffix("DEC DE"@, ",A"@, 0);
        lemma_not_suffix("DEC DE"@, ")"@, 0);
    } else if b == 0x1c {
        reveal_strlit("INC E");
        lemma_not_suffix("INC E"@, ",A"@, 0);
        lemma_not_suffix("INC E"@, ")"@, 0);
    } else if b == 0x1d {
        reveal_strlit("DEC E");
        lemma_not_suffix("DEC E"@, ",A"@, 0);
        lemma_not_suffix("DEC E"@, ")"@, 0);
    } else if b == 0x1e {
        reveal_strlit("LD E,d8");
        lemma_not_suffix("LD E,d8"@, ",A"@, 0);
        lemma_not_suffix("LD E,d8"@, ")"@, 0);
    } else {
        reveal_strlit("RRA");
        lemma_not_suffix("RRA"@, ",A"@, 0);
        lemma_not_suffix("RRA"@, ")"@, 0);
    }
}

/// Which opcodes from 0x20 to 0x3f are described as moves between `A` and memory.
proof fn lemma_move_descriptions_1(b: u8)
    requires
        0x20 <= b <= 0x3f,
    ensures
        describes_store_of_a(description_of(b)@) ==> is_a_store_opcode(b),
        describes_load_of_a(description_of(b)@) ==> is_a_load_opcode(b),
{
    reveal_strlit("LD (");
    reveal_strlit("LDH (");
    reveal_strlit(",A");
    reveal_strlit("LD A,(");
    reveal_strlit("LDH A,(");
    reveal_strlit(")");
    if b == 0x20 {
        reveal_strlit("JR NZ,r8");
        lemma_not_suffix("JR NZ,r8"@, ",A"@, 0);
        lemma_not_suffix("JR NZ,r8"@, ")"@, 0);
    } else if b == 0x21 {
        reveal_strlit("LD HL,d16");
        lemma_not_suffix("LD HL,d16"@, ",A"@, 0);
        lemma_not_suffix("LD HL,d16"@, ")"@, 0);
    } else if b == 0x22 {
        reveal_strlit("LD (HL+),A");
        lemma_not_suffix("LD (HL+),A"@, ")"@, 0);
    } else if b == 0x23 {
        reveal_strlit("INC HL");
        lemma_not_suffix("INC HL"@, ",A"@, 0);
        lemma_not_suffix("INC HL"@, ")"@, 0);
    } else if b == 0x24 {
        reveal_strlit("INC H");
        lemma_not_suffix("INC H"@, ",A"@, 0);
        lemma_not_suffix("INC H"@, ")"@, 0);
    } else if b == 0x25 {
        reveal_strlit("DEC H");
        lemma_not_suffix("DEC H"@, ",A"@, 0);
        lemma_not_suffix("DEC H"@, ")"@, 0);
    } else if b == 0x26 {
        reveal_strlit("LD H,d8");
        lemma_not_suffix("LD H,d8"@, ",A"@, 0);
        lemma_not_suffix("LD H,d8"@, ")"@, 0);
    } else if b == 0x27 {
        reveal_strlit("DAA");
        lemma_not_suffix("DAA"@, ",A"@, 0);
        lemma_not_suffix("DAA"@, ")"@, 0);
    } else if b == 0x28 {
        reveal_strlit("JR Z,r8");
        lemma_not_suffix("JR Z,r8"@, ",A"@, 0);
        lemma_not_suffix("JR Z,r8"@, ")"@, 0);
    } else if b == 0x29 {
        reveal_strlit("ADD HL,HL");
        lemma_not_suffix("ADD HL,HL"@, ",A"@, 0);
        lemma_not_suffix("ADD HL,HL"@, ")"@, 0);
    } else if b == 0x2a {
        reveal_strlit("LD A,(HL+)");
        lemma_not_suffix("LD A,(HL+)"@, ",A"@, 0);
    } else if b == 0x2b {
        reveal_strlit("DEC HL");
        lemma_not_suffix("DEC HL"@, ",A"@, 0);
        lemma_not_suffix("DEC HL"@, ")"@, 0);
    } else if b == 0x2c {
        reveal_strlit("INC L");
        lemma_not_suffix("INC L"@, ",A"@, 0);
        lemma_not_suffix("INC L"@, ")"@, 0);
    } else if b == 0x2d {
        reveal_strlit("DEC L");
        lemma_not_suffix("DEC L"@, ",A"@, 0);
        lemma_not_suffix("DEC L"@, ")"@, 0);
    } else if b == 0x2e {
        reveal_strlit("LD L,d8");
        lemma_not_suffix("LD L,d8"@, ",A"@, 0);
        lemma_not_suffix("LD L,d8"@, ")"@, 0);
    } else if b == 0x2f {
        reveal_strlit("CPL");
        lemma_not_suffix("CPL"@, ",A"@, 0);
        lemma_not_suffix("CPL"@, ")"@, 0);
    } else if b == 0x30 {
        reveal_strlit("JR NC,r8");
        lemma_not_suffix("JR NC,r8"@, ",A"@, 0);
        lemma_not_suffix("JR NC,r8"@, ")"@, 0);
    } else if b == 0x31 {
        reveal_strlit("LD SP,d16");
        lemma_not_suffix("LD SP,d16"@, ",A"@, 0);
        lemma_not_suffix("LD SP,d16"@, ")"@, 0);
    } else if b == 0x32 {
        reveal_strlit("LD (HL-),A");
        lemma_not_suffix("LD (HL-),A"@, ")"@, 0);
    } else if b == 0x33 {
        reveal_strlit("INC SP");
        lemma_not_suffix("INC SP"@, ",A"@, 0);
        lemma_not_suffix("INC SP"@, ")"@, 0);
    } else if b == 0x34 {
        reveal_strlit("INC (HL)");
        lemma_not_suffix("INC (HL)"@, ",A"@, 0);
        lemma_not_prefix("INC (HL)"@, "LD A,("@, 0);
        lemma_not_prefix("INC (HL)"@, "LDH A,("@, 0);
    } else if b == 0x35 {
        reveal_strlit("DEC (HL)");
        lemma_not_suffix("DEC (HL)"@, ",A"@, 0);
        lemma_not_prefix("DEC (HL)"@, "LD A,("@, 0);
        lemma_not_prefix("DEC (HL)"@, "LDH A,("@, 0);
    } else if b == 0x36 {
        reveal_strlit("LD (HL),d8");
        lemma_not_suffix("LD (HL),d8"@, ",A"@, 0);
        lemma_not_suffix("LD (HL),d8"@, ")"@, 0);
    } else if b == 0x37 {
        reveal_strlit("SCF");
        lemma_not_suffix("SCF"@, ",A"@, 0);
        lemma_not_suffix("SCF"@, ")"@, 0);
    } else if b == 0x38 {
        reveal_strlit("JR C,r8");
        lemma_not_suffix("JR C,r8"@, ",A"@, 0);
        lemma_not_suffix("JR C,r8"@, ")"@, 0);
    } else if b == 0x39 {
        reveal_strlit("ADD HL,SP");
        lemma_not_suffix("ADD HL,SP"@, ",A"@, 0);
        lemma_not_suffix("ADD HL,SP"@, ")"@, 0);
    } else if b == 0x3a {
        reveal_strlit("LD A,(HL-)");
        lemma_not_suffix("LD A,(HL-)"@, ",A"@, 0);
    } else if b == 0x3b {
        reveal_strlit("DEC SP");
        lemma_not_suffix("DEC SP"@, ",A"@, 0);
        lemma_not_suffix("DEC SP"@, ")"@, 0);
    } else if b == 0x3c {
        reveal_strlit("INC A");
        lemma_not_suffix("INC A"@, ",A"@, 0);
        lemma_not_suffix("INC A"@, ")"@, 0);
    } else if b == 0x3d {
        reveal_strlit("DEC A");
        lemma_not_suffix("DEC A"@, ",A"@, 0);
        lemma_not_suffix("DEC A"@, ")"@, 0);
    } else if b == 0x3e {
        reveal_strlit("LD A,d8");
        lemma_not_suffix("LD A,d8"@, ",A"@, 0);
        lemma_not_suffix("LD A,d8"@, ")"@, 0);
    } else {
        reveal_strlit("CCF");
        lemma_not_suffix("CCF"@, ",A"@, 0);
        lemma_not_suffix("CCF"@, ")"@, 0);
    }
}

/// Which opcodes from 0x40 to 0x5f are described as moves between `A` and memory.
proof fn lemma_move_descriptions_2(b: u8)
    requires
        0x40 <= b <= 0x5f,
    ensures
        describes_store_of_a(description_of(b)@) ==> is_a_store_opcode(b),
        describes_load_of_a(description_of(b)@) ==> is_a_load_opcode(b),
{
    reveal_strlit("LD (");
    reveal_strlit("LDH (");
    reveal_strlit(",A");
    reveal_strlit("LD A,(");
    reveal_strlit("LDH A,(");
    reveal_strlit(")");
    if b == 0x40 {
        reveal_strlit("LD B,B");
        lemma_not_suffix("LD B,B"@, ",A"@, 1);
        lemma_not_suffix("LD B,B"@, ")"@, 0);
    } else if b == 0x41 {
        reveal_strlit("LD B,C");
        lemma_not_suffix("LD B,C"@, ",A"@, 1);
        lemma_not_suffix("LD B,C"@, ")"@, 0);
    } else if b == 0x42 {
        reveal_strlit("LD B,D");
        lemma_not_suffix("LD B,D"@, ",A"@, 1);
        lemma_not_suffix("LD B,D"@, ")"@, 0);
    } else if b == 0x43 {
        reveal_strlit("LD B,E");
        lemma_not_suffix("LD B,E"@, ",A"@, 1);
        lemma_not_suffix("LD B,E"@, ")"@, 0);
    } else if b == 0x44 {
        reveal_strlit("LD B,H");
        lemma_not_suffix("LD B,H"@, ",A"@, 1);
        lemma_not_suffix("LD B,H"@, ")"@, 0);
    } else if b == 0x45 {
        reveal_strlit("LD B,L");
        lemma_not_suffix("LD B,L"@, ",A"@, 1);
        lemma_not_suffix("LD B,L"@, ")"@, 0);
    } else if b == 0x46 {
        reveal_strlit("LD B,(HL)");
        lemma_not_suffix("LD B,(HL)"@, ",A"@, 0);
        lemma_not_prefix("LD B,(HL)"@, "LD A,("@, 3);
        lemma_not_prefix("LD B,(HL)"@, "LDH A,("@, 2);
    } else if b == 0x47 {
        reveal_strlit("LD B,A");
        lemma_not_prefix("LD B,A"@, "LD ("@, 3);
        lemma_not_prefix("LD B,A"@, "LDH ("@, 2);
        lemma_not_suffix("LD B,A"@, ")"@, 0);
    } else if b == 0x48 {
        reveal_strlit("LD C,B");
        lemma_not_suffix("LD C,B"@, ",A"@, 1);
        lemma_not_suffix("LD C,B"@, ")"@, 0);
    } else if b == 0x49 {
        reveal_strlit("LD C,C");
        lemma_not_suffix("LD C,C"@, ",A"@, 1);
        lemma_not_suffix("LD C,C"@, ")"@, 0);
    } else if b == 0x4a {
        reveal_strlit("LD C,D");
        lemma_not_suffix("LD C,D"@, ",A"@, 1);
        lemma_not_suffix("LD C,D"@, ")"@, 0);
    } else if b == 0x4b {
        reveal_strlit("LD C,E");
        lemma_not_suffix("LD C,E"@, ",A"@, 1);
        lemma_not_suffix("LD C,E"@, ")"@, 0);
    } else if b == 0x4c {
        reveal_strlit("LD C,H");
        lemma_not_suffix("LD C,H"@, ",A"@, 1);
        lemma_not_suffix("LD C,H"@, ")"@, 0);
    } else if b == 0x4d {
        reveal_strlit("LD C,L");
        lemma_not_suffix("LD C,L"@, ",A"@, 1);
        lemma_not_suffix("LD C,L"@, ")"@, 0);
    } else if b == 0x4e {
        reveal_strlit("LD C,(HL)");
        lemma_not_suffix("LD C,(HL)"@, ",A"@, 0);
        lemma_not_prefix("LD C,(HL)"@, "LD A,("@, 3);
        lemma_not_prefix("LD C,(HL)"@, "LDH A,("@, 2);
    } else if b == 0x4f {
        reveal_strlit("LD C,A");
        lemma_not_prefix("LD C,A"@, "LD ("@, 3);
        lemma_not_prefix("LD C,A"@, "LDH ("@, 2);
        lemma_not_suffix("LD C,A"@, ")"@, 0);
    } else if b == 0x50 {
        reveal_strlit("LD D,B");
        lemma_not_suffix("LD D,B"@, ",A"@, 1);
        lemma_not_suffix("LD D,B"@, ")"@, 0);
    } else if b == 0x51 {
        reveal_strlit("LD D,C");
        lemma_not_suffix("LD D,C"@, ",A"@, 1);
        lemma_not_suffix("LD D,C"@, ")"@, 0);
    } else if b == 0x52 {
        reveal_strlit("LD D,D");
        lemma_not_suffix("LD D,D"@, ",A"@, 1);
        lemma_not_suffix("LD D,D"@, ")"@, 0);
    } else if b == 0x53 {
        reveal_strlit("LD D,E");
        lemma_not_suffix("LD D,E"@, ",A"@, 1);
        lemma_not_suffix("LD D,E"@, ")"@, 0);
    } else if b == 0x54 {
        reveal_strlit("LD D,H");
        lemma_not_suffix("LD D,H"@, ",A"@, 1);
        lemma_not_suffix("LD D,H"@, ")"@, 0);
    } else if b == 0x55 {
        reveal_strlit("LD D,L");
        lemma_not_suffix("LD D,L"@, ",A"@, 1);
        lemma_not_suffix("LD D,L"@, ")"@, 0);
    } else if b == 0x56 {
        reveal_strlit("LD D,(HL)");
        lemma_not_suffix("LD D,(HL)"@, ",A"@, 0);
        lemma_not_prefix("LD D,(HL)"@, "LD A,("@, 3);
        lemma_not_prefix("LD D,(HL)"@, "LDH A,("@, 2);
    } else if b == 0x57 {
        reveal_strlit("LD D,A");
        lemma_not_prefix("LD D,A"@, "LD ("@, 3);
        lemma_not_prefix("LD D,A"@, "LDH ("@, 2);
        lemma_not_suffix("LD D,A"@, ")"@, 0);
    } else if b == 0x58 {
        reveal_strlit("LD E,B");
        lemma_not_suffix("LD E,B"@, ",A"@, 1);
        lemma_not_suffix("LD E,B"@, ")"@, 0);
    } else if b == 0x59 {
        reveal_strlit("LD E,C");
        lemma_not_suffix("LD E,C"@, ",A"@, 1);
        lemma_not_suffix("LD E,C"@, ")"@, 0);
    } else if b == 0x5a {
        reveal_strlit("LD E,D");
        lemma_not_suffix("LD E,D"@, ",A"@, 1);
        lemma_not_suffix("LD E,D"@, ")"@, 0);
    } else if b == 0x5b {
        reveal_strlit("LD E,E");
        lemma_not_suffix("LD E,E"@, ",A"@, 1);
        lemma_not_suffix("LD E,E"@, ")"@, 0);
    } else if b == 0x5c {
        reveal_strlit("LD E,H");
        lemma_not_suffix("LD E,H"@, ",A"@, 1);
        lemma_not_suffix("LD E,H"@, ")"@, 0);
    } else if b == 0x5d {
        reveal_strlit("LD E,L");
        lemma_not_suffix("LD E,L"@, ",A"@, 1);
        lemma_not_suffix("LD E,L"@, ")"@, 0);
    } else if b == 0x5e {
        reveal_strlit("LD E,(HL)");
        lemma_not_suffix("LD E,(HL)"@, ",A"@, 0);
        lemma_not_prefix("LD E,(HL)"@, "LD A,("@, 3);
        lemma_not_prefix("LD E,(HL)"@, "LDH A,("@, 2);
    } else {
        reveal_strlit("LD E,A");
        lemma_not_prefix("LD E,A"@, "LD ("@, 3);
        lemma_not_prefix("LD E,A"@, "LDH ("@, 2);
        lemma_not_suffix("LD E,A"@, ")"@, 0);
    }
}

/// Which opcodes from 0x60 to 0x7f are described as moves between `A` and memory.
proof fn lemma_move_descriptions_3(b: u8)
    requires
        0x60 <= b <= 0x7f,
    ensures
        describes_store_of_a(description_of(b)@) ==> is_a_store_opcode(b),
        describes_load_of_a(description_of(b)@) ==> is_a_load_opcode(b),
{
    reveal_strlit("LD (");
    reveal_strlit("LDH (");
    reveal_strlit(",A");
    reveal_strlit("LD A,(");
    reveal_strlit("LDH A,(");
    reveal_strlit(")");
    if b == 0x60 {
        reveal_strlit("LD H,B");
        lemma_not_suffix("LD H,B"@, ",A"@, 1);
        lemma_not_suffix("LD H,B"@, ")"@, 0);
    } else if b == 0x61 {
        reveal_strlit("LD H,C");
        lemma_not_suffix("LD H,C"@, ",A"@, 1);
        lemma_not_suffix("LD H,C"@, ")"@, 0);
    } else if b == 0x62 {
        reveal_strlit("LD H,D");
        lemma_not_suffix("LD H,D"@, ",A"@, 1);
        lemma_not_suffix("LD H,D"@, ")"@, 0);
    } else if b == 0x63 {
        reveal_strlit("LD H,E");
        lemma_not_suffix("LD H,E"@, ",A"@, 1);
        lemma_not_suffix("LD H,E"@, ")"@, 0);
    } else if b == 0x64 {
        reveal_strlit("LD H,H");
        lemma_not_suffix("LD H,H"@, ",A"@, 1);
        lemma_not_suffix("LD H,H"@, ")"@, 0);
    } else if b == 0x65 {
        reveal_strlit("LD H,L");
        lemma_not_suffix("LD H,L"@, ",A"@, 1);
        lemma_not_suffix("LD H,L"@, ")"@, 0);
    } else if b == 0x66 {
        reveal_strlit("LD H,(HL)");
        lemma_not_suffix("LD H,(HL)"@, ",A"@, 0);
        lemma_not_prefix("LD H,(HL)"@, "LD A,("@, 3);
        lemma_not_prefix("LD H,(HL)"@, "LDH A,("@, 2);
    } else if b == 0x67 {
        reveal_strlit("LD H,A");
        lemma_not_prefix("LD H,A"@, "LD ("@, 3);
        lemma_not_prefix("LD H,A"@, "LDH ("@, 2);
        lemma_not_suffix("LD H,A"@, ")"@, 0);
    } else if b == 0x68 {
        reveal_strlit("LD L,B");
        lemma_not_suffix("LD L,B"@, ",A"@, 1);
        lemma_not_suffix("LD L,B"@, ")"@, 0);
    } else if b == 0x69 {
        reveal_strlit("LD L,C");
        lemma_not_suffix("LD L,C"@, ",A"@, 1);
        lemma_not_suffix("LD L,C"@, ")"@, 0);
    } else if b == 0x6a {
        reveal_strlit("LD L,D");
        lemma_not_suffix("LD L,D"@, ",A"@, 1);
        lemma_not_suffix("LD L,D"@, ")"@, 0);
    } else if b == 0x6b {
        reveal_strlit("LD L,E");
        lemma_not_suffix("LD L,E"@, ",A"@, 1);
        lemma_not_suffix("LD L,E"@, ")"@, 0);
    } else if b == 0x6c {
        reveal_strlit("LD L,H");
        lemma_not_suffix("LD L,H"@, ",A"@, 1);
        lemma_not_suffix("LD L,H"@, ")"@, 0);
    } else if b == 0x6d {
        reveal_strlit("LD L,L");
        lemma_not_suffix("LD L,L"@, ",A"@, 1);
        lemma_not_suffix("LD L,L"@, ")"@, 0);
    } else if b == 0x6e {
        reveal_strlit("LD L,(HL)");
        lemma_not_suffix("LD L,(HL)"@, ",A"@, 0);
        lemma_not_prefix("LD L,(HL)"@, "LD A,("@, 3);
        lemma_not_prefix("LD L,(HL)"@, "LDH A,("@, 2);
    } else if b == 0x6f {
        reveal_strlit("LD L,A");
        lemma_not_prefix("LD L,A"@, "LD ("@, 3);
        lemma_not_prefix("LD L,A"@, "LDH ("@, 2);
        lemma_not_suffix("LD L,A"@, ")"@, 0);
    } else if b == 0x70 {
        reveal_strlit("LD (HL),B");
        lemma_not_suffix("LD (HL),B"@, ",A"@, 1);
        lemma_not_suffix("LD (HL),B"@, ")"@, 0);
    } else if b == 0x71 {
        reveal_strlit("LD (HL),C");
        lemma_not_suffix("LD (HL),C"@, ",A"@, 1);
        lemma_not_suffix("LD (HL),C"@, ")"@, 0);
    } else if b == 0x72 {
        reveal_strlit("LD (HL),D");
        lemma_not_suffix("LD (HL),D"@, ",A"@, 1);
        lemma_not_suffix("LD (HL),D"@, ")"@, 0);
    } else if b == 0x73 {
        reveal_strlit("LD (HL),E");
        lemma_not_suffix("LD (HL),E"@, ",A"@, 1);
        lemma_not_suffix("LD (HL),E"@, ")"@, 0);
    } else if b == 0x74 {
        reveal_strlit("LD (HL),H");
        lemma_not_suffix("LD (HL),H"@, ",A"@, 1);
        lemma_not_suffix("LD (HL),H"@, ")"@, 0);
    } else if b == 0x75 {
        reveal_strlit("LD (HL),L");
        lemma_not_suffix("LD (HL),L"@, ",A"@, 1);
        lemma_not_suffix("LD (HL),L"@, ")"@, 0);
    } else if b == 0x76 {
        reveal_strlit("HALT");
        lemma_not_suffix("HALT"@, ",A"@, 0);
        lemma_not_suffix("HALT"@, ")"@, 0);
    } else if b == 0x77 {
        reveal_strlit("LD (HL),A");
        lemma_not_suffix("LD (HL),A"@, ")"@, 0);
    } else if b == 0x78 {
        reveal_strlit("LD A,B");
        lemma_not_suffix("LD A,B"@, ",A"@, 1);
        lemma_not_suffix("LD A,B"@, ")"@, 0);
    } else if b == 0x79 {
        reveal_strlit("LD A,C");
        lemma_not_suffix("LD A,C"@, ",A"@, 1);
        lemma_not_suffix("LD A,C"@, ")"@, 0);
    } else if b == 0x7a {
        reveal_strlit("LD A,D");
        lemma_not_suffix("LD A,D"@, ",A"@, 1);
        lemma_not_suffix("LD A,D"@, ")"@, 0);
    } else if b == 0x7b {
        reveal_strlit("LD A,E");
        lemma_not_suffix("LD A,E"@, ",A"@, 1);
        lemma_not_suffix("LD A,E"@, ")"@, 0);
    } else if b == 0x7c {
        reveal_strlit("LD A,H");
        lemma_not_suffix("LD A,H"@, ",A"@, 1);
        lemma_not_suffix("LD A,H"@, ")"@, 0);
    } else if b == 0x7d {
        reveal_strlit("LD A,L");
        lemma_not_suffix("LD A,L"@, ",A"@, 1);
        lemma_not_suffix("LD A,L"@, ")"@, 0);
    } else if b == 0x7e {
        reveal_strlit("LD A,(HL)");
        lemma_not_suffix("LD A,(HL)"@, ",A"@, 0);
    } else {
        reveal_strlit("LD A,A");
        lemma_not_prefix("LD A,A"@, "LD ("@, 3);
        lemma_not_prefix("LD A,A"@, "LDH ("@, 2);
        lemma_not_suffix("LD A,A"@, ")"@, 0);
    }
}

/// Which opcodes from 0x80 to 0x9f are described as moves between `A` and memory.
proof fn lemma_move_descriptions_4(b: u8)
    requires
        0x80 <= b <= 0x9f,
    ensures
        describes_store_of_a(description_of(b)@) ==> is_a_store_opcode(b),
        describes_load_of_a(description_of(b)@) ==> is_a_load_opcode(b),
{
    reveal_strlit("LD (");
    reveal_strlit("LDH (");
    reveal_strlit(",A");
    reveal_strlit("LD A,(");
    reveal_strlit("LDH A,(");
    reveal_strlit(")");
    if b == 0x80 {
        reveal_strlit("ADD A,B");
        lemma_not_suffix("ADD A,B"@, ",A"@, 1);
        lemma_not_suffix("ADD A,B"@, ")"@, 0);
    } else if b == 0x81 {
        reveal_strlit("ADD A,C");
        lemma_not_suffix("ADD A,C"@, ",A"@, 1);
        lemma_not_suffix("ADD A,C"@, ")"@, 0);
    } else if b == 0x82 {
        reveal_strlit("ADD A,D");
        lemma_not_suffix("ADD A,D"@, ",A"@, 1);
        lemma_not_suffix("ADD A,D"@, ")"@, 0);
    } else if b == 0x83 {
        reveal_strlit("ADD A,E");
        lemma_not_suffix("ADD A,E"@, ",A"@, 1);
        lemma_not_suffix("ADD A,E"@, ")"@, 0);
    } else if b == 0x84 {
        reveal_strlit("ADD A,H");
        lemma_not_suffix("ADD A,H"@, ",A"@, 1);
        lemma_not_suffix("ADD A,H"@, ")"@, 0);
    } else if b == 0x85 {
        reveal_strlit("ADD A,L");
        lemma_not_suffix("ADD A,L"@, ",A"@, 1);
        lemma_not_suffix("ADD A,L"@, ")"@, 0);
    } else if b == 0x86 {
        reveal_strlit("ADD A,(HL)");
        lemma_not_suffix("ADD A,(HL)"@, ",A"@, 0);
        lemma_not_prefix("ADD A,(HL)"@, "LD A,("@, 0);
        lemma_not_prefix("ADD A,(HL)"@, "LDH A,("@, 0);
    } else if b == 0x87 {
        reveal_strlit("ADD A,A");
        lemma_not_prefix("ADD A,A"@, "LD ("@, 0);
        lemma_not_prefix("ADD A,A"@, "LDH ("@, 0);
        lemma_not_suffix("ADD A,A"@, ")"@, 0);
    } else if b == 0x88 {
        reveal_strlit("ADC A,B");
        lemma_not_suffix("ADC A,B"@, ",A"@, 1);
        lemma_not_suffix("ADC A,B"@, ")"@, 0);
    } else if b == 0x89 {
        reveal_strlit("ADC A,C");
        lemma_not_suffix("ADC A,C"@, ",A"@, 1);
        lemma_not_suffix("ADC A,C"@, ")"@, 0);
    } else if b == 0x8a {
        reveal_strlit("ADC A,D");
        lemma_not_suffix("ADC A,D"@, ",A"@, 1);
        lemma_not_suffix("ADC A,D"@, ")"@, 0);
    } else if b == 0x8b {
        reveal_strlit("ADC A,E");
        lemma_not_suffix("ADC A,E"@, ",A"@, 1);
        lemma_not_suffix("ADC A,E"@, ")"@, 0);
    } else if b == 0x8c {
        reveal_strlit("ADC A,H");
        lemma_not_suffix("ADC A,H"@, ",A"@, 1);
        lemma_not_suffix("ADC A,H"@, ")"@, 0);
    } else if b == 0x8d {
        reveal_strlit("ADC A,L");
        lemma_not_suffix("ADC A,L"@, ",A"@, 1);
        lemma_not_suffix("ADC A,L"@, ")"@, 0);
    } else if b == 0x8e {
        reveal_strlit("ADC A,(HL)");
        lemma_not_suffix("ADC A,(HL)"@, ",A"@, 0);
        lemma_not_prefix("ADC A,(HL)"@, "LD A,("@, 0);
        lemma_not_prefix("ADC A,(HL)"@, "LDH A,("@, 0);
    } else if b == 0x8f {
        reveal_strlit("ADC A,A");
        lemma_not_prefix("ADC A,A"@, "LD ("@, 0);
        lemma_not_prefix("ADC A,A"@, "LDH ("@, 0);
        lemma_not_suffix("ADC A,A"@, ")"@, 0);
    } else if b == 0x90 {
        reveal_strlit("SUB B");
        lemma_not_suffix("SUB B"@, ",A"@, 0);
        lemma_not_suffix("SUB B"@, ")"@, 0);
    } else if b == 0x91 {
        reveal_strlit("SUB C");
        lemma_not_suffix("SUB C"@, ",A"@, 0);
        lemma_not_suffix("SUB C"@, ")"@, 0);
    } else if b == 0x92 {
        reveal_strlit("SUB D");
        lemma_not_suffix("SUB D"@, ",A"@, 0);
        lemma_not_suffix("SUB D"@, ")"@, 0);
    } else if b == 0x93 {
        reveal_strlit("SUB E");
        lemma_not_suffix("SUB E"@, ",A"@, 0);
        lemma_not_suffix("SUB E"@, ")"@, 0);
    } else if b == 0x94 {
        reveal_strlit("SUB H");
        lemma_not_suffix("SUB H"@, ",A"@, 0);
        lemma_not_suffix("SUB H"@, ")"@, 0);
    } else if b == 0x95 {
        reveal_strlit("SUB L");
        lemma_not_suffix("SUB L"@, ",A"@, 0);
        lemma_not_suffix("SUB L"@, ")"@, 0);
    } else if b == 0x96 {
        reveal_strlit("SUB (HL)");
        lemma_not_suffix("SUB (HL)"@, ",A"@, 0);
        lemma_not_prefix("SUB (HL)"@, "LD A,("@, 0);
        lemma_not_prefix("SUB (HL)"@, "LDH A,("@, 0);
    } else if b == 0x97 {
        reveal_strlit("SUB A");
        lemma_not_suffix("SUB A"@, ",A"@, 0);
        lemma_not_suffix("SUB A"@, ")"@, 0);
    } else if b == 0x98 {
        reveal_strlit("SBC A,B");
        lemma_not_suffix("SBC A,B"@, ",A"@, 1);
        lemma_not_suffix("SBC A,B"@, ")"@, 0);
    } else if b == 0x99 {
        reveal_strlit("SBC A,C");
        lemma_not_suffix("SBC A,C"@, ",A"@, 1);
        lemma_not_suffix("SBC A,C"@, ")"@, 0);
    } else if b == 0x9a {
        reveal_strlit("SBC A,D");
        lemma_not_suffix("SBC A,D"@, ",A"@, 1);
        lemma_not_suffix("SBC A,D"@, ")"@, 0);
    } else if b == 0x9b {
        reveal_strlit("SBC A,E");
        lemma_not_suffix("SBC A,E"@, ",A"@, 1);
        lemma_not_suffix("SBC A,E"@, ")"@, 0);
    } else if b == 0x9c {
        reveal_strlit("SBC A,H");
        lemma_not_suffix("SBC A,H"@, ",A"@, 1);
        lemma_not_suffix("SBC A,H"@, ")"@, 0);
    } else if b == 0x9d {
        reveal_strlit("SBC A,L");
        lemma_not_suffix("SBC A,L"@, ",A"@, 1);
        lemma_not_suffix("SBC A,L"@, ")"@, 0);
    } else if b == 0x9e {
        reveal_strlit("SBC A,(HL)");
        lemma_not_suffix("SBC A,(HL)"@, ",A"@, 0);
        lemma_not_prefix("SBC A,(HL)"@, "LD A,("@, 0);
        lemma_not_prefix("SBC A,(HL)"@, "LDH A,("@, 0);
    } else {
        reveal_strlit("SBC A,A");
        lemma_not_prefix("SBC A,A"@, "LD ("@, 0);
        lemma_not_prefix("SBC A,A"@, "LDH ("@, 0);
        lemma_not_suffix("SBC A,A"@, ")"@, 0);
    }
}

/// Which opcodes from 0xa0 to 0xbf are described as moves between `A` and memory.
proof fn lemma_move_descriptions_5(b: u8)
    requires
        0xa0 <= b <= 0xbf,
    ensures
        describes_store_of_a(description_of(b)@) ==> is_a_store_opcode(b),
        describes_load_of_a(description_of(b)@) ==> is_a_load_opcode(b),
{
    reveal_strlit("LD (");
    reveal_strlit("LDH (");
    reveal_strlit(",A");
    reveal_strlit("LD A,(");
    reveal_strlit("LDH A,(");
    reveal_strlit(")");
    if b == 0xa0 {
        reveal_strlit("AND B");
        lemma_not_suffix("AND B"@, ",A"@, 0);
        lemma_not_suffix("AND B"@, ")"@, 0);
    } else if b == 0xa1 {
        reveal_strlit("AND C");
        lemma_not_suffix("AND C"@, ",A"@, 0);
        lemma_not_suffix("AND C"@, ")"@, 0);
    } else if b == 0xa2 {
        reveal_strlit("AND D");
        lemma_not_suffix("AND D"@, ",A"@, 0);
        lemma_not_suffix("AND D"@, ")"@, 0);
    } else if b == 0xa3 {
        reveal_strlit("AND E");
        lemma_not_suffix("AND E"@, ",A"@, 0);
        lemma_not_suffix("AND E"@, ")"@, 0);
    } else if b == 0xa4 {
        reveal_strlit("AND H");
        lemma_not_suffix("AND H"@, ",A"@, 0);
        lemma_not_suffix("AND H"@, ")"@, 0);
    } else if b == 0xa5 {
        reveal_strlit("AND L");
        lemma_not_suffix("AND L"@, ",A"@, 0);
        lemma_not_suffix("AND L"@, ")"@, 0);
    } else if b == 0xa6 {
        reveal_strlit("AND (HL)");
        lemma_not_suffix("AND (HL)"@, ",A"@, 0);
        lemma_not_prefix("AND (HL)"@, "LD A,("@, 0);
        lemma_not_prefix("AND (HL)"@, "LDH A,("@, 0);
    } else if b == 0xa7 {
        reveal_strlit("AND A");
        lemma_not_suffix("AND A"@, ",A"@, 0);
        lemma_not_suffix("AND A"@, ")"@, 0);
    } else if b == 0xa8 {
        reveal_strlit("XOR B");
        lemma_not_suffix("XOR B"@, ",A"@, 0);
        lemma_not_suffix("XOR B"@, ")"@, 0);
    } else if b == 0xa9 {
        reveal_strlit("XOR C");
        lemma_not_suffix("XOR C"@, ",A"@, 0);
        lemma_not_suffix("XOR C"@, ")"@, 0);
    } else if b == 0xaa {
        reveal_strlit("XOR D");
        lemma_not_suffix("XOR D"@, ",A"@, 0);
        lemma_not_suffix("XOR D"@, ")"@, 0);
    } else if b == 0xab {
        reveal_strlit("XOR E");
        lemma_not_suffix("XOR E"@, ",A"@, 0);
        lemma_not_suffix("XOR E"@, ")"@, 0);
    } else if b == 0xac {
        reveal_strlit("XOR H");
        lemma_not_suffix("XOR H"@, ",A"@, 0);
        lemma_not_suffix("XOR H"@, ")"@, 0);
    } else if b == 0xad {
        reveal_strlit("XOR L");
        lemma_not_suffix("XOR L"@, ",A"@, 0);
        lemma_not_suffix("XOR L"@, ")"@, 0);
    } else if b == 0xae {
        reveal_strlit("XOR (HL)");
        lemma_not_suffix("XOR (HL)"@, ",A"@, 0);
        lemma_not_prefix("XOR (HL)"@, "LD A,("@, 0);
        lemma_not_prefix("XOR (HL)"@, "LDH A,("@, 0);
    } else if b == 0xaf {
        reveal_strlit("XOR A");
        lemma_not_suffix("XOR A"@, ",A"@, 0);
        lemma_not_suffix("XOR A"@, ")"@, 0);
    } else if b == 0xb0 {
        reveal_strlit("OR B");
        lemma_not_suffix("OR B"@, ",A"@, 0);
        lemma_not_suffix("OR B"@, ")"@, 0);
    } else if b == 0xb1 {
        reveal_strlit("OR C");
        lemma_not_suffix("OR C"@, ",A"@, 0);
        lemma_not_suffix("OR C"@, ")"@, 0);
    } else if b == 0xb2 {
        reveal_strlit("OR D");
        lemma_not_suffix("OR D"@, ",A"@, 0);
        lemma_not_suffix("OR D"@, ")"@, 0);
    } else if b == 0xb3 {
        reveal_strlit("OR E");
        lemma_not_suffix("OR E"@, ",A"@, 0);
        lemma_not_suffix("OR E"@, ")"@, 0);
    } else if b == 0xb4 {
        reveal_strlit("OR H");
        lemma_not_suffix("OR H"@, ",A"@, 0);
        lemma_not_suffix("OR H"@, ")"@, 0);
    } else if b == 0xb5 {
        reveal_strlit("OR L");
        lemma_not_suffix("OR L"@, ",A"@, 0);
        lemma_not_suffix("OR L"@, ")"@, 0);
    } else if b == 0xb6 {
        reveal_strlit("OR (HL)");
        lemma_not_suffix("OR (HL)"@, ",A"@, 0);
        lemma_not_prefix("OR (HL)"@, "LD A,("@, 0);
        lemma_not_prefix("OR (HL)"@, "LDH A,("@, 0);
    } else if b == 0xb7 {
        reveal_strlit("OR A");
        lemma_not_suffix("OR A"@, ",A"@, 0);
        lemma_not_suffix("OR A"@, ")"@, 0);
    } else if b == 0xb8 {
        reveal_strlit("CP B");
        lemma_not_suffix("CP B"@, ",A"@, 0);
        lemma_not_suffix("CP B"@, ")"@, 0);
    } else if b == 0xb9 {
        reveal_strlit("CP C");
        lemma_not_suffix("CP C"@, ",A"@, 0);
        lemma_not_suffix("CP C"@, ")"@, 0);
    } else if b == 0xba {
        reveal_strlit("CP D");
        lemma_not_suffix("CP D"@, ",A"@, 0);
        lemma_not_suffix("CP D"@, ")"@, 0);
    } else if b == 0xbb {
        reveal_strlit("CP E");
        lemma_not_suffix("CP E"@, ",A"@, 0);
        lemma_not_suffix("CP E"@, ")"@, 0);
    } else if b == 0xbc {
        reveal_strlit("CP H");
        lemma_not_suffix("CP H"@, ",A"@, 0);
        lemma_not_suffix("CP H"@, ")"@, 0);
    } else if b == 0xbd {
        reveal_strlit("CP L");
        lemma_not_suffix("CP L"@, ",A"@, 0);
        lemma_not_suffix("CP L"@, ")"@, 0);
    } else if b == 0xbe {
        reveal_strlit("CP (HL)");
        lemma_not_suffix("CP (HL)"@, ",A"@, 0);
        lemma_not_prefix("CP (HL)"@, "LD A,("@, 0);
        lemma_not_prefix("CP (HL)"@, "LDH A,("@, 0);
    } else {
        reveal_strlit("CP A");
        lemma_not_suffix("CP A"@, ",A"@, 0);
        lemma_not_suffix("CP A"@, ")"@, 0);
    }
}

/// Which opcodes from 0xc0 to 0xdf are described as moves between `A` and memory.
proof fn lemma_move_descriptions_6(b: u8)
    requires
        0xc0 <= b <= 0xdf,
    ensures
        describes_store_of_a(description_of(b)@) ==> is_a_store_opcode(b),
        describes_load_of_a(description_of(b)@) ==> is_a_load_opcode(b),
{
    reveal_strlit("LD (");
    reveal_strlit("LDH (");
    reveal_strlit(",A");
    reveal_strlit("LD A,(");
    reveal_strlit("LDH A,(");
    reveal_strlit(")");
    if b == 0xc0 {
        reveal_strlit("RET NZ");
        lemma_not_suffix("RET NZ"@, ",A"@, 0);
        lemma_not_suffix("RET NZ"@, ")"@, 0);
    } else if b == 0xc1 {
        reveal_strlit("POP BC");
        lemma_not_suffix("POP BC"@, ",A"@, 0);
        lemma_not_suffix("POP BC"@, ")"@, 0);
    } else if b == 0xc2 {
        reveal_strlit("JP NZ,a16");
        lemma_not_suffix("JP NZ,a16"@, ",A"@, 0);
        lemma_not_suffix("JP NZ,a16"@, ")"@, 0);
    } else if b == 0xc3 {
        reveal_strlit("JP a16");
        lemma_not_suffix("JP a16"@, ",A"@, 0);
        lemma_not_suffix("JP a16"@, ")"@, 0);
    } else if b == 0xc4 {
        reveal_strlit("CALL NZ,a16");
        lemma_not_suffix("CALL NZ,a16"@, ",A"@, 0);
        lemma_not_suffix("CALL NZ,a16"@, ")"@, 0);
    } else if b == 0xc5 {
        reveal_strlit("PUSH BC");
        lemma_not_suffix("PUSH BC"@, ",A"@, 0);
        lemma_not_suffix("PUSH BC"@, ")"@, 0);
    } else if b == 0xc6 {
        reveal_strlit("ADD A,d8");
        lemma_not_suffix("ADD A,d8"@, ",A"@, 0);
        lemma_not_suffix("ADD A,d8"@, ")"@, 0);
    } else if b == 0xc7 {
        reveal_strlit("RST 00H");
        lemma_not_suffix("RST 00H"@, ",A"@, 0);
        lemma_not_suffix("RST 00H"@, ")"@, 0);
    } else if b == 0xc8 {
        reveal_strlit("RET Z");
        lemma_not_suffix("RET Z"@, ",A"@, 0);
        lemma_not_suffix("RET Z"@, ")"@, 0);
    } else if b == 0xc9 {
        reveal_strlit("RET");
        lemma_not_suffix("RET"@, ",A"@, 0);
        lemma_not_suffix("RET"@, ")"@, 0);
    } else if b == 0xca {
        reveal_strlit("JP Z,a16");
        lemma_not_suffix("JP Z,a16"@, ",A"@, 0);
        lemma_not_suffix("JP Z,a16"@, ")"@, 0);
    } else if b == 0xcb {
        reveal_strlit("PREFIX CB");
        lemma_not_suffix("PREFIX CB"@, ",A"@, 0);
        lemma_not_suffix("PREFIX CB"@, ")"@, 0);
    } else if b == 0xcc {
        reveal_strlit("CALL Z,a16");
        lemma_not_suffix("CALL Z,a16"@, ",A"@, 0);
        lemma_not_suffix("CALL Z,a16"@, ")"@, 0);
    } else if b == 0xcd {
        reveal_strlit("CALL a16");
        lemma_not_suffix("CALL a16"@, ",A"@, 0);
        lemma_not_suffix("CALL a16"@, ")"@, 0);
    } else if b == 0xce {
        reveal_strlit("ADC A,d8");
        lemma_not_suffix("ADC A,d8"@, ",A"@, 0);
        lemma_not_suffix("ADC A,d8"@, ")"@, 0);
    } else if b == 0xcf {
        reveal_strlit("RST 08H");
        lemma_not_suffix("RST 08H"@, ",A"@, 0);
        lemma_not_suffix("RST 08H"@, ")"@, 0);
    } else if b == 0xd0 {
        reveal_strlit("RET NC");
        lemma_not_suffix("RET NC"@, ",A"@, 0);
        lemma_not_suffix("RET NC"@, ")"@, 0);
    } else if b == 0xd1 {
        reveal_strlit("POP DE");
        lemma_not_suffix("POP DE"@, ",A"@, 0);
        lemma_not_suffix("POP DE"@, ")"@, 0);
    } else if b == 0xd2 {
        reveal_strlit("JP NC,a16");
        lemma_not_suffix("JP NC,a16"@, ",A"@, 0);
        lemma_not_suffix("JP NC,a16"@, ")"@, 0);
    } else if b == 0xd3 {
        reveal_strlit("UNUSED");
        lemma_not_suffix("UNUSED"@, ",A"@, 0);
        lemma_not_suffix("UNUSED"@, ")"@, 0);
    } else if b == 0xd4 {
        reveal_strlit("CALL NC,a16");
        lemma_not_suffix("CALL NC,a16"@, ",A"@, 0);
        lemma_not_suffix("CALL NC,a16"@, ")"@, 0);
    } else if b == 0xd5 {
        reveal_strlit("PUSH DE");
        lemma_not_suffix("PUSH DE"@, ",A"@, 0);
        lemma_not_suffix("PUSH DE"@, ")"@, 0);
    } else if b == 0xd6 {
        reveal_strlit("SUB d8");
        lemma_not_suffix("SUB d8"@, ",A"@, 0);
        lemma_not_suffix("SUB d8"@, ")"@, 0);
    } else if b == 0xd7 {
        reveal_strlit("RST 10H");
        lemma_not_suffix("RST 10H"@, ",A"@, 0);
        lemma_not_suffix("RST 10H"@, ")"@, 0);
    } else if b == 0xd8 {
        reveal_strlit("RET C");
        lemma_not_suffix("RET C"@, ",A"@, 0);
        lemma_not_suffix("RET C"@, ")"@, 0);
    } else if b == 0xd9 {
        reveal_strlit("RETI");
        lemma_not_suffix("RETI"@, ",A"@, 0);
        lemma_not_suffix("RETI"@, ")"@, 0);
    } else if b == 0xda {
        reveal_strlit("JP C,a16");
        lemma_not_suffix("JP C,a16"@, ",A"@, 0);
        lemma_not_suffix("JP C,a16"@, ")"@, 0);
    } else if b == 0xdb {
        reveal_strlit("UNUSED");
        lemma_not_suffix("UNUSED"@, ",A"@, 0);
        lemma_not_suffix("UNUSED"@, ")"@, 0);
    } else if b == 0xdc {
        reveal_strlit("CALL C,a16");
        lemma_not_suffix("CALL C,a16"@, ",A"@, 0);
        lemma_not_suffix("CALL C,a16"@, ")"@, 0);
    } else if b == 0xdd {
        reveal_strlit("UNUSED");
        lemma_not_suffix("UNUSED"@, ",A"@, 0);
        lemma_not_suffix("UNUSED"@, ")"@, 0);
    } else if b == 0xde {
        reveal_strlit("SBC A,d8");
        lemma_not_suffix("SBC A,d8"@, ",A"@, 0);
        lemma_not_suffix("SBC A,d8"@, ")"@, 0);
    } else {
        reveal_strlit("RST 18H");
        lemma_not_suffix("RST 18H"@, ",A"@, 0);
        lemma_not_suffix("RST 18H"@, ")"@, 0);
    }
}

/// Which opcodes from 0xe0 to 0xff are described as moves between `A` and memory.
proof fn lemma_move_descriptions_7(b: u8)
    requires
        0xe0 <= b <= 0xff,
    ensures
        describes_store_of_a(description_of(b)@) ==> is_a_store_opcode(b),
        describes_load_of_a(description_of(b)@) ==> is_a_load_opcode(b),
{
    reveal_strlit("LD (");
    reveal_strlit("LDH (");
    reveal_strlit(",A");
    reveal_strlit("LD A,(");
    reveal_strlit("LDH A,(");
    reveal_strlit(")");
    if b == 0xe0 {
        reveal_strlit("LDH (a8),A");
        lemma_not_suffix("LDH (a8),A"@, ")"@, 0);
    } else if b == 0xe1 {
        reveal_strlit("POP HL");
        lemma_not_suffix("POP HL"@, ",A"@, 0);
        lemma_not_suffix("POP HL"@, ")"@, 0);
    } else if b == 0xe2 {
        reveal_strlit("LD (C),A");
        lemma_not_suffix("LD (C),A"@, ")"@, 0);
    } else if b == 0xe3 {
        reveal_strlit("UNUSED");
        lemma_not_suffix("UNUSED"@, ",A"@, 0);
        lemma_not_suffix("UNUSED"@, ")"@, 0);
    } else if b == 0xe4 {
        reveal_strlit("UNUSED");
        lemma_not_suffix("UNUSED"@, ",A"@, 0);
        lemma_not_suffix("UNUSED"@, ")"@, 0);
    } else if b == 0xe5 {
        reveal_strlit("PUSH HL");
        lemma_not_suffix("PUSH HL"@, ",A"@, 0);
        lemma_not_suffix("PUSH HL"@, ")"@, 0);
    } else if b == 0xe6 {
        reveal_strlit("AND d8");
        lemma_not_suffix("AND d8"@, ",A"@, 0);
        lemma_not_suffix("AND d8"@, ")"@, 0);
    } else if b == 0xe7 {
        reveal_strlit("RST 20H");
        lemma_not_suffix("RST 20H"@, ",A"@, 0);
        lemma_not_suffix("RST 20H"@, ")"@, 0);
    } else if b == 0xe8 {
        reveal_strlit("ADD SP,r8");
        lemma_not_suffix("ADD SP,r8"@, ",A"@, 0);
        lemma_not_suffix("ADD SP,r8"@, ")"@, 0);
    } else if b == 0xe9 {
        reveal_strlit("JP (HL)");
        lemma_not_suffix("JP (HL)"@, ",A"@, 0);
        lemma_not_prefix("JP (HL)"@, "LD A,("@, 0);
        lemma_not_prefix("JP (HL)"@, "LDH A,("@, 0);
    } else if b == 0xea {
        reveal_strlit("LD (a16),A");
        lemma_not_suffix("LD (a16),A"@, ")"@, 0);
    } else if b == 0xeb {
        reveal_strlit("UNUSED");
        lemma_not_suffix("UNUSED"@, ",A"@, 0);
        lemma_not_suffix("UNUSED"@, ")"@, 0);
    } else if b == 0xec {
        reveal_strlit("UNUSED");
        lemma_not_suffix("UNUSED"@, ",A"@, 0);
        lemma_not_suffix("UNUSED"@, ")"@, 0);
    } else if b == 0xed {
        reveal_strlit("UNUSED");
        lemma_not_suffix("UNUSED"@, ",A"@, 0);
        lemma_not_suffix("UNUSED"@, ")"@, 0);
    } else if b == 0xee {
        reveal_strlit("XOR d8");
        lemma_not_suffix("XOR d8"@, ",A"@, 0);
        lemma_not_suffix("XOR d8"@, ")"@, 0);
    } else if b == 0xef {
        reveal_strlit("RST 28H");
        lemma_not_suffix("RST 28H"@, ",A"@, 0);
        lemma_not_suffix("RST 28H"@, ")"@, 0);
    } else if b == 0xf0 {
        reveal_strlit("LDH A,(a8)");
        lemma_not_suffix("LDH A,(a8)"@, ",A"@, 0);
    } else if b == 0xf1 {
        reveal_strlit("POP AF");
        lemma_not_suffix("POP AF"@, ",A"@, 0);
        lemma_not_suffix("POP AF"@, ")"@, 0);
    } else if b == 0xf2 {
        reveal_strlit("LD A,(C)");
        lemma_not_suffix("LD A,(C)"@, ",A"@, 0);
    } else if b == 0xf3 {
        reveal_strlit("DI");
        lemma_not_suffix("DI"@, ",A"@, 0);
        lemma_not_suffix("DI"@, ")"@, 0);
    } else if b == 0xf4 {
        reveal_strlit("UNUSED");
        lemma_not_suffix("UNUSED"@, ",A"@, 0);
        lemma_not_suffix("UNUSED"@, ")"@, 0);
    } else if b == 0xf5 {
        reveal_strlit("PUSH AF");
        lemma_not_suffix("PUSH AF"@, ",A"@, 0);
        lemma_not_suffix("PUSH AF"@, ")"@, 0);
    } else if b == 0xf6 {
        reveal_strlit("OR d8");
        lemma_not_suffix("OR d8"@, ",A"@, 0);
        lemma_not_suffix("OR d8"@, ")"@, 0);
    } else if b == 0xf7 {
        reveal_strlit("RST 30H");
        lemma_not_suffix("RST 30H"@, ",A"@, 0);
        lemma_not_suffix("RST 30H"@, ")"@, 0);
    } else if b == 0xf8 {
        reveal_strlit("LD HL,SP+r8");
        lemma_not_suffix("LD HL,SP+r8"@, ",A"@, 0);
        lemma_not_suffix("LD HL,SP+r8"@, ")"@, 0);
    } else if b == 0xf9 {
        reveal_strlit("LD SP,HL");
        lemma_not_suffix("LD SP,HL"@, ",A"@, 0);
        lemma_not_suffix("LD SP,HL"@, ")"@, 0);
    } else if b == 0xfa {
        reveal_strlit("LD A,(a16)");
        lemma_not_suffix("LD A,(a16)"@, ",A"@, 0);
    } else if b == 0xfb {
        reveal_strlit("EI");
        lemma_not_suffix("EI"@, ",A"@, 0);
        lemma_not_suffix("EI"@, ")"@, 0);
    } else if b == 0xfc {
        reveal_strlit("UNUSED");
        lemma_not_suffix("UNUSED"@, ",A"@, 0);
        lemma_not_suffix("UNUSED"@, ")"@, 0);
    } else if b == 0xfd {
        reveal_strlit("UNUSED");
        lemma_not_suffix("UNUSED"@, ",A"@, 0);
        lemma_not_suffix("UNUSED"@, ")"@, 0);
    } else if b == 0xfe {
        reveal_strlit("CP d8");
        lemma_not_suffix("CP d8"@, ",A"@, 0);
        lemma_not_suffix("CP d8"@, ")"@, 0);
    } else {
        reveal_strlit("RST 38H");
        lemma_not_suffix("RST 38H"@, ",A"@, 0);
        lemma_not_suffix("RST 38H"@, ")"@, 0);
    }
}

/// Which opcodes are described as moves between `A` and memory.
pub proof fn lemma_move_descriptions(b: u8)
    ensures
        describes_store_of_a(description_of(b)@) ==> is_a_store_opcode(b),
        describes_load_of_a(description_of(b)@) ==> is_a_load_opcode(b),
{
    if b < 0x20 {
        lemma_move_descriptions_0(b);
    } else if b < 0x40 {
        lemma_move_descriptions_1(b);
    } else if b < 0x60 {
        lemma_move_descriptions_2(b);
    } else if b < 0x80 {
        lemma_move_descriptions_3(b);
    } else if b < 0xA0 {
        lemma_move_descriptions_4(b);
    } else if b < 0xC0 {
        lemma_move_descriptions_5(b);
    } else if b < 0xE0 {
        lemma_move_descriptions_6(b);
    } else {
        lemma_move_descriptions_7(b);
    }
}

/// The mnemonic of an instruction, in Z80 assembly syntax.
pub open spec fn description_of(byte: u8) -> &'static str {
    match byte {
        0x00 => "NOP",
        0x01 => "LD BC,d16",
        0x02 => "LD (BC),A",
        0x03 => "INC BC",
        0x04 => "INC B",
        0x05 => "DEC B",
        0x06 => "LD B,d8",
        0x07 => "RLCA",
        0x08 => "LD (a16),SP",
        0x09 => "ADD HL,BC",
        0x0a => "LD A,(BC)",
        0x0b => "DEC BC",
        0x0c => "INC C",
        0x0d => "DEC C",
        0x0e => "LD C,d8",
        0x0f => "RRCA",
        0x10 => "STOP",
        0x11 => "LD DE,d16",
        0x12 => "LD (DE),A",
        0x13 => "INC DE",
        0x14 => "INC D",
        0x15 => "DEC D",
        0x16 => "LD D,d8",
        0x17 => "RLA",
        0x18 => "JR r8",
        0x19 => "ADD HL,DE",
        0x1a => "LD A,(DE)",
        0x1b => "DEC DE",
        0x1c => "INC E",
        0x1d => "DEC E",
        0x1e => "LD E,d8",
        0x1f => "RRA",
        0x20 => "JR NZ,r8",
        0x21 => "LD HL,d16",
        0x22 => "LD (HL+),A",
        0x23 => "INC HL",
        0x24 => "INC H",
        0x25 => "DEC H",
        0x26 => "LD H,d8",
        0x27 => "DAA",
        0x28 => "JR Z,r8",
        0x29 => "ADD HL,HL",
        0x2a => "LD A,(HL+)",
        0x2b => "DEC HL",
        0x2c => "INC L",
        0x2d => "DEC L",
        0x2e => "LD L,d8",
        0x2f => "CPL",
        0x30 => "JR NC,r8",
        0x31 => "LD SP,d16",
        0x32 => "LD (HL-),A",
        0x33 => "INC SP",
        0x34 => "INC (HL)",
        0x35 => "DEC (HL)",
        0x36 => "LD (HL),d8",
        0x37 => "SCF",
        0x38 => "JR C,r8",
        0x39 => "ADD HL,SP",
        0x3a => "LD A,(HL-)",
        0x3b => "DEC SP",
        0x3c => "INC A",
        0x3d => "DEC A",
        0x3e => "LD A,d8",
        0x3f => "CCF",
        0x40 => "LD B,B",
        0x41 => "LD B,C",
        0x42 => "LD B,D",
        0x43 => "LD B,E",
        0x44 => "LD B,H",
        0x45 => "LD B,L",
        0x46 => "LD B,(HL)",
        0x47 => "LD B,A",
        0x48 => "LD C,B",
        0x49 => "LD C,C",
        0x4a => "LD C,D",
        0x4b => "LD C,E",
        0x4c => "LD C,H",
        0x4d => "LD C,L",
        0x4e => "LD C,(HL)",
        0x4f => "LD C,A",
        0x50 => "LD D,B",
        0x51 => "LD D,C",
        0x52 => "LD D,D",
        0x53 => "LD D,E",
        0x54 => "LD D,H",
        0x55 => "LD D,L",
        0x56 => "LD D,(HL)",
        0x57 => "LD D,A",
        0x58 => "LD E,B",
        0x59 => "LD E,C",
        0x5a => "LD E,D",
        0x5b => "LD E,E",
        0x5c => "LD E,H",
        0x5d => "LD E,L",
        0x5e => "LD E,(HL)",
        0x5f => "LD E,A",
        0x60 => "LD H,B",
        0x61 => "LD H,C",
        0x62 => "LD H,D",
        0x63 => "LD H,E",
        0x64 => "LD H,H",
        0x65 => "LD H,L",
        0x66 => "LD H,(HL)",
        0x67 => "LD H,A",
        0x68 => "LD L,B",
        0x69 => "LD L,C",
        0x6a => "LD L,D",
        0x6b => "LD L,E",
        0x6c => "LD L,H",
        0x6d => "LD L,L",
        0x6e => "LD L,(HL)",
        0x6f => "LD L,A",
        0x70 => "LD (HL),B",
        0x71 => "LD (HL),C",
        0x72 => "LD (HL),D",
        0x73 => "LD (HL),E",
        0x74 => "LD (HL),H",
        0x75 => "LD (HL),L",
        0x76 => "HALT",
        0x77 => "LD (HL),A",
        0x78 => "LD A,B",
        0x79 => "LD A,C",
        0x7a => "LD A,D",
        0x7b => "LD A,E",
        0x7c => "LD A,H",
        0x7d => "LD A,L",
        0x7e => "LD A,(HL)",
        0x7f => "LD A,A",
        0x80 => "ADD A,B",
        0x81 => "ADD A,C",
        0x82 => "ADD A,D",
        0x83 => "ADD A,E",
        0x84 => "ADD A,H",
        0x85 => "ADD A,L",
        0x86 => "ADD A,(HL)",
        0x87 => "ADD A,A",
        0x88 => "ADC A,B",
        0x89 => "ADC A,C",
        0x8a => "ADC A,D",
        0x8b => "ADC A,E",
        0x8c => "ADC A,H",
        0x8d => "ADC A,L",
        0x8e => "ADC A,(HL)",
        0x8f => "ADC A,A",
        0x90 => "SUB B",
        0x91 => "SUB C",
        0x92 => "SUB D",
        0x93 => "SUB E",
        0x94 => "SUB H",
        0x95 => "SUB L",
        0x96 => "SUB (HL)",
        0x97 => "SUB A",
        0x98 => "SBC A,B",
        0x99 => "SBC A,C",
        0x9a => "SBC A,D",
        0x9b => "SBC A,E",
        0x9c => "SBC A,H",
        0x9d => "SBC A,L",
        0x9e => "SBC A,(HL)",
        0x9f => "SBC A,A",
        0xa0 => "AND B",
        0xa1 => "AND C",
        0xa2 => "AND D",
        0xa3 => "AND E",
        0xa4 => "AND H",
        0xa5 => "AND L",
        0xa6 => "AND (HL)",
        0xa7 => "AND A",
        0xa8 => "XOR B",
        0xa9 => "XOR C",
        0xaa => "XOR D",
        0xab => "XOR E",
        0xac => "XOR H",
        0xad => "XOR L",
        0xae => "XOR (HL)",
        0xaf => "XOR A",
        0xb0 => "OR B",
        0xb1 => "OR C",
        0xb2 => "OR D",
        0xb3 => "OR E",
        0xb4 => "OR H",
        0xb5 => "OR L",
        0xb6 => "OR (HL)",
        0xb7 => "OR A",
        0xb8 => "CP B",
        0xb9 => "CP C",
        0xba => "CP D",
        0xbb => "CP E",
        0xbc => "CP H",
        0xbd => "CP L",
        0xbe => "CP (HL)",
        0xbf => "CP A",
        0xc0 => "RET NZ",
        0xc1 => "POP BC",
        0xc2 => "JP NZ,a16",
        0xc3 => "JP a16",
        0xc4 => "CALL NZ,a16",
        0xc5 => "PUSH BC",
        0xc6 => "ADD A,d8",
        0xc7 => "RST 00H",
        0xc8 => "RET Z",
        0xc9 => "RET",
        0xca => "JP Z,a16",
        0xcb => "PREFIX CB",
        0xcc => "CALL Z,a16",
        0xcd => "CALL a16",
        0xce => "ADC A,d8",
        0xcf => "RST 08H",
        0xd0 => "RET NC",
        0xd1 => "POP DE",
        0xd2 => "JP NC,a16",
        0xd3 => "UNUSED",
        0xd4 => "CALL NC,a16",
        0xd5 => "PUSH DE",
        0xd6 => "SUB d8",
        0xd7 => "RST 10H",
        0xd8 => "RET C",
        0xd9 => "RETI",
        0xda => "JP C,a16",
        0xdb => "UNUSED",
        0xdc => "CALL C,a16",
        0xdd => "UNUSED",
        0xde => "SBC A,d8",
        0xdf => "RST 18H",
        0xe0 => "LDH (a8),A",
        0xe1 => "POP HL",
        0xe2 => "LD (C),A",
        0xe3 => "UNUSED",
        0xe4 => "UNUSED",
        0xe5 => "PUSH HL",
        0xe6 => "AND d8",
        0xe7 => "RST 20H",
        0xe8 => "ADD SP,r8",
        0xe9 => "JP (HL)",
        0xea => "LD (a16),A",
        0xeb => "UNUSED",
        0xec => "UNUSED",
        0xed => "UNUSED",
        0xee => "XOR d8",
        0xef => "RST 28H",
        0xf0 => "LDH A,(a8)",
        0xf1 => "POP AF",
        0xf2 => "LD A,(C)",
        0xf3 => "DI",
        0xf4 => "UNUSED",
        0xf5 => "PUSH AF",
        0xf6 => "OR d8",
        0xf7 => "RST 30H",
        0xf8 => "LD HL,SP+r8",
        0xf9 => "LD SP,HL",
        0xfa => "LD A,(a16)",
        0xfb => "EI",
        0xfc => "UNUSED",
        0xfd => "UNUSED",
        0xfe => "CP d8",
        _ => "RST 38H",
    }
}

/// The instruction set: the definition of each instruction, by its byte.
pub fn instruction_def(byte: u8) -> (r: InstructionDef)
    ensures
        r == spec_instruction_def(byte),
{
    match byte {
        0x00 => InstructionDef { byte: 0x00, description: "NOP", num_operands: 0, cycles: TCycles(4), condition_cycles: None },
        0x01 => InstructionDef { byte: 0x01, description: "LD BC,d16", num_operands: 2, cycles: TCycles(12), condition_cycles: None },
        0x02 => InstructionDef { byte: 0x02, description: "LD (BC),A", num_operands: 0, cycles: TCycles(8), condition_cycles: None },
        0x03 => InstructionDef { byte: 0x03, description: "INC BC", num_operands: 0, cycles: TCycles(8), condition_cycles: None },
        0x04 => InstructionDef { byte: 0x04, description: "INC B", num_operands: 0, cycles: TCycles(4), condition_cycles: None },
        0x05 => InstructionDef { byte: 0x05, description: "DEC B", num_operands: 0, cycles: TCycles(4), condition_cycles: None },
        0x06 => InstructionDef { byte: 0x06, description: "LD B,d8", num_operands: 1, cycles: TCycles(8), condition_cycles: None },
        0x07 => InstructionDef { byte: 0x07, description: "RLCA", num_operands: 0, cycles: TCycles(4), condition_cycles: None },
        0x08 => InstructionDef { byte: 0x08, description: "LD (a16),SP", num_operands: 2, cycles: TCycles(20), condition_cycles: None },
        0x09 => InstructionDef { byte: 0x09, description: "ADD HL,BC", num_operands: 0, cycles: TCycles(8), condition_cycles: None },
        0x0a => InstructionDef { byte: 0x0a, description: "LD A,(BC)", num_operands: 0, cycles: TCycles(8), condition_cycles: None },
        0x0b => InstructionDef { byte: 0x0b, description: "DEC BC", num_operands: 0, cycles: TCycles(8), condition_cycles: None },
        0x0c => InstructionDef { byte: 0x0c, description: "INC C", num_operands: 0, cycles: TCycles(4), condition_cycles: None },
        0x0d => InstructionDef { byte: 0x0d, description: "DEC C", num_operands: 0, cycles: TCycles(4), condition_cycles: None },
        0x0e => InstructionDef { byte: 0x0e, description: "LD C,d8", num_operands: 1, cycles: TCycles(8), condition_cycles: None },
        0x0f => InstructionDef { byte: 0x0f, description: "RRCA", num_operands: 0, cycles: TCycles(4), condition_cycles: None },
        0x10 => InstructionDef { byte: 0x10, description: "STOP", num_operands: 0, cycles: TCycles(4), condition_cycles: None },
        0x11 => InstructionDef { byte: 0x11, description: "LD DE,d16", num_operands: 2, cycles: TCycles(12), condition_cycles: None },
        0x12 => InstructionDef { byte: 0x12, description: "LD (DE),A", num_operands: 0, cycles: TCycles(8), condition_cycles: None },
        0x13 => InstructionDef { byte: 0x13, description: "INC DE", num_operands: 0, cycles: TCycles(8), condition_cycles: None },
        0x14 => InstructionDef { byte: 0x14, description: "INC D", num_operands: 0, cycles: TCycles(4), condition_cycles: None },
        0x15 => InstructionDef { byte: 0x15, description: "DEC D", num_operands: 0, cycles: TCycles(4), condition_cycles: None },
        0x16 => InstructionDef { byte: 0x16, description: "LD D,d8", num_operands: 1, cycles: TCycles(8), condition_cycles: None },
        0x17 => InstructionDef { byte: 0x17, description: "RLA", num_operands: 0, cycles: TCycles(4), condition_cycles: None },
        0x18 => InstructionDef { byte: 0x18, description: "JR r8", num_operands: 1, cycles: TCycles(12), condition_cycles: None },
        0x19 => InstructionDef { byte: 0x19, description: "ADD HL,DE", num_operands: 0, cycles: TCycles(8), condition_cycles: None },
        0x1a => InstructionDef { byte: 0x1a, description: "LD A,(DE)", num_operands: 0, cycles: TCycles(8), condition_cycles: None },
        0x1b => InstructionDef { byte: 0x1b, description: "DEC DE", num_operands: 0, cycles: TCycles(8), condition_cycles: None },
        0x1c => InstructionDef { byte: 0x1c, description: "INC E", num_operands: 0, cycles: TCycles(4), condition_cycles: None },
        0x1d => InstructionDef { byte: 0x1d, description: "DEC E", num_operands: 0, cycles: TCycles(4), condition_cycles: None },
        0x1e => InstructionDef { byte: 0x1e, description: "LD E,d8", num_operands: 1, cycles: TCycles(8), condition_cycles: None },
        0x1f => InstructionDef { byte: 0x1f, description: "RRA", num_operands: 0, cycles: TCycles(4), condition_cycles: None },
        0x20 => InstructionDef { byte: 0x20, description: "JR NZ,r8", num_operands: 1, cycles: TCycles(8), condition_cycles: Some(TCycles(12)) },
        0x21 => InstructionDef { byte: 0x21, description: "LD HL,d16", num_operands: 2, cycles: TCycles(12), condition_cycles: None },
        0x22 => InstructionDef { byte: 0x22, description: "LD (HL+),A", num_operands: 0, cycles: TCycles(8), condition_cycles: None },
        0x23 => InstructionDef { byte: 0x23, description: "INC HL", num_operands: 0, cycles: TCycles(8), condition_cycles: None },
        0x24 => InstructionDef { byte: 0x24, description: "INC H", num_operands: 0, cycles: TCycles(4), condition_cycles: None },
        0x25 => InstructionDef { byte: 0x25, description: "DEC H", num_operands: 0, cycles: TCycles(4), condition_cycles: None },
        0x26 => InstructionDef { byte: 0x26, description: "LD H,d8", num_operands: 1, cycles: TCycles(8), condition_cycles: None },
        0x27 => InstructionDef { byte: 0x27, description: "DAA", num_operands: 0, cycles: TCycles(4), condition_cycles: None },
        0x28 => InstructionDef { byte: 0x28, description: "JR Z,r8", num_operands: 1, cycles: TCycles(8), condition_cycles: Some(TCycles(12)) },
        0x29 => InstructionDef { byte: 0x29, description: "ADD HL,HL", num_operands: 0, cycles: TCycles(8), condition_cycles: None },
        0x2a => InstructionDef { byte: 0x2a, description: "LD A,(HL+)", num_operands: 0, cycles: TCycles(8), condition_cycles: None },
        0x2b => InstructionDef { byte: 0x2b, description: "DEC HL", num_operands: 0, cycles: TCycles(8), condition_cycles: None },
        0x2c => InstructionDef { byte: 0x2c, description: "INC L", num_operands: 0, cycles: TCycles(4), condition_cycles: None },
        0x2d => InstructionDef { byte: 0x2d, description: "DEC L", num_operands: 0, cycles: TCycles(4), condition_cycles: None },
        0x2e => InstructionDef { byte: 0x2e, description: "LD L,d8", num_operands: 1, cycles: TCycles(8), condition_cycles: None },
        0x2f => InstructionDef { byte: 0x2f, description: "CPL", num_operands: 0, cycles: TCycles(4), condition_cycles: None },
        0x30 => InstructionDef { byte: 0x30, description: "JR NC,r8", num_operands: 1, cycles: TCycles(8), condition_cycles: Some(TCycles(12)) },
        0x31 => InstructionDef { byte: 0x31, description: "LD SP,d16", num_operands: 2, cycles: TCycles(12), condition_cycles: None },
        0x32 => InstructionDef { byte: 0x32, description: "LD (HL-),A", num_operands: 0, cycles: TCycles(8), condition_cycles: None },
        0x33 => InstructionDef { byte: 0x33, description: "INC SP", num_operands: 0, cycles: TCycles(8), condition_cycles: None },
        0x34 => InstructionDef { byte: 0x34, description: "INC (HL)", num_operands: 0, cycles: TCycles(12), condition_cycles: None },
        0x35 => InstructionDef { byte: 0x35, description: "DEC (HL)", num_operands: 0, cycles: TCycles(12), condition_cycles: None },
        0x36 => InstructionDef { byte: 0x36, description: "LD (HL),d8", num_operands: 1, cycles: TCycles(12), condition_cycles: None },
        0x37 => InstructionDef { byte: 0x37, description: "SCF", num_operands: 0, cycles: TCycles(4), condition_cycles: None },
        0x38 => InstructionDef { byte: 0x38, description: "JR C,r8", num_operands: 1, cycles: TCycles(8), condition_cycles: Some(TCycles(12)) },
        0x39 => InstructionDef { byte: 0x39, description: "ADD HL,SP", num_operands: 0, cycles: TCycles(8), condition_cycles: None },
        0x3a => InstructionDef { byte: 0x3a, description: "LD A,(HL-)", num_operands: 0, cycles: TCycles(8), condition_cycles: None },
        0x3b => InstructionDef { byte: 0x3b, description: "DEC SP", num_operands: 0, cycles: TCycles(8), condition_cycles: None },
        0x3c => InstructionDef { byte: 0x3c, description: "INC A", num_operands: 0, cycles: TCycles(4), condition_cycles: None },
        0x3d => InstructionDef { byte: 0x3d, description: "DEC A", num_operands: 0, cycles: TCycles(4), condition_cycles: None },
        0x3e => InstructionDef { byte: 0x3e, description: "LD A,d8", num_operands: 1, cycles: TCycles(8), condition_cycles: None },
        0x3f => InstructionDef { byte: 0x3f, description: "CCF", num_operands: 0, cycles: TCycles(4), condition_cycles: None },
        0x40 => InstructionDef { byte: 0x40, description: "LD B,B", num_operands: 0, cycles: TCycles(4), condition_cycles: None },
        0x41 => InstructionDef { byte: 0x41, description: "LD B,C", num_operands: 0, cycles: TCycles(4), condition_cycles: None },
        0x42 => InstructionDef { byte: 0x42, description: "LD B,D", num_operands: 0, cycles: TCycles(4), condition_cycles: None },
        0x43 => InstructionDef { byte: 0x43, description: "LD B,E", num_operands: 0, cycles: TCycles(4), condition_cycles: None },
        0x44 => InstructionDef { byte: 0x44, description: "LD B,H", num_operands: 0, cycles: TCycles(4), condition_cycles: None },
        0x45 => InstructionDef { byte: 0x45, description: "LD B,L", num_operands: 0, cycles: TCycles(4), condition_cycles: None },
        0x46 => InstructionDef { byte: 0x46, description: "LD B,(HL)", num_operands: 0, cycles: TCycles(8), condition_cycles: None },
        0x47 => InstructionDef { byte: 0x47, description: "LD B,A", num_operands: 0, cycles: TCycles(4), condition_cycles: None },
        0x48 => InstructionDef { byte: 0x48, description: "LD C,B", num_operands: 0, cycles: TCycles(4), condition_cycles: None },
        0x49 => InstructionDef { byte: 0x49, description: "LD C,C", num_operands: 0, cycles: TCycles(4), condition_cycles: None },
        0x4a => InstructionDef { byte: 0x4a, description: "LD C,D", num_operands: 0, cycles: TCycles(4), condition_cycles: None },
        0x4b => InstructionDef { byte: 0x4b, description: "LD C,E", num_operands: 0, cycles: TCycles(4), condition_cycles: None },
        0x4c => InstructionDef { byte: 0x4c, description: "LD C,H", num_operands: 0, cycles: TCycles(4), condition_cycles: None },
        0x4d => InstructionDef { byte: 0x4d, description: "LD C,L", num_operands: 0, cycles: TCycles(4), condition_cycles: None },
        0x4e => InstructionDef { byte: 0x4e, description: "LD C,(HL)", num_operands: 0, cycles: TCycles(8), condition_cycles: None },
        0x4f => InstructionDef { byte: 0x4f, description: "LD C,A", num_operands: 0, cycles: TCycles(4), condition_cycles: None },
        0x50 => InstructionDef { byte: 0x50, description: "LD D,B", num_operands: 0, cycles: TCycles(4), condition_cycles: None },
        0x51 => InstructionDef { byte: 0x51, description: "LD D,C", num_operands: 0, cycles: TCycles(4), condition_cycles: None },
        0x52 => InstructionDef { byte: 0x52, description: "LD D,D", num_operands: 0, cycles: TCycles(4), condition_cycles: None },
        0x53 => InstructionDef { byte: 0x53, description: "LD D,E", num_operands: 0, cycles: TCycles(4), condition_cycles: None },
        0x54 => InstructionDef { byte: 0x54, description: "LD D,H", num_operands: 0, cycles: TCycles(4), condition_cycles: None },
        0x55 => InstructionDef { byte: 0x55, description: "LD D,L", num_operands: 0, cycles: TCycles(4), condition_cycles: None },
        0x56 => InstructionDef { byte: 0x56, description: "LD D,(HL)", num_operands: 0, cycles: TCycles(8), condition_cycles: None },
        0x57 => InstructionDef { byte: 0x57, description: "LD D,A", num_operands: 0, cycles: TCycles(4), condition_cycles: None },
        0x58 => InstructionDef { byte: 0x58, description: "LD E,B", num_operands: 0, cycles: TCycles(4), condition_cycles: None },
        0x59 => InstructionDef { byte: 0x59, description: "LD E,C", num_operands: 0, cycles: TCycles(4), condition_cycles: None },
        0x5a => InstructionDef { byte: 0x5a, description: "LD E,D", num_operands: 0, cycles: TCycles(4), condition_cycles: None },
        0x5b => InstructionDef { byte: 0x5b, description: "LD E,E", num_operands: 0, cycles: TCycles(4), condition_cycles: None },
        0x5c => InstructionDef { byte: 0x5c, description: "LD E,H", num_operands: 0, cycles: TCycles(4), condition_cycles: None },
        0x5d => InstructionDef { byte: 0x5d, description: "LD E,L", num_operands: 0, cycles: TCycles(4), condition_cycles: None },
        0x5e => InstructionDef { byte: 0x5e, description: "LD E,(HL)", num_operands: 0, cycles: TCycles(8), condition_cycles: None },
        0x5f => InstructionDef { byte: 0x5f, description: "LD E,A", num_operands: 0, cycles: TCycles(4), condition_cycles: None },
        0x60 => InstructionDef { byte: 0x60, description: "LD H,B", num_operands: 0, cycles: TCycles(4), condition_cycles: None },
        0x61 => InstructionDef { byte: 0x61, description: "LD H,C", num_operands: 0, cycles: TCycles(4), condition_cycles: None },
        0x62 => InstructionDef { byte: 0x62, description: "LD H,D", num_operands: 0, cycles: TCycles(4), condition_cycles: None },
        0x63 => InstructionDef { byte: 0x63, description: "LD H,E", num_operands: 0, cycles: TCycles(4), condition_cycles: None },
        0x64 => InstructionDef { byte: 0x64, description: "LD H,H", num_operands: 0, cycles: TCycles(4), condition_cycles: None },
        0x65 => InstructionDef { byte: 0x65, description: "LD H,L", num_operands: 0, cycles: TCycles(4), condition_cycles: None },
        0x66 => InstructionDef { byte: 0x66, description: "LD H,(HL)", num_operands: 0, cycles: TCycles(8), condition_cycles: None },
        0x67 => InstructionDef { byte: 0x67, description: "LD H,A", num_operands: 0, cycles: TCycles(4), condition_cycles: None },
        0x68 => InstructionDef { byte: 0x68, description: "LD L,B", num_operands: 0, cycles: TCycles(4), condition_cycles: None },
        0x69 => InstructionDef { byte: 0x69, description: "LD L,C", num_operands: 0, cycles: TCycles(4), condition_cycles: None },
        0x6a => InstructionDef { byte: 0x6a, description: "LD L,D", num_operands: 0, cycles: TCycles(4), condition_cycles: None },
        0x6b => InstructionDef { byte: 0x6b, description: "LD L,E", num_operands: 0, cycles: TCycles(4), condition_cycles: None },
        0x6c => InstructionDef { byte: 0x6c, description: "LD L,H", num_operands: 0, cycles: TCycles(4), condition_cycles: None },
        0x6d => InstructionDef { byte: 0x6d, description: "LD L,L", num_operands: 0, cycles: TCycles(4), condition_cycles: None },
        0x6e => InstructionDef { byte: 0x6e, description: "LD L,(HL)", num_operands: 0, cycles: TCycles(8), condition_cycles: None },
        0x6f => InstructionDef { byte: 0x6f, description: "LD L,A", num_operands: 0, cycles: TCycles(4), condition_cycles: None },
        0x70 => InstructionDef { byte: 0x70, description: "LD (HL),B", num_operands: 0, cycles: TCycles(8), condition_cycles: None },
        0x71 => InstructionDef { byte: 0x71, description: "LD (HL),C", num_operands: 0, cycles: TCycles(8), condition_cycles: None },
        0x72 => InstructionDef { byte: 0x72, description: "LD (HL),D", num_operands: 0, cycles: TCycles(8), condition_cycles: None },
        0x73 => InstructionDef { byte: 0x73, description: "LD (HL),E", num_operands: 0, cycles: TCycles(8), condition_cycles: None },
        0x74 => InstructionDef { byte: 0x74, description: "LD (HL),H", num_operands: 0, cycles: TCycles(8), condition_cycles: None },
        0x75 => InstructionDef { byte: 0x75, description: "LD (HL),L", num_operands: 0, cycles: TCycles(8), condition_cycles: None },
        0x76 => InstructionDef { byte: 0x76, description: "HALT", num_operands: 0, cycles: TCycles(4), condition_cycles: None },
        0x77 => InstructionDef { byte: 0x77, description: "LD (HL),A", num_operands: 0, cycles: TCycles(8), condition_cycles: None },
        0x78 => InstructionDef { byte: 0x78, description: "LD A,B", num_operands: 0, cycles: TCycles(4), condition_cycles: None },
        0x79 => InstructionDef { byte: 0x79, description: "LD A,C", num_operands: 0, cycles: TCycles(4), condition_cycles: None },
        0x7a => InstructionDef { byte: 0x7a, description: "LD A,D", num_operands: 0, cycles: TCycles(4), condition_cycles: None },
        0x7b => InstructionDef { byte: 0x7b, description: "LD A,E", num_operands: 0, cycles: TCycles(4), condition_cycles: None },
        0x7c => InstructionDef { byte: 0x7c, description: "LD A,H", num_operands: 0, cycles: TCycles(4), condition_cycles: None },
        0x7d => InstructionDef { byte: 0x7d, description: "LD A,L", num_operands: 0, cycles: TCycles(4), condition_cycles: None },
        0x7e => InstructionDef { byte: 0x7e, description: "LD A,(HL)", num_operands: 0, cycles: TCycles(8), condition_cycles: None },
        0x7f => InstructionDef { byte: 0x7f, description: "LD A,A", num_operands: 0, cycles: TCycles(4), condition_cycles: None },
        0x80 => InstructionDef { byte: 0x80, description: "ADD A,B", num_operands: 0, cycles: TCycles(4), condition_cycles: None },
        0x81 => InstructionDef { byte: 0x81, description: "ADD A,C", num_operands: 0, cycles: TCycles(4), condition_cycles: None },
        0x82 => InstructionDef { byte: 0x82, description: "ADD A,D", num_operands: 0, cycles: TCycles(4), condition_cycles: None },
        0x83 => InstructionDef { byte: 0x83, description: "ADD A,E", num_operands: 0, cycles: TCycles(4), condition_cycles: None },
        0x84 => InstructionDef { byte: 0x84, description: "ADD A,H", num_operands: 0, cycles: TCycles(4), condition_cycles: None },
        0x85 => InstructionDef { byte: 0x85, description: "ADD A,L", num_operands: 0, cycles: TCycles(4), condition_cycles: None },
        0x86 => InstructionDef { byte: 0x86, description: "ADD A,(HL)", num_operands: 0, cycles: TCycles(8), condition_cycles: None },
        0x87 => InstructionDef { byte: 0x87, description: "ADD A,A", num_operands: 0, cycles: TCycles(4), condition_cycles: None },
        0x88 => InstructionDef { byte: 0x88, description: "ADC A,B", num_operands: 0, cycles: TCycles(4), condition_cycles: None },
        0x89 => InstructionDef { byte: 0x89, description: "ADC A,C", num_operands: 0, cycles: TCycles(4), condition_cycles: None },
        0x8a => InstructionDef { byte: 0x8a, description: "ADC A,D", num_operands: 0, cycles: TCycles(4), condition_cycles: None },
        0x8b => InstructionDef { byte: 0x8b, description: "ADC A,E", num_operands: 0, cycles: TCycles(4), condition_cycles: None },
        0x8c => InstructionDef { byte: 0x8c, description: "ADC A,H", num_operands: 0, cycles: TCycles(4), condition_cycles: None },
        0x8d => InstructionDef { byte: 0x8d, description: "ADC A,L", num_operands: 0, cycles: TCycles(4), condition_cycles: None },
        0x8e => InstructionDef { byte: 0x8e, description: "ADC A,(HL)", num_operands: 0, cycles: TCycles(8), condition_cycles: None },
        0x8f => InstructionDef { byte: 0x8f, description: "ADC A,A", num_operands: 0, cycles: TCycles(4), condition_cycles: None },
        0x90 => InstructionDef { byte: 0x90, description: "SUB B", num_operands: 0, cycles: TCycles(4), condition_cycles: None },
        0x91 => InstructionDef { byte: 0x91, description: "SUB C", num_operands: 0, cycles: TCycles(4), condition_cycles: None },
        0x92 => InstructionDef { byte: 0x92, description: "SUB D", num_operands: 0, cycles: TCycles(4), condition_cycles: None },
        0x93 => InstructionDef { byte: 0x93, description: "SUB E", num_operands: 0, cycles: TCycles(4), condition_cycles: None },
        0x94 => InstructionDef { byte: 0x94, description: "SUB H", num_operands: 0, cycles: TCycles(4), condition_cycles: None },
        0x95 => InstructionDef { byte: 0x95, description: "SUB L", num_operands: 0, cycles: TCycles(4), condition_cycles: None },
        0x96 => InstructionDef { byte: 0x96, description: "SUB (HL)", num_operands: 0, cycles: TCycles(8), condition_cycles: None },
        0x97 => InstructionDef { byte: 0x97, description: "SUB A", num_operands: 0, cycles: TCycles(4), condition_cycles: None },
        0x98 => InstructionDef { byte: 0x98, description: "SBC A,B", num_operands: 0, cycles: TCycles(4), condition_cycles: None },
        0x99 => InstructionDef { byte: 0x99, description: "SBC A,C", num_operands: 0, cycles: TCycles(4), condition_cycles: None },
        0x9a => InstructionDef { byte: 0x9a, description: "SBC A,D", num_operands: 0, cycles: TCycles(4), condition_cycles: None },
        0x9b => InstructionDef { byte: 0x9b, description: "SBC A,E", num_operands: 0, cycles: TCycles(4), condition_cycles: None },
        0x9c => InstructionDef { byte: 0x9c, description: "SBC A,H", num_operands: 0, cycles: TCycles(4), condition_cycles: None },
        0x9d => InstructionDef { byte: 0x9d, description: "SBC A,L", num_operands: 0, cycles: TCycles(4), condition_cycles: None },
        0x9e => InstructionDef { byte: 0x9e, description: "SBC A,(HL)", num_operands: 0, cycles: TCycles(8), condition_cycles: None },
        0x9f => InstructionDef { byte: 0x9f, description: "SBC A,A", num_operands: 0, cycles: TCycles(4), condition_cycles: None },
        0xa0 => InstructionDef { byte: 0xa0, description: "AND B", num_operands: 0, cycles: TCycles(4), condition_cycles: None },
        0xa1 => InstructionDef { byte: 0xa1, description: "AND C", num_operands: 0, cycles: TCycles(4), condition_cycles: None },
        0xa2 => InstructionDef { byte: 0xa2, description: "AND D", num_operands: 0, cycles: TCycles(4), condition_cycles: None },
        0xa3 => InstructionDef { byte: 0xa3, description: "AND E", num_operands: 0, cycles: TCycles(4), condition_cycles: None },
        0xa4 => InstructionDef { byte: 0xa4, description: "AND H", num_operands: 0, cycles: TCycles(4), condition_cycles: None },
        0xa5 => InstructionDef { byte: 0xa5, description: "AND L", num_operands: 0, cycles: TCycles(4), condition_cycles: None },
        0xa6 => InstructionDef { byte: 0xa6, description: "AND (HL)", num_operands: 0, cycles: TCycles(8), condition_cycles: None },
        0xa7 => InstructionDef { byte: 0xa7, description: "AND A", num_operands: 0, cycles: TCycles(4), condition_cycles: None },
        0xa8 => InstructionDef { byte: 0xa8, description: "XOR B", num_operands: 0, cycles: TCycles(4), condition_cycles: None },
        0xa9 => InstructionDef { byte: 0xa9, description: "XOR C", num_operands: 0, cycles: TCycles(4), condition_cycles: None },
        0xaa => InstructionDef { byte: 0xaa, description: "XOR D", num_operands: 0, cycles: TCycles(4), condition_cycles: None },
        0xab => InstructionDef { byte: 0xab, description: "XOR E", num_operands: 0, cycles: TCycles(4), condition_cycles: None },
        0xac => InstructionDef { byte: 0xac, description: "XOR H", num_operands: 0, cycles: TCycles(4), condition_cycles: None },
        0xad => InstructionDef { byte: 0xad, description: "XOR L", num_operands: 0, cycles: TCycles(4), condition_cycles: None },
        0xae => InstructionDef { byte: 0xae, description: "XOR (HL)", num_operands: 0, cycles: TCycles(8), condition_cycles: None },
        0xaf => InstructionDef { byte: 0xaf, description: "XOR A", num_operands: 0, cycles: TCycles(4), condition_cycles: None },
        0xb0 => InstructionDef { byte: 0xb0, description: "OR B", num_operands: 0, cycles: TCycles(4), condition_cycles: None },
        0xb1 => InstructionDef { byte: 0xb1, description: "OR C", num_operands: 0, cycles: TCycles(4), condition_cycles: None },
        0xb2 => InstructionDef { byte: 0xb2, description: "OR D", num_operands: 0, cycles: TCycles(4), condition_cycles: None },
        0xb3 => InstructionDef { byte: 0xb3, description: "OR E", num_operands: 0, cycles: TCycles(4), condition_cycles: None },
        0xb4 => InstructionDef { byte: 0xb4, description: "OR H", num_operands: 0, cycles: TCycles(4), condition_cycles: None },
        0xb5 => InstructionDef { byte: 0xb5, description: "OR L", num_operands: 0, cycles: TCycles(4), condition_cycles: None },
        0xb6 => InstructionDef { byte: 0xb6, description: "OR (HL)", num_operands: 0, cycles: TCycles(8), condition_cycles: None },
        0xb7 => InstructionDef { byte: 0xb7, description: "OR A", num_operands: 0, cycles: TCycles(4), condition_cycles: None },
        0xb8 => InstructionDef { byte: 0xb8, description: "CP B", num_operands: 0, cycles: TCycles(4), condition_cycles: None },
        0xb9 => InstructionDef { byte: 0xb9, description: "CP C", num_operands: 0, cycles: TCycles(4), condition_cycles: None },
        0xba => InstructionDef { byte: 0xba, description: "CP D", num_operands: 0, cycles: TCycles(4), condition_cycles: None },
        0xbb => InstructionDef { byte: 0xbb, description: "CP E", num_operands: 0, cycles: TCycles(4), condition_cycles: None },
        0xbc => InstructionDef { byte: 0xbc, description: "CP H", num_operands: 0, cycles: TCycles(4), condition_cycles: None },
        0xbd => InstructionDef { byte: 0xbd, description: "CP L", num_operands: 0, cycles: TCycles(4), condition_cycles: None },
        0xbe => InstructionDef { byte: 0xbe, description: "CP (HL)", num_operands: 0, cycles: TCycles(8), condition_cycles: None },
        0xbf => InstructionDef { byte: 0xbf, description: "CP A", num_operands: 0, cycles: TCycles(4), condition_cycles: None },
        0xc0 => InstructionDef { byte: 0xc0, description: "RET NZ", num_operands: 0, cycles: TCycles(8), condition_cycles: Some(TCycles(20)) },
        0xc1 => InstructionDef { byte: 0xc1, description: "POP BC", num_operands: 0, cycles: TCycles(12), condition_cycles: None },
        0xc2 => InstructionDef { byte: 0xc2, description: "JP NZ,a16", num_operands: 2, cycles: TCycles(12), condition_cycles: Some(TCycles(16)) },
        0xc3 => InstructionDef { byte: 0xc3, description: "JP a16", num_operands: 2, cycles: TCycles(16), condition_cycles: None },
        0xc4 => InstructionDef { byte: 0xc4, description: "CALL NZ,a16", num_operands: 2, cycles: TCycles(12), condition_cycles: Some(TCycles(24)) },
        0xc5 => InstructionDef { byte: 0xc5, description: "PUSH BC", num_operands: 0, cycles: TCycles(16), condition_cycles: None },
        0xc6 => InstructionDef { byte: 0xc6, description: "ADD A,d8", num_operands: 1, cycles: TCycles(8), condition_cycles: None },
        0xc7 => InstructionDef { byte: 0xc7, description: "RST 00H", num_operands: 0, cycles: TCycles(16), condition_cycles: None },
        0xc8 => InstructionDef { byte: 0xc8, description: "RET Z", num_operands: 0, cycles: TCycles(8), condition_cycles: Some(TCycles(20)) },
        0xc9 => InstructionDef { byte: 0xc9, description: "RET", num_operands: 0, cycles: TCycles(16), condition_cycles: None },
        0xca => InstructionDef { byte: 0xca, description: "JP Z,a16", num_operands: 2, cycles: TCycles(12), condition_cycles: Some(TCycles(16)) },
        0xcb => InstructionDef { byte: 0xcb, description: "PREFIX CB", num_operands: 1, cycles: TCycles(0), condition_cycles: None },
        0xcc => InstructionDef { byte: 0xcc, description: "CALL Z,a16", num_operands: 2, cycles: TCycles(12), condition_cycles: Some(TCycles(24)) },
        0xcd => InstructionDef { byte: 0xcd, description: "CALL a16", num_operands: 2, cycles: TCycles(24), condition_cycles: None },
        0xce => InstructionDef { byte: 0xce, description: "ADC A,d8", num_operands: 1, cycles: TCycles(8), condition_cycles: None },
        0xcf => InstructionDef { byte: 0xcf, description: "RST 08H", num_operands: 0, cycles: TCycles(16), condition_cycles: None },
        0xd0 => InstructionDef { byte: 0xd0, description: "RET NC", num_operands: 0, cycles: TCycles(8), condition_cycles: Some(TCycles(20)) },
        0xd1 => InstructionDef { byte: 0xd1, description: "POP DE", num_operands: 0, cycles: TCycles(12), condition_cycles: None },
        0xd2 => InstructionDef { byte: 0xd2, description: "JP NC,a16", num_operands: 2, cycles: TCycles(12), condition_cycles: Some(TCycles(16)) },
        0xd3 => InstructionDef { byte: 0xd3, description: "UNUSED", num_operands: 0, cycles: TCycles(4), condition_cycles: None },
        0xd4 => InstructionDef { byte: 0xd4, description: "CALL NC,a16", num_operands: 2, cycles: TCycles(12), condition_cycles: Some(TCycles(24)) },
        0xd5 => InstructionDef { byte: 0xd5, description: "PUSH DE", num_operands: 0, cycles: TCycles(16), condition_cycles: None },
        0xd6 => InstructionDef { byte: 0xd6, description: "SUB d8", num_operands: 1, cycles: TCycles(8), condition_cycles: None },
        0xd7 => InstructionDef { byte: 0xd7, description: "RST 10H", num_operands: 0, cycles: TCycles(16), condition_cycles: None },
        0xd8 => InstructionDef { byte: 0xd8, description: "RET C", num_operands: 0, cycles: TCycles(8), condition_cycles: Some(TCycles(20)) },
        0xd9 => InstructionDef { byte: 0xd9, description: "RETI", num_operands: 0, cycles: TCycles(16), condition_cycles: None },
        0xda => InstructionDef { byte: 0xda, description: "JP C,a16", num_operands: 2, cycles: TCycles(12), condition_cycles: Some(TCycles(16)) },
        0xdb => InstructionDef { byte: 0xdb, description: "UNUSED", num_operands: 0, cycles: TCycles(4), condition_cycles: None },
        0xdc => InstructionDef { byte: 0xdc, description: "CALL C,a16", num_operands: 2, cycles: TCycles(12), condition_cycles: Some(TCycles(24)) },
        0xdd => InstructionDef { byte: 0xdd, description: "UNUSED", num_operands: 0, cycles: TCycles(4), condition_cycles: None },
        0xde => InstructionDef { byte: 0xde, description: "SBC A,d8", num_operands: 1, cycles: TCycles(8), condition_cycles: None },
        0xdf => InstructionDef { byte: 0xdf, description: "RST 18H", num_operands: 0, cycles: TCycles(16), condition_cycles: None },
        0xe0 => InstructionDef { byte: 0xe0, description: "LDH (a8),A", num_operands: 1, cycles: TCycles(12), condition_cycles: None },
        0xe1 => InstructionDef { byte: 0xe1, description: "POP HL", num_operands: 0, cycles: TCycles(12), condition_cycles: None },
        0xe2 => InstructionDef { byte: 0xe2, description: "LD (C),A", num_operands: 0, cycles: TCycles(8), condition_cycles: None },
        0xe3 => InstructionDef { byte: 0xe3, description: "UNUSED", num_operands: 0, cycles: TCycles(4), condition_cycles: None },
        0xe4 => InstructionDef { byte: 0xe4, description: "UNUSED", num_operands: 0, cycles: TCycles(4), condition_cycles: None },
        0xe5 => InstructionDef { byte: 0xe5, description: "PUSH HL", num_operands: 0, cycles: TCycles(16), condition_cycles: None },
        0xe6 => InstructionDef { byte: 0xe6, description: "AND d8", num_operands: 1, cycles: TCycles(8), condition_cycles: None },
        0xe7 => InstructionDef { byte: 0xe7, description: "RST 20H", num_operands: 0, cycles: TCycles(16), condition_cycles: None },
        0xe8 => InstructionDef { byte: 0xe8, description: "ADD SP,r8", num_operands: 1, cycles: TCycles(16), condition_cycles: None },
        0xe9 => InstructionDef { byte: 0xe9, description: "JP (HL)", num_operands: 0, cycles: TCycles(4), condition_cycles: None },
        0xea => InstructionDef { byte: 0xea, description: "LD (a16),A", num_operands: 2, cycles: TCycles(16), condition_cycles: None },
        0xeb => InstructionDef { byte: 0xeb, description: "UNUSED", num_operands: 0, cycles: TCycles(4), condition_cycles: None },
        0xec => InstructionDef { byte: 0xec, description: "UNUSED", num_operands: 0, cycles: TCycles(4), condition_cycles: None },
        0xed => InstructionDef { byte: 0xed, description: "UNUSED", num_operands: 0, cycles: TCycles(4), condition_cycles: None },
        0xee => InstructionDef { byte: 0xee, description: "XOR d8", num_operands: 1, cycles: TCycles(8), condition_cycles: None },
        0xef => InstructionDef { byte: 0xef, description: "RST 28H", num_operands: 0, cycles: TCycles(16), condition_cycles: None },
        0xf0 => InstructionDef { byte: 0xf0, description: "LDH A,(a8)", num_operands: 1, cycles: TCycles(12), condition_cycles: None },
        0xf1 => InstructionDef { byte: 0xf1, description: "POP AF", num_operands: 0, cycles: TCycles(12), condition_cycles: None },
        0xf2 => InstructionDef { byte: 0xf2, description: "LD A,(C)", num_operands: 0, cycles: TCycles(8), condition_cycles: None },
        0xf3 => InstructionDef { byte: 0xf3, description: "DI", num_operands: 0, cycles: TCycles(4), condition_cycles: None },
        0xf4 => InstructionDef { byte: 0xf4, description: "UNUSED", num_operands: 0, cycles: TCycles(4), condition_cycles: None },
        0xf5 => InstructionDef { byte: 0xf5, description: "PUSH AF", num_operands: 0, cycles: TCycles(16), condition_cycles: None },
        0xf6 => InstructionDef { byte: 0xf6, description: "OR d8", num_operands: 1, cycles: TCycles(8), condition_cycles: None },
        0xf7 => InstructionDef { byte: 0xf7, description: "RST 30H", num_operands: 0, cycles: TCycles(16), condition_cycles: None },
        0xf8 => InstructionDef { byte: 0xf8, description: "LD HL,SP+r8", num_operands: 1, cycles: TCycles(12), condition_cycles: None },
        0xf9 => InstructionDef { byte: 0xf9, description: "LD SP,HL", num_operands: 0, cycles: TCycles(8), condition_cycles: None },
        0xfa => InstructionDef { byte: 0xfa, description: "LD A,(a16)", num_operands: 2, cycles: TCycles(16), condition_cycles: None },
        0xfb => InstructionDef { byte: 0xfb, description: "EI", num_operands: 0, cycles: TCycles(4), condition_cycles: None },
        0xfc => InstructionDef { byte: 0xfc, description: "UNUSED", num_operands: 0, cycles: TCycles(4), condition_cycles: None },
        0xfd => InstructionDef { byte: 0xfd, description: "UNUSED", num_operands: 0, cycles: TCycles(4), condition_cycles: None },
        0xfe => InstructionDef { byte: 0xfe, description: "CP d8", num_operands: 1, cycles: TCycles(8), condition_cycles: None },
        _ => InstructionDef { byte: 0xff, description: "RST 38H", num_operands: 0, cycles: TCycles(16), condition_cycles: None },
    }
}

/// The mnemonic of a prefix instruction, in Z80 assembly syntax.
pub open spec fn prefix_description_of(byte: u8) -> &'static str {
    match byte {
        0x00 => "RLC B",
        0x01 => "RLC C",
        0x02 => "RLC D",
        0x03 => "RLC E",
        0x04 => "RLC H",
        0x05 => "RLC L",
        0x06 => "RLC (HL)",
        0x07 => "RLC A",
        0x08 => "RRC B",
        0x09 => "RRC C",
        0x0a => "RRC D",
        0x0b => "RRC E",
        0x0c => "RRC H",
        0x0d => "RRC L",
        0x0e => "RRC (HL)",
        0x0f => "RRC A",
        0x10 => "RL B",
        0x11 => "RL C",
        0x12 => "RL D",
        0x13 => "RL E",
        0x14 => "RL H",
        0x15 => "RL L",
        0x16 => "RL (HL)",
        0x17 => "RL A",
        0x18 => "RR B",
        0x19 => "RR C",
        0x1a => "RR D",
        0x1b => "RR E",
        0x1c => "RR H",
        0x1d => "RR L",
        0x1e => "RR (HL)",
        0x1f => "RR A",
        0x20 => "SLA B",
        0x21 => "SLA C",
        0x22 => "SLA D",
        0x23 => "SLA E",
        0x24 => "SLA H",
        0x25 => "SLA L",
        0x26 => "SLA (HL)",
        0x27 => "SLA A",
        0x28 => "SRA B",
        0x29 => "SRA C",
        0x2a => "SRA D",
        0x2b => "SRA E",
        0x2c => "SRA H",
        0x2d => "SRA L",
        0x2e => "SRA (HL)",
        0x2f => "SRA A",
        0x30 => "SWAP B",
        0x31 => "SWAP C",
        0x32 => "SWAP D",
        0x33 => "SWAP E",
        0x34 => "SWAP H",
        0x35 => "SWAP L",
        0x36 => "SWAP (HL)",
        0x37 => "SWAP A",
        0x38 => "SRL B",
        0x39 => "SRL C",
        0x3a => "SRL D",
        0x3b => "SRL E",
        0x3c => "SRL H",
        0x3d => "SRL L",
        0x3e => "SRL (HL)",
        0x3f => "SRL A",
        0x40 => "BIT 0,B",
        0x41 => "BIT 0,C",
        0x42 => "BIT 0,D",
        0x43 => "BIT 0,E",
        0x44 => "BIT 0,H",
        0x45 => "BIT 0,L",
        0x46 => "BIT 0,(HL)",
        0x47 => "BIT 0,A",
        0x48 => "BIT 1,B",
        0x49 => "BIT 1,C",
        0x4a => "BIT 1,D",
        0x4b => "BIT 1,E",
        0x4c => "BIT 1,H",
        0x4d => "BIT 1,L",
        0x4e => "BIT 1,(HL)",
        0x4f => "BIT 1,A",
        0x50 => "BIT 2,B",
        0x51 => "BIT 2,C",
        0x52 => "BIT 2,D",
        0x53 => "BIT 2,E",
        0x54 => "BIT 2,H",
        0x55 => "BIT 2,L",
        0x56 => "BIT 2,(HL)",
        0x57 => "BIT 2,A",
        0x58 => "BIT 3,B",
        0x59 => "BIT 3,C",
        0x5a => "BIT 3,D",
        0x5b => "BIT 3,E",
        0x5c => "BIT 3,H",
        0x5d => "BIT 3,L",
        0x5e => "BIT 3,(HL)",
        0x5f => "BIT 3,A",
        0x60 => "BIT 4,B",
        0x61 => "BIT 4,C",
        0x62 => "BIT 4,D",
        0x63 => "BIT 4,E",
        0x64 => "BIT 4,H",
        0x65 => "BIT 4,L",
        0x66 => "BIT 4,(HL)",
        0x67 => "BIT 4,A",
        0x68 => "BIT 5,B",
        0x69 => "BIT 5,C",
        0x6a => "BIT 5,D",
        0x6b => "BIT 5,E",
        0x6c => "BIT 5,H",
        0x6d => "BIT 5,L",
        0x6e => "BIT 5,(HL)",
        0x6f => "BIT 5,A",
        0x70 => "BIT 6,B",
        0x71 => "BIT 6,C",
        0x72 => "BIT 6,D",
        0x73 => "BIT 6,E",
        0x74 => "BIT 6,H",
        0x75 => "BIT 6,L",
        0x76 => "BIT 6,(HL)",
        0x77 => "BIT 6,A",
        0x78 => "BIT 7,B",
        0x79 => "BIT 7,C",
        0x7a => "BIT 7,D",
        0x7b => "BIT 7,E",
        0x7c => "BIT 7,H",
        0x7d => "BIT 7,L",
        0x7e => "BIT 7,(HL)",
        0x7f => "BIT 7,A",
        0x80 => "RES 0,B",
        0x81 => "RES 0,C",
        0x82 => "RES 0,D",
        0x83 => "RES 0,E",
        0x84 => "RES 0,H",
        0x85 => "RES 0,L",
        0x86 => "RES 0,(HL)",
        0x87 => "RES 0,A",
        0x88 => "RES 1,B",
        0x89 => "RES 1,C",
        0x8a => "RES 1,D",
        0x8b => "RES 1,E",
        0x8c => "RES 1,H",
        0x8d => "RES 1,L",
        0x8e => "RES 1,(HL)",
        0x8f => "RES 1,A",
        0x90 => "RES 2,B",
        0x91 => "RES 2,C",
        0x92 => "RES 2,D",
        0x93 => "RES 2,E",
        0x94 => "RES 2,H",
        0x95 => "RES 2,L",
        0x96 => "RES 2,(HL)",
        0x97 => "RES 2,A",
        0x98 => "RES 3,B",
        0x99 => "RES 3,C",
        0x9a => "RES 3,D",
        0x9b => "RES 3,E",
        0x9c => "RES 3,H",
        0x9d => "RES 3,L",
        0x9e => "RES 3,(HL)",
        0x9f => "RES 3,A",
        0xa0 => "RES 4,B",
        0xa1 => "RES 4,C",
        0xa2 => "RES 4,D",
        0xa3 => "RES 4,E",
        0xa4 => "RES 4,H",
        0xa5 => "RES 4,L",
        0xa6 => "RES 4,(HL)",
        0xa7 => "RES 4,A",
        0xa8 => "RES 5,B",
        0xa9 => "RES 5,C",
        0xaa => "RES 5,D",
        0xab => "RES 5,E",
        0xac => "RES 5,H",
        0xad => "RES 5,L",
        0xae => "RES 5,(HL)",
        0xaf => "RES 5,A",
        0xb0 => "RES 6,B",
        0xb1 => "RES 6,C",
        0xb2 => "RES 6,D",
        0xb3 => "RES 6,E",
        0xb4 => "RES 6,H",
        0xb5 => "RES 6,L",
        0xb6 => "RES 6,(HL)",
        0xb7 => "RES 6,A",
        0xb8 => "RES 7,B",
        0xb9 => "RES 7,C",
        0xba => "RES 7,D",
        0xbb => "RES 7,E",
        0xbc => "RES 7,H",
        0xbd => "RES 7,L",
        0xbe => "RES 7,(HL)",
        0xbf => "RES 7,A",
        0xc0 => "SET 0,B",
        0xc1 => "SET 0,C",
        0xc2 => "SET 0,D",
        0xc3 => "SET 0,E",
        0xc4 => "SET 0,H",
        0xc5 => "SET 0,L",
        0xc6 => "SET 0,(HL)",
        0xc7 => "SET 0,A",
        0xc8 => "SET 1,B",
        0xc9 => "SET 1,C",
        0xca => "SET 1,D",
        0xcb => "SET 1,E",
        0xcc => "SET 1,H",
        0xcd => "SET 1,L",
        0xce => "SET 1,(HL)",
        0xcf => "SET 1,A",
        0xd0 => "SET 2,B",
        0xd1 => "SET 2,C",
        0xd2 => "SET 2,D",
        0xd3 => "SET 2,E",
        0xd4 => "SET 2,H",
        0xd5 => "SET 2,L",
        0xd6 => "SET 2,(HL)",
        0xd7 => "SET 2,A",
        0xd8 => "SET 3,B",
        0xd9 => "SET 3,C",
        0xda => "SET 3,D",
        0xdb => "SET 3,E",
        0xdc => "SET 3,H",
        0xdd => "SET 3,L",
        0xde => "SET 3,(HL)",
        0xdf => "SET 3,A",
        0xe0 => "SET 4,B",
        0xe1 => "SET 4,C",
        0xe2 => "SET 4,D",
        0xe3 => "SET 4,E",
        0xe4 => "SET 4,H",
        0xe5 => "SET 4,L",
        0xe6 => "SET 4,(HL)",
        0xe7 => "SET 4,A",
        0xe8 => "SET 5,B",
        0xe9 => "SET 5,C",
        0xea => "SET 5,D",
        0xeb => "SET 5,E",
        0xec => "SET 5,H",
        0xed => "SET 5,L",
        0xee => "SET 5,(HL)",
        0xef => "SET 5,A",
        0xf0 => "SET 6,B",
        0xf1 => "SET 6,C",
        0xf2 => "SET 6,D",
        0xf3 => "SET 6,E",
        0xf4 => "SET 6,H",
        0xf5 => "SET 6,L",
        0xf6 => "SET 6,(HL)",
        0xf7 => "SET 6,A",
        0xf8 => "SET 7,B",
        0xf9 => "SET 7,C",
        0xfa => "SET 7,D",
        0xfb => "SET 7,E",
        0xfc => "SET 7,H",
        0xfd => "SET 7,L",
        0xfe => "SET 7,(HL)",
        _ => "SET 7,A",
    }
}

/// The prefix instruction set: the definition of each prefix instruction, by its byte.
pub fn prefix_instruction_def(byte: u8) -> (r: PrefixInstructionDef)
    ensures
        r == spec_prefix_instruction_def(byte),
{
    match byte {
        0x00 => PrefixInstructionDef { byte: 0x00, description: "RLC B", cycles: TCycles(8) },
        0x01 => PrefixInstructionDef { byte: 0x01, description: "RLC C", cycles: TCycles(8) },
        0x02 => PrefixInstructionDef { byte: 0x02, description: "RLC D", cycles: TCycles(8) },
        0x03 => PrefixInstructionDef { byte: 0x03, description: "RLC E", cycles: TCycles(8) },
        0x04 => PrefixInstructionDef { byte: 0x04, description: "RLC H", cycles: TCycles(8) },
        0x05 => PrefixInstructionDef { byte: 0x05, description: "RLC L", cycles: TCycles(8) },
        0x06 => PrefixInstructionDef { byte: 0x06, description: "RLC (HL)", cycles: TCycles(16) },
        0x07 => PrefixInstructionDef { byte: 0x07, description: "RLC A", cycles: TCycles(8) },
        0x08 => PrefixInstructionDef { byte: 0x08, description: "RRC B", cycles: TCycles(8) },
        0x09 => PrefixInstructionDef { byte: 0x09, description: "RRC C", cycles: TCycles(8) },
        0x0a => PrefixInstructionDef { byte: 0x0a, description: "RRC D", cycles: TCycles(8) },
        0x0b => PrefixInstructionDef { byte: 0x0b, description: "RRC E", cycles: TCycles(8) },
        0x0c => PrefixInstructionDef { byte: 0x0c, description: "RRC H", cycles: TCycles(8) },
        0x0d => PrefixInstructionDef { byte: 0x0d, description: "RRC L", cycles: TCycles(8) },
        0x0e => PrefixInstructionDef { byte: 0x0e, description: "RRC (HL)", cycles: TCycles(16) },
        0x0f => PrefixInstructionDef { byte: 0x0f, description: "RRC A", cycles: TCycles(8) },
        0x10 => PrefixInstructionDef { byte: 0x10, description: "RL B", cycles: TCycles(8) },
        0x11 => PrefixInstructionDef { byte: 0x11, description: "RL C", cycles: TCycles(8) },
        0x12 => PrefixInstructionDef { byte: 0x12, description: "RL D", cycles: TCycles(8) },
        0x13 => PrefixInstructionDef { byte: 0x13, description: "RL E", cycles: TCycles(8) },
        0x14 => PrefixInstructionDef { byte: 0x14, description: "RL H", cycles: TCycles(8) },
        0x15 => PrefixInstructionDef { byte: 0x15, description: "RL L", cycles: TCycles(8) },
        0x16 => PrefixInstructionDef { byte: 0x16, description: "RL (HL)", cycles: TCycles(16) },
        0x17 => PrefixInstructionDef { byte: 0x17, description: "RL A", cycles: TCycles(8) },
        0x18 => PrefixInstructionDef { byte: 0x18, description: "RR B", cycles: TCycles(8) },
        0x19 => PrefixInstructionDef { byte: 0x19, description: "RR C", cycles: TCycles(8) },
        0x1a => PrefixInstructionDef { byte: 0x1a, description: "RR D", cycles: TCycles(8) },
        0x1b => PrefixInstructionDef { byte: 0x1b, description: "RR E", cycles: TCycles(8) },
        0x1c => PrefixInstructionDef { byte: 0x1c, description: "RR H", cycles: TCycles(8) },
        0x1d => PrefixInstructionDef { byte: 0x1d, description: "RR L", cycles: TCycles(8) },
        0x1e => PrefixInstructionDef { byte: 0x1e, description: "RR (HL)", cycles: TCycles(16) },
        0x1f => PrefixInstructionDef { byte: 0x1f, description: "RR A", cycles: TCycles(8) },
        0x20 => PrefixInstructionDef { byte: 0x20, description: "SLA B", cycles: TCycles(8) },
        0x21 => PrefixInstructionDef { byte: 0x21, description: "SLA C", cycles: TCycles(8) },
        0x22 => PrefixInstructionDef { byte: 0x22, description: "SLA D", cycles: TCycles(8) },
        0x23 => PrefixInstructionDef { byte: 0x23, description: "SLA E", cycles: TCycles(8) },
        0x24 => PrefixInstructionDef { byte: 0x24, description: "SLA H", cycles: TCycles(8) },
        0x25 => PrefixInstructionDef { byte: 0x25, description: "SLA L", cycles: TCycles(8) },
        0x26 => PrefixInstructionDef { byte: 0x26, description: "SLA (HL)", cycles: TCycles(16) },
        0x27 => PrefixInstructionDef { byte: 0x27, description: "SLA A", cycles: TCycles(8) },
        0x28 => PrefixInstructionDef { byte: 0x28, description: "SRA B", cycles: TCycles(8) },
        0x29 => PrefixInstructionDef { byte: 0x29, description: "SRA C", cycles: TCycles(8) },
        0x2a => PrefixInstructionDef { byte: 0x2a, description: "SRA D", cycles: TCycles(8) },
        0x2b => PrefixInstructionDef { byte: 0x2b, description: "SRA E", cycles: TCycles(8) },
        0x2c => PrefixInstructionDef { byte: 0x2c, description: "SRA H", cycles: TCycles(8) },
        0x2d => PrefixInstructionDef { byte: 0x2d, description: "SRA L", cycles: TCycles(8) },
        0x2e => PrefixInstructionDef { byte: 0x2e, description: "SRA (HL)", cycles: TCycles(16) },
        0x2f => PrefixInstructionDef { byte: 0x2f, description: "SRA A", cycles: TCycles(8) },
        0x30 => PrefixInstructionDef { byte: 0x30, description: "SWAP B", cycles: TCycles(8) },
        0x31 => PrefixInstructionDef { byte: 0x31, description: "SWAP C", cycles: TCycles(8) },
        0x32 => PrefixInstructionDef { byte: 0x32, description: "SWAP D", cycles: TCycles(8) },
        0x33 => PrefixInstructionDef { byte: 0x33, description: "SWAP E", cycles: TCycles(8) },
        0x34 => PrefixInstructionDef { byte: 0x34, description: "SWAP H", cycles: TCycles(8) },
        0x35 => PrefixInstructionDef { byte: 0x35, description: "SWAP L", cycles: TCycles(8) },
        0x36 => PrefixInstructionDef { byte: 0x36, description: "SWAP (HL)", cycles: TCycles(16) },
        0x37 => PrefixInstructionDef { byte: 0x37, description: "SWAP A", cycles: TCycles(8) },
        0x38 => PrefixInstructionDef { byte: 0x38, description: "SRL B", cycles: TCycles(8) },
        0x39 => PrefixInstructionDef { byte: 0x39, description: "SRL C", cycles: TCycles(8) },
        0x3a => PrefixInstructionDef { byte: 0x3a, description: "SRL D", cycles: TCycles(8) },
        0x3b => PrefixInstructionDef { byte: 0x3b, description: "SRL E", cycles: TCycles(8) },
        0x3c => PrefixInstructionDef { byte: 0x3c, description: "SRL H", cycles: TCycles(8) },
        0x3d => PrefixInstructionDef { byte: 0x3d, description: "SRL L", cycles: TCycles(8) },
        0x3e => PrefixInstructionDef { byte: 0x3e, description: "SRL (HL)", cycles: TCycles(16) },
        0x3f => PrefixInstructionDef { byte: 0x3f, description: "SRL A", cycles: TCycles(8) },
        0x40 => PrefixInstructionDef { byte: 0x40, description: "BIT 0,B", cycles: TCycles(8) },
        0x41 => PrefixInstructionDef { byte: 0x41, description: "BIT 0,C", cycles: TCycles(8) },
        0x42 => PrefixInstructionDef { byte: 0x42, description: "BIT 0,D", cycles: TCycles(8) },
        0x43 => PrefixInstructionDef { byte: 0x43, description: "BIT 0,E", cycles: TCycles(8) },
        0x44 => PrefixInstructionDef { byte: 0x44, description: "BIT 0,H", cycles: TCycles(8) },
        0x45 => PrefixInstructionDef { byte: 0x45, description: "BIT 0,L", cycles: TCycles(8) },
        0x46 => PrefixInstructionDef { byte: 0x46, description: "BIT 0,(HL)", cycles: TCycles(12) },
        0x47 => PrefixInstructionDef { byte: 0x47, description: "BIT 0,A", cycles: TCycles(8) },
        0x48 => PrefixInstructionDef { byte: 0x48, description: "BIT 1,B", cycles: TCycles(8) },
        0x49 => PrefixInstructionDef { byte: 0x49, description: "BIT 1,C", cycles: TCycles(8) },
        0x4a => PrefixInstructionDef { byte: 0x4a, description: "BIT 1,D", cycles: TCycles(8) },
        0x4b => PrefixInstructionDef { byte: 0x4b, description: "BIT 1,E", cycles: TCycles(8) },
        0x4c => PrefixInstructionDef { byte: 0x4c, description: "BIT 1,H", cycles: TCycles(8) },
        0x4d => PrefixInstructionDef { byte: 0x4d, description: "BIT 1,L", cycles: TCycles(8) },
        0x4e => PrefixInstructionDef { byte: 0x4e, description: "BIT 1,(HL)", cycles: TCycles(12) },
        0x4f => PrefixInstructionDef { byte: 0x4f, description: "BIT 1,A", cycles: TCycles(8) },
        0x50 => PrefixInstructionDef { byte: 0x50, description: "BIT 2,B", cycles: TCycles(8) },
        0x51 => PrefixInstructionDef { byte: 0x51, description: "BIT 2,C", cycles: TCycles(8) },
        0x52 => PrefixInstructionDef { byte: 0x52, description: "BIT 2,D", cycles: TCycles(8) },
        0x53 => PrefixInstructionDef { byte: 0x53, description: "BIT 2,E", cycles: TCycles(8) },
        0x54 => PrefixInstructionDef { byte: 0x54, description: "BIT 2,H", cycles: TCycles(8) },
        0x55 => PrefixInstructionDef { byte: 0x55, description: "BIT 2,L", cycles: TCycles(8) },
        0x56 => PrefixInstructionDef { byte: 0x56, description: "BIT 2,(HL)", cycles: TCycles(12) },
        0x57 => PrefixInstructionDef { byte: 0x57, description: "BIT 2,A", cycles: TCycles(8) },
        0x58 => PrefixInstructionDef { byte: 0x58, description: "BIT 3,B", cycles: TCycles(8) },
        0x59 => PrefixInstructionDef { byte: 0x59, description: "BIT 3,C", cycles: TCycles(8) },
        0x5a => PrefixInstructionDef { byte: 0x5a, description: "BIT 3,D", cycles: TCycles(8) },
        0x5b => PrefixInstructionDef { byte: 0x5b, description: "BIT 3,E", cycles: TCycles(8) },
        0x5c => PrefixInstructionDef { byte: 0x5c, description: "BIT 3,H", cycles: TCycles(8) },
        0x5d => PrefixInstructionDef { byte: 0x5d, description: "BIT 3,L", cycles: TCycles(8) },
        0x5e => PrefixInstructionDef { byte: 0x5e, description: "BIT 3,(HL)", cycles: TCycles(12) },
        0x5f => PrefixInstructionDef { byte: 0x5f, description: "BIT 3,A", cycles: TCycles(8) },
        0x60 => PrefixInstructionDef { byte: 0x60, description: "BIT 4,B", cycles: TCycles(8) },
        0x61 => PrefixInstructionDef { byte: 0x61, description: "BIT 4,C", cycles: TCycles(8) },
        0x62 => PrefixInstructionDef { byte: 0x62, description: "BIT 4,D", cycles: TCycles(8) },
        0x63 => PrefixInstructionDef { byte: 0x63, description: "BIT 4,E", cycles: TCycles(8) },
        0x64 => PrefixInstructionDef { byte: 0x64, description: "BIT 4,H", cycles: TCycles(8) },
        0x65 => PrefixInstructionDef { byte: 0x65, description: "BIT 4,L", cycles: TCycles(8) },
        0x66 => PrefixInstructionDef { byte: 0x66, description: "BIT 4,(HL)", cycles: TCycles(12) },
        0x67 => PrefixInstructionDef { byte: 0x67, description: "BIT 4,A", cycles: TCycles(8) },
        0x68 => PrefixInstructionDef { byte: 0x68, description: "BIT 5,B", cycles: TCycles(8) },
        0x69 => PrefixInstructionDef { byte: 0x69, description: "BIT 5,C", cycles: TCycles(8) },
        0x6a => PrefixInstructionDef { byte: 0x6a, description: "BIT 5,D", cycles: TCycles(8) },
        0x6b => PrefixInstructionDef { byte: 0x6b, description: "BIT 5,E", cycles: TCycles(8) },
        0x6c => PrefixInstructionDef { byte: 0x6c, description: "BIT 5,H", cycles: TCycles(8) },
        0x6d => PrefixInstructionDef { byte: 0x6d, description: "BIT 5,L", cycles: TCycles(8) },
        0x6e => PrefixInstructionDef { byte: 0x6e, description: "BIT 5,(HL)", cycles: TCycles(12) },
        0x6f => PrefixInstructionDef { byte: 0x6f, description: "BIT 5,A", cycles: TCycles(8) },
        0x70 => PrefixInstructionDef { byte: 0x70, description: "BIT 6,B", cycles: TCycles(8) },
        0x71 => PrefixInstructionDef { byte: 0x71, description: "BIT 6,C", cycles: TCycles(8) },
        0x72 => PrefixInstructionDef { byte: 0x72, description: "BIT 6,D", cycles: TCycles(8) },
        0x73 => PrefixInstructionDef { byte: 0x73, description: "BIT 6,E", cycles: TCycles(8) },
        0x74 => PrefixInstructionDef { byte: 0x74, description: "BIT 6,H", cycles: TCycles(8) },
        0x75 => PrefixInstructionDef { byte: 0x75, description: "BIT 6,L", cycles: TCycles(8) },
        0x76 => PrefixInstructionDef { byte: 0x76, description: "BIT 6,(HL)", cycles: TCycles(12) },
        0x77 => PrefixInstructionDef { byte: 0x77, description: "BIT 6,A", cycles: TCycles(8) },
        0x78 => PrefixInstructionDef { byte: 0x78, description: "BIT 7,B", cycles: TCycles(8) },
        0x79 => PrefixInstructionDef { byte: 0x79, description: "BIT 7,C", cycles: TCycles(8) },
        0x7a => PrefixInstructionDef { byte: 0x7a, description: "BIT 7,D", cycles: TCycles(8) },
        0x7b => PrefixInstructionDef { byte: 0x7b, description: "BIT 7,E", cycles: TCycles(8) },
        0x7c => PrefixInstructionDef { byte: 0x7c, description: "BIT 7,H", cycles: TCycles(8) },
        0x7d => PrefixInstructionDef { byte: 0x7d, description: "BIT 7,L", cycles: TCycles(8) },
        0x7e => PrefixInstructionDef { byte: 0x7e, description: "BIT 7,(HL)", cycles: TCycles(12) },
        0x7f => PrefixInstructionDef { byte: 0x7f, description: "BIT 7,A", cycles: TCycles(8) },
        0x80 => PrefixInstructionDef { byte: 0x80, description: "RES 0,B", cycles: TCycles(8) },
        0x81 => PrefixInstructionDef { byte: 0x81, description: "RES 0,C", cycles: TCycles(8) },
        0x82 => PrefixInstructionDef { byte: 0x82, description: "RES 0,D", cycles: TCycles(8) },
        0x83 => PrefixInstructionDef { byte: 0x83, description: "RES 0,E", cycles: TCycles(8) },
        0x84 => PrefixInstructionDef { byte: 0x84, description: "RES 0,H", cycles: TCycles(8) },
        0x85 => PrefixInstructionDef { byte: 0x85, description: "RES 0,L", cycles: TCycles(8) },
        0x86 => PrefixInstructionDef { byte: 0x86, description: "RES 0,(HL)", cycles: TCycles(16) },
        0x87 => PrefixInstructionDef { byte: 0x87, description: "RES 0,A", cycles: TCycles(8) },
        0x88 => PrefixInstructionDef { byte: 0x88, description: "RES 1,B", cycles: TCycles(8) },
        0x89 => PrefixInstructionDef { byte: 0x89, description: "RES 1,C", cycles: TCycles(8) },
        0x8a => PrefixInstructionDef { byte: 0x8a, description: "RES 1,D", cycles: TCycles(8) },
        0x8b => PrefixInstructionDef { byte: 0x8b, description: "RES 1,E", cycles: TCycles(8) },
        0x8c => PrefixInstructionDef { byte: 0x8c, description: "RES 1,H", cycles: TCycles(8) },
        0x8d => PrefixInstructionDef { byte: 0x8d, description: "RES 1,L", cycles: TCycles(8) },
        0x8e => PrefixInstructionDef { byte: 0x8e, description: "RES 1,(HL)", cycles: TCycles(16) },
        0x8f => PrefixInstructionDef { byte: 0x8f, description: "RES 1,A", cycles: TCycles(8) },
        0x90 => PrefixInstructionDef { byte: 0x90, description: "RES 2,B", cycles: TCycles(8) },
        0x91 => PrefixInstructionDef { byte: 0x91, description: "RES 2,C", cycles: TCycles(8) },
        0x92 => PrefixInstructionDef { byte: 0x92, description: "RES 2,D", cycles: TCycles(8) },
        0x93 => PrefixInstructionDef { byte: 0x93, description: "RES 2,E", cycles: TCycles(8) },
        0x94 => PrefixInstructionDef { byte: 0x94, description: "RES 2,H", cycles: TCycles(8) },
        0x95 => PrefixInstructionDef { byte: 0x95, description: "RES 2,L", cycles: TCycles(8) },
        0x96 => PrefixInstructionDef { byte: 0x96, description: "RES 2,(HL)", cycles: TCycles(16) },
        0x97 => PrefixInstructionDef { byte: 0x97, description: "RES 2,A", cycles: TCycles(8) },
        0x98 => PrefixInstructionDef { byte: 0x98, description: "RES 3,B", cycles: TCycles(8) },
        0x99 => PrefixInstructionDef { byte: 0x99, description: "RES 3,C", cycles: TCycles(8) },
        0x9a => PrefixInstructionDef { byte: 0x9a, description: "RES 3,D", cycles: TCycles(8) },
        0x9b => PrefixInstructionDef { byte: 0x9b, description: "RES 3,E", cycles: TCycles(8) },
        0x9c => PrefixInstructionDef { byte: 0x9c, description: "RES 3,H", cycles: TCycles(8) },
        0x9d => PrefixInstructionDef { byte: 0x9d, description: "RES 3,L", cycles: TCycles(8) },
        0x9e => PrefixInstructionDef { byte: 0x9e, description: "RES 3,(HL)", cycles: TCycles(16) },
        0x9f => PrefixInstructionDef { byte: 0x9f, description: "RES 3,A", cycles: TCycles(8) },
        0xa0 => PrefixInstructionDef { byte: 0xa0, description: "RES 4,B", cycles: TCycles(8) },
        0xa1 => PrefixInstructionDef { byte: 0xa1, description: "RES 4,C", cycles: TCycles(8) },
        0xa2 => PrefixInstructionDef { byte: 0xa2, description: "RES 4,D", cycles: TCycles(8) },
        0xa3 => PrefixInstructionDef { byte: 0xa3, description: "RES 4,E", cycles: TCycles(8) },
        0xa4 => PrefixInstructionDef { byte: 0xa4, description: "RES 4,H", cycles: TCycles(8) },
        0xa5 => PrefixInstructionDef { byte: 0xa5, description: "RES 4,L", cycles: TCycles(8) },
        0xa6 => PrefixInstructionDef { byte: 0xa6, description: "RES 4,(HL)", cycles: TCycles(16) },
        0xa7 => PrefixInstructionDef { byte: 0xa7, description: "RES 4,A", cycles: TCycles(8) },
        0xa8 => PrefixInstructionDef { byte: 0xa8, description: "RES 5,B", cycles: TCycles(8) },
        0xa9 => PrefixInstructionDef { byte: 0xa9, description: "RES 5,C", cycles: TCycles(8) },
        0xaa => PrefixInstructionDef { byte: 0xaa, description: "RES 5,D", cycles: TCycles(8) },
        0xab => PrefixInstructionDef { byte: 0xab, description: "RES 5,E", cycles: TCycles(8) },
        0xac => PrefixInstructionDef { byte: 0xac, description: "RES 5,H", cycles: TCycles(8) },
        0xad => PrefixInstructionDef { byte: 0xad, description: "RES 5,L", cycles: TCycles(8) },
        0xae => PrefixInstructionDef { byte: 0xae, description: "RES 5,(HL)", cycles: TCycles(16) },
        0xaf => PrefixInstructionDef { byte: 0xaf, description: "RES 5,A", cycles: TCycles(8) },
        0xb0 => PrefixInstructionDef { byte: 0xb0, description: "RES 6,B", cycles: TCycles(8) },
        0xb1 => PrefixInstructionDef { byte: 0xb1, description: "RES 6,C", cycles: TCycles(8) },
        0xb2 => PrefixInstructionDef { byte: 0xb2, description: "RES 6,D", cycles: TCycles(8) },
        0xb3 => PrefixInstructionDef { byte: 0xb3, description: "RES 6,E", cycles: TCycles(8) },
        0xb4 => PrefixInstructionDef { byte: 0xb4, description: "RES 6,H", cycles: TCycles(8) },
        0xb5 => PrefixInstructionDef { byte: 0xb5, description: "RES 6,L", cycles: TCycles(8) },
        0xb6 => PrefixInstructionDef { byte: 0xb6, description: "RES 6,(HL)", cycles: TCycles(16) },
        0xb7 => PrefixInstructionDef { byte: 0xb7, description: "RES 6,A", cycles: TCycles(8) },
        0xb8 => PrefixInstructionDef { byte: 0xb8, description: "RES 7,B", cycles: TCycles(8) },
        0xb9 => PrefixInstructionDef { byte: 0xb9, description: "RES 7,C", cycles: TCycles(8) },
        0xba => PrefixInstructionDef { byte: 0xba, description: "RES 7,D", cycles: TCycles(8) },
        0xbb => PrefixInstructionDef { byte: 0xbb, description: "RES 7,E", cycles: TCycles(8) },
        0xbc => PrefixInstructionDef { byte: 0xbc, description: "RES 7,H", cycles: TCycles(8) },
        0xbd => PrefixInstructionDef { byte: 0xbd, description: "RES 7,L", cycles: TCycles(8) },
        0xbe => PrefixInstructionDef { byte: 0xbe, description: "RES 7,(HL)", cycles: TCycles(16) },
        0xbf => PrefixInstructionDef { byte: 0xbf, description: "RES 7,A", cycles: TCycles(8) },
        0xc0 => PrefixInstructionDef { byte: 0xc0, description: "SET 0,B", cycles: TCycles(8) },
        0xc1 => PrefixInstructionDef { byte: 0xc1, description: "SET 0,C", cycles: TCycles(8) },
        0xc2 => PrefixInstructionDef { byte: 0xc2, description: "SET 0,D", cycles: TCycles(8) },
        0xc3 => PrefixInstructionDef { byte: 0xc3, description: "SET 0,E", cycles: TCycles(8) },
        0xc4 => PrefixInstructionDef { byte: 0xc4, description: "SET 0,H", cycles: TCycles(8) },
        0xc5 => PrefixInstructionDef { byte: 0xc5, description: "SET 0,L", cycles: TCycles(8) },
        0xc6 => PrefixInstructionDef { byte: 0xc6, description: "SET 0,(HL)", cycles: TCycles(16) },
        0xc7 => PrefixInstructionDef { byte: 0xc7, description: "SET 0,A", cycles: TCycles(8) },
        0xc8 => PrefixInstructionDef { byte: 0xc8, description: "SET 1,B", cycles: TCycles(8) },
        0xc9 => PrefixInstructionDef { byte: 0xc9, description: "SET 1,C", cycles: TCycles(8) },
        0xca => PrefixInstructionDef { byte: 0xca, description: "SET 1,D", cycles: TCycles(8) },
        0xcb => PrefixInstructionDef { byte: 0xcb, description: "SET 1,E", cycles: TCycles(8) },
        0xcc => PrefixInstructionDef { byte: 0xcc, description: "SET 1,H", cycles: TCycles(8) },
        0xcd => PrefixInstructionDef { byte: 0xcd, description: "SET 1,L", cycles: TCycles(8) },
        0xce => PrefixInstructionDef { byte: 0xce, description: "SET 1,(HL)", cycles: TCycles(16) },
        0xcf => PrefixInstructionDef { byte: 0xcf, description: "SET 1,A", cycles: TCycles(8) },
        0xd0 => PrefixInstructionDef { byte: 0xd0, description: "SET 2,B", cycles: TCycles(8) },
        0xd1 => PrefixInstructionDef { byte: 0xd1, description: "SET 2,C", cycles: TCycles(8) },
        0xd2 => PrefixInstructionDef { byte: 0xd2, description: "SET 2,D", cycles: TCycles(8) },
        0xd3 => PrefixInstructionDef { byte: 0xd3, description: "SET 2,E", cycles: TCycles(8) },
        0xd4 => PrefixInstructionDef { byte: 0xd4, description: "SET 2,H", cycles: TCycles(8) },
        0xd5 => PrefixInstructionDef { byte: 0xd5, description: "SET 2,L", cycles: TCycles(8) },
        0xd6 => PrefixInstructionDef { byte: 0xd6, description: "SET 2,(HL)", cycles: TCycles(16) },
        0xd7 => PrefixInstructionDef { byte: 0xd7, description: "SET 2,A", cycles: TCycles(8) },
        0xd8 => PrefixInstructionDef { byte: 0xd8, description: "SET 3,B", cycles: TCycles(8) },
        0xd9 => PrefixInstructionDef { byte: 0xd9, description: "SET 3,C", cycles: TCycles(8) },
        0xda => PrefixInstructionDef { byte: 0xda, description: "SET 3,D", cycles: TCycles(8) },
        0xdb => PrefixInstructionDef { byte: 0xdb, description: "SET 3,E", cycles: TCycles(8) },
        0xdc => PrefixInstructionDef { byte: 0xdc, description: "SET 3,H", cycles: TCycles(8) },
        0xdd => PrefixInstructionDef { byte: 0xdd, description: "SET 3,L", cycles: TCycles(8) },
        0xde => PrefixInstructionDef { byte: 0xde, description: "SET 3,(HL)", cycles: TCycles(16) },
        0xdf => PrefixInstructionDef { byte: 0xdf, description: "SET 3,A", cycles: TCycles(8) },
        0xe0 => PrefixInstructionDef { byte: 0xe0, description: "SET 4,B", cycles: TCycles(8) },
        0xe1 => PrefixInstructionDef { byte: 0xe1, description: "SET 4,C", cycles: TCycles(8) },
        0xe2 => PrefixInstructionDef { byte: 0xe2, description: "SET 4,D", cycles: TCycles(8) },
        0xe3 => PrefixInstructionDef { byte: 0xe3, description: "SET 4,E", cycles: TCycles(8) },
        0xe4 => PrefixInstructionDef { byte: 0xe4, description: "SET 4,H", cycles: TCycles(8) },
        0xe5 => PrefixInstructionDef { byte: 0xe5, description: "SET 4,L", cycles: TCycles(8) },
        0xe6 => PrefixInstructionDef { byte: 0xe6, description: "SET 4,(HL)", cycles: TCycles(16) },
        0xe7 => PrefixInstructionDef { byte: 0xe7, description: "SET 4,A", cycles: TCycles(8) },
        0xe8 => PrefixInstructionDef { byte: 0xe8, description: "SET 5,B", cycles: TCycles(8) },
        0xe9 => PrefixInstructionDef { byte: 0xe9, description: "SET 5,C", cycles: TCycles(8) },
        0xea => PrefixInstructionDef { byte: 0xea, description: "SET 5,D", cycles: TCycles(8) },
        0xeb => PrefixInstructionDef { byte: 0xeb, description: "SET 5,E", cycles: TCycles(8) },
        0xec => PrefixInstructionDef { byte: 0xec, description: "SET 5,H", cycles: TCycles(8) },
        0xed => PrefixInstructionDef { byte: 0xed, description: "SET 5,L", cycles: TCycles(8) },
        0xee => PrefixInstructionDef { byte: 0xee, description: "SET 5,(HL)", cycles: TCycles(16) },
        0xef => PrefixInstructionDef { byte: 0xef, description: "SET 5,A", cycles: TCycles(8) },
        0xf0 => PrefixInstructionDef { byte: 0xf0, description: "SET 6,B", cycles: TCycles(8) },
        0xf1 => PrefixInstructionDef { byte: 0xf1, description: "SET 6,C", cycles: TCycles(8) },
        0xf2 => PrefixInstructionDef { byte: 0xf2, description: "SET 6,D", cycles: TCycles(8) },
        0xf3 => PrefixInstructionDef { byte: 0xf3, description: "SET 6,E", cycles: TCycles(8) },
        0xf4 => PrefixInstructionDef { byte: 0xf4, description: "SET 6,H", cycles: TCycles(8) },
        0xf5 => PrefixInstructionDef { byte: 0xf5, description: "SET 6,L", cycles: TCycles(8) },
        0xf6 => PrefixInstructionDef { byte: 0xf6, description: "SET 6,(HL)", cycles: TCycles(16) },
        0xf7 => PrefixInstructionDef { byte: 0xf7, description: "SET 6,A", cycles: TCycles(8) },
        0xf8 => PrefixInstructionDef { byte: 0xf8, description: "SET 7,B", cycles: TCycles(8) },
        0xf9 => PrefixInstructionDef { byte: 0xf9, description: "SET 7,C", cycles: TCycles(8) },
        0xfa => PrefixInstructionDef { byte: 0xfa, description: "SET 7,D", cycles: TCycles(8) },
        0xfb => PrefixInstructionDef { byte: 0xfb, description: "SET 7,E", cycles: TCycles(8) },
        0xfc => PrefixInstructionDef { byte: 0xfc, description: "SET 7,H", cycles: TCycles(8) },
        0xfd => PrefixInstructionDef { byte: 0xfd, description: "SET 7,L", cycles: TCycles(8) },
        0xfe => PrefixInstructionDef { byte: 0xfe, description: "SET 7,(HL)", cycles: TCycles(16) },
        _ => PrefixInstructionDef { byte: 0xff, description: "SET 7,A", cycles: TCycles(8) },
    }
}

} // verus!
