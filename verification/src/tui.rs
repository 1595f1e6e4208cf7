//! The debugger's command language.
//!
//! A command is a line of text: its first character names it, and `s` and `b` take an argument
//! after a single space.

use vstd::prelude::*;
use vstd::string::StringSliceAdditionalSpecFns;

verus! {

/// The commands that are available to the debugger.
pub const COMMANDS: &'static str = "sblrpdcq?";

/// A debugger command.
#[derive(Debug, Clone, Copy, PartialEq, Eq)]
pub enum Command {
    /// `s [n]`: step the emulator `n` times (once without an argument).
    Step(i32),
    /// `b 0xNNNN`: add a breakpoint.
    Breakpoint(u16),
    /// `l`: list the breakpoints.
    List,
    /// `r`: resume execution.
    Resume,
    /// `p`: print the current instruction.
    Print,
    /// `d`: dump memory.
    Dump,
    /// `c`: print the CPU state.
    Cpu,
    /// `q`: quit.
    Quit,
    /// `?`: print the commands.
    Help,
    /// Any other command.
    Unknown,
}

/// Why a command could not be parsed.
#[derive(Debug, Clone, Copy, PartialEq, Eq)]
pub enum CommandError {
    /// `s` was given more than one argument.
    StepArguments,
    /// The argument of `s` is not a number.
    StepCount,
    /// `b` was not given exactly one argument.
    BreakpointArguments,
    /// The argument of `b` does not start with `0x`.
    BreakpointPrefix,
    /// The argument of `b` is not a hexadecimal number of 16 bits.
    BreakpointNumber,
}

impl CommandError {
    /// A description of the error.
    pub open spec fn spec_message(self) -> &'static str {
        match self {
            CommandError::StepArguments => "`s` takes a single optional argument",
            CommandError::StepCount => "could not parse step count",
            CommandError::BreakpointArguments => "`b` takes a single argument",
            CommandError::BreakpointPrefix => "breakpoint must start with '0x'",
            CommandError::BreakpointNumber => "could not parse hexadecimal number",
        }
    }

    /// A description of the error.
    pub fn message(&self) -> (r: &'static str)
        ensures
            r == self.spec_message(),
    {
        match self {
            CommandError::StepArguments => "`s` takes a single optional argument",
            CommandError::StepCount => "could not parse step count",
            CommandError::BreakpointArguments => "`b` takes a single argument",
            CommandError::BreakpointPrefix => "breakpoint must start with '0x'",
            CommandError::BreakpointNumber => "could not parse hexadecimal number",
        }
    }
}

/// The number of spaces in a line.
pub open spec fn space_count(s: Seq<u8>) -> nat
    decreases s.len(),
{
    if s.len() == 0 {
        0
    } else {
        space_count(s.drop_last()) + (if s.last() == 0x20 { 1nat } else { 0 })
    }
}

/// The position of the first space in a line.
pub open spec fn first_space(s: Seq<u8>) -> int {
    choose|i: int| 0 <= i < s.len() && s[i] == 0x20 && space_count(s.subrange(0, i)) == 0
}

/// The text after the first space of a line.
pub open spec fn argument(s: Seq<u8>) -> Seq<u8> {
    s.subrange(first_space(s) + 1, s.len() as int)
}

/// The value of a hexadecimal digit, or -1.
pub open spec fn hex_digit(b: u8) -> int {
    if 0x30 <= b <= 0x39 {
        b - 0x30
    } else if 0x61 <= b <= 0x66 {
        b - 0x61 + 10
    } else if 0x41 <= b <= 0x46 {
        b - 0x41 + 10
    } else {
        -1
    }
}

/// The value of a decimal digit, or -1.
pub open spec fn dec_digit(b: u8) -> int {
    if 0x30 <= b <= 0x39 { b - 0x30 } else { -1 }
}

/// The value of digits in a base (16 or 10), or -1 if one is not a digit.
pub open spec fn digits_value(d: Seq<u8>, base: int) -> int
    decreases d.len(),
{
    if d.len() == 0 {
        0
    } else {
        let rest = digits_value(d.drop_last(), base);
        let digit = if base == 16 { hex_digit(d.last()) } else { dec_digit(d.last()) };
        if rest < 0 || digit < 0 { -1 } else { rest * base + digit }
    }
}

/// The 16-bit number that hexadecimal text (with an optional leading `+`) denotes, if any.
pub open spec fn hex_u16(s: Seq<u8>) -> Option<u16> {
    let d = if s.len() > 0 && s[0] == 0x2B { s.subrange(1, s.len() as int) } else { s };
    let v = digits_value(d, 16);
    if d.len() > 0 && 0 <= v < 0x10000 { Some(v as u16) } else { None }
}

/// The 32-bit signed number that decimal text (with an optional leading sign) denotes, if any.
pub open spec fn decimal_i32(s: Seq<u8>) -> Option<i32> {
    let negative = s.len() > 0 && s[0] == 0x2D;
    let d = if s.len() > 0 && (s[0] == 0x2B || s[0] == 0x2D) { s.subrange(1, s.len() as int) } else { s };
    let v = digits_value(d, 10);
    if d.len() > 0 && v >= 0 && (if negative { v <= 0x8000_0000 } else { v < 0x8000_0000 }) {
        Some((if negative { -v } else { v }) as i32)
    } else {
        None
    }
}

/// Counts the spaces of a line, and finds the first.
fn find_spaces(s: &[u8]) -> (r: (usize, usize))
    ensures
        r.0 == space_count(s@),
        r.0 >= 1 ==> r.1 == first_space(s@) && 0 <= r.1 < s@.len() && s@[r.1 as int] == 0x20,
{
    let mut count: usize = 0;
    let mut first: usize = 0;
    let mut i: usize = 0;
    while i < s.len()
        invariant
            i <= s@.len(),
            count == space_count(s@.subrange(0, i as int)),
            count <= i,
            count >= 1 ==> first < i && s@[first as int] == 0x20 && space_count(s@.subrange(0, first as int)) == 0,
        decreases s@.len() - i,
    {
        assert(s@.subrange(0, i as int + 1).drop_last() =~= s@.subrange(0, i as int));
        if s[i] == 0x20 {
            if count == 0 {
                first = i;
            }
            count = count + 1;
        }
        i = i + 1;
    }
    assert(s@.subrange(0, s@.len() as int) =~= s@);
    if count >= 1 {
        proof {
            lemma_first_space_unique(s@, first as int);
        }
    }
    (count, first)
}

/// A space with no space before it is the first.
proof fn lemma_first_space_unique(s: Seq<u8>, i: int)
    requires
        0 <= i < s.len(),
        s[i] == 0x20,
        space_count(s.subrange(0, i)) == 0,
    ensures
        first_space(s) == i,
{
    let j = first_space(s);
    assert(0 <= j < s.len() && s[j] == 0x20 && space_count(s.subrange(0, j)) == 0);
    if j < i {
        lemma_space_in_prefix(s.subrange(0, i), j);
    } else if i < j {
        lemma_space_in_prefix(s.subrange(0, j), i);
        assert(s.subrange(0, j)[i] == s[i]);
    }
}

/// A line with a space somewhere has a space count of at least one.
proof fn lemma_space_in_prefix(s: Seq<u8>, k: int)
    requires
        0 <= k < s.len(),
        s[k] == 0x20,
    ensures
        space_count(s) >= 1,
    decreases s.len(),
{
    if k < s.len() - 1 {
        lemma_space_in_prefix(s.drop_last(), k);
    }
}

/// The value of digits in base 16 or 10, or `None` if one is not a digit or the value reaches
/// `limit`.
fn parse_digits(d: &[u8], base: u32, limit: u64) -> (r: Option<u64>)
    requires
        base == 10 || base == 16,
        1 <= limit <= 0x1_0000_0000,
    ensures
        match r {
            Some(v) => v == digits_value(d@, base as int) && v < limit,
            None => digits_value(d@, base as int) < 0 || digits_value(d@, base as int) >= limit,
        },
{
    let mut value: u64 = 0;
    let mut i: usize = 0;
    while i < d.len()
        invariant
            i <= d@.len(),
            base == 10 || base == 16,
            limit <= 0x1_0000_0000,
            value == digits_value(d@.subrange(0, i as int), base as int),
            value < limit,
        decreases d@.len() - i,
    {
        assert(d@.subrange(0, i as int + 1).drop_last() =~= d@.subrange(0, i as int));
        let b = d[i];
        let digit: u64 = if 0x30 <= b && b <= 0x39 {
            (b - 0x30) as u64
        } else if base == 16 && 0x61 <= b && b <= 0x66 {
            (b - 0x61 + 10) as u64
        } else if base == 16 && 0x41 <= b && b <= 0x46 {
            (b - 0x41 + 10) as u64
        } else {
            proof {
                lemma_digits_invalid(d@, base as int, i as int);
            }
            return None;
        };
        assert(value * (base as u64) <= 0x10_0000_0000) by (nonlinear_arith)
            requires
                value < 0x1_0000_0000,
                base <= 16,
        ;
        let next = value * (base as u64) + digit;
        if next >= limit {
            proof {
                lemma_digits_grow(d@, base as int, i as int + 1);
            }
            return None;
        }
        value = next;
        i = i + 1;
    }
    assert(d@.subrange(0, d@.len() as int) =~= d@);
    Some(value)
}

/// Once a prefix of the digits is not a number, neither are the digits.
proof fn lemma_digits_invalid(d: Seq<u8>, base: int, i: int)
    requires
        base == 10 || base == 16,
        0 <= i < d.len(),
        (if base == 16 { hex_digit(d[i]) } else { dec_digit(d[i]) }) < 0,
    ensures
        digits_value(d, base) < 0,
    decreases d.len(),
{
    if i < d.len() - 1 {
        lemma_digits_invalid(d.drop_last(), base, i);
    }
}

/// The value of digits is at least that of any prefix of them, or they are not a number.
proof fn lemma_digits_grow(d: Seq<u8>, base: int, i: int)
    requires
        base == 10 || base == 16,
        0 <= i <= d.len(),
    ensures
        digits_value(d, base) < 0 || digits_value(d, base) >= digits_value(d.subrange(0, i), base),
    decreases d.len(),
{
    if i < d.len() {
        lemma_digits_grow(d.drop_last(), base, i);
        assert(d.drop_last().subrange(0, i) =~= d.subrange(0, i));
        let rest = digits_value(d.drop_last(), base);
        if rest >= 0 {
            assert(rest * base >= rest) by (nonlinear_arith)
                requires
                    rest >= 0,
                    base >= 10,
            ;
        }
    } else {
        assert(d.subrange(0, i) =~= d);
    }
}

/// The result of parsing a breakpoint command.
pub open spec fn breakpoint_result(s: Seq<u8>) -> Result<u16, CommandError> {
    if space_count(s) != 1 {
        Err(CommandError::BreakpointArguments)
    } else if !(argument(s).len() >= 2 && argument(s)[0] == 0x30 && argument(s)[1] == 0x78) {
        Err(CommandError::BreakpointPrefix)
    } else {
        match hex_u16(argument(s).subrange(2, argument(s).len() as int)) {
            Some(v) => Ok(v),
            None => Err(CommandError::BreakpointNumber),
        }
    }
}

/// Parses the argument of a breakpoint command: `b 0xNNNN`.
pub fn parse_breakpoint(command: &str) -> (r: Result<u16, CommandError>)
    ensures
        r == breakpoint_result(command.spec_bytes()),
{
    let s = command.as_bytes();
    let (count, first) = find_spaces(s);
    if count != 1 {
        return Err(CommandError::BreakpointArguments);
    }
    let len = s.len();
    let arg = vstd::slice::slice_subrange(s, first + 1, len);
    assert(arg@ =~= argument(s@));
    if !(arg.len() >= 2 && arg[0] == 0x30 && arg[1] == 0x78) {
        return Err(CommandError::BreakpointPrefix);
    }
    let mut digits = vstd::slice::slice_subrange(arg, 2, arg.len());
    if digits.len() > 0 && digits[0] == 0x2B {
        digits = vstd::slice::slice_subrange(digits, 1, digits.len());
    }
    if digits.len() == 0 {
        return Err(CommandError::BreakpointNumber);
    }
    match parse_digits(digits, 16, 0x10000) {
        Some(v) => Ok(v as u16),
        None => Err(CommandError::BreakpointNumber),
    }
}

/// The result of parsing a step command.
pub open spec fn step_result(s: Seq<u8>) -> Result<Option<i32>, CommandError> {
    if space_count(s) == 0 {
        Ok(None)
    } else if space_count(s) > 1 {
        Err(CommandError::StepArguments)
    } else {
        match decimal_i32(argument(s)) {
            Some(v) => Ok(Some(v)),
            None => Err(CommandError::StepCount),
        }
    }
}

/// Parses the optional argument of a step command: `s [n]`.
pub fn parse_step(command: &str) -> (r: Result<Option<i32>, CommandError>)
    ensures
        r == step_result(command.spec_bytes()),
{
    let s = command.as_bytes();
    let (count, first) = find_spaces(s);
    if count == 0 {
        return Ok(None);
    }
    if count > 1 {
        return Err(CommandError::StepArguments);
    }
    let len = s.len();
    let arg = vstd::slice::slice_subrange(s, first + 1, len);
    assert(arg@ =~= argument(s@));
    let negative = arg.len() > 0 && arg[0] == 0x2D;
    let digits = if arg.len() > 0 && (arg[0] == 0x2B || arg[0] == 0x2D) {
        vstd::slice::slice_subrange(arg, 1, arg.len())
    } else {
        arg
    };
    if digits.len() == 0 {
        return Err(CommandError::StepCount);
    }
    let limit: u64 = if negative { 0x8000_0001 } else { 0x8000_0000 };
    match parse_digits(digits, 10, limit) {
        Some(v) => {
            let n: i64 = if negative { -(v as i64) } else { v as i64 };
            Ok(Some(n as i32))
        },
        None => Err(CommandError::StepCount),
    }
}

/// The command that a line of input names, by its first character.
pub open spec fn command_result(s: Seq<u8>) -> Result<Command, CommandError> {
    let c = s[0];
    if c == 0x73 {
        match step_result(s) {
            Ok(Some(n)) => Ok(Command::Step(n)),
            Ok(None) => Ok(Command::Step(1)),
            Err(e) => Err(e),
        }
    } else if c == 0x62 {
        match breakpoint_result(s) {
            Ok(b) => Ok(Command::Breakpoint(b)),
            Err(e) => Err(e),
        }
    } else if c == 0x6C {
        Ok(Command::List)
    } else if c == 0x72 {
        Ok(Command::Resume)
    } else if c == 0x70 {
        Ok(Command::Print)
    } else if c == 0x64 {
        Ok(Command::Dump)
    } else if c == 0x63 {
        Ok(Command::Cpu)
    } else if c == 0x71 {
        Ok(Command::Quit)
    } else if c == 0x3F {
        Ok(Command::Help)
    } else {
        Ok(Command::Unknown)
    }
}

/// Parses a debugger command from a line of input, by its first character.
pub fn parse_command(command: &str) -> (r: Result<Command, CommandError>)
    requires
        command.spec_bytes().len() >= 1,
    ensures
        r == command_result(command.spec_bytes()),
{
    let first = command.as_bytes()[0];
    if first == 0x73 {
        match parse_step(command) {
            Ok(Some(n)) => Ok(Command::Step(n)),
            Ok(None) => Ok(Command::Step(1)),
            Err(e) => Err(e),
        }
    } else if first == 0x62 {
        match parse_breakpoint(command) {
            Ok(b) => Ok(Command::Breakpoint(b)),
            Err(e) => Err(e),
        }
    } else if first == 0x6C {
        Ok(Command::List)
    } else if first == 0x72 {
        Ok(Command::Resume)
    } else if first == 0x70 {
        Ok(Command::Print)
    } else if first == 0x64 {
        Ok(Command::Dump)
    } else if first == 0x63 {
        Ok(Command::Cpu)
    } else if first == 0x71 {
        Ok(Command::Quit)
    } else if first == 0x3F {
        Ok(Command::Help)
    } else {
        Ok(Command::Unknown)
    }
}

} // verus!
