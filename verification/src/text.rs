//! Numbers as text: the hexadecimal and binary digits that the debugger shows.

use vstd::prelude::*;

verus! {

/// A lowercase hexadecimal digit.
pub open spec fn hex_char(d: int) -> char {
    if d < 10 { (0x30 + d) as char } else { (0x61 + d - 10) as char }
}

/// The `n` lowest hexadecimal digits of a number, lowercase, most significant first.
pub open spec fn hex_digits(v: int, n: nat) -> Seq<char>
    decreases n,
{
    if n == 0 {
        Seq::empty()
    } else {
        hex_digits(v / 16, (n - 1) as nat).push(hex_char(v % 16))
    }
}

/// The `n` lowest binary digits of a number, most significant first.
pub open spec fn bin_digits(v: int, n: nat) -> Seq<char>
    decreases n,
{
    if n == 0 {
        Seq::empty()
    } else {
        bin_digits(v / 2, (n - 1) as nat).push(hex_char(v % 2))
    }
}

/// A number in decimal, without leading zeros.
pub open spec fn dec_digits(v: nat) -> Seq<char>
    decreases v,
{
    if v < 10 {
        seq![hex_char(v as int)]
    } else {
        dec_digits(v / 10).push(hex_char((v % 10) as int))
    }
}

/// A hexadecimal digit as a one-character string.
fn digit_text(d: u32) -> (r: &'static str)
    requires
        d < 16,
    ensures
        r@ == seq![hex_char(d as int)],
{
    proof {
        reveal_strlit("0");
        reveal_strlit("1");
        reveal_strlit("2");
        reveal_strlit("3");
        reveal_strlit("4");
        reveal_strlit("5");
        reveal_strlit("6");
        reveal_strlit("7");
        reveal_strlit("8");
        reveal_strlit("9");
        reveal_strlit("a");
        reveal_strlit("b");
        reveal_strlit("c");
        reveal_strlit("d");
        reveal_strlit("e");
        reveal_strlit("f");
    }
    let r = match d {
        0 => "0",
        1 => "1",
        2 => "2",
        3 => "3",
        4 => "4",
        5 => "5",
        6 => "6",
        7 => "7",
        8 => "8",
        9 => "9",
        10 => "a",
        11 => "b",
        12 => "c",
        13 => "d",
        14 => "e",
        _ => "f",
    };
    assert(r@ =~= seq![hex_char(d as int)]);
    r
}

/// Appends the `n` lowest hexadecimal digits of `v`, most significant first.
pub fn push_hex(s: &mut String, v: u32, n: u32)
    ensures
        final(s)@ == old(s)@ + hex_digits(v as int, n as nat),
    decreases n,
{
    if n > 0 {
        push_hex(s, v / 16, n - 1);
        s.append(digit_text(v % 16));
        assert(s@ =~= old(s)@ + hex_digits(v as int, n as nat));
    } else {
        assert(s@ =~= old(s)@ + hex_digits(v as int, n as nat));
    }
}

/// Appends the `n` lowest binary digits of `v`, most significant first.
pub fn push_bin(s: &mut String, v: u32, n: u32)
    ensures
        final(s)@ == old(s)@ + bin_digits(v as int, n as nat),
    decreases n,
{
    if n > 0 {
        push_bin(s, v / 2, n - 1);
        s.append(digit_text(v % 2));
        assert(s@ =~= old(s)@ + bin_digits(v as int, n as nat));
    } else {
        assert(s@ =~= old(s)@ + bin_digits(v as int, n as nat));
    }
}

/// Appends `v` in decimal, without leading zeros.
pub fn push_dec(s: &mut String, v: u32)
    ensures
        final(s)@ == old(s)@ + dec_digits(v as nat),
    decreases v,
{
    if v < 10 {
        s.append(digit_text(v));
        assert(s@ =~= old(s)@ + dec_digits(v as nat));
    } else {
        push_dec(s, v / 10);
        s.append(digit_text(v % 10));
        assert(s@ =~= old(s)@ + dec_digits(v as nat));
    }
}

} // verus!
