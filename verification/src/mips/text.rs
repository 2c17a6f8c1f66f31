//! Numbers and registers as text, the pieces that an instruction is rendered from.

use crate::mips::operand::Register;
use vstd::prelude::*;
use vstd::string::StringExecFns;

verus! {

/// The digit that stands for a number below 16.
pub open spec fn digit(d: nat) -> Seq<char> {
    if d == 0 {
        "0"@
    } else if d == 1 {
        "1"@
    } else if d == 2 {
        "2"@
    } else if d == 3 {
        "3"@
    } else if d == 4 {
        "4"@
    } else if d == 5 {
        "5"@
    } else if d == 6 {
        "6"@
    } else if d == 7 {
        "7"@
    } else if d == 8 {
        "8"@
    } else if d == 9 {
        "9"@
    } else if d == 10 {
        "a"@
    } else if d == 11 {
        "b"@
    } else if d == 12 {
        "c"@
    } else if d == 13 {
        "d"@
    } else if d == 14 {
        "e"@
    } else {
        "f"@
    }
}

/// A number in base 10, most significant digit first, without leading
/// zeros; zero is a single digit.
pub open spec fn decimal(n: nat) -> Seq<char>
    decreases n,
{
    if n < 10 {
        digit(n)
    } else {
        decimal(n / 10) + digit(n % 10)
    }
}

/// The digits of a number in base 16, most significant digit first, without
/// leading zeros; zero is a single digit.
pub open spec fn hex_digits(n: nat) -> Seq<char>
    decreases n,
{
    if n < 16 {
        digit(n)
    } else {
        hex_digits(n / 16) + digit(n % 16)
    }
}

/// A number in base 10, with a minus sign before a negative one.
pub open spec fn signed_decimal(v: int) -> Seq<char> {
    if v < 0 {
        "-"@ + decimal((-v) as nat)
    } else {
        decimal(v as nat)
    }
}

/// A number in base 16, after the prefix `0x`.
pub open spec fn hexadecimal(n: nat) -> Seq<char> {
    "0x"@ + hex_digits(n)
}

/// A register is written as a dollar sign and its number.
pub open spec fn register_name(r: Register) -> Seq<char> {
    "$"@ + decimal(r@ as nat)
}

/// The digit that stands for a number below 16.
pub fn digit_str(d: u32) -> (t: &'static str)
    requires
        d < 16,
    ensures
        t@ == digit(d as nat),
{
    match d {
        0 => "0",
        1 => "1",
        2 => "2",
        3 => "3",
        4 => "4",
        5 => "5",
        6 => "6",
        7 => "7",
        8 => "8",
        9 => "9",
        10 => "a",
        11 => "b",
        12 => "c",
        13 => "d",
        14 => "e",
        _ => "f",
    }
}

/// Appends a number in base 10.
pub fn push_decimal(s: &mut String, n: u32)
    ensures
        final(s)@ == old(s)@ + decimal(n as nat),
    decreases n,
{
    if n >= 10 {
        push_decimal(s, n / 10);
        s.append(digit_str(n % 10));
        assert(s@ =~= old(s)@ + decimal(n as nat));
    } else {
        s.append(digit_str(n));
    }
}

/// Appends the digits of a number in base 16.
pub fn push_hex_digits(s: &mut String, n: u32)
    ensures
        final(s)@ == old(s)@ + hex_digits(n as nat),
    decreases n,
{
    if n >= 16 {
        push_hex_digits(s, n / 16);
        s.append(digit_str(n % 16));
        assert(s@ =~= old(s)@ + hex_digits(n as nat));
    } else {
        s.append(digit_str(n));
    }
}

/// Appends a number in base 10, with a minus sign before a negative one.
pub fn push_signed_decimal(s: &mut String, v: i16)
    ensures
        final(s)@ == old(s)@ + signed_decimal(v as int),
{
    if v < 0 {
        s.append("-");
        push_decimal(s, (-(v as i32)) as u32);
        assert(s@ =~= old(s)@ + signed_decimal(v as int));
    } else {
        push_decimal(s, v as u32);
    }
}

/// Appends a number in base 16, after the prefix `0x`.
pub fn push_hexadecimal(s: &mut String, n: u32)
    ensures
        final(s)@ == old(s)@ + hexadecimal(n as nat),
{
    s.append("0x");
    push_hex_digits(s, n);
    assert(s@ =~= old(s)@ + hexadecimal(n as nat));
}

/// Appends a register's name.
pub fn push_register(s: &mut String, r: &Register)
    ensures
        final(s)@ == old(s)@ + register_name(*r),
{
    s.append("$");
    push_decimal(s, r.index() as u32);
    assert(s@ =~= old(s)@ + register_name(*r));
}

} // verus!
