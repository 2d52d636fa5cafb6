//! Hexadecimal text for diagnostic output.

use vstd::prelude::*;

verus! {

/// Character code of `'0'`.
pub const ASCII_ZERO: u8 = 48;

/// Character code of `'a'`.
pub const ASCII_LOWER_A: u8 = 97;

/// Number of hex digits in a 32-bit word.
pub const WORD_DIGITS: usize = 8;

/// The lower-case hex digit of `v`, or `'X'` when `v` is over 15.
pub open spec fn hex_digit(v: u8) -> char {
    if v <= 9 {
        (ASCII_ZERO + v) as char
    } else if v <= 15 {
        (ASCII_LOWER_A + v - 10) as char
    } else {
        'X'
    }
}

/// The `i`-th 4-bit digit of `val`, counted from the most significant.
pub open spec fn digit_at(val: u32, i: int) -> u8 {
    ((val >> ((28 - 4 * i) as u32)) & 0xf) as u8
}

/// The diagnostic line for `val`: `0x`, eight lower-case hex digits, most
/// significant first, then a carriage return and a line feed.
pub open spec fn word_line(val: u32) -> Seq<char> {
    seq!['0', 'x'] + Seq::new(8, |i: int| hex_digit(digit_at(val, i))) + seq!['\r', '\n']
}

/// The hex digit of a value, `'X'` when it is over 15.
pub fn hex(v: u8) -> (r: char)
    ensures
        r == hex_digit(v),
{
    if v <= 9 {
        (ASCII_ZERO + v) as char
    } else if v <= 15 {
        (ASCII_LOWER_A + (v - 10)) as char
    } else {
        'X'
    }
}

/// The characters of the diagnostic line for `val`.
pub fn word_hex_line(val: u32) -> (line: Vec<char>)
    ensures
        line@ == word_line(val),
{
    let mut line: Vec<char> = Vec::new();
    line.push('0');
    line.push('x');
    let mut i: usize = 0;
    while i < WORD_DIGITS
        invariant
            i <= WORD_DIGITS,
            line@ == seq!['0', 'x'] + Seq::new(i as nat, |k: int| hex_digit(digit_at(val, k))),
        decreases WORD_DIGITS - i,
    {
        let shift: u32 = 28 - 4 * (i as u32);
        let h = ((val >> shift) & 0xf) as u8;
        line.push(hex(h));
        i = i + 1;
        assert(line@ =~= seq!['0', 'x'] + Seq::new(i as nat, |k: int| hex_digit(digit_at(val, k))));
    }
    line.push('\r');
    line.push('\n');
    assert(line@ =~= word_line(val));
    line
}

} // verus!
