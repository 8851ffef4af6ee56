//! Bytes written as two hexadecimal digits.

use vstd::prelude::*;
use vstd::string::*;

verus! {

/// Whether `c` is one of `0`-`9`, `a`-`f`, `A`-`F`.
pub open spec fn is_hex_digit(c: char) -> bool {
    ||| '0' <= c <= '9'
    ||| 'a' <= c <= 'f'
    ||| 'A' <= c <= 'F'
}

/// The number, 0 to 15, that the hexadecimal digit `c` stands for.
pub open spec fn hex_value(c: char) -> int
    recommends
        is_hex_digit(c),
{
    if '0' <= c <= '9' {
        c as int - '0' as int
    } else if 'a' <= c <= 'f' {
        c as int - 'a' as int + 10
    } else {
        c as int - 'A' as int + 10
    }
}

/// The byte that two hexadecimal digits write, the high one first.
pub open spec fn hex_byte(high: char, low: char) -> u8
    recommends
        is_hex_digit(high),
        is_hex_digit(low),
{
    (16 * hex_value(high) + hex_value(low)) as u8
}

/// The capital hexadecimal digit that writes `n`, a number below 16.
pub open spec fn hex_char(n: int) -> char
    recommends
        0 <= n < 16,
{
    if n < 10 {
        ('0' as int + n) as char
    } else {
        ('A' as int + n - 10) as char
    }
}

/// The two capital hexadecimal digits that write `byte`, the high one first.
pub open spec fn hex_digits(byte: u8) -> Seq<char> {
    seq![hex_char(byte as int / 16), hex_char(byte as int % 16)]
}

/// The two digits written for a byte are hexadecimal digits, and read back
/// they give the byte.
pub proof fn lemma_hex_digits(byte: u8)
    ensures
        is_hex_digit(hex_digits(byte)[0]),
        is_hex_digit(hex_digits(byte)[1]),
        hex_byte(hex_digits(byte)[0], hex_digits(byte)[1]) == byte,
{
}

/// The number that the hexadecimal digit `byte` stands for.
fn hex_digit(byte: u8) -> (value: Option<u8>)
    ensures
        value == if is_hex_digit(byte as char) {
            Some(hex_value(byte as char) as u8)
        } else {
            None
        },
{
    if byte >= '0' as u8 && byte <= '9' as u8 {
        Some(byte - '0' as u8)
    } else if byte >= 'a' as u8 && byte <= 'f' as u8 {
        Some(byte - 'a' as u8 + 10)
    } else if byte >= 'A' as u8 && byte <= 'F' as u8 {
        Some(byte - 'A' as u8 + 10)
    } else {
        None
    }
}

/// The byte that the hexadecimal digits `high` and `low` write.
pub(crate) fn hex_pair(high: u8, low: u8) -> (value: Option<u8>)
    ensures
        value == if is_hex_digit(high as char) && is_hex_digit(low as char) {
            Some(hex_byte(high as char, low as char))
        } else {
            None
        },
{
    match (hex_digit(high), hex_digit(low)) {
        (Some(h), Some(l)) => Some(h * 16 + l),
        _ => None,
    }
}

/// The text that is the one capital hexadecimal digit for `n`.
fn hex_digit_text(n: u8) -> (text: &'static str)
    requires
        n < 16,
    ensures
        text@ == seq![hex_char(n as int)],
{
    proof {
        reveal_strlit("0");
        reveal_strlit("1");
        reveal_strlit("2");
        reveal_strlit("3");
        reveal_strlit("4");
        reveal_strlit("5");
        reveal_strlit("6");
        reveal_strlit("7");
        reveal_strlit("8");
        reveal_strlit("9");
        reveal_strlit("A");
        reveal_strlit("B");
        reveal_strlit("C");
        reveal_strlit("D");
        reveal_strlit("E");
        reveal_strlit("F");
    }
    match n {
        0 => "0",
        1 => "1",
        2 => "2",
        3 => "3",
        4 => "4",
        5 => "5",
        6 => "6",
        7 => "7",
        8 => "8",
        9 => "9",
        10 => "A",
        11 => "B",
        12 => "C",
        13 => "D",
        14 => "E",
        _ => "F",
    }
}

/// Puts the two hexadecimal digits of `byte` at the end of `text`.
pub(crate) fn push_hex(text: &mut String, byte: u8)
    ensures
        final(text)@ == old(text)@ + hex_digits(byte),
{
    text.append(hex_digit_text(byte / 16));
    text.append(hex_digit_text(byte % 16));
}

} // verus!
