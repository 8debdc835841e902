//! Numbers as text: hexadecimal of fixed width and decimal.

use vstd::prelude::*;
use vstd::string::StringExecFns;

verus! {

/// The upper-case hexadecimal digit of a number below 16.
pub open spec fn spec_hex_digit(nibble: u8) -> Seq<char> {
    if nibble == 0 {
        "0"@
    } else if nibble == 1 {
        "1"@
    } else if nibble == 2 {
        "2"@
    } else if nibble == 3 {
        "3"@
    } else if nibble == 4 {
        "4"@
    } else if nibble == 5 {
        "5"@
    } else if nibble == 6 {
        "6"@
    } else if nibble == 7 {
        "7"@
    } else if nibble == 8 {
        "8"@
    } else if nibble == 9 {
        "9"@
    } else if nibble == 10 {
        "A"@
    } else if nibble == 11 {
        "B"@
    } else if nibble == 12 {
        "C"@
    } else if nibble == 13 {
        "D"@
    } else if nibble == 14 {
        "E"@
    } else {
        "F"@
    }
}

/// The lower-case hexadecimal digit of a number below 16.
pub open spec fn spec_hex_digit_lower(nibble: u8) -> Seq<char> {
    if nibble == 10 {
        "a"@
    } else if nibble == 11 {
        "b"@
    } else if nibble == 12 {
        "c"@
    } else if nibble == 13 {
        "d"@
    } else if nibble == 14 {
        "e"@
    } else if nibble == 15 {
        "f"@
    } else {
        spec_hex_digit(nibble)
    }
}

/// A byte as two upper-case hexadecimal digits.
pub open spec fn spec_hex_u8(byte: u8) -> Seq<char> {
    spec_hex_digit(byte / 16) + spec_hex_digit(byte % 16)
}

/// A word as four upper-case hexadecimal digits.
pub open spec fn spec_hex_u16(word: u16) -> Seq<char> {
    spec_hex_u8((word / 256) as u8) + spec_hex_u8((word % 256) as u8)
}

/// A word as four lower-case hexadecimal digits.
pub open spec fn spec_hex_u16_lower(word: u16) -> Seq<char> {
    spec_hex_digit_lower((word / 4096) as u8) + spec_hex_digit_lower(((word / 256) % 16) as u8)
        + spec_hex_digit_lower(((word / 16) % 16) as u8) + spec_hex_digit_lower((word % 16) as u8)
}

/// A natural number in decimal, without leading zeros.
pub open spec fn spec_decimal(number: nat) -> Seq<char>
    decreases number,
{
    if number < 10 {
        spec_hex_digit(number as u8)
    } else {
        spec_decimal(number / 10) + spec_hex_digit((number % 10) as u8)
    }
}

/// A signed byte in decimal, with a minus sign if it is negative.
pub open spec fn spec_decimal_i8(number: i8) -> Seq<char> {
    if number < 0 {
        "-"@ + spec_decimal((-number) as nat)
    } else {
        spec_decimal(number as nat)
    }
}

pub fn hex_digit(nibble: u8) -> (digit: &'static str)
    requires
        nibble < 16,
    ensures
        digit@ == spec_hex_digit(nibble),
{
    if nibble == 0 {
        "0"
    } else if nibble == 1 {
        "1"
    } else if nibble == 2 {
        "2"
    } else if nibble == 3 {
        "3"
    } else if nibble == 4 {
        "4"
    } else if nibble == 5 {
        "5"
    } else if nibble == 6 {
        "6"
    } else if nibble == 7 {
        "7"
    } else if nibble == 8 {
        "8"
    } else if nibble == 9 {
        "9"
    } else if nibble == 10 {
        "A"
    } else if nibble == 11 {
        "B"
    } else if nibble == 12 {
        "C"
    } else if nibble == 13 {
        "D"
    } else if nibble == 14 {
        "E"
    } else {
        "F"
    }
}

pub fn hex_digit_lower(nibble: u8) -> (digit: &'static str)
    requires
        nibble < 16,
    ensures
        digit@ == spec_hex_digit_lower(nibble),
{
    if nibble == 10 {
        "a"
    } else if nibble == 11 {
        "b"
    } else if nibble == 12 {
        "c"
    } else if nibble == 13 {
        "d"
    } else if nibble == 14 {
        "e"
    } else if nibble == 15 {
        "f"
    } else {
        hex_digit(nibble)
    }
}

/// Appends a byte as two upper-case hexadecimal digits.
pub fn push_hex_u8(text: &mut String, byte: u8)
    ensures
        final(text)@ == old(text)@ + spec_hex_u8(byte),
{
    text.append(hex_digit(byte / 16));
    text.append(hex_digit(byte % 16));
    assert(text@ =~= old(text)@ + spec_hex_u8(byte));
}

/// Appends a word as four upper-case hexadecimal digits.
pub fn push_hex_u16(text: &mut String, word: u16)
    ensures
        final(text)@ == old(text)@ + spec_hex_u16(word),
{
    push_hex_u8(text, (word / 256) as u8);
    push_hex_u8(text, (word % 256) as u8);
    assert(text@ =~= old(text)@ + spec_hex_u16(word));
}

/// Appends a word as four lower-case hexadecimal digits.
pub fn push_hex_u16_lower(text: &mut String, word: u16)
    ensures
        final(text)@ == old(text)@ + spec_hex_u16_lower(word),
{
    text.append(hex_digit_lower((word / 4096) as u8));
    text.append(hex_digit_lower(((word / 256) % 16) as u8));
    text.append(hex_digit_lower(((word / 16) % 16) as u8));
    text.append(hex_digit_lower((word % 16) as u8));
    assert(text@ =~= old(text)@ + spec_hex_u16_lower(word));
}

/// Appends a number in decimal.
pub fn push_decimal(text: &mut String, number: u16)
    ensures
        final(text)@ == old(text)@ + spec_decimal(number as nat),
    decreases number,
{
    if number < 10 {
        text.append(hex_digit(number as u8));
    } else {
        push_decimal(text, number / 10);
        text.append(hex_digit((number % 10) as u8));
        assert(text@ =~= old(text)@ + spec_decimal(number as nat));
    }
}

/// Appends a signed byte in decimal.
pub fn push_decimal_i8(text: &mut String, number: i8)
    ensures
        final(text)@ == old(text)@ + spec_decimal_i8(number),
{
    if number < 0 {
        text.append("-");
        push_decimal(text, (-(number as i16)) as u16);
        assert(text@ =~= old(text)@ + spec_decimal_i8(number));
    } else {
        push_decimal(text, number as u16);
    }
}

} // verus!
