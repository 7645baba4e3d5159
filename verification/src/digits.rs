//! Decimal digit characters: recognising them, and converting between a
//! digit character and the small integer it denotes.

use vstd::prelude::*;

verus! {

/// A character is a base-10 digit: one of '0' through '9' (code points 48..=57).
pub open spec fn is_digit_char(c: char) -> bool {
    48 <= c as u32 && c as u32 <= 57
}

/// The value denoted by a digit character ('0' -> 0, ..., '9' -> 9).
pub open spec fn digit_val(c: char) -> u8
    recommends
        is_digit_char(c),
{
    (c as u32 - 48) as u8
}

/// The digit character denoting a value in 0..=9.
pub open spec fn digit_to_char(d: int) -> char
    recommends
        0 <= d <= 9,
{
    if d == 0 {
        '0'
    } else if d == 1 {
        '1'
    } else if d == 2 {
        '2'
    } else if d == 3 {
        '3'
    } else if d == 4 {
        '4'
    } else if d == 5 {
        '5'
    } else if d == 6 {
        '6'
    } else if d == 7 {
        '7'
    } else if d == 8 {
        '8'
    } else {
        '9'
    }
}

/// `digit_to_char` really produces digit characters, and `digit_val`
/// inverts it on 0..=9.
pub proof fn lemma_digit_to_char_val(d: int)
    requires
        0 <= d <= 9,
    ensures
        is_digit_char(digit_to_char(d)),
        digit_val(digit_to_char(d)) == d,
        digit_to_char(d) != '\n',
{
}

/// Executable form of [`digit_to_char`].
pub(crate) fn digit_char_of(v: u8) -> (c: char)
    requires
        v <= 9,
    ensures
        c == digit_to_char(v as int),
{
    if v == 0 {
        '0'
    } else if v == 1 {
        '1'
    } else if v == 2 {
        '2'
    } else if v == 3 {
        '3'
    } else if v == 4 {
        '4'
    } else if v == 5 {
        '5'
    } else if v == 6 {
        '6'
    } else if v == 7 {
        '7'
    } else if v == 8 {
        '8'
    } else {
        '9'
    }
}

} // verus!
