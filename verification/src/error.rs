//! The error reported by the parser: a kind, and a human-readable detail
//! message whose exact contents are pinned down by spec functions here.

use vstd::prelude::*;
use crate::digits::digit_to_char;

verus! {

/// What went wrong during parsing.
///
/// `ConversionError` is part of the error model for a narrowing failure
/// when a parsed digit is stored in a cell; a digit 0..=9 always fits the
/// cell type, so the parser never actually produces it.
#[derive(Clone, Copy, Debug, PartialEq, Eq)]
pub enum SudokuErrorKind {
    /// The input, newlines stripped, did not hold exactly 81 characters.
    WrongLength,
    /// A stripped-input character was not a base-10 digit; `row` and `col`
    /// are the 0-indexed grid position of the offending character `ch`.
    InvalidCharacter { ch: char, row: usize, col: usize },
    /// A parsed digit could not be narrowed to the cell type.
    ConversionError,
}

/// Error returned on invalid sudoku parsing.
#[derive(Debug)]
pub struct SudokuError {
    /// The kind of failure.
    pub kind: SudokuErrorKind,
    /// A human-readable description of the failure.
    pub details: String,
}

/// The message reported when the stripped input is not 81 characters long.
pub open spec fn wrong_length_message() -> Seq<char> {
    "Table needs to have 81 cells."@
}

/// The message reported for a non-digit character `c` at grid position
/// (`row`, `col`): the offending character and its 0-indexed coordinates.
pub open spec fn invalid_char_message(c: char, row: int, col: int) -> Seq<char> {
    "Invalid character "@.push(c) + " at "@ + seq![digit_to_char(row), ','] + seq![
        digit_to_char(col),
        '.',
    ]
}

/// Relies on `alloc::string::String::push`: appends the given character to
/// the end of the string.
pub assume_specification[ String::push ](s: &mut String, ch: char)
    ensures
        final(s)@ == old(s)@.push(ch),
;

impl SudokuError {
    /// The wrong-length error, with its exact message.
    pub(crate) fn wrong_length() -> (e: SudokuError)
        ensures
            e.kind is WrongLength,
            e.details@ == wrong_length_message(),
    {
        SudokuError {
            kind: SudokuErrorKind::WrongLength,
            details: String::from_str("Table needs to have 81 cells."),
        }
    }

    /// The invalid-character error for character `c` at (`row`, `col`),
    /// with its exact message.
    pub(crate) fn invalid_character(c: char, row: usize, col: usize) -> (e: SudokuError)
        requires
            row < 9,
            col < 9,
        ensures
            e.kind == (SudokuErrorKind::InvalidCharacter { ch: c, row, col }),
            e.details@ == invalid_char_message(c, row as int, col as int),
    {
        let mut m = String::from_str("Invalid character ");
        m.push(c);
        m.append(" at ");
        m.push(crate::digits::digit_char_of(row as u8));
        m.push(',');
        m.push(crate::digits::digit_char_of(col as u8));
        m.push('.');
        proof {
            assert(m@ =~= invalid_char_message(c, row as int, col as int));
        }
        SudokuError { kind: SudokuErrorKind::InvalidCharacter { ch: c, row, col }, details: m }
    }
}

} // verus!
