//! The parser: text to grid, or a structured error.
//!
//! Newlines are stripped (and only newlines); the 81 remaining characters
//! must all be base-10 digits, filled into the grid in row-major order.

use vstd::prelude::*;
use crate::digits::digit_val;
use crate::digits::is_digit_char;
use crate::error::SudokuError;
use crate::error::SudokuErrorKind;
use crate::error::invalid_char_message;
use crate::error::wrong_length_message;
use crate::grid::Sudoku;

verus! {

/// The input with every newline character removed, and nothing else.
pub open spec fn strip_newlines(s: Seq<char>) -> Seq<char>
    decreases s.len(),
{
    if s.len() == 0 {
        Seq::empty()
    } else if s.last() == '\n' {
        strip_newlines(s.drop_last())
    } else {
        strip_newlines(s.drop_last()).push(s.last())
    }
}

/// Parsing succeeds exactly when the stripped input is 81 digit characters.
pub open spec fn parse_ok(s: Seq<char>) -> bool {
    &&& strip_newlines(s).len() == 81
    &&& forall|i: int| 0 <= i < 81 ==> is_digit_char(#[trigger] strip_newlines(s)[i])
}

/// The cell values a successful parse produces: the stripped input's
/// characters read as digits, in order.
pub open spec fn parsed_cells(s: Seq<char>) -> Seq<u8> {
    strip_newlines(s).map_values(|c: char| digit_val(c))
}

/// What a parse error says of the input `s` it was produced from.
pub open spec fn parse_error_spec(s: Seq<char>, e: SudokuError) -> bool {
    match e.kind {
        SudokuErrorKind::WrongLength => {
            &&& strip_newlines(s).len() != 81
            &&& e.details@ == wrong_length_message()
        },
        SudokuErrorKind::InvalidCharacter { ch, row, col } => {
            &&& strip_newlines(s).len() == 81
            &&& row < 9
            &&& col < 9
            &&& ch == strip_newlines(s)[row as int * 9 + col as int]
            &&& !is_digit_char(ch)
            &&& forall|j: int|
                0 <= j < row as int * 9 + col as int ==> is_digit_char(
                    #[trigger] strip_newlines(s)[j],
                )
            &&& e.details@ == invalid_char_message(ch, row as int, col as int)
        },
        SudokuErrorKind::ConversionError => false,
    }
}

impl Sudoku {
    /// Parses a sudoku grid from text: newlines are stripped, the 81
    /// remaining characters are read as digits in row-major order.
    ///
    /// Returns `Ok` exactly when the stripped input is 81 digit characters;
    /// otherwise the error names the first thing wrong: the length, or the
    /// earliest non-digit character and its 0-indexed (row, col) position.
    pub fn parse(s: &str) -> (r: Result<Sudoku, SudokuError>)
        ensures
            match r {
                Ok(grid) => parse_ok(s@) && grid@ == parsed_cells(s@),
                Err(e) => !parse_ok(s@) && parse_error_spec(s@, e),
            },
    {
        let len = s.unicode_len();
        let mut cleaned: Vec<char> = Vec::new();
        for i in 0..len
            invariant
                len == s@.len(),
                cleaned@ == strip_newlines(s@.take(i as int)),
        {
            let c = s.get_char(i);
            proof {
                assert(s@.take(i + 1).drop_last() =~= s@.take(i as int));
            }
            if c != '\n' {
                cleaned.push(c);
            }
        }
        proof {
            assert(s@.take(len as int) =~= s@);
        }
        if cleaned.len() != 81 {
            return Err(SudokuError::wrong_length());
        }
        let mut cells: Vec<u8> = Vec::new();
        for i in 0..81
            invariant
                cleaned@ == strip_newlines(s@),
                cleaned@.len() == 81,
                cells@.len() == i,
                forall|j: int|
                    0 <= j < i ==> is_digit_char(#[trigger] cleaned@[j]) && cells@[j] == digit_val(
                        cleaned@[j],
                    ),
        {
            let c = cleaned[i];
            let u = c as u32;
            if u < 48 || u > 57 {
                let row = i / 9;
                let col = i % 9;
                return Err(SudokuError::invalid_character(c, row, col));
            }
            cells.push((u - 48) as u8);
        }
        proof {
            assert(cells@ =~= parsed_cells(s@));
        }
        Ok(Sudoku::from_cells(cells))
    }
}

impl core::str::FromStr for Sudoku {
    type Err = SudokuError;

    /// Parses as [`Sudoku::parse`] does, so that `text.parse()` works.
    fn from_str(s: &str) -> Result<Sudoku, SudokuError> {
        Sudoku::parse(s)
    }
}

} // verus!
