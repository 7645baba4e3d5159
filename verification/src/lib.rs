//! A 9x9 Sudoku library: a strict text parser with positional error
//! reporting, a constraint checker, and a text renderer.
//!
//! The flow is: raw text -> [`Sudoku::parse`] -> [`Sudoku`] ->
//! [`Sudoku::valid`]; independently, [`Sudoku`] -> [`Sudoku::format`].

mod digits;
mod error;
mod grid;
mod laws;
mod parse;
mod render;
mod validate;

pub use error::SudokuError;
pub use error::SudokuErrorKind;
pub use grid::Sudoku;
