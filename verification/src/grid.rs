//! The grid: a fixed 9x9 container of small cell values, stored row-major.
//!
//! A grid is only ever built by the parser, so every cell holds a value a
//! single digit character can denote (0..=9); validation, not storage,
//! enforces the Sudoku range 1..=9.

use vstd::prelude::*;

verus! {

/// Sudoku structure holding the 81 values of the sudoku puzzle, row-major:
/// the cell at (`row`, `col`) is entry `row * 9 + col` of the view.
#[derive(Debug)]
pub struct Sudoku {
    table: Vec<u8>,
}

impl View for Sudoku {
    type V = Seq<u8>;

    closed spec fn view(&self) -> Seq<u8> {
        self.table@
    }
}

impl Sudoku {
    /// Every grid holds exactly 81 cells, each a single-digit value.
    #[verifier::type_invariant]
    pub(crate) open spec fn wf(self) -> bool {
        &&& self@.len() == 81
        &&& forall|i: int| 0 <= i < 81 ==> #[trigger] self@[i] <= 9
    }

    /// Wraps 81 digit values as a grid.
    pub(crate) fn from_cells(cells: Vec<u8>) -> (s: Sudoku)
        requires
            cells@.len() == 81,
            forall|i: int| 0 <= i < 81 ==> #[trigger] cells@[i] <= 9,
        ensures
            s@ == cells@,
    {
        Sudoku { table: cells }
    }

    /// The number of cells: always 81.
    pub fn len(&self) -> (n: usize)
        ensures
            n == self@.len(),
            n == 81,
    {
        proof {
            use_type_invariant(self);
        }
        self.table.len()
    }

    /// The value of the cell at (`row`, `col`); always a single digit.
    pub fn get(&self, row: usize, col: usize) -> (v: u8)
        requires
            row < 9,
            col < 9,
        ensures
            v == self@[row as int * 9 + col as int],
            v <= 9,
    {
        proof {
            use_type_invariant(self);
        }
        self.table[row * 9 + col]
    }
}

} // verus!
