//! The renderer: a grid as 9 lines of space-separated digits, with a `"| "`
//! marker before columns 3 and 6 and a dashed separator line before rows 3
//! and 6. Display output only: it is not the parser's input format.

use vstd::prelude::*;
use crate::digits::digit_to_char;
use crate::grid::Sudoku;

verus! {

/// The separator line printed between row bands.
pub open spec fn separator_line() -> Seq<char> {
    "------+-------+------\n"@
}

/// The text of row `r`'s first `n` cells: each digit followed by a space,
/// with `"| "` before columns 3 and 6.
pub open spec fn row_prefix_text(g: Seq<u8>, r: int, n: int) -> Seq<char>
    decreases n,
{
    if n <= 0 {
        Seq::empty()
    } else {
        row_prefix_text(g, r, n - 1) + (if (n - 1) % 3 == 0 && n - 1 != 0 {
            "| "@
        } else {
            Seq::empty()
        }) + seq![digit_to_char(g[r * 9 + (n - 1)] as int), ' ']
    }
}

/// The text of the first `n` rows: each row's cells then a newline, with
/// the separator line before rows 3 and 6.
pub open spec fn rows_prefix_text(g: Seq<u8>, n: int) -> Seq<char>
    decreases n,
{
    if n <= 0 {
        Seq::empty()
    } else {
        rows_prefix_text(g, n - 1) + (if (n - 1) % 3 == 0 && n - 1 != 0 {
            separator_line()
        } else {
            Seq::empty()
        }) + row_prefix_text(g, n - 1, 9) + seq!['\n']
    }
}

/// The full rendering of a grid: all 9 rows.
pub open spec fn display_text(g: Seq<u8>) -> Seq<char> {
    rows_prefix_text(g, 9)
}

impl Sudoku {
    /// Renders the grid as 9 lines of space-separated digits with block
    /// separators, for terminal or log display.
    ///
    /// The result is a function of the grid's cells alone, so rendering is
    /// deterministic, and it never fails.
    pub fn format(&self) -> (out: String)
        ensures
            out@ == display_text(self@),
    {
        proof {
            use_type_invariant(self);
        }
        let mut out = String::new();
        for row in 0..9
            invariant
                self@.len() == 81,
                forall|i: int| 0 <= i < 81 ==> #[trigger] self@[i] <= 9,
                out@ == rows_prefix_text(self@, row as int),
        {
            if row % 3 == 0 && row != 0 {
                out.append("------+-------+------\n");
            }
            for col in 0..9
                invariant
                    self@.len() == 81,
                    forall|i: int| 0 <= i < 81 ==> #[trigger] self@[i] <= 9,
                    row < 9,
                    out@ == rows_prefix_text(self@, row as int) + (if row % 3 == 0 && row != 0 {
                        separator_line()
                    } else {
                        Seq::empty()
                    }) + row_prefix_text(self@, row as int, col as int),
            {
                if col % 3 == 0 && col != 0 {
                    out.append("| ");
                }
                out.push(crate::digits::digit_char_of(self.get(row, col)));
                out.push(' ');
                proof {
                    assert(out@ =~= rows_prefix_text(self@, row as int) + (if row % 3 == 0 && row
                        != 0 {
                        separator_line()
                    } else {
                        Seq::empty()
                    }) + row_prefix_text(self@, row as int, col + 1));
                }
            }
            out.append("\n");
            proof {
                reveal_strlit("\n");
                assert("\n"@ =~= seq!['\n']);
                assert(out@ =~= rows_prefix_text(self@, row as int + 1));
            }
        }
        out
    }
}

} // verus!
