//! The constraint checker: a grid is valid exactly when every row, every
//! column, and every 3x3 block is a permutation of the digits 1..=9.

use vstd::prelude::*;
use crate::grid::Sudoku;

verus! {

/// How many entries of `s` equal `v`.
pub open spec fn count_val(s: Seq<u8>, v: u8) -> nat
    decreases s.len(),
{
    if s.len() == 0 {
        0
    } else {
        count_val(s.drop_last(), v) + (if s.last() == v {
            1nat
        } else {
            0nat
        })
    }
}

/// Nine values forming a permutation of {1, ..., 9}: each in range, and
/// each digit occurring exactly once.
pub open spec fn is_permutation_1_9(s: Seq<u8>) -> bool {
    &&& s.len() == 9
    &&& forall|i: int| 0 <= i < 9 ==> 1 <= #[trigger] s[i] <= 9
    &&& forall|v: u8| 1 <= v <= 9 ==> count_val(s, v) == 1
}

/// Row `r` of a row-major grid of 81 cells.
pub open spec fn spec_row(g: Seq<u8>, r: int) -> Seq<u8> {
    Seq::new(9, |c: int| g[r * 9 + c])
}

/// Column `c` of a row-major grid of 81 cells.
pub open spec fn spec_col(g: Seq<u8>, c: int) -> Seq<u8> {
    Seq::new(9, |r: int| g[r * 9 + c])
}

/// The 3x3 block of a row-major grid whose top-left cell is at
/// (`br * 3`, `bc * 3`), read row by row.
pub open spec fn spec_block(g: Seq<u8>, br: int, bc: int) -> Seq<u8> {
    Seq::new(9, |k: int| g[(br * 3 + k / 3) * 9 + bc * 3 + k % 3])
}

/// A grid satisfies the Sudoku constraints: every row, every column, and
/// every 3x3 block is a permutation of {1, ..., 9}.
pub open spec fn grid_valid(g: Seq<u8>) -> bool {
    &&& forall|r: int| 0 <= r < 9 ==> is_permutation_1_9(#[trigger] spec_row(g, r))
    &&& forall|c: int| 0 <= c < 9 ==> is_permutation_1_9(#[trigger] spec_col(g, c))
    &&& forall|br: int, bc: int|
        0 <= br < 3 && 0 <= bc < 3 ==> is_permutation_1_9(#[trigger] spec_block(g, br, bc))
}

/// `v` occurs in a sequence at most as often as the sequence is long.
proof fn lemma_count_le_len(s: Seq<u8>, v: u8)
    ensures
        count_val(s, v) <= s.len(),
    decreases s.len(),
{
    if s.len() > 0 {
        lemma_count_le_len(s.drop_last(), v);
    }
}

/// Checks that nine values are a permutation of {1, ..., 9} with a
/// frequency count per digit.
fn digits_form_permutation(vals: &Vec<u8>) -> (r: bool)
    requires
        vals@.len() == 9,
    ensures
        r == is_permutation_1_9(vals@),
{
    let mut counts: Vec<u8> = Vec::new();
    for d in 0..9
        invariant
            counts@.len() == d,
            forall|j: int| 0 <= j < d ==> #[trigger] counts@[j] == 0,
    {
        counts.push(0);
    }
    for i in 0..9
        invariant
            vals@.len() == 9,
            counts@.len() == 9,
            forall|j: int| 0 <= j < i ==> 1 <= #[trigger] vals@[j] <= 9,
            forall|d: int|
                0 <= d < 9 ==> #[trigger] counts@[d] == count_val(
                    vals@.take(i as int),
                    (d + 1) as u8,
                ),
    {
        let v = vals[i];
        if v < 1 || v > 9 {
            return false;
        }
        let idx = (v - 1) as usize;
        proof {
            assert(vals@.take(i + 1).drop_last() =~= vals@.take(i as int));
            lemma_count_le_len(vals@.take(i as int), v);
            assert(((idx as int) + 1) as u8 == v);
            assert(counts@[idx as int] == count_val(vals@.take(i as int), v));
            assert(counts@[idx as int] <= 8);
        }
        counts[idx] = counts[idx] + 1;
        proof {
            assert forall|d: int| 0 <= d < 9 implies #[trigger] counts@[d] == count_val(
                vals@.take(i + 1),
                (d + 1) as u8,
            ) by {
                let w = (d + 1) as u8;
                assert(count_val(vals@.take(i + 1), w) == count_val(vals@.take(i as int), w) + (
                if v == w {
                    1nat
                } else {
                    0nat
                }));
            }
        }
    }
    proof {
        assert(vals@.take(9) =~= vals@);
    }
    for d in 0..9
        invariant
            counts@.len() == 9,
            forall|e: int| 0 <= e < 9 ==> #[trigger] counts@[e] == count_val(vals@, (e + 1) as u8),
            forall|e: int| 0 <= e < d ==> #[trigger] counts@[e] == 1,
    {
        if counts[d] != 1 {
            proof {
                let w = (d + 1) as u8;
                assert(count_val(vals@, w) == counts@[d as int]);
                assert(1 <= w <= 9 && count_val(vals@, w) != 1);
            }
            return false;
        }
    }
    proof {
        assert forall|v: u8| 1 <= v <= 9 implies count_val(vals@, v) == 1 by {
            let e = v - 1;
            assert(counts@[e] == count_val(vals@, (e + 1) as u8));
            assert((e + 1) as u8 == v);
            assert(counts@[e] == 1);
        }
    }
    true
}

impl Sudoku {
    /// Checks the Sudoku constraints: true exactly when every row, every
    /// column, and every 3x3 block is a permutation of {1, ..., 9}.
    ///
    /// A cell value outside 1..=9 (such as 0) makes its row, column and
    /// block fail the permutation check, so the grid is reported invalid.
    pub fn valid(&self) -> (r: bool)
        ensures
            r == grid_valid(self@),
    {
        proof {
            use_type_invariant(self);
        }
        // validate rows
        for row in 0..9
            invariant
                self@.len() == 81,
                forall|r: int| 0 <= r < row ==> is_permutation_1_9(#[trigger] spec_row(self@, r)),
        {
            let mut vals: Vec<u8> = Vec::new();
            for col in 0..9
                invariant
                    self@.len() == 81,
                    row < 9,
                    vals@.len() == col,
                    forall|j: int|
                        0 <= j < col ==> #[trigger] vals@[j] == self@[row as int * 9 + j],
            {
                vals.push(self.get(row, col));
            }
            proof {
                assert(vals@ =~= spec_row(self@, row as int));
            }
            if !digits_form_permutation(&vals) {
                return false;
            }
        }
        // validate columns
        for col in 0..9
            invariant
                self@.len() == 81,
                forall|r: int| 0 <= r < 9 ==> is_permutation_1_9(#[trigger] spec_row(self@, r)),
                forall|c: int| 0 <= c < col ==> is_permutation_1_9(#[trigger] spec_col(self@, c)),
        {
            let mut vals: Vec<u8> = Vec::new();
            for row in 0..9
                invariant
                    self@.len() == 81,
                    col < 9,
                    vals@.len() == row,
                    forall|j: int|
                        0 <= j < row ==> #[trigger] vals@[j] == self@[j * 9 + col as int],
            {
                vals.push(self.get(row, col));
            }
            proof {
                assert(vals@ =~= spec_col(self@, col as int));
            }
            if !digits_form_permutation(&vals) {
                return false;
            }
        }
        // check 3x3 blocks
        for block_row in 0..3
            invariant
                self@.len() == 81,
                forall|r: int| 0 <= r < 9 ==> is_permutation_1_9(#[trigger] spec_row(self@, r)),
                forall|c: int| 0 <= c < 9 ==> is_permutation_1_9(#[trigger] spec_col(self@, c)),
                forall|br: int, bc: int|
                    0 <= br < block_row && 0 <= bc < 3 ==> is_permutation_1_9(
                        #[trigger] spec_block(self@, br, bc),
                    ),
        {
            for block_col in 0..3
                invariant
                    self@.len() == 81,
                    block_row < 3,
                    forall|br: int, bc: int|
                        0 <= br < block_row && 0 <= bc < 3 ==> is_permutation_1_9(
                            #[trigger] spec_block(self@, br, bc),
                        ),
                    forall|bc: int|
                        0 <= bc < block_col ==> is_permutation_1_9(
                            #[trigger] spec_block(self@, block_row as int, bc),
                        ),
            {
                let mut vals: Vec<u8> = Vec::new();
                for k in 0..9
                    invariant
                        self@.len() == 81,
                        block_row < 3,
                        block_col < 3,
                        vals@.len() == k,
                        forall|j: int|
                            0 <= j < k ==> #[trigger] vals@[j] == self@[(block_row as int * 3 + j
                                / 3) * 9 + block_col as int * 3 + j % 3],
                {
                    let row = block_row * 3 + k / 3;
                    let col = block_col * 3 + k % 3;
                    vals.push(self.get(row, col));
                }
                proof {
                    assert(vals@ =~= spec_block(self@, block_row as int, block_col as int));
                }
                if !digits_form_permutation(&vals) {
                    return false;
                }
            }
        }
        true
    }
}

} // verus!
