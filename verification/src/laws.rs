//! Laws relating the parser, the validator and the renderer.

use vstd::prelude::*;
use crate::digits::digit_to_char;
use crate::digits::digit_val;
use crate::digits::is_digit_char;
use crate::digits::lemma_digit_to_char_val;
use crate::parse::parse_ok;
use crate::parse::parsed_cells;
use crate::parse::strip_newlines;
use crate::render::display_text;
use crate::validate::grid_valid;
use crate::validate::is_permutation_1_9;
use crate::validate::spec_row;

verus! {

/// A grid's cells written out as one digit character each, row-major: the
/// format-compatible flattening that the parser accepts back.
pub open spec fn flattened_cells(g: Seq<u8>) -> Seq<char> {
    g.map_values(|v: u8| digit_to_char(v as int))
}

/// Stripping newlines from text that has none leaves it unchanged.
proof fn lemma_strip_newlines_id(s: Seq<char>)
    requires
        forall|i: int| 0 <= i < s.len() ==> #[trigger] s[i] != '\n',
    ensures
        strip_newlines(s) == s,
    decreases s.len(),
{
    if s.len() > 0 {
        lemma_strip_newlines_id(s.drop_last());
        assert(strip_newlines(s) =~= s);
    } else {
        assert(strip_newlines(s) =~= s);
    }
}

/// Round trip: flattening any 81 single-digit cells to text and parsing
/// that text succeeds and reproduces exactly the same cells. Every grid
/// this library hands out satisfies the hypotheses: the parser only ever
/// stores digit values (`parsed_cells` entries are at most 9).
pub proof fn lemma_parse_round_trip(g: Seq<u8>)
    requires
        g.len() == 81,
        forall|i: int| 0 <= i < 81 ==> #[trigger] g[i] <= 9,
    ensures
        parse_ok(flattened_cells(g)),
        parsed_cells(flattened_cells(g)) == g,
{
    let f = flattened_cells(g);
    assert forall|i: int| 0 <= i < 81 implies is_digit_char(#[trigger] f[i]) && f[i] != '\n'
        && digit_val(f[i]) == g[i] by {
        lemma_digit_to_char_val(g[i] as int);
    }
    lemma_strip_newlines_id(f);
    assert(parsed_cells(f) =~= g);
}

/// A cell value of 0 or above 9 (indeed, any value outside 1..=9) makes
/// the whole grid invalid: its row cannot be a permutation of 1..=9.
pub proof fn lemma_out_of_range_cell_invalid(g: Seq<u8>, row: int, col: int)
    requires
        g.len() == 81,
        0 <= row < 9,
        0 <= col < 9,
        g[row * 9 + col] < 1 || g[row * 9 + col] > 9,
    ensures
        !grid_valid(g),
{
    assert(spec_row(g, row)[col] == g[row * 9 + col]);
    assert(!is_permutation_1_9(spec_row(g, row)));
}

/// Rendering is deterministic: grids with equal cells render to equal text.
pub proof fn lemma_format_deterministic(a: Seq<u8>, b: Seq<u8>)
    requires
        a == b,
    ensures
        display_text(a) == display_text(b),
{
}

} // verus!
