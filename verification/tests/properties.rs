use sudoku::Sudoku;
use sudoku::SudokuErrorKind;

const SOLVED: &str =
    "534678912672195348198342567859761423426853791713924856961537284287419635345286179";

#[test]
fn parse_fills_cells_in_row_major_order() {
    let grid = Sudoku::parse(SOLVED).unwrap();
    let digits: Vec<u8> = SOLVED.bytes().map(|b| b - b'0').collect();
    for row in 0..9 {
        for col in 0..9 {
            assert_eq!(grid.get(row, col), digits[row * 9 + col]);
        }
    }
    assert_eq!(grid.len(), 81);
}

#[test]
fn parse_strips_embedded_newlines() {
    let mut broken = String::new();
    for (i, c) in SOLVED.chars().enumerate() {
        if i % 7 == 0 {
            broken.push('\n');
        }
        broken.push(c);
    }
    broken.push('\n');
    let grid = Sudoku::parse(&broken).unwrap();
    let plain = Sudoku::parse(SOLVED).unwrap();
    for row in 0..9 {
        for col in 0..9 {
            assert_eq!(grid.get(row, col), plain.get(row, col));
        }
    }
}

#[test]
fn parse_rejects_wrong_length() {
    let too_short = &SOLVED[..80];
    let mut too_long = String::from(SOLVED);
    too_long.push('5');
    for bad in [too_short, too_long.as_str(), "", "12345", "\n\n\n"] {
        let err = Sudoku::parse(bad).unwrap_err();
        assert_eq!(err.kind, SudokuErrorKind::WrongLength);
        assert_eq!(err.details, "Table needs to have 81 cells.");
    }
}

#[test]
fn parse_rejects_non_digit_with_position() {
    // replace the character at index 22 (row 2, col 4) with 'x'
    let mut bad = String::from(&SOLVED[..22]);
    bad.push('x');
    bad.push_str(&SOLVED[23..]);
    let err = Sudoku::parse(&bad).unwrap_err();
    assert_eq!(err.kind, SudokuErrorKind::InvalidCharacter { ch: 'x', row: 2, col: 4 });
    assert_eq!(err.details, "Invalid character x at 2,4.");
}

#[test]
fn parse_reports_first_non_digit() {
    let mut bad = String::from("? ");
    bad.push_str(&SOLVED[2..]);
    let err = Sudoku::parse(&bad).unwrap_err();
    assert_eq!(err.kind, SudokuErrorKind::InvalidCharacter { ch: '?', row: 0, col: 0 });
    assert_eq!(err.details, "Invalid character ? at 0,0.");
}

#[test]
fn space_counts_as_invalid_character_not_whitespace() {
    let mut bad = String::from(&SOLVED[..80]);
    bad.push(' ');
    let err = Sudoku::parse(&bad).unwrap_err();
    assert_eq!(err.kind, SudokuErrorKind::InvalidCharacter { ch: ' ', row: 8, col: 8 });
    assert_eq!(err.details, "Invalid character   at 8,8.");
}

#[test]
fn duplicate_in_column_invalidates() {
    // every row is the same permutation: rows fine, columns all duplicates
    let mut text = String::new();
    for _ in 0..9 {
        text.push_str("123456789");
    }
    let grid = Sudoku::parse(&text).unwrap();
    assert!(!grid.valid());
}

#[test]
fn zero_cell_parses_but_invalidates() {
    // digit 0 is accepted structurally, yet 0 is outside 1..=9
    let mut text = String::from("0");
    text.push_str(&SOLVED[1..]);
    let grid = Sudoku::parse(&text).unwrap();
    assert_eq!(grid.get(0, 0), 0);
    assert!(!grid.valid());
}

#[test]
fn all_zeros_grid_is_invalid_without_crashing() {
    let text: String = std::iter::repeat('0').take(81).collect();
    let grid = Sudoku::parse(&text).unwrap();
    assert!(!grid.valid());
}

#[test]
fn format_produces_expected_text() {
    let grid = Sudoku::parse(SOLVED).unwrap();
    let expected = "5 3 4 | 6 7 8 | 9 1 2 \n\
                    6 7 2 | 1 9 5 | 3 4 8 \n\
                    1 9 8 | 3 4 2 | 5 6 7 \n\
                    ------+-------+------\n\
                    8 5 9 | 7 6 1 | 4 2 3 \n\
                    4 2 6 | 8 5 3 | 7 9 1 \n\
                    7 1 3 | 9 2 4 | 8 5 6 \n\
                    ------+-------+------\n\
                    9 6 1 | 5 3 7 | 2 8 4 \n\
                    2 8 7 | 4 1 9 | 6 3 5 \n\
                    3 4 5 | 2 8 6 | 1 7 9 \n";
    assert_eq!(grid.format(), expected);
}

#[test]
fn format_is_deterministic() {
    let grid = Sudoku::parse(SOLVED).unwrap();
    let again = Sudoku::parse(SOLVED).unwrap();
    assert_eq!(grid.format(), grid.format());
    assert_eq!(grid.format(), again.format());
}

#[test]
fn format_round_trips_through_parse() {
    let grid = Sudoku::parse(SOLVED).unwrap();
    let flattened: String = grid.format().chars().filter(|c| c.is_ascii_digit()).collect();
    let reparsed = Sudoku::parse(&flattened).unwrap();
    for row in 0..9 {
        for col in 0..9 {
            assert_eq!(reparsed.get(row, col), grid.get(row, col));
        }
    }
}

#[test]
fn zero_cells_round_trip_too() {
    let text: String = std::iter::repeat('0').take(81).collect();
    let grid = Sudoku::parse(&text).unwrap();
    let flattened: String = grid.format().chars().filter(|c| c.is_ascii_digit()).collect();
    assert_eq!(flattened, text);
}
