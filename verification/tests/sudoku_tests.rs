use sudoku::Sudoku;

#[test]
fn test_validate_sudoku() {
    let sudoku: Sudoku = "534678912\n\
             672195348\n\
             198342567\n\
             859761423\n\
             426853791\n\
             713924856\n\
             961537284\n\
             287419635\n\
             345286179"
        .parse()
        .unwrap();
    println!("{}", sudoku.format());
    assert!(sudoku.valid());
}

#[test]
fn test_invalid_sudoku() {
    let sudoku: Sudoku = "534678912\n\
             672195348\n\
             198342567\n\
             859761423\n\
             426853791\n\
             713924856\n\
             961537284\n\
             287419635\n\
             345286177"
        .parse()
        .unwrap();
    println!("{}", sudoku.format());
    assert!(!sudoku.valid());
}

#[test]
fn test_invlid_blocks() {
    let sudoku: Sudoku = "123456789\n\
            234567891\n\
            345678912\n\
            456789123\n\
            567891234\n\
            678912345\n\
            789123456\n\
            891234567\n\
            912345678"
        .parse()
        .unwrap();
    println!("{}", sudoku.format());
    assert!(!sudoku.valid());
}
