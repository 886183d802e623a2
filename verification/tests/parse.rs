use tic_tac_toe::board::Board;
use tic_tac_toe::parse::parse_point;

fn parsed(line: &str) -> Option<(usize, usize)> {
    let bytes: Vec<u8> = line.as_bytes().to_vec();
    parse_point(&bytes).map(|p| (p.x, p.y))
}

#[test]
fn parses_plain_pair() {
    assert_eq!(parsed("1,2"), Some((1, 2)));
}

#[test]
fn parses_pair_with_trailing_newline() {
    assert_eq!(parsed("0,2\n"), Some((0, 2)));
}

#[test]
fn tolerates_whitespace_around_each_number() {
    assert_eq!(parsed(" 1 ,\t2 \n"), Some((1, 2)));
}

#[test]
fn tolerates_leading_zeros() {
    assert_eq!(parsed("02,01"), Some((2, 1)));
}

#[test]
fn ignores_text_after_a_second_comma() {
    assert_eq!(parsed("1,2,9"), Some((1, 2)));
}

#[test]
fn rejects_non_numeric_line() {
    assert_eq!(parsed("abc"), None);
}

#[test]
fn rejects_missing_comma() {
    assert_eq!(parsed("12"), None);
}

#[test]
fn rejects_empty_fields() {
    assert_eq!(parsed("1,"), None);
    assert_eq!(parsed(",1"), None);
    assert_eq!(parsed(" , "), None);
}

#[test]
fn rejects_non_numeric_field() {
    assert_eq!(parsed("1,x"), None);
    assert_eq!(parsed("one,2"), None);
    assert_eq!(parsed("1,-2"), None);
}

#[test]
fn rejects_out_of_range_coordinates() {
    assert_eq!(parsed("3,0"), None);
    assert_eq!(parsed("0,3"), None);
    assert_eq!(parsed("10,1"), None);
    assert_eq!(parsed("1,99999999999999999999999"), None);
}

#[test]
fn scenario_malformed_input_leaves_board_untouched() {
    let mut board = Board::new();
    let before = board.render();
    let bytes: Vec<u8> = "abc".as_bytes().to_vec();
    match parse_point(&bytes) {
        Some(p) => {
            // A parsed point would be the only way to reach a placement;
            // a malformed line must never produce one.
            board.set_token(p, tic_tac_toe::token::Token::X);
            panic!("malformed line parsed");
        },
        None => {},
    }
    assert_eq!(board.render(), before);
    assert!(!board.is_full());
}
