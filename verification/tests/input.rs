use tictactoe::input::decode_move;

#[test]
fn decodes_two_plain_numbers() {
    assert_eq!(decode_move(b"1 2"), Some((1, 2)));
    assert_eq!(decode_move(b"0 0"), Some((0, 0)));
    assert_eq!(decode_move(b"2 1"), Some((2, 1)));
}

#[test]
fn decodes_with_surrounding_and_wide_whitespace() {
    assert_eq!(decode_move(b"  0\t\t2  \r\n"), Some((0, 2)));
    assert_eq!(decode_move(b"1 2\n"), Some((1, 2)));
}

#[test]
fn decodes_numbers_with_leading_zeros_and_beyond_the_board() {
    // The decoder only reads the numbers; bounds are the engine's concern.
    assert_eq!(decode_move(b"07 0002"), Some((7, 2)));
    assert_eq!(decode_move(b"12 4"), Some((12, 4)));
}

#[test]
fn rejects_wrong_token_count() {
    assert_eq!(decode_move(b""), None);
    assert_eq!(decode_move(b"   \n"), None);
    assert_eq!(decode_move(b"1"), None);
    assert_eq!(decode_move(b"1 2 3"), None);
}

#[test]
fn rejects_non_numeric_tokens() {
    assert_eq!(decode_move(b"a b"), None);
    assert_eq!(decode_move(b"1 b"), None);
    assert_eq!(decode_move(b"1a 2"), None);
    assert_eq!(decode_move(b"1 2x"), None);
    assert_eq!(decode_move(b"-1 2"), None);
    assert_eq!(decode_move(b"1.0 2"), None);
    assert_eq!(decode_move(b"\xff1 2"), None);
}

#[test]
fn rejects_joined_or_unseparated_numbers() {
    assert_eq!(decode_move(b"12"), None);
    assert_eq!(decode_move(b"1,2"), None);
}

#[test]
fn rejects_numbers_that_do_not_fit() {
    // One digit more than usize::MAX can hold.
    let too_big = format!("{}0 1", usize::MAX);
    assert_eq!(decode_move(too_big.as_bytes()), None);
    let still_fits = format!("{} 1", usize::MAX);
    assert_eq!(decode_move(still_fits.as_bytes()), Some((usize::MAX, 1)));
}
