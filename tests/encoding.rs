use tictacrustle::SquareValue::{Empty, O, X};
use tictacrustle::{Board, DecodeError, Encoding, SquareValue};

fn board_from(values: [SquareValue; 9]) -> Board {
    let mut board = Board::new();
    for (i, v) in values.iter().enumerate() {
        let square = board.get_square_mut(i / 3 + 1, i % 3 + 1);
        match v {
            SquareValue::Empty => square.set_empty(),
            SquareValue::X => square.set_x(),
            SquareValue::O => square.set_o(),
        }
    }
    board
}

#[test]
fn scenario_x_corner_o_centre() {
    let mut board = Board::new();
    board.get_square_mut(1, 1).set_x();
    board.get_square_mut(2, 2).set_o();
    let enc = Encoding::new();
    assert_eq!(enc.encode(&board), "100020000");
    assert_eq!(enc.to_number(&board), 6723);
}

#[test]
fn empty_board_is_zero() {
    let enc = Encoding::new();
    assert_eq!(enc.encode(&Board::new()), "000000000");
    assert_eq!(enc.to_number(&Board::new()), 0);
}

#[test]
fn all_o_board_is_largest_number() {
    let enc = Encoding::new();
    let board = board_from([SquareValue::O; 9]);
    assert_eq!(enc.encode(&board), "222222222");
    assert_eq!(enc.to_number(&board), 19682);
}

#[test]
fn last_square_is_least_significant() {
    let enc = Encoding::new();
    let mut board = Board::new();
    board.get_square_mut(3, 3).set_x();
    assert_eq!(enc.to_number(&board), 1);
    board.get_square_mut(3, 2).set_o();
    assert_eq!(enc.to_number(&board), 7);
}

#[test]
fn decode_round_trip() {
    let enc = Encoding::new();
    let board = board_from([X, O, Empty, O, X, X, Empty, Empty, O]);
    let text = enc.encode(&board);
    assert_eq!(text, "120211002");
    assert_eq!(enc.decode(&text), Ok(board));
}

#[test]
fn decode_reads_squares_row_major() {
    let enc = Encoding::new();
    let board = enc.decode("012000201").unwrap();
    assert_eq!(board.get_square(1, 1).get_value(), SquareValue::Empty);
    assert_eq!(board.get_square(1, 2).get_value(), SquareValue::X);
    assert_eq!(board.get_square(1, 3).get_value(), SquareValue::O);
    assert_eq!(board.get_square(3, 1).get_value(), SquareValue::O);
    assert_eq!(board.get_square(3, 3).get_value(), SquareValue::X);
}

#[test]
fn decode_refuses_wrong_length() {
    let enc = Encoding::new();
    assert_eq!(enc.decode(""), Err(DecodeError::InvalidLength));
    assert_eq!(enc.decode("00000000"), Err(DecodeError::InvalidLength));
    assert_eq!(enc.decode("0000000000"), Err(DecodeError::InvalidLength));
}

#[test]
fn decode_refuses_bad_character() {
    let enc = Encoding::new();
    assert_eq!(enc.decode("000030000"), Err(DecodeError::InvalidCharacter));
    assert_eq!(enc.decode("00000000x"), Err(DecodeError::InvalidCharacter));
    assert_eq!(enc.decode("é00000000"), Err(DecodeError::InvalidCharacter));
}

#[test]
fn different_boards_give_different_numbers() {
    let enc = Encoding::new();
    let mut seen = std::collections::HashSet::new();
    for n in 0..3u32.pow(4) {
        let mut values = [SquareValue::Empty; 9];
        let mut k = n;
        for i in (5..9).rev() {
            values[i] = match k % 3 {
                0 => SquareValue::Empty,
                1 => SquareValue::X,
                _ => SquareValue::O,
            };
            k /= 3;
        }
        let number = enc.to_number(&board_from(values));
        assert_eq!(number as u32, n);
        assert!(seen.insert(number));
    }
}
