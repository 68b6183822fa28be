use tictacrustle::{InvalidToken, Square, SquareValue};

#[test]
fn test_is_empty() {
    let square = Square::new();
    assert!(square.is_empty());
}

#[test]
fn test_is_x() {
    let mut square = Square::new();
    square.set_x();
    assert!(square.is_x());
}

#[test]
fn test_is_o() {
    let mut square = Square::new();
    square.set_o();
    assert!(square.is_o());
}

#[test]
fn test_get_value() {
    let mut square = Square::new();
    square.set_x();
    assert_eq!(square.get_value(), SquareValue::X);
}

#[test]
fn test_set_value() {
    let mut square = Square::new();
    square.set_value("X").unwrap();
    assert_eq!(square.get_value(), SquareValue::X);
}

#[test]
fn test_set_x() {
    let mut square = Square::new();
    square.set_x();
    assert_eq!(square.get_value(), SquareValue::X);
}

#[test]
fn test_set_o() {
    let mut square = Square::new();
    square.set_o();
    assert_eq!(square.get_value(), SquareValue::O);
}

#[test]
fn test_set_empty() {
    let mut square = Square::new();
    square.set_x();
    square.set_empty();
    assert_eq!(square.get_value(), SquareValue::Empty);
}

#[test]
fn test_display() {
    let mut square = Square::new();
    square.set_x();
    assert_eq!(square.to_string(), " X ");
}

#[test]
fn test_default() {
    let square = Square::default();
    assert_eq!(square.get_value(), SquareValue::Empty);
}

#[test]
fn set_value_reads_o() {
    let mut square = Square::new();
    assert_eq!(square.set_value("O"), Ok(()));
    assert_eq!(square.get_value(), SquareValue::O);
}

#[test]
fn set_value_refuses_unknown_token_and_keeps_value() {
    let mut square = Square::new();
    square.set_o();
    assert_eq!(square.set_value("Z"), Err(InvalidToken));
    assert_eq!(square.set_value(""), Err(InvalidToken));
    assert_eq!(square.set_value("XO"), Err(InvalidToken));
    assert_eq!(square.set_value("x"), Err(InvalidToken));
    assert_eq!(square.get_value(), SquareValue::O);
}

#[test]
fn predicates_are_exclusive() {
    let mut square = Square::new();
    assert_eq!((square.is_empty(), square.is_x(), square.is_o()), (true, false, false));
    square.set_x();
    assert_eq!((square.is_empty(), square.is_x(), square.is_o()), (false, true, false));
    square.set_o();
    assert_eq!((square.is_empty(), square.is_x(), square.is_o()), (false, false, true));
}

#[test]
fn display_of_o_and_empty() {
    let mut square = Square::new();
    assert_eq!(square.to_string(), "   ");
    square.set_o();
    assert_eq!(square.to_string(), " O ");
}

#[test]
fn squares_compare_by_value() {
    let mut x = Square::new();
    x.set_x();
    let mut o = Square::new();
    o.set_o();
    assert_eq!(Square::new(), Square::new());
    assert_eq!(x, x);
    assert_ne!(Square::new(), x);
    assert_ne!(x, o);
}
