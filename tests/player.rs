use tictacrustle::{InvalidToken, Player, Symbol};

#[test]
fn player_from_token() {
    assert_eq!(Player::new("X"), Ok(Player { symbol: Symbol::X }));
    assert_eq!(Player::new("O"), Ok(Player { symbol: Symbol::O }));
}

#[test]
fn player_refuses_unknown_token() {
    assert_eq!(Player::new("Q"), Err(InvalidToken));
    assert_eq!(Player::new(""), Err(InvalidToken));
    assert_eq!(Player::new("o"), Err(InvalidToken));
    assert_eq!(Player::new("XX"), Err(InvalidToken));
}

#[test]
fn player_and_symbol_text() {
    assert_eq!(Player::new("X").unwrap().to_string(), "Player X");
    assert_eq!(Player::new("O").unwrap().to_string(), "Player O");
    assert_eq!(Symbol::X.to_string(), "X");
    assert_eq!(Symbol::O.to_string(), "O");
}
