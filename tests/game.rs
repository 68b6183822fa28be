use tictacrustle::{Game, SquareValue};

#[test]
fn game_initializes_correctly() {
    let game = Game::new();

    // Check that board is empty
    for row in 1..=3 {
        for col in 1..=3 {
            assert_eq!(game.board().get_square(row, col).get_value(), SquareValue::Empty);
        }
    }

    // Check that there is no winner
    assert_eq!(game.winner(), None);
}

#[test]
fn default_game_is_equivalent_to_new() {
    let game1 = Game::new();
    let game2 = Game::default();

    assert_eq!(game1.board(), game2.board());
    assert_eq!(game1.winner(), game2.winner());
}

#[test]
fn play_sets_center_square() {
    let mut game = Game::new();

    game.play().unwrap();

    let center = game.board().get_square(2, 2).get_value();
    assert_eq!(center, SquareValue::X);
}

#[test]
fn winner_starts_none() {
    let game = Game::new();
    assert!(game.winner().is_none());
}

#[test]
fn play_returns_ok() {
    let mut game = Game::new();
    let result = game.play();
    assert!(result.is_ok());
}

#[test]
fn play_touches_only_the_centre_and_keeps_no_winner() {
    let mut game = Game::new();
    game.play().unwrap();
    assert!(game.play().is_ok());
    for row in 1..=3 {
        for col in 1..=3 {
            let expected = if (row, col) == (2, 2) { SquareValue::X } else { SquareValue::Empty };
            assert_eq!(game.board().get_square(row, col).get_value(), expected);
        }
    }
    assert_eq!(game.winner(), None);
}
