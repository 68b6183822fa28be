use vstd::prelude::*;
use crate::board::{Board, empty_board, index_of};
use crate::player::{Player, Symbol};
use crate::square::SquareValue;

verus! {

/// Why a move was refused.
#[derive(Clone, Copy, Debug, PartialEq, Eq, Structural)]
pub enum GameError {
    /// The square already holds a mark.
    SquareOccupied,
    /// The game has already ended.
    GameOver,
}

/// Two players, the board they play on, and the winner once there is one.
pub struct Game {
    player_x: Player,
    player_o: Player,
    board: Board,
    winner: Option<Player>,
}

impl Game {
    /// The squares of the game's board.
    pub closed spec fn board_view(&self) -> Seq<SquareValue> {
        self.board@
    }

    /// The winner recorded so far.
    pub closed spec fn winner_view(&self) -> Option<Player> {
        self.winner
    }

    /// The first player plays X and the second O.
    pub closed spec fn wf(&self) -> bool {
        self.player_x.symbol == Symbol::X && self.player_o.symbol == Symbol::O
    }

    /// A game between X and O on an empty board, with no winner.
    pub fn new() -> (r: Game)
        ensures
            r.wf(),
            r.board_view() == empty_board(),
            r.winner_view() is None,
    {
        let current_player = Player { symbol: Symbol::X };
        let other_player = Player { symbol: Symbol::O };
        Game { player_x: current_player, player_o: other_player, board: Board::new(), winner: None }
    }

    /// Marks the centre square (2,2) with X, whatever the board holds, and
    /// succeeds. Turn order, occupied squares and the end of the game are not
    /// checked.
    pub fn play(&mut self) -> (r: Result<(), GameError>)
        ensures
            r is Ok,
            final(self).board_view() == old(self).board_view().update(
                index_of(2, 2),
                SquareValue::X,
            ),
            final(self).winner_view() == old(self).winner_view(),
            old(self).wf() ==> final(self).wf(),
    {
        self.board.get_square_mut(2, 2).set_x();
        Ok(())
    }

    /// The winner, if one has been determined.
    pub fn winner(&self) -> (r: Option<Player>)
        ensures
            r == self.winner_view(),
    {
        self.winner
    }

    /// The game's board.
    pub fn board(&self) -> (r: &Board)
        ensures
            r@ == self.board_view(),
    {
        &self.board
    }
}

impl Default for Game {
    fn default() -> (r: Game)
        ensures
            r.wf(),
            r.board_view() == empty_board(),
            r.winner_view() is None,
    {
        Game::new()
    }
}

} // verus!
