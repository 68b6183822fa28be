//! A tic-tac-toe domain model: squares, a 3×3 board, players, a compact
//! base-3 encoding of boards, and a game container.

pub mod board;
pub mod encoding;
pub mod game;
pub mod player;
pub mod square;

pub use board::{Board, Diagonal, OutOfRange};
pub use encoding::{DecodeError, Encoding};
pub use game::{Game, GameError};
pub use player::{Player, Symbol};
pub use square::{InvalidToken, Square, SquareValue};
