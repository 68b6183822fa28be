use vstd::prelude::*;
use crate::square::{InvalidToken, SquareValue, mark_of_token, parse_mark};

verus! {

/// The mark a player puts on the board.
#[derive(Clone, Copy, Debug, PartialEq, Eq, Structural)]
pub enum Symbol {
    /// The first player's mark.
    X,
    /// The second player's mark.
    O,
}

/// A participant, known by the symbol it plays.
#[derive(Clone, Copy, Debug, PartialEq, Eq, Structural)]
pub struct Player {
    pub symbol: Symbol,
}

/// The symbol named by `"X"` or `"O"`.
pub open spec fn symbol_of_token(token: Seq<char>) -> Option<Symbol> {
    match mark_of_token(token) {
        Some(SquareValue::X) => Some(Symbol::X),
        Some(SquareValue::O) => Some(Symbol::O),
        _ => None,
    }
}

/// The text of a symbol: its bare letter.
pub open spec fn symbol_text(s: Symbol) -> Seq<char> {
    match s {
        Symbol::X => seq!['X'],
        Symbol::O => seq!['O'],
    }
}

impl Symbol {
    /// The symbol as text: `"X"` or `"O"`.
    pub fn to_string(&self) -> (r: String)
        ensures
            r@ == symbol_text(*self),
    {
        proof {
            reveal_strlit("X");
            reveal_strlit("O");
        }
        match self {
            Symbol::X => String::from_str("X"),
            Symbol::O => String::from_str("O"),
        }
    }
}

impl Player {
    /// The player for the token `"X"` or `"O"`; any other token is refused.
    pub fn new(symbol: &str) -> (r: Result<Player, InvalidToken>)
        ensures
            symbol_of_token(symbol@) is Some ==> r == Ok::<Player, InvalidToken>(
                Player { symbol: symbol_of_token(symbol@).unwrap() },
            ),
            symbol_of_token(symbol@) is None ==> r is Err,
    {
        match parse_mark(symbol) {
            Some(SquareValue::X) => Ok(Player { symbol: Symbol::X }),
            Some(SquareValue::O) => Ok(Player { symbol: Symbol::O }),
            _ => Err(InvalidToken),
        }
    }

    /// The player as text: `"Player X"` or `"Player O"`.
    pub fn to_string(&self) -> (r: String)
        ensures
            r@ == seq!['P', 'l', 'a', 'y', 'e', 'r', ' '] + symbol_text(self.symbol),
    {
        proof {
            reveal_strlit("Player ");
        }
        let mut r = String::from_str("Player ");
        let s = self.symbol.to_string();
        r.append(s.as_str());
        assert(r@ =~= seq!['P', 'l', 'a', 'y', 'e', 'r', ' '] + symbol_text(self.symbol));
        r
    }
}

} // verus!
