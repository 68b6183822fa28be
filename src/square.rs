use vstd::prelude::*;

verus! {

/// The three states a square can be in.
#[derive(Clone, Copy, Debug, PartialEq, Eq, Structural)]
pub enum SquareValue {
    Empty,
    X,
    O,
}

/// A token that names no square value or symbol.
#[derive(Clone, Copy, Debug, PartialEq, Eq, Structural)]
pub struct InvalidToken;

/// The mark named by the token `"X"` or `"O"`; `None` for any other token.
pub open spec fn mark_of_token(token: Seq<char>) -> Option<SquareValue> {
    if token.len() == 1 && token[0] == 'X' {
        Some(SquareValue::X)
    } else if token.len() == 1 && token[0] == 'O' {
        Some(SquareValue::O)
    } else {
        None
    }
}

/// The text a square value is rendered as: the mark padded by one blank on
/// each side, or three blanks for an empty square.
pub open spec fn value_text(v: SquareValue) -> Seq<char> {
    match v {
        SquareValue::Empty => seq![' ', ' ', ' '],
        SquareValue::X => seq![' ', 'X', ' '],
        SquareValue::O => seq![' ', 'O', ' '],
    }
}

/// Reads `token` as `"X"` or `"O"`.
pub fn parse_mark(token: &str) -> (r: Option<SquareValue>)
    ensures
        r == mark_of_token(token@),
{
    if token.unicode_len() != 1 {
        return None;
    }
    let c = token.get_char(0);
    if c == 'X' {
        Some(SquareValue::X)
    } else if c == 'O' {
        Some(SquareValue::O)
    } else {
        None
    }
}

/// Renders a square value as three characters.
pub fn value_to_string(v: SquareValue) -> (r: String)
    ensures
        r@ == value_text(v),
{
    let s = match v {
        SquareValue::Empty => "   ",
        SquareValue::X => " X ",
        SquareValue::O => " O ",
    };
    proof {
        reveal_strlit("   ");
        reveal_strlit(" X ");
        reveal_strlit(" O ");
    }
    let r = String::from_str(s);
    assert(r@ =~= value_text(v));
    r
}

/// One cell of the board.
#[derive(Clone, Copy, Debug, PartialEq, Eq, Structural)]
pub struct Square {
    value: SquareValue,
}

impl View for Square {
    type V = SquareValue;

    closed spec fn view(&self) -> SquareValue {
        self.value
    }
}

impl Square {
    /// An empty square.
    pub fn new() -> (r: Square)
        ensures
            r@ == SquareValue::Empty,
    {
        Square { value: SquareValue::Empty }
    }

    pub fn is_empty(&self) -> (r: bool)
        ensures
            r == (self@ == SquareValue::Empty),
    {
        self.value == SquareValue::Empty
    }

    pub fn is_x(&self) -> (r: bool)
        ensures
            r == (self@ == SquareValue::X),
    {
        self.value == SquareValue::X
    }

    pub fn is_o(&self) -> (r: bool)
        ensures
            r == (self@ == SquareValue::O),
    {
        self.value == SquareValue::O
    }

    pub fn get_value(&self) -> (r: SquareValue)
        ensures
            r == self@,
    {
        self.value
    }

    /// Sets the square from the token `"X"` or `"O"`. Any other token is
    /// refused and leaves the square as it was.
    pub fn set_value(&mut self, token: &str) -> (r: Result<(), InvalidToken>)
        ensures
            mark_of_token(token@) is Some ==> r is Ok && final(self)@ == mark_of_token(
                token@,
            ).unwrap(),
            mark_of_token(token@) is None ==> r is Err && final(self)@ == old(self)@,
    {
        match parse_mark(token) {
            Some(v) => {
                self.value = v;
                Ok(())
            },
            None => Err(InvalidToken),
        }
    }

    pub fn set_x(&mut self)
        ensures
            final(self)@ == SquareValue::X,
    {
        self.value = SquareValue::X;
    }

    pub fn set_o(&mut self)
        ensures
            final(self)@ == SquareValue::O,
    {
        self.value = SquareValue::O;
    }

    pub fn set_empty(&mut self)
        ensures
            final(self)@ == SquareValue::Empty,
    {
        self.value = SquareValue::Empty;
    }

    /// The square as text: `" X "`, `" O "`, or three blanks.
    pub fn to_string(&self) -> (r: String)
        ensures
            r@ == value_text(self@),
    {
        value_to_string(self.value)
    }
}

impl Default for Square {
    fn default() -> (r: Square)
        ensures
            r@ == SquareValue::Empty,
    {
        Square::new()
    }
}

} // verus!
