use vstd::prelude::*;
use crate::board::{Board, col_of, index_of, lemma_translate_bijective, row_of};
use crate::square::SquareValue;

verus! {

/// The digit a square value is written as.
pub open spec fn digit_char(v: SquareValue) -> char {
    match v {
        SquareValue::Empty => '0',
        SquareValue::X => '1',
        SquareValue::O => '2',
    }
}

/// The numeric weight of a square value as a base-3 digit.
pub open spec fn digit_value(v: SquareValue) -> nat {
    match v {
        SquareValue::Empty => 0,
        SquareValue::X => 1,
        SquareValue::O => 2,
    }
}

/// The square value a digit character stands for, if any.
pub open spec fn value_of_digit(c: char) -> Option<SquareValue> {
    if c == '0' {
        Some(SquareValue::Empty)
    } else if c == '1' {
        Some(SquareValue::X)
    } else if c == '2' {
        Some(SquareValue::O)
    } else {
        None
    }
}

/// The encoded text of a board view: one digit per square, row-major.
pub open spec fn encoding_of(b: Seq<SquareValue>) -> Seq<char> {
    b.map_values(|v: SquareValue| digit_char(v))
}

/// Whether `s` is the text of a board: nine characters, each `0`, `1` or `2`.
pub open spec fn is_encoding(s: Seq<char>) -> bool {
    s.len() == 9 && forall|i: int| 0 <= i < 9 ==> (#[trigger] value_of_digit(s[i])) is Some
}

/// The board view written by an encoded text.
pub open spec fn board_of(s: Seq<char>) -> Seq<SquareValue> {
    s.map_values(|c: char| value_of_digit(c).unwrap())
}

/// The squares read as base-3 digits, the first square most significant.
pub open spec fn number_of(b: Seq<SquareValue>) -> nat
    decreases b.len(),
{
    if b.len() == 0 {
        0
    } else {
        number_of(b.drop_last()) * 3 + digit_value(b.last())
    }
}

/// `3` to the power `n`.
pub open spec fn pow3(n: nat) -> nat
    decreases n,
{
    if n == 0 {
        1
    } else {
        3 * pow3((n - 1) as nat)
    }
}

/// Why a text could not be decoded.
#[derive(Clone, Copy, Debug, PartialEq, Eq, Structural)]
pub enum DecodeError {
    /// The text does not hold exactly nine characters.
    InvalidLength,
    /// A character is not `0`, `1` or `2`.
    InvalidCharacter,
}

/// A base-3 number of `b.len()` digits is below `3^len`.
proof fn lemma_number_bound(b: Seq<SquareValue>)
    ensures
        number_of(b) < pow3(b.len()),
    decreases b.len(),
{
    if b.len() > 0 {
        lemma_number_bound(b.drop_last());
        let n = number_of(b.drop_last());
        let p = pow3((b.len() - 1) as nat);
        let d = digit_value(b.last());
        assert(n * 3 + d < 3 * p) by (nonlinear_arith)
            requires
                n < p,
                d < 3,
        ;
    }
}

/// Equal numbers of equal length come from equal views.
proof fn lemma_number_injective_seq(a: Seq<SquareValue>, b: Seq<SquareValue>)
    requires
        a.len() == b.len(),
        number_of(a) == number_of(b),
    ensures
        a == b,
    decreases a.len(),
{
    if a.len() > 0 {
        let na = number_of(a.drop_last());
        let nb = number_of(b.drop_last());
        let da = digit_value(a.last());
        let db = digit_value(b.last());
        assert(na == nb && da == db) by (nonlinear_arith)
            requires
                na * 3 + da == nb * 3 + db,
                da < 3,
                db < 3,
        ;
        lemma_number_injective_seq(a.drop_last(), b.drop_last());
        assert(a =~= a.drop_last().push(a.last()));
        assert(b =~= b.drop_last().push(b.last()));
    } else {
        assert(a =~= b);
    }
}

/// `to_number` separates boards: two boards that differ in some square
/// have different numbers.
pub proof fn lemma_to_number_injective(a: Board, b: Board)
    requires
        exists|i: int| 0 <= i < 9 && a@[i] != b@[i],
    ensures
        number_of(a@) != number_of(b@),
{
    a.lemma_len();
    b.lemma_len();
    if number_of(a@) == number_of(b@) {
        lemma_number_injective_seq(a@, b@);
    }
}

/// Every board's number lies in `0..=19682`.
pub proof fn lemma_to_number_range(b: Board)
    ensures
        number_of(b@) <= 19682,
{
    b.lemma_len();
    lemma_number_bound(b@);
    reveal_with_fuel(pow3, 10);
}

/// Decoding the encoding of a board gives back that board.
pub proof fn lemma_decode_encode(b: Board)
    ensures
        is_encoding(encoding_of(b@)),
        board_of(encoding_of(b@)) == b@,
{
    b.lemma_len();
    assert(board_of(encoding_of(b@)) =~= b@);
}

/// Converts boards to and from their digit text and their number.
#[derive(Clone, Copy, Debug, PartialEq, Eq, Structural)]
pub struct Encoding;

/// The digit text of one square value.
fn digit_str(v: SquareValue) -> (r: &'static str)
    ensures
        r@ == seq![digit_char(v)],
{
    proof {
        reveal_strlit("0");
        reveal_strlit("1");
        reveal_strlit("2");
    }
    match v {
        SquareValue::Empty => "0",
        SquareValue::X => "1",
        SquareValue::O => "2",
    }
}

impl Encoding {
    pub fn new() -> (r: Encoding) {
        Encoding
    }

    /// The board as nine digits, row-major: `0` empty, `1` X, `2` O.
    pub fn encode(&self, board: &Board) -> (r: String)
        ensures
            r@ == encoding_of(board@),
    {
        proof {
            board.lemma_len();
            lemma_translate_bijective();
        }
        let mut encoded = String::new();
        let mut i: usize = 0;
        while i < 9
            invariant
                i <= 9,
                board@.len() == 9,
                encoded@ =~= encoding_of(board@.subrange(0, i as int)),
            decreases 9 - i,
        {
            proof {
                // the coordinates of index i lie on the board and translate back to i
                let _ = row_of(i as int);
            }
            let v = board.get_square(i / 3 + 1, i % 3 + 1).get_value();
            encoded.append(digit_str(v));
            assert(board@.subrange(0, i + 1) =~= board@.subrange(0, i as int).push(v));
            i = i + 1;
        }
        assert(board@.subrange(0, 9) =~= board@);
        encoded
    }

    /// Reads a board back from its nine-digit text.
    pub fn decode(&self, encoded: &str) -> (r: Result<Board, DecodeError>)
        ensures
            encoded@.len() != 9 ==> r == Err::<Board, DecodeError>(DecodeError::InvalidLength),
            encoded@.len() == 9 && !is_encoding(encoded@) ==> r == Err::<Board, DecodeError>(
                DecodeError::InvalidCharacter,
            ),
            is_encoding(encoded@) ==> r is Ok && r.unwrap()@ == board_of(encoded@),
    {
        if encoded.unicode_len() != 9 {
            return Err(DecodeError::InvalidLength);
        }
        proof {
            lemma_translate_bijective();
        }
        let mut board = Board::new();
        let mut i: usize = 0;
        while i < 9
            invariant
                i <= 9,
                encoded@.len() == 9,
                board@.len() == 9,
                forall|j: int|
                    0 <= j < i ==> (#[trigger] value_of_digit(encoded@[j])) is Some
                        && board@[j] == value_of_digit(encoded@[j]).unwrap(),
            decreases 9 - i,
        {
            proof {
                // the coordinates of index i lie on the board and translate back to i
                let _ = row_of(i as int);
            }
            let c = encoded.get_char(i);
            let square = board.get_square_mut(i / 3 + 1, i % 3 + 1);
            if c == '0' {
                square.set_empty();
            } else if c == '1' {
                square.set_x();
            } else if c == '2' {
                square.set_o();
            } else {
                assert(value_of_digit(encoded@[i as int]) is None);
                return Err(DecodeError::InvalidCharacter);
            }
            i = i + 1;
        }
        assert(board@ =~= board_of(encoded@));
        Ok(board)
    }

    /// The board's squares read as a base-3 number, square (1,1) the most
    /// significant digit.
    pub fn to_number(&self, board: &Board) -> (r: u16)
        ensures
            r as nat == number_of(board@),
    {
        proof {
            board.lemma_len();
            lemma_translate_bijective();
            reveal_with_fuel(pow3, 10);
        }
        let mut number: u16 = 0;
        let mut i: usize = 0;
        while i < 9
            invariant
                i <= 9,
                board@.len() == 9,
                number as nat == number_of(board@.subrange(0, i as int)),
                pow3(9) == 19683,
            decreases 9 - i,
        {
            proof {
                // the coordinates of index i lie on the board and translate back to i
                let _ = row_of(i as int);
                let prefix = board@.subrange(0, i + 1);
                assert(prefix.drop_last() =~= board@.subrange(0, i as int));
                lemma_number_bound(board@.subrange(0, i as int));
                lemma_pow3_monotone(i as nat, 8);
            }
            let v = board.get_square(i / 3 + 1, i % 3 + 1).get_value();
            let d: u16 = match v {
                SquareValue::Empty => 0,
                SquareValue::X => 1,
                SquareValue::O => 2,
            };
            number = number * 3 + d;
            i = i + 1;
        }
        assert(board@.subrange(0, 9) =~= board@);
        number
    }
}

/// Powers of three grow with the exponent.
proof fn lemma_pow3_monotone(a: nat, b: nat)
    requires
        a <= b,
    ensures
        pow3(a) <= pow3(b),
    decreases b,
{
    if a < b {
        lemma_pow3_monotone(a, (b - 1) as nat);
    }
}

} // verus!
