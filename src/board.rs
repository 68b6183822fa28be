use vstd::prelude::*;
use crate::square::{InvalidToken, Square, SquareValue, value_text, value_to_string};

verus! {

/// Position in the row-major layout of the square at 1-based `(row, col)`.
pub open spec fn index_of(row: int, col: int) -> int {
    (row - 1) * 3 + (col - 1)
}

/// Whether `(row, col)` lies on the board.
pub open spec fn in_bounds(row: int, col: int) -> bool {
    1 <= row <= 3 && 1 <= col <= 3
}

/// The 1-based row of index `i`.
pub open spec fn row_of(i: int) -> int {
    i / 3 + 1
}

/// The 1-based column of index `i`.
pub open spec fn col_of(i: int) -> int {
    i % 3 + 1
}

/// Coordinate translation is a bijection from the nine on-board
/// coordinate pairs onto the indices 0..9.
pub proof fn lemma_translate_bijective()
    ensures
        forall|row: int, col: int|
            #[trigger] in_bounds(row, col) ==> 0 <= index_of(row, col) < 9,
        forall|r1: int, c1: int, r2: int, c2: int|
            in_bounds(r1, c1) && in_bounds(r2, c2) && #[trigger] index_of(r1, c1) == #[trigger] index_of(
                r2,
                c2,
            ) ==> r1 == r2 && c1 == c2,
        forall|i: int|
            0 <= i < 9 ==> in_bounds(#[trigger] row_of(i), col_of(i)) && index_of(
                row_of(i),
                col_of(i),
            ) == i,
{
}

/// Row `row` covers indices `(row-1)*3`, `(row-1)*3+1`, `(row-1)*3+2`;
/// column `col` covers `col-1`, `col-1+3`, `col-1+6`.
pub proof fn lemma_line_indices(row: int, col: int)
    requires
        in_bounds(row, col),
    ensures
        set![index_of(row, 1), index_of(row, 2), index_of(row, 3)] == set![
            (row - 1) * 3,
            (row - 1) * 3 + 1,
            (row - 1) * 3 + 2,
        ],
        set![index_of(1, col), index_of(2, col), index_of(3, col)] == set![
            col - 1,
            col - 1 + 3,
            col - 1 + 6,
        ],
{
    assert(set![index_of(row, 1), index_of(row, 2), index_of(row, 3)] =~= set![
        (row - 1) * 3,
        (row - 1) * 3 + 1,
        (row - 1) * 3 + 2,
    ]);
    assert(set![index_of(1, col), index_of(2, col), index_of(3, col)] =~= set![
        col - 1,
        col - 1 + 3,
        col - 1 + 6,
    ]);
}

/// The main diagonal covers indices 0, 4, 8; the anti-diagonal 2, 4, 6.
pub proof fn lemma_diagonal_indices()
    ensures
        seq![
            index_of(1, diagonal_col(Diagonal::Main, 0)),
            index_of(2, diagonal_col(Diagonal::Main, 1)),
            index_of(3, diagonal_col(Diagonal::Main, 2)),
        ] == seq![0int, 4, 8],
        seq![
            index_of(1, diagonal_col(Diagonal::Anti, 0)),
            index_of(2, diagonal_col(Diagonal::Anti, 1)),
            index_of(3, diagonal_col(Diagonal::Anti, 2)),
        ] == seq![2int, 4, 6],
{
    assert(seq![
        index_of(1, diagonal_col(Diagonal::Main, 0)),
        index_of(2, diagonal_col(Diagonal::Main, 1)),
        index_of(3, diagonal_col(Diagonal::Main, 2)),
    ] =~= seq![0int, 4, 8]);
    assert(seq![
        index_of(1, diagonal_col(Diagonal::Anti, 0)),
        index_of(2, diagonal_col(Diagonal::Anti, 1)),
        index_of(3, diagonal_col(Diagonal::Anti, 2)),
    ] =~= seq![2int, 4, 6]);
}

/// On a fresh board every on-board square is empty.
pub proof fn lemma_fresh_board_empty(row: int, col: int)
    requires
        in_bounds(row, col),
    ensures
        empty_board()[index_of(row, col)] == SquareValue::Empty,
{
}

/// The view of a board on which every square is empty.
pub open spec fn empty_board() -> Seq<SquareValue> {
    Seq::new(9, |i: int| SquareValue::Empty)
}

/// The line drawn between two rows, with the line breaks around it.
pub open spec fn divider_text() -> Seq<char> {
    seq!['\n', '-', '-', '-', '-', '-', '-', '-', '-', '-', '-', '-', '\n']
}

/// Row `r` (0-based) of board view `b`: three cells separated by `|`.
pub open spec fn row_text(b: Seq<SquareValue>, r: int) -> Seq<char> {
    value_text(b[3 * r]) + seq!['|'] + value_text(b[3 * r + 1]) + seq!['|'] + value_text(
        b[3 * r + 2],
    )
}

/// The board drawn as three rows with a divider between each two.
pub open spec fn board_text(b: Seq<SquareValue>) -> Seq<char> {
    row_text(b, 0) + divider_text() + row_text(b, 1) + divider_text() + row_text(b, 2)
}

/// One of the two diagonals of the board.
#[derive(Clone, Copy, Debug, PartialEq, Eq, Structural)]
pub enum Diagonal {
    /// From (1,1) down to (3,3).
    Main,
    /// From (1,3) down to (3,1).
    Anti,
}

/// Coordinates outside 1..=3.
#[derive(Clone, Copy, Debug, PartialEq, Eq, Structural)]
pub struct OutOfRange;

/// Column of the `k`-th square (0-based, top to bottom) of a diagonal.
pub open spec fn diagonal_col(d: Diagonal, k: int) -> int {
    match d {
        Diagonal::Main => k + 1,
        Diagonal::Anti => 3 - k,
    }
}

/// The token `"l"` names the main diagonal, `"r"` the anti-diagonal.
pub open spec fn diagonal_of_token(token: Seq<char>) -> Option<Diagonal> {
    if token.len() == 1 && token[0] == 'l' {
        Some(Diagonal::Main)
    } else if token.len() == 1 && token[0] == 'r' {
        Some(Diagonal::Anti)
    } else {
        None
    }
}

impl Diagonal {
    /// Reads `"l"` (top-left to bottom-right) or `"r"` (top-right to
    /// bottom-left).
    pub fn from_token(token: &str) -> (r: Result<Diagonal, InvalidToken>)
        ensures
            diagonal_of_token(token@) is Some ==> r == Ok::<Diagonal, InvalidToken>(
                diagonal_of_token(token@).unwrap(),
            ),
            diagonal_of_token(token@) is None ==> r is Err,
    {
        if token.unicode_len() != 1 {
            return Err(InvalidToken);
        }
        let c = token.get_char(0);
        if c == 'l' {
            Ok(Diagonal::Main)
        } else if c == 'r' {
            Ok(Diagonal::Anti)
        } else {
            Err(InvalidToken)
        }
    }
}

/// The 3×3 grid, stored row by row.
#[derive(Clone, Copy, Debug, PartialEq, Eq)]
pub struct Board {
    squares: [Square; 9],
}

impl View for Board {
    type V = Seq<SquareValue>;

    /// The values of the nine squares in row-major order.
    closed spec fn view(&self) -> Seq<SquareValue> {
        self.squares@.map_values(|s: Square| s@)
    }
}

impl Board {
    /// A board always has nine squares.
    pub proof fn lemma_len(&self)
        ensures
            self@.len() == 9,
    {
    }

    /// A board with every square empty.
    pub fn new() -> (r: Board)
        ensures
            r@ == empty_board(),
    {
        let empty = Square::new();
        let r = Board { squares: [empty, empty, empty, empty, empty, empty, empty, empty, empty] };
        assert(r@ =~= empty_board());
        r
    }

    /// The square at 1-based `(row, col)`.
    pub fn get_square(&self, row: usize, col: usize) -> (r: &Square)
        requires
            in_bounds(row as int, col as int),
        ensures
            r@ == self@[index_of(row as int, col as int)],
    {
        let index = Self::translate_coordinates(row, col);
        &self.squares[index]
    }

    /// The square at 1-based `(row, col)`, or `OutOfRange` when either
    /// coordinate lies outside 1..=3.
    pub fn try_get_square(&self, row: usize, col: usize) -> (r: Result<&Square, OutOfRange>)
        ensures
            in_bounds(row as int, col as int) ==> r is Ok && r.unwrap()@ == self@[index_of(
                row as int,
                col as int,
            )],
            !in_bounds(row as int, col as int) ==> r is Err,
    {
        if 1 <= row && row <= 3 && 1 <= col && col <= 3 {
            Ok(self.get_square(row, col))
        } else {
            Err(OutOfRange)
        }
    }

    /// Mutable access to the square at 1-based `(row, col)`.
    pub fn get_square_mut(&mut self, row: usize, col: usize) -> (r: &mut Square)
        requires
            in_bounds(row as int, col as int),
        ensures
            r@ == old(self)@[index_of(row as int, col as int)],
            final(self)@ == old(self)@.update(index_of(row as int, col as int), final(r)@),
    {
        let index = Self::translate_coordinates(row, col);
        &mut self.squares[index]
    }

    /// Index of `(row, col)` in the row-major layout.
    pub fn translate_coordinates(row: usize, col: usize) -> (r: usize)
        requires
            in_bounds(row as int, col as int),
        ensures
            r == index_of(row as int, col as int),
            r < 9,
    {
        let row_index = (row - 1) * 3;
        let col_index = col - 1;
        row_index + col_index
    }

    /// The three squares of row `row`, left to right.
    pub fn get_row(&self, row: usize) -> (r: [&Square; 3])
        requires
            1 <= row <= 3,
        ensures
            r[0]@ == self@[index_of(row as int, 1)],
            r[1]@ == self@[index_of(row as int, 2)],
            r[2]@ == self@[index_of(row as int, 3)],
    {
        [self.get_square(row, 1), self.get_square(row, 2), self.get_square(row, 3)]
    }

    /// The three squares of column `col`, top to bottom.
    pub fn get_column(&self, col: usize) -> (r: [&Square; 3])
        requires
            1 <= col <= 3,
        ensures
            r[0]@ == self@[index_of(1, col as int)],
            r[1]@ == self@[index_of(2, col as int)],
            r[2]@ == self@[index_of(3, col as int)],
    {
        [self.get_square(1, col), self.get_square(2, col), self.get_square(3, col)]
    }

    /// The three squares of a diagonal, top to bottom.
    pub fn get_diagonal(&self, diagonal: Diagonal) -> (r: [&Square; 3])
        ensures
            r[0]@ == self@[index_of(1, diagonal_col(diagonal, 0))],
            r[1]@ == self@[index_of(2, diagonal_col(diagonal, 1))],
            r[2]@ == self@[index_of(3, diagonal_col(diagonal, 2))],
    {
        match diagonal {
            Diagonal::Main => [self.get_square(1, 1), self.get_square(2, 2), self.get_square(3, 3)],
            Diagonal::Anti => [self.get_square(1, 3), self.get_square(2, 2), self.get_square(3, 1)],
        }
    }

    /// Appends row `row` (1-based) to `out`.
    fn push_row(&self, out: &mut String, row: usize)
        requires
            1 <= row <= 3,
        ensures
            final(out)@ == old(out)@ + row_text(self@, row as int - 1),
    {
        proof {
            reveal_strlit("|");
        }
        let a = value_to_string(self.get_square(row, 1).get_value());
        let b = value_to_string(self.get_square(row, 2).get_value());
        let c = value_to_string(self.get_square(row, 3).get_value());
        out.append(a.as_str());
        out.append("|");
        out.append(b.as_str());
        out.append("|");
        out.append(c.as_str());
        assert(final(out)@ =~= old(out)@ + row_text(self@, row as int - 1));
    }

    /// The board as text: three rows of `cell|cell|cell`, with a line of
    /// dashes between each two rows.
    pub fn to_string(&self) -> (r: String)
        ensures
            r@ == board_text(self@),
    {
        proof {
            reveal_strlit("\n-----------\n");
        }
        let mut out = String::new();
        self.push_row(&mut out, 1);
        out.append("\n-----------\n");
        self.push_row(&mut out, 2);
        out.append("\n-----------\n");
        self.push_row(&mut out, 3);
        assert(out@ =~= board_text(self@));
        out
    }
}

impl Default for Board {
    fn default() -> (r: Board)
        ensures
            r@ == empty_board(),
    {
        Board::new()
    }
}

} // verus!
