//! Squares of the grid, and the diagonal neighbours of a square.

use vstd::prelude::*;
use vstd::std_specs::cmp::PartialEqSpecImpl;
use vstd::std_specs::convert::FromSpecImpl;

verus! {

/// The number of rows of the grid, which is also its number of columns.
pub const MATRIX_SIZE: usize = 10;

/// A square, as `(row, column)`.
#[derive(Debug, Copy, Clone, PartialOrd)]
pub struct Position(pub (usize, usize));

impl PartialEq for Position {
    fn eq(&self, other: &Self) -> (equal: bool) {
        self.0.0 == other.0.0 && self.0.1 == other.0.1
    }
}

/// Two positions are equal when they name the same row and the same column.
impl PartialEqSpecImpl for Position {
    open spec fn obeys_eq_spec() -> bool {
        true
    }

    open spec fn eq_spec(&self, other: &Self) -> bool {
        self.0.0 == other.0.0 && self.0.1 == other.0.1
    }
}

/// Whether `(row, col)` is a square of the grid with `n` rows and `n` columns.
pub open spec fn on_grid(row: int, col: int, n: int) -> bool {
    0 <= row < n && 0 <= col < n
}

/// The square in row `row` and column `col`.
pub open spec fn square(row: int, col: int) -> Position {
    Position((row as usize, col as usize))
}

/// Whether `exclude` names the square `(row, col)`.
pub open spec fn excludes(exclude: Option<Position>, row: int, col: int) -> bool {
    exclude matches Some(e) && e.0.0 == row && e.0.1 == col
}

/// The square `(row, col)` as a sequence of one candidate, or no candidate if
/// the square is off the grid of size `n` or is the excluded one.
pub open spec fn candidate(row: int, col: int, exclude: Option<Position>, n: int) -> Seq<Position> {
    if on_grid(row, col, n) && !excludes(exclude, row, col) {
        seq![square(row, col)]
    } else {
        Seq::empty()
    }
}

/// The diagonal neighbours of `(row, col)` on the grid of size `n`, without
/// the excluded square: up-left, up-right, down-left, down-right, in this
/// order, with nothing in the place of one that is left out.
pub open spec fn diagonal_candidates(
    row: int,
    col: int,
    exclude: Option<Position>,
    n: int,
) -> Seq<Position> {
    candidate(row - 1, col - 1, exclude, n) + candidate(row - 1, col + 1, exclude, n) + candidate(
        row + 1,
        col - 1,
        exclude,
        n,
    ) + candidate(row + 1, col + 1, exclude, n)
}

/// A conversion that succeeds only for values that lie on the grid.
pub trait TryConvert<T>: Sized {
    /// What the conversion gives.
    spec fn converted(self) -> Option<T>;

    fn try_convert(self) -> (out: Option<T>)
        ensures
            out == self.converted(),
    ;
}

/// A signed coordinate is a coordinate of the grid if it is neither negative
/// nor beyond the last row.
impl TryConvert<usize> for isize {
    open spec fn converted(self) -> Option<usize> {
        if 0 <= self < MATRIX_SIZE {
            Some(self as usize)
        } else {
            None
        }
    }

    fn try_convert(self) -> (out: Option<usize>) {
        if self < 0 || self >= MATRIX_SIZE as isize {
            None
        } else {
            Some(self as usize)
        }
    }
}

/// A pair of signed coordinates is a square if both coordinates are on the
/// grid.
impl TryConvert<Position> for (isize, isize) {
    open spec fn converted(self) -> Option<Position> {
        if on_grid(self.0 as int, self.1 as int, MATRIX_SIZE as int) {
            Some(Position((self.0 as usize, self.1 as usize)))
        } else {
            None
        }
    }

    fn try_convert(self) -> (out: Option<Position>) {
        match self.0.try_convert() {
            Some(row) => match self.1.try_convert() {
                Some(col) => Some(Position((row, col))),
                None => None,
            },
            None => None,
        }
    }
}

impl Position {
    /// The pair `(row, column)`.
    pub fn inner(&self) -> (pair: (usize, usize))
        ensures
            pair == self.0,
    {
        self.0
    }

    /// The squares diagonally next to this one that lie on the grid, without
    /// `previous`, the square that a chain has just left.
    pub fn possible_moves(&self, previous: Option<Position>) -> (moves: Vec<Position>)
        ensures
            moves@ == diagonal_candidates(
                self.0.0 as int,
                self.0.1 as int,
                previous,
                MATRIX_SIZE as int,
            ),
    {
        let (x, y) = self.inner();
        let mut moves: Vec<Position> = Vec::new();
        if x > MATRIX_SIZE || y > MATRIX_SIZE {
            // Too far off the grid for any neighbour to lie on it.
            return moves;
        }
        let (x, y) = (x as isize, y as isize);
        push_unless_previous(&mut moves, (x - 1, y - 1).try_convert(), previous);
        push_unless_previous(&mut moves, (x - 1, y + 1).try_convert(), previous);
        push_unless_previous(&mut moves, (x + 1, y - 1).try_convert(), previous);
        push_unless_previous(&mut moves, (x + 1, y + 1).try_convert(), previous);
        moves
    }
}

/// Appends `found` to `moves` if it is a square and not the previous one.
fn push_unless_previous(
    moves: &mut Vec<Position>,
    found: Option<Position>,
    previous: Option<Position>,
)
    ensures
        final(moves)@ == old(moves)@ + match found {
            Some(pos) => if excludes(previous, pos.0.0 as int, pos.0.1 as int) {
                Seq::<Position>::empty()
            } else {
                seq![pos]
            },
            None => Seq::<Position>::empty(),
        },
{
    if let Some(pos) = found {
        let excluded = match previous {
            Some(prev) => prev == pos,
            None => false,
        };
        if !excluded {
            moves.push(pos);
        }
    }
}

impl From<(usize, usize)> for Position {
    fn from(position: (usize, usize)) -> (p: Position) {
        Position(position)
    }
}

impl FromSpecImpl<(usize, usize)> for Position {
    open spec fn obeys_from_spec() -> bool {
        true
    }

    open spec fn from_spec(position: (usize, usize)) -> Position {
        Position(position)
    }
}

impl From<Position> for (usize, usize) {
    fn from(position: Position) -> (pair: (usize, usize)) {
        position.inner()
    }
}

impl FromSpecImpl<Position> for (usize, usize) {
    open spec fn obeys_from_spec() -> bool {
        true
    }

    open spec fn from_spec(position: Position) -> (usize, usize) {
        position.0
    }
}

impl From<Position> for Option<(usize, usize)> {
    fn from(position: Position) -> (pair: Option<(usize, usize)>) {
        Some(position.inner())
    }
}

impl FromSpecImpl<Position> for Option<(usize, usize)> {
    open spec fn obeys_from_spec() -> bool {
        true
    }

    open spec fn from_spec(position: Position) -> Option<(usize, usize)> {
        Some(position.0)
    }
}

/// Whether `(row, col)` and `(other_row, other_col)` touch at a corner.
pub open spec fn diagonal_neighbours(row: int, col: int, other_row: int, other_col: int) -> bool {
    (other_row == row - 1 || other_row == row + 1) && (other_col == col - 1 || other_col == col
        + 1)
}

/// The candidates of a square are exactly the squares of the grid that touch
/// it at a corner and are not excluded, each of them once.
pub proof fn lemma_candidates_are_neighbours(
    row: int,
    col: int,
    exclude: Option<Position>,
    n: int,
)
    requires
        n <= usize::MAX,
    ensures
        forall|k: int|
            #![trigger diagonal_candidates(row, col, exclude, n)[k]]
            0 <= k < diagonal_candidates(row, col, exclude, n).len() ==> {
                let found = diagonal_candidates(row, col, exclude, n)[k];
                &&& on_grid(found.0.0 as int, found.0.1 as int, n)
                &&& diagonal_neighbours(row, col, found.0.0 as int, found.0.1 as int)
                &&& !excludes(exclude, found.0.0 as int, found.0.1 as int)
            },
        forall|r: int, c: int|
            on_grid(r, c, n) && diagonal_neighbours(row, col, r, c) && !excludes(exclude, r, c)
                ==> diagonal_candidates(row, col, exclude, n).contains(#[trigger] square(r, c)),
        diagonal_candidates(row, col, exclude, n).no_duplicates(),
{
    let first = candidate(row - 1, col - 1, exclude, n);
    let second = candidate(row - 1, col + 1, exclude, n);
    let third = candidate(row + 1, col - 1, exclude, n);
    let fourth = candidate(row + 1, col + 1, exclude, n);
    let found = diagonal_candidates(row, col, exclude, n);
    assert(found == first + second + third + fourth);
    assert forall|r: int, c: int|
        on_grid(r, c, n) && diagonal_neighbours(row, col, r, c) && !excludes(
            exclude,
            r,
            c,
        ) implies found.contains(#[trigger] square(r, c)) by {
        let square = square(r, c);
        if r == row - 1 && c == col - 1 {
            assert(found[0] == square);
        } else if r == row - 1 && c == col + 1 {
            assert(found[first.len() as int] == square);
        } else if r == row + 1 && c == col - 1 {
            assert(found[(first.len() + second.len()) as int] == square);
        } else {
            assert(found[(first.len() + second.len() + third.len()) as int] == square);
        }
    }
}

/// On a grid of two rows or more, a corner has one candidate, any other
/// square of the edge has two and a square inside has four, as long as none
/// is excluded; to exclude a square takes away one candidate at most.
pub proof fn lemma_candidate_count(row: int, col: int, exclude: Option<Position>, n: int)
    requires
        2 <= n,
        on_grid(row, col, n),
    ensures
        diagonal_candidates(row, col, None, n).len() == if (row == 0 || row == n - 1) && (col == 0
            || col == n - 1) {
            1int
        } else if row == 0 || row == n - 1 || col == 0 || col == n - 1 {
            2int
        } else {
            4int
        },
        diagonal_candidates(row, col, None, n).len() - 1 <= diagonal_candidates(
            row,
            col,
            exclude,
            n,
        ).len() <= diagonal_candidates(row, col, None, n).len(),
{
}

} // verus!
