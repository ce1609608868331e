//! The board: a grid of squares, each holding a piece or nothing.

use std::ops::Index;
use vstd::prelude::*;
use vstd::std_specs::iter::IteratorSpec;
use vstd::string::StringExecFns;
use crate::cell::Cell;
use crate::grid::{
    column_major, components, matrix_from_fn, matrix_index, matrix_index_mut, matrix_index_pair,
    matrix_index_pair_mut, matrix_iter, Squares,
};
use crate::piece::{tag_of, Piece};
use crate::position::{Position, MATRIX_SIZE};

verus! {

/// A board of `MATRIX_SIZE` rows and as many columns.
///
/// Its view is the sequence of its squares, row by row: the square in row
/// `r` and column `c` is the element `linear_index(r, c, MATRIX_SIZE)`.
#[derive(Clone, Copy)]
pub struct Board {
    /// The square in row `r` and column `c` of the board is the component in
    /// row `c` and column `r` of the matrix, which therefore stores and walks
    /// through the squares row by row.
    cells: Squares,
}

/// The place of the square in row `row` and column `col` among the squares
/// of a board with `n` columns, counted row by row.
pub open spec fn linear_index(row: int, col: int, n: int) -> int {
    row * n + col
}

/// What the square in row `row` and column `col` holds when a game starts on
/// a board of `n` rows: on the squares whose row and column add up to an odd
/// number, the first four rows hold black pawns and the last four rows hold
/// white pawns; every other square is empty.
pub open spec fn starting_piece(row: int, col: int, n: int) -> Piece {
    if (row + col) % 2 == 1 && 0 <= row <= 3 {
        Piece::BlackPawn
    } else if (row + col) % 2 == 1 && n - 4 <= row <= n - 1 {
        Piece::WhitePawn
    } else {
        Piece::Empty
    }
}

/// The squares of a board of `n` rows and `n` columns when a game starts,
/// row by row.
pub open spec fn starting_layout(n: int) -> Seq<Piece> {
    Seq::new((n * n) as nat, |i: int| starting_piece(i / n, i % n, n))
}

/// The tags of `squares`, one after the other.
pub open spec fn row_text(squares: Seq<Piece>) -> Seq<char>
    decreases squares.len(),
{
    if squares.len() == 0 {
        Seq::empty()
    } else {
        row_text(squares.drop_last()) + tag_of(squares.last())
    }
}

/// The first `rows` rows of a board with the squares `squares` and `n`
/// columns as text: each row as the tags of its squares, and a line break
/// between one row and the next.
pub open spec fn board_text(squares: Seq<Piece>, n: int, rows: int) -> Seq<char>
    decreases rows,
{
    if rows <= 0 {
        Seq::empty()
    } else if rows == 1 {
        row_text(squares.subrange(0, n))
    } else {
        board_text(squares, n, rows - 1) + seq!['\n'] + row_text(
            squares.subrange((rows - 1) * n, rows * n),
        )
    }
}

/// What is left of `cells` when the cell at each place `i` stays if and only
/// if `keep[i]` holds: the cells that stay, in the order they had.
pub open spec fn retained<C>(cells: Seq<C>, keep: Seq<bool>) -> Seq<C>
    decreases cells.len(),
{
    if cells.len() == 0 {
        Seq::empty()
    } else if keep.last() {
        retained(cells.drop_last(), keep.drop_last()).push(cells.last())
    } else {
        retained(cells.drop_last(), keep.drop_last())
    }
}

/// Whether `keep` holds, for each of `cells`, an answer that `f` can give
/// for that cell.
pub open spec fn answers<C, F: Fn(&C) -> bool>(f: F, cells: Seq<C>, keep: Seq<bool>) -> bool {
    &&& keep.len() == cells.len()
    &&& forall|i: int| 0 <= i < cells.len() ==> call_ensures(f, (&#[trigger] cells[i],), keep[i])
}

/// Whether `f` can give no answer for any of `cells` but the one that
/// `pred` gives.
pub open spec fn computes<C, F: Fn(&C) -> bool>(
    f: F,
    cells: Seq<C>,
    pred: spec_fn(C) -> bool,
) -> bool {
    forall|i: int, answer: bool|
        0 <= i < cells.len() && call_ensures(f, (&#[trigger] cells[i],), answer) ==> answer
            == pred(cells[i])
}

/// What the square in row `row` and column `col` holds when a game starts.
fn starting_square(row: usize, col: usize) -> (piece: Piece)
    ensures
        piece == starting_piece(row as int, col as int, MATRIX_SIZE as int),
{
    let odd = row % 2 != col % 2;
    if odd && row <= 3 {
        Piece::BlackPawn
    } else if odd && MATRIX_SIZE - 4 <= row && row <= MATRIX_SIZE - 1 {
        Piece::WhitePawn
    } else {
        Piece::Empty
    }
}

impl View for Board {
    type V = Seq<Piece>;

    closed spec fn view(&self) -> Seq<Piece> {
        components(self.cells)
    }
}

impl Board {
    /// The matrix has a component for every square.
    #[verifier::type_invariant]
    spec fn holds_every_square(self) -> bool {
        components(self.cells).len() == MATRIX_SIZE * MATRIX_SIZE
    }

    /// The board whose square in row `r` and column `c` holds what `f`
    /// returns for `(r, c)`.
    pub fn from_fn<F>(f: F) -> (board: Board) where F: Fn(usize, usize) -> Piece
        requires
            forall|r: usize, c: usize|
                r < MATRIX_SIZE && c < MATRIX_SIZE ==> call_requires(f, (r, c)),
        ensures
            board@.len() == MATRIX_SIZE * MATRIX_SIZE,
            forall|r: int, c: int|
                0 <= r < MATRIX_SIZE && 0 <= c < MATRIX_SIZE ==> call_ensures(
                    f,
                    (r as usize, c as usize),
                    board@[#[trigger] linear_index(r, c, MATRIX_SIZE as int)],
                ),
    {
        let by_row = &f;
        let by_column = |i: usize, j: usize| -> (piece: Piece)
            requires
                call_requires(by_row, (j, i)),
            ensures
                call_ensures(by_row, (j, i), piece),
            { by_row(j, i) };
        let cells = matrix_from_fn(by_column);
        assert forall|r: int, c: int|
            0 <= r < MATRIX_SIZE && 0 <= c < MATRIX_SIZE implies call_ensures(
            f,
            (r as usize, c as usize),
            components(cells)[#[trigger] linear_index(r, c, MATRIX_SIZE as int)],
        ) by {
            assert(column_major(c, r) == linear_index(r, c, MATRIX_SIZE as int));
        }
        Board { cells }
    }

    /// The board on which a game starts.
    pub fn new() -> (board: Board)
        ensures
            board@ == starting_layout(MATRIX_SIZE as int),
    {
        let board = Board::from_fn(starting_square);
        assert forall|i: int| 0 <= i < MATRIX_SIZE * MATRIX_SIZE implies board@[i]
            == starting_piece(
            i / (MATRIX_SIZE as int),
            i % (MATRIX_SIZE as int),
            MATRIX_SIZE as int,
        ) by {
            let r = i / (MATRIX_SIZE as int);
            let c = i % (MATRIX_SIZE as int);
            assert(linear_index(r, c, MATRIX_SIZE as int) == i);
        }
        assert(board@ =~= starting_layout(MATRIX_SIZE as int));
        board
    }

    /// The row and column of the square with the number `index`, counted row
    /// by row.
    pub fn position_from_index(index: usize) -> (position: Position)
        ensures
            position.0.0 == index / MATRIX_SIZE,
            position.0.1 == index % MATRIX_SIZE,
    {
        Position((index / MATRIX_SIZE, index % MATRIX_SIZE))
    }

    /// The pieces on the squares of the board, row by row.
    pub fn iter(&self) -> (pieces: std::vec::IntoIter<Piece>)
        ensures
            pieces.remaining() == self@,
            self@.len() == MATRIX_SIZE * MATRIX_SIZE,
    {
        proof {
            use_type_invariant(self);
        }
        matrix_iter(&self.cells).into_iter()
    }

    /// Every square of the board with its number, row by row.
    pub fn cells(&self) -> (cells: Vec<(usize, Piece)>)
        ensures
            cells@.len() == self@.len() == MATRIX_SIZE * MATRIX_SIZE,
            forall|i: int| 0 <= i < cells@.len() ==> cells@[i] == (i as usize, self@[i]),
    {
        proof {
            use_type_invariant(self);
        }
        let pieces = matrix_iter(&self.cells);
        let mut cells: Vec<(usize, Piece)> = Vec::new();
        let mut i: usize = 0;
        while i < pieces.len()
            invariant
                i <= pieces.len(),
                cells@.len() == i,
                forall|k: int| 0 <= k < i ==> cells@[k] == (k as usize, pieces@[k]),
            decreases pieces.len() - i,
        {
            cells.push((i, pieces[i]));
            i += 1;
        }
        cells
    }

    /// The square with the number `idx`, counted row by row, to write to.
    pub fn index_mut(&mut self, idx: usize) -> (piece: &mut Piece)
        requires
            idx < MATRIX_SIZE * MATRIX_SIZE,
        ensures
            old(self)@.len() == MATRIX_SIZE * MATRIX_SIZE,
            *piece == old(self)@[idx as int],
            final(self)@ == old(self)@.update(idx as int, *final(piece)),
    {
        proof {
            use_type_invariant(&*self);
        }
        matrix_index_mut(&mut self.cells, idx)
    }

    /// The square in row `pos.0` and column `pos.1`, to write to.
    pub fn index_pair_mut(&mut self, pos: (usize, usize)) -> (piece: &mut Piece)
        requires
            pos.0 < MATRIX_SIZE,
            pos.1 < MATRIX_SIZE,
        ensures
            old(self)@.len() == MATRIX_SIZE * MATRIX_SIZE,
            *piece == old(self)@[linear_index(pos.0 as int, pos.1 as int, MATRIX_SIZE as int)],
            final(self)@ == old(self)@.update(
                linear_index(pos.0 as int, pos.1 as int, MATRIX_SIZE as int),
                *final(piece),
            ),
    {
        proof {
            use_type_invariant(&*self);
        }
        matrix_index_pair_mut(&mut self.cells, (pos.1, pos.0))
    }

    /// The square `pos`, to write to.
    pub fn index_position_mut(&mut self, pos: Position) -> (piece: &mut Piece)
        requires
            pos.0.0 < MATRIX_SIZE,
            pos.0.1 < MATRIX_SIZE,
        ensures
            old(self)@.len() == MATRIX_SIZE * MATRIX_SIZE,
            *piece == old(self)@[linear_index(pos.0.0 as int, pos.0.1 as int, MATRIX_SIZE as int)],
            final(self)@ == old(self)@.update(
                linear_index(pos.0.0 as int, pos.0.1 as int, MATRIX_SIZE as int),
                *final(piece),
            ),
    {
        let pos: (usize, usize) = pos.into();
        self.index_pair_mut(pos)
    }

    /// The board as text: the tags of the squares of each row one after the
    /// other, and a line break between one row and the next.
    pub fn to_string(&self) -> (text: String)
        ensures
            text@ == board_text(self@, MATRIX_SIZE as int, MATRIX_SIZE as int),
    {
        proof {
            use_type_invariant(self);
        }
        let pieces = matrix_iter(&self.cells);
        let ghost n = MATRIX_SIZE as int;
        let mut text = String::new();
        let mut row: usize = 0;
        while row < MATRIX_SIZE
            invariant
                row <= MATRIX_SIZE,
                n == MATRIX_SIZE,
                pieces@ == self@,
                pieces@.len() == MATRIX_SIZE * MATRIX_SIZE,
                text@ == board_text(self@, n, row as int),
            decreases MATRIX_SIZE - row,
        {
            if row > 0 {
                proof {
                    reveal_strlit("\n");
                }
                text.append("\n");
                assert("\n"@ =~= seq!['\n']);
            }
            let ghost above = text@;
            let start = row * MATRIX_SIZE;
            let mut col: usize = 0;
            while col < MATRIX_SIZE
                invariant
                    col <= MATRIX_SIZE,
                    n == MATRIX_SIZE,
                    row < MATRIX_SIZE,
                    start == row * MATRIX_SIZE,
                    pieces@ == self@,
                    pieces@.len() == MATRIX_SIZE * MATRIX_SIZE,
                    text@ == above + row_text(self@.subrange(start as int, start + col)),
                decreases MATRIX_SIZE - col,
            {
                let piece = pieces[start + col];
                text.append(piece.tag());
                proof {
                    let longer = self@.subrange(start as int, start + col + 1);
                    assert(longer.drop_last() =~= self@.subrange(start as int, start + col));
                    assert(longer.last() == piece);
                }
                col += 1;
            }
            proof {
                assert(self@.subrange(start as int, start as int) =~= Seq::<Piece>::empty());
            }
            row += 1;
        }
        text
    }
}

impl Index<usize> for Board {
    type Output = Piece;

    /// The piece on the square with the number `idx`, counted row by row.
    fn index(&self, idx: usize) -> (piece: &Piece)
        ensures
            self@.len() == MATRIX_SIZE * MATRIX_SIZE,
            *piece == self@[idx as int],
    {
        proof {
            use_type_invariant(self);
        }
        matrix_index(&self.cells, idx)
    }
}

/// A number names a square if it is less than the number of squares.
impl vstd::std_specs::core::IndexSpecImpl<usize> for Board {
    open spec fn index_req(&self, index: &usize) -> bool {
        *index < MATRIX_SIZE * MATRIX_SIZE
    }
}

impl Index<(usize, usize)> for Board {
    type Output = Piece;

    /// The piece on the square in row `pos.0` and column `pos.1`.
    fn index(&self, pos: (usize, usize)) -> (piece: &Piece)
        ensures
            self@.len() == MATRIX_SIZE * MATRIX_SIZE,
            *piece == self@[linear_index(pos.0 as int, pos.1 as int, MATRIX_SIZE as int)],
    {
        proof {
            use_type_invariant(self);
        }
        matrix_index_pair(&self.cells, (pos.1, pos.0))
    }
}

/// A pair names a square if its row and its column are on the board.
impl vstd::std_specs::core::IndexSpecImpl<(usize, usize)> for Board {
    open spec fn index_req(&self, index: &(usize, usize)) -> bool {
        index.0 < MATRIX_SIZE && index.1 < MATRIX_SIZE
    }
}

impl Index<Position> for Board {
    type Output = Piece;

    /// The piece on the square `pos`.
    fn index(&self, pos: Position) -> (piece: &Piece)
        ensures
            self@.len() == MATRIX_SIZE * MATRIX_SIZE,
            *piece == self@[linear_index(pos.0.0 as int, pos.0.1 as int, MATRIX_SIZE as int)],
    {
        proof {
            use_type_invariant(self);
        }
        let pos: (usize, usize) = pos.into();
        matrix_index_pair(&self.cells, (pos.1, pos.0))
    }
}

/// A position names a square if its row and its column are on the board.
impl vstd::std_specs::core::IndexSpecImpl<Position> for Board {
    open spec fn index_req(&self, index: &Position) -> bool {
        index.0.0 < MATRIX_SIZE && index.0.1 < MATRIX_SIZE
    }
}

/// The cells for which `f` holds, in the order in which `cells` has them.
///
/// `f` decides for each cell, and the result keeps exactly the cells for
/// which it said yes. Where `f` computes a predicate, the result is `cells`
/// filtered by that predicate.
pub fn filter_by<C, F>(cells: Vec<C>, f: F) -> (kept: Vec<C>) where C: Cell, F: Fn(&C) -> bool
    requires
        forall|i: int| 0 <= i < cells@.len() ==> call_requires(f, (&#[trigger] cells@[i],)),
    ensures
        exists|keep: Seq<bool>| answers(f, cells@, keep) && kept@ == retained(cells@, keep),
        forall|pred: spec_fn(C) -> bool|
            computes(f, cells@, pred) ==> kept@ == #[trigger] cells@.filter(pred),
{
    let ghost all = cells@;
    let ghost mut keep: Seq<bool> = Seq::empty();
    let mut kept: Vec<C> = Vec::new();
    for cell in it: cells
        invariant
            it.seq() == all,
            forall|i: int| 0 <= i < all.len() ==> call_requires(f, (&#[trigger] all[i],)),
            answers(f, all.take(it.index()), keep),
            kept@ == retained(all.take(it.index()), keep),
    {
        let stays = f(&cell);
        proof {
            let before = all.take(it.index());
            let after = all.take(it.index() + 1);
            assert(after.drop_last() =~= before);
            assert(keep.push(stays).drop_last() =~= keep);
            keep = keep.push(stays);
        }
        if stays {
            kept.push(cell);
        }
    }
    proof {
        assert(all.take(all.len() as int) =~= all);
        assert forall|pred: spec_fn(C) -> bool| computes(f, all, pred) implies kept@
            == #[trigger] all.filter(pred) by {
            lemma_retained_is_filter(all, keep, pred);
        }
    }
    kept
}

/// Keeping the cells for which a predicate holds is filtering by that
/// predicate.
pub proof fn lemma_retained_is_filter<C>(cells: Seq<C>, keep: Seq<bool>, pred: spec_fn(C) -> bool)
    requires
        keep.len() == cells.len(),
        forall|i: int| 0 <= i < cells.len() ==> keep[i] == pred(cells[i]),
    ensures
        retained(cells, keep) == cells.filter(pred),
    decreases cells.len(),
{
    reveal(Seq::filter);
    if cells.len() > 0 {
        lemma_retained_is_filter(cells.drop_last(), keep.drop_last(), pred);
    }
}

/// Counting the squares row by row and finding a square's row and column
/// from its number undo each other, on a grid of any size.
pub proof fn lemma_index_round_trip(n: int, index: int, row: int, col: int)
    requires
        0 < n,
    ensures
        0 <= index < n * n ==> 0 <= index / n < n && 0 <= index % n < n && linear_index(
            index / n,
            index % n,
            n,
        ) == index,
        0 <= row < n && 0 <= col < n ==> 0 <= linear_index(row, col, n) < n * n && linear_index(
            row,
            col,
            n,
        ) / n == row && linear_index(row, col, n) % n == col,
{
    if 0 <= index < n * n {
        assert(0 <= index / n < n && 0 <= index % n < n && (index / n) * n + index % n == index)
            by (nonlinear_arith)
            requires
                0 < n,
                0 <= index < n * n,
        ;
    }
    if 0 <= row < n && 0 <= col < n {
        assert(0 <= row * n + col < n * n && (row * n + col) / n == row && (row * n + col) % n
            == col) by (nonlinear_arith)
            requires
                0 < n,
                0 <= row < n,
                0 <= col < n,
        ;
    }
}

/// How many of `squares` hold `piece`.
pub open spec fn count_of(squares: Seq<Piece>, piece: Piece) -> nat
    decreases squares.len(),
{
    if squares.len() == 0 {
        0
    } else if squares.last() == piece {
        count_of(squares.drop_last(), piece) + 1
    } else {
        count_of(squares.drop_last(), piece)
    }
}

/// A game on ten rows starts with twenty black pawns, twenty white pawns and
/// sixty empty squares.
pub proof fn lemma_starting_population()
    ensures
        count_of(starting_layout(10), Piece::BlackPawn) == 20,
        count_of(starting_layout(10), Piece::WhitePawn) == 20,
        count_of(starting_layout(10), Piece::Empty) == 60,
        count_of(starting_layout(10), Piece::BlackQueen) == 0,
        count_of(starting_layout(10), Piece::WhiteQueen) == 0,
{
    reveal_with_fuel(rows_count, 11);
    let layout = starting_layout(10);
    lemma_rows_counted(10, Piece::BlackPawn);
    lemma_rows_counted(10, Piece::WhitePawn);
    lemma_rows_counted(10, Piece::Empty);
    lemma_rows_counted(10, Piece::BlackQueen);
    lemma_rows_counted(10, Piece::WhiteQueen);
    assert(layout.take(100) =~= layout);
}

/// How many of the squares of row `row` of a game's start on ten rows hold
/// `piece`.
spec fn row_count(row: int, piece: Piece) -> nat {
    if piece == Piece::BlackPawn && 0 <= row <= 3 {
        5
    } else if piece == Piece::WhitePawn && 6 <= row <= 9 {
        5
    } else if piece == Piece::Empty && (0 <= row <= 3 || 6 <= row <= 9) {
        5
    } else if piece == Piece::Empty {
        10
    } else {
        0
    }
}

/// How many of the squares of the first `rows` rows of a game's start on ten
/// rows hold `piece`.
spec fn rows_count(rows: int, piece: Piece) -> nat
    decreases rows,
{
    if rows <= 0 {
        0
    } else {
        rows_count(rows - 1, piece) + row_count(rows - 1, piece)
    }
}

/// The first `rows` rows hold what their rows hold, added up.
proof fn lemma_rows_counted(rows: int, piece: Piece)
    requires
        0 <= rows <= 10,
    ensures
        count_of(starting_layout(10).take(10 * rows), piece) == rows_count(rows, piece),
    decreases rows,
{
    if rows > 0 {
        lemma_rows_counted(rows - 1, piece);
        lemma_cols_counted(rows - 1, 10, piece);
        lemma_row_population(rows - 1, piece);
    }
}

/// The first `cols` squares of row `row` add their count to that of the rows
/// before them.
proof fn lemma_cols_counted(row: int, cols: int, piece: Piece)
    requires
        0 <= row < 10,
        0 <= cols <= 10,
    ensures
        count_of(starting_layout(10).take(10 * row + cols), piece) == count_of(
            starting_layout(10).take(10 * row),
            piece,
        ) + cols_count(row, cols, piece),
    decreases cols,
{
    if cols > 0 {
        lemma_cols_counted(row, cols - 1, piece);
        let layout = starting_layout(10);
        let shorter = layout.take(10 * row + cols - 1);
        let longer = layout.take(10 * row + cols);
        assert(longer.drop_last() =~= shorter);
        assert(longer.last() == starting_piece(row, cols - 1, 10));
    }
}

/// A row of pawns holds five of them and five empty squares; a row without
/// pawns holds ten empty squares.
proof fn lemma_row_population(row: int, piece: Piece)
    requires
        0 <= row < 10,
    ensures
        cols_count(row, 10, piece) == row_count(row, piece),
{
    reveal_with_fuel(cols_count, 11);
    // Which squares of a row add up to an odd number with it depends on
    // whether the row is even.
    assert(row % 2 == 0 || row % 2 == 1);
}

/// How many of the first `cols` squares of row `row` of a game's start on
/// ten rows hold `piece`.
spec fn cols_count(row: int, cols: int, piece: Piece) -> nat
    decreases cols,
{
    if cols <= 0 {
        0
    } else if starting_piece(row, cols - 1, 10) == piece {
        cols_count(row, cols - 1, piece) + 1
    } else {
        cols_count(row, cols - 1, piece)
    }
}

} // verus!
