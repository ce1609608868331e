//! The matrix that stores the squares of a board, and what is taken on trust
//! about it.
//!
//! Nothing in this file is proved: each contract restates what the matrix
//! library documents, and the board is verified against these contracts.

use nalgebra::{ArrayStorage, Const, Matrix, SMatrix};
use vstd::prelude::*;
use crate::piece::Piece;
use crate::position::MATRIX_SIZE;

verus! {

/// `nalgebra::Matrix`, a matrix of any shape over any storage.
#[verifier::external_type_specification]
#[verifier::external_body]
#[verifier::reject_recursive_types(T)]
#[verifier::reject_recursive_types(R)]
#[verifier::reject_recursive_types(C)]
#[verifier::reject_recursive_types(S)]
pub struct ExMatrix<T, R, C, S>(Matrix<T, R, C, S>);

/// `nalgebra::Const`, a dimension known at compile time.
#[verifier::external_type_specification]
#[verifier::external_body]
pub struct ExConst<const R: usize>(Const<R>);

/// `nalgebra::ArrayStorage`, the storage of a matrix whose shape is known at
/// compile time.
#[verifier::external_type_specification]
#[verifier::external_body]
#[verifier::reject_recursive_types(T)]
pub struct ExArrayStorage<T, const R: usize, const C: usize>(ArrayStorage<T, R, C>);

/// The matrix of a board: one component for each square.
pub type Squares = SMatrix<Piece, MATRIX_SIZE, MATRIX_SIZE>;

/// The components of a matrix in the order in which the matrix stores them
/// and walks through them: column by column, each column from its first row
/// to its last.
pub uninterp spec fn components(m: Squares) -> Seq<Piece>;

/// The place of the component in row `i` and column `j` among the
/// components.
pub open spec fn column_major(i: int, j: int) -> int {
    j * MATRIX_SIZE + i
}

/// `SMatrix::from_fn`: a matrix whose component in row `i` and column `j` is
/// what `f` returned for `(i, j)`. The matrix calls `f` once for each pair of
/// a row and a column.
#[verifier::external_body]
pub(crate) fn matrix_from_fn<F: Fn(usize, usize) -> Piece>(f: F) -> (m: Squares)
    requires
        forall|i: usize, j: usize| i < MATRIX_SIZE && j < MATRIX_SIZE ==> call_requires(f, (i, j)),
    ensures
        components(m).len() == MATRIX_SIZE * MATRIX_SIZE,
        forall|i: int, j: int|
            0 <= i < MATRIX_SIZE && 0 <= j < MATRIX_SIZE ==> call_ensures(
                f,
                (i as usize, j as usize),
                components(m)[#[trigger] column_major(i, j)],
            ),
{
    Squares::from_fn(f)
}

/// `Matrix::index` by one number: the component at that place in storage
/// order. The matrix panics if the number is not less than the number of its
/// components.
#[verifier::external_body]
pub(crate) fn matrix_index(m: &Squares, idx: usize) -> (piece: &Piece)
    requires
        idx < MATRIX_SIZE * MATRIX_SIZE,
    ensures
        *piece == components(*m)[idx as int],
{
    &m[idx]
}

/// `Matrix::index` by a pair: the component in row `pos.0` and column
/// `pos.1`. The matrix panics if the row or the column is out of range.
#[verifier::external_body]
pub(crate) fn matrix_index_pair(m: &Squares, pos: (usize, usize)) -> (piece: &Piece)
    requires
        pos.0 < MATRIX_SIZE,
        pos.1 < MATRIX_SIZE,
    ensures
        *piece == components(*m)[column_major(pos.0 as int, pos.1 as int)],
{
    &m[pos]
}

/// `Matrix::index_mut` by one number: the component at that place in storage
/// order, to write to; the other components stay as they are. The matrix
/// panics if the number is not less than the number of its components.
#[verifier::external_body]
pub(crate) fn matrix_index_mut(m: &mut Squares, idx: usize) -> (piece: &mut Piece)
    requires
        idx < MATRIX_SIZE * MATRIX_SIZE,
    ensures
        *piece == components(*old(m))[idx as int],
        components(*final(m)) == components(*old(m)).update(idx as int, *final(piece)),
    no_unwind
{
    &mut m[idx]
}

/// `Matrix::index_mut` by a pair: the component in row `pos.0` and column
/// `pos.1`, to write to; the other components stay as they are. The matrix
/// panics if the row or the column is out of range.
#[verifier::external_body]
pub(crate) fn matrix_index_pair_mut(m: &mut Squares, pos: (usize, usize)) -> (piece: &mut Piece)
    requires
        pos.0 < MATRIX_SIZE,
        pos.1 < MATRIX_SIZE,
    ensures
        *piece == components(*old(m))[column_major(pos.0 as int, pos.1 as int)],
        components(*final(m)) == components(*old(m)).update(
            column_major(pos.0 as int, pos.1 as int),
            *final(piece),
        ),
    no_unwind
{
    &mut m[pos]
}

/// `Matrix::iter`, collected: the components in storage order.
#[verifier::external_body]
pub(crate) fn matrix_iter(m: &Squares) -> (pieces: Vec<Piece>)
    ensures
        pieces@ == components(*m),
{
    m.iter().copied().collect()
}

} // verus!
