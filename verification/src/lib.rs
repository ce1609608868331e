//! Board-state core of a draughts game: what a square holds, where it lies on
//! the grid, which diagonal squares a piece can look at, and how the steps and
//! captures of one turn add up.

pub mod board;
pub mod cell;
pub mod grid;
pub mod piece;
pub mod position;
pub mod turn;
