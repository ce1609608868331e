//! The questions that can be asked of anything that holds a piece: a bare
//! piece, or a piece together with the index of its square.

use vstd::prelude::*;
use crate::piece::{color_of, enemies, variant_of, Color, Piece, Variant};

verus! {

/// Something that holds a piece and can be classified by it.
///
/// Every answer is determined by the piece held, `piece()`: two cells that
/// hold the same piece answer alike, wherever they lie.
pub trait Cell {
    type Variant;

    type Color;

    type Enemy;

    /// The piece that this cell holds.
    spec fn piece(&self) -> Piece;

    /// The piece that a value of the enemy type stands for.
    spec fn enemy_piece(other: &Self::Enemy) -> Piece;

    /// The rank that a value of the cell's rank type stands for.
    spec fn variant_value(v: Self::Variant) -> Variant;

    /// The side that a value of the cell's side type stands for.
    spec fn color_value(c: Self::Color) -> Color;

    /// `true` if the cell holds nothing.
    fn is_empty(&self) -> (b: bool)
        ensures
            b == (self.piece() == Piece::Empty),
    ;

    /// `true` if the cell holds a white piece.
    fn is_white(&self) -> (b: bool)
        ensures
            b == (color_of(self.piece()) == Color::White),
    ;

    /// `true` if the cell holds a black piece.
    fn is_black(&self) -> (b: bool)
        ensures
            b == (color_of(self.piece()) == Color::Black),
    ;

    /// `true` if the cell holds a pawn.
    fn is_pawn(&self) -> (b: bool)
        ensures
            b == (variant_of(self.piece()) == Variant::Pawn),
    ;

    /// `true` if the cell holds a queen.
    fn is_queen(&self) -> (b: bool)
        ensures
            b == (variant_of(self.piece()) == Variant::Queen),
    ;

    /// `true` if the cell and `other` hold pieces of different sides.
    fn is_enemy(&self, other: &Self::Enemy) -> (b: bool)
        ensures
            b == enemies(self.piece(), Self::enemy_piece(other)),
    ;

    /// The rank of the piece held.
    fn variant(&self) -> (v: Self::Variant)
        ensures
            Self::variant_value(v) == variant_of(self.piece()),
    ;

    /// The side of the piece held.
    fn color(&self) -> (c: Self::Color)
        ensures
            Self::color_value(c) == color_of(self.piece()),
    ;
}

/// A square's index together with a borrowed piece.
impl Cell for (usize, &Piece) {
    type Variant = Variant;

    type Color = Color;

    type Enemy = Piece;

    open spec fn piece(&self) -> Piece {
        *self.1
    }

    open spec fn enemy_piece(other: &Piece) -> Piece {
        *other
    }

    open spec fn variant_value(v: Variant) -> Variant {
        v
    }

    open spec fn color_value(c: Color) -> Color {
        c
    }

    fn is_empty(&self) -> (b: bool) {
        self.1.is_empty()
    }

    fn is_white(&self) -> (b: bool) {
        self.1.is_white()
    }

    fn is_black(&self) -> (b: bool) {
        self.1.is_black()
    }

    fn is_pawn(&self) -> (b: bool) {
        self.1.is_pawn()
    }

    fn is_queen(&self) -> (b: bool) {
        self.1.is_queen()
    }

    fn is_enemy(&self, other: &Piece) -> (b: bool) {
        self.1.is_enemy(other)
    }

    fn variant(&self) -> (v: Variant) {
        self.1.variant()
    }

    fn color(&self) -> (c: Color) {
        self.1.color()
    }
}

/// A square's index together with the piece on it.
impl Cell for (usize, Piece) {
    type Variant = Variant;

    type Color = Color;

    type Enemy = Piece;

    open spec fn piece(&self) -> Piece {
        self.1
    }

    open spec fn enemy_piece(other: &Piece) -> Piece {
        *other
    }

    open spec fn variant_value(v: Variant) -> Variant {
        v
    }

    open spec fn color_value(c: Color) -> Color {
        c
    }

    fn is_empty(&self) -> (b: bool) {
        self.1.is_empty()
    }

    fn is_white(&self) -> (b: bool) {
        self.1.is_white()
    }

    fn is_black(&self) -> (b: bool) {
        self.1.is_black()
    }

    fn is_pawn(&self) -> (b: bool) {
        self.1.is_pawn()
    }

    fn is_queen(&self) -> (b: bool) {
        self.1.is_queen()
    }

    fn is_enemy(&self, other: &Piece) -> (b: bool) {
        self.1.is_enemy(other)
    }

    fn variant(&self) -> (v: Variant) {
        self.1.variant()
    }

    fn color(&self) -> (c: Color) {
        self.1.color()
    }
}

} // verus!
