//! The five things a square can hold, and how they are classified.

use vstd::prelude::*;
use crate::cell::Cell;

verus! {

/// What a square of the board holds.
#[derive(Debug, Copy, Clone, PartialOrd, PartialEq, Eq, Ord, Structural)]
pub enum Piece {
    Empty,
    WhitePawn,
    BlackPawn,
    WhiteQueen,
    BlackQueen,
}

/// The rank of a piece; an empty square is neither pawn nor queen.
#[derive(Debug, Copy, Clone, PartialOrd, PartialEq, Eq, Structural)]
pub enum Variant {
    Queen,
    Pawn,
    Neither,
}

/// The side a piece plays for; an empty square is on neither side.
#[derive(Debug, Copy, Clone, PartialOrd, PartialEq, Eq, Structural)]
pub enum Color {
    Black,
    White,
    Neither,
}

/// The side that `p` plays for.
pub open spec fn color_of(p: Piece) -> Color {
    match p {
        Piece::WhitePawn | Piece::WhiteQueen => Color::White,
        Piece::BlackPawn | Piece::BlackQueen => Color::Black,
        Piece::Empty => Color::Neither,
    }
}

/// The rank of `p`.
pub open spec fn variant_of(p: Piece) -> Variant {
    match p {
        Piece::WhitePawn | Piece::BlackPawn => Variant::Pawn,
        Piece::WhiteQueen | Piece::BlackQueen => Variant::Queen,
        Piece::Empty => Variant::Neither,
    }
}

/// Two pieces are enemies when both have a side and the sides differ.
pub open spec fn enemies(a: Piece, b: Piece) -> bool {
    color_of(a) != Color::Neither && color_of(b) != Color::Neither && color_of(a) != color_of(b)
}

/// `p` after promotion: a pawn becomes the queen of its side, anything else
/// stays what it is.
pub open spec fn promoted(p: Piece) -> Piece {
    match p {
        Piece::WhitePawn => Piece::WhiteQueen,
        Piece::BlackPawn => Piece::BlackQueen,
        _ => p,
    }
}

/// The four characters that stand for `p` in a rendered board.
pub open spec fn tag_of(p: Piece) -> Seq<char> {
    match p {
        Piece::Empty => seq!['[', '-', '-', ']'],
        Piece::BlackPawn => seq!['[', 'B', 'P', ']'],
        Piece::BlackQueen => seq!['[', 'B', 'Q', ']'],
        Piece::WhitePawn => seq!['[', 'W', 'P', ']'],
        Piece::WhiteQueen => seq!['[', 'W', 'Q', ']'],
    }
}

impl Piece {
    /// Promotes a pawn to the queen of its side, in place. Queens and the
    /// empty square are left as they are.
    pub fn promote(&mut self)
        ensures
            *final(self) == promoted(*old(self)),
    {
        match *self {
            Piece::WhitePawn => {
                *self = Piece::WhiteQueen;
            },
            Piece::BlackPawn => {
                *self = Piece::BlackQueen;
            },
            _ => {},
        }
    }

    /// The fixed-width tag of this piece.
    pub fn tag(&self) -> (s: &'static str)
        ensures
            s@ == tag_of(*self),
    {
        match self {
            Piece::Empty => {
                proof {
                    reveal_strlit("[--]");
                }
                assert("[--]"@ =~= tag_of(*self));
                "[--]"
            },
            Piece::BlackPawn => {
                proof {
                    reveal_strlit("[BP]");
                }
                assert("[BP]"@ =~= tag_of(*self));
                "[BP]"
            },
            Piece::BlackQueen => {
                proof {
                    reveal_strlit("[BQ]");
                }
                assert("[BQ]"@ =~= tag_of(*self));
                "[BQ]"
            },
            Piece::WhitePawn => {
                proof {
                    reveal_strlit("[WP]");
                }
                assert("[WP]"@ =~= tag_of(*self));
                "[WP]"
            },
            Piece::WhiteQueen => {
                proof {
                    reveal_strlit("[WQ]");
                }
                assert("[WQ]"@ =~= tag_of(*self));
                "[WQ]"
            },
        }
    }

    /// The tag of this piece as an owned string.
    pub fn to_string(&self) -> (s: String)
        ensures
            s@ == tag_of(*self),
    {
        self.tag().to_owned()
    }
}

impl Cell for Piece {
    type Variant = Variant;

    type Color = Color;

    type Enemy = Piece;

    open spec fn piece(&self) -> Piece {
        *self
    }

    open spec fn enemy_piece(other: &Piece) -> Piece {
        *other
    }

    open spec fn variant_value(v: Variant) -> Variant {
        v
    }

    open spec fn color_value(c: Color) -> Color {
        c
    }

    fn is_empty(&self) -> (b: bool) {
        matches!(*self, Piece::Empty)
    }

    fn is_white(&self) -> (b: bool) {
        matches!(*self, Piece::WhitePawn | Piece::WhiteQueen)
    }

    fn is_black(&self) -> (b: bool) {
        matches!(*self, Piece::BlackPawn | Piece::BlackQueen)
    }

    fn is_pawn(&self) -> (b: bool) {
        matches!(*self, Piece::WhitePawn | Piece::BlackPawn)
    }

    fn is_queen(&self) -> (b: bool) {
        matches!(*self, Piece::WhiteQueen | Piece::BlackQueen)
    }

    fn is_enemy(&self, other: &Piece) -> (b: bool) {
        self.is_black() && other.is_white() || self.is_white() && other.is_black()
    }

    fn variant(&self) -> (v: Variant) {
        if self.is_pawn() {
            Variant::Pawn
        } else if self.is_queen() {
            Variant::Queen
        } else {
            Variant::Neither
        }
    }

    fn color(&self) -> (c: Color) {
        if self.is_white() {
            Color::White
        } else if self.is_black() {
            Color::Black
        } else {
            Color::Neither
        }
    }
}

/// Every piece is exactly one of empty, white and black, and a piece that is
/// not empty is exactly one of pawn and queen.
pub proof fn lemma_classification_exclusive(p: Piece)
    ensures
        ({
            let empty = p == Piece::Empty;
            let white = color_of(p) == Color::White;
            let black = color_of(p) == Color::Black;
            (empty || white || black) && !(empty && white) && !(empty && black) && !(white
                && black)
        }),
        ({
            let pawn = variant_of(p) == Variant::Pawn;
            let queen = variant_of(p) == Variant::Queen;
            if p == Piece::Empty {
                !pawn && !queen
            } else {
                (pawn || queen) && !(pawn && queen)
            }
        }),
        (p == Piece::Empty) == (color_of(p) == Color::Neither),
        (p == Piece::Empty) == (variant_of(p) == Variant::Neither),
{
}

/// Promoting twice is the same as promoting once, and an empty square stays
/// empty.
pub proof fn lemma_promote_idempotent(p: Piece)
    ensures
        promoted(promoted(p)) == promoted(p),
        promoted(Piece::Empty) == Piece::Empty,
        color_of(promoted(p)) == color_of(p),
        variant_of(promoted(p)) != Variant::Pawn,
{
}

/// Being enemies does not depend on the order of the two pieces, and an empty
/// square is nobody's enemy.
pub proof fn lemma_enemies_symmetric(a: Piece, b: Piece)
    ensures
        enemies(a, b) == enemies(b, a),
        a == Piece::Empty || b == Piece::Empty ==> !enemies(a, b),
{
}

/// Every tag is four characters long, and no two pieces share a tag.
pub proof fn lemma_tags_distinct(a: Piece, b: Piece)
    ensures
        tag_of(a).len() == 4,
        tag_of(a) == tag_of(b) ==> a == b,
{
    if tag_of(a) == tag_of(b) {
        assert(tag_of(a)[1] == tag_of(b)[1]);
        assert(tag_of(a)[2] == tag_of(b)[2]);
    }
}

} // verus!
