use draughts_board::cell::Cell;
use draughts_board::piece::{Color, Piece, Variant};

const ALL: [Piece; 5] = [
    Piece::Empty,
    Piece::WhitePawn,
    Piece::BlackPawn,
    Piece::WhiteQueen,
    Piece::BlackQueen,
];

#[test]
fn is_empty_works() {
    assert!(!Piece::BlackPawn.is_empty());
    assert!(!Piece::WhitePawn.is_empty());
    assert!(!Piece::WhiteQueen.is_empty());
    assert!(!Piece::BlackQueen.is_empty());
    assert!(Piece::Empty.is_empty());
}

#[test]
fn is_white_works() {
    assert!(!Piece::Empty.is_white());
    assert!(!Piece::BlackQueen.is_white());
    assert!(!Piece::BlackPawn.is_white());
    assert!(Piece::WhiteQueen.is_white());
    assert!(Piece::WhitePawn.is_white());
}

#[test]
fn is_black_works() {
    assert!(!Piece::Empty.is_black());
    assert!(!Piece::WhitePawn.is_black());
    assert!(!Piece::WhiteQueen.is_black());
    assert!(Piece::BlackPawn.is_black());
    assert!(Piece::BlackQueen.is_black());
}

#[test]
fn is_pawn_works() {
    assert!(!Piece::Empty.is_pawn());
    assert!(!Piece::WhiteQueen.is_pawn());
    assert!(!Piece::BlackQueen.is_pawn());
    assert!(Piece::BlackPawn.is_pawn());
    assert!(Piece::WhitePawn.is_pawn());
}

#[test]
fn is_queen_works() {
    assert!(!Piece::Empty.is_queen());
    assert!(!Piece::BlackPawn.is_queen());
    assert!(!Piece::WhitePawn.is_queen());
    assert!(Piece::WhiteQueen.is_queen());
    assert!(Piece::BlackQueen.is_queen());
}

#[test]
fn is_enemy_works() {
    assert!(Piece::WhitePawn.is_enemy(&Piece::BlackPawn));
    assert!(Piece::WhitePawn.is_enemy(&Piece::BlackQueen));
    assert!(Piece::WhiteQueen.is_enemy(&Piece::BlackPawn));
    assert!(Piece::WhiteQueen.is_enemy(&Piece::BlackQueen));
    assert!(!Piece::BlackPawn.is_enemy(&Piece::BlackQueen));
    assert!(!Piece::BlackPawn.is_enemy(&Piece::BlackPawn));
}

#[test]
fn promote_works() {
    let mut piece = Piece::BlackPawn;
    piece.promote();
    assert_eq!(piece, Piece::BlackQueen);

    let mut piece = Piece::WhitePawn;
    piece.promote();
    assert_eq!(piece, Piece::WhiteQueen);
}

#[test]
fn variant_works() {
    assert_eq!(Piece::Empty.variant(), Variant::Neither);
    assert_eq!(Piece::WhitePawn.variant(), Variant::Pawn);
    assert_eq!(Piece::BlackPawn.variant(), Variant::Pawn);
    assert_eq!(Piece::BlackQueen.variant(), Variant::Queen);
    assert_eq!(Piece::WhiteQueen.variant(), Variant::Queen);
}

#[test]
fn color_works() {
    assert_eq!(Piece::Empty.color(), Color::Neither);
    assert_eq!(Piece::WhitePawn.color(), Color::White);
    assert_eq!(Piece::BlackPawn.color(), Color::Black);
    assert_eq!(Piece::BlackQueen.color(), Color::Black);
    assert_eq!(Piece::WhiteQueen.color(), Color::White);
}

#[test]
fn every_piece_is_exactly_one_of_empty_white_black() {
    for piece in ALL {
        let held = [piece.is_empty(), piece.is_white(), piece.is_black()];
        assert_eq!(held.iter().filter(|h| **h).count(), 1);
    }
}

#[test]
fn every_piece_but_empty_is_exactly_one_of_pawn_queen() {
    for piece in ALL {
        if piece.is_empty() {
            assert!(!piece.is_pawn());
            assert!(!piece.is_queen());
        } else {
            assert_ne!(piece.is_pawn(), piece.is_queen());
        }
    }
}

#[test]
fn classification_agrees_with_color_and_variant() {
    for piece in ALL {
        assert_eq!(piece.is_white(), piece.color() == Color::White);
        assert_eq!(piece.is_black(), piece.color() == Color::Black);
        assert_eq!(piece.is_empty(), piece.color() == Color::Neither);
        assert_eq!(piece.is_pawn(), piece.variant() == Variant::Pawn);
        assert_eq!(piece.is_queen(), piece.variant() == Variant::Queen);
        assert_eq!(piece.is_empty(), piece.variant() == Variant::Neither);
    }
}

#[test]
fn promote_is_idempotent() {
    for piece in ALL {
        let mut once = piece;
        once.promote();
        let mut twice = once;
        twice.promote();
        assert_eq!(once, twice);
        assert_eq!(once.color(), piece.color());
        assert!(!once.is_pawn());
    }
}

#[test]
fn promote_leaves_empty_and_queens() {
    let mut piece = Piece::Empty;
    piece.promote();
    assert_eq!(piece, Piece::Empty);

    let mut piece = Piece::WhiteQueen;
    piece.promote();
    assert_eq!(piece, Piece::WhiteQueen);

    let mut piece = Piece::BlackQueen;
    piece.promote();
    assert_eq!(piece, Piece::BlackQueen);
}

#[test]
fn is_enemy_is_symmetric() {
    for a in ALL {
        for b in ALL {
            assert_eq!(a.is_enemy(&b), b.is_enemy(&a));
        }
    }
}

#[test]
fn is_enemy_is_false_of_empty() {
    for piece in ALL {
        assert!(!piece.is_enemy(&Piece::Empty));
        assert!(!Piece::Empty.is_enemy(&piece));
    }
}

#[test]
fn is_enemy_holds_of_white_pawn_and_black_queen() {
    assert!(Piece::WhitePawn.is_enemy(&Piece::BlackQueen));
    assert!(Piece::BlackQueen.is_enemy(&Piece::WhitePawn));
    assert!(!Piece::BlackPawn.is_enemy(&Piece::BlackQueen));
    assert!(!Piece::WhitePawn.is_enemy(&Piece::WhiteQueen));
}

#[test]
fn tags_are_four_characters_and_distinct() {
    assert_eq!(Piece::Empty.tag(), "[--]");
    assert_eq!(Piece::BlackPawn.tag(), "[BP]");
    assert_eq!(Piece::BlackQueen.tag(), "[BQ]");
    assert_eq!(Piece::WhitePawn.tag(), "[WP]");
    assert_eq!(Piece::WhiteQueen.tag(), "[WQ]");
    for piece in ALL {
        assert_eq!(piece.tag().chars().count(), 4);
        assert_eq!(piece.to_string(), piece.tag());
    }
}

#[test]
fn pieces_are_ordered_from_empty_to_black_queen() {
    assert!(Piece::Empty < Piece::WhitePawn);
    assert!(Piece::WhitePawn < Piece::BlackPawn);
    assert!(Piece::BlackPawn < Piece::WhiteQueen);
    assert!(Piece::WhiteQueen < Piece::BlackQueen);
}

#[test]
fn located_cells_answer_as_their_piece() {
    for piece in ALL {
        let owned = (17usize, piece);
        let borrowed = (17usize, &piece);
        assert_eq!(owned.is_empty(), piece.is_empty());
        assert_eq!(owned.is_white(), piece.is_white());
        assert_eq!(owned.is_black(), piece.is_black());
        assert_eq!(owned.is_pawn(), piece.is_pawn());
        assert_eq!(owned.is_queen(), piece.is_queen());
        assert_eq!(owned.variant(), piece.variant());
        assert_eq!(owned.color(), piece.color());
        assert_eq!(borrowed.is_empty(), piece.is_empty());
        assert_eq!(borrowed.is_white(), piece.is_white());
        assert_eq!(borrowed.is_black(), piece.is_black());
        assert_eq!(borrowed.is_pawn(), piece.is_pawn());
        assert_eq!(borrowed.is_queen(), piece.is_queen());
        assert_eq!(borrowed.variant(), piece.variant());
        assert_eq!(borrowed.color(), piece.color());
        for other in ALL {
            assert_eq!(owned.is_enemy(&other), piece.is_enemy(&other));
            assert_eq!(borrowed.is_enemy(&other), piece.is_enemy(&other));
        }
    }
}
