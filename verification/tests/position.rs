use draughts_board::position::{Position, TryConvert, MATRIX_SIZE};

#[test]
fn test_let_values() {
    let pos = Position((3, 5));
    let (x, y) = pos.inner();
    assert_eq!(x, 3usize);
    assert_eq!(y, 5usize);
}

#[test]
fn possible_moves() {
    let pos = Position((1, 1));
    let moves = pos.possible_moves(None);
    assert_eq!(moves.len(), 4);
}

#[test]
fn possible_moves_boundary() {
    let pos = Position((1, 0));
    let moves = pos.possible_moves(None);
    assert_eq!(moves.len(), 2);

    let pos = Position((0, 0));
    let moves = pos.possible_moves(None);
    assert_eq!(moves.len(), 1);
    assert_eq!(moves[0], Position((1, 1)));
}

#[test]
fn possible_moves_come_in_a_fixed_order() {
    let moves = Position((4, 5)).possible_moves(None);
    assert_eq!(
        moves,
        vec![Position((3, 4)), Position((3, 6)), Position((5, 4)), Position((5, 6))]
    );
}

#[test]
fn possible_moves_leave_out_the_previous_square() {
    let moves = Position((4, 5)).possible_moves(Some(Position((3, 6))));
    assert_eq!(moves, vec![Position((3, 4)), Position((5, 4)), Position((5, 6))]);

    let moves = Position((1, 0)).possible_moves(Some(Position((0, 1))));
    assert_eq!(moves, vec![Position((2, 1))]);

    let moves = Position((0, 0)).possible_moves(Some(Position((1, 1))));
    assert_eq!(moves, Vec::<Position>::new());
}

#[test]
fn possible_moves_ignore_a_previous_square_that_is_no_neighbour() {
    let moves = Position((4, 5)).possible_moves(Some(Position((4, 5))));
    assert_eq!(moves.len(), 4);
    let moves = Position((4, 5)).possible_moves(Some(Position((0, 0))));
    assert_eq!(moves.len(), 4);
}

#[test]
fn possible_moves_in_the_corners() {
    assert_eq!(Position((0, 0)).possible_moves(None), vec![Position((1, 1))]);
    assert_eq!(Position((0, 9)).possible_moves(None), vec![Position((1, 8))]);
    assert_eq!(Position((9, 0)).possible_moves(None), vec![Position((8, 1))]);
    assert_eq!(Position((9, 9)).possible_moves(None), vec![Position((8, 8))]);
}

#[test]
fn possible_moves_on_the_edges() {
    assert_eq!(
        Position((0, 4)).possible_moves(None),
        vec![Position((1, 3)), Position((1, 5))]
    );
    assert_eq!(
        Position((9, 4)).possible_moves(None),
        vec![Position((8, 3)), Position((8, 5))]
    );
    assert_eq!(
        Position((4, 0)).possible_moves(None),
        vec![Position((3, 1)), Position((5, 1))]
    );
    assert_eq!(
        Position((4, 9)).possible_moves(None),
        vec![Position((3, 8)), Position((5, 8))]
    );
}

#[test]
fn possible_moves_count_by_place_on_the_grid() {
    for row in 0..MATRIX_SIZE {
        for col in 0..MATRIX_SIZE {
            let on_row_edge = row == 0 || row == MATRIX_SIZE - 1;
            let on_col_edge = col == 0 || col == MATRIX_SIZE - 1;
            let expected = match (on_row_edge, on_col_edge) {
                (true, true) => 1,
                (true, false) | (false, true) => 2,
                (false, false) => 4,
            };
            let moves = Position((row, col)).possible_moves(None);
            assert_eq!(moves.len(), expected);
            for m in moves {
                let (r, c) = m.inner();
                assert!(r < MATRIX_SIZE && c < MATRIX_SIZE);
                assert_eq!(r.abs_diff(row), 1);
                assert_eq!(c.abs_diff(col), 1);
            }
        }
    }
}

#[test]
fn possible_moves_off_the_grid() {
    assert_eq!(
        Position((10, 5)).possible_moves(None),
        vec![Position((9, 4)), Position((9, 6))]
    );
    assert_eq!(Position((10, 10)).possible_moves(None), vec![Position((9, 9))]);
    assert_eq!(Position((11, 5)).possible_moves(None), Vec::<Position>::new());
    assert_eq!(Position((5, 30)).possible_moves(None), Vec::<Position>::new());
    assert_eq!(
        Position((usize::MAX, 0)).possible_moves(None),
        Vec::<Position>::new()
    );
    assert_eq!(
        Position((usize::MAX, usize::MAX)).possible_moves(None),
        Vec::<Position>::new()
    );
}

#[test]
fn try_convert_keeps_coordinates_on_the_grid() {
    let c: Option<usize> = 0isize.try_convert();
    assert_eq!(c, Some(0));
    let c: Option<usize> = 9isize.try_convert();
    assert_eq!(c, Some(9));
    let c: Option<usize> = 10isize.try_convert();
    assert_eq!(c, None);
    let c: Option<usize> = (-1isize).try_convert();
    assert_eq!(c, None);
    let c: Option<usize> = isize::MIN.try_convert();
    assert_eq!(c, None);
    let c: Option<usize> = isize::MAX.try_convert();
    assert_eq!(c, None);
}

#[test]
fn try_convert_keeps_squares_on_the_grid() {
    assert_eq!((3isize, 4isize).try_convert(), Some(Position((3, 4))));
    assert_eq!((0isize, 9isize).try_convert(), Some(Position((0, 9))));
    assert_eq!((-1isize, 4isize).try_convert(), None);
    assert_eq!((3isize, -1isize).try_convert(), None);
    assert_eq!((10isize, 4isize).try_convert(), None);
    assert_eq!((3isize, 10isize).try_convert(), None);
}

#[test]
fn positions_convert_to_and_from_pairs() {
    let pos: Position = (3, 5).into();
    assert_eq!(pos, Position((3, 5)));
    let pair: (usize, usize) = pos.into();
    assert_eq!(pair, (3, 5));
    let some: Option<(usize, usize)> = pos.into();
    assert_eq!(some, Some((3, 5)));
}

#[test]
fn positions_compare_by_row_then_column() {
    assert_eq!(Position((3, 5)), Position((3, 5)));
    assert_ne!(Position((3, 5)), Position((5, 3)));
    assert_ne!(Position((3, 5)), Position((3, 6)));
    assert!(Position((3, 5)) < Position((3, 6)));
    assert!(Position((3, 9)) < Position((4, 0)));
    assert!(Position((4, 0)) > Position((3, 9)));
}
