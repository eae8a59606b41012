use tetris_core::board::TetrisBoard;
use tetris_core::cell::TetrisCell;
use tetris_core::mino::MinoShape;
use tetris_core::point::Point;
use tetris_core::valid::valid_mino;

fn all_shapes() -> Vec<MinoShape> {
    vec![
        MinoShape::I,
        MinoShape::J,
        MinoShape::L,
        MinoShape::O,
        MinoShape::S,
        MinoShape::T,
        MinoShape::Z,
    ]
}

#[test]
fn every_shape_fits_on_an_empty_board_at_spawn() {
    let board = TetrisBoard::create(10, 20, 300, 600);
    let point = Point::start_point(board.column_count);
    for mino in all_shapes() {
        assert!(valid_mino(&board, &mino, point));
    }
}

#[test]
fn every_shape_fits_on_the_smallest_spawnable_board() {
    let board = TetrisBoard::create(4, 2, 40, 20);
    let point = Point::start_point(board.column_count);
    for mino in all_shapes() {
        assert!(valid_mino(&board, &mino, point));
    }
}

#[test]
fn filled_top_row_blocks_every_shape_at_spawn() {
    let mut board = TetrisBoard::create(10, 20, 300, 600);
    for c in 0..10usize {
        board.cells[c] = TetrisCell::Red;
    }
    let point = Point::start_point(board.column_count);
    for mino in all_shapes() {
        assert!(!valid_mino(&board, &mino, point));
    }
}

#[test]
fn placement_out_of_bounds_is_invalid() {
    let board = TetrisBoard::create(10, 20, 300, 600);
    // Left edge: the J footprint occupies column 0 of its own matrix.
    assert!(!valid_mino(&board, &MinoShape::J, Point { x: -1, y: 0 }));
    // Right edge: the I footprint is four cells wide.
    assert!(!valid_mino(&board, &MinoShape::I, Point { x: 7, y: 0 }));
    assert!(valid_mino(&board, &MinoShape::I, Point { x: 6, y: 0 }));
    // Bottom edge: two-row footprints need two rows.
    assert!(!valid_mino(&board, &MinoShape::O, Point { x: 0, y: 19 }));
    assert!(valid_mino(&board, &MinoShape::O, Point { x: 0, y: 18 }));
    // Above the top is outside the grid.
    assert!(!valid_mino(&board, &MinoShape::O, Point { x: 0, y: -1 }));
}

#[test]
fn spawn_anchor_falls_outside_a_narrow_board() {
    // On a three-column board the centered anchor is column -1, so the
    // I piece cannot spawn even though the board is empty.
    let board = TetrisBoard::create(3, 20, 90, 600);
    let point = Point::start_point(board.column_count);
    assert_eq!(point.x, -1);
    assert!(!valid_mino(&board, &MinoShape::I, point));
}

#[test]
fn collision_with_a_single_occupied_cell_is_invalid() {
    let mut board = TetrisBoard::create(10, 20, 300, 600);
    // The O footprint at (3, 0) covers columns 3 and 4 of rows 0 and 1.
    board.cells[10 + 4] = TetrisCell::Blue;
    let point = Point::start_point(board.column_count);
    assert!(!valid_mino(&board, &MinoShape::O, point));
    // A cell outside the footprint does not block it.
    board.cells[10 + 4] = TetrisCell::Empty;
    board.cells[10 + 7] = TetrisCell::Blue;
    assert!(valid_mino(&board, &MinoShape::O, point));
}

#[test]
fn validation_is_speculative_and_mutates_nothing() {
    let board = TetrisBoard::create(10, 20, 300, 600);
    let before = board.flatten();
    let point = Point::start_point(board.column_count);
    for mino in all_shapes() {
        valid_mino(&board, &mino, point);
        valid_mino(&board, &mino, Point { x: -5, y: -5 });
    }
    assert_eq!(board.flatten(), before);
}
