//! The placement validator: the pure, sole gate deciding whether a piece
//! legally fits on a board at a position.

use vstd::prelude::*;

use crate::board::TetrisBoard;
use crate::board::lemma_rowmajor_bound;
use crate::cell::TetrisCell;
use crate::mino::MinoShape;
use crate::point::Point;

verus! {

/// The board coordinate at row `r`, column `c` exists and is currently
/// `Empty`.
pub open spec fn target_free(board: TetrisBoard, r: int, c: int) -> bool {
    &&& 0 <= r < board.row_count as int
    &&& 0 <= c < board.column_count as int
    &&& board.spec_cell(r, c) == TetrisCell::Empty
}

/// A placement is valid iff every occupied footprint cell lands on a board
/// coordinate that is in bounds and `Empty`. A footprint with no occupied
/// cells is trivially valid.
pub open spec fn spec_valid_mino(board: TetrisBoard, mino: MinoShape, point: Point) -> bool {
    forall|r: int, c: int|
        #![trigger mino.spec_cells()[r][c]]
        0 <= r < mino.spec_cells().len() && 0 <= c < mino.spec_cells()[r].len()
            && mino.spec_cells()[r][c] != TetrisCell::Empty ==> target_free(
            board,
            point.y as int + r,
            point.x as int + c,
        )
}

/// Decides whether `mino` legally fits on `tetris_board` at `point`. Pure
/// and free of side effects, so it is safe to call speculatively.
pub fn valid_mino(tetris_board: &TetrisBoard, mino: &MinoShape, point: Point) -> (r: bool)
    requires
        tetris_board.wf(),
    ensures
        r == spec_valid_mino(*tetris_board, *mino, point),
{
    let cells: Vec<Vec<TetrisCell>> = mino.cells();
    let n: usize = tetris_board.cells.len();
    let mut fr: usize = 0;
    while fr < cells.len()
        invariant
            tetris_board.wf(),
            n == tetris_board.cells@.len(),
            fr <= cells@.len(),
            cells@.len() == mino.spec_cells().len(),
            forall|i: int| 0 <= i < cells@.len() ==> #[trigger] cells@[i]@ == mino.spec_cells()[i],
            forall|r: int, c: int|
                #![trigger mino.spec_cells()[r][c]]
                0 <= r < fr as int && 0 <= c < mino.spec_cells()[r].len()
                    && mino.spec_cells()[r][c] != TetrisCell::Empty ==> target_free(
                    *tetris_board,
                    point.y as int + r,
                    point.x as int + c,
                ),
        decreases cells@.len() - fr,
    {
        let row: &Vec<TetrisCell> = &cells[fr];
        let mut fc: usize = 0;
        while fc < row.len()
            invariant
                tetris_board.wf(),
                n == tetris_board.cells@.len(),
                fr < cells@.len(),
                fc <= row@.len(),
                cells@.len() == mino.spec_cells().len(),
                forall|i: int|
                    0 <= i < cells@.len() ==> #[trigger] cells@[i]@ == mino.spec_cells()[i],
                row@ == mino.spec_cells()[fr as int],
                forall|c: int|
                    #![trigger mino.spec_cells()[fr as int][c]]
                    0 <= c < fc as int && mino.spec_cells()[fr as int][c] != TetrisCell::Empty
                        ==> target_free(
                        *tetris_board,
                        point.y as int + fr as int,
                        point.x as int + c,
                    ),
            decreases row@.len() - fc,
        {
            let cell = row[fc];
            if !cell.is_empty() {
                let br: i64 = (point.y as i64) + (fr as i64);
                let bc: i64 = (point.x as i64) + (fc as i64);
                if br < 0 || br >= (tetris_board.row_count as i64) || bc < 0 || bc
                    >= (tetris_board.column_count as i64) {
                    proof {
                        assert(mino.spec_cells()[fr as int][fc as int] != TetrisCell::Empty);
                        assert(!target_free(*tetris_board, point.y as int + fr as int,
                            point.x as int + fc as int));
                    }
                    return false;
                }
                proof {
                    lemma_rowmajor_bound(br as int, bc as int, tetris_board.row_count as int,
                        tetris_board.column_count as int);
                }
                let idx: usize = (br as usize) * (tetris_board.column_count as usize) + (
                bc as usize);
                if !tetris_board.cells[idx].is_empty() {
                    proof {
                        assert(mino.spec_cells()[fr as int][fc as int] != TetrisCell::Empty);
                        assert(tetris_board.spec_cell(br as int, bc as int)
                            != TetrisCell::Empty);
                    }
                    return false;
                }
            }
            fc = fc + 1;
        }
        fr = fr + 1;
    }
    true
}

/// Law: on a board that is entirely empty and at least four columns wide
/// and two rows tall, every catalog shape fits at its canonical spawn
/// position. On a narrower board the spawn anchor itself can fall outside
/// the grid, so no such guarantee is stated there.
pub proof fn lemma_valid_on_empty_board(board: TetrisBoard, mino: MinoShape)
    requires
        board.wf(),
        board.all_empty(),
        board.column_count >= 4,
        board.row_count >= 2,
    ensures
        spec_valid_mino(board, mino, Point::spec_start_point(board.column_count)),
{
    let start = Point::spec_start_point(board.column_count);
    let cols = board.column_count as int;
    assert(start.x == cols / 2 - 2);
    assert(start.y == 0);
    mino.lemma_footprint_bounds();
    assert forall|r: int, c: int|
        #![trigger mino.spec_cells()[r][c]]
        0 <= r < mino.spec_cells().len() && 0 <= c < mino.spec_cells()[r].len()
            && mino.spec_cells()[r][c] != TetrisCell::Empty implies target_free(
        board,
        start.y as int + r,
        start.x as int + c,
    ) by {
        let br = start.y as int + r;
        let bc = start.x as int + c;
        assert(0 <= br < board.row_count as int);
        assert(0 <= bc < cols);
        lemma_rowmajor_bound(br, bc, board.row_count as int, cols);
        assert(board.spec_cell(br, bc) == TetrisCell::Empty);
    }
}

/// Law: if every cell of the top board row is occupied, no catalog shape
/// fits at its canonical spawn position, since every footprint has an
/// occupied cell in its own top row.
pub proof fn lemma_collision_at_spawn(board: TetrisBoard, mino: MinoShape)
    requires
        board.wf(),
        board.column_count >= 4,
        forall|c: int|
            0 <= c < board.column_count as int ==> #[trigger] board.spec_cell(0, c)
                != TetrisCell::Empty,
    ensures
        !spec_valid_mino(board, mino, Point::spec_start_point(board.column_count)),
{
    let start = Point::spec_start_point(board.column_count);
    let cols = board.column_count as int;
    assert(start.x == cols / 2 - 2);
    assert(start.y == 0);
    let fc: int = match mino {
        MinoShape::I => 0,
        MinoShape::J => 0,
        MinoShape::L => 2,
        MinoShape::O => 0,
        MinoShape::S => 1,
        MinoShape::T => 1,
        MinoShape::Z => 0,
    };
    assert(mino.spec_cells()[0][fc] != TetrisCell::Empty);
    let bc = start.x as int + fc;
    assert(0 <= bc < cols);
    assert(board.spec_cell(0, bc) != TetrisCell::Empty);
    assert(!target_free(board, 0, bc));
}

} // verus!
