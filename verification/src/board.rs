//! The playing-field grid: a fixed-size, row-major matrix of cells plus the
//! pixel extents handed to the external renderer.

use vstd::pervasive::VecAdditionalExecFns;
use vstd::prelude::*;

use crate::cell::TetrisCell;
use crate::mino::MinoShape;
use crate::point::Point;
use crate::valid::spec_valid_mino;

verus! {

/// Row-major index arithmetic stays inside the grid.
pub proof fn lemma_rowmajor_bound(r: int, c: int, rows: int, cols: int)
    by (nonlinear_arith)
    requires
        0 <= r < rows,
        0 <= c < cols,
    ensures
        0 <= r * cols + c < rows * cols,
{
}

/// Distinct grid coordinates have distinct row-major indices.
pub proof fn lemma_rowmajor_injective(cols: int, r1: int, c1: int, r2: int, c2: int)
    by (nonlinear_arith)
    requires
        0 <= c1 < cols,
        0 <= c2 < cols,
        r1 * cols + c1 == r2 * cols + c2,
    ensures
        r1 == r2,
        c1 == c2,
{
}

/// The grid of cells, `row_count` rows by `column_count` columns, stored
/// row-major, with the pixel extents used only for the render hand-off.
/// Dimensions are fixed at construction and never resized.
#[derive(Debug, Clone, PartialEq, Eq)]
pub struct TetrisBoard {
    /// Row-major cells: the slot at row `r`, column `c` sits at index
    /// `r * column_count + c`.
    pub cells: Vec<TetrisCell>,
    pub column_count: u32,
    pub row_count: u32,
    pub board_width: u32,
    pub board_height: u32,
}

impl TetrisBoard {
    /// The grid shape invariant: positive dimensions, and exactly one stored
    /// cell per grid slot.
    pub open spec fn wf(self) -> bool {
        &&& self.column_count >= 1
        &&& self.row_count >= 1
        &&& self.cells@.len() == self.row_count as int * self.column_count as int
    }

    /// The cell at row `r`, column `c`.
    pub open spec fn spec_cell(self, r: int, c: int) -> TetrisCell {
        self.cells@[r * self.column_count as int + c]
    }

    /// Every slot of the grid is `Empty`.
    pub open spec fn all_empty(self) -> bool {
        forall|i: int| 0 <= i < self.cells@.len() ==> self.cells@[i] == TetrisCell::Empty
    }

    /// The flat, row-major sequence of integer cell codes.
    pub open spec fn spec_flat(self) -> Seq<i32> {
        self.cells@.map_values(|cell: TetrisCell| cell.spec_code())
    }

    /// Builds a board with every cell `Empty`. Dimensions must be positive
    /// and the grid must fit in memory; they are fixed from here on.
    pub fn create(column_count: u32, row_count: u32, board_width: u32, board_height: u32) -> (r:
        TetrisBoard)
        requires
            column_count >= 1,
            row_count >= 1,
            row_count as int * column_count as int <= usize::MAX as int,
        ensures
            r.wf(),
            r.column_count == column_count,
            r.row_count == row_count,
            r.board_width == board_width,
            r.board_height == board_height,
            r.all_empty(),
    {
        let total: usize = (row_count as usize) * (column_count as usize);
        let mut cells: Vec<TetrisCell> = Vec::new();
        let mut i: usize = 0;
        while i < total
            invariant
                i <= total,
                cells@.len() == i as int,
                forall|j: int| 0 <= j < i as int ==> cells@[j] == TetrisCell::Empty,
            decreases total - i,
        {
            cells.push(TetrisCell::Empty);
            i = i + 1;
        }
        TetrisBoard { cells, column_count, row_count, board_width, board_height }
    }

    /// The flat ordered sequence of integer cell codes, row-major, for the
    /// render hand-off. Read-only and free of side effects.
    pub fn flatten(&self) -> (r: Vec<i32>)
        ensures
            r@ == self.spec_flat(),
    {
        let mut out: Vec<i32> = Vec::new();
        let mut i: usize = 0;
        let n: usize = self.cells.len();
        while i < n
            invariant
                i <= n,
                n == self.cells@.len(),
                out@.len() == i as int,
                forall|j: int| 0 <= j < i as int ==> out@[j] == self.cells@[j].spec_code(),
            decreases n - i,
        {
            out.push(self.cells[i].into_code());
            i = i + 1;
        }
        proof {
            assert(out@ =~= self.spec_flat());
        }
        out
    }

    /// Rebuilds a board from a flat snapshot of integer codes. The snapshot
    /// is rejected unless it holds exactly one recognized code per grid
    /// slot; nothing is silently mapped.
    pub fn from_flat(
        codes: &Vec<i32>,
        board_width: u32,
        board_height: u32,
        column_count: u32,
        row_count: u32,
    ) -> (r: Option<TetrisBoard>)
        requires
            column_count >= 1,
            row_count >= 1,
            row_count as int * column_count as int <= usize::MAX as int,
        ensures
            r is Some <==> (codes@.len() == row_count as int * column_count as int && (forall|
                i: int|
                0 <= i < codes@.len() ==> TetrisCell::spec_from_code(codes@[i]) is Some)),
            r is Some ==> (r->0).wf() && (r->0).column_count == column_count && (r->0).row_count
                == row_count && (r->0).board_width == board_width && (r->0).board_height
                == board_height && (r->0).spec_flat() == codes@,
    {
        let total: usize = (row_count as usize) * (column_count as usize);
        if codes.len() != total {
            return None;
        }
        let mut cells: Vec<TetrisCell> = Vec::new();
        let mut i: usize = 0;
        while i < total
            invariant
                i <= total,
                total == codes@.len(),
                cells@.len() == i as int,
                forall|j: int|
                    0 <= j < i as int ==> TetrisCell::spec_from_code(codes@[j]) == Some(
                        #[trigger] cells@[j],
                    ),
            decreases total - i,
        {
            match TetrisCell::from_code(codes[i]) {
                Some(cell) => {
                    cells.push(cell);
                },
                None => {
                    return None;
                },
            }
            i = i + 1;
        }
        let board = TetrisBoard { cells, column_count, row_count, board_width, board_height };
        proof {
            assert forall|j: int| 0 <= j < codes@.len() implies #[trigger] board.spec_flat()[j]
                == codes@[j] by {
                crate::cell::lemma_cell_code_round_trip(codes@[j]);
            }
            assert(board.spec_flat() =~= codes@);
        }
        Some(board)
    }

    /// What spawning leaves at row `r`, column `c`: the footprint's own cell
    /// where an occupied footprint slot covers the coordinate, and the prior
    /// board cell everywhere else.
    pub open spec fn spec_spawn_cell(
        self,
        mino: MinoShape,
        point: Point,
        r: int,
        c: int,
    ) -> TetrisCell {
        let fr = r - point.y as int;
        let fc = c - point.x as int;
        if 0 <= fr < mino.spec_cells().len() && 0 <= fc < mino.spec_cells()[fr].len()
            && mino.spec_cells()[fr][fc] != TetrisCell::Empty {
            mino.spec_cells()[fr][fc]
        } else {
            self.spec_cell(r, c)
        }
    }

    /// Writes the piece's footprint onto the board at `point`: occupied
    /// footprint cells overwrite, empty footprint cells preserve what was
    /// there. The placement validator is the sole gate; this performs no
    /// checking of its own.
    pub fn spawn_mino(&mut self, mino: MinoShape, point: Point)
        requires
            old(self).wf(),
            spec_valid_mino(*old(self), mino, point),
        ensures
            final(self).wf(),
            final(self).column_count == old(self).column_count,
            final(self).row_count == old(self).row_count,
            final(self).board_width == old(self).board_width,
            final(self).board_height == old(self).board_height,
            forall|r: int, c: int|
                0 <= r < old(self).row_count as int && 0 <= c < old(self).column_count as int
                    ==> #[trigger] final(self).spec_cell(r, c) == old(self).spec_spawn_cell(
                    mino,
                    point,
                    r,
                    c,
                ),
    {
        let cells: Vec<Vec<TetrisCell>> = mino.cells();
        let rows: u32 = self.row_count;
        let cols: u32 = self.column_count;
        let n: usize = self.cells.len();
        let ghost orig: TetrisBoard = *self;
        let mut fr: usize = 0;
        while fr < cells.len()
            invariant
                fr <= cells@.len(),
                self.column_count == orig.column_count,
                self.row_count == orig.row_count,
                self.board_width == orig.board_width,
                self.board_height == orig.board_height,
                self.cells@.len() == orig.cells@.len(),
                n as int == orig.cells@.len(),
                orig.wf(),
                rows == orig.row_count,
                cols == orig.column_count,
                spec_valid_mino(orig, mino, point),
                cells@.len() == mino.spec_cells().len(),
                forall|i: int|
                    0 <= i < cells@.len() ==> #[trigger] cells@[i]@ == mino.spec_cells()[i],
                forall|r: int, c: int|
                    0 <= r < orig.row_count as int && 0 <= c < orig.column_count as int
                        ==> #[trigger] self.spec_cell(r, c) == spec_spawn_upto(
                        orig,
                        mino,
                        point,
                        r,
                        c,
                        fr as int,
                        0,
                    ),
            decreases cells@.len() - fr,
        {
            let row: &Vec<TetrisCell> = &cells[fr];
            let mut fc: usize = 0;
            while fc < row.len()
                invariant
                    fr < cells@.len(),
                    fc <= row@.len(),
                    self.column_count == orig.column_count,
                    self.row_count == orig.row_count,
                    self.board_width == orig.board_width,
                    self.board_height == orig.board_height,
                    self.cells@.len() == orig.cells@.len(),
                    n as int == orig.cells@.len(),
                    orig.wf(),
                    rows == orig.row_count,
                    cols == orig.column_count,
                    spec_valid_mino(orig, mino, point),
                    cells@.len() == mino.spec_cells().len(),
                    forall|i: int|
                        0 <= i < cells@.len() ==> #[trigger] cells@[i]@ == mino.spec_cells()[i],
                    row@ == mino.spec_cells()[fr as int],
                    forall|r: int, c: int|
                        0 <= r < orig.row_count as int && 0 <= c < orig.column_count as int
                            ==> #[trigger] self.spec_cell(r, c) == spec_spawn_upto(
                            orig,
                            mino,
                            point,
                            r,
                            c,
                            fr as int,
                            fc as int,
                        ),
                decreases row@.len() - fc,
            {
                let cell = row[fc];
                let ghost before: TetrisBoard = *self;
                if !cell.is_empty() {
                    proof {
                        assert(mino.spec_cells()[fr as int][fc as int] != TetrisCell::Empty);
                    }
                    let br: i64 = (point.y as i64) + (fr as i64);
                    let bc: i64 = (point.x as i64) + (fc as i64);
                    proof {
                        lemma_rowmajor_bound(br as int, bc as int, rows as int, cols as int);
                        assert((br as int) * (cols as int) + (bc as int) < (n as int));
                    }
                    let idx: usize = (br as usize) * (cols as usize) + (bc as usize);
                    self.cells.set(idx, cell);
                    proof {
                        assert forall|r: int, c: int|
                            0 <= r < orig.row_count as int && 0 <= c < orig.column_count as int
                                implies #[trigger] self.spec_cell(r, c) == spec_spawn_upto(
                            orig,
                            mino,
                            point,
                            r,
                            c,
                            fr as int,
                            fc as int + 1,
                        ) by {
                            lemma_rowmajor_bound(r, c, orig.row_count as int,
                                orig.column_count as int);
                            if r * orig.column_count as int + c == idx as int {
                                lemma_rowmajor_injective(orig.column_count as int, r, c,
                                    br as int, bc as int);
                            } else {
                                assert(self.spec_cell(r, c) == before.spec_cell(r, c));
                            }
                        }
                    }
                }
                fc = fc + 1;
            }
            fr = fr + 1;
        }
    }
}

/// The partially spawned grid: footprint slots strictly before row `done_r`,
/// or in row `done_r` before column `done_c`, have been written; the rest of
/// the grid still shows the prior board.
pub open spec fn spec_spawn_upto(
    board: TetrisBoard,
    mino: MinoShape,
    point: Point,
    r: int,
    c: int,
    done_r: int,
    done_c: int,
) -> TetrisCell {
    let fr = r - point.y as int;
    let fc = c - point.x as int;
    if 0 <= fr < mino.spec_cells().len() && 0 <= fc < mino.spec_cells()[fr].len()
        && mino.spec_cells()[fr][fc] != TetrisCell::Empty && (fr < done_r || (fr == done_r && fc
        < done_c)) {
        mino.spec_cells()[fr][fc]
    } else {
        board.spec_cell(r, c)
    }
}

/// Law: a freshly created board flattens to exactly one entry per grid
/// slot, each the `Empty` code.
pub proof fn lemma_fresh_board_flat(board: TetrisBoard)
    requires
        board.wf(),
        board.all_empty(),
    ensures
        board.spec_flat().len() == board.row_count as int * board.column_count as int,
        forall|i: int| 0 <= i < board.spec_flat().len() ==> board.spec_flat()[i] == 0,
{
}

/// Law: flattening reads the grid alone, so two flattenings of one board
/// value, with no mutation between them, are identical.
pub proof fn lemma_flatten_deterministic(board: TetrisBoard, r1: Seq<i32>, r2: Seq<i32>)
    requires
        r1 == board.spec_flat(),
        r2 == board.spec_flat(),
    ensures
        r1 == r2,
{
}

} // verus!
