//! The seven piece shapes and the immutable catalog they form.

use vstd::prelude::*;

use crate::cell::TetrisCell;

verus! {

/// One of the seven named falling-block shapes. An immutable value
/// descriptor; a shape resolves to a small matrix of cells, its footprint.
#[derive(Clone, Copy, Debug, PartialEq, Eq, Structural)]
pub enum MinoShape {
    I,
    J,
    L,
    O,
    S,
    T,
    Z,
}

impl MinoShape {
    /// The footprint of each shape: a matrix of cells, row-major, with the
    /// shape's own color in its occupied slots.
    pub open spec fn spec_cells(self) -> Seq<Seq<TetrisCell>> {
        match self {
            MinoShape::I => seq![
                seq![TetrisCell::Cyan, TetrisCell::Cyan, TetrisCell::Cyan, TetrisCell::Cyan],
            ],
            MinoShape::J => seq![
                seq![TetrisCell::Blue, TetrisCell::Empty, TetrisCell::Empty],
                seq![TetrisCell::Blue, TetrisCell::Blue, TetrisCell::Blue],
            ],
            MinoShape::L => seq![
                seq![TetrisCell::Empty, TetrisCell::Empty, TetrisCell::Orange],
                seq![TetrisCell::Orange, TetrisCell::Orange, TetrisCell::Orange],
            ],
            MinoShape::O => seq![
                seq![TetrisCell::Yellow, TetrisCell::Yellow],
                seq![TetrisCell::Yellow, TetrisCell::Yellow],
            ],
            MinoShape::S => seq![
                seq![TetrisCell::Empty, TetrisCell::Green, TetrisCell::Green],
                seq![TetrisCell::Green, TetrisCell::Green, TetrisCell::Empty],
            ],
            MinoShape::T => seq![
                seq![TetrisCell::Empty, TetrisCell::Purple, TetrisCell::Empty],
                seq![TetrisCell::Purple, TetrisCell::Purple, TetrisCell::Purple],
            ],
            MinoShape::Z => seq![
                seq![TetrisCell::Red, TetrisCell::Red, TetrisCell::Empty],
                seq![TetrisCell::Empty, TetrisCell::Red, TetrisCell::Red],
            ],
        }
    }

    /// Every footprint is at most two rows tall and four columns wide, and
    /// is never wider than the board region the spawn anchor reserves.
    pub proof fn lemma_footprint_bounds(self)
        ensures
            1 <= self.spec_cells().len() <= 2,
            forall|r: int|
                0 <= r < self.spec_cells().len() ==> 1 <= #[trigger] self.spec_cells()[r].len()
                    <= 4,
    {
        match self {
            MinoShape::I => {
                assert(self.spec_cells().len() == 1);
                assert(self.spec_cells()[0].len() == 4);
            },
            _ => {
                assert(self.spec_cells().len() == 2);
                assert(self.spec_cells()[0].len() <= 4);
                assert(self.spec_cells()[1].len() <= 4);
            },
        }
    }

    /// The canonical integer code of each shape, following the catalog
    /// order.
    pub open spec fn spec_code(self) -> i32 {
        match self {
            MinoShape::I => 0,
            MinoShape::L => 1,
            MinoShape::J => 2,
            MinoShape::S => 3,
            MinoShape::Z => 4,
            MinoShape::O => 5,
            MinoShape::T => 6,
        }
    }

    /// The partial inverse of `spec_code`: defined exactly on 0..=6.
    pub open spec fn spec_from_code(code: i32) -> Option<MinoShape> {
        if code == 0 {
            Some(MinoShape::I)
        } else if code == 1 {
            Some(MinoShape::L)
        } else if code == 2 {
            Some(MinoShape::J)
        } else if code == 3 {
            Some(MinoShape::S)
        } else if code == 4 {
            Some(MinoShape::Z)
        } else if code == 5 {
            Some(MinoShape::O)
        } else if code == 6 {
            Some(MinoShape::T)
        } else {
            None
        }
    }

    /// Encodes this shape as its integer code, for preview hand-offs.
    pub fn into_code(&self) -> (r: i32)
        ensures
            r == self.spec_code(),
            0 <= r <= 6,
    {
        match self {
            MinoShape::I => 0,
            MinoShape::L => 1,
            MinoShape::J => 2,
            MinoShape::S => 3,
            MinoShape::Z => 4,
            MinoShape::O => 5,
            MinoShape::T => 6,
        }
    }

    /// Decodes a shape code; codes outside 0..=6 are rejected.
    pub fn from_code(code: i32) -> (r: Option<MinoShape>)
        ensures
            r == Self::spec_from_code(code),
            (0 <= code <= 6) <==> r is Some,
            r is Some ==> r->0.spec_code() == code,
    {
        match code {
            0 => Some(MinoShape::I),
            1 => Some(MinoShape::L),
            2 => Some(MinoShape::J),
            3 => Some(MinoShape::S),
            4 => Some(MinoShape::Z),
            5 => Some(MinoShape::O),
            6 => Some(MinoShape::T),
            _ => None,
        }
    }

    /// The footprint matrix of this shape, for board placement and preview
    /// rendering.
    pub fn cells(&self) -> (r: Vec<Vec<TetrisCell>>)
        ensures
            r@.len() == self.spec_cells().len(),
            forall|i: int| 0 <= i < r@.len() ==> #[trigger] r@[i]@ == self.spec_cells()[i],
    {
        let r: Vec<Vec<TetrisCell>> = match self {
            MinoShape::I => vec![
                vec![TetrisCell::Cyan, TetrisCell::Cyan, TetrisCell::Cyan, TetrisCell::Cyan],
            ],
            MinoShape::J => vec![
                vec![TetrisCell::Blue, TetrisCell::Empty, TetrisCell::Empty],
                vec![TetrisCell::Blue, TetrisCell::Blue, TetrisCell::Blue],
            ],
            MinoShape::L => vec![
                vec![TetrisCell::Empty, TetrisCell::Empty, TetrisCell::Orange],
                vec![TetrisCell::Orange, TetrisCell::Orange, TetrisCell::Orange],
            ],
            MinoShape::O => vec![
                vec![TetrisCell::Yellow, TetrisCell::Yellow],
                vec![TetrisCell::Yellow, TetrisCell::Yellow],
            ],
            MinoShape::S => vec![
                vec![TetrisCell::Empty, TetrisCell::Green, TetrisCell::Green],
                vec![TetrisCell::Green, TetrisCell::Green, TetrisCell::Empty],
            ],
            MinoShape::T => vec![
                vec![TetrisCell::Empty, TetrisCell::Purple, TetrisCell::Empty],
                vec![TetrisCell::Purple, TetrisCell::Purple, TetrisCell::Purple],
            ],
            MinoShape::Z => vec![
                vec![TetrisCell::Red, TetrisCell::Red, TetrisCell::Empty],
                vec![TetrisCell::Empty, TetrisCell::Red, TetrisCell::Red],
            ],
        };
        proof {
            assert forall|i: int| 0 <= i < r@.len() implies #[trigger] r@[i]@
                == self.spec_cells()[i] by {
                assert(r@[i]@ =~= self.spec_cells()[i]);
            }
        }
        r
    }
}

/// The fixed catalog order the session is built with.
pub open spec fn catalog_seq() -> Seq<MinoShape> {
    seq![
        MinoShape::I,
        MinoShape::L,
        MinoShape::J,
        MinoShape::S,
        MinoShape::Z,
        MinoShape::O,
        MinoShape::T,
    ]
}

/// Builds the catalog of all seven shapes, in the fixed order.
pub fn catalog() -> (r: Vec<MinoShape>)
    ensures
        r@ == catalog_seq(),
{
    let r: Vec<MinoShape> = vec![
        MinoShape::I,
        MinoShape::L,
        MinoShape::J,
        MinoShape::S,
        MinoShape::Z,
        MinoShape::O,
        MinoShape::T,
    ];
    proof {
        assert(r@ =~= catalog_seq());
    }
    r
}

} // verus!
