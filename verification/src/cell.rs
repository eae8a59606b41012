//! The occupancy state of a single grid slot, with its integer code and its
//! presentation color.

use vstd::prelude::*;

verus! {

/// One grid slot: empty, the preview shade, or one of the seven piece
/// colors. A value type, copied freely.
#[derive(Clone, Copy, Debug, PartialEq, Eq, Structural)]
pub enum TetrisCell {
    Empty,
    Shadow,
    Red,
    Green,
    Blue,
    Purple,
    Cyan,
    Orange,
    Yellow,
}

impl TetrisCell {
    /// The canonical integer code of each variant, in the range 0..=8.
    pub open spec fn spec_code(self) -> i32 {
        match self {
            TetrisCell::Empty => 0,
            TetrisCell::Red => 1,
            TetrisCell::Green => 2,
            TetrisCell::Blue => 3,
            TetrisCell::Purple => 4,
            TetrisCell::Cyan => 5,
            TetrisCell::Orange => 6,
            TetrisCell::Yellow => 7,
            TetrisCell::Shadow => 8,
        }
    }

    /// The partial inverse of `spec_code`: defined exactly on 0..=8.
    pub open spec fn spec_from_code(code: i32) -> Option<TetrisCell> {
        if code == 0 {
            Some(TetrisCell::Empty)
        } else if code == 1 {
            Some(TetrisCell::Red)
        } else if code == 2 {
            Some(TetrisCell::Green)
        } else if code == 3 {
            Some(TetrisCell::Blue)
        } else if code == 4 {
            Some(TetrisCell::Purple)
        } else if code == 5 {
            Some(TetrisCell::Cyan)
        } else if code == 6 {
            Some(TetrisCell::Orange)
        } else if code == 7 {
            Some(TetrisCell::Yellow)
        } else if code == 8 {
            Some(TetrisCell::Shadow)
        } else {
            None
        }
    }

    /// True exactly on the `Empty` variant.
    pub fn is_empty(&self) -> (r: bool)
        ensures
            r == (*self == TetrisCell::Empty),
    {
        *self == TetrisCell::Empty
    }

    /// Encodes this cell as its canonical integer code.
    pub fn into_code(&self) -> (r: i32)
        ensures
            r == self.spec_code(),
            0 <= r <= 8,
    {
        match self {
            TetrisCell::Empty => 0,
            TetrisCell::Red => 1,
            TetrisCell::Green => 2,
            TetrisCell::Blue => 3,
            TetrisCell::Purple => 4,
            TetrisCell::Cyan => 5,
            TetrisCell::Orange => 6,
            TetrisCell::Yellow => 7,
            TetrisCell::Shadow => 8,
        }
    }

    /// Decodes an integer code; codes outside 0..=8 are rejected, never
    /// silently mapped.
    pub fn from_code(code: i32) -> (r: Option<TetrisCell>)
        ensures
            r == Self::spec_from_code(code),
            (0 <= code <= 8) <==> r is Some,
            r is Some ==> r->0.spec_code() == code,
    {
        match code {
            0 => Some(TetrisCell::Empty),
            1 => Some(TetrisCell::Red),
            2 => Some(TetrisCell::Green),
            3 => Some(TetrisCell::Blue),
            4 => Some(TetrisCell::Purple),
            5 => Some(TetrisCell::Cyan),
            6 => Some(TetrisCell::Orange),
            7 => Some(TetrisCell::Yellow),
            8 => Some(TetrisCell::Shadow),
            _ => None,
        }
    }

    /// The presentation string of each variant, for the external renderer.
    pub open spec fn spec_color(self) -> Seq<char> {
        match self {
            TetrisCell::Empty => "white"@,
            TetrisCell::Red => "#f44336"@,
            TetrisCell::Green => "#53c858"@,
            TetrisCell::Blue => "#2157f3"@,
            TetrisCell::Purple => "#673ab7"@,
            TetrisCell::Cyan => "#32f6de"@,
            TetrisCell::Orange => "#ff9800"@,
            TetrisCell::Yellow => "#ffeb3b"@,
            TetrisCell::Shadow => "#697994"@,
        }
    }

    /// The presentation color, total over every variant.
    pub fn to_color(&self) -> (r: &'static str)
        ensures
            r@ == self.spec_color(),
    {
        match self {
            TetrisCell::Empty => "white",
            TetrisCell::Red => "#f44336",
            TetrisCell::Green => "#53c858",
            TetrisCell::Blue => "#2157f3",
            TetrisCell::Purple => "#673ab7",
            TetrisCell::Cyan => "#32f6de",
            TetrisCell::Orange => "#ff9800",
            TetrisCell::Yellow => "#ffeb3b",
            TetrisCell::Shadow => "#697994",
        }
    }
}

impl Default for TetrisCell {
    /// The zero value of a grid slot is `Empty`.
    fn default() -> (r: Self)
        ensures
            r == TetrisCell::Empty,
    {
        TetrisCell::Empty
    }
}

/// Law: encoding any cell and decoding the code returns the same cell.
pub proof fn lemma_cell_round_trip(cell: TetrisCell)
    ensures
        TetrisCell::spec_from_code(cell.spec_code()) == Some(cell),
{
}

/// Law: decoding succeeds exactly on codes 0..=8, and the decoded cell
/// encodes back to the same code; every other code is rejected.
pub proof fn lemma_cell_code_round_trip(code: i32)
    ensures
        0 <= code <= 8 ==> TetrisCell::spec_from_code(code) is Some
            && TetrisCell::spec_from_code(code)->0.spec_code() == code,
        !(0 <= code <= 8) ==> TetrisCell::spec_from_code(code) is None,
{
}

} // verus!
