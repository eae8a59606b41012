//! A 2D integer coordinate giving a piece's anchor on the board, and the
//! canonical spawn position.

use vstd::prelude::*;

verus! {

/// A board coordinate: `x` is the column, `y` is the row. Either may lie
/// outside the board; the placement validator is the sole bounds gate.
#[derive(Clone, Copy, Debug, PartialEq, Eq, Structural)]
pub struct Point {
    pub x: i32,
    pub y: i32,
}

impl Point {
    /// The canonical spawn anchor: horizontally centered for a footprint up
    /// to four cells wide, at the top row.
    pub open spec fn spec_start_point(column_count: u32) -> Point {
        Point { x: (column_count as int / 2 - 2) as i32, y: 0 }
    }

    /// Computes the canonical spawn position from the column count alone.
    pub fn start_point(column_count: u32) -> (r: Point)
        ensures
            r == Self::spec_start_point(column_count),
    {
        let half: u32 = column_count / 2;
        Point { x: (half as i32) - 2, y: 0 }
    }
}

impl Default for Point {
    /// The origin, used before any piece has spawned.
    fn default() -> (r: Self)
        ensures
            r == (Point { x: 0, y: 0 }),
    {
        Point { x: 0, y: 0 }
    }
}

} // verus!
