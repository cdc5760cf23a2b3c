//! Screen rectangles used for mouse hit-testing of the profile sidebar.

use vstd::prelude::*;

verus! {

/// A rectangle of terminal cells: `x`/`y` is the top-left corner,
/// `width`/`height` its extent in columns and rows.
#[derive(Clone, Copy, Debug, PartialEq, Eq, Structural)]
pub struct Rect {
    pub x: u16,
    pub y: u16,
    pub width: u16,
    pub height: u16,
}

/// A cell position `(column, row)` lies inside a rectangle iff it is within
/// the half-open column range `[x, x + width)` and row range `[y, y + height)`.
pub open spec fn spec_contains(r: Rect, column: u16, row: u16) -> bool {
    &&& r.x <= column < r.x + r.width
    &&& r.y <= row < r.y + r.height
}

impl Rect {
    /// The all-zero rectangle, containing no cell.
    pub fn zero() -> (r: Rect)
        ensures
            r == (Rect { x: 0, y: 0, width: 0, height: 0 }),
    {
        Rect { x: 0, y: 0, width: 0, height: 0 }
    }

    /// Whether the cell at `(column, row)` lies inside this rectangle.
    pub fn contains(&self, column: u16, row: u16) -> (b: bool)
        ensures
            b == spec_contains(*self, column, row),
    {
        column >= self.x && column - self.x < self.width && row >= self.y
            && row - self.y < self.height
    }
}

} // verus!
