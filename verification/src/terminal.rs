//! Coordinates on the terminal grid.

use vstd::prelude::*;

verus! {

/// The difference `a - b`, or zero where `b` is the larger.
pub open spec fn monus(a: int, b: int) -> int {
    if a >= b {
        a - b
    } else {
        0
    }
}

/// A cell of a grid of character cells, counted from the top-left corner.
#[derive(Debug, Clone, Copy, PartialEq, Eq, Structural)]
pub struct ScreenPosition {
    pub col: usize,
    pub row: usize,
}

impl ScreenPosition {
    /// The offset of `self` from `other`, component by component; a component
    /// that lies before `other`'s is taken as zero.
    pub fn subtract(&self, other: &Self) -> (diff: Self)
        ensures
            diff.col == monus(self.col as int, other.col as int),
            diff.row == monus(self.row as int, other.row as int),
    {
        Self { col: self.col.saturating_sub(other.col), row: self.row.saturating_sub(other.row) }
    }
}

impl Default for ScreenPosition {
    fn default() -> (origin: Self)
        ensures
            origin == (ScreenPosition { col: 0, row: 0 }),
    {
        Self { col: 0, row: 0 }
    }
}

/// The extent of a viewport in character cells.
#[derive(Debug, Clone, Copy, PartialEq, Eq, Structural)]
pub struct Size {
    pub width: usize,
    pub height: usize,
}

impl Default for Size {
    fn default() -> (empty: Self)
        ensures
            empty == (Size { width: 0, height: 0 }),
    {
        Self { width: 0, height: 0 }
    }
}

} // verus!
