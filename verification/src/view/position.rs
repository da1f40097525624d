//! Character-cell coordinates.

use vstd::prelude::*;

verus! {

/// A cell of the viewport: row and column, both counted from zero.
#[derive(Clone, Copy, Debug, PartialEq, Eq, Structural)]
pub struct Position {
    pub line: usize,
    pub offset: usize,
}

/// A cell of the unbounded plane. Layout arithmetic is stated here, where a
/// centered block may start above or left of the viewport.
pub struct Cell {
    pub line: int,
    pub offset: int,
}

impl View for Position {
    type V = Cell;

    open spec fn view(&self) -> Cell {
        Cell { line: self.line as int, offset: self.offset as int }
    }
}

impl Cell {
    /// Whether the cell lies inside a viewport of the given size.
    pub open spec fn within(self, height: nat, width: nat) -> bool {
        0 <= self.line < height && 0 <= self.offset < width
    }
}

impl Position {
    /// Whether the position lies inside a viewport of the given size.
    pub fn within(&self, height: usize, width: usize) -> (inside: bool)
        ensures
            inside == self@.within(height as nat, width as nat),
    {
        self.line < height && self.offset < width
    }
}

} // verus!
