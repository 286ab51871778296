//! Plain 2-D coordinates and sizes used throughout the engine.

use vstd::prelude::*;

verus! {

/// A position on the cell grid, addressed from the top-left origin.
#[derive(Debug, Copy, Clone, PartialEq, Eq, Structural)]
pub struct Point2d {
    pub x: usize,
    pub y: usize,
}

/// The extent of a rectangular region of cells.
#[derive(Debug, Copy, Clone, PartialEq, Eq, Structural)]
pub struct Size2d {
    pub width: usize,
    pub height: usize,
}

impl Point2d {
    /// Builds a point from its two coordinates.
    pub fn new(x: usize, y: usize) -> (r: Point2d)
        ensures
            r == (Point2d { x, y }),
    {
        Point2d { x, y }
    }

    /// The origin, used as the degenerate-size fallback.
    pub fn empty() -> (r: Point2d)
        ensures
            r == (Point2d { x: 0, y: 0 }),
    {
        Point2d { x: 0, y: 0 }
    }

    /// The same point moved `offset` columns to the right.
    pub fn add_x(self, offset: usize) -> (r: Point2d)
        requires
            self.x + offset <= usize::MAX,
        ensures
            r == (Point2d { x: (self.x + offset) as usize, y: self.y }),
    {
        Point2d { x: self.x + offset, y: self.y }
    }
}

impl Size2d {
    /// Builds a size from its two extents.
    pub fn new(width: usize, height: usize) -> (r: Size2d)
        ensures
            r == (Size2d { width, height }),
    {
        Size2d { width, height }
    }

    /// The zero size.
    pub fn empty() -> (r: Size2d)
        ensures
            r == (Size2d { width: 0, height: 0 }),
    {
        Size2d { width: 0, height: 0 }
    }

    /// Whether the size spans no cells at all.
    pub open spec fn spec_is_empty(self) -> bool {
        self.width == 0 || self.height == 0
    }

    /// A size is degenerate when either extent is zero.
    pub fn is_empty(self) -> (r: bool)
        ensures
            r == self.spec_is_empty(),
    {
        self.width == 0 || self.height == 0
    }
}

} // verus!
