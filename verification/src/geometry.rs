//! Integer screen geometry.
//!
//! Rectangles and pointer positions are measured in whole logical units.
//! Coordinates are kept inside a generous band so that the frame
//! computations (adding a title-bar height or an inset) cannot overflow.

use vstd::prelude::*;

verus! {

/// Largest coordinate magnitude the geometry accepts; far beyond any
/// realistic screen, but small enough that offsetting by the fixed frame
/// constants stays inside `i64`.
pub const COORD_LIMIT: i64 = 0x1_0000_0000;

/// A pointer position in logical units.
#[derive(Clone, Copy, Debug, PartialEq, Eq, Structural)]
pub struct Pos {
    pub x: i64,
    pub y: i64,
}

impl Pos {
    /// The position is inside the coordinate band.
    pub open spec fn wf(self) -> bool {
        -COORD_LIMIT <= self.x <= COORD_LIMIT && -COORD_LIMIT <= self.y <= COORD_LIMIT
    }
}

/// An axis-aligned rectangle in logical units, given by its edges.
#[derive(Clone, Copy, Debug, PartialEq, Eq, Structural)]
pub struct Rect {
    pub left: i64,
    pub top: i64,
    pub right: i64,
    pub bottom: i64,
}

impl Rect {
    /// The edges are ordered and inside the coordinate band.
    pub open spec fn wf(self) -> bool {
        &&& -COORD_LIMIT <= self.left <= self.right <= COORD_LIMIT
        &&& -COORD_LIMIT <= self.top <= self.bottom <= COORD_LIMIT
    }

    pub open spec fn width(self) -> int {
        self.right - self.left
    }

    pub open spec fn height(self) -> int {
        self.bottom - self.top
    }

    /// A new rectangle from its four edges.
    pub fn new(left: i64, top: i64, right: i64, bottom: i64) -> (r: Rect)
        ensures
            r == (Rect { left, top, right, bottom }),
    {
        Rect { left, top, right, bottom }
    }
}

} // verus!
