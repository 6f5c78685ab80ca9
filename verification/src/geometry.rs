//! Geometry primitives: positions, extents and rectangles in layout
//! coordinates, and the edge bits of an interactive resize.

use vstd::prelude::*;

verus! {

/// Signed position of a surface's top-left corner in layout coordinates.
#[derive(Clone, Copy, Debug, PartialEq, Eq, Structural)]
pub struct Origin {
    pub x: i32,
    pub y: i32,
}

impl Origin {
    pub fn new(x: i32, y: i32) -> (r: Origin)
        ensures
            r == (Origin { x, y }),
    {
        Origin { x, y }
    }
}

/// Unsigned extent of a surface.
#[derive(Clone, Copy, Debug, PartialEq, Eq, Structural)]
pub struct Size {
    pub width: u32,
    pub height: u32,
}

impl Size {
    pub fn new(width: u32, height: u32) -> (r: Size)
        ensures
            r == (Size { width, height }),
    {
        Size { width, height }
    }
}

/// A rectangle: the target geometry carried by a configure request.
#[derive(Clone, Copy, Debug, PartialEq, Eq, Structural)]
pub struct Area {
    pub origin: Origin,
    pub size: Size,
}

impl Area {
    pub fn new(origin: Origin, size: Size) -> (r: Area)
        ensures
            r == (Area { origin, size }),
    {
        Area { origin, size }
    }
}

/// Edge bit of an interactive resize: the top edge is being dragged.
pub const EDGE_TOP: u32 = 1;

/// Edge bit of an interactive resize: the bottom edge is being dragged.
pub const EDGE_BOTTOM: u32 = 2;

/// Edge bit of an interactive resize: the left edge is being dragged.
pub const EDGE_LEFT: u32 = 4;

/// Edge bit of an interactive resize: the right edge is being dragged.
pub const EDGE_RIGHT: u32 = 8;

} // verus!
