//! Points and sizes in pixels, and the unbounded values that stand for them
//! in contracts.

use vstd::prelude::*;

verus! {

/// A pixel coordinate in virtual-desktop space, over the mathematical
/// integers. Contracts are stated on this type, so that sums of coordinates
/// and sizes never wrap.
pub struct Position {
    pub x: int,
    pub y: int,
}

impl Position {
    /// The position moved by `dx` to the right and `dy` down.
    pub open spec fn translate(self, dx: int, dy: int) -> Position {
        Position { x: self.x + dx, y: self.y + dy }
    }

    /// Whether both coordinates fit a `Point`, that is, whether the position
    /// is the view of some point.
    pub open spec fn is_representable(self) -> bool {
        &&& i32::MIN <= self.x <= i32::MAX
        &&& i32::MIN <= self.y <= i32::MAX
    }
}

/// Pixel dimensions over the natural numbers.
pub struct Extent {
    pub width: nat,
    pub height: nat,
}

/// A pixel coordinate in virtual-desktop space. Coordinates are negative on a
/// display that lies left of or above the primary one.
#[derive(Clone, Copy, Debug, PartialEq, Eq, Structural)]
pub struct Point {
    pub x: i32,
    pub y: i32,
}

impl View for Point {
    type V = Position;

    open spec fn view(&self) -> Position {
        Position { x: self.x as int, y: self.y as int }
    }
}

impl Point {
    pub fn new(x: i32, y: i32) -> (point: Point)
        ensures
            point.x == x,
            point.y == y,
    {
        Point { x, y }
    }
}

/// The pixel dimensions of a display, or the outer dimensions of a window.
#[derive(Clone, Copy, Debug, PartialEq, Eq, Structural)]
pub struct Size {
    pub width: u32,
    pub height: u32,
}

impl View for Size {
    type V = Extent;

    open spec fn view(&self) -> Extent {
        Extent { width: self.width as nat, height: self.height as nat }
    }
}

impl Size {
    pub fn new(width: u32, height: u32) -> (size: Size)
        ensures
            size.width == width,
            size.height == height,
    {
        Size { width, height }
    }
}

impl Default for Size {
    /// The empty size, which stands in for a window whose size is unknown.
    fn default() -> (size: Size)
        ensures
            size.width == 0,
            size.height == 0,
    {
        Size { width: 0, height: 0 }
    }
}

} // verus!
