//! The bottom-left placement itself: its definition over unbounded integers,
//! the functions that compute it on machine integers, and what holds of it.

use vstd::prelude::*;
use crate::geometry::{Extent, Point, Position, Size};

verus! {

/// The horizontal margin used when the caller names none.
pub const DEFAULT_MARGIN_X: u32 = 20;

/// The vertical margin used when the caller names none.
pub const DEFAULT_MARGIN_Y: u32 = 24;

/// The top-left coordinate at which a window of size `window_size` rests in
/// the bottom-left corner of the display at `display_origin` with size
/// `display_size`: its left edge `margin_x` pixels right of the display's
/// left edge, its bottom edge `margin_y` pixels above the display's bottom
/// edge. A window taller than the display is not clamped: its top edge then
/// lies above the display's.
pub open spec fn bottom_left_corner(
    display_origin: Position,
    display_size: Extent,
    window_size: Extent,
    margin_x: nat,
    margin_y: nat,
) -> Position {
    Position {
        x: display_origin.x + margin_x,
        y: display_origin.y + display_size.height - window_size.height - margin_y,
    }
}

/// Computes the bottom-left placement of a window on a display.
///
/// The placement must be representable as a `Point`; use
/// [`checked_bottom_left_position`] where that is not known.
pub fn compute_bottom_left_position(
    display_origin: Point,
    display_size: Size,
    window_size: Size,
    margin_x: u32,
    margin_y: u32,
) -> (position: Point)
    requires
        bottom_left_corner(
            display_origin@,
            display_size@,
            window_size@,
            margin_x as nat,
            margin_y as nat,
        ).is_representable(),
    ensures
        position@ == bottom_left_corner(
            display_origin@,
            display_size@,
            window_size@,
            margin_x as nat,
            margin_y as nat,
        ),
        position.x == display_origin.x + margin_x,
        position.y + window_size.height + margin_y == display_origin.y + display_size.height,
{
    let x: i64 = display_origin.x as i64 + margin_x as i64;
    let y: i64 = display_origin.y as i64 + display_size.height as i64 - window_size.height as i64
        - margin_y as i64;
    Point { x: x as i32, y: y as i32 }
}

/// Computes the bottom-left placement of a window on a display, or `None`
/// where a coordinate of it does not fit a `Point`.
pub fn checked_bottom_left_position(
    display_origin: Point,
    display_size: Size,
    window_size: Size,
    margin_x: u32,
    margin_y: u32,
) -> (position: Option<Point>)
    ensures
        match position {
            Some(point) => point@ == bottom_left_corner(
                display_origin@,
                display_size@,
                window_size@,
                margin_x as nat,
                margin_y as nat,
            ),
            None => !bottom_left_corner(
                display_origin@,
                display_size@,
                window_size@,
                margin_x as nat,
                margin_y as nat,
            ).is_representable(),
        },
{
    let x: i64 = display_origin.x as i64 + margin_x as i64;
    let y: i64 = display_origin.y as i64 + display_size.height as i64 - window_size.height as i64
        - margin_y as i64;
    if x > i32::MAX as i64 || y < i32::MIN as i64 || y > i32::MAX as i64 {
        None
    } else {
        Some(Point { x: x as i32, y: y as i32 })
    }
}

/// Everything one placement depends on, gathered in one value.
#[derive(Clone, Copy, Debug, PartialEq, Eq, Structural)]
pub struct PlacementRequest {
    pub display_origin: Point,
    pub display_size: Size,
    pub window_size: Size,
    pub margin_x: u32,
    pub margin_y: u32,
}

impl PlacementRequest {
    /// The placement that this request asks for.
    pub open spec fn target(&self) -> Position {
        bottom_left_corner(
            self.display_origin@,
            self.display_size@,
            self.window_size@,
            self.margin_x as nat,
            self.margin_y as nat,
        )
    }

    /// A request with the default margins.
    pub fn new(display_origin: Point, display_size: Size, window_size: Size) -> (request: Self)
        ensures
            request == (PlacementRequest {
                display_origin,
                display_size,
                window_size,
                margin_x: DEFAULT_MARGIN_X,
                margin_y: DEFAULT_MARGIN_Y,
            }),
    {
        PlacementRequest {
            display_origin,
            display_size,
            window_size,
            margin_x: DEFAULT_MARGIN_X,
            margin_y: DEFAULT_MARGIN_Y,
        }
    }

    /// The same request with the given margins in place of its own.
    pub fn with_margins(self, margin_x: u32, margin_y: u32) -> (request: Self)
        ensures
            request == (PlacementRequest { margin_x, margin_y, ..self }),
    {
        PlacementRequest { margin_x, margin_y, ..self }
    }

    /// The placement, which must be representable as a `Point`.
    pub fn position(&self) -> (position: Point)
        requires
            self.target().is_representable(),
        ensures
            position@ == self.target(),
    {
        compute_bottom_left_position(
            self.display_origin,
            self.display_size,
            self.window_size,
            self.margin_x,
            self.margin_y,
        )
    }

    /// The placement, or `None` where a coordinate of it does not fit a
    /// `Point`.
    pub fn checked_position(&self) -> (position: Option<Point>)
        ensures
            match position {
                Some(point) => point@ == self.target(),
                None => !self.target().is_representable(),
            },
    {
        checked_bottom_left_position(
            self.display_origin,
            self.display_size,
            self.window_size,
            self.margin_x,
            self.margin_y,
        )
    }
}

/// Translation equivariance: moving the display by `(dx, dy)` moves the
/// placement by `(dx, dy)`, whatever the sizes and margins.
pub proof fn lemma_placement_follows_display(
    display_origin: Position,
    display_size: Extent,
    window_size: Extent,
    margin_x: nat,
    margin_y: nat,
    dx: int,
    dy: int,
)
    ensures
        bottom_left_corner(
            display_origin.translate(dx, dy),
            display_size,
            window_size,
            margin_x,
            margin_y,
        ) == bottom_left_corner(
            display_origin,
            display_size,
            window_size,
            margin_x,
            margin_y,
        ).translate(dx, dy),
{
}

/// Determinism: the arguments fix the result. Any two points that meet the
/// contract of [`compute_bottom_left_position`] for the same arguments are
/// the same point, so repeated calls cannot disagree.
pub proof fn lemma_placement_is_determined(
    first: Point,
    second: Point,
    display_origin: Point,
    display_size: Size,
    window_size: Size,
    margin_x: u32,
    margin_y: u32,
)
    requires
        first@ == bottom_left_corner(
            display_origin@,
            display_size@,
            window_size@,
            margin_x as nat,
            margin_y as nat,
        ),
        second@ == bottom_left_corner(
            display_origin@,
            display_size@,
            window_size@,
            margin_x as nat,
            margin_y as nat,
        ),
    ensures
        first == second,
{
}

} // verus!
