//! Where the main window goes when the application starts.
//!
//! The caller looks up the display that hosts the window and the window's
//! outer size, and moves the window to the point returned here. Every step
//! of that is best effort: where no position comes back, the window stays
//! where it is.

use vstd::prelude::*;
use crate::geometry::{Extent, Point, Position, Size};
use crate::placement::{
    bottom_left_corner, checked_bottom_left_position, DEFAULT_MARGIN_X, DEFAULT_MARGIN_Y,
};

verus! {

/// A display: the region of virtual-desktop space that it covers.
#[derive(Clone, Copy, Debug, PartialEq, Eq, Structural)]
pub struct Display {
    pub origin: Point,
    pub size: Size,
}

/// The extent used for a window: its outer size, or the empty extent where
/// the size could not be had.
pub open spec fn known_or_empty(window_size: Option<Size>) -> Extent {
    match window_size {
        Some(size) => size@,
        None => Extent { width: 0, height: 0 },
    }
}

/// The placement of the main window at startup: the bottom-left corner of
/// `display` with the default margins.
pub open spec fn startup_target(display: Display, window_size: Option<Size>) -> Position {
    bottom_left_corner(
        display.origin@,
        display.size@,
        known_or_empty(window_size),
        DEFAULT_MARGIN_X as nat,
        DEFAULT_MARGIN_Y as nat,
    )
}

/// Decides where to move the main window at startup.
///
/// `window_size` is `None` where the window's size could not be had; the
/// window then counts as empty. The result is `None`, and the window is to
/// be left alone, exactly where the placement has a coordinate that no
/// `Point` can hold.
pub fn startup_position(display: Display, window_size: Option<Size>) -> (position: Option<Point>)
    ensures
        match position {
            Some(point) => point@ == startup_target(display, window_size),
            None => !startup_target(display, window_size).is_representable(),
        },
{
    let window_size = match window_size {
        Some(size) => size,
        None => Size::default(),
    };
    checked_bottom_left_position(
        display.origin,
        display.size,
        window_size,
        DEFAULT_MARGIN_X,
        DEFAULT_MARGIN_Y,
    )
}

} // verus!
