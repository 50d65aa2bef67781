//! Placement of a window in the bottom-left corner of a display.
//!
//! The crate works on pixel geometry in virtual-desktop space: a display is
//! given by its top-left origin and its size, a window by its outer size, and
//! the result is the top-left coordinate at which the window rests against
//! the display's left and bottom edges, inset by two margins. Nothing here
//! queries a display or moves a window; callers hand in plain values and
//! apply the result themselves.

pub mod geometry;
pub mod placement;
pub mod startup;
