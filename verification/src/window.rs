//! The window collaborator interface.

use vstd::prelude::*;
use crate::geometry::Point2d;
use crate::geometry::Size2d;

verus! {

/// The platform window. Implementations live in the platform binding
/// outside this crate; every fallible call surfaces one opaque failure
/// message that the frame loop treats as fatal.
pub trait Window {
    /// Gets the window client area size.
    fn get_window_client_size(&self) -> Result<Size2d, &'static str>;

    /// Gets the window size.
    fn get_window_size(&self) -> Result<Size2d, &'static str>;

    /// Sets the window size.
    fn set_window_size(&self, size: Size2d) -> Result<(), &'static str>;

    /// Gets the window position.
    fn get_window_position(&self) -> Result<Point2d, &'static str>;

    /// Sets the window position.
    fn set_window_position(&self, position: Point2d) -> Result<(), &'static str>;
}

} // verus!
