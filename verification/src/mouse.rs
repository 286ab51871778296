//! The mouse collaborator interface and the packed button-mask tests.

use vstd::prelude::*;
use crate::geometry::Point2d;

verus! {

/// The bit of the left button in a packed button mask.
pub const LEFT_BUTTON: u8 = 0b0001;

/// The bit of the middle button in a packed button mask.
pub const MIDDLE_BUTTON: u8 = 0b0010;

/// The bit of the right button in a packed button mask.
pub const RIGHT_BUTTON: u8 = 0b0100;

/// The platform mouse device. Implementations live in the platform
/// binding outside this crate; every fallible call surfaces one opaque
/// failure message that the frame loop treats as fatal.
pub trait Mouse {
    /// Gets the absolute mouse position.
    fn get_absolute_position(&self) -> Result<Point2d, &'static str>;

    /// Gets the mouse position in relation to the client window.
    fn get_client_position(&self) -> Result<Point2d, &'static str>;

    /// Sets the mouse position.
    fn set_position(&self, position: Point2d) -> Result<(), &'static str>;

    /// Shows or hides the mouse cursor.
    fn show_cursor(&self, visible: bool) -> Result<(), &'static str>;
}

/// Indicates if a mouse button is pressed in a packed button mask.
pub fn is_button_pressed(event_button: u8, button: u8) -> (r: bool)
    ensures
        r == ((event_button & button) != 0),
{
    event_button & button != 0
}

/// Indicates if the left mouse button is pressed.
pub fn is_left_button_pressed(event_button: u8) -> (r: bool)
    ensures
        r == ((event_button & LEFT_BUTTON) != 0),
{
    is_button_pressed(event_button, LEFT_BUTTON)
}

/// Indicates if the middle mouse button is pressed.
pub fn is_middle_button_pressed(event_button: u8) -> (r: bool)
    ensures
        r == ((event_button & MIDDLE_BUTTON) != 0),
{
    is_button_pressed(event_button, MIDDLE_BUTTON)
}

/// Indicates if the right mouse button is pressed.
pub fn is_right_button_pressed(event_button: u8) -> (r: bool)
    ensures
        r == ((event_button & RIGHT_BUTTON) != 0),
{
    is_button_pressed(event_button, RIGHT_BUTTON)
}

} // verus!
