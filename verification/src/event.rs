//! The closed taxonomy of input events: one tagged union covering mouse,
//! keyboard and window occurrences, created by the platform poller and
//! consumed through the event queue.

use vstd::prelude::*;
use crate::geometry::Point2d;
use crate::geometry::Size2d;

verus! {

/// Enumerates all the possible mouse event types.
#[derive(Debug, Copy, Clone, PartialEq, Eq, Structural)]
pub enum MouseEventType {
    MouseMove,
    MouseDown,
    MouseUp,
    Click,
    DoubleClick,
    HorizontalWheel,
    VerticalWheel,
}

/// Enumerates all the possible keyboard event types.
#[derive(Debug, Copy, Clone, PartialEq, Eq, Structural)]
pub enum KeyboardEventType {
    KeyDown,
    KeyUp,
}

/// Enumerates all the possible window event types.
#[derive(Debug, Copy, Clone, PartialEq, Eq, Structural)]
pub enum WindowEventType {
    WindowMove,
    WindowResize,
    WindowFocus,
    WindowLostFocus,
    WindowClose,
}

/// One mouse occurrence: its kind, the state of all seven buttons, the
/// wheel movement and the pointer position, as the device reported them.
#[derive(Debug, Copy, Clone, PartialEq, Eq, Structural)]
pub struct MouseEvent {
    pub event_type: MouseEventType,
    pub left_button: bool,
    pub middle_button: bool,
    pub right_button: bool,
    pub extra_button_1: bool,
    pub extra_button_2: bool,
    pub extra_button_3: bool,
    pub extra_button_4: bool,
    pub wheel_delta: i16,
    pub position: Point2d,
}

/// One keyboard occurrence: its kind, the key code, the decoded character
/// (a space when the code could not be decoded) and the six modifier
/// flags.
#[derive(Debug, Copy, Clone, PartialEq, Eq, Structural)]
pub struct KeyboardEvent {
    pub event_type: KeyboardEventType,
    pub key: u16,
    pub character: char,
    pub left_shift: bool,
    pub left_control: bool,
    pub left_alt: bool,
    pub right_shift: bool,
    pub right_control: bool,
    pub right_alt: bool,
}

/// One window occurrence: its kind together with the window position and
/// size at that moment.
#[derive(Debug, Copy, Clone, PartialEq, Eq, Structural)]
pub struct WindowEvent {
    pub event_type: WindowEventType,
    pub position: Point2d,
    pub size: Size2d,
}

/// Event object enumeration: one input occurrence of any of the valid
/// kinds.
#[derive(Debug, Copy, Clone, PartialEq, Eq, Structural)]
pub enum Event {
    Mouse(MouseEvent),
    Keyboard(KeyboardEvent),
    Window(WindowEvent),
}

} // verus!
