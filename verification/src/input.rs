//! Translation of raw platform input records into typed events. The
//! platform poller reads the raw records and hands their plain fields to
//! these decoders; unrecognized record kinds produce no event at all.

use vstd::prelude::*;
use crate::event::Event;
use crate::event::KeyboardEvent;
use crate::event::KeyboardEventType;
use crate::event::MouseEvent;
use crate::event::MouseEventType;
use crate::event::WindowEvent;
use crate::event::WindowEventType;
use crate::geometry::Point2d;
use crate::geometry::Size2d;

verus! {

/// The record flag of a mouse-move occurrence.
pub const MOUSE_MOVED: u32 = 0x0001;

/// The record flag of a double click.
pub const DOUBLE_CLICK: u32 = 0x0002;

/// The record flag of a vertical wheel movement.
pub const MOUSE_WHEELED: u32 = 0x0004;

/// The record flag of a horizontal wheel movement.
pub const MOUSE_HWHEELED: u32 = 0x0008;

/// The button-state bit of the leftmost mouse button.
pub const FROM_LEFT_1ST_BUTTON_PRESSED: u32 = 0x0001;

/// The button-state bit of the rightmost mouse button.
pub const RIGHTMOST_BUTTON_PRESSED: u32 = 0x0002;

/// The button-state bit of the second button from the left.
pub const FROM_LEFT_2ND_BUTTON_PRESSED: u32 = 0x0004;

/// The button-state bit of the third button from the left.
pub const FROM_LEFT_3RD_BUTTON_PRESSED: u32 = 0x0008;

/// The button-state bit of the fourth button from the left.
pub const FROM_LEFT_4TH_BUTTON_PRESSED: u32 = 0x0010;

/// The control-key bit of the right alt key.
pub const RIGHT_ALT_PRESSED: u32 = 0x0001;

/// The control-key bit of the left alt key.
pub const LEFT_ALT_PRESSED: u32 = 0x0002;

/// The control-key bit of the right control key.
pub const RIGHT_CTRL_PRESSED: u32 = 0x0004;

/// The control-key bit of the left control key.
pub const LEFT_CTRL_PRESSED: u32 = 0x0008;

/// Relies on char::from_u32: it returns the character with the given code
/// exactly when the code is a Unicode scalar value, that is below the
/// surrogate range or between its end and the largest code point.
pub assume_specification[ char::from_u32 ](i: u32) -> (r: Option<char>)
    ensures
        r is Some <==> (i < 0xD800 || (0xE000 <= i && i <= 0x10FFFF)),
        r matches Some(c) ==> c as u32 == i,
;

/// The signed wheel movement packed into the high half of a raw
/// button-state word.
pub open spec fn spec_wheel_delta(button_state: u32) -> int {
    let hw = (button_state >> 16) as int;
    if hw < 0x8000 {
        hw
    } else {
        hw - 0x10000
    }
}

/// Extracts the wheel movement from a raw button-state word: its high
/// half read as a signed sixteen-bit value.
pub fn get_wheel_delta(button_state: u32) -> (r: i16)
    ensures
        r as int == spec_wheel_delta(button_state),
{
    let hw: u32 = button_state >> 16;
    proof {
        assert(hw < 0x10000) by (bit_vector)
            requires
                hw == button_state >> 16,
        ;
    }
    if hw < 0x8000 {
        hw as i16
    } else {
        let magnitude: i32 = 0x10000 - (hw as i32);
        (-magnitude) as i16
    }
}

/// Decodes a character code, degrading silently to a space when the code
/// is no Unicode scalar value.
pub fn get_char_from_u16(unicode: u16) -> (r: char)
    ensures
        !(0xD800 <= unicode < 0xE000) ==> r as u32 == unicode,
        0xD800 <= unicode < 0xE000 ==> r == ' ',
{
    match char::from_u32(unicode as u32) {
        Some(character) => character,
        None => ' ',
    }
}

/// The event kind a raw mouse-record flag word denotes; a flag no kind
/// matches falls back to a mouse move.
pub open spec fn spec_mouse_event_type(event_flags: u32) -> MouseEventType {
    if event_flags == 0 {
        MouseEventType::Click
    } else if event_flags == MOUSE_MOVED {
        MouseEventType::MouseMove
    } else if event_flags == MOUSE_WHEELED {
        MouseEventType::HorizontalWheel
    } else if event_flags == MOUSE_HWHEELED {
        MouseEventType::VerticalWheel
    } else if event_flags == DOUBLE_CLICK {
        MouseEventType::DoubleClick
    } else {
        MouseEventType::MouseMove
    }
}

/// Builds a mouse event from the plain fields of a raw mouse record: the
/// flag word, the button-state word and the reported position. Only five
/// buttons arrive in the raw word, so both extra rear buttons decode as
/// released.
pub fn decode_mouse_event(event_flags: u32, button_state: u32, x: usize, y: usize) -> (r:
    MouseEvent)
    ensures
        r.event_type == spec_mouse_event_type(event_flags),
        r.left_button == ((button_state & FROM_LEFT_1ST_BUTTON_PRESSED) != 0),
        r.middle_button == ((button_state & FROM_LEFT_2ND_BUTTON_PRESSED) != 0),
        r.right_button == ((button_state & RIGHTMOST_BUTTON_PRESSED) != 0),
        r.extra_button_1 == ((button_state & FROM_LEFT_3RD_BUTTON_PRESSED) != 0),
        r.extra_button_2 == ((button_state & FROM_LEFT_4TH_BUTTON_PRESSED) != 0),
        !r.extra_button_3,
        !r.extra_button_4,
        r.wheel_delta as int == spec_wheel_delta(button_state),
        r.position == (Point2d { x, y }),
{
    let event_type = if event_flags == 0 {
        MouseEventType::Click
    } else if event_flags == MOUSE_MOVED {
        MouseEventType::MouseMove
    } else if event_flags == MOUSE_WHEELED {
        MouseEventType::HorizontalWheel
    } else if event_flags == MOUSE_HWHEELED {
        MouseEventType::VerticalWheel
    } else if event_flags == DOUBLE_CLICK {
        MouseEventType::DoubleClick
    } else {
        MouseEventType::MouseMove
    };
    MouseEvent {
        event_type,
        left_button: button_state & FROM_LEFT_1ST_BUTTON_PRESSED != 0,
        middle_button: button_state & FROM_LEFT_2ND_BUTTON_PRESSED != 0,
        right_button: button_state & RIGHTMOST_BUTTON_PRESSED != 0,
        extra_button_1: button_state & FROM_LEFT_3RD_BUTTON_PRESSED != 0,
        extra_button_2: button_state & FROM_LEFT_4TH_BUTTON_PRESSED != 0,
        extra_button_3: false,
        extra_button_4: false,
        wheel_delta: get_wheel_delta(button_state),
        position: Point2d { x, y },
    }
}

/// Builds a keyboard event from the plain fields of a raw key record.
/// Control and alt flags come from the record's control-key word; the two
/// shift flags are instead handed in from a live query of the key state,
/// the deliberate asymmetry of the device-state design.
pub fn decode_key_event(
    key_down: bool,
    key: u16,
    character_code: u16,
    control_key_state: u32,
    left_shift: bool,
    right_shift: bool,
) -> (r: KeyboardEvent)
    ensures
        r.event_type == (if key_down {
            KeyboardEventType::KeyDown
        } else {
            KeyboardEventType::KeyUp
        }),
        r.key == key,
        !(0xD800 <= character_code < 0xE000) ==> r.character as u32 == character_code,
        0xD800 <= character_code < 0xE000 ==> r.character == ' ',
        r.left_shift == left_shift,
        r.right_shift == right_shift,
        r.left_control == ((control_key_state & LEFT_CTRL_PRESSED) != 0),
        r.right_control == ((control_key_state & RIGHT_CTRL_PRESSED) != 0),
        r.left_alt == ((control_key_state & LEFT_ALT_PRESSED) != 0),
        r.right_alt == ((control_key_state & RIGHT_ALT_PRESSED) != 0),
{
    KeyboardEvent {
        event_type: if key_down {
            KeyboardEventType::KeyDown
        } else {
            KeyboardEventType::KeyUp
        },
        key,
        character: get_char_from_u16(character_code),
        left_shift,
        left_control: control_key_state & LEFT_CTRL_PRESSED != 0,
        left_alt: control_key_state & LEFT_ALT_PRESSED != 0,
        right_shift,
        right_control: control_key_state & RIGHT_CTRL_PRESSED != 0,
        right_alt: control_key_state & RIGHT_ALT_PRESSED != 0,
    }
}

/// Builds the focus event a raw window record translates to, from the
/// window position and size the platform reported at that moment.
pub fn process_window_events(position: Point2d, size: Size2d) -> (r: Event)
    ensures
        r == Event::Window(
            WindowEvent { event_type: WindowEventType::WindowFocus, position, size },
        ),
{
    Event::Window(WindowEvent { event_type: WindowEventType::WindowFocus, position, size })
}

/// The size of one character cell in pixels, from the window client size
/// and the console size in cells: the elementwise quotient, or the zero
/// size when the console size is degenerate.
pub fn char_size_of(client_size: Size2d, console_size: Size2d) -> (r: Size2d)
    ensures
        console_size.spec_is_empty() ==> r == (Size2d { width: 0, height: 0 }),
        !console_size.spec_is_empty() ==> r == (Size2d {
            width: (client_size.width / console_size.width) as usize,
            height: (client_size.height / console_size.height) as usize,
        }),
{
    if console_size.is_empty() {
        return Size2d::empty();
    }
    Size2d {
        width: client_size.width / console_size.width,
        height: client_size.height / console_size.height,
    }
}

/// The console size in cells, from the corners of the visible window
/// rectangle a raw screen-buffer record reports: each extent is the
/// inclusive span of its two coordinates.
pub fn console_size_of(left: i16, top: i16, right: i16, bottom: i16) -> (r: Size2d)
    requires
        left <= right,
        top <= bottom,
    ensures
        r.width as int == right - left + 1,
        r.height as int == bottom - top + 1,
{
    let width: i32 = (right as i32) - (left as i32) + 1;
    let height: i32 = (bottom as i32) - (top as i32) + 1;
    Size2d { width: width as usize, height: height as usize }
}

} // verus!
