use term_engine::device_state::KEY_LEFT_SHIFT;
use term_engine::device_state::KeyboardState;
use term_engine::device_state::MouseState;
use term_engine::device_state::dispatch_event;
use term_engine::event::Event;
use term_engine::event::KeyboardEvent;
use term_engine::event::KeyboardEventType;
use term_engine::event::MouseEvent;
use term_engine::event::MouseEventType;
use term_engine::event::WindowEvent;
use term_engine::event::WindowEventType;
use term_engine::event_queue::EventQueue;
use term_engine::geometry::Point2d;
use term_engine::geometry::Size2d;

fn mouse_event(event_type: MouseEventType, left: bool, x: usize, y: usize) -> MouseEvent {
    MouseEvent {
        event_type,
        left_button: left,
        middle_button: false,
        right_button: false,
        extra_button_1: false,
        extra_button_2: false,
        extra_button_3: false,
        extra_button_4: false,
        wheel_delta: 0,
        position: Point2d::new(x, y),
    }
}

fn key_event(event_type: KeyboardEventType, key: u16) -> KeyboardEvent {
    KeyboardEvent {
        event_type,
        key,
        character: ' ',
        left_shift: false,
        left_control: false,
        left_alt: false,
        right_shift: false,
        right_control: false,
        right_alt: false,
    }
}

fn window_event(x: usize, y: usize) -> Event {
    Event::Window(WindowEvent {
        event_type: WindowEventType::WindowFocus,
        position: Point2d::new(x, y),
        size: Size2d::new(80, 25),
    })
}

#[test]
fn queue_preserves_fifo_order() {
    let mut q = EventQueue::new();
    let e1 = window_event(1, 1);
    let e2 = window_event(2, 2);
    let e3 = window_event(3, 3);
    q.add_event(e1);
    q.add_event(e2);
    q.add_event(e3);
    assert_eq!(q.len(), 3);
    assert_eq!(q.get_event(), Some(e1));
    assert_eq!(q.get_event(), Some(e2));
    assert_eq!(q.get_event(), Some(e3));
    assert_eq!(q.get_event(), None);
    assert_eq!(q.len(), 0);
}

#[test]
fn empty_queue_yields_nothing() {
    let mut q = EventQueue::new();
    assert_eq!(q.len(), 0);
    assert_eq!(q.get_event(), None);
}

#[test]
fn mouse_state_starts_cleared_and_follows_events() {
    let mut st = MouseState::new();
    assert!(!st.left_button);
    assert!(!st.middle_button);
    assert!(!st.right_button);
    assert!(!st.extra_button_1);
    assert!(!st.extra_button_2);
    assert!(!st.extra_button_3);
    assert!(!st.extra_button_4);
    assert_eq!(st.position, Point2d::new(0, 0));

    st.update_from_event(mouse_event(MouseEventType::MouseDown, true, 3, 4));
    assert!(st.left_button);
    assert_eq!(st.position, Point2d::new(3, 4));

    st.update_from_event(mouse_event(MouseEventType::MouseUp, false, 3, 4));
    assert!(!st.left_button);
    assert_eq!(st.position, Point2d::new(3, 4));
}

#[test]
fn mouse_state_never_merges_flags_across_events() {
    let mut st = MouseState::new();
    let mut first = mouse_event(MouseEventType::MouseDown, true, 1, 1);
    first.middle_button = true;
    st.update_from_event(first);
    assert!(st.left_button && st.middle_button);
    // The next event reports only the right button: the earlier flags are
    // overwritten, not merged.
    let mut second = mouse_event(MouseEventType::MouseDown, false, 2, 2);
    second.right_button = true;
    st.update_from_event(second);
    assert!(!st.left_button);
    assert!(!st.middle_button);
    assert!(st.right_button);
    assert_eq!(st.position, Point2d::new(2, 2));
}

#[test]
fn key_flag_tracks_the_most_recent_event_for_the_key() {
    let mut st = KeyboardState::new();
    assert!(!st.keys[65]);
    st.update_from_event(key_event(KeyboardEventType::KeyDown, 65));
    assert!(st.keys[65]);
    st.update_from_event(key_event(KeyboardEventType::KeyDown, 66));
    assert!(st.keys[65]);
    assert!(st.keys[66]);
    st.update_from_event(key_event(KeyboardEventType::KeyUp, 65));
    assert!(!st.keys[65]);
    assert!(st.keys[66]);
}

#[test]
fn modifier_slots_refresh_on_every_keyboard_event() {
    let mut st = KeyboardState::new();
    let mut with_shift = key_event(KeyboardEventType::KeyDown, 65);
    with_shift.left_shift = true;
    st.update_from_event(with_shift);
    assert!(st.keys[KEY_LEFT_SHIFT as usize]);
    // An event for another key without the modifier clears the slot again.
    st.update_from_event(key_event(KeyboardEventType::KeyDown, 66));
    assert!(!st.keys[KEY_LEFT_SHIFT as usize]);
}

#[test]
fn modifier_slot_wins_over_the_events_own_key() {
    let mut st = KeyboardState::new();
    // A key-down event for the left shift key code itself whose live-query
    // flag says the key is up: the modifier slot is written last and wins.
    let e = key_event(KeyboardEventType::KeyDown, KEY_LEFT_SHIFT);
    st.update_from_event(e);
    assert!(!st.keys[KEY_LEFT_SHIFT as usize]);
}

#[test]
fn dispatch_queues_every_event_and_folds_device_state() {
    let mut queue = EventQueue::new();
    let mut mouse_state = MouseState::new();
    let mut keyboard_state = KeyboardState::new();

    let m = mouse_event(MouseEventType::MouseMove, true, 5, 6);
    let k = key_event(KeyboardEventType::KeyDown, 65);
    let w = window_event(0, 0);

    dispatch_event(&mut queue, &mut mouse_state, &mut keyboard_state, Event::Mouse(m));
    dispatch_event(&mut queue, &mut mouse_state, &mut keyboard_state, Event::Keyboard(k));
    dispatch_event(&mut queue, &mut mouse_state, &mut keyboard_state, w);

    assert_eq!(queue.len(), 3);
    assert!(mouse_state.left_button);
    assert_eq!(mouse_state.position, Point2d::new(5, 6));
    assert!(keyboard_state.keys[65]);
    assert_eq!(queue.get_event(), Some(Event::Mouse(m)));
    assert_eq!(queue.get_event(), Some(Event::Keyboard(k)));
    assert_eq!(queue.get_event(), Some(w));
}
