//! Continuously-folded projections of the event stream: the current mouse
//! and keyboard status, updated as each event is produced so that the
//! application never replays history.

use vstd::prelude::*;
use crate::event::Event;
use crate::event::KeyboardEvent;
use crate::event::KeyboardEventType;
use crate::event::MouseEvent;
use crate::event_queue::EventQueue;
use crate::geometry::Point2d;

verus! {

/// How many key codes the keyboard table tracks.
pub const KEY_COUNT: usize = 175;

/// The key code of the left shift key, one of the six modifier slots.
pub const KEY_LEFT_SHIFT: u16 = 160;

/// The key code of the right shift key, one of the six modifier slots.
pub const KEY_RIGHT_SHIFT: u16 = 161;

/// The key code of the left control key, one of the six modifier slots.
pub const KEY_LEFT_CONTROL: u16 = 162;

/// The key code of the right control key, one of the six modifier slots.
pub const KEY_RIGHT_CONTROL: u16 = 163;

/// The key code of the left alt key, one of the six modifier slots.
pub const KEY_LEFT_ALT: u16 = 164;

/// The key code of the right alt key, one of the six modifier slots.
pub const KEY_RIGHT_ALT: u16 = 165;

/// The current mouse status: the last reported state of all seven buttons
/// and the last reported pointer position.
#[derive(Debug, Copy, Clone, PartialEq, Eq, Structural)]
pub struct MouseState {
    pub left_button: bool,
    pub middle_button: bool,
    pub right_button: bool,
    pub extra_button_1: bool,
    pub extra_button_2: bool,
    pub extra_button_3: bool,
    pub extra_button_4: bool,
    pub position: Point2d,
}

/// The current keyboard status: one down/up flag per recognized key code,
/// six of which are the always-present modifier slots.
#[derive(Debug, Copy, Clone)]
pub struct KeyboardState {
    pub keys: [bool; KEY_COUNT],
}

/// The mouse state a mouse event leaves behind: the event's own payload
/// fully overwrites all seven button flags and the position, so a later
/// event's `false` clears a flag set by an earlier one.
pub open spec fn spec_apply_mouse_event(state: MouseState, event: MouseEvent) -> MouseState {
    MouseState {
        left_button: event.left_button,
        middle_button: event.middle_button,
        right_button: event.right_button,
        extra_button_1: event.extra_button_1,
        extra_button_2: event.extra_button_2,
        extra_button_3: event.extra_button_3,
        extra_button_4: event.extra_button_4,
        position: event.position,
    }
}

/// Whether `k` is one of the six modifier slots, which every keyboard
/// event refreshes.
pub open spec fn spec_is_modifier_slot(k: int) -> bool {
    ||| k == KEY_LEFT_SHIFT as int
    ||| k == KEY_RIGHT_SHIFT as int
    ||| k == KEY_LEFT_CONTROL as int
    ||| k == KEY_RIGHT_CONTROL as int
    ||| k == KEY_LEFT_ALT as int
    ||| k == KEY_RIGHT_ALT as int
}

/// The flag of key `k` after one keyboard event: a modifier slot takes the
/// event's modifier flag; the event's own key is down exactly when the
/// event is a key press; every other key keeps its flag. The modifier
/// slots win over the event's key because they are written last.
pub open spec fn spec_key_after_event(keys: Seq<bool>, event: KeyboardEvent, k: int) -> bool {
    if k == KEY_LEFT_SHIFT as int {
        event.left_shift
    } else if k == KEY_RIGHT_SHIFT as int {
        event.right_shift
    } else if k == KEY_LEFT_CONTROL as int {
        event.left_control
    } else if k == KEY_RIGHT_CONTROL as int {
        event.right_control
    } else if k == KEY_LEFT_ALT as int {
        event.left_alt
    } else if k == KEY_RIGHT_ALT as int {
        event.right_alt
    } else if k == event.key as int {
        event.event_type == KeyboardEventType::KeyDown
    } else {
        keys[k]
    }
}

/// The whole key table after one keyboard event.
pub open spec fn spec_apply_keyboard_event(keys: Seq<bool>, event: KeyboardEvent) -> Seq<bool> {
    Seq::new(keys.len(), |k: int| spec_key_after_event(keys, event, k))
}

/// The key table after folding a whole stream of keyboard events in
/// arrival order.
pub open spec fn spec_fold_keyboard_events(keys: Seq<bool>, events: Seq<KeyboardEvent>) -> Seq<
    bool,
>
    decreases events.len(),
{
    if events.len() == 0 {
        keys
    } else {
        spec_apply_keyboard_event(
            spec_fold_keyboard_events(keys, events.drop_last()),
            events.last(),
        )
    }
}

/// The key table of a freshly-created keyboard state: every flag clear.
pub open spec fn spec_initial_keys() -> Seq<bool> {
    Seq::new(KEY_COUNT as nat, |k: int| false)
}

impl MouseState {
    /// Builds the initial mouse state: no button pressed, the position at
    /// the origin.
    pub fn new() -> (r: MouseState)
        ensures
            r == (MouseState {
                left_button: false,
                middle_button: false,
                right_button: false,
                extra_button_1: false,
                extra_button_2: false,
                extra_button_3: false,
                extra_button_4: false,
                position: Point2d { x: 0, y: 0 },
            }),
    {
        MouseState {
            left_button: false,
            middle_button: false,
            right_button: false,
            extra_button_1: false,
            extra_button_2: false,
            extra_button_3: false,
            extra_button_4: false,
            position: Point2d::empty(),
        }
    }

    /// Folds one mouse event into the state, overwriting every button flag
    /// and the position with the event's own payload.
    pub fn update_from_event(&mut self, mouse: MouseEvent)
        ensures
            *final(self) == spec_apply_mouse_event(*old(self), mouse),
    {
        self.left_button = mouse.left_button;
        self.middle_button = mouse.middle_button;
        self.right_button = mouse.right_button;
        self.extra_button_1 = mouse.extra_button_1;
        self.extra_button_2 = mouse.extra_button_2;
        self.extra_button_3 = mouse.extra_button_3;
        self.extra_button_4 = mouse.extra_button_4;
        self.position = mouse.position;
    }
}

impl KeyboardState {
    /// Builds the initial keyboard state: every key flag clear.
    pub fn new() -> (r: KeyboardState)
        ensures
            r.keys@ == spec_initial_keys(),
    {
        let keys: [bool; KEY_COUNT] = [false; KEY_COUNT];
        proof {
            assert(keys@ =~= spec_initial_keys());
        }
        KeyboardState { keys }
    }

    /// Folds one keyboard event into the table: the event's key is marked
    /// down exactly when the event is a key press, and the six modifier
    /// slots are then refreshed from the event's modifier flags.
    #[verifier::rlimit(50)]
    pub fn update_from_event(&mut self, keyboard: KeyboardEvent)
        requires
            keyboard.key < KEY_COUNT as u16,
        ensures
            final(self).keys@ == spec_apply_keyboard_event(old(self).keys@, keyboard),
    {
        self.keys[keyboard.key as usize] = keyboard.event_type == KeyboardEventType::KeyDown;
        self.keys[KEY_LEFT_SHIFT as usize] = keyboard.left_shift;
        self.keys[KEY_LEFT_CONTROL as usize] = keyboard.left_control;
        self.keys[KEY_LEFT_ALT as usize] = keyboard.left_alt;
        self.keys[KEY_RIGHT_SHIFT as usize] = keyboard.right_shift;
        self.keys[KEY_RIGHT_CONTROL as usize] = keyboard.right_control;
        self.keys[KEY_RIGHT_ALT as usize] = keyboard.right_alt;
        proof {
            assert forall|k: int| 0 <= k < KEY_COUNT implies self.keys@[k] == spec_key_after_event(
                old(self).keys@,
                keyboard,
                k,
            ) by {}
            assert(self.keys@ =~= spec_apply_keyboard_event(old(self).keys@, keyboard));
        }
    }
}

/// Routes one translated event: it is appended to the queue, and folded
/// into the matching device state; a window event touches neither device
/// state.
pub fn dispatch_event(
    queue: &mut EventQueue,
    mouse_state: &mut MouseState,
    keyboard_state: &mut KeyboardState,
    event: Event,
)
    requires
        event matches Event::Keyboard(k) ==> k.key < KEY_COUNT as u16,
    ensures
        final(queue)@ == old(queue)@.push(event),
        match event {
            Event::Mouse(m) => *final(mouse_state) == spec_apply_mouse_event(*old(mouse_state), m)
                && *final(keyboard_state) == *old(keyboard_state),
            Event::Keyboard(k) => *final(mouse_state) == *old(mouse_state)
                && final(keyboard_state).keys@ == spec_apply_keyboard_event(
                old(keyboard_state).keys@,
                k,
            ),
            Event::Window(_) => *final(mouse_state) == *old(mouse_state) && *final(keyboard_state)
                == *old(keyboard_state),
        },
{
    queue.add_event(event);
    match event {
        Event::Mouse(mouse) => mouse_state.update_from_event(mouse),
        Event::Keyboard(keyboard) => keyboard_state.update_from_event(keyboard),
        Event::Window(_) => (),
    }
}

/// Whether the stream holds at least one event for key `k`.
pub open spec fn spec_has_event_for_key(events: Seq<KeyboardEvent>, k: int) -> bool {
    exists|i: int| 0 <= i < events.len() && events[i].key as int == k
}

/// The most recent event for key `k` in the stream.
pub open spec fn spec_last_event_for_key(events: Seq<KeyboardEvent>, k: int) -> KeyboardEvent
    recommends
        spec_has_event_for_key(events, k),
    decreases events.len(),
{
    if events.len() == 0 {
        arbitrary()
    } else if events.last().key as int == k {
        events.last()
    } else {
        spec_last_event_for_key(events.drop_last(), k)
    }
}

/// A key flag tracks the most recent event for that key: after folding any
/// stream of keyboard events, the flag of a key `k` outside the six
/// modifier slots is down exactly when the most recent event for `k` was a
/// key press, and a key no event spoke of keeps its initial flag.
pub proof fn lemma_key_flag_tracks_last_event(
    keys: Seq<bool>,
    events: Seq<KeyboardEvent>,
    k: int,
)
    requires
        keys.len() == KEY_COUNT,
        0 <= k < KEY_COUNT,
        !spec_is_modifier_slot(k),
    ensures
        spec_fold_keyboard_events(keys, events).len() == KEY_COUNT,
        spec_fold_keyboard_events(keys, events)[k] == (if spec_has_event_for_key(events, k) {
            spec_last_event_for_key(events, k).event_type == KeyboardEventType::KeyDown
        } else {
            keys[k]
        }),
    decreases events.len(),
{
    if events.len() == 0 {
    } else {
        let prefix = events.drop_last();
        lemma_key_flag_tracks_last_event(keys, prefix, k);
        if events.last().key as int == k {
        } else {
            if spec_has_event_for_key(prefix, k) {
                let i = choose|i: int| 0 <= i < prefix.len() && prefix[i].key as int == k;
                assert(events[i].key as int == k);
            }
            if spec_has_event_for_key(events, k) {
                let i = choose|i: int| 0 <= i < events.len() && events[i].key as int == k;
                assert(i < prefix.len() && prefix[i].key as int == k);
            }
        }
    }
}

/// The same law from the initial state: starting from a fresh keyboard
/// state, a key outside the modifier slots is down exactly while the most
/// recent event for it was a key press, and up before any event for it.
pub proof fn lemma_key_flag_from_initial_state(events: Seq<KeyboardEvent>, k: int)
    requires
        0 <= k < KEY_COUNT,
        !spec_is_modifier_slot(k),
    ensures
        spec_fold_keyboard_events(spec_initial_keys(), events)[k] == (spec_has_event_for_key(
            events,
            k,
        ) && spec_last_event_for_key(events, k).event_type == KeyboardEventType::KeyDown),
{
    lemma_key_flag_tracks_last_event(spec_initial_keys(), events, k);
}

} // verus!
