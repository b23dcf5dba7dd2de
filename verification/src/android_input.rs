//! Android input events: which touch action a motion event dispatches for
//! each pointer, key actions, the character a key event types, and the
//! keyboard layout id of the current input method.

use vstd::prelude::*;
use crate::strings::push_char;

verus! {

/// `AMOTION_EVENT_ACTION_DOWN`.
pub const AMOTION_EVENT_ACTION_DOWN: u32 = 0;
/// `AMOTION_EVENT_ACTION_UP`.
pub const AMOTION_EVENT_ACTION_UP: u32 = 1;
/// `AMOTION_EVENT_ACTION_MOVE`.
pub const AMOTION_EVENT_ACTION_MOVE: u32 = 2;

/// Action of a motion event.
#[derive(Copy, Clone, Debug, PartialEq, Eq)]
pub enum MotionAction {
    Down,
    Up,
    Move,
    Cancel,
    PointerDown,
    PointerUp,
    /// Any other action (hover, scroll, …).
    Other,
}

/// The touch action dispatched for pointer `pointer` of a motion event with
/// `action`, whose acting pointer is `action_pointer`: the first pointer goes
/// down or up, every pointer moves, a cancel lifts every pointer, an extra
/// pointer going down or up is dispatched only for that pointer, and other
/// actions dispatch nothing.
pub fn touch_action(action: MotionAction, pointer: usize, action_pointer: usize) -> (r: Option<u32>)
    ensures
        r == match action {
            MotionAction::Down => Some(AMOTION_EVENT_ACTION_DOWN),
            MotionAction::PointerDown => if pointer == action_pointer { Some(AMOTION_EVENT_ACTION_DOWN) } else { None },
            MotionAction::Up | MotionAction::Cancel => Some(AMOTION_EVENT_ACTION_UP),
            MotionAction::PointerUp => if pointer == action_pointer { Some(AMOTION_EVENT_ACTION_UP) } else { None },
            MotionAction::Move => Some(AMOTION_EVENT_ACTION_MOVE),
            MotionAction::Other => None::<u32>,
        },
{
    match action {
        MotionAction::Down => Some(AMOTION_EVENT_ACTION_DOWN),
        MotionAction::PointerDown => {
            if pointer != action_pointer {
                return None;
            }
            Some(AMOTION_EVENT_ACTION_DOWN)
        },
        MotionAction::Up => Some(AMOTION_EVENT_ACTION_UP),
        MotionAction::PointerUp => {
            if pointer != action_pointer {
                return None;
            }
            Some(AMOTION_EVENT_ACTION_UP)
        },
        MotionAction::Move => Some(AMOTION_EVENT_ACTION_MOVE),
        MotionAction::Cancel => Some(AMOTION_EVENT_ACTION_UP),
        MotionAction::Other => None,
    }
}

/// Action of a key event.
#[derive(Copy, Clone, Debug, PartialEq, Eq)]
pub enum KeyAction {
    Down,
    Up,
    /// Any other action (multiple, …).
    Other,
}

/// `KeyEvent` action code of a key action (0 down, 1 up); other actions
/// are not handled.
pub fn key_action_code(action: KeyAction) -> (r: Option<i32>)
    ensures
        r == match action {
            KeyAction::Down => Some(0i32),
            KeyAction::Up => Some(1i32),
            KeyAction::Other => None::<i32>,
        },
{
    match action {
        KeyAction::Down => Some(0),
        KeyAction::Up => Some(1),
        KeyAction::Other => None,
    }
}

/// The character a key event types, from what `KeyEvent.getUnicodeChar`
/// returned (`None` when the call failed): 0 for no character.
pub fn unicode_char_for_key_event(unicode_char: Option<i32>) -> (r: u32)
    ensures
        r == match unicode_char {
            Some(c) => if c > 0 { c as u32 } else { 0 },
            None => 0,
        },
{
    match unicode_char {
        Some(c) => if c > 0 { c as u32 } else { 0 },
        None => 0,
    }
}

/// The layout id of an input-method locale: the locale with `_` turned into
/// `-` (`"en_US"` becomes `"en-US"`).
pub open spec fn layout_id_of(l: Seq<char>) -> Seq<char> {
    l.map_values(|c: char| if c == '_' { '-' } else { c })
}

/// The keyboard layout id from the current input-method subtype's locale
/// (`None` when it could not be read): its layout id, or `"en-US"` when the
/// locale is missing or empty.
pub fn keyboard_layout_id(locale: Option<String>) -> (r: String)
    ensures
        r@ == match locale {
            Some(l) => if l@.len() > 0 { layout_id_of(l@) } else { "en-US"@ },
            None => "en-US"@,
        },
{
    match locale {
        Some(l) => {
            let s = l.as_str();
            let n = s.unicode_len();
            if n == 0 {
                return String::from_str("en-US");
            }
            let mut out = String::new();
            let mut i: usize = 0;
            while i < n
                invariant
                    n == s@.len(),
                    s@ == l@,
                    i <= n,
                    out@ == layout_id_of(s@.take(i as int)),
                decreases n - i,
            {
                let c = s.get_char(i);
                let d = if c == '_' { '-' } else { c };
                push_char(&mut out, d);
                proof {
                    assert(s@.take(i as int + 1) =~= s@.take(i as int).push(c));
                    assert(layout_id_of(s@.take(i as int + 1)) =~= layout_id_of(s@.take(i as int)).push(d));
                }
                i = i + 1;
            }
            assert(s@.take(n as int) =~= s@);
            out
        },
        None => String::from_str("en-US"),
    }
}

} // verus!
