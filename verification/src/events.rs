//! iOS touch handling: UIKit touch phases and the pointer events they
//! become.

use vstd::prelude::*;
pub use crate::text_input::Modifiers;

verus! {

/// The logical mouse button associated with a touch or pointer event.
#[derive(Copy, Clone, Debug, PartialEq, Eq, Hash)]
pub enum MouseButton {
    Left,
    Right,
    Middle,
    Navigate(NavigateDirection),
}

/// Forward / backward navigation buttons.
#[derive(Copy, Clone, Debug, PartialEq, Eq, Hash)]
pub enum NavigateDirection {
    Back,
    Forward,
}

/// Phase of a `UITouch` (UIKit's `UITouchPhase`: 0 began, 1 moved,
/// 2 stationary, 3 ended, 4 cancelled).
#[derive(Debug, Clone, Copy, PartialEq, Eq)]
pub enum UITouchPhase {
    Began,
    Moved,
    Stationary,
    Ended,
    Cancelled,
}

/// The phase a raw UIKit value names; unknown values count as cancelled.
pub open spec fn spec_touch_phase_from_raw(raw: i64) -> UITouchPhase {
    match raw {
        0 => UITouchPhase::Began,
        1 => UITouchPhase::Moved,
        2 => UITouchPhase::Stationary,
        3 => UITouchPhase::Ended,
        _ => UITouchPhase::Cancelled,
    }
}

impl From<i64> for UITouchPhase {
    fn from(raw: i64) -> (p: Self)
        ensures
            p == spec_touch_phase_from_raw(raw),
    {
        match raw {
            0 => UITouchPhase::Began,
            1 => UITouchPhase::Moved,
            2 => UITouchPhase::Stationary,
            3 => UITouchPhase::Ended,
            _ => UITouchPhase::Cancelled,
        }
    }
}

impl vstd::std_specs::convert::FromSpecImpl<i64> for UITouchPhase {
    open spec fn obeys_from_spec() -> bool {
        true
    }

    open spec fn from_spec(raw: i64) -> Self {
        spec_touch_phase_from_raw(raw)
    }
}

/// Phase of a continuous gesture (scroll, pinch …).
#[derive(Debug, Clone, Copy, PartialEq, Eq)]
pub enum TouchPhase {
    Started,
    Moved,
    Ended,
}

/// The gesture phase of a touch phase: stationary counts as moved,
/// cancelled as ended.
pub open spec fn spec_gesture_phase(p: UITouchPhase) -> TouchPhase {
    match p {
        UITouchPhase::Began => TouchPhase::Started,
        UITouchPhase::Moved | UITouchPhase::Stationary => TouchPhase::Moved,
        UITouchPhase::Ended | UITouchPhase::Cancelled => TouchPhase::Ended,
    }
}

impl From<UITouchPhase> for TouchPhase {
    fn from(p: UITouchPhase) -> (t: Self)
        ensures
            t == spec_gesture_phase(p),
    {
        match p {
            UITouchPhase::Began => TouchPhase::Started,
            UITouchPhase::Moved | UITouchPhase::Stationary => TouchPhase::Moved,
            UITouchPhase::Ended | UITouchPhase::Cancelled => TouchPhase::Ended,
        }
    }
}

impl vstd::std_specs::convert::FromSpecImpl<UITouchPhase> for TouchPhase {
    open spec fn obeys_from_spec() -> bool {
        true
    }

    open spec fn from_spec(p: UITouchPhase) -> Self {
        spec_gesture_phase(p)
    }
}

/// The modifiers of a pure touch event: none.
pub fn touch_modifiers() -> (m: Modifiers)
    ensures
        m == Modifiers::none(),
{
    Modifiers::default()
}

/// The pointer event a touch becomes.
#[derive(Copy, Clone, Debug, PartialEq, Eq)]
pub enum TouchInput {
    /// Button pressed, with its click count.
    MouseDown { button: MouseButton, click_count: usize },
    /// Pointer moved with a button held.
    MouseMove { pressed_button: Option<MouseButton> },
    /// Button released, with its click count.
    MouseUp { button: MouseButton, click_count: usize },
}

/// What a window does with a touch of `phase` and `tap_count`: began →
/// left button down, moved → move with the left button held, ended or
/// cancelled → left button up, stationary → nothing.  The second value is
/// whether a touch is held afterwards.
pub fn touch_input_for_phase(phase: UITouchPhase, tap_count: u32, pressed_before: bool) -> (r: (Option<TouchInput>, bool))
    ensures
        r == match phase {
            UITouchPhase::Began => (Some(TouchInput::MouseDown { button: MouseButton::Left, click_count: tap_count as usize }), true),
            UITouchPhase::Moved => (Some(TouchInput::MouseMove { pressed_button: Some(MouseButton::Left) }), pressed_before),
            UITouchPhase::Ended | UITouchPhase::Cancelled => (Some(TouchInput::MouseUp { button: MouseButton::Left, click_count: tap_count as usize }), false),
            UITouchPhase::Stationary => (None::<TouchInput>, pressed_before),
        },
{
    match phase {
        UITouchPhase::Began => (Some(TouchInput::MouseDown { button: MouseButton::Left, click_count: tap_count as usize }), true),
        UITouchPhase::Moved => (Some(TouchInput::MouseMove { pressed_button: Some(MouseButton::Left) }), pressed_before),
        UITouchPhase::Ended | UITouchPhase::Cancelled => (Some(TouchInput::MouseUp { button: MouseButton::Left, click_count: tap_count as usize }), false),
        UITouchPhase::Stationary => (None, pressed_before),
    }
}

/// The right-button press a force touch (long press) becomes.
pub fn force_touch_input() -> (r: TouchInput)
    ensures
        r == (TouchInput::MouseDown { button: MouseButton::Right, click_count: 1 }),
{
    TouchInput::MouseDown { button: MouseButton::Right, click_count: 1 }
}

/// A raw phase outside UIKit's known values ends the gesture and lifts the
/// pointer; every known value keeps its meaning.
pub proof fn lemma_unknown_raw_phase_ends(raw: i64)
    ensures
        !(0 <= raw <= 3) ==> spec_gesture_phase(spec_touch_phase_from_raw(raw)) == TouchPhase::Ended,
        !(0 <= raw <= 3) ==> spec_touch_phase_from_raw(raw) == UITouchPhase::Cancelled,
        raw == 0 <==> spec_gesture_phase(spec_touch_phase_from_raw(raw)) == TouchPhase::Started,
{
}

} // verus!
