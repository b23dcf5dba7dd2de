use gpui_mobile::demos::{random_color, ActiveView, MenuFrame, ACCENT_PALETTE, BACKGROUND, BLUE, MAUVE, TEXT};
use gpui_mobile::events::{
    force_touch_input, touch_input_for_phase, touch_modifiers, MouseButton, TouchInput, TouchPhase, UITouchPhase,
};
use gpui_mobile::text_input::Modifiers;

#[test]
fn menu_frame_entries_have_correct_targets() {
    let frame = MenuFrame::build();
    assert_eq!(frame.entries[0].target, ActiveView::AnimationPlayground);
    assert_eq!(frame.entries[1].target, ActiveView::ShaderShowcase);
}

#[test]
fn menu_frame_background_matches_palette() {
    let frame = MenuFrame::build();
    assert_eq!(frame.background_rgb, BACKGROUND);
}

#[test]
fn active_view_default_is_menu() {
    assert_eq!(ActiveView::default(), ActiveView::Menu);
}

#[test]
fn random_color_cycles_over_palette() {
    for i in 0..30 {
        let color = random_color(i);
        assert!(ACCENT_PALETTE.contains(&color), "random_color({i}) = {color:#010x} not in palette");
    }
}

#[test]
fn palette_constants_are_nonzero() {
    for &c in &ACCENT_PALETTE {
        assert_ne!(c, 0, "palette colour must not be zero / black");
    }
}

#[test]
fn background_is_darker_than_text() {
    let bg_brightness = ((BACKGROUND >> 16) & 0xff) + ((BACKGROUND >> 8) & 0xff) + (BACKGROUND & 0xff);
    let text_brightness = ((TEXT >> 16) & 0xff) + ((TEXT >> 8) & 0xff) + (TEXT & 0xff);
    assert!(text_brightness > bg_brightness, "TEXT should be brighter than BACKGROUND");
}

#[test]
fn random_color_is_periodic() {
    let n = ACCENT_PALETTE.len();
    for i in 0..n {
        assert_eq!(random_color(i), random_color(i + n));
        assert_eq!(random_color(i), ACCENT_PALETTE[i]);
    }
    assert_eq!(random_color(usize::MAX), ACCENT_PALETTE[usize::MAX % 10]);
}

#[test]
fn menu_entries_carry_titles_and_accents() {
    let frame = MenuFrame::build();
    assert_eq!(frame.entries.len(), 2);
    assert_eq!(frame.entries[0].title, "Animation Playground");
    assert_eq!(frame.entries[0].accent_rgb, BLUE);
    assert_eq!(frame.entries[1].title, "Shader Showcase");
    assert_eq!(frame.entries[1].accent_rgb, MAUVE);
    assert_eq!(frame.footer, "Powered by GPUI");
}

#[test]
fn touch_phase_from_raw() {
    assert_eq!(UITouchPhase::from(0), UITouchPhase::Began);
    assert_eq!(UITouchPhase::from(1), UITouchPhase::Moved);
    assert_eq!(UITouchPhase::from(2), UITouchPhase::Stationary);
    assert_eq!(UITouchPhase::from(3), UITouchPhase::Ended);
    assert_eq!(UITouchPhase::from(4), UITouchPhase::Cancelled);
    assert_eq!(UITouchPhase::from(99), UITouchPhase::Cancelled);
}

#[test]
fn touch_phase_to_gpui_phase() {
    assert_eq!(TouchPhase::from(UITouchPhase::Began), TouchPhase::Started);
    assert_eq!(TouchPhase::from(UITouchPhase::Moved), TouchPhase::Moved);
    assert_eq!(TouchPhase::from(UITouchPhase::Stationary), TouchPhase::Moved);
    assert_eq!(TouchPhase::from(UITouchPhase::Ended), TouchPhase::Ended);
    assert_eq!(TouchPhase::from(UITouchPhase::Cancelled), TouchPhase::Ended);
}

#[test]
fn unknown_raw_phases_end_the_gesture() {
    assert_eq!(TouchPhase::from(UITouchPhase::from(-1)), TouchPhase::Ended);
    assert_eq!(TouchPhase::from(UITouchPhase::from(i64::MAX)), TouchPhase::Ended);
}

#[test]
fn touches_become_left_button_events() {
    let (down, pressed) = touch_input_for_phase(UITouchPhase::Began, 2, false);
    assert_eq!(down, Some(TouchInput::MouseDown { button: MouseButton::Left, click_count: 2 }));
    assert!(pressed);
    let (mv, pressed) = touch_input_for_phase(UITouchPhase::Moved, 2, pressed);
    assert_eq!(mv, Some(TouchInput::MouseMove { pressed_button: Some(MouseButton::Left) }));
    assert!(pressed);
    let (still, pressed) = touch_input_for_phase(UITouchPhase::Stationary, 2, pressed);
    assert_eq!(still, None);
    assert!(pressed);
    let (up, pressed) = touch_input_for_phase(UITouchPhase::Cancelled, 2, pressed);
    assert_eq!(up, Some(TouchInput::MouseUp { button: MouseButton::Left, click_count: 2 }));
    assert!(!pressed);
}

#[test]
fn force_touch_is_a_right_click_without_modifiers() {
    assert_eq!(force_touch_input(), TouchInput::MouseDown { button: MouseButton::Right, click_count: 1 });
    assert_eq!(touch_modifiers(), Modifiers::default());
}

#[test]
fn mouse_down_event_fields() {
    let (ev, _) = touch_input_for_phase(UITouchPhase::Began, 2, false);
    match ev {
        Some(TouchInput::MouseDown { button, click_count }) => {
            assert_eq!(button, MouseButton::Left);
            assert_eq!(click_count, 2);
        }
        _ => panic!("expected MouseDown"),
    }
}

#[test]
fn mouse_up_event_fields() {
    let (ev, _) = touch_input_for_phase(UITouchPhase::Ended, 1, true);
    match ev {
        Some(TouchInput::MouseUp { button, click_count }) => {
            assert_eq!(button, MouseButton::Left);
            assert_eq!(click_count, 1);
        }
        _ => panic!("expected MouseUp"),
    }
}

#[test]
fn force_touch_is_right_button() {
    match force_touch_input() {
        TouchInput::MouseDown { button, .. } => assert_eq!(button, MouseButton::Right),
        _ => panic!("expected MouseDown(Right)"),
    }
}
