use gpui_mobile::text_input::{
    backspace_key_down, character_to_key_down, key_code_to_key_down, key_code_to_key_up, key_code_to_string,
    modifier_flags_to_modifiers, PlatformKeyEvent, FLAG_ALT, FLAG_COMMAND, FLAG_CONTROL, FLAG_SHIFT,
};

#[test]
fn letters_map_correctly() {
    assert_eq!(key_code_to_string(0x04), "a");
    assert_eq!(key_code_to_string(0x1D), "z");
    assert_eq!(key_code_to_string(0x08), "e");
}

#[test]
fn digits_map_correctly() {
    assert_eq!(key_code_to_string(0x1E), "1");
    assert_eq!(key_code_to_string(0x26), "9");
    assert_eq!(key_code_to_string(0x27), "0");
}

#[test]
fn special_keys_map_correctly() {
    assert_eq!(key_code_to_string(0x28), "enter");
    assert_eq!(key_code_to_string(0x29), "escape");
    assert_eq!(key_code_to_string(0x2A), "backspace");
    assert_eq!(key_code_to_string(0x2B), "tab");
    assert_eq!(key_code_to_string(0x2C), " ");
}

#[test]
fn arrow_keys_map_correctly() {
    assert_eq!(key_code_to_string(0x4F), "right");
    assert_eq!(key_code_to_string(0x50), "left");
    assert_eq!(key_code_to_string(0x51), "down");
    assert_eq!(key_code_to_string(0x52), "up");
}

#[test]
fn function_keys_map_correctly() {
    assert_eq!(key_code_to_string(0x3A), "f1");
    assert_eq!(key_code_to_string(0x45), "f12");
    assert_eq!(key_code_to_string(0x68), "f13");
    assert_eq!(key_code_to_string(0x73), "f24");
}

#[test]
fn unknown_code_fallback() {
    assert_eq!(key_code_to_string(0xFF), "unknown-ff");
    assert_eq!(key_code_to_string(0x00), "unknown-00");
}

#[test]
fn no_modifiers() {
    let m = modifier_flags_to_modifiers(0);
    assert!(!m.control && !m.alt && !m.shift && !m.platform);
}

#[test]
fn shift_flag() {
    let m = modifier_flags_to_modifiers(FLAG_SHIFT);
    assert!(m.shift);
    assert!(!m.control && !m.alt && !m.platform);
}

#[test]
fn command_flag() {
    let m = modifier_flags_to_modifiers(FLAG_COMMAND);
    assert!(m.platform);
    assert!(!m.shift && !m.control && !m.alt);
}

#[test]
fn multiple_flags() {
    let flags = FLAG_CONTROL | FLAG_ALT | FLAG_SHIFT;
    let m = modifier_flags_to_modifiers(flags);
    assert!(m.control);
    assert!(m.alt);
    assert!(m.shift);
    assert!(!m.platform);
}

#[test]
fn character_event_is_prefer_char_input() {
    match character_to_key_down('x') {
        PlatformKeyEvent::KeyDown(ev) => {
            assert!(ev.prefer_character_input);
            assert_eq!(ev.keystroke.key, "x");
            assert_eq!(ev.keystroke.key_char, Some("x".to_string()));
        }
        _ => panic!("expected KeyDown"),
    }
}

#[test]
fn letter_key_down_no_modifiers() {
    match key_code_to_key_down(0x04, 0) {
        PlatformKeyEvent::KeyDown(ev) => {
            assert_eq!(ev.keystroke.key, "a");
            assert_eq!(ev.keystroke.key_char, Some("a".to_string()));
            assert!(!ev.keystroke.modifiers.shift);
        }
        _ => panic!("expected KeyDown"),
    }
}

#[test]
fn letter_key_down_with_shift_uppercases_key_char() {
    match key_code_to_key_down(0x04, FLAG_SHIFT) {
        PlatformKeyEvent::KeyDown(ev) => {
            assert_eq!(ev.keystroke.key, "a");
            assert_eq!(ev.keystroke.key_char, Some("A".to_string()));
            assert!(ev.keystroke.modifiers.shift);
        }
        _ => panic!("expected KeyDown"),
    }
}

#[test]
fn command_key_suppresses_key_char() {
    match key_code_to_key_down(0x04, FLAG_COMMAND) {
        PlatformKeyEvent::KeyDown(ev) => {
            assert_eq!(ev.keystroke.key_char, None);
            assert!(ev.keystroke.modifiers.platform);
        }
        _ => panic!("expected KeyDown"),
    }
}

#[test]
fn special_key_has_no_key_char() {
    match key_code_to_key_down(0x28, 0) {
        PlatformKeyEvent::KeyDown(ev) => {
            assert_eq!(ev.keystroke.key, "enter");
            assert_eq!(ev.keystroke.key_char, None);
        }
        _ => panic!("expected KeyDown"),
    }
}

#[test]
fn key_up_event_structure() {
    match key_code_to_key_up(0x51, 0) {
        PlatformKeyEvent::KeyUp(ev) => {
            assert_eq!(ev.keystroke.key, "down");
            assert_eq!(ev.keystroke.key_char, None);
        }
        _ => panic!("expected KeyUp"),
    }
}

#[test]
fn backspace_event_has_no_key_char() {
    match backspace_key_down() {
        PlatformKeyEvent::KeyDown(ev) => {
            assert_eq!(ev.keystroke.key, "backspace");
            assert_eq!(ev.keystroke.key_char, None);
        }
        _ => panic!("expected KeyDown"),
    }
}

#[test]
fn space_key_types_a_space() {
    match key_code_to_key_down(0x2C, FLAG_SHIFT) {
        PlatformKeyEvent::KeyDown(ev) => {
            assert_eq!(ev.keystroke.key, " ");
            assert_eq!(ev.keystroke.key_char, Some(" ".to_string()));
        }
        _ => panic!("expected KeyDown"),
    }
}

#[test]
fn control_suppresses_key_char_and_digits_keep_case() {
    match key_code_to_key_down(0x1E, FLAG_CONTROL) {
        PlatformKeyEvent::KeyDown(ev) => {
            assert_eq!(ev.keystroke.key, "1");
            assert_eq!(ev.keystroke.key_char, None);
            assert!(ev.keystroke.modifiers.control);
        }
        _ => panic!("expected KeyDown"),
    }
    match key_code_to_key_down(0x1E, FLAG_SHIFT) {
        PlatformKeyEvent::KeyDown(ev) => {
            assert_eq!(ev.keystroke.key_char, Some("1".to_string()));
        }
        _ => panic!("expected KeyDown"),
    }
}

#[test]
fn key_up_carries_the_key_down_keystroke() {
    for code in [0x04u32, 0x1E, 0x28, 0x2C, 0x51, 0x3A, 0x99] {
        for flags in [0u32, FLAG_SHIFT, FLAG_COMMAND, FLAG_SHIFT | FLAG_ALT] {
            let down = match key_code_to_key_down(code, flags) {
                PlatformKeyEvent::KeyDown(ev) => ev.keystroke,
                _ => panic!("expected KeyDown"),
            };
            let up = match key_code_to_key_up(code, flags) {
                PlatformKeyEvent::KeyUp(ev) => ev.keystroke,
                _ => panic!("expected KeyUp"),
            };
            assert_eq!(down, up);
        }
    }
}

#[test]
fn modifier_flags_combine_bitwise() {
    let a = modifier_flags_to_modifiers(FLAG_SHIFT);
    let b = modifier_flags_to_modifiers(FLAG_COMMAND);
    let ab = modifier_flags_to_modifiers(FLAG_SHIFT | FLAG_COMMAND);
    assert_eq!(ab.shift, a.shift || b.shift);
    assert_eq!(ab.platform, a.platform || b.platform);
    assert!(!ab.function);
    let other = modifier_flags_to_modifiers(0x1_0000);
    assert!(!other.shift && !other.control && !other.alt && !other.platform);
}

#[test]
fn unknown_codes_use_two_hex_digits() {
    assert_eq!(key_code_to_string(0x0A), "g");
    assert_eq!(key_code_to_string(0x99), "unknown-99");
    assert_eq!(key_code_to_string(0x3), "unknown-03");
    assert_eq!(key_code_to_string(0x1FF), "unknown-1ff");
}
