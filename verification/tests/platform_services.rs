use gpui_mobile::android_input::{
    key_action_code, touch_action, unicode_char_for_key_event, KeyAction, MotionAction, AMOTION_EVENT_ACTION_DOWN,
    AMOTION_EVENT_ACTION_MOVE, AMOTION_EVENT_ACTION_UP,
};
use gpui_mobile::chrome::{
    legacy_ui_visibility, set_system_chrome, SystemChromeState, APPEARANCE_LIGHT_STATUS_BARS,
    SYSTEM_UI_FLAG_LIGHT_STATUS_BAR,
};
use gpui_mobile::dispatcher::{TaskTiming, ThreadTimingState};
use gpui_mobile::display::display_uuid;
use gpui_mobile::ns_range::NSRange;
use gpui_mobile::store::{AndroidClipboard, AndroidCredentialStore};
use gpui_mobile::{KeyboardType, StatusBarContentStyle, SystemChromeStyle};

#[test]
fn clipboard_reads_back_what_was_written() {
    let mut c = AndroidClipboard::new();
    assert_eq!(c.read(), None);
    c.write("hello".to_string());
    assert_eq!(c.read(), Some("hello".to_string()));
    c.write(String::new());
    assert_eq!(c.read(), Some(String::new()));
    c.clear();
    assert_eq!(c.read(), None);
    assert_eq!(AndroidClipboard::default().read(), None);
}

#[test]
fn credentials_read_after_write_and_delete() {
    let mut s = AndroidCredentialStore::new();
    assert_eq!(s.read("mail", "ann"), Ok(None));
    s.write("mail", "ann", b"pw1").unwrap();
    s.write("mail", "bob", b"pw2").unwrap();
    assert_eq!(s.read("mail", "ann"), Ok(Some(b"pw1".to_vec())));
    s.write("mail", "ann", b"pw3").unwrap();
    assert_eq!(s.read("mail", "ann"), Ok(Some(b"pw3".to_vec())));
    assert_eq!(s.read("mail", "bob"), Ok(Some(b"pw2".to_vec())));
    assert_eq!(s.read("chat", "ann"), Ok(None));
    s.delete("mail", "ann").unwrap();
    assert_eq!(s.read("mail", "ann"), Ok(None));
    assert_eq!(s.read("mail", "bob"), Ok(Some(b"pw2".to_vec())));
    assert!(s.delete("mail", "ann").is_ok());
}

#[test]
fn chrome_style_is_applied_once_until_reset() {
    let mut state = SystemChromeState::new();
    let style = SystemChromeStyle {
        status_bar_color: Some(0x123456),
        status_bar_style: StatusBarContentStyle::Dark,
        navigation_bar_color: None,
    };
    let cmds = set_system_chrome(&state, &style).expect("first style is applied");
    assert_eq!(cmds.status_bar_argb, Some(0xFF123456u32 as i32));
    assert_eq!(cmds.navigation_bar_argb, None);
    assert_eq!(cmds.appearance, APPEARANCE_LIGHT_STATUS_BARS);
    assert_eq!(cmds.appearance_mask, APPEARANCE_LIGHT_STATUS_BARS);
    // Until the apply is reported as done, the same style is asked for again.
    assert_eq!(set_system_chrome(&state, &style), Some(cmds));
    state.mark_applied(&style);
    assert_eq!(set_system_chrome(&state, &style), None);

    let light = SystemChromeStyle { status_bar_style: StatusBarContentStyle::Light, ..style };
    let cmds = set_system_chrome(&state, &light).unwrap();
    assert_eq!(cmds.appearance, 0);
    state.mark_applied(&light);
    assert_eq!(set_system_chrome(&state, &light), None);

    state.reset();
    assert!(set_system_chrome(&state, &light).is_some());
}

#[test]
fn chrome_defaults() {
    let d = SystemChromeStyle::default();
    assert_eq!(d.status_bar_color, None);
    assert_eq!(d.navigation_bar_color, None);
    assert_eq!(d.status_bar_style, StatusBarContentStyle::Dark);
    assert_eq!(KeyboardType::default(), KeyboardType::Default);
}

#[test]
fn legacy_visibility_toggles_only_the_light_bit() {
    let other = 0x0101;
    assert_eq!(legacy_ui_visibility(other, StatusBarContentStyle::Dark), other | SYSTEM_UI_FLAG_LIGHT_STATUS_BAR);
    let dark = legacy_ui_visibility(other, StatusBarContentStyle::Dark);
    assert_eq!(legacy_ui_visibility(dark, StatusBarContentStyle::Light), other);
}

#[test]
fn timings_merge_repeated_starts() {
    let mut t = ThreadTimingState::new();
    t.record_end(5);
    assert!(t.timings().is_empty());
    t.record_start(1, 10);
    t.record_start(1, 11);
    t.record_end(20);
    t.record_start(2, 30);
    assert_eq!(
        t.timings(),
        vec![
            TaskTiming { location: 1, start: 10, end: Some(20) },
            TaskTiming { location: 2, start: 30, end: None },
        ]
    );
}

#[test]
fn ns_range_round_trip() {
    let r = NSRange::from_range(3..10);
    assert_eq!(r, NSRange { location: 3, length: 7 });
    assert!(r.is_valid());
    assert_eq!(r.to_range(), Some(3..10));
    assert_eq!(NSRange::from_range(5..2).length, 0);
    let inv = NSRange::invalid();
    assert!(!inv.is_valid());
    assert_eq!(inv.to_range(), None);
}

#[test]
fn display_uuid_is_the_v5_uuid_of_the_screen_key() {
    let expected = uuid::Uuid::new_v5(&uuid::Uuid::NAMESPACE_OID, b"ios-screen-w390-h844-s300").as_u128();
    assert_eq!(display_uuid(390, 844, 300), expected);
    assert_eq!(display_uuid(390, 844, 300), display_uuid(390, 844, 300));
    assert_ne!(display_uuid(390, 844, 300), display_uuid(844, 390, 300));
    assert_eq!((display_uuid(1, 2, 3) >> 76) & 0xF, 5);
}

#[test]
fn motion_actions_map_per_pointer() {
    assert_eq!(touch_action(MotionAction::Down, 0, 0), Some(AMOTION_EVENT_ACTION_DOWN));
    assert_eq!(touch_action(MotionAction::PointerDown, 1, 1), Some(AMOTION_EVENT_ACTION_DOWN));
    assert_eq!(touch_action(MotionAction::PointerDown, 0, 1), None);
    assert_eq!(touch_action(MotionAction::PointerUp, 2, 2), Some(AMOTION_EVENT_ACTION_UP));
    assert_eq!(touch_action(MotionAction::PointerUp, 0, 2), None);
    assert_eq!(touch_action(MotionAction::Cancel, 3, 0), Some(AMOTION_EVENT_ACTION_UP));
    assert_eq!(touch_action(MotionAction::Move, 3, 0), Some(AMOTION_EVENT_ACTION_MOVE));
    assert_eq!(touch_action(MotionAction::Other, 0, 0), None);
}

#[test]
fn key_actions_and_characters() {
    assert_eq!(key_action_code(KeyAction::Down), Some(0));
    assert_eq!(key_action_code(KeyAction::Up), Some(1));
    assert_eq!(key_action_code(KeyAction::Other), None);
    assert_eq!(unicode_char_for_key_event(Some(0x41)), 0x41);
    assert_eq!(unicode_char_for_key_event(Some(-5)), 0);
    assert_eq!(unicode_char_for_key_event(None), 0);
}

#[test]
fn clipboard_round_trip() {
    let mut p = AndroidClipboard::new();
    assert!(p.read().is_none());
    p.write("hello android".to_string());
    assert_eq!(p.read().as_deref(), Some("hello android"));
}

#[test]
fn clipboard_overwrite() {
    let mut p = AndroidClipboard::new();
    p.write("first".to_string());
    p.write("second".to_string());
    assert_eq!(p.read().as_deref(), Some("second"));
}

#[test]
fn credentials_round_trip() {
    let mut p = AndroidCredentialStore::new();
    p.write("svc", "user", b"pass123").unwrap();
    let result = p.read("svc", "user").unwrap();
    assert_eq!(result.as_deref(), Some(b"pass123".as_slice()));
}

#[test]
fn credentials_delete() {
    let mut p = AndroidCredentialStore::new();
    p.write("svc", "user", b"pass").unwrap();
    p.delete("svc", "user").unwrap();
    assert!(p.read("svc", "user").unwrap().is_none());
}

#[test]
fn credentials_missing_returns_none() {
    let p = AndroidCredentialStore::new();
    assert!(p.read("no-such-service", "user").unwrap().is_none());
}

#[test]
fn display_uuid_is_deterministic() {
    let d1 = display_uuid(390, 844, 300);
    let d2 = display_uuid(390, 844, 300);
    assert_eq!(d1, d2);
}

#[test]
fn keyboard_layout_id_non_empty() {
    let id = gpui_mobile::android_input::keyboard_layout_id(None);
    assert!(!id.is_empty());
}

#[test]
fn keyboard_layout_id_from_locale() {
    let f = gpui_mobile::android_input::keyboard_layout_id;
    assert_eq!(f(Some("en_US".to_string())), "en-US");
    assert_eq!(f(Some("zh_Hant_TW".to_string())), "zh-Hant-TW");
    assert_eq!(f(Some("de".to_string())), "de");
    assert_eq!(f(Some(String::new())), "en-US");
    assert_eq!(f(None), "en-US");
}
