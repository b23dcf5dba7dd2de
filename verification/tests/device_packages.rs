use gpui_mobile::lifecycle::{
    is_night_mode, handle_main_event, EventLoopState, FramePlan, MainEventAction, MainEventKind, WindowAppearance,
};
use gpui_mobile::chrome::{set_system_chrome, SystemChromeState};
use gpui_mobile::packages::{
    battery_level, battery_state, check_connectivity, get_network_info, get_package_info, haptic_feedback,
    BatteryReading, BatteryState, ConnectivityStatus, HapticFeedback, NetworkInfo, BATTERY_STATUS_CHARGING,
    BATTERY_STATUS_FULL, BATTERY_STATUS_NOT_CHARGING, KEYBOARD_TAP, LONG_PRESS, TYPE_MOBILE, TYPE_WIFI, VIRTUAL_KEY,
};
use gpui_mobile::preferences::AndroidSharedPreferences;
use gpui_mobile::sensors::{available_sensors, SensorAvailability, TYPE_ACCELEROMETER, TYPE_PRESSURE};
use gpui_mobile::text_callback::{dispatch_text_input, set_text_input_callback};
use gpui_mobile::SystemChromeStyle;

#[test]
fn battery_level_is_a_truncated_percentage() {
    assert_eq!(battery_level(Some(BatteryReading { level: 50, scale: 100, status: 0 })), 50);
    assert_eq!(battery_level(Some(BatteryReading { level: 1, scale: 3, status: 0 })), 33);
    assert_eq!(battery_level(Some(BatteryReading { level: -1, scale: 3, status: 0 })), -33);
    assert_eq!(battery_level(Some(BatteryReading { level: 7, scale: 0, status: 0 })), -1);
    assert_eq!(battery_level(None), -1);
}

#[test]
fn battery_state_by_status() {
    let r = |status| Some(BatteryReading { level: 0, scale: 100, status });
    assert_eq!(battery_state(r(BATTERY_STATUS_CHARGING)), BatteryState::Charging);
    assert_eq!(battery_state(r(BATTERY_STATUS_NOT_CHARGING)), BatteryState::Discharging);
    assert_eq!(battery_state(r(BATTERY_STATUS_FULL)), BatteryState::Full);
    assert_eq!(battery_state(r(1)), BatteryState::Unknown);
    assert_eq!(battery_state(None), BatteryState::Unknown);
}

#[test]
fn connectivity_by_network_type() {
    assert_eq!(check_connectivity(Some(true), Some(TYPE_WIFI)), ConnectivityStatus::Wifi);
    assert_eq!(check_connectivity(Some(true), Some(TYPE_MOBILE)), ConnectivityStatus::Cellular);
    assert_eq!(check_connectivity(Some(true), Some(9)), ConnectivityStatus::Wifi);
    assert_eq!(check_connectivity(Some(false), Some(TYPE_WIFI)), ConnectivityStatus::Offline);
    assert_eq!(check_connectivity(None, None), ConnectivityStatus::Offline);
}

#[test]
fn network_info_cleans_placeholders() {
    let info = get_network_info(Some("\"Home\"".to_string()), Some("aa:bb".to_string()), Some(0x0101A8C0));
    assert_eq!(
        info,
        NetworkInfo {
            wifi_name: Some("Home".to_string()),
            wifi_bssid: Some("aa:bb".to_string()),
            wifi_ip: Some("192.168.1.1".to_string()),
        }
    );
    let hidden = get_network_info(
        Some("<unknown ssid>".to_string()),
        Some("02:00:00:00:00:00".to_string()),
        Some(0),
    );
    assert_eq!(hidden, NetworkInfo::default());
    let quotes = get_network_info(Some("\"\"\"".to_string()), Some(String::new()), None);
    assert_eq!(quotes, NetworkInfo::default());
    let negative = get_network_info(None, None, Some(-1));
    assert_eq!(negative.wifi_ip, Some("255.255.255.255".to_string()));
}

#[test]
fn package_info_fills_missing_fields() {
    let p = get_package_info(Some("App".to_string()), "com.x".to_string(), None, Some(42));
    assert_eq!(p.app_name, "App");
    assert_eq!(p.package_name, "com.x");
    assert_eq!(p.version, "");
    assert_eq!(p.build_number, "42");
    let q = get_package_info(None, "com.y".to_string(), Some("1.2".to_string()), Some(i32::MIN));
    assert_eq!(q.app_name, "");
    assert_eq!(q.version, "1.2");
    assert_eq!(q.build_number, "-2147483648");
    assert_eq!(get_package_info(None, String::new(), None, None).build_number, "");
}

#[test]
fn haptics_map_to_feedback_constants() {
    assert_eq!(haptic_feedback(HapticFeedback::Light), VIRTUAL_KEY);
    assert_eq!(haptic_feedback(HapticFeedback::Heavy), LONG_PRESS);
    assert_eq!(haptic_feedback(HapticFeedback::Selection), KEYBOARD_TAP);
    assert_eq!(haptic_feedback(HapticFeedback::Error), LONG_PRESS);
}

#[test]
fn preferences_read_only_stored_keys() {
    let p = AndroidSharedPreferences::new();
    assert!(p.contains_key(Some(true)));
    assert!(!p.contains_key(None));
    assert_eq!(p.get_int(Some(true), Some(7)), Some(7));
    assert_eq!(p.get_int(Some(false), Some(0)), None);
    assert_eq!(p.get_bool(Some(true), Some(false)), Some(false));
    assert_eq!(p.get_bool(None, Some(true)), None);
}

#[test]
fn sensors_asks_each_type() {
    let only_accel = |t: i32| t == TYPE_ACCELEROMETER || t == TYPE_PRESSURE;
    let s = available_sensors(Some(only_accel));
    assert_eq!(s, SensorAvailability { accelerometer: true, gyroscope: false, magnetometer: false, barometer: true });
    let none: Option<fn(i32) -> bool> = None;
    assert_eq!(available_sensors(none), SensorAvailability::default());
}

#[test]
fn text_input_goes_to_the_registered_callback() {
    let mut received: Vec<String> = Vec::new();
    {
        let mut slot: Option<Box<dyn FnMut(&str) + '_>> = None;
        assert!(!dispatch_text_input(&mut slot, "lost"));
        set_text_input_callback(&mut slot, Some(Box::new(|t: &str| received.push(t.to_string()))));
        assert!(dispatch_text_input(&mut slot, "hi"));
        assert!(dispatch_text_input(&mut slot, "!"));
        set_text_input_callback(&mut slot, None);
        assert!(!dispatch_text_input(&mut slot, "gone"));
    }
    assert_eq!(received, vec!["hi".to_string(), "!".to_string()]);
}

#[test]
fn night_mode_reads_the_ui_mode_bits() {
    assert!(is_night_mode(0x21));
    assert!(!is_night_mode(0x11));
    assert!(!is_night_mode(0x31));
    assert!(!is_night_mode(0));
}

#[test]
fn lifecycle_defers_pause_and_resume() {
    let mut s = EventLoopState::new();
    let mut chrome = SystemChromeState::new();
    assert_eq!(handle_main_event(&mut s, &mut chrome, MainEventKind::LostFocus, true), MainEventAction::Nothing);
    assert_eq!(handle_main_event(&mut s, &mut chrome, MainEventKind::Resume, true), MainEventAction::Nothing);
    assert_eq!(s.take_pending_transitions(), (true, true));
    assert_eq!(s.take_pending_transitions(), (false, false));
    assert_eq!(handle_main_event(&mut s, &mut chrome, MainEventKind::Destroy, true), MainEventAction::Quit);
    assert_eq!(
        handle_main_event(&mut s, &mut chrome, MainEventKind::ConfigChanged { is_dark: true }, true),
        MainEventAction::ApplyConfiguration { appearance: WindowAppearance::Dark }
    );
}

#[test]
fn lifecycle_initialises_once_and_renders_when_active() {
    let mut s = EventLoopState::new();
    let mut chrome = SystemChromeState::new();
    assert_eq!(s.plan_frame(false, false), FramePlan { run_init_callbacks: false, run_finish_launching: false, run_init_window: false, render: false });
    assert_eq!(handle_main_event(&mut s, &mut chrome, MainEventKind::InitWindow, false), MainEventAction::OpenWindow);
    assert_eq!(s.plan_frame(true, false), FramePlan { run_init_callbacks: true, run_finish_launching: false, run_init_window: false, render: false });
    assert_eq!(s.plan_frame(true, true), FramePlan { run_init_callbacks: false, run_finish_launching: false, run_init_window: false, render: true });

    let style = SystemChromeStyle::default();
    assert!(set_system_chrome(&chrome, &style).is_some());
    chrome.mark_applied(&style);
    assert_eq!(set_system_chrome(&chrome, &style), None);
    assert_eq!(
        handle_main_event(&mut s, &mut chrome, MainEventKind::TerminateWindow, true),
        MainEventAction::TerminateSurface
    );
    assert!(set_system_chrome(&chrome, &style).is_some());
    assert_eq!(s.plan_frame(true, true), FramePlan { run_init_callbacks: true, run_finish_launching: false, run_init_window: false, render: true });
    assert_eq!(handle_main_event(&mut s, &mut chrome, MainEventKind::InitWindow, true), MainEventAction::ReinitWindow);
    assert!(s.init_window_done);
}
