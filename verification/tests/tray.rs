use beme_lib::tray::{
    is_capturing, menu_action, on_shortcut, toggle_capture, toggle_label, CaptureFlag, TrayAction,
};

#[test]
fn tray_flag_toggles() {
    let mut flag = CaptureFlag::new();
    assert!(!is_capturing(&flag));
    assert!(toggle_capture(&mut flag));
    assert!(is_capturing(&flag));
    assert!(!toggle_capture(&mut flag));
    assert!(!is_capturing(&flag));
}

#[test]
fn tray_menu_entries_map_to_actions() {
    assert_eq!(menu_action("toggle_capture"), TrayAction::ToggleCapture);
    assert_eq!(menu_action("open_dashboard"), TrayAction::OpenDashboard);
    assert_eq!(menu_action("quit"), TrayAction::Quit);
    assert_eq!(menu_action("about"), TrayAction::Ignore);
    assert_eq!(menu_action(""), TrayAction::Ignore);
    assert_eq!(toggle_label(true), "Stop Capture");
    assert_eq!(toggle_label(false), "Start Capture");
}

#[test]
fn shortcut_toggles_on_press_only() {
    let mut flag = CaptureFlag::new();
    assert_eq!(on_shortcut(&mut flag, false), None);
    assert!(!is_capturing(&flag));
    assert_eq!(on_shortcut(&mut flag, true), Some(true));
    assert_eq!(on_shortcut(&mut flag, false), None);
    assert!(is_capturing(&flag));
    assert_eq!(on_shortcut(&mut flag, true), Some(false));
}
