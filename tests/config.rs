use cosmic_pie_menu::config::{
    default_swipe_threshold, default_true, direction_allowed, workspace_layout_from_content,
    GestureConfig, PieMenuConfig, SwipeAction, WorkspaceLayout,
};
use cosmic_pie_menu::device::{
    check_first_touchpad, is_event_device_path, is_touchpad_with_finger_support,
    no_touchpad_error, DeviceCapabilities, GestureError, OpenOutcome,
};
use cosmic_pie_menu::gesture::SwipeDirection;
use cosmic_pie_menu::settings::{
    action, index_to_swipe_action, init, str_to_swipe, swipe_action_to_index, swipe_to_str,
};

#[test]
fn commands_of_actions() {
    assert_eq!(SwipeAction::Nothing.command(), None);
    assert_eq!(SwipeAction::AppLibrary.command(), Some("cosmic-app-library"));
    assert_eq!(SwipeAction::Launcher.command(), Some("cosmic-launcher"));
    assert_eq!(SwipeAction::Workspaces.command(), Some("cosmic-workspaces"));
    assert_eq!(SwipeAction::PieMenu.command(), None);
    assert_eq!(SwipeAction::all().len(), 5);
    assert_eq!(SwipeAction::all()[4], SwipeAction::PieMenu);
}

#[test]
fn defaults() {
    let c = PieMenuConfig::default();
    assert_eq!(c.finger_count, 4);
    assert_eq!(c.tap_duration_ms, 200);
    assert_eq!(c.tap_movement, 500);
    assert_eq!(c.swipe_threshold, 300);
    assert_eq!(c.swipe_up, SwipeAction::Workspaces);
    assert_eq!(c.swipe_down, SwipeAction::AppLibrary);
    assert_eq!(c.swipe_left, SwipeAction::Nothing);
    assert_eq!(c.swipe_right, SwipeAction::Nothing);
    assert!(c.show_background);
    assert!(!c.icon_only_highlight);
    assert!(default_true());
    assert_eq!(default_swipe_threshold(), 300);
    let g = GestureConfig::default();
    assert_eq!(g, GestureConfig::from(&c));
    assert_eq!(g.tap_max_duration_ms, 200);
    assert_eq!(g.action_for(SwipeDirection::Up), SwipeAction::Workspaces);
    assert_eq!(WorkspaceLayout::default(), WorkspaceLayout::Horizontal);
}

#[test]
fn conversion_keeps_fields() {
    let mut c = PieMenuConfig::default();
    c.finger_count = 3;
    c.tap_duration_ms = 321;
    c.tap_movement = 77;
    c.swipe_threshold = 88;
    c.swipe_right = SwipeAction::Launcher;
    let g = GestureConfig::from(&c);
    assert_eq!(g.finger_count, 3);
    assert_eq!(g.tap_max_duration_ms, 321);
    assert_eq!(g.tap_max_movement, 77);
    assert_eq!(g.swipe_threshold, 88);
    assert_eq!(g.action_for(SwipeDirection::Right), SwipeAction::Launcher);
}

#[test]
fn workspace_layout_text() {
    assert_eq!(
        workspace_layout_from_content("(workspace_mode: OutputBound, workspace_layout: Vertical)"),
        WorkspaceLayout::Vertical
    );
    assert_eq!(
        workspace_layout_from_content("(workspace_layout: Horizontal)"),
        WorkspaceLayout::Horizontal
    );
    assert_eq!(workspace_layout_from_content(""), WorkspaceLayout::Horizontal);
    assert_eq!(workspace_layout_from_content("Vertica"), WorkspaceLayout::Horizontal);
    assert!(direction_allowed(WorkspaceLayout::Horizontal, SwipeDirection::Up));
    assert!(!direction_allowed(WorkspaceLayout::Horizontal, SwipeDirection::Right));
    assert!(direction_allowed(WorkspaceLayout::Vertical, SwipeDirection::Left));
    assert!(!direction_allowed(WorkspaceLayout::Vertical, SwipeDirection::Down));
}

#[test]
fn touchpad_capabilities() {
    let caps = DeviceCapabilities {
        has_triple_tap: true,
        has_quad_tap: false,
        has_abs_x: false,
        has_mt_position_x: true,
    };
    assert!(is_touchpad_with_finger_support(&caps, 3));
    assert!(!is_touchpad_with_finger_support(&caps, 4));
    let no_axis = DeviceCapabilities { has_mt_position_x: false, ..caps };
    assert!(!is_touchpad_with_finger_support(&no_axis, 3));
    assert!(is_event_device_path("/dev/input/event7"));
    assert!(!is_event_device_path("/dev/input/mouse0"));
}

#[test]
fn setup_errors() {
    assert_eq!(no_touchpad_error(None), GestureError::NoTouchpadFound);
    assert_eq!(
        no_touchpad_error(Some(("/dev/input/event3".to_string(), OpenOutcome::AccessDenied))),
        GestureError::PermissionDenied("/dev/input/event3".to_string())
    );
    assert_eq!(
        no_touchpad_error(Some(("/dev/input/event3".to_string(), OpenOutcome::Opened))),
        GestureError::NoTouchpadFound
    );
    assert_eq!(check_first_touchpad("/dev/input/event1".to_string(), OpenOutcome::Opened), Ok(()));
    assert_eq!(
        check_first_touchpad("/dev/input/event1".to_string(), OpenOutcome::AccessDenied),
        Err(GestureError::PermissionDenied("/dev/input/event1".to_string()))
    );
    assert_eq!(
        check_first_touchpad("/dev/input/event1".to_string(), OpenOutcome::Failed("busy".to_string())),
        Err(GestureError::DeviceError("busy".to_string()))
    );
    assert_eq!(
        GestureError::DeviceError("busy".to_string()).message(),
        "Device error: busy"
    );
    assert_eq!(
        GestureError::ThreadError("x".to_string()).message(),
        "Thread error: x"
    );
    assert_eq!(
        GestureError::NoTouchpadFound.message(),
        "No touchpad with multi-finger tap support found"
    );
    assert_eq!(
        GestureError::PermissionDenied("/p".to_string()).message(),
        "Permission denied accessing /p. Add user to 'input' group: sudo usermod -aG input $USER"
    );
}

#[test]
fn settings_names_and_indices() {
    for (i, a) in SwipeAction::all().iter().enumerate() {
        assert_eq!(swipe_action_to_index(*a), i);
        assert_eq!(index_to_swipe_action(i), *a);
        assert_eq!(str_to_swipe(swipe_to_str(*a)), Ok(*a));
    }
    assert_eq!(index_to_swipe_action(5), SwipeAction::Nothing);
    assert_eq!(swipe_to_str(SwipeAction::Nothing), "None");
    assert_eq!(str_to_swipe("Sideways"), Err("Unknown swipe action: Sideways".to_string()));
    let s = init(PieMenuConfig::default(), WorkspaceLayout::Vertical);
    assert_eq!(s.finger_index, 1);
    assert_eq!(s.swipe_up_index, 3);
    assert_eq!(s.swipe_down_index, 1);
    assert_eq!(s.swipe_left_index, 0);
    assert_eq!(s.workspace_layout, WorkspaceLayout::Vertical);
    assert!(matches!(action("reset"), Ok(c) if c.finger_count == 4));
    assert_eq!(action("explode").err(), Some("Unknown action: explode".to_string()));
}

use cosmic_pie_menu::device::{touchpad_paths, DeviceEntry};
use cosmic_pie_menu::menu::{circular_distance, PieCanvasMessage};
use cosmic_pie_menu::settings::{
    setting_kind, update, visible_swipe_settings, Message, SettingKind, SettingValue,
};
use cosmic_pie_menu::tray::{GestureFeedback, TrayMessage};

#[test]
fn touchpad_paths_filter_entries() {
    let pad = DeviceCapabilities {
        has_triple_tap: true,
        has_quad_tap: true,
        has_abs_x: true,
        has_mt_position_x: false,
    };
    let keyboard = DeviceCapabilities {
        has_triple_tap: false,
        has_quad_tap: false,
        has_abs_x: false,
        has_mt_position_x: false,
    };
    let entries = vec![
        DeviceEntry { path: "/dev/input/event0".to_string(), capabilities: Some(keyboard) },
        DeviceEntry { path: "/dev/input/event4".to_string(), capabilities: Some(pad) },
        DeviceEntry { path: "/dev/input/mouse0".to_string(), capabilities: Some(pad) },
        DeviceEntry { path: "/dev/input/event9".to_string(), capabilities: None },
        DeviceEntry { path: "/dev/input/event5".to_string(), capabilities: Some(pad) },
    ];
    assert_eq!(
        touchpad_paths(&entries, 4),
        vec!["/dev/input/event4".to_string(), "/dev/input/event5".to_string()]
    );
    assert!(touchpad_paths(&Vec::new(), 3).is_empty());
}

#[test]
fn ring_distance_up_to_one_turn_apart() {
    assert_eq!(circular_distance(9, 1, 8), 0);
    assert_eq!(circular_distance(10, 3, 8), 1);
    assert_eq!(circular_distance(3, 9, 8), 2);
}

#[test]
fn settings_page_updates() {
    let mut s = init(PieMenuConfig::default(), WorkspaceLayout::Horizontal);
    update(&mut s, Message::FingerCountChanged(0));
    assert_eq!(s.finger_index, 0);
    assert_eq!(s.config.finger_count, 3);
    update(&mut s, Message::TapDurationChanged(260));
    update(&mut s, Message::MovementThresholdChanged(650));
    update(&mut s, Message::SwipeThresholdChanged(250));
    update(&mut s, Message::SwipeLeftChanged(4));
    update(&mut s, Message::SwipeRightChanged(9));
    update(&mut s, Message::ShowBackgroundToggled(false));
    update(&mut s, Message::IconOnlyHighlightToggled(true));
    assert_eq!(s.config.tap_duration_ms, 260);
    assert_eq!(s.config.tap_movement, 650);
    assert_eq!(s.config.swipe_threshold, 250);
    assert_eq!(s.config.swipe_left, SwipeAction::PieMenu);
    assert_eq!(s.swipe_right_index, 9);
    assert_eq!(s.config.swipe_right, SwipeAction::Nothing);
    assert!(!s.config.show_background);
    assert!(s.config.icon_only_highlight);
    update(&mut s, Message::ResetDefaults);
    assert_eq!(s, init(PieMenuConfig::default(), WorkspaceLayout::Horizontal));
}

#[test]
fn settings_set_by_key() {
    let mut c = PieMenuConfig::default();
    assert_eq!(setting_kind("finger_count"), Some(SettingKind::Text));
    assert_eq!(setting_kind("tap_movement"), Some(SettingKind::Number));
    assert_eq!(setting_kind("show_background"), Some(SettingKind::Flag));
    assert_eq!(setting_kind("icon_size"), None);
    assert_eq!(cosmic_pie_menu::settings::set(&mut c, "finger_count", &SettingValue::Text("3".to_string())), Ok("Updated finger count"));
    assert_eq!(c.finger_count, 3);
    assert_eq!(
        cosmic_pie_menu::settings::set(&mut c, "finger_count", &SettingValue::Text("5".to_string())),
        Err("Finger count must be 3 or 4".to_string())
    );
    assert_eq!(c.finger_count, 3);
    assert!(cosmic_pie_menu::settings::set(&mut c, "swipe_left", &SettingValue::Text("Launcher".to_string())).is_ok());
    assert_eq!(c.swipe_left, SwipeAction::Launcher);
    assert_eq!(
        cosmic_pie_menu::settings::set(&mut c, "swipe_up", &SettingValue::Text("Teleport".to_string())),
        Err("Unknown swipe action: Teleport".to_string())
    );
    assert!(cosmic_pie_menu::settings::set(&mut c, "tap_duration_ms", &SettingValue::Number { as_u64: 333, as_i32: 333 }).is_ok());
    assert!(cosmic_pie_menu::settings::set(&mut c, "swipe_threshold", &SettingValue::Number { as_u64: 0, as_i32: -5 }).is_ok());
    assert_eq!(c.tap_duration_ms, 333);
    assert_eq!(c.swipe_threshold, -5);
    assert!(cosmic_pie_menu::settings::set(&mut c, "show_background", &SettingValue::Flag(false)).is_ok());
    assert!(!c.show_background);
    assert_eq!(
        cosmic_pie_menu::settings::set(&mut c, "show_background", &SettingValue::Text("no".to_string())),
        Err("Invalid value for show_background".to_string())
    );
    assert_eq!(
        cosmic_pie_menu::settings::set(&mut c, "animation_speed", &SettingValue::Flag(true)),
        Err("Unknown key: animation_speed".to_string())
    );
}

#[test]
fn described_swipes_follow_layout() {
    let c = PieMenuConfig::default();
    let h = visible_swipe_settings(&c, WorkspaceLayout::Horizontal);
    assert_eq!((h[0].key, h[0].label, h[0].action), ("swipe_up", "Swipe Up", SwipeAction::Workspaces));
    assert_eq!((h[1].key, h[1].action), ("swipe_down", SwipeAction::AppLibrary));
    let v = visible_swipe_settings(&c, WorkspaceLayout::Vertical);
    assert_eq!((v[0].key, v[1].key), ("swipe_left", "swipe_right"));
}

#[test]
fn gesture_feedback_flags() {
    let f = GestureFeedback::new();
    let shared = f.clone();
    assert!(!f.check_and_reset_trigger());
    shared.trigger();
    assert!(f.check_and_reset_trigger());
    assert!(!f.check_and_reset_trigger());
    shared.reset();
    assert!(f.check_and_reset_reset());
    assert!(!f.check_and_reset_reset());
    assert_eq!(TrayMessage::ShowPieMenu { x: 1, y: 2 }, TrayMessage::ShowPieMenu { x: 1, y: 2 });
    assert_ne!(PieCanvasMessage::HoverSegment(None), PieCanvasMessage::ClickCenter);
}
