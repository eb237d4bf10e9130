use mac_touchpad_core::config::{DragButton, GestureAction};
use mac_touchpad_core::gesture::two_finger::EdgeSlideAction;
use mac_touchpad_core::input::keyboard::{
    action_command, edge_slide_gesture, key_combo_events, step_brightness, variant_to_u32,
    ActionCommand, KeyEvent, WmiValue, VK_LCONTROL, VK_LEFT, VK_LMENU, VK_LWIN, VK_TAB,
    VK_VOLUME_DOWN, VK_VOLUME_UP,
};
use mac_touchpad_core::input::mouse::{
    button_down_flag, button_up_flag, MOUSEEVENTF_LEFTDOWN, MOUSEEVENTF_LEFTUP,
    MOUSEEVENTF_MIDDLEUP, MOUSEEVENTF_RIGHTDOWN,
};
use mac_touchpad_core::input::recorder::{
    build_combo_string, is_modifier, scan_key_states, vk_to_name, ScanOutcome,
};
use mac_touchpad_core::input::wheel_hook::{
    mouse_hook_decision, HookDecision, HookFlags, SYNTHETIC_SCROLL_MARKER, WM_LBUTTONDOWN,
    WM_MOUSEHWHEEL, WM_MOUSEMOVE, WM_MOUSEWHEEL,
};

fn down(vk: u16) -> KeyEvent {
    KeyEvent { vk, key_up: false }
}

fn up(vk: u16) -> KeyEvent {
    KeyEvent { vk, key_up: true }
}

#[test]
fn combo_releases_in_reverse_order() {
    let ev = key_combo_events(&[VK_LCONTROL, VK_LWIN, VK_LEFT]);
    assert_eq!(
        ev,
        vec![down(VK_LCONTROL), down(VK_LWIN), down(VK_LEFT), up(VK_LEFT), up(VK_LWIN), up(VK_LCONTROL)]
    );
    assert!(key_combo_events(&[]).is_empty());
}

#[test]
fn actions_map_to_shortcuts() {
    assert_eq!(action_command(GestureAction::WinTab), ActionCommand::Keys(vec![VK_LWIN, VK_TAB]));
    assert_eq!(action_command(GestureAction::AltTab), ActionCommand::Keys(vec![VK_LMENU, VK_TAB]));
    assert_eq!(
        action_command(GestureAction::CtrlWinLeft),
        ActionCommand::Keys(vec![VK_LCONTROL, VK_LWIN, VK_LEFT])
    );
    assert_eq!(action_command(GestureAction::OpenStart), ActionCommand::Keys(vec![VK_LWIN]));
    assert_eq!(action_command(GestureAction::PageUp), ActionCommand::Keys(vec![0x21]));
    assert_eq!(action_command(GestureAction::Maximize), ActionCommand::Keys(vec![VK_LWIN, 0x26]));
    assert_eq!(action_command(GestureAction::NoAction), ActionCommand::Nothing);
    assert_eq!(action_command(GestureAction::VolumeUp), ActionCommand::VolumeKey(VK_VOLUME_UP));
    assert_eq!(action_command(GestureAction::VolumeDown), ActionCommand::VolumeKey(VK_VOLUME_DOWN));
    assert_eq!(action_command(GestureAction::BrightnessUp), ActionCommand::Brightness(10));
    assert_eq!(action_command(GestureAction::BrightnessDown), ActionCommand::Brightness(-10));
}

#[test]
fn edge_slides_honour_inversion() {
    assert_eq!(edge_slide_gesture(EdgeSlideAction::VolumeUp, false, false), GestureAction::VolumeUp);
    assert_eq!(edge_slide_gesture(EdgeSlideAction::VolumeUp, true, false), GestureAction::VolumeDown);
    assert_eq!(edge_slide_gesture(EdgeSlideAction::VolumeDown, true, true), GestureAction::VolumeUp);
    assert_eq!(
        edge_slide_gesture(EdgeSlideAction::BrightnessUp, true, true),
        GestureAction::BrightnessDown
    );
    assert_eq!(
        edge_slide_gesture(EdgeSlideAction::BrightnessDown, false, false),
        GestureAction::BrightnessDown
    );
}

#[test]
fn brightness_steps_are_clamped() {
    assert_eq!(step_brightness(50, 10, 0, 100), 60);
    assert_eq!(step_brightness(95, 10, 0, 100), 100);
    assert_eq!(step_brightness(5, -10, 0, 100), 0);
    assert_eq!(step_brightness(30, -10, 20, 80), 20);
    assert_eq!(step_brightness(50, 0, 60, 80), 60);
}

#[test]
fn wmi_values_convert_like_casts() {
    assert_eq!(variant_to_u32(WmiValue::UI1(200)), Some(200));
    assert_eq!(variant_to_u32(WmiValue::I1(0xFF)), Some(255));
    assert_eq!(variant_to_u32(WmiValue::I2(-2)), Some(u32::MAX - 1));
    assert_eq!(variant_to_u32(WmiValue::UI4(70)), Some(70));
    assert_eq!(variant_to_u32(WmiValue::Int(42)), Some(42));
    assert_eq!(variant_to_u32(WmiValue::Unsupported(8)), None);
}

#[test]
fn drag_button_flags_pair_up() {
    assert_eq!(button_down_flag(DragButton::Left), Some(MOUSEEVENTF_LEFTDOWN));
    assert_eq!(button_up_flag(DragButton::Left), Some(MOUSEEVENTF_LEFTUP));
    assert_eq!(button_down_flag(DragButton::Right), Some(MOUSEEVENTF_RIGHTDOWN));
    assert_eq!(button_up_flag(DragButton::Middle), Some(MOUSEEVENTF_MIDDLEUP));
    assert_eq!(button_down_flag(DragButton::NoButton), None);
    assert_eq!(button_up_flag(DragButton::NoButton), None);
    for b in [DragButton::Left, DragButton::Right, DragButton::Middle] {
        assert_eq!(button_up_flag(b), button_down_flag(b).map(|d| d << 1));
    }
}

#[test]
fn key_names() {
    assert_eq!(vk_to_name(0x41), "A");
    assert_eq!(vk_to_name(0x5A), "Z");
    assert_eq!(vk_to_name(0x30), "0");
    assert_eq!(vk_to_name(0x39), "9");
    assert_eq!(vk_to_name(0x70), "F1");
    assert_eq!(vk_to_name(0x7B), "F12");
    assert_eq!(vk_to_name(0x1B), "Esc");
    assert_eq!(vk_to_name(0xDC), "\\");
    assert_eq!(vk_to_name(0x07), "VK_0x07");
    assert_eq!(vk_to_name(0xFF), "VK_0xFF");
    assert_eq!(vk_to_name(0x1AB), "VK_0x1AB");
}

#[test]
fn combo_strings_list_modifiers_in_order() {
    assert_eq!(build_combo_string(true, true, true, true, 0x41), "Ctrl+Alt+Shift+Win+A");
    assert_eq!(build_combo_string(false, false, false, false, 0x20), "Space");
    assert_eq!(build_combo_string(true, false, true, false, 0x70), "Ctrl+Shift+F1");
    assert_eq!(build_combo_string(false, true, false, false, 0x09), "Alt+Tab");
}

#[test]
fn modifier_keys() {
    for vk in [0x10, 0x11, 0x12, 0xA0, 0xA1, 0xA2, 0xA3, 0xA4, 0xA5, 0x5B, 0x5C] {
        assert!(is_modifier(vk));
    }
    assert!(!is_modifier(0x41));
    assert!(!is_modifier(0x1B));
}

#[test]
fn recording_scan() {
    let mut prev = vec![false; 256];
    let mut now = vec![false; 256];
    now[0x11] = true; // Ctrl alone does not finish a shortcut
    assert_eq!(scan_key_states(&mut prev, &now), ScanOutcome::Continue);
    assert!(prev[0x11]);
    now[0x43] = true;
    assert_eq!(scan_key_states(&mut prev, &now), ScanOutcome::Pressed(0x43));

    // A key still held from before does not count again.
    let mut prev = now.clone();
    assert_eq!(scan_key_states(&mut prev, &now), ScanOutcome::Continue);

    let mut prev = vec![false; 256];
    let mut now = vec![false; 256];
    now[0x1B] = true;
    now[0x41] = true;
    assert_eq!(scan_key_states(&mut prev, &now), ScanOutcome::Cancel);
}

const OFF: HookFlags = HookFlags {
    touchpad_scrolling: false,
    smooth_scroll_enabled: false,
    policy_allows: true,
    synthetic_device_active: false,
};
const SMOOTH: HookFlags = HookFlags {
    touchpad_scrolling: false,
    smooth_scroll_enabled: true,
    policy_allows: true,
    synthetic_device_active: true,
};

#[test]
fn hook_swallows_touch_promoted_clicks() {
    assert_eq!(mouse_hook_decision(0, WM_LBUTTONDOWN, 0xFF515701, 0, 0, OFF), HookDecision::Swallow);
    assert_eq!(mouse_hook_decision(0, WM_MOUSEMOVE, 0xFF515700, 0, 0, OFF), HookDecision::Swallow);
    assert_eq!(mouse_hook_decision(0, WM_LBUTTONDOWN, 0, 0, 0, OFF), HookDecision::PassThrough);
    assert_eq!(mouse_hook_decision(-1, WM_LBUTTONDOWN, 0xFF515701, 0, 0, OFF), HookDecision::PassThrough);
}

#[test]
fn hook_routes_wheel_events() {
    let notch = (120u32) << 16;
    let back = (0xFF88u32) << 16; // -120
    assert_eq!(
        mouse_hook_decision(0, WM_MOUSEWHEEL, SYNTHETIC_SCROLL_MARKER, 0, notch, SMOOTH),
        HookDecision::PassThrough
    );
    assert_eq!(mouse_hook_decision(0, WM_MOUSEWHEEL, 0, 0, notch, SMOOTH), HookDecision::Intercept(120, false));
    assert_eq!(mouse_hook_decision(0, WM_MOUSEHWHEEL, 0, 0, back, SMOOTH), HookDecision::Intercept(-120, true));
    assert_eq!(mouse_hook_decision(0, WM_MOUSEWHEEL, 0, 1, notch, SMOOTH), HookDecision::PassThrough);
    assert_eq!(mouse_hook_decision(0, WM_MOUSEWHEEL, 0, 0, notch, OFF), HookDecision::PassThrough);
    let scrolling = HookFlags { touchpad_scrolling: true, ..OFF };
    assert_eq!(mouse_hook_decision(0, WM_MOUSEWHEEL, 0, 0, notch, scrolling), HookDecision::Swallow);
    let blocked = HookFlags { policy_allows: false, ..SMOOTH };
    assert_eq!(mouse_hook_decision(0, WM_MOUSEWHEEL, 0, 0, notch, blocked), HookDecision::PassThrough);
}

#[test]
fn hook_passes_free_spinning_wheel_deltas() {
    let fine = (30u32) << 16;
    let fine_back = (0xFFE2u32) << 16; // -30
    let two_notches = (240u32) << 16;
    let back = (0xFF88u32) << 16; // -120
    assert_eq!(mouse_hook_decision(0, WM_MOUSEWHEEL, 0, 0, fine, SMOOTH), HookDecision::PassThrough);
    assert_eq!(mouse_hook_decision(0, WM_MOUSEWHEEL, 0, 0, fine_back, SMOOTH), HookDecision::PassThrough);
    assert_eq!(mouse_hook_decision(0, WM_MOUSEHWHEEL, 0, 0, (121u32) << 16, SMOOTH), HookDecision::PassThrough);
    assert_eq!(mouse_hook_decision(0, WM_MOUSEWHEEL, 0, 0, two_notches, SMOOTH), HookDecision::Intercept(240, false));
    assert_eq!(mouse_hook_decision(0, WM_MOUSEWHEEL, 0, 0, back, SMOOTH), HookDecision::Intercept(-120, false));
}

#[test]
fn synthetic_touchpad_parameters() {
    let p = mac_touchpad_core::input::smooth_scroll::touchpad_device_params();
    assert_eq!(
        (p.pointer_type, p.max_count, p.feedback_mode, p.h_monitor, p.device_width, p.device_height, p.options),
        (5, 2, 3, 0, 10000, 7000, 3)
    );
}
