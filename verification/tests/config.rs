use mac_touchpad_core::config::{
    get_action_list, parse_action, AppPolicyItem, DragButton, GestureAction,
};
use mac_touchpad_core::startup::{autostart_command, APP_NAME};
use mac_touchpad_core::text::{chars_eq, chars_of, decimal_string, string_of};

#[test]
fn parse_action_reads_menu_keys() {
    assert_eq!(parse_action("WinTab"), GestureAction::WinTab);
    assert_eq!(parse_action("AltTab"), GestureAction::AltTab);
    assert_eq!(parse_action("CtrlWinLeft"), GestureAction::CtrlWinLeft);
    assert_eq!(parse_action("CtrlWinRight"), GestureAction::CtrlWinRight);
    assert_eq!(parse_action("ShowDesktop"), GestureAction::ShowDesktop);
    assert_eq!(parse_action("OpenStart"), GestureAction::OpenStart);
    assert_eq!(parse_action("Search"), GestureAction::Search);
    assert_eq!(parse_action("NotificationCenter"), GestureAction::NotificationCenter);
    assert_eq!(parse_action("VolumeUp"), GestureAction::VolumeUp);
    assert_eq!(parse_action("VolumeDown"), GestureAction::VolumeDown);
    assert_eq!(parse_action("BrightnessUp"), GestureAction::BrightnessUp);
    assert_eq!(parse_action("BrightnessDown"), GestureAction::BrightnessDown);
    assert_eq!(parse_action("PageUp"), GestureAction::PageUp);
    assert_eq!(parse_action("PageDown"), GestureAction::PageDown);
    assert_eq!(parse_action("BrowserBack"), GestureAction::BrowserBack);
    assert_eq!(parse_action("BrowserForward"), GestureAction::BrowserForward);
    assert_eq!(parse_action("Maximize"), GestureAction::Maximize);
}

#[test]
fn unknown_action_names_mean_no_action() {
    assert_eq!(parse_action("None"), GestureAction::NoAction);
    assert_eq!(parse_action("wintab"), GestureAction::NoAction);
    assert_eq!(parse_action(" WinTab"), GestureAction::NoAction);
    assert_eq!(parse_action(""), GestureAction::NoAction);
}

#[test]
fn action_menu_keys_parse_back() {
    let list = get_action_list();
    assert_eq!(list.len(), 14);
    assert_eq!(list[0].key, "None");
    assert_eq!(list[0].label, "无");
    assert_eq!(list[2].label, "Alt+Tab 切换窗口");
    assert_eq!(list[7].label, "搜索 (Win+S)");
    assert_eq!(list[13].key, "Maximize");
    assert_eq!(list[13].label, "最大化窗口");
    let actions: Vec<GestureAction> = list.iter().map(|a| parse_action(&a.key)).collect();
    assert_eq!(
        actions,
        vec![
            GestureAction::NoAction,
            GestureAction::WinTab,
            GestureAction::AltTab,
            GestureAction::CtrlWinLeft,
            GestureAction::CtrlWinRight,
            GestureAction::ShowDesktop,
            GestureAction::OpenStart,
            GestureAction::Search,
            GestureAction::NotificationCenter,
            GestureAction::VolumeUp,
            GestureAction::VolumeDown,
            GestureAction::PageUp,
            GestureAction::PageDown,
            GestureAction::Maximize,
        ]
    );
}

#[test]
fn defaults() {
    assert_eq!(DragButton::default(), DragButton::Left);
    assert_eq!(GestureAction::default(), GestureAction::NoAction);
}

#[test]
fn policy_items() {
    let a = AppPolicyItem::new("C:\\a.exe", "a.exe", "A", "data:");
    assert_eq!((a.path.as_str(), a.name.as_str(), a.description.as_str(), a.icon.as_str()), ("C:\\a.exe", "a.exe", "A", "data:"));
    let b = AppPolicyItem::from_name("chrome");
    assert_eq!((b.path.as_str(), b.name.as_str(), b.description.as_str(), b.icon.as_str()), ("", "chrome", "", ""));
}

#[test]
fn autostart_task_command() {
    assert_eq!(APP_NAME, "MacTouchpad");
    assert_eq!(
        autostart_command("C:\\Program Files\\MacTouchpad\\app.exe"),
        "\"C:\\Program Files\\MacTouchpad\\app.exe\" --autostart"
    );
}

#[test]
fn text_helpers() {
    let v = chars_of("héllo");
    assert_eq!(v, vec!['h', 'é', 'l', 'l', 'o']);
    assert_eq!(string_of(&v), "héllo");
    assert!(chars_eq(&v, &chars_of("héllo")));
    assert!(!chars_eq(&v, &chars_of("hello")));
    assert_eq!(decimal_string(0), "0");
    assert_eq!(decimal_string(4294967295), "4294967295");
}
