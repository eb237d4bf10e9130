use vstd::prelude::*;

use crate::text::{chars_eq, chars_of};

verus! {

/// Which mouse button to simulate for 3-finger drag.
#[derive(Debug, Clone, Copy, PartialEq, Eq, Structural)]
pub enum DragButton {
    Left,
    Right,
    Middle,
    /// Drag without pressing any button.
    NoButton,
}

impl Default for DragButton {
    fn default() -> (b: Self)
        ensures
            b == DragButton::Left,
    {
        DragButton::Left
    }
}

/// Action to perform for a gesture.
#[derive(Debug, Clone, Copy, PartialEq, Eq, Structural)]
pub enum GestureAction {
    /// No action.
    NoAction,
    WinTab,
    AltTab,
    CtrlWinLeft,
    CtrlWinRight,
    ShowDesktop,
    OpenStart,
    Search,
    BrowserBack,
    BrowserForward,
    NotificationCenter,
    VolumeUp,
    VolumeDown,
    BrightnessUp,
    BrightnessDown,
    PageUp,
    PageDown,
    Maximize,
}

impl Default for GestureAction {
    fn default() -> (a: Self)
        ensures
            a == GestureAction::NoAction,
    {
        GestureAction::NoAction
    }
}

/// An application entry of a scroll policy black- or whitelist.
#[derive(Debug, Clone)]
pub struct AppPolicyItem {
    /// Full executable path (may be empty).
    pub path: String,
    /// Executable file name or process name.
    pub name: String,
    /// Human readable description.
    pub description: String,
    /// Icon as a data URL (may be empty).
    pub icon: String,
}

impl AppPolicyItem {
    pub fn new(path: &str, name: &str, description: &str, icon: &str) -> (item: Self)
        ensures
            item.path@ == path@,
            item.name@ == name@,
            item.description@ == description@,
            item.icon@ == icon@,
    {
        AppPolicyItem {
            path: String::from_str(path),
            name: String::from_str(name),
            description: String::from_str(description),
            icon: String::from_str(icon),
        }
    }

    /// An entry that names a process only.
    pub fn from_name(name: &str) -> (item: Self)
        ensures
            item.path@ == Seq::<char>::empty(),
            item.name@ == name@,
            item.description@ == Seq::<char>::empty(),
            item.icon@ == Seq::<char>::empty(),
    {
        AppPolicyItem {
            path: String::new(),
            name: String::from_str(name),
            description: String::new(),
            icon: String::new(),
        }
    }
}

/// The name under which the settings UI refers to an action.
pub open spec fn action_name(a: GestureAction) -> Seq<char> {
    match a {
        GestureAction::NoAction => "None"@,
        GestureAction::WinTab => "WinTab"@,
        GestureAction::AltTab => "AltTab"@,
        GestureAction::CtrlWinLeft => "CtrlWinLeft"@,
        GestureAction::CtrlWinRight => "CtrlWinRight"@,
        GestureAction::ShowDesktop => "ShowDesktop"@,
        GestureAction::OpenStart => "OpenStart"@,
        GestureAction::Search => "Search"@,
        GestureAction::BrowserBack => "BrowserBack"@,
        GestureAction::BrowserForward => "BrowserForward"@,
        GestureAction::NotificationCenter => "NotificationCenter"@,
        GestureAction::VolumeUp => "VolumeUp"@,
        GestureAction::VolumeDown => "VolumeDown"@,
        GestureAction::BrightnessUp => "BrightnessUp"@,
        GestureAction::BrightnessDown => "BrightnessDown"@,
        GestureAction::PageUp => "PageUp"@,
        GestureAction::PageDown => "PageDown"@,
        GestureAction::Maximize => "Maximize"@,
    }
}

/// The action a settings string names; unknown names mean no action.
pub open spec fn parse_action_spec(s: Seq<char>) -> GestureAction {
    if s == "WinTab"@ {
        GestureAction::WinTab
    } else if s == "AltTab"@ {
        GestureAction::AltTab
    } else if s == "CtrlWinLeft"@ {
        GestureAction::CtrlWinLeft
    } else if s == "CtrlWinRight"@ {
        GestureAction::CtrlWinRight
    } else if s == "ShowDesktop"@ {
        GestureAction::ShowDesktop
    } else if s == "OpenStart"@ {
        GestureAction::OpenStart
    } else if s == "Search"@ {
        GestureAction::Search
    } else if s == "NotificationCenter"@ {
        GestureAction::NotificationCenter
    } else if s == "VolumeUp"@ {
        GestureAction::VolumeUp
    } else if s == "VolumeDown"@ {
        GestureAction::VolumeDown
    } else if s == "BrightnessUp"@ {
        GestureAction::BrightnessUp
    } else if s == "BrightnessDown"@ {
        GestureAction::BrightnessDown
    } else if s == "PageUp"@ {
        GestureAction::PageUp
    } else if s == "PageDown"@ {
        GestureAction::PageDown
    } else if s == "BrowserBack"@ {
        GestureAction::BrowserBack
    } else if s == "BrowserForward"@ {
        GestureAction::BrowserForward
    } else if s == "Maximize"@ {
        GestureAction::Maximize
    } else {
        GestureAction::NoAction
    }
}

fn text_is(v: &Vec<char>, lit: &str) -> (r: bool)
    ensures
        r == (v@ == lit@),
{
    let w = chars_of(lit);
    chars_eq(v, &w)
}

/// Parse an action name coming from the settings UI.
pub fn parse_action(s: &str) -> (a: GestureAction)
    ensures
        a == parse_action_spec(s@),
{
    let v = chars_of(s);
    if text_is(&v, "WinTab") {
        GestureAction::WinTab
    } else if text_is(&v, "AltTab") {
        GestureAction::AltTab
    } else if text_is(&v, "CtrlWinLeft") {
        GestureAction::CtrlWinLeft
    } else if text_is(&v, "CtrlWinRight") {
        GestureAction::CtrlWinRight
    } else if text_is(&v, "ShowDesktop") {
        GestureAction::ShowDesktop
    } else if text_is(&v, "OpenStart") {
        GestureAction::OpenStart
    } else if text_is(&v, "Search") {
        GestureAction::Search
    } else if text_is(&v, "NotificationCenter") {
        GestureAction::NotificationCenter
    } else if text_is(&v, "VolumeUp") {
        GestureAction::VolumeUp
    } else if text_is(&v, "VolumeDown") {
        GestureAction::VolumeDown
    } else if text_is(&v, "BrightnessUp") {
        GestureAction::BrightnessUp
    } else if text_is(&v, "BrightnessDown") {
        GestureAction::BrightnessDown
    } else if text_is(&v, "PageUp") {
        GestureAction::PageUp
    } else if text_is(&v, "PageDown") {
        GestureAction::PageDown
    } else if text_is(&v, "BrowserBack") {
        GestureAction::BrowserBack
    } else if text_is(&v, "BrowserForward") {
        GestureAction::BrowserForward
    } else if text_is(&v, "Maximize") {
        GestureAction::Maximize
    } else {
        GestureAction::NoAction
    }
}

/// Length, first and third character: enough to tell action names apart.
spec fn name_key(s: Seq<char>) -> (nat, char, char) {
    (s.len(), s[0], s[2])
}

spec fn action_name_key(a: GestureAction) -> (nat, char, char) {
    match a {
        GestureAction::NoAction => (4, 'N', 'n'),
        GestureAction::WinTab => (6, 'W', 'n'),
        GestureAction::AltTab => (6, 'A', 't'),
        GestureAction::CtrlWinLeft => (11, 'C', 'r'),
        GestureAction::CtrlWinRight => (12, 'C', 'r'),
        GestureAction::ShowDesktop => (11, 'S', 'o'),
        GestureAction::OpenStart => (9, 'O', 'e'),
        GestureAction::Search => (6, 'S', 'a'),
        GestureAction::BrowserBack => (11, 'B', 'o'),
        GestureAction::BrowserForward => (14, 'B', 'o'),
        GestureAction::NotificationCenter => (18, 'N', 't'),
        GestureAction::VolumeUp => (8, 'V', 'l'),
        GestureAction::VolumeDown => (10, 'V', 'l'),
        GestureAction::BrightnessUp => (12, 'B', 'i'),
        GestureAction::BrightnessDown => (14, 'B', 'i'),
        GestureAction::PageUp => (6, 'P', 'g'),
        GestureAction::PageDown => (8, 'P', 'g'),
        GestureAction::Maximize => (8, 'M', 'x'),
    }
}

proof fn lemma_action_name_key(a: GestureAction)
    ensures
        name_key(action_name(a)) == action_name_key(a),
{
    match a {
        GestureAction::NoAction => {
            reveal_strlit("None");
            assert(action_name(a)[0] == 'N' && action_name(a)[2] == 'n');
        },
        GestureAction::WinTab => {
            reveal_strlit("WinTab");
            assert(action_name(a)[0] == 'W' && action_name(a)[2] == 'n');
        },
        GestureAction::AltTab => {
            reveal_strlit("AltTab");
            assert(action_name(a)[0] == 'A' && action_name(a)[2] == 't');
        },
        GestureAction::CtrlWinLeft => {
            reveal_strlit("CtrlWinLeft");
            assert(action_name(a)[0] == 'C' && action_name(a)[2] == 'r');
        },
        GestureAction::CtrlWinRight => {
            reveal_strlit("CtrlWinRight");
            assert(action_name(a)[0] == 'C' && action_name(a)[2] == 'r');
        },
        GestureAction::ShowDesktop => {
            reveal_strlit("ShowDesktop");
            assert(action_name(a)[0] == 'S' && action_name(a)[2] == 'o');
        },
        GestureAction::OpenStart => {
            reveal_strlit("OpenStart");
            assert(action_name(a)[0] == 'O' && action_name(a)[2] == 'e');
        },
        GestureAction::Search => {
            reveal_strlit("Search");
            assert(action_name(a)[0] == 'S' && action_name(a)[2] == 'a');
        },
        GestureAction::BrowserBack => {
            reveal_strlit("BrowserBack");
            assert(action_name(a)[0] == 'B' && action_name(a)[2] == 'o');
        },
        GestureAction::BrowserForward => {
            reveal_strlit("BrowserForward");
            assert(action_name(a)[0] == 'B' && action_name(a)[2] == 'o');
        },
        GestureAction::NotificationCenter => {
            reveal_strlit("NotificationCenter");
            assert(action_name(a)[0] == 'N' && action_name(a)[2] == 't');
        },
        GestureAction::VolumeUp => {
            reveal_strlit("VolumeUp");
            assert(action_name(a)[0] == 'V' && action_name(a)[2] == 'l');
        },
        GestureAction::VolumeDown => {
            reveal_strlit("VolumeDown");
            assert(action_name(a)[0] == 'V' && action_name(a)[2] == 'l');
        },
        GestureAction::BrightnessUp => {
            reveal_strlit("BrightnessUp");
            assert(action_name(a)[0] == 'B' && action_name(a)[2] == 'i');
        },
        GestureAction::BrightnessDown => {
            reveal_strlit("BrightnessDown");
            assert(action_name(a)[0] == 'B' && action_name(a)[2] == 'i');
        },
        GestureAction::PageUp => {
            reveal_strlit("PageUp");
            assert(action_name(a)[0] == 'P' && action_name(a)[2] == 'g');
        },
        GestureAction::PageDown => {
            reveal_strlit("PageDown");
            assert(action_name(a)[0] == 'P' && action_name(a)[2] == 'g');
        },
        GestureAction::Maximize => {
            reveal_strlit("Maximize");
            assert(action_name(a)[0] == 'M' && action_name(a)[2] == 'x');
        },
    }
}

/// Distinct actions have distinct names.
pub proof fn lemma_action_names_distinct(a: GestureAction, b: GestureAction)
    ensures
        action_name(a) == action_name(b) ==> a == b,
{
    lemma_action_name_key(a);
    lemma_action_name_key(b);
}

/// Every action is recovered from its name: `parse_action` inverts
/// `action_name`.
pub proof fn lemma_parse_action_name_roundtrip(a: GestureAction)
    ensures
        parse_action_spec(action_name(a)) == a,
{
    lemma_action_names_distinct(a, GestureAction::NoAction);
    lemma_action_names_distinct(a, GestureAction::WinTab);
    lemma_action_names_distinct(a, GestureAction::AltTab);
    lemma_action_names_distinct(a, GestureAction::CtrlWinLeft);
    lemma_action_names_distinct(a, GestureAction::CtrlWinRight);
    lemma_action_names_distinct(a, GestureAction::ShowDesktop);
    lemma_action_names_distinct(a, GestureAction::OpenStart);
    lemma_action_names_distinct(a, GestureAction::Search);
    lemma_action_names_distinct(a, GestureAction::BrowserBack);
    lemma_action_names_distinct(a, GestureAction::BrowserForward);
    lemma_action_names_distinct(a, GestureAction::NotificationCenter);
    lemma_action_names_distinct(a, GestureAction::VolumeUp);
    lemma_action_names_distinct(a, GestureAction::VolumeDown);
    lemma_action_names_distinct(a, GestureAction::BrightnessUp);
    lemma_action_names_distinct(a, GestureAction::BrightnessDown);
    lemma_action_names_distinct(a, GestureAction::PageUp);
    lemma_action_names_distinct(a, GestureAction::PageDown);
    lemma_action_names_distinct(a, GestureAction::Maximize);
}

/// One entry of the action menu shown by the settings UI.
#[derive(Debug, Clone)]
pub struct ActionInfo {
    /// The name `parse_action` reads back.
    pub key: String,
    /// What the menu shows.
    pub label: String,
}

/// The actions offered in the settings menu, in menu order, with their labels.
pub open spec fn action_menu() -> Seq<(GestureAction, Seq<char>)> {
    seq![
        (GestureAction::NoAction, "无"@),
        (GestureAction::WinTab, "任务视图"@),
        (GestureAction::AltTab, "Alt+Tab 切换窗口"@),
        (GestureAction::CtrlWinLeft, "左桌面"@),
        (GestureAction::CtrlWinRight, "右桌面"@),
        (GestureAction::ShowDesktop, "显示桌面"@),
        (GestureAction::OpenStart, "开始菜单"@),
        (GestureAction::Search, "搜索 (Win+S)"@),
        (GestureAction::NotificationCenter, "通知中心"@),
        (GestureAction::VolumeUp, "音量+"@),
        (GestureAction::VolumeDown, "音量-"@),
        (GestureAction::PageUp, "Page Up"@),
        (GestureAction::PageDown, "Page Down"@),
        (GestureAction::Maximize, "最大化窗口"@)
    ]
}

/// The action menu of the settings UI: each entry's key is the name of its
/// action and its label the menu text.
pub fn get_action_list() -> (r: Vec<ActionInfo>)
    ensures
        r@.len() == action_menu().len(),
        forall|i: int|
            0 <= i < r@.len() ==> #[trigger] r@[i].key@ == action_name(action_menu()[i].0)
                && r@[i].label@ == action_menu()[i].1,
{
    let mut v: Vec<ActionInfo> = Vec::new();
    v.push(ActionInfo { key: String::from_str("None"), label: String::from_str("无") });
    v.push(ActionInfo { key: String::from_str("WinTab"), label: String::from_str("任务视图") });
    v.push(ActionInfo { key: String::from_str("AltTab"), label: String::from_str("Alt+Tab 切换窗口") });
    v.push(ActionInfo { key: String::from_str("CtrlWinLeft"), label: String::from_str("左桌面") });
    v.push(ActionInfo { key: String::from_str("CtrlWinRight"), label: String::from_str("右桌面") });
    v.push(ActionInfo { key: String::from_str("ShowDesktop"), label: String::from_str("显示桌面") });
    v.push(ActionInfo { key: String::from_str("OpenStart"), label: String::from_str("开始菜单") });
    v.push(ActionInfo { key: String::from_str("Search"), label: String::from_str("搜索 (Win+S)") });
    v.push(ActionInfo { key: String::from_str("NotificationCenter"), label: String::from_str("通知中心") });
    v.push(ActionInfo { key: String::from_str("VolumeUp"), label: String::from_str("音量+") });
    v.push(ActionInfo { key: String::from_str("VolumeDown"), label: String::from_str("音量-") });
    v.push(ActionInfo { key: String::from_str("PageUp"), label: String::from_str("Page Up") });
    v.push(ActionInfo { key: String::from_str("PageDown"), label: String::from_str("Page Down") });
    v.push(ActionInfo { key: String::from_str("Maximize"), label: String::from_str("最大化窗口") });
    v
}

/// Every key the action menu offers is read back by `parse_action` as the
/// action it stands for.
pub proof fn lemma_menu_keys_parse(i: int)
    requires
        0 <= i < action_menu().len(),
    ensures
        parse_action_spec(action_name(action_menu()[i].0)) == action_menu()[i].0,
{
    lemma_parse_action_name_roundtrip(action_menu()[i].0);
}

} // verus!
