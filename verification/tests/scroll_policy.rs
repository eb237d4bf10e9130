use mac_touchpad_core::config::AppPolicyItem;
use mac_touchpad_core::scroll_policy::{
    can_normalize, evaluate, evaluate_checkable, evaluate_checked, in_app_list, in_app_list_checkable,
    in_list, is_browser, is_fullscreen, is_fullscreen_internal, normalize_process, ForegroundInfo,
    PolicyConfig, PolicyStep, PolicyTracker,
};

fn info(process: &str, rect: (i32, i32, i32, i32)) -> ForegroundInfo {
    ForegroundInfo {
        process_name: process.into(),
        process_path: format!("C:\\Apps\\{}.exe", process),
        rect,
        monitor_rect: (0, 0, 1920, 1080),
        monitor_work: (0, 0, 1920, 1040),
    }
}

fn info_with_path(process: &str, path: &str, rect: (i32, i32, i32, i32)) -> ForegroundInfo {
    ForegroundInfo {
        process_name: process.into(),
        process_path: path.into(),
        rect,
        monitor_rect: (0, 0, 1920, 1080),
        monitor_work: (0, 0, 1920, 1040),
    }
}

#[test]
fn test_normalize_process() {
    assert_eq!(normalize_process("Chrome.EXE"), "chrome");
    assert_eq!(normalize_process("C:\\Program Files\\Google\\Chrome\\chrome.exe"), "chrome");
    assert_eq!(normalize_process("C:/Users/x/AppData/Local/msedge.exe"), "msedge");
    assert_eq!(normalize_process("NOTEPAD"), "notepad");
    assert_eq!(normalize_process(""), "");
}

#[test]
fn test_in_app_list() {
    let list = vec![
        AppPolicyItem::from_name("chrome"),
        AppPolicyItem::new("C:\\Program Files\\Notepad++\\notepad++.exe", "notepad++.exe", "Notepad++", ""),
    ];
    let info1 = info_with_path("chrome", "C:\\Google\\chrome.exe", (0, 0, 100, 100));
    assert!(in_app_list(&info1, &list));

    let info2 = info_with_path("notepad++", "c:\\program files\\notepad++\\notepad++.exe", (0, 0, 100, 100));
    assert!(in_app_list(&info2, &list));

    let info3 = info_with_path("code", "c:\\vs code\\code.exe", (0, 0, 100, 100));
    assert!(!in_app_list(&info3, &list));
}

#[test]
fn test_is_browser() {
    assert!(is_browser("chrome"));
    assert!(is_browser("msedge"));
    assert!(is_browser("360chrome"));
    assert!(is_browser("qqbrowser"));
    assert!(!is_browser("notepad"));
    assert!(!is_browser("explorer"));
}

#[test]
fn test_is_fullscreen() {
    assert!(is_fullscreen(&info("game", (0, 0, 1920, 1080))));
    assert!(is_fullscreen(&info("game", (1, 1, 1920, 1080))));
    assert!(is_fullscreen(&info("game", (-1, 0, 1920, 1080))));
    assert!(is_fullscreen(&info("game", (-2, -2, 1922, 1082))));
    assert!(!is_fullscreen(&info("app", (0, 0, 1920, 1072))));
    assert!(!is_fullscreen(&info("app", (100, 100, 800, 600))));
}

#[test]
fn test_evaluate_short_circuit_chain() {
    let cfg = PolicyConfig {
        enabled: false,
        fullscreen_disabled: true,
        blacklist_enabled: true,
        browser_only: false,
        whitelist_enabled: false,
        blacklist: vec![AppPolicyItem::from_name("game")],
        whitelist: vec![],
    };
    assert_eq!(evaluate(&cfg, &info("game", (0, 0, 1920, 1080))), (true, "disabled"));

    let cfg = PolicyConfig {
        enabled: true,
        fullscreen_disabled: true,
        blacklist_enabled: false,
        browser_only: false,
        whitelist_enabled: false,
        blacklist: vec![],
        whitelist: vec![],
    };
    assert_eq!(evaluate(&cfg, &info("game", (0, 0, 1920, 1080))), (false, "fullscreen"));
    assert_eq!(evaluate(&cfg, &info("game", (10, 10, 800, 600))), (true, "pass"));

    let cfg = PolicyConfig {
        enabled: true,
        fullscreen_disabled: false,
        blacklist_enabled: false,
        browser_only: false,
        whitelist_enabled: false,
        blacklist: vec![],
        whitelist: vec![],
    };
    assert_eq!(evaluate(&cfg, &info("game", (0, 0, 1920, 1080))), (true, "pass"));

    let cfg = PolicyConfig {
        enabled: true,
        fullscreen_disabled: true,
        blacklist_enabled: true,
        browser_only: true,
        whitelist_enabled: false,
        blacklist: vec![AppPolicyItem::from_name("chrome")],
        whitelist: vec![],
    };
    assert_eq!(evaluate(&cfg, &info("chrome", (0, 0, 1920, 1080))), (false, "fullscreen"));
    assert_eq!(evaluate(&cfg, &info("chrome", (10, 10, 800, 600))), (false, "blacklist"));

    let cfg = PolicyConfig {
        enabled: true,
        fullscreen_disabled: false,
        blacklist_enabled: true,
        browser_only: true,
        whitelist_enabled: false,
        blacklist: vec![],
        whitelist: vec![],
    };
    assert_eq!(evaluate(&cfg, &info("notepad", (10, 10, 800, 600))), (false, "browser"));
    assert_eq!(evaluate(&cfg, &info("chrome", (10, 10, 800, 600))), (true, "pass"));

    let cfg = PolicyConfig {
        enabled: true,
        fullscreen_disabled: false,
        blacklist_enabled: false,
        browser_only: false,
        whitelist_enabled: true,
        blacklist: vec![],
        whitelist: vec![AppPolicyItem::from_name("notepad")],
    };
    assert_eq!(evaluate(&cfg, &info("chrome", (10, 10, 800, 600))), (false, "whitelist"));
    assert_eq!(evaluate(&cfg, &info("notepad", (10, 10, 800, 600))), (true, "pass"));

    let cfg = PolicyConfig {
        enabled: true,
        fullscreen_disabled: true,
        blacklist_enabled: true,
        browser_only: true,
        whitelist_enabled: true,
        blacklist: vec![AppPolicyItem::from_name("edge")],
        whitelist: vec![AppPolicyItem::from_name("chrome"), AppPolicyItem::from_name("edge")],
    };
    assert_eq!(evaluate(&cfg, &info("chrome", (10, 10, 800, 600))), (true, "pass"));
    assert_eq!(evaluate(&cfg, &info("edge", (10, 10, 800, 600))), (false, "blacklist"));
    assert_eq!(evaluate(&cfg, &info("firefox", (10, 10, 800, 600))), (false, "whitelist"));
    assert_eq!(evaluate(&cfg, &info("notepad", (10, 10, 800, 600))), (false, "browser"));
}

fn all_rules_on() -> PolicyConfig {
    PolicyConfig {
        enabled: true,
        fullscreen_disabled: true,
        blacklist_enabled: true,
        browser_only: true,
        whitelist_enabled: true,
        blacklist: vec![AppPolicyItem::from_name("game")],
        whitelist: vec![AppPolicyItem::from_name("chrome")],
    }
}

#[test]
fn unknown_process_keeps_smooth_scrolling() {
    let cfg = all_rules_on();
    assert_eq!(evaluate(&cfg, &info("", (0, 0, 1920, 1080))), (true, "fail"));
}

#[test]
fn default_policy_is_disabled() {
    let cfg = PolicyConfig::default();
    assert!(!cfg.enabled);
    assert!(cfg.blacklist.is_empty() && cfg.whitelist.is_empty());
    assert_eq!(evaluate(&cfg, &info("game", (0, 0, 1920, 1080))), (true, "disabled"));
}

#[test]
fn wildcard_entry_matches_every_process() {
    let list = vec![AppPolicyItem::from_name(" * ")];
    assert!(in_app_list(&info("anything", (0, 0, 10, 10)), &list));
    let by_path = vec![AppPolicyItem::new("*", "", "", "")];
    assert!(in_app_list(&info("other", (0, 0, 10, 10)), &by_path));
    let cfg = PolicyConfig {
        enabled: true,
        fullscreen_disabled: false,
        blacklist_enabled: true,
        browser_only: false,
        whitelist_enabled: false,
        blacklist: list,
        whitelist: vec![],
    };
    assert_eq!(evaluate(&cfg, &info("chrome", (10, 10, 800, 600))), (false, "blacklist"));
}

#[test]
fn empty_entries_match_nothing() {
    let list = vec![AppPolicyItem::new("", "", "", "")];
    assert!(!in_app_list(&info_with_path("x", "", (0, 0, 10, 10)), &list));
    assert!(!in_app_list(&info("x", (0, 0, 10, 10)), &[]));
}

#[test]
fn entry_name_is_trimmed_and_case_folded() {
    let list = vec![AppPolicyItem::from_name("  Chrome.EXE ")];
    assert!(in_app_list(&info("CHROME", (0, 0, 10, 10)), &list));
}

#[test]
fn enabled_blacklist_that_is_empty_does_not_veto() {
    let cfg = PolicyConfig {
        enabled: true,
        fullscreen_disabled: false,
        blacklist_enabled: true,
        browser_only: false,
        whitelist_enabled: true,
        blacklist: vec![],
        whitelist: vec![],
    };
    assert_eq!(evaluate(&cfg, &info("notepad", (10, 10, 800, 600))), (true, "pass"));
}

#[test]
fn in_list_plain_names() {
    let list = vec!["Chrome".to_string(), " notepad ".to_string()];
    assert!(in_list("chrome", &list));
    assert!(in_list("NOTEPAD", &list));
    assert!(!in_list("code", &list));
    assert!(in_list("whatever", &["*".to_string()]));
    assert!(!in_list("chrome", &[]));
}

#[test]
fn is_browser_is_case_insensitive() {
    assert!(is_browser("FireFox"));
    assert!(is_browser("CHROMIUM"));
    assert!(!is_browser("chrome.exe"));
    assert!(!is_browser(""));
}

#[test]
fn fullscreen_on_second_monitor() {
    let m = (1920, 0, 3840, 1080);
    assert!(is_fullscreen_internal((1920, 0, 3840, 1080), m));
    assert!(is_fullscreen_internal((1918, -2, 3842, 1082), m));
    assert!(!is_fullscreen_internal((1923, 0, 3840, 1080), m));
    assert!(!is_fullscreen_internal((1920, 0, 3837, 1080), m));
    assert!(!is_fullscreen_internal((0, 0, 1920, 1080), m));
}

#[test]
fn normalize_process_edge_cases() {
    assert_eq!(normalize_process(".exe"), ".exe");
    assert_eq!(normalize_process("a.exe"), "a");
    assert_eq!(normalize_process("dir\\"), "");
    assert_eq!(normalize_process("C:\\x\\Setup.Exe.bak"), "setup.exe.bak");
    assert_eq!(normalize_process("mixed/dir\\App.eXe"), "app");
}

#[test]
fn policy_tracker_skips_unchanged_windows() {
    let cfg = all_rules_on();
    let mut t = PolicyTracker::new();
    assert!(matches!(t.poll(0, Some((0, 0, 10, 10))), PolicyStep::Wait));

    let rect = (10, 10, 800, 600);
    match t.poll(42, Some(rect)) {
        PolicyStep::ResolveProcess(r) => assert_eq!(r, rect),
        other => panic!("unexpected step {:?}", other),
    }
    t.set_process(42, Some("C:\\Program Files\\Google\\Chrome.EXE"));
    let (apply, layer, changed) = t.record(&cfg, rect, (0, 0, 1920, 1080), (0, 0, 1920, 1040)).unwrap();
    assert_eq!((apply, layer, changed), (true, "pass", true));

    assert!(matches!(t.poll(42, Some(rect)), PolicyStep::Unchanged));
    assert!(matches!(t.poll(42, None), PolicyStep::Unchanged));

    let full = (0, 0, 1920, 1080);
    match t.poll(42, Some(full)) {
        PolicyStep::Evaluate(r) => assert_eq!(r, full),
        other => panic!("unexpected step {:?}", other),
    }
    let (apply, layer, changed) = t.record(&cfg, full, (0, 0, 1920, 1080), (0, 0, 1920, 1040)).unwrap();
    assert_eq!((apply, layer, changed), (false, "fullscreen", true));
    assert!(matches!(t.poll(42, Some(full)), PolicyStep::Unchanged));
    let (_, _, changed) = t.record(&cfg, full, (0, 0, 1920, 1080), (0, 0, 1920, 1040)).unwrap();
    assert!(!changed);
}

#[test]
fn policy_tracker_unresolved_process_applies() {
    let cfg = all_rules_on();
    let mut t = PolicyTracker::new();
    t.set_process(7, None);
    let (apply, layer, _) = t.record(&cfg, (0, 0, 1920, 1080), (0, 0, 1920, 1080), (0, 0, 1920, 1040)).unwrap();
    assert_eq!((apply, layer), (true, "fail"));
}

#[test]
fn names_whose_last_four_bytes_split_a_character_are_refused() {
    assert!(can_normalize("chrome.exe"));
    assert!(can_normalize("微信.exe"));
    assert!(can_normalize("ab"));
    assert!(can_normalize("C:\\应用\\x"));
    // Five characters of three bytes: the last four bytes start inside one.
    assert!(!can_normalize("网易云音乐"));
    assert!(!can_normalize("C:\\x\\网易云音乐"));
    assert!(can_normalize("网易云音乐\\"));
    assert_eq!(normalize_process("微信.EXE"), "微信");
}

#[test]
fn checked_evaluation_refuses_unnormalizable_entries() {
    let cfg = PolicyConfig {
        enabled: true,
        fullscreen_disabled: false,
        blacklist_enabled: true,
        browser_only: false,
        whitelist_enabled: false,
        blacklist: vec![AppPolicyItem::from_name("网易云音乐")],
        whitelist: vec![],
    };
    let i = info("chrome", (10, 10, 800, 600));
    assert!(!in_app_list_checkable(&i, &cfg.blacklist));
    assert!(!evaluate_checkable(&cfg, &i));
    assert_eq!(evaluate_checked(&cfg, &i), None);
    // A match before the entry decides without normalizing it.
    let list = vec![AppPolicyItem::from_name("chrome"), AppPolicyItem::from_name("网易云音乐")];
    assert!(in_app_list_checkable(&i, &list));
    let cfg = PolicyConfig { blacklist: list, ..cfg };
    assert_eq!(evaluate_checked(&cfg, &i), Some((false, "blacklist")));
    // Rules decided before the list is consulted need nothing of it.
    let off = PolicyConfig { enabled: false, ..cfg.clone() };
    assert_eq!(evaluate_checked(&off, &i), Some((true, "disabled")));

    let mut t = PolicyTracker::new();
    t.set_process(1, Some("C:\\Apps\\notepad.exe"));
    let bad = PolicyConfig { blacklist: vec![AppPolicyItem::from_name("网易云音乐")], ..cfg };
    assert_eq!(t.record(&bad, (10, 10, 800, 600), (0, 0, 1920, 1080), (0, 0, 1920, 1040)), None);
    assert!(matches!(t.poll(1, Some((10, 10, 800, 600))), PolicyStep::Evaluate(_)));
}

#[test]
fn readme_browsers_are_recognized() {
    for name in ["chrome", "msedge", "firefox", "brave", "arc", "opera", "Arc", "Chrome"] {
        assert!(is_browser(name), "{name}");
    }
    assert!(!is_browser("archive"));
}

#[test]
fn list_entries_are_trimmed_of_unicode_white_space() {
    let list = vec!["\u{3000}Notepad\t\u{A0}".to_string(), "\u{2003}\n".to_string()];
    assert!(in_list("notepad", &list));
    assert!(!in_list("note pad", &list));
    // The second entry is blank once trimmed: it matches an empty name.
    assert!(in_list("", &list));
    assert!(!in_list("", &["\u{2003}x".to_string()]));
}
