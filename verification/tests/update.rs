use mac_touchpad_core::update::{
    download_file_name, is_msi_installer, is_newer_version, pick_installer_url, release_from_gitee,
    release_from_github, select_update, str_ends_with, version_values, RawRelease, ReleaseAsset,
};

#[test]
fn test_is_newer_version() {
    assert!(is_newer_version("0.1.2", "0.1.3"));
    assert!(is_newer_version("v0.1.2", "0.1.3"));
    assert!(is_newer_version("0.1.2", "v0.1.3"));
    assert!(is_newer_version("v0.1.2", "v0.1.3"));
    assert!(is_newer_version("0.1.2", "V0.1.3"));

    assert!(!is_newer_version("0.1.3", "0.1.2"));
    assert!(!is_newer_version("v0.1.3", "0.1.2"));
    assert!(!is_newer_version("0.1.3", "v0.1.2"));
    assert!(!is_newer_version("v0.1.3", "v0.1.2"));

    assert!(!is_newer_version("0.1.2", "0.1.2"));
    assert!(!is_newer_version("v0.1.2", "0.1.2"));
    assert!(!is_newer_version("0.1.2", "v0.1.2"));
    assert!(!is_newer_version("v0.1.2", "v0.1.2"));
}

#[test]
fn versions_compare_numerically_with_missing_parts_as_zero() {
    assert!(is_newer_version("0.9.9", "0.10.0"));
    assert!(!is_newer_version("1.0", "1.0.0"));
    assert!(is_newer_version("1.0", "1.0.1"));
    assert!(is_newer_version(" 1.2 ", "1.3"));
    assert!(!is_newer_version("1.2.x", "1.2"));
    assert!(is_newer_version("1.2.x", "1.2.1"));
    assert!(is_newer_version("", "0.0.1"));
    // An unparsable component counts as 0.
    assert!(is_newer_version("99999999999", "1"));
}

#[test]
fn version_values_parse_each_component() {
    assert_eq!(version_values("v1.22.3"), vec![1, 22, 3]);
    assert_eq!(version_values("  V2..+7"), vec![2, 0, 7]);
    assert_eq!(version_values(""), vec![0]);
    assert_eq!(version_values("4294967295.4294967296"), vec![4294967295, 0]);
    assert_eq!(version_values("vV3"), vec![3]);
    assert_eq!(version_values("Vv3"), vec![0]);
}

fn asset(name: &str) -> ReleaseAsset {
    ReleaseAsset { name: name.into(), browser_download_url: format!("https://dl/{}", name) }
}

#[test]
fn installer_prefers_msi_then_exe() {
    let assets = vec![asset("notes.txt"), asset("setup.exe"), asset("setup.msi"), asset("b.msi")];
    assert_eq!(pick_installer_url(&assets), Some("https://dl/setup.msi".to_string()));
    let assets = vec![asset("notes.txt"), asset("a.exe"), asset("b.exe")];
    assert_eq!(pick_installer_url(&assets), Some("https://dl/a.exe".to_string()));
    assert_eq!(pick_installer_url(&vec![asset("src.zip")]), None);
    assert_eq!(pick_installer_url(&vec![]), None);
}

#[test]
fn gitee_release_page_comes_from_tag() {
    let r = release_from_gitee("v0.2.0".into(), Some("notes".into()), &vec![asset("x.exe")]);
    assert_eq!(r.tag_name, "v0.2.0");
    assert_eq!(r.html_url, "https://gitee.com/lu52/Mac-touchpad/releases/tag/v0.2.0");
    assert_eq!(r.body, Some("notes".to_string()));
    assert_eq!(r.asset_url, Some("https://dl/x.exe".to_string()));

    let g = release_from_github("v0.2.1".into(), "https://github.com/r".into(), None, &vec![]);
    assert_eq!(g.tag_name, "v0.2.1");
    assert_eq!(g.html_url, "https://github.com/r");
    assert_eq!(g.body, None);
    assert_eq!(g.asset_url, None);
}

fn release(tag: &str, url: &str) -> RawRelease {
    RawRelease { tag_name: tag.into(), html_url: url.into(), body: None, asset_url: None }
}

#[test]
fn select_update_reports_both_failures() {
    match select_update("0.1.0", Err("timeout".into()), Err("404".into())) {
        Err(msg) => assert_eq!(msg, "无法连接到更新服务器。\nGitee 错误: timeout\nGitHub 错误: 404"),
        Ok(_) => panic!("no server answered"),
    }
}

#[test]
fn select_update_picks_newest_newer_release() {
    let gitee = Ok(RawRelease {
        tag_name: "v0.2.0".into(),
        html_url: "g".into(),
        body: Some("gitee notes".into()),
        asset_url: Some("g.msi".into()),
    });
    let github = Ok(release("v0.3.0", "h"));
    match select_update("0.1.0", gitee, github) {
        Ok(info) => {
            assert!(info.has_update);
            assert_eq!(info.current_version, "0.1.0");
            assert_eq!(info.latest_version, "v0.3.0");
            assert_eq!(info.download_url, "h");
            assert_eq!(info.asset_url, "");
            assert_eq!(info.body, "");
        }
        Err(e) => panic!("unexpected error {}", e),
    }
}

#[test]
fn select_update_keeps_first_of_equal_releases() {
    let gitee = Ok(RawRelease {
        tag_name: "v0.2.0".into(),
        html_url: "g".into(),
        body: Some("gitee notes".into()),
        asset_url: Some("g.msi".into()),
    });
    match select_update("0.1.0", gitee, Ok(release("0.2.0", "h"))) {
        Ok(info) => {
            assert!(info.has_update);
            assert_eq!(info.latest_version, "v0.2.0");
            assert_eq!(info.download_url, "g");
            assert_eq!(info.asset_url, "g.msi");
            assert_eq!(info.body, "gitee notes");
        }
        Err(e) => panic!("unexpected error {}", e),
    }
}

#[test]
fn select_update_with_one_server_and_no_news() {
    match select_update("0.3.0", Err("down".into()), Ok(release("v0.3.0", "h"))) {
        Ok(info) => {
            assert!(!info.has_update);
            assert_eq!(info.current_version, "0.3.0");
            assert_eq!(info.latest_version, "0.3.0");
            assert_eq!(info.download_url, "");
            assert_eq!(info.asset_url, "");
            assert_eq!(info.body, "");
        }
        Err(e) => panic!("one server answered: {}", e),
    }
    match select_update("0.3.0", Ok(release("v0.4.0", "g")), Err("down".into())) {
        Ok(info) => assert_eq!((info.has_update, info.latest_version.as_str()), (true, "v0.4.0")),
        Err(e) => panic!("one server answered: {}", e),
    }
}

#[test]
fn download_file_name_is_last_segment() {
    assert_eq!(download_file_name("https://x.com/a/b/Setup_0.2.msi"), "Setup_0.2.msi");
    assert_eq!(download_file_name("plain.exe"), "plain.exe");
    assert_eq!(download_file_name("https://x.com/dir/"), "");
    assert_eq!(download_file_name(""), "");
}

#[test]
fn msi_detection_is_a_suffix_test() {
    assert!(is_msi_installer("C:\\Temp\\Setup.msi"));
    assert!(!is_msi_installer("C:\\Temp\\Setup.MSI"));
    assert!(!is_msi_installer("C:\\Temp\\Setup.exe"));
    assert!(is_msi_installer(".msi"));
    assert!(!is_msi_installer("msi"));
    assert!(str_ends_with("abc", ""));
    assert!(!str_ends_with("", "a"));
}
