use emuctl::config::{get_android_home, get_settings, Settings};

#[test]
fn default_settings_values() {
    let s = Settings::default();
    assert_eq!(s.language, "zh-CN");
    assert_eq!(s.theme, "system");
    assert!(!s.auto_start);
    assert!(s.minimize_to_tray);
    assert!(s.close_to_minimize);
    assert_eq!(s.android_home, "");
    assert_eq!(s.deveco_home, "");
    assert_eq!(s.xcode_home, "");
}

#[test]
fn stored_sdk_root_wins_over_environment() {
    let mut s = Settings::default();
    s.android_home = "/stored".to_string();
    let r = get_android_home(&s, Some("/env1".to_string()), Some("/env2".to_string()));
    assert_eq!(r, Some("/stored".to_string()));
}

#[test]
fn empty_stored_root_falls_back_in_order() {
    let s = Settings::default();
    assert_eq!(
        get_android_home(&s, Some("/env1".to_string()), Some("/env2".to_string())),
        Some("/env1".to_string())
    );
    assert_eq!(
        get_android_home(&s, None, Some("/env2".to_string())),
        Some("/env2".to_string())
    );
    assert_eq!(get_android_home(&s, None, None), None);
}

#[test]
fn settings_fill_from_environment_snapshot() {
    let stored = Settings::default();
    let r = get_settings(
        &stored,
        Some("/env1".to_string()),
        Some("/env2".to_string()),
        Some("/deveco".to_string()),
        None,
        true,
    );
    assert_eq!(r.android_home, "/env1");
    assert_eq!(r.deveco_home, "/deveco");
    assert_eq!(r.xcode_home, "/Applications/Xcode.app/Contents/Developer");
    assert_eq!(r.language, "zh-CN");
}

#[test]
fn settings_keep_stored_non_empty_fields() {
    let mut stored = Settings::default();
    stored.android_home = "/stored".to_string();
    stored.deveco_home = "/dev".to_string();
    stored.xcode_home = "/xc".to_string();
    let r = get_settings(
        &stored,
        Some("/env1".to_string()),
        None,
        Some("/other".to_string()),
        Some("/dd".to_string()),
        true,
    );
    assert_eq!(r.android_home, "/stored");
    assert_eq!(r.deveco_home, "/dev");
    assert_eq!(r.xcode_home, "/xc");
}

#[test]
fn non_macos_leaves_xcode_home_empty() {
    let stored = Settings::default();
    let r = get_settings(&stored, None, None, None, Some("/dd".to_string()), false);
    assert_eq!(r.xcode_home, "");
    assert_eq!(r.android_home, "");
}
