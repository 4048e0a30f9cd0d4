use hdm_api::config::{
    config_from_text, config_to_text, default_config, load_config, load_or_create_config,
    read_config_text, ConfigError, HDMConfig,
};
use hdm_api::service::{ConfigManager, ConfigWatcher, ReloadCheck, ReloadOutcome, ServiceAction};

const DEFAULT_TEXT: &str = "theme=Adwaita-dark\ntiling=true\ndefault_session=Hyprland\nautologin=true\ntwo_factor_enabled=false\n# systemctl_usedefine=true";

fn config(autologin: bool, service: bool) -> HDMConfig {
    HDMConfig {
        theme: "Nordic".to_string(),
        tiling: false,
        default_session: "sway".to_string(),
        autologin,
        two_factor_enabled: true,
        two_factor_method: Some("totp".to_string()),
        two_factor_secret: Some("JBSWY3DPEHPK3PXP".to_string()),
        systemctl_usedefine: service,
    }
}

fn assert_default(c: &HDMConfig) {
    assert_eq!(c.theme, "Adwaita-dark");
    assert!(c.tiling);
    assert_eq!(c.default_session, "Hyprland");
    assert!(c.autologin);
    assert!(!c.two_factor_enabled);
    assert_eq!(c.two_factor_method, None);
    assert_eq!(c.two_factor_secret, None);
    assert!(!c.systemctl_usedefine);
}

#[test]
fn validate_rejects_autologin_with_managed_service() {
    let r = config(true, true).validate();
    assert!(matches!(r, Err(ConfigError::Conflict)));
}

#[test]
fn validate_accepts_each_single_mode() {
    for (a, s) in [(true, false), (false, true), (false, false)] {
        let c = config(a, s).validate().expect("valid");
        assert_eq!(c.autologin, a);
        assert_eq!(c.systemctl_usedefine, s);
        assert_eq!(c.theme, "Nordic");
    }
}

#[test]
fn validate_fills_empty_theme_and_session() {
    let mut c = config(false, false);
    c.theme = String::new();
    c.default_session = String::new();
    let v = c.validate().expect("valid");
    assert_eq!(v.theme, "Adwaita-dark");
    assert_eq!(v.default_session, "Hyprland");
}

#[test]
fn load_config_of_missing_file_gives_defaults() {
    let c = load_config(None).expect("defaults");
    assert_default(&c);
}

#[test]
fn load_or_create_of_missing_file_writes_defaults() {
    let (c, write) = load_or_create_config(None);
    assert_default(&c.expect("defaults"));
    assert_eq!(write.as_deref(), Some(DEFAULT_TEXT));
}

#[test]
fn load_or_create_of_existing_file_writes_nothing() {
    let (c, write) = load_or_create_config(Some("theme=Nordic\nautologin=false"));
    let c = c.expect("valid");
    assert_eq!(c.theme, "Nordic");
    assert!(!c.autologin);
    assert!(write.is_none());
}

#[test]
fn defaults_round_trip_through_the_file() {
    let (c, write) = load_or_create_config(None);
    let c = c.unwrap();
    let text = write.unwrap();
    assert_eq!(config_to_text(&c), text);
    let back = load_config(Some(&text)).unwrap();
    assert_default(&back);
}

#[test]
fn round_trip_keeps_every_field() {
    let c = config(false, true);
    let text = config_to_text(&c);
    assert!(text.ends_with("\nsystemctl_usedefine=true"));
    let back = config_from_text(&text).unwrap();
    assert_eq!(back.theme, "Nordic");
    assert!(!back.tiling);
    assert_eq!(back.default_session, "sway");
    assert!(!back.autologin);
    assert!(back.two_factor_enabled);
    assert_eq!(back.two_factor_method.as_deref(), Some("totp"));
    assert_eq!(back.two_factor_secret.as_deref(), Some("JBSWY3DPEHPK3PXP"));
    assert!(back.systemctl_usedefine);
}

#[test]
fn disabled_service_line_reads_as_false() {
    let c = config(true, false);
    let text = config_to_text(&c);
    assert!(text.ends_with("\n# systemctl_usedefine=true"));
    let back = config_from_text(&text).unwrap();
    assert!(!back.systemctl_usedefine);
    assert!(back.autologin);
}

#[test]
fn parse_skips_comments_blanks_and_unknown_keys() {
    let text = "\n# theme=Ignored\n  theme = Breeze  \nunknown=1\nno equals sign\n\r\ntiling=yes\n";
    let c = read_config_text(text);
    assert_eq!(c.theme, "Breeze");
    assert!(!c.tiling);
    assert_eq!(c.default_session, "Hyprland");
    assert!(c.autologin);
}

#[test]
fn parse_splits_at_first_equals_and_last_key_wins() {
    let text = "two_factor_secret=a=b\ntheme=First\ntheme=Second";
    let c = read_config_text(text);
    assert_eq!(c.two_factor_secret.as_deref(), Some("a=b"));
    assert_eq!(c.theme, "Second");
}

#[test]
fn parse_rejects_contradictory_file() {
    let r = config_from_text("autologin=true\nsystemctl_usedefine=true");
    assert!(matches!(r, Err(ConfigError::Conflict)));
    let r = config_from_text("systemctl_usedefine=true");
    assert!(matches!(r, Err(ConfigError::Conflict)));
}

#[test]
fn parse_of_empty_theme_gives_default_theme() {
    let c = config_from_text("theme=\nautologin=false").unwrap();
    assert_eq!(c.theme, "Adwaita-dark");
}

#[test]
fn default_config_is_the_documented_one() {
    assert_default(&default_config());
}

#[test]
fn service_action_follows_the_decision_table() {
    assert_eq!(
        ConfigManager::service_action(&config(true, false)).unwrap(),
        ServiceAction::RemoveUnit
    );
    assert_eq!(
        ConfigManager::service_action(&config(false, true)).unwrap(),
        ServiceAction::InstallAndEnable
    );
    assert_eq!(
        ConfigManager::service_action(&config(false, false)).unwrap(),
        ServiceAction::RemoveUnit
    );
    assert!(matches!(
        ConfigManager::service_action(&config(true, true)),
        Err(ConfigError::Conflict)
    ));
}

#[test]
fn marker_is_read_as_a_number_or_zero() {
    assert_eq!(ConfigWatcher::from_marker(Some("1700000000")).last_checked, 1700000000);
    assert_eq!(ConfigWatcher::from_marker(Some("+42")).last_checked, 42);
    assert_eq!(ConfigWatcher::from_marker(Some("18446744073709551615")).last_checked, u64::MAX);
    assert_eq!(ConfigWatcher::from_marker(Some("18446744073709551616")).last_checked, 0);
    assert_eq!(ConfigWatcher::from_marker(Some("12 ")).last_checked, 0);
    assert_eq!(ConfigWatcher::from_marker(Some("")).last_checked, 0);
    assert_eq!(ConfigWatcher::from_marker(Some("+")).last_checked, 0);
    assert_eq!(ConfigWatcher::from_marker(Some("-3")).last_checked, 0);
    assert_eq!(ConfigWatcher::from_marker(None).last_checked, 0);
}

#[test]
fn unchanged_file_restarts_nothing() {
    let w = ConfigWatcher::from_marker(Some("100"));
    assert_eq!(w.check(Some(100)), ReloadCheck::Unchanged);
    assert_eq!(w.check(Some(99)), ReloadCheck::Unchanged);
    assert_eq!(w.check(None), ReloadCheck::ConfigMissing);
    assert_eq!(w.last_checked, 100);
}

#[test]
fn changed_valid_file_restarts_once_and_moves_marker() {
    let mut w = ConfigWatcher::from_marker(Some("100"));
    assert_eq!(w.check(Some(101)), ReloadCheck::Changed);
    let loaded = config_from_text("autologin=false");
    let outcome = w.on_validated(101, &loaded);
    assert_eq!(outcome, ReloadOutcome::Restart { marker: 101 });
    assert_eq!(w.last_checked, 101);
    assert_eq!(w.check(Some(101)), ReloadCheck::Unchanged);
}

#[test]
fn changed_invalid_file_restarts_nothing_and_keeps_marker() {
    let mut w = ConfigWatcher::from_marker(Some("100"));
    let loaded = config_from_text("systemctl_usedefine=true");
    let outcome = w.on_validated(200, &loaded);
    assert_eq!(outcome, ReloadOutcome::Rejected);
    assert_eq!(w.last_checked, 100);
    assert_eq!(w.check(Some(200)), ReloadCheck::Changed);
}

#[test]
fn quickshell_candidates_are_searched_in_order() {
    let r = hdm_api::config::ui_candidates_in(Some("/home/a/.config"), Some("/home/a/.local/share/"), "Hyprland");
    assert_eq!(
        r,
        vec![
            "/home/a/.config/hyprdm/quickshell/Hyprland/main.qml".to_string(),
            "/home/a/.local/share/quickshell/Hyprland/main.qml".to_string(),
            "/usr/share/hyprdm/quickshell/Hyprland/main.qml".to_string(),
        ]
    );
    let r = hdm_api::config::ui_candidates_in(None, None, "/opt/ui");
    assert_eq!(r, vec!["/opt/ui/main.qml".to_string()]);
    let c = default_config();
    let all = c.quickshell_ui_candidates();
    assert_eq!(all.last().unwrap(), "/usr/share/hyprdm/quickshell/Hyprland/main.qml");
}
