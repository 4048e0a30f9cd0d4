use hdm_api::config::default_config;
use hdm_api::layout::{Layout, LayoutManager, PanelRect};
use hdm_api::theme::{
    background_command, gtk_settings_content, gtk_settings_path, hyprsensivity_command,
    hyprsensivity_file,
    qt_style_files, Theme, ThemeApplication, ThemeError, ThemeManager, ThemeType,
};
use hdm_api::unidata::{PlatformType, ThemeEnvironment, UnidataGenerator};

fn manager() -> ThemeManager {
    let mut tm = ThemeManager::new(default_config(), "/etc/hyprdm/hyprdm.conf".to_string());
    tm.scan_dir_for_themes(
        &vec![
            ("Adwaita".to_string(), "/usr/share/themes/Adwaita".to_string()),
            ("Nordic".to_string(), "/usr/share/themes/Nordic".to_string()),
        ],
        ThemeType::Gtk3,
    );
    tm.scan_dir_for_themes(&vec![("Kvantum".to_string(), "/q/Kvantum".to_string())], ThemeType::Qt5);
    tm.scan_dir_for_themes(&vec![("Nordic".to_string(), "/g4/Nordic".to_string())], ThemeType::Gtk4);
    tm
}

#[test]
fn new_manager_is_empty() {
    let tm = ThemeManager::new(default_config(), "/x".to_string());
    assert!(tm.themes.is_empty());
    assert!(tm.current.is_none());
    assert_eq!(tm.config_path, "/x");
}

#[test]
fn themes_are_listed_per_platform() {
    let tm = manager();
    assert_eq!(tm.available_themes_for_platform(ThemeType::Gtk3), vec!["Adwaita", "Nordic"]);
    assert_eq!(tm.available_themes_for_platform(ThemeType::Qt5), vec!["Kvantum"]);
    assert!(tm.available_themes_for_platform(ThemeType::Qt6).is_empty());
}

#[test]
fn set_theme_selects_first_with_name() {
    let mut tm = manager();
    assert_eq!(tm.set_theme("Nordic"), Ok(()));
    let cur = tm.current.clone().unwrap();
    assert_eq!(cur.path, "/usr/share/themes/Nordic");
    assert_eq!(cur.kind, ThemeType::Gtk3);
    assert_eq!(tm.config.theme, "Nordic");
}

#[test]
fn set_unknown_theme_fails_and_changes_nothing() {
    let mut tm = manager();
    assert_eq!(tm.set_theme("Missing"), Err(ThemeError::NotFound));
    assert!(tm.current.is_none());
    assert_eq!(tm.config.theme, "Adwaita-dark");
}

#[test]
fn gtk_settings_locations_and_content() {
    assert_eq!(gtk_settings_path("/home/a", 3).unwrap(), "/home/a/.config/gtk-3.0/settings.ini");
    assert_eq!(gtk_settings_path("/home/a", 4).unwrap(), "/home/a/.config/gtk-4.0/settings.ini");
    assert_eq!(gtk_settings_path("/home/a", 5), Err(ThemeError::UnknownGtkVersion));
    assert_eq!(gtk_settings_content("Nordic"), "[Settings]\ngtk-theme-name=Nordic\n");
}

#[test]
fn theme_files_are_under_the_theme_directory() {
    let t = Theme { name: "K".to_string(), path: "/q/K".to_string(), kind: ThemeType::Qt6 };
    assert_eq!(qt_style_files(&t), vec!["/q/K/style.qss", "/q/K/theme.qss"]);
    assert_eq!(hyprsensivity_file(&t), "/q/K/theme.json");
    assert_eq!(background_command("#202020"), "setv window:background #202020");
}

#[test]
fn layout_follows_configuration() {
    let lm = LayoutManager::new(&default_config());
    assert_eq!(lm.panel.name, "Hyprland");
    assert_eq!(lm.panel.layout, Layout::Tiling);
    assert_eq!(lm.global_layout, Layout::Tiling);
    assert_eq!(lm.panel_rect(1920, 1080), PanelRect { x: 0, y: 0, width: 1920, height: 1080 });
}

#[test]
fn floating_panel_is_centred_quarter() {
    let mut lm = LayoutManager::new(&default_config());
    lm.panel.layout = Layout::Floating;
    assert_eq!(lm.panel_rect(1920, 1080), PanelRect { x: 480, y: 270, width: 960, height: 540 });
}

#[test]
fn unidata_collects_directories_in_order() {
    let mut g = UnidataGenerator::new("/tmp/unidata.scrub");
    assert_eq!(g.scrub_path, "/tmp/unidata.scrub");
    assert!(g.data.targets.is_empty());
    g.add_target_dir(PlatformType::Qt6, "/opt/qt6".to_string());
    let env = ThemeEnvironment {
        xdg_data_dirs: Some("/usr/share:/usr/local/share".to_string()),
        home: Some("/home/a".to_string()),
        qt5_theme_dir: Some("/q5".to_string()),
        qt6_theme_dir: None,
        hypersensivity_theme_dir: Some("/h".to_string()),
    };
    g.add_system_theme_dirs(&env);
    let got: Vec<(PlatformType, String)> =
        g.data.targets.iter().map(|t| (t.platform, t.dir_path.clone())).collect();
    let want: Vec<(PlatformType, String)> = vec![
        (PlatformType::Qt6, "/opt/qt6"),
        (PlatformType::Gtk3, "/usr/share/themes"),
        (PlatformType::Gtk4, "/usr/share/themes"),
        (PlatformType::Gtk3, "/usr/local/share/themes"),
        (PlatformType::Gtk4, "/usr/local/share/themes"),
        (PlatformType::Gtk3, "/home/a/.themes"),
        (PlatformType::Gtk4, "/home/a/.local/share/themes"),
        (PlatformType::Qt5, "/q5"),
        (PlatformType::HyprSensivityObjective, "/h"),
    ]
    .into_iter()
    .map(|(p, s)| (p, s.to_string()))
    .collect();
    assert_eq!(got, want);
}

#[test]
fn empty_environment_adds_nothing() {
    let mut g = UnidataGenerator::new("/s");
    let env = ThemeEnvironment {
        xdg_data_dirs: None,
        home: None,
        qt5_theme_dir: None,
        qt6_theme_dir: None,
        hypersensivity_theme_dir: None,
    };
    g.add_system_theme_dirs(&env);
    assert!(g.data.targets.is_empty());
}

#[test]
fn hyprsensivity_description_gives_background_command() {
    assert_eq!(
        hyprsensivity_command(r##"{"background": "#1e1e2e", "accent": 3}"##).unwrap().as_deref(),
        Some("setv window:background #1e1e2e")
    );
    assert_eq!(hyprsensivity_command(r#"{"accent": "red"}"#).unwrap(), None);
    assert_eq!(hyprsensivity_command("[1, 2]").unwrap(), None);
    assert_eq!(hyprsensivity_command(r#"{"background": 3}"#), Err(ThemeError::BackgroundNotText));
    assert_eq!(hyprsensivity_command("not json"), Err(ThemeError::InvalidJson));
}

#[test]
fn applying_a_theme_depends_on_its_toolkit() {
    use_application(ThemeType::Gtk3, |a| matches!(a, ThemeApplication::GtkSettings { version: 3 }));
    use_application(ThemeType::Gtk4, |a| matches!(a, ThemeApplication::GtkSettings { version: 4 }));
    use_application(ThemeType::Qt5, |a| match a {
        ThemeApplication::QtStyle { style_files } => style_files == &vec!["/t/X/style.qss", "/t/X/theme.qss"],
        _ => false,
    });
    use_application(ThemeType::HyprSensivityObjective, |a| match a {
        ThemeApplication::HyprSensivity { description } => description == "/t/X/theme.json",
        _ => false,
    });
}

fn use_application(kind: ThemeType, check: impl Fn(&ThemeApplication) -> bool) {
    let tm = manager();
    let t = Theme { name: "X".to_string(), path: "/t/X".to_string(), kind };
    assert!(check(&tm.apply_theme(&t)));
}
