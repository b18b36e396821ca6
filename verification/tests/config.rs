use oxidize_mail::{AppConfig, ColorScheme, UserConfig};
use std::path::PathBuf;

#[test]
fn test_default_config() {
    let config = UserConfig::default();
    assert_eq!(config.get_preferred_color_scheme(), &ColorScheme::Dark);
    assert_eq!(config.get_preferred_font(), "Sans 11");
    assert_eq!(config.get_selected_folder(), "📥 All Inboxes");
}

#[test]
fn test_get_preferred_color_scheme() {
    let config = UserConfig::default();
    assert_eq!(config.get_preferred_color_scheme(), &ColorScheme::Dark);
}

#[test]
fn test_update_color_scheme() {
    let mut config = UserConfig::default();
    assert_eq!(config.get_preferred_color_scheme(), &ColorScheme::Dark);

    config.update_color_scheme(ColorScheme::Light);
    assert_eq!(config.get_preferred_color_scheme(), &ColorScheme::Light);

    config.update_color_scheme(ColorScheme::System);
    assert_eq!(config.get_preferred_color_scheme(), &ColorScheme::System);
}

#[test]
fn update_selected_folder_keeps_theme_and_font() {
    let mut config = UserConfig::default();
    config.update_selected_folder("📤 Sent");
    assert_eq!(config.get_selected_folder(), "📤 Sent");
    assert_eq!(config.get_preferred_font(), "Sans 11");
    assert_eq!(config.get_preferred_color_scheme(), &ColorScheme::Dark);
}

#[test]
fn update_color_scheme_keeps_folder_and_font() {
    let mut config = UserConfig::new(
        ColorScheme::System,
        String::from("Arial 14"),
        String::from("Custom Folder"),
    );
    config.update_color_scheme(ColorScheme::Light);
    assert_eq!(config.get_preferred_color_scheme(), &ColorScheme::Light);
    assert_eq!(config.get_preferred_font(), "Arial 14");
    assert_eq!(config.get_selected_folder(), "Custom Folder");
}

#[test]
fn loaded_settings_are_used_as_they_are() {
    let stored = UserConfig::new(
        ColorScheme::Light,
        String::from("Monospace 12"),
        String::from("Work"),
    );
    let config = UserConfig::loaded_or_default(Some(stored));
    assert_eq!(config.get_preferred_color_scheme(), &ColorScheme::Light);
    assert_eq!(config.get_preferred_font(), "Monospace 12");
    assert_eq!(config.get_selected_folder(), "Work");
}

#[test]
fn missing_settings_fall_back_to_the_defaults() {
    let config = UserConfig::loaded_or_default(None);
    assert_eq!(config.get_preferred_color_scheme(), &ColorScheme::Dark);
    assert_eq!(config.get_preferred_font(), "Sans 11");
    assert_eq!(config.get_selected_folder(), "📥 All Inboxes");
}

#[test]
fn app_config_returns_the_path_it_was_made_with() {
    let config = AppConfig::new(PathBuf::from("/var/lib/mail/oxidize_mail.db"));
    assert_eq!(config.get_db(), PathBuf::from("/var/lib/mail/oxidize_mail.db"));
    assert_eq!(config.get_db(), config.get_db());
}

#[test]
fn app_config_in_config_dir_points_at_the_database_file() {
    let config = AppConfig::in_config_dir(PathBuf::from("/home/user/.config"));
    assert_eq!(
        config.get_db(),
        PathBuf::from("/home/user/.config/oxidize-mail/oxidize.db")
    );
}

#[test]
fn fixed_schemes_ignore_the_system_preference() {
    assert!(!ColorScheme::Light.prefers_dark(true));
    assert!(!ColorScheme::Light.prefers_dark(false));
    assert!(ColorScheme::Dark.prefers_dark(true));
    assert!(ColorScheme::Dark.prefers_dark(false));
}

#[test]
fn system_scheme_follows_the_system_preference() {
    assert!(ColorScheme::System.prefers_dark(true));
    assert!(!ColorScheme::System.prefers_dark(false));
}
