use noot::storage::process::{choose_day_night, default_settings, ColorScheme};
use noot::ui::theme::active_theme_name;
use noot::storage::process::workspace_settings;
use noot::storage::process::new_workspace;
use noot::utils::cryptography::hashing::hash_str;
use noot::storage::process::{try_workspace_from_row, workspace_from_row};

#[test]
fn default_settings_rows() {
    let rows = default_settings("en", "dark");
    assert_eq!(rows.len(), 19);
    assert_eq!(rows[0].id, "runtime.daemon.enable");
    assert!(rows[0].value.is_none());
    assert!(rows[0].enabled);
    assert_eq!(rows[1].id, "workspace.load_last");
    assert!(!rows[1].enabled);
    assert_eq!(rows[3].id, "rpc.client_id");
    assert_eq!(rows[3].value, Some(vec![0u8]));
    assert_eq!(rows[7].id, "language.locale");
    assert_eq!(rows[7].value, Some(vec![2u8, b'e', b'n']));
    assert_eq!(rows[8].value, Some([&[6u8][..], b"Roboto"].concat()));
    assert_eq!(rows[14].id, "appearance.theme.variant");
    assert_eq!(rows[14].value, Some([&[4u8][..], b"dark"].concat()));
    assert_eq!(rows[16].id, "appearance.theme.adaptive_variant_day");
    assert!(!rows[16].enabled);
    assert_eq!(rows[18].id, "appearance.tts.provider");
}

#[test]
fn long_locale_uses_wide_length() {
    let locale = "x".repeat(300);
    let rows = default_settings(&locale, "light");
    let value = rows[7].value.clone().unwrap();
    assert_eq!(&value[..3], &[251u8, 0x2C, 0x01]);
    assert_eq!(value.len(), 303);
}

#[test]
fn theme_variant_follows_scheme() {
    assert_eq!(choose_day_night(ColorScheme::Dark), "dark");
    assert_eq!(choose_day_night(ColorScheme::Light), "light");
    assert_eq!(choose_day_night(ColorScheme::Unspecified), "light");
}

#[test]
fn workspace_settings_rows() {
    let rows = workspace_settings();
    assert_eq!(rows.len(), 4);
    assert_eq!(rows[0].id, "plugins.enable");
    assert!(rows[0].value.is_none());
    assert_eq!(rows[2].id, "assets.cache-strategy");
    assert_eq!(rows[2].value, Some(vec![1u8]));
    assert!(rows[2].enabled);
    assert_eq!(rows[3].id, "assets.fetch-remote");
    assert_eq!(rows[3].value, Some(vec![2u8]));
    assert!(!rows[3].enabled);
}

#[test]
fn new_workspace_record() {
    let w = new_workspace("Notes".to_string(), "/ws".to_string(), 1_700_000_000);
    assert_eq!(w.id.len(), 5);
    assert!(w.id.chars().all(|c| c.is_ascii_alphanumeric() || c == '_' || c == '-'));
    assert_eq!(w.long_id, hash_str(&w.id));
    assert_eq!(w.name, "Notes");
    assert_eq!(w.disk_path, "/ws");
    assert_eq!(w.last_accessed, 1_700_000_000);
}

#[test]
fn active_theme_follows_scheme() {
    assert_eq!(active_theme_name(ColorScheme::Dark), "Noot Dark");
    assert_eq!(active_theme_name(ColorScheme::Light), "Noot Light");
    assert_eq!(active_theme_name(ColorScheme::Unspecified), "Noot Light");
}

#[test]
fn workspace_rows_are_read() {
    let w = workspace_from_row("abcde".to_string(), "Notes".to_string(), "/ws".to_string(), "2024-02-29 12:34:56");
    assert_eq!(w.id, "abcde");
    assert_eq!(w.long_id, "abcde");
    assert_eq!(w.last_accessed, 1_709_210_096);
    assert!(try_workspace_from_row("a".to_string(), "n".to_string(), "/p".to_string(), "yesterday").is_none());
}
