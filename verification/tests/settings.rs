use polishd::settings::{theme_of, window_script, Theme};
use polishd::settings::{
    accepts_theme, api_key_or_default, hotkey_or_default, menu_action, theme_or_default, theme_script,
    transform_hotkey_label, MenuAction, DEFAULT_HOTKEY, DEFAULT_HOTKEY_MACOS, STORE_FILE, TRANSFORM_HOTKEY,
};

#[test]
fn themes() {
    assert!(accepts_theme("dark"));
    assert!(accepts_theme("light"));
    assert!(!accepts_theme("Dark"));
    assert!(!accepts_theme("solarized"));
    assert_eq!(theme_or_default(None), "dark");
    assert_eq!(theme_or_default(Some("light".to_string())), "light");
    assert_eq!(theme_or_default(Some("blue".to_string())), "dark");
    assert_eq!(
        theme_script("light"),
        "window.__POLISHD_THEME__=\"light\";document.documentElement.setAttribute(\"data-theme\",\"light\");"
    );
}

#[test]
fn stored_values_and_defaults() {
    assert_eq!(api_key_or_default(None), "");
    assert_eq!(api_key_or_default(Some("sk-or".to_string())), "sk-or");
    assert_eq!(hotkey_or_default(None, false), "Ctrl+Shift+E");
    assert_eq!(hotkey_or_default(None, false), DEFAULT_HOTKEY);
    assert_eq!(hotkey_or_default(None, true), "Cmd+Shift+E");
    assert_eq!(hotkey_or_default(None, true), DEFAULT_HOTKEY_MACOS);
    assert_eq!(hotkey_or_default(Some("Alt+X".to_string()), true), "Alt+X");
    assert_eq!(hotkey_or_default(Some("Alt+X".to_string()), false), "Alt+X");
    assert_eq!(transform_hotkey_label(true), "Cmd+Shift+D");
    assert_eq!(transform_hotkey_label(false), "Ctrl+Shift+D");
    assert_eq!(TRANSFORM_HOTKEY, "CmdOrCtrl+Shift+D");
    assert_eq!(STORE_FILE, "polishd.json");
}

#[test]
fn tray_menu() {
    assert_eq!(menu_action("settings"), MenuAction::ShowSettings);
    assert_eq!(menu_action("quit"), MenuAction::Quit);
    assert_eq!(menu_action("other"), MenuAction::Ignore);
}

#[test]
fn window_themes_follow_the_stored_theme() {
    assert_eq!(theme_of(&None), Theme::Dark);
    assert_eq!(theme_of(&Some("light".to_string())), Theme::Light);
    assert_eq!(theme_of(&Some("dark".to_string())), Theme::Dark);
    assert_eq!(theme_of(&Some("Light".to_string())), Theme::Dark);
    assert_eq!(window_script(Theme::Light), theme_script("light"));
    assert_eq!(window_script(theme_of(&Some("x".to_string()))), theme_script(&theme_or_default(Some("x".to_string()))));
    assert_eq!(
        window_script(Theme::Dark),
        "window.__POLISHD_THEME__=\"dark\";document.documentElement.setAttribute(\"data-theme\",\"dark\");"
    );
}
