use vstd::prelude::*;

use crate::text::view_option;

verus! {

/// The file, under the application data directory, that holds the settings.
pub const STORE_FILE: &'static str = "polishd.json";

/// The shortcut that opens the custom instruction window.
pub const TRANSFORM_HOTKEY: &'static str = "CmdOrCtrl+Shift+D";

/// The polish shortcut used until the user picks another, on Linux and Windows.
pub const DEFAULT_HOTKEY: &'static str = "Ctrl+Shift+E";

/// The polish shortcut used until the user picks another, on macOS (Command, not Control).
pub const DEFAULT_HOTKEY_MACOS: &'static str = "Cmd+Shift+E";

/// The polish shortcut used until the user picks another.
pub open spec fn spec_default_hotkey(on_macos: bool) -> Seq<char> {
    if on_macos {
        DEFAULT_HOTKEY_MACOS@
    } else {
        DEFAULT_HOTKEY@
    }
}

/// The theme used until the user picks another.
pub const DEFAULT_THEME: &'static str = "dark";

/// The themes the settings window knows about.
pub open spec fn is_known_theme(t: Seq<char>) -> bool {
    t == "dark"@ || t == "light"@
}

/// Whether `theme` may be stored as the user's theme.
pub fn accepts_theme(theme: &str) -> (ok: bool)
    ensures
        ok == is_known_theme(theme@),
{
    let t = String::from_str(theme);
    t == String::from_str("dark") || t == String::from_str("light")
}

/// The theme in effect, given the stored value (`None` where there is none, or it is not
/// text).
pub open spec fn spec_theme(stored: Option<Seq<char>>) -> Seq<char> {
    match stored {
        Some(t) => if is_known_theme(t) {
            t
        } else {
            DEFAULT_THEME@
        },
        None => DEFAULT_THEME@,
    }
}

/// The theme in effect: the stored one when it is known, `dark` otherwise.
pub fn theme_or_default(stored: Option<String>) -> (t: String)
    ensures
        t@ == spec_theme(view_option(stored)),
{
    match stored {
        Some(t) => if accepts_theme(t.as_str()) {
            t
        } else {
            String::from_str(DEFAULT_THEME)
        },
        None => String::from_str(DEFAULT_THEME),
    }
}

/// The API key in effect: the stored one, or the empty key where none is stored.
pub fn api_key_or_default(stored: Option<String>) -> (k: String)
    ensures
        k@ == match view_option(stored) {
            Some(s) => s,
            None => Seq::<char>::empty(),
        },
{
    match stored {
        Some(k) => k,
        None => String::new(),
    }
}

/// The polish shortcut in effect: the stored one, or the default of the platform
/// (Command+Shift+E on macOS, Control+Shift+E elsewhere).
pub fn hotkey_or_default(stored: Option<String>, on_macos: bool) -> (k: String)
    ensures
        k@ == match view_option(stored) {
            Some(s) => s,
            None => spec_default_hotkey(on_macos),
        },
{
    match stored {
        Some(k) => k,
        None => if on_macos {
            String::from_str(DEFAULT_HOTKEY_MACOS)
        } else {
            String::from_str(DEFAULT_HOTKEY)
        },
    }
}

/// The custom instruction shortcut as the settings window shows it.
pub fn transform_hotkey_label(on_macos: bool) -> (label: String)
    ensures
        label@ == if on_macos {
            "Cmd+Shift+D"@
        } else {
            "Ctrl+Shift+D"@
        },
{
    if on_macos {
        String::from_str("Cmd+Shift+D")
    } else {
        String::from_str("Ctrl+Shift+D")
    }
}

/// The script that a new window runs first, to take on the theme `theme`.
pub open spec fn spec_theme_script(theme: Seq<char>) -> Seq<char> {
    "window.__POLISHD_THEME__=\""@ + theme + "\";document.documentElement.setAttribute(\"data-theme\",\""@
        + theme + "\");"@
}

/// The script that a new window runs first, to take on the theme `theme`.
pub fn theme_script(theme: &str) -> (s: String)
    ensures
        s@ == spec_theme_script(theme@),
{
    let mut s = String::from_str("window.__POLISHD_THEME__=\"");
    s.append(theme);
    s.append("\";document.documentElement.setAttribute(\"data-theme\",\"");
    s.append(theme);
    s.append("\");");
    s
}

/// What a click on a tray menu entry does.
#[derive(PartialEq, Eq, Structural, Clone, Copy, Debug)]
pub enum MenuAction {
    /// Show, focus and centre the settings window.
    ShowSettings,
    /// Leave the application.
    Quit,
    /// Nothing.
    Ignore,
}

/// What the tray menu entry with the given id does.
pub fn menu_action(id: &str) -> (a: MenuAction)
    ensures
        a == if id@ == "settings"@ {
            MenuAction::ShowSettings
        } else if id@ == "quit"@ {
            MenuAction::Quit
        } else {
            MenuAction::Ignore
        },
{
    let id = String::from_str(id);
    if id == String::from_str("settings") {
        MenuAction::ShowSettings
    } else if id == String::from_str("quit") {
        MenuAction::Quit
    } else {
        MenuAction::Ignore
    }
}

/// A stored theme that is known is read back as it was stored; anything else reads as
/// the default theme, which is itself known.
pub proof fn lemma_theme_round_trip(stored: Seq<char>)
    ensures
        is_known_theme(stored) ==> spec_theme(Some(stored)) == stored,
        !is_known_theme(stored) ==> spec_theme(Some(stored)) == DEFAULT_THEME@,
        is_known_theme(spec_theme(Some(stored))),
{
    reveal_strlit("dark");
}

/// A theme of the windows.
#[derive(PartialEq, Eq, Structural, Clone, Copy, Debug)]
pub enum Theme {
    Dark,
    Light,
}

/// The name of a theme, as the windows and the store spell it.
pub open spec fn spec_theme_name(t: Theme) -> Seq<char> {
    match t {
        Theme::Dark => "dark"@,
        Theme::Light => "light"@,
    }
}

/// The theme in effect for a stored value: light where `light` is stored, dark otherwise.
pub open spec fn spec_stored_theme(stored: Option<Seq<char>>) -> Theme {
    if stored == Some("light"@) {
        Theme::Light
    } else {
        Theme::Dark
    }
}

/// The theme in effect for the stored value (`None` where there is none, or it is not text).
pub fn theme_of(stored: &Option<String>) -> (t: Theme)
    ensures
        t == spec_stored_theme(view_option(*stored)),
{
    match stored {
        Some(s) => if *s == String::from_str("light") {
            Theme::Light
        } else {
            Theme::Dark
        },
        None => Theme::Dark,
    }
}

/// The script that a new window runs first, to take on theme `t`.
pub fn window_script(t: Theme) -> (s: String)
    ensures
        s@ == spec_theme_script(spec_theme_name(t)),
{
    match t {
        Theme::Dark => theme_script("dark"),
        Theme::Light => theme_script("light"),
    }
}

/// The theme a window takes on is the theme that the settings window reports.
pub proof fn lemma_window_theme_is_reported_theme(stored: Option<Seq<char>>)
    ensures
        spec_theme_name(spec_stored_theme(stored)) == spec_theme(stored),
{
    reveal_strlit("dark");
    reveal_strlit("light");
}

} // verus!
