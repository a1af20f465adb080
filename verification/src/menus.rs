//! The tray menu layout and the global-shortcut dispatch table.
//!
//! The menu layout is a pure function of the settings: the typing-macro
//! submenu appears exactly when experimental features are enabled. The
//! shortcut table maps each registered chord to the action it triggers;
//! actions fire on key press only, and the preferences chord is live only
//! in development builds.

use crate::settings::AppSettings;
use vstd::prelude::*;

verus! {

/// One entry of the tray menu, top to bottom.
#[derive(Debug, Clone, Copy, PartialEq, Eq, Structural)]
pub enum MenuEntry {
    Draw,
    BreakTimer,
    Screenshot,
    Separator,
    Settings,
    Help,
    About,
    /// The typing-macro submenu (select text, type text, current file).
    TextSubmenu,
    Quit,
}

/// The menu layout for a given experimental-features switch.
pub open spec fn spec_menu_plan(show_experimental: bool) -> Seq<MenuEntry> {
    let base = seq![
        MenuEntry::Draw,
        MenuEntry::BreakTimer,
        MenuEntry::Screenshot,
        MenuEntry::Separator,
        MenuEntry::Settings,
        MenuEntry::Help,
        MenuEntry::Separator,
        MenuEntry::About,
        MenuEntry::Separator,
    ];
    if show_experimental {
        base + seq![MenuEntry::TextSubmenu, MenuEntry::Separator, MenuEntry::Quit]
    } else {
        base + seq![MenuEntry::Quit]
    }
}

/// Builds the tray menu for the given settings: the typing-macro submenu
/// is present exactly when experimental features are enabled, and the
/// menu always ends with the quit entry.
pub fn menu_plan(settings: &AppSettings) -> (r: Vec<MenuEntry>)
    ensures
        r@ == spec_menu_plan(settings.show_experimental_features),
{
    let mut r: Vec<MenuEntry> = Vec::new();
    r.push(MenuEntry::Draw);
    r.push(MenuEntry::BreakTimer);
    r.push(MenuEntry::Screenshot);
    r.push(MenuEntry::Separator);
    r.push(MenuEntry::Settings);
    r.push(MenuEntry::Help);
    r.push(MenuEntry::Separator);
    r.push(MenuEntry::About);
    r.push(MenuEntry::Separator);
    if settings.show_experimental_features {
        r.push(MenuEntry::TextSubmenu);
        r.push(MenuEntry::Separator);
    }
    r.push(MenuEntry::Quit);
    proof {
        assert(r@ =~= spec_menu_plan(settings.show_experimental_features));
    }
    r
}

/// The chords registered as global shortcuts.
#[derive(Debug, Clone, Copy, PartialEq, Eq, Structural)]
pub enum ShortcutKey {
    /// Alt+Shift+D.
    DrawChord,
    /// Alt+Shift+T.
    TextChord,
    /// Alt+Shift+B.
    BreakChord,
    /// Alt+Shift+S.
    ScreenshotChord,
    /// Alt+Shift+Comma, registered in development builds only.
    PreferencesChord,
}

/// What a shortcut triggers.
#[derive(Debug, Clone, Copy, PartialEq, Eq, Structural)]
pub enum ShortcutAction {
    ToggleDraw,
    RunScript,
    ShowBreakTimer,
    StartScreenshot,
    OpenSettings,
}

/// The action a shortcut event triggers, if any: every action fires on
/// press and never on release, and the preferences chord is honoured only
/// in development builds.
pub fn dispatch_shortcut(key: ShortcutKey, pressed: bool, dev_build: bool) -> (r: Option<
    ShortcutAction,
>)
    ensures
        !pressed ==> r is None,
        pressed ==> r == (match key {
            ShortcutKey::DrawChord => Some(ShortcutAction::ToggleDraw),
            ShortcutKey::TextChord => Some(ShortcutAction::RunScript),
            ShortcutKey::BreakChord => Some(ShortcutAction::ShowBreakTimer),
            ShortcutKey::ScreenshotChord => Some(ShortcutAction::StartScreenshot),
            ShortcutKey::PreferencesChord => if dev_build {
                Some(ShortcutAction::OpenSettings)
            } else {
                None
            },
        }),
{
    if !pressed {
        return None;
    }
    match key {
        ShortcutKey::DrawChord => Some(ShortcutAction::ToggleDraw),
        ShortcutKey::TextChord => Some(ShortcutAction::RunScript),
        ShortcutKey::BreakChord => Some(ShortcutAction::ShowBreakTimer),
        ShortcutKey::ScreenshotChord => Some(ShortcutAction::StartScreenshot),
        ShortcutKey::PreferencesChord => {
            if dev_build {
                Some(ShortcutAction::OpenSettings)
            } else {
                None
            }
        },
    }
}

} // verus!
