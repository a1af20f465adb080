//! Persistent application settings and their default values.
//!
//! The settings are stored on disk by an outer layer; this module owns the
//! shape of the data and the defaults that apply when nothing was stored or
//! the stored value failed to parse.

use vstd::prelude::*;

verus! {

/// Keyboard shortcut bindings, one human-readable chord per feature.
#[derive(Debug, Clone)]
pub struct Shortcuts {
    pub drawing: String,
    pub text: String,
    pub break_mode: String,
    pub screenshot: String,
    pub preferences: String,
}

/// The stock shortcut bindings, before the user changes anything.
pub open spec fn is_default_shortcuts(s: Shortcuts) -> bool {
    &&& s.drawing@ == "Option+Shift+D"@
    &&& s.text@ == "Option+Shift+T"@
    &&& s.break_mode@ == "Option+Shift+B"@
    &&& s.screenshot@ == "Option+Shift+S"@
    &&& s.preferences@ == "Option+Shift+P"@
}

impl Default for Shortcuts {
    fn default() -> (r: Shortcuts)
        ensures
            is_default_shortcuts(r),
    {
        Shortcuts {
            drawing: "Option+Shift+D".to_owned(),
            text: "Option+Shift+T".to_owned(),
            break_mode: "Option+Shift+B".to_owned(),
            screenshot: "Option+Shift+S".to_owned(),
            preferences: "Option+Shift+P".to_owned(),
        }
    }
}

/// User-tunable application settings.
#[derive(Debug, Clone)]
pub struct AppSettings {
    pub pen_width: u32,
    pub arrow_head_length: u32,
    pub launch_on_startup: bool,
    pub show_experimental_features: bool,
    pub break_time: u32,
    pub shortcuts: Shortcuts,
    pub last_version_check: String,
    pub version_check: bool,
    pub default_color: String,
}

/// The settings used when no settings file exists or it cannot be read.
pub open spec fn is_default_settings(s: AppSettings) -> bool {
    &&& s.pen_width == 3
    &&& s.arrow_head_length == 20
    &&& !s.launch_on_startup
    &&& !s.show_experimental_features
    &&& s.break_time == 10
    &&& is_default_shortcuts(s.shortcuts)
    &&& s.last_version_check@ == "0"@
    &&& s.version_check
    &&& s.default_color@ == "#ff0000"@
}

impl Default for AppSettings {
    fn default() -> (r: AppSettings)
        ensures
            is_default_settings(r),
    {
        AppSettings {
            pen_width: 3,
            arrow_head_length: 20,
            launch_on_startup: false,
            show_experimental_features: false,
            break_time: 10,
            shortcuts: Shortcuts::default(),
            last_version_check: "0".to_owned(),
            version_check: true,
            default_color: "#ff0000".to_owned(),
        }
    }
}

/// The settings that take effect for a given load attempt: the stored value
/// when one parsed, the defaults otherwise.
pub fn effective_settings(loaded: Option<AppSettings>) -> (r: AppSettings)
    ensures
        loaded is Some ==> r == loaded.unwrap(),
        loaded is None ==> is_default_settings(r),
{
    match loaded {
        Some(s) => s,
        None => AppSettings::default(),
    }
}

} // verus!
