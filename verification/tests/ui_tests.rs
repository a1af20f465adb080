use presentink::menus::{dispatch_shortcut, menu_plan, MenuEntry, ShortcutAction, ShortcutKey};
use presentink::settings::{effective_settings, AppSettings, Shortcuts};
use presentink::tray::{icon_path_for, toggle_draw_decision, DrawCommand};
use presentink::windows::{
    break_window_prefix, draw_window_prefix, fmt_u32, label_has_prefix, monitor_window_plans,
    splash_window_prefix, OVERLAY_REFOCUS_MS, SPLASH_DURATION_MS,
};
use presentink::capture::MonitorDescriptor;

#[test]
fn default_settings_match_the_stock_configuration() {
    let s = AppSettings::default();
    assert_eq!(s.pen_width, 3);
    assert_eq!(s.arrow_head_length, 20);
    assert!(!s.launch_on_startup);
    assert!(!s.show_experimental_features);
    assert_eq!(s.break_time, 10);
    assert_eq!(s.last_version_check, "0");
    assert!(s.version_check);
    assert_eq!(s.default_color, "#ff0000");
    let sc = Shortcuts::default();
    assert_eq!(sc.drawing, "Option+Shift+D");
    assert_eq!(sc.text, "Option+Shift+T");
    assert_eq!(sc.break_mode, "Option+Shift+B");
    assert_eq!(sc.screenshot, "Option+Shift+S");
    assert_eq!(sc.preferences, "Option+Shift+P");
}

#[test]
fn effective_settings_fall_back_to_defaults() {
    let fallback = effective_settings(None);
    assert_eq!(fallback.pen_width, 3);
    let mut stored = AppSettings::default();
    stored.pen_width = 9;
    assert_eq!(effective_settings(Some(stored)).pen_width, 9);
}

#[test]
fn menu_hides_text_submenu_by_default() {
    let plan = menu_plan(&AppSettings::default());
    assert!(!plan.contains(&MenuEntry::TextSubmenu));
    assert_eq!(plan.first(), Some(&MenuEntry::Draw));
    assert_eq!(plan.last(), Some(&MenuEntry::Quit));
}

#[test]
fn menu_shows_text_submenu_when_experimental() {
    let mut settings = AppSettings::default();
    settings.show_experimental_features = true;
    let plan = menu_plan(&settings);
    assert!(plan.contains(&MenuEntry::TextSubmenu));
    assert_eq!(plan.last(), Some(&MenuEntry::Quit));
    assert_eq!(plan.len(), menu_plan(&AppSettings::default()).len() + 2);
}

#[test]
fn shortcuts_fire_on_press_only() {
    assert_eq!(
        dispatch_shortcut(ShortcutKey::DrawChord, true, false),
        Some(ShortcutAction::ToggleDraw)
    );
    assert_eq!(dispatch_shortcut(ShortcutKey::DrawChord, false, false), None);
    assert_eq!(
        dispatch_shortcut(ShortcutKey::ScreenshotChord, true, false),
        Some(ShortcutAction::StartScreenshot)
    );
    assert_eq!(
        dispatch_shortcut(ShortcutKey::BreakChord, true, false),
        Some(ShortcutAction::ShowBreakTimer)
    );
    assert_eq!(
        dispatch_shortcut(ShortcutKey::TextChord, true, false),
        Some(ShortcutAction::RunScript)
    );
}

#[test]
fn preferences_shortcut_is_dev_only() {
    assert_eq!(
        dispatch_shortcut(ShortcutKey::PreferencesChord, true, true),
        Some(ShortcutAction::OpenSettings)
    );
    assert_eq!(dispatch_shortcut(ShortcutKey::PreferencesChord, true, false), None);
}

#[test]
fn known_colors_map_to_their_icons() {
    assert_eq!(icon_path_for("#ff0000", true), "icons/icon-red.png");
    assert_eq!(icon_path_for("red", true), "icons/icon-red.png");
    assert_eq!(icon_path_for("blue", true), "icons/icon-blue.png");
    assert_eq!(icon_path_for("#00ff00", true), "icons/icon-green.png");
    assert_eq!(icon_path_for("yellow", true), "icons/icon-yellow.png");
    assert_eq!(icon_path_for("black", true), "icons/icon-pink.png");
    assert_eq!(icon_path_for("orange", true), "icons/icon-orange.png");
}

#[test]
fn unknown_colors_and_idle_state_use_the_template_icon() {
    assert_eq!(icon_path_for("chartreuse", true), "icons/iconTemplate.png");
    assert_eq!(icon_path_for("red", false), "icons/iconTemplate.png");
    assert_eq!(icon_path_for("#ffffff", false), "icons/iconTemplate.png");
}

#[test]
fn draw_toggle_follows_visibility() {
    assert_eq!(toggle_draw_decision(true), (DrawCommand::StopDraw, false));
    assert_eq!(toggle_draw_decision(false), (DrawCommand::StartDraw, true));
}

#[test]
fn decimal_formatting_is_exact() {
    assert_eq!(fmt_u32(0), "0");
    assert_eq!(fmt_u32(7), "7");
    assert_eq!(fmt_u32(10), "10");
    assert_eq!(fmt_u32(1234), "1234");
    assert_eq!(fmt_u32(u32::MAX), "4294967295");
}

#[test]
fn window_plans_cover_each_monitor() {
    let monitors = vec![
        MonitorDescriptor {
            index: 0,
            pos_x: 0,
            pos_y: 0,
            width: 800,
            height: 600,
            scale_milli: 1000,
        },
        MonitorDescriptor {
            index: 1,
            pos_x: 800,
            pos_y: 0,
            width: 1024,
            height: 768,
            scale_milli: 1000,
        },
    ];
    let plans = monitor_window_plans(draw_window_prefix(), &monitors);
    assert_eq!(plans.len(), 2);
    assert_eq!(plans[0].label, "draw-window-0");
    assert_eq!(plans[1].label, "draw-window-1");
    assert_eq!((plans[1].pos_x, plans[1].width, plans[1].height), (800, 1024, 768));
    assert_eq!((plans[1].monitor, plans[1].scale_milli), (1, 1000));

    let break_plans = monitor_window_plans(break_window_prefix(), &monitors);
    assert_eq!(break_plans[0].label, "break-window-0");
    let splash_plans = monitor_window_plans(splash_window_prefix(), &monitors);
    assert_eq!(splash_plans[1].label, "splash-window-1");
}

#[test]
fn broadcast_filters_select_by_label_prefix() {
    assert!(label_has_prefix("draw-window-0", draw_window_prefix()));
    assert!(label_has_prefix("draw-window-12", draw_window_prefix()));
    assert!(!label_has_prefix("break-window-0", draw_window_prefix()));
    assert!(!label_has_prefix("draw-window", draw_window_prefix()));
    assert!(label_has_prefix("anything", ""));
}

#[test]
fn window_timing_constants() {
    assert_eq!(SPLASH_DURATION_MS, 3200);
    assert_eq!(OVERLAY_REFOCUS_MS, 100);
}
