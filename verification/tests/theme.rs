use rproc::theme::{
    current_theme, detect_system_theme, gsettings_color_scheme, init, is_emoji_font_name,
    mark_applied, palette, portal_color_scheme, probe_due, resolved_kind, set_theme, state_fills,
    visual_colors, without_emoji_fonts, Color, Theme, ThemeState,
};

const SEC: u64 = 1_000_000_000;

#[test]
fn theme_names() {
    assert_eq!(Theme::from_str(" DARK \n"), Some(Theme::Dark));
    assert_eq!(Theme::from_str("Light"), Some(Theme::Light));
    assert_eq!(Theme::from_str("system"), Some(Theme::System));
    assert_eq!(Theme::from_str("blue"), None);
    assert_eq!(Theme::from_key("Dark"), None);
    for t in [Theme::Dark, Theme::Light, Theme::System] {
        assert_eq!(Theme::from_str(t.as_str()), Some(t));
    }
    assert_eq!(Theme::System.as_str(), "system");
}

#[test]
fn choice_reads_back() {
    let mut st = ThemeState::new();
    assert_eq!(current_theme(&st), Theme::Dark);
    init(&mut st, Theme::Light);
    assert_eq!(current_theme(&st), Theme::Light);
    set_theme(&mut st, Theme::System);
    assert_eq!(current_theme(&st), Theme::System);
}

#[test]
fn explicit_choices_resolve_without_probing() {
    let mut st = ThemeState::new();
    assert!(!probe_due(&st, 0));
    assert_eq!(resolved_kind(&mut st, 0, Some(Theme::Light)), 0);
    set_theme(&mut st, Theme::Light);
    assert!(!probe_due(&st, 0));
    assert_eq!(resolved_kind(&mut st, 0, Some(Theme::Dark)), 1);
}

#[test]
fn system_choice_probes_every_ten_seconds() {
    let mut st = ThemeState::new();
    set_theme(&mut st, Theme::System);
    assert!(probe_due(&st, 100 * SEC));
    assert_eq!(resolved_kind(&mut st, 100 * SEC, Some(Theme::Light)), 1);
    assert!(!probe_due(&st, 105 * SEC));
    assert_eq!(resolved_kind(&mut st, 105 * SEC, Some(Theme::Dark)), 1);
    assert!(!probe_due(&st, 110 * SEC - 1));
    assert!(probe_due(&st, 110 * SEC));
    assert_eq!(resolved_kind(&mut st, 110 * SEC, None), 0);
    assert!(!probe_due(&st, 50 * SEC));
}

#[test]
fn style_rebuilt_only_on_transitions() {
    let mut st = ThemeState::new();
    assert!(mark_applied(&mut st, 0));
    assert!(!mark_applied(&mut st, 0));
    assert!(mark_applied(&mut st, 1));
    set_theme(&mut st, Theme::Light);
    assert!(mark_applied(&mut st, 1));
    assert!(!mark_applied(&mut st, 1));
}

#[test]
fn portal_replies() {
    assert_eq!(portal_color_scheme("method return\n   uint32 1\n"), Some(Theme::Dark));
    assert_eq!(portal_color_scheme("method return\r\nuint32 2\r\n"), Some(Theme::Light));
    assert_eq!(portal_color_scheme("uint32 0"), Some(Theme::Light));
    assert_eq!(portal_color_scheme("uint32 x\nuint32 1\n"), None);
    assert_eq!(portal_color_scheme("   variant       variant          uint32 1\n"), None);
    assert_eq!(portal_color_scheme(""), None);
}

#[test]
fn gsettings_replies() {
    assert_eq!(gsettings_color_scheme("'prefer-dark'\n"), Theme::Dark);
    assert_eq!(gsettings_color_scheme("'default'\n"), Theme::Light);
    assert_eq!(gsettings_color_scheme(""), Theme::Light);
}

#[test]
fn portal_answer_preferred() {
    assert_eq!(detect_system_theme(Some(Theme::Dark), Some(Theme::Light)), Some(Theme::Dark));
    assert_eq!(detect_system_theme(None, Some(Theme::Light)), Some(Theme::Light));
    assert_eq!(detect_system_theme(None, None), None);
}

#[test]
fn palettes() {
    assert_eq!(palette(0).accent, Color { r: 0x60, g: 0xCD, b: 0xFF, a: 255 });
    assert_eq!(palette(1).accent, Color { r: 0x00, g: 0x78, b: 0xD4, a: 255 });
    assert_eq!(palette(7).bg, Color { r: 0xF5, g: 0xF5, b: 0xF5, a: 255 });
    assert_eq!(state_fills(true).selection, Color { r: 0x60, g: 0xCD, b: 0xFF, a: 60 });
    assert_eq!(state_fills(false).hovered, Color { r: 0xDD, g: 0xDD, b: 0xDD, a: 255 });
}

#[test]
fn emoji_fonts_removed() {
    let names: Vec<String> = ["Hack", "NotoEmoji-Regular", "Ubuntu-Light", "emoji-icon-font"]
        .iter()
        .map(|s| s.to_string())
        .collect();
    assert_eq!(without_emoji_fonts(&names), vec!["Hack".to_string(), "Ubuntu-Light".to_string()]);
    assert!(is_emoji_font_name("emoji-icon-font"));
    assert!(!is_emoji_font_name("Hack"));
}

#[test]
fn style_colours_follow_the_palette() {
    let d = visual_colors(0);
    assert_eq!(d.panel_fill, Color { r: 0x1F, g: 0x1F, b: 0x1F, a: 255 });
    assert_eq!(d.extreme_bg, Color { r: 0x26, g: 0x26, b: 0x26, a: 255 });
    assert_eq!(d.noninteractive_bg, Color { r: 0x2A, g: 0x2A, b: 0x2A, a: 255 });
    assert_eq!(d.hovered_bg, Color { r: 0x38, g: 0x38, b: 0x38, a: 255 });
    assert_eq!(d.selection_bg, Color { r: 0x60, g: 0xCD, b: 0xFF, a: 60 });
    assert_eq!(d.text_override, Color { r: 0xE6, g: 0xE6, b: 0xE6, a: 255 });
    let l = visual_colors(1);
    assert_eq!(l.window_fill, Color { r: 0xF5, g: 0xF5, b: 0xF5, a: 255 });
    assert_eq!(l.active_weak_bg, Color { r: 0xCC, g: 0xCC, b: 0xCC, a: 255 });
    assert_eq!(l.selection_bg, Color { r: 0x00, g: 0x78, b: 0xD4, a: 50 });
    assert_eq!(l.hyperlink, Color { r: 0x00, g: 0x78, b: 0xD4, a: 255 });
}

#[test]
fn names_parse_regardless_of_space_and_case() {
    for s in [" Dark\n", "LIGHT", "\tSystem ", "auto", ""] {
        let normal = s.trim().to_lowercase();
        assert_eq!(Theme::from_str(s), Theme::from_str(&normal));
    }
    assert_eq!(Theme::from_str(" Dark\n"), Some(Theme::Dark));
    assert_eq!(Theme::from_str("auto"), None);
}

#[test]
fn new_choice_rebuilds_then_steady_frames_do_not() {
    let mut st = ThemeState::new();
    set_theme(&mut st, Theme::Light);
    let k = resolved_kind(&mut st, 0, None);
    assert!(mark_applied(&mut st, k));
    let r = resolved_kind(&mut st, SEC, None);
    assert!(!mark_applied(&mut st, r));
    set_theme(&mut st, Theme::System);
    let k = resolved_kind(&mut st, 2 * SEC, Some(Theme::Dark));
    assert_eq!(k, 0);
    assert!(mark_applied(&mut st, k));
    let r = resolved_kind(&mut st, 3 * SEC, Some(Theme::Light));
    assert_eq!(r, 0);
    assert!(!mark_applied(&mut st, r));
    let r = resolved_kind(&mut st, 12 * SEC, Some(Theme::Light));
    assert_eq!(r, 1);
    assert!(mark_applied(&mut st, r));
}
