//! The colour theme: the user's choice, how it resolves to a dark or light
//! palette (following the desktop preference when the choice is `System`),
//! and when the style has to be rebuilt.
//!
//! The state that the application keeps between frames is a `ThemeState`;
//! times are monotonic clock readings in nanoseconds from one origin.
use vstd::prelude::*;

use crate::text::{
    ascii_lowercase, contains_chars, decimal, lemma_decimal_roundtrip, lemma_lowercase_trimmed,
    lemma_trim_ends, lemma_trim_unchanged, equals_str, lowercase, parse_unsigned, parse_unsigned_chars,
    split, split_chars, strip_prefix, strip_prefix_chars, to_chars, to_lowercase_chars, trim,
    trim_chars, contains_seq,
};

verus! {

broadcast use vstd::string::group_string_axioms;

// ---------------------------------------------------------------------------
// Theme enum
// ---------------------------------------------------------------------------

#[derive(Clone, Copy, Debug, PartialEq, Eq, Structural)]
pub enum Theme {
    Dark,
    Light,
    /// Follow the desktop colour scheme. Detected via D-Bus (portal) with a
    /// gsettings fallback for GNOME/Cinnamon. Re-sampled every 10 s so
    /// flipping the system preference takes effect without a restart.
    System,
}

/// The name under which a theme is stored.
pub open spec fn theme_name(t: Theme) -> Seq<char> {
    match t {
        Theme::Dark => "dark"@,
        Theme::Light => "light"@,
        Theme::System => "system"@,
    }
}

/// The theme a (trimmed, lowercased) name stands for.
pub open spec fn theme_from_key(key: Seq<char>) -> Option<Theme> {
    if key == "dark"@ {
        Some(Theme::Dark)
    } else if key == "light"@ {
        Some(Theme::Light)
    } else if key == "system"@ {
        Some(Theme::System)
    } else {
        None
    }
}

/// The code under which the user's choice is kept (0 = dark, 1 = light,
/// 2 = system).
pub open spec fn theme_code(t: Theme) -> u8 {
    match t {
        Theme::Dark => 0,
        Theme::Light => 1,
        Theme::System => 2,
    }
}

/// The choice a stored code stands for; every code above 1 means System.
pub open spec fn theme_of_code(code: u8) -> Theme {
    if code == 0 {
        Theme::Dark
    } else if code == 1 {
        Theme::Light
    } else {
        Theme::System
    }
}

impl Theme {
    pub fn as_str(self) -> (r: &'static str)
        ensures
            r@ == theme_name(self),
    {
        match self {
            Theme::Dark => "dark",
            Theme::Light => "light",
            Theme::System => "system",
        }
    }

    /// The theme named by `s`, ignoring surrounding whitespace and case.
    pub fn from_str(s: &str) -> (r: Option<Theme>)
        ensures
            r == theme_from_key(lowercase(trim(s@))),
            vstd::utf8::is_ascii_chars(trim(s@)) ==> r == theme_from_key(ascii_lowercase(trim(s@))),
    {
        let chars = to_chars(s);
        let t = trim_chars(chars.as_slice());
        let key = to_lowercase_chars(t.as_slice());
        Theme::from_key_chars(key.as_slice())
    }

    /// The theme whose name is exactly `key`.
    pub fn from_key(key: &str) -> (r: Option<Theme>)
        ensures
            r == theme_from_key(key@),
    {
        let k = to_chars(key);
        Theme::from_key_chars(k.as_slice())
    }

    fn from_key_chars(key: &[char]) -> (r: Option<Theme>)
        ensures
            r == theme_from_key(key@),
    {
        if equals_str(key, "dark") {
            Some(Theme::Dark)
        } else if equals_str(key, "light") {
            Some(Theme::Light)
        } else if equals_str(key, "system") {
            Some(Theme::System)
        } else {
            None
        }
    }

    /// The code under which the choice is kept.
    pub fn code(self) -> (r: u8)
        ensures
            r == theme_code(self),
    {
        match self {
            Theme::Dark => 0,
            Theme::Light => 1,
            Theme::System => 2,
        }
    }
}

// ---------------------------------------------------------------------------
// Theme state
// ---------------------------------------------------------------------------

/// The value of the last applied palette before any was applied, or after
/// the choice changed: it matches no palette, so the next application
/// rebuilds the style.
pub const NOT_APPLIED: u8 = 0xFF;

/// How long a desktop-preference probe stays valid: 10 s.
pub const PROBE_INTERVAL_NS: u64 = 10_000_000_000;

/// What the theme logic remembers between frames: the user-chosen theme
/// (as its code), the last palette kind actually applied (0 = dark,
/// 1 = light), the result of the last probe of the desktop preference, and
/// when that probe ran.
pub struct ThemeState {
    theme: u8,
    last_resolved: u8,
    cached_detected: u8,
    last_check_ns: Option<u64>,
}

impl ThemeState {
    /// A probe result is a palette kind: 0 (dark) or 1 (light).
    #[verifier::type_invariant]
    spec fn probe_result_is_kind(&self) -> bool {
        self.cached_detected <= 1
    }

    pub closed spec fn choice_code(&self) -> u8 {
        self.theme
    }

    pub closed spec fn last_resolved(&self) -> u8 {
        self.last_resolved
    }

    pub closed spec fn cached_detected(&self) -> u8 {
        self.cached_detected
    }

    pub closed spec fn last_check_ns(&self) -> Option<u64> {
        self.last_check_ns
    }

    /// Dark chosen, nothing applied or probed yet.
    pub fn new() -> (r: ThemeState)
        ensures
            r.choice_code() == 0,
            r.last_resolved() == NOT_APPLIED,
            r.cached_detected() == 0,
            r.last_check_ns() is None,
    {
        ThemeState { theme: 0, last_resolved: NOT_APPLIED, cached_detected: 0, last_check_ns: None }
    }
}

/// Record the user's choice at start-up.
pub fn init(state: &mut ThemeState, theme: Theme)
    ensures
        final(state).choice_code() == theme_code(theme),
        final(state).last_resolved() == old(state).last_resolved(),
        final(state).cached_detected() == old(state).cached_detected(),
        final(state).last_check_ns() == old(state).last_check_ns(),
{
    proof {
        use_type_invariant(&*state);
    }
    state.theme = theme.code();
}

/// The state after the choice `theme` is set in `before`: the choice
/// changes and no palette counts as applied any more; the probe record
/// stays.
pub open spec fn set_theme_post(before: ThemeState, after: ThemeState, theme: Theme) -> bool {
    &&& after.choice_code() == theme_code(theme)
    &&& after.last_resolved() == NOT_APPLIED
    &&& after.cached_detected() == before.cached_detected()
    &&& after.last_check_ns() == before.last_check_ns()
}

/// Record a new choice, and force a re-apply on the next frame by
/// invalidating the last applied palette.
pub fn set_theme(state: &mut ThemeState, theme: Theme)
    ensures
        set_theme_post(*old(state), *final(state), theme),
{
    proof {
        use_type_invariant(&*state);
    }
    state.theme = theme.code();
    state.last_resolved = NOT_APPLIED;
}

/// The user's current choice.
pub fn current_theme(state: &ThemeState) -> (r: Theme)
    ensures
        r == theme_of_code(state.choice_code()),
{
    match state.theme {
        0 => Theme::Dark,
        1 => Theme::Light,
        _ => Theme::System,
    }
}

/// Whether a probe made at `last` is stale at `now`: none was made, or at
/// least 10 s have passed (the time elapsed counting as zero when `now` is
/// earlier).
pub open spec fn probe_stale(last: Option<u64>, now_ns: u64) -> bool {
    match last {
        None => true,
        Some(t) => now_ns >= t && now_ns - t >= PROBE_INTERVAL_NS,
    }
}

/// Whether resolving the palette now needs a fresh probe of the desktop
/// preference: the choice is System and the last probe is stale.
pub open spec fn needs_probe(state: ThemeState, now_ns: u64) -> bool {
    state.choice_code() >= 2 && probe_stale(state.last_check_ns(), now_ns)
}

/// Whether the desktop preference has to be probed before resolving the
/// palette at `now_ns`. D-Bus calls are cheap but not free, so the
/// preference is re-sampled at most once per 10 s.
pub fn probe_due(state: &ThemeState, now_ns: u64) -> (r: bool)
    ensures
        r == needs_probe(*state, now_ns),
{
    if state.theme < 2 {
        return false;
    }
    match state.last_check_ns {
        None => true,
        Some(t) => now_ns >= t && now_ns - t >= PROBE_INTERVAL_NS,
    }
}

/// The palette kind a probe result stands for: light only when the desktop
/// prefers light, dark otherwise (also when detection failed).
pub open spec fn detected_kind(detected: Option<Theme>) -> u8 {
    if detected == Some(Theme::Light) {
        1
    } else {
        0
    }
}

/// The kind `r` resolved in `before` at `now_ns`, with `after` the state
/// left behind: an explicit choice gives its own kind; following the
/// system, a due probe's result `detected` decides and is recorded with the
/// time, and otherwise the recorded result stands. The choice and the
/// palette last applied stay.
pub open spec fn resolve_post(before: ThemeState, after: ThemeState, now_ns: u64, detected: Option<Theme>, r: u8) -> bool {
    &&& after.choice_code() == before.choice_code()
    &&& after.last_resolved() == before.last_resolved()
    &&& before.choice_code() == 0 ==> r == 0
    &&& before.choice_code() == 1 ==> r == 1
    &&& needs_probe(before, now_ns) ==> r == detected_kind(detected)
        && after.cached_detected() == r
        && after.last_check_ns() == Some(now_ns)
    &&& !needs_probe(before, now_ns) ==> after.cached_detected() == before.cached_detected()
        && after.last_check_ns() == before.last_check_ns()
    &&& before.choice_code() >= 2 && !needs_probe(before, now_ns) ==> r == before.cached_detected()
}

/// The palette kind in use right now (0 = dark, 1 = light). When the user
/// chose System and a probe is due (see `probe_due`), `detected` is the
/// result of that probe; it is recorded, with the time, and decides the
/// kind. Otherwise the last probe's result stands and `detected` is not
/// looked at.
pub fn resolved_kind(state: &mut ThemeState, now_ns: u64, detected: Option<Theme>) -> (r: u8)
    ensures
        r <= 1,
        resolve_post(*old(state), *final(state), now_ns, detected, r),
{
    proof {
        use_type_invariant(&*state);
    }
    match state.theme {
        0 => 0,
        1 => 1,
        _ => {
            if probe_due(state, now_ns) {
                let v: u8 = match detected {
                    Some(Theme::Light) => 1,
                    _ => 0,
                };
                state.last_check_ns = Some(now_ns);
                state.cached_detected = v;
                v
            } else {
                state.cached_detected
            }
        },
    }
}

/// Whether applying the palette of kind `resolved` in `state` rebuilds the
/// style: it differs from the one applied last.
pub open spec fn rebuilds(state: ThemeState, resolved: u8) -> bool {
    state.last_resolved() != resolved
}

/// The state after the palette of kind `resolved` is applied in `before`:
/// that palette counts as applied; nothing else changes.
pub open spec fn mark_applied_post(before: ThemeState, after: ThemeState, resolved: u8) -> bool {
    &&& after.last_resolved() == resolved
    &&& after.choice_code() == before.choice_code()
    &&& after.cached_detected() == before.cached_detected()
    &&& after.last_check_ns() == before.last_check_ns()
}

/// Record that the palette of kind `resolved` is being applied; returns
/// whether it differs from the one applied before (so the full style has to
/// be rebuilt only on actual transitions).
pub fn mark_applied(state: &mut ThemeState, resolved: u8) -> (r: bool)
    ensures
        r == rebuilds(*old(state), resolved),
        mark_applied_post(*old(state), *final(state), resolved),
{
    proof {
        use_type_invariant(&*state);
    }
    let previous = state.last_resolved;
    state.last_resolved = resolved;
    previous != resolved
}

// ---------------------------------------------------------------------------
// System theme detection
// ---------------------------------------------------------------------------

/// The desktop colour-scheme preference: the D-Bus portal's answer, or when
/// it gave none, the gsettings answer.
pub fn detect_system_theme(dbus: Option<Theme>, gsettings: Option<Theme>) -> (r: Option<Theme>)
    ensures
        r == (match dbus {
            Some(t) => Some(t),
            None => gsettings,
        }),
{
    match dbus {
        Some(t) => Some(t),
        None => gsettings,
    }
}

/// The answer in the reply lines of the portal's `color-scheme` setting,
/// scanned in order: the first line that, trimmed, starts with `uint32 `
/// decides: its number (trimmed) is `1` for prefer-dark and anything else
/// for prefer-light; a number that does not parse gives no answer. No such
/// line gives no answer either.
pub open spec fn portal_answer(lines: Seq<Seq<char>>) -> Option<Theme>
    decreases lines.len(),
{
    if lines.len() == 0 {
        None
    } else {
        match strip_prefix(trim(lines[0]), "uint32 "@) {
            Some(num) => match parse_unsigned(trim(num), 10, u32::MAX as nat) {
                Some(v) => if v == 1 {
                    Some(Theme::Dark)
                } else {
                    Some(Theme::Light)
                },
                None => None,
            },
            None => portal_answer(lines.drop_first()),
        }
    }
}

/// The desktop preference in the output of `dbus-send` reading the portal
/// setting `org.freedesktop.appearance color-scheme` (`1` = prefer-dark,
/// `2` = prefer-light). The lines are split at `\n`; the carriage returns
/// and final empty line that `str::lines` would drop are removed by the
/// trimming or never match.
pub fn portal_color_scheme(text: &str) -> (r: Option<Theme>)
    ensures
        r == portal_answer(split(text@, '\n')),
{
    let chars = to_chars(text);
    let lines = split_chars(chars.as_slice(), '\n');
    let ghost pieces = split(text@, '\n');
    let mut i: usize = 0;
    assert(pieces.skip(0) == pieces);
    while i < lines.len()
        invariant
            pieces == split(text@, '\n'),
            lines@.len() == pieces.len(),
            forall|k: int| 0 <= k < lines@.len() ==> #[trigger] lines@[k]@ == pieces[k],
            i <= lines@.len(),
            portal_answer(pieces.skip(i as int)) == portal_answer(pieces),
        decreases lines@.len() - i,
    {
        assert(pieces.skip(i as int)[0] == pieces[i as int]);
        assert(pieces.skip(i as int).drop_first() == pieces.skip(i + 1));
        let line = trim_chars(lines[i].as_slice());
        match strip_prefix_chars(line.as_slice(), "uint32 ") {
            Some(num) => {
                let n = trim_chars(num.as_slice());
                return match parse_unsigned_chars(n.as_slice(), 10, 0xffff_ffffu64) {
                    Some(v) => if v == 1 {
                        Some(Theme::Dark)
                    } else {
                        Some(Theme::Light)
                    },
                    None => None,
                };
            },
            None => {},
        }
        i += 1;
    }
    None
}

/// The desktop preference in the output of `gsettings get
/// org.gnome.desktop.interface color-scheme`: `'prefer-dark'` means dark,
/// anything else (`'default'`) light.
pub open spec fn gsettings_answer(text: Seq<char>) -> Theme {
    if contains_seq(text, "prefer-dark"@) {
        Theme::Dark
    } else {
        Theme::Light
    }
}

/// The desktop preference in the output of `gsettings get
/// org.gnome.desktop.interface color-scheme` (see `gsettings_answer`).
pub fn gsettings_color_scheme(text: &str) -> (r: Theme)
    ensures
        r == gsettings_answer(text@),
{
    let chars = to_chars(text);
    let pat = to_chars("prefer-dark");
    if contains_chars(chars.as_slice(), pat.as_slice()) {
        Theme::Dark
    } else {
        Theme::Light
    }
}

// ---------------------------------------------------------------------------
// Palette
// ---------------------------------------------------------------------------

/// An sRGB colour with alpha.
#[derive(Clone, Copy, Debug, PartialEq, Eq, Structural)]
pub struct Color {
    pub r: u8,
    pub g: u8,
    pub b: u8,
    pub a: u8,
}

/// An opaque colour.
pub open spec fn rgb(r: u8, g: u8, b: u8) -> Color {
    Color { r, g, b, a: 255 }
}

fn opaque(r: u8, g: u8, b: u8) -> (c: Color)
    ensures
        c == rgb(r, g, b),
{
    Color { r, g, b, a: 255 }
}

#[derive(Clone, Copy, Debug, PartialEq, Eq, Structural)]
pub struct Palette {
    pub accent: Color,
    pub bg: Color,
    pub sidebar_bg: Color,
    pub panel_bg: Color,
    pub card_bg: Color,
    pub text: Color,
    pub text_dim: Color,
    pub graph_cpu: Color,
    pub graph_ram: Color,
    pub graph_disk: Color,
    pub graph_net: Color,
    pub graph_gpu: Color,
    pub ok: Color,
    pub warn: Color,
    pub err: Color,
}

/// The dark palette.
pub open spec fn dark() -> Palette {
    Palette {
        accent: rgb(0x60, 0xCD, 0xFF),
        bg: rgb(0x1F, 0x1F, 0x1F),
        sidebar_bg: rgb(0x2A, 0x2A, 0x2A),
        panel_bg: rgb(0x26, 0x26, 0x26),
        card_bg: rgb(0x2E, 0x2E, 0x2E),
        text: rgb(0xE6, 0xE6, 0xE6),
        text_dim: rgb(0x9A, 0x9A, 0x9A),
        graph_cpu: rgb(0x39, 0xA7, 0xFF),
        graph_ram: rgb(0xB4, 0x6A, 0xFF),
        graph_disk: rgb(0x4E, 0xE0, 0xB3),
        graph_net: rgb(0xFF, 0xB0, 0x4E),
        graph_gpu: rgb(0xFF, 0x5C, 0x8A),
        ok: rgb(0x55, 0xD1, 0x7C),
        warn: rgb(0xFF, 0xC4, 0x4D),
        err: rgb(0xFF, 0x6B, 0x6B),
    }
}

/// The light palette.
pub open spec fn light() -> Palette {
    Palette {
        accent: rgb(0x00, 0x78, 0xD4),
        bg: rgb(0xF5, 0xF5, 0xF5),
        sidebar_bg: rgb(0xE8, 0xE8, 0xE8),
        panel_bg: rgb(0xEE, 0xEE, 0xEE),
        card_bg: rgb(0xFF, 0xFF, 0xFF),
        text: rgb(0x1A, 0x1A, 0x1A),
        text_dim: rgb(0x70, 0x70, 0x70),
        graph_cpu: rgb(0x00, 0x78, 0xD4),
        graph_ram: rgb(0x88, 0x6C, 0xE4),
        graph_disk: rgb(0x0D, 0x94, 0x88),
        graph_net: rgb(0xD9, 0x77, 0x06),
        graph_gpu: rgb(0xE1, 0x1D, 0x48),
        ok: rgb(0x16, 0xA3, 0x4A),
        warn: rgb(0xCA, 0x8A, 0x04),
        err: rgb(0xDC, 0x26, 0x26),
    }
}

/// The dark palette.
pub fn dark_palette() -> (p: Palette)
    ensures
        p == dark(),
{
    Palette {
        accent: opaque(0x60, 0xCD, 0xFF),
        bg: opaque(0x1F, 0x1F, 0x1F),
        sidebar_bg: opaque(0x2A, 0x2A, 0x2A),
        panel_bg: opaque(0x26, 0x26, 0x26),
        card_bg: opaque(0x2E, 0x2E, 0x2E),
        text: opaque(0xE6, 0xE6, 0xE6),
        text_dim: opaque(0x9A, 0x9A, 0x9A),
        graph_cpu: opaque(0x39, 0xA7, 0xFF),
        graph_ram: opaque(0xB4, 0x6A, 0xFF),
        graph_disk: opaque(0x4E, 0xE0, 0xB3),
        graph_net: opaque(0xFF, 0xB0, 0x4E),
        graph_gpu: opaque(0xFF, 0x5C, 0x8A),
        ok: opaque(0x55, 0xD1, 0x7C),
        warn: opaque(0xFF, 0xC4, 0x4D),
        err: opaque(0xFF, 0x6B, 0x6B),
    }
}

/// The light palette.
pub fn light_palette() -> (p: Palette)
    ensures
        p == light(),
{
    Palette {
        accent: opaque(0x00, 0x78, 0xD4),
        bg: opaque(0xF5, 0xF5, 0xF5),
        sidebar_bg: opaque(0xE8, 0xE8, 0xE8),
        panel_bg: opaque(0xEE, 0xEE, 0xEE),
        card_bg: opaque(0xFF, 0xFF, 0xFF),
        text: opaque(0x1A, 0x1A, 0x1A),
        text_dim: opaque(0x70, 0x70, 0x70),
        graph_cpu: opaque(0x00, 0x78, 0xD4),
        graph_ram: opaque(0x88, 0x6C, 0xE4),
        graph_disk: opaque(0x0D, 0x94, 0x88),
        graph_net: opaque(0xD9, 0x77, 0x06),
        graph_gpu: opaque(0xE1, 0x1D, 0x48),
        ok: opaque(0x16, 0xA3, 0x4A),
        warn: opaque(0xCA, 0x8A, 0x04),
        err: opaque(0xDC, 0x26, 0x26),
    }
}

/// The palette of a resolved kind: dark for 0, light otherwise.
pub fn palette(kind: u8) -> (p: Palette)
    ensures
        p == palette_of(kind),
{
    if kind == 0 {
        dark_palette()
    } else {
        light_palette()
    }
}

/// The fills that differ between the dark and the light style: hovered and
/// active widgets, and the (translucent accent) selection.
#[derive(Clone, Copy, Debug, PartialEq, Eq, Structural)]
pub struct StateFills {
    pub hovered: Color,
    pub active: Color,
    pub selection: Color,
}

/// The state fills of the dark style (`is_dark`) or the light one.
pub open spec fn state_fills_of(is_dark: bool) -> StateFills {
    if is_dark {
        StateFills {
            hovered: rgb(0x38, 0x38, 0x38),
            active: rgb(0x44, 0x44, 0x44),
            selection: Color { r: 0x60, g: 0xCD, b: 0xFF, a: 60 },
        }
    } else {
        StateFills {
            hovered: rgb(0xDD, 0xDD, 0xDD),
            active: rgb(0xCC, 0xCC, 0xCC),
            selection: Color { r: 0x00, g: 0x78, b: 0xD4, a: 50 },
        }
    }
}

/// The state fills of a style.
pub fn state_fills(is_dark: bool) -> (r: StateFills)
    ensures
        r == state_fills_of(is_dark),
{
    if is_dark {
        StateFills {
            hovered: opaque(0x38, 0x38, 0x38),
            active: opaque(0x44, 0x44, 0x44),
            selection: Color { r: 0x60, g: 0xCD, b: 0xFF, a: 60 },
        }
    } else {
        StateFills {
            hovered: opaque(0xDD, 0xDD, 0xDD),
            active: opaque(0xCC, 0xCC, 0xCC),
            selection: Color { r: 0x00, g: 0x78, b: 0xD4, a: 50 },
        }
    }
}

/// The colours the style takes for a resolved palette kind, field by field.
#[derive(Clone, Copy, Debug, PartialEq, Eq, Structural)]
pub struct VisualColors {
    pub panel_fill: Color,
    pub window_fill: Color,
    pub extreme_bg: Color,
    pub noninteractive_bg: Color,
    pub inactive_bg: Color,
    pub inactive_weak_bg: Color,
    pub hovered_bg: Color,
    pub hovered_weak_bg: Color,
    pub active_bg: Color,
    pub active_weak_bg: Color,
    pub selection_bg: Color,
    pub selection_stroke: Color,
    pub text_override: Color,
    pub hyperlink: Color,
}

/// The palette of a resolved kind: dark for 0, light otherwise.
pub open spec fn palette_of(kind: u8) -> Palette {
    if kind == 0 {
        dark()
    } else {
        light()
    }
}

/// The style colours of a resolved kind: panels and windows in the
/// background colour, the extreme background and resting widgets in the
/// panel colour, non-interactive widgets in the sidebar colour, hovered,
/// active and selected widgets in the state fills of the dark style (kind
/// 0) or the light one, the selection outline and links in the accent, and
/// text in the text colour.
pub open spec fn visual_colors_of(kind: u8) -> VisualColors {
    let p = palette_of(kind);
    let f = state_fills_of(kind == 0);
    VisualColors {
        panel_fill: p.bg,
        window_fill: p.bg,
        extreme_bg: p.panel_bg,
        noninteractive_bg: p.sidebar_bg,
        inactive_bg: p.panel_bg,
        inactive_weak_bg: p.panel_bg,
        hovered_bg: f.hovered,
        hovered_weak_bg: f.hovered,
        active_bg: f.active,
        active_weak_bg: f.active,
        selection_bg: f.selection,
        selection_stroke: p.accent,
        text_override: p.text,
        hyperlink: p.accent,
    }
}

/// The style colours of a resolved palette kind.
pub fn visual_colors(kind: u8) -> (r: VisualColors)
    ensures
        r == visual_colors_of(kind),
{
    let p = palette(kind);
    let f = state_fills(kind == 0);
    VisualColors {
        panel_fill: p.bg,
        window_fill: p.bg,
        extreme_bg: p.panel_bg,
        noninteractive_bg: p.sidebar_bg,
        inactive_bg: p.panel_bg,
        inactive_weak_bg: p.panel_bg,
        hovered_bg: f.hovered,
        hovered_weak_bg: f.hovered,
        active_bg: f.active,
        active_weak_bg: f.active,
        selection_bg: f.selection,
        selection_stroke: p.accent,
        text_override: p.text,
        hyperlink: p.accent,
    }
}

// ---------------------------------------------------------------------------
// Fonts
// ---------------------------------------------------------------------------

/// The bundled emoji fonts, the heaviest blobs in the default font set,
/// which the monitor never renders.
pub open spec fn is_emoji_font(name: Seq<char>) -> bool {
    name == "NotoEmoji-Regular"@ || name == "emoji-icon-font"@
}

/// Whether a font is one of the bundled emoji fonts.
pub fn is_emoji_font_name(name: &str) -> (r: bool)
    ensures
        r == is_emoji_font(name@),
{
    let n = to_chars(name);
    equals_str(n.as_slice(), "NotoEmoji-Regular") || equals_str(n.as_slice(), "emoji-icon-font")
}

/// The font names of a family, in order, without the emoji fonts.
pub open spec fn without_emoji(names: Seq<Seq<char>>) -> Seq<Seq<char>>
    decreases names.len(),
{
    if names.len() == 0 {
        names
    } else if is_emoji_font(names.last()) {
        without_emoji(names.drop_last())
    } else {
        without_emoji(names.drop_last()).push(names.last())
    }
}

/// The views of a list of names.
pub open spec fn name_views(names: Seq<String>) -> Seq<Seq<char>> {
    names.map_values(|n: String| n@)
}

/// A font family's list without the emoji fonts, the other fonts keeping
/// their order. Removing by name cannot blank the Latin text fonts.
pub fn without_emoji_fonts(names: &[String]) -> (r: Vec<String>)
    ensures
        name_views(r@) == without_emoji(name_views(names@)),
{
    let mut out: Vec<String> = Vec::new();
    let mut i: usize = 0;
    assert(name_views(names@).take(0) =~= Seq::<Seq<char>>::empty());
    assert(name_views(out@) =~= Seq::<Seq<char>>::empty());
    while i < names.len()
        invariant
            i <= names@.len(),
            name_views(out@) == without_emoji(name_views(names@).take(i as int)),
        decreases names@.len() - i,
    {
        let ghost prefix = name_views(names@).take(i + 1);
        assert(prefix.drop_last() == name_views(names@).take(i as int));
        assert(prefix.last() == names@[i as int]@);
        if !is_emoji_font_name(names[i].as_str()) {
            let ghost before = out@;
            out.push(names[i].clone());
            assert(name_views(out@) =~= name_views(before).push(names@[i as int]@));
        }
        i += 1;
    }
    assert(name_views(names@).take(names@.len() as int) == name_views(names@));
    out
}

// ---------------------------------------------------------------------------
// Laws
// ---------------------------------------------------------------------------

/// A stored choice reads back as the same choice.
pub proof fn law_choice_code_roundtrip(t: Theme)
    ensures
        theme_of_code(theme_code(t)) == t,
{
}

/// A theme's stored name parses back to the same theme.
pub proof fn law_name_roundtrip(t: Theme)
    ensures
        vstd::utf8::is_ascii_chars(trim(theme_name(t))),
        theme_from_key(ascii_lowercase(trim(theme_name(t)))) == Some(t),
{
    reveal_strlit("dark");
    reveal_strlit("light");
    reveal_strlit("system");
    let n = theme_name(t);
    assert(crate::text::trim_start(n) == n);
    assert(crate::text::trim_end(n) == n);
    assert(ascii_lowercase(n) =~= n);
}

/// Surrounding whitespace and case do not matter to the theme a name
/// stands for: on a text whose trimmed part is ASCII, parsing it gives what
/// parsing its trimmed, lowercased form gives.
pub proof fn law_from_str_normalises(s: Seq<char>)
    requires
        vstd::utf8::is_ascii_chars(trim(s)),
    ensures
        vstd::utf8::is_ascii_chars(trim(ascii_lowercase(trim(s)))),
        theme_from_key(ascii_lowercase(trim(ascii_lowercase(trim(s))))) == theme_from_key(
            ascii_lowercase(trim(s)),
        ),
{
    lemma_lowercase_trimmed(s);
}

/// The dark palette (kind 0) and the light one (every other kind), colour
/// by colour.
pub proof fn law_palette_colours()
    ensures
        palette_of(0).accent == (Color { r: 0x60, g: 0xCD, b: 0xFF, a: 255 }),
        palette_of(0).bg == (Color { r: 0x1F, g: 0x1F, b: 0x1F, a: 255 }),
        palette_of(0).sidebar_bg == (Color { r: 0x2A, g: 0x2A, b: 0x2A, a: 255 }),
        palette_of(0).panel_bg == (Color { r: 0x26, g: 0x26, b: 0x26, a: 255 }),
        palette_of(0).card_bg == (Color { r: 0x2E, g: 0x2E, b: 0x2E, a: 255 }),
        palette_of(0).text == (Color { r: 0xE6, g: 0xE6, b: 0xE6, a: 255 }),
        palette_of(0).text_dim == (Color { r: 0x9A, g: 0x9A, b: 0x9A, a: 255 }),
        palette_of(0).graph_cpu == (Color { r: 0x39, g: 0xA7, b: 0xFF, a: 255 }),
        palette_of(0).graph_ram == (Color { r: 0xB4, g: 0x6A, b: 0xFF, a: 255 }),
        palette_of(0).graph_disk == (Color { r: 0x4E, g: 0xE0, b: 0xB3, a: 255 }),
        palette_of(0).graph_net == (Color { r: 0xFF, g: 0xB0, b: 0x4E, a: 255 }),
        palette_of(0).graph_gpu == (Color { r: 0xFF, g: 0x5C, b: 0x8A, a: 255 }),
        palette_of(0).ok == (Color { r: 0x55, g: 0xD1, b: 0x7C, a: 255 }),
        palette_of(0).warn == (Color { r: 0xFF, g: 0xC4, b: 0x4D, a: 255 }),
        palette_of(0).err == (Color { r: 0xFF, g: 0x6B, b: 0x6B, a: 255 }),
        palette_of(1).accent == (Color { r: 0x00, g: 0x78, b: 0xD4, a: 255 }),
        palette_of(1).bg == (Color { r: 0xF5, g: 0xF5, b: 0xF5, a: 255 }),
        palette_of(1).sidebar_bg == (Color { r: 0xE8, g: 0xE8, b: 0xE8, a: 255 }),
        palette_of(1).panel_bg == (Color { r: 0xEE, g: 0xEE, b: 0xEE, a: 255 }),
        palette_of(1).card_bg == (Color { r: 0xFF, g: 0xFF, b: 0xFF, a: 255 }),
        palette_of(1).text == (Color { r: 0x1A, g: 0x1A, b: 0x1A, a: 255 }),
        palette_of(1).text_dim == (Color { r: 0x70, g: 0x70, b: 0x70, a: 255 }),
        palette_of(1).graph_cpu == (Color { r: 0x00, g: 0x78, b: 0xD4, a: 255 }),
        palette_of(1).graph_ram == (Color { r: 0x88, g: 0x6C, b: 0xE4, a: 255 }),
        palette_of(1).graph_disk == (Color { r: 0x0D, g: 0x94, b: 0x88, a: 255 }),
        palette_of(1).graph_net == (Color { r: 0xD9, g: 0x77, b: 0x06, a: 255 }),
        palette_of(1).graph_gpu == (Color { r: 0xE1, g: 0x1D, b: 0x48, a: 255 }),
        palette_of(1).ok == (Color { r: 0x16, g: 0xA3, b: 0x4A, a: 255 }),
        palette_of(1).warn == (Color { r: 0xCA, g: 0x8A, b: 0x04, a: 255 }),
        palette_of(1).err == (Color { r: 0xDC, g: 0x26, b: 0x26, a: 255 }),
        forall|kind: u8| kind != 0 ==> #[trigger] palette_of(kind) == palette_of(1),
{
}

/// In both palettes the status colours keep their meaning: OK is green,
/// errors are red, and warnings are amber (red and green over blue).
pub proof fn law_status_colours(kind: u8)
    ensures
        palette_of(kind).ok.g > palette_of(kind).ok.r && palette_of(kind).ok.g > palette_of(kind).ok.b,
        palette_of(kind).err.r > palette_of(kind).err.g && palette_of(kind).err.r > palette_of(kind).err.b,
        palette_of(kind).warn.r > palette_of(kind).warn.b && palette_of(kind).warn.g > palette_of(kind).warn.b,
        palette_of(kind).ok != palette_of(kind).err,
{
}

/// The dark palette is the darker one: its background is darker than the
/// light palette's, and in each palette the text contrasts with the
/// background (light on dark, dark on light).
pub proof fn law_dark_is_darker()
    ensures
        palette_of(0).bg.r < palette_of(1).bg.r,
        palette_of(0).text.r > palette_of(0).bg.r,
        palette_of(1).text.r < palette_of(1).bg.r,
{
}

/// The style colours of the dark kind (0) and of the light one (every other
/// kind): the hovered, pressed and selection fills, and the palette colours
/// that panels, text and links take.
pub proof fn law_style_colours(kind: u8)
    ensures
        visual_colors_of(kind).panel_fill == palette_of(kind).bg,
        visual_colors_of(kind).window_fill == palette_of(kind).bg,
        visual_colors_of(kind).extreme_bg == palette_of(kind).panel_bg,
        visual_colors_of(kind).noninteractive_bg == palette_of(kind).sidebar_bg,
        visual_colors_of(kind).inactive_bg == palette_of(kind).panel_bg,
        visual_colors_of(kind).inactive_weak_bg == palette_of(kind).panel_bg,
        visual_colors_of(kind).selection_stroke == palette_of(kind).accent,
        visual_colors_of(kind).text_override == palette_of(kind).text,
        visual_colors_of(kind).hyperlink == palette_of(kind).accent,
        kind == 0 ==> visual_colors_of(kind).hovered_bg == (Color { r: 0x38, g: 0x38, b: 0x38, a: 255 })
            && visual_colors_of(kind).hovered_weak_bg == (Color { r: 0x38, g: 0x38, b: 0x38, a: 255 })
            && visual_colors_of(kind).active_bg == (Color { r: 0x44, g: 0x44, b: 0x44, a: 255 })
            && visual_colors_of(kind).active_weak_bg == (Color { r: 0x44, g: 0x44, b: 0x44, a: 255 })
            && visual_colors_of(kind).selection_bg == (Color { r: 0x60, g: 0xCD, b: 0xFF, a: 60 }),
        kind != 0 ==> visual_colors_of(kind).hovered_bg == (Color { r: 0xDD, g: 0xDD, b: 0xDD, a: 255 })
            && visual_colors_of(kind).hovered_weak_bg == (Color { r: 0xDD, g: 0xDD, b: 0xDD, a: 255 })
            && visual_colors_of(kind).active_bg == (Color { r: 0xCC, g: 0xCC, b: 0xCC, a: 255 })
            && visual_colors_of(kind).active_weak_bg == (Color { r: 0xCC, g: 0xCC, b: 0xCC, a: 255 })
            && visual_colors_of(kind).selection_bg == (Color { r: 0x00, g: 0x78, b: 0xD4, a: 50 }),
{
}

/// Following the system, the first resolution after start-up (no probe made
/// yet) probes the desktop at once, whatever the time, and returns its
/// answer: light only for a light desktop, dark otherwise.
pub proof fn law_first_probe_immediate(
    s0: ThemeState,
    s1: ThemeState,
    now_ns: u64,
    detected: Option<Theme>,
    r: u8,
)
    requires
        s0.choice_code() >= 2,
        s0.last_check_ns() is None,
        resolve_post(s0, s1, now_ns, detected, r),
    ensures
        needs_probe(s0, now_ns),
        detected == Some(Theme::Light) ==> r == 1,
        detected != Some(Theme::Light) ==> r == 0,
        s1.last_check_ns() == Some(now_ns),
        s1.cached_detected() == r,
{
}

/// The theme names are exactly `dark`, `light` and `system`, each naming
/// its own theme, and each theme is stored under its own name.
pub proof fn law_theme_names(key: Seq<char>)
    ensures
        theme_from_key(key) is Some <==> set!["dark"@, "light"@, "system"@].contains(key),
        key == "dark"@ ==> theme_from_key(key) == Some(Theme::Dark),
        key == "light"@ ==> theme_from_key(key) == Some(Theme::Light),
        key == "system"@ ==> theme_from_key(key) == Some(Theme::System),
        theme_name(Theme::Dark) == "dark"@,
        theme_name(Theme::Light) == "light"@,
        theme_name(Theme::System) == "system"@,
{
    reveal_strlit("dark");
    reveal_strlit("light");
    reveal_strlit("system");
    assert("dark"@.len() == 4 && "light"@.len() == 5 && "system"@.len() == 6);
}

/// After the user picks a theme, the palette resolved next is dark for
/// Dark and light for Light, whatever the desktop prefers; for System it
/// follows a due probe's answer.
pub proof fn law_choice_decides_palette(
    s0: ThemeState,
    s1: ThemeState,
    theme: Theme,
    s2: ThemeState,
    now_ns: u64,
    detected: Option<Theme>,
    r: u8,
)
    requires
        set_theme_post(s0, s1, theme),
        resolve_post(s1, s2, now_ns, detected, r),
    ensures
        theme == Theme::Dark ==> r == 0,
        theme == Theme::Light ==> r == 1,
        theme == Theme::System && needs_probe(s1, now_ns) ==> (r == 1 <==> detected == Some(Theme::Light)),
        theme == Theme::System && needs_probe(s1, now_ns) ==> r <= 1,
{
}

/// A portal reply whose first `uint32 ` line carries the number `n` means
/// prefer-dark for 1 and prefer-light for any other number, whatever lines
/// come before (none of which is such a line) or after.
pub proof fn law_portal_number(pre: Seq<Seq<char>>, n: nat, rest: Seq<Seq<char>>)
    requires
        n <= u32::MAX,
        forall|k: int| 0 <= k < pre.len() ==> strip_prefix(trim(#[trigger] pre[k]), "uint32 "@) is None,
    ensures
        portal_answer(pre + seq!["uint32 "@ + decimal(n)] + rest) == Some(
            if n == 1 {
                Theme::Dark
            } else {
                Theme::Light
            },
        ),
    decreases pre.len(),
{
    let lines = pre + seq!["uint32 "@ + decimal(n)] + rest;
    if pre.len() > 0 {
        assert(lines.drop_first() == pre.drop_first() + seq!["uint32 "@ + decimal(n)] + rest);
        assert(lines[0] == pre[0]);
        law_portal_number(pre.drop_first(), n, rest);
    } else {
        reveal_strlit("uint32 ");
        let d = decimal(n);
        let line = "uint32 "@ + d;
        assert(lines[0] == line);
        lemma_decimal_roundtrip(n, u32::MAX as nat);
        lemma_trim_ends(d);
        assert(line[0] == 'u');
        assert(line.last() == d.last());
        lemma_trim_unchanged(line);
        assert(line.take(7) == "uint32 "@);
        assert(line.skip(7) == d);
    }
}

/// A gsettings reply that mentions `prefer-dark` anywhere means dark; one
/// that does not means light.
pub proof fn law_gsettings_prefer_dark(before: Seq<char>, after: Seq<char>, other: Seq<char>)
    requires
        !contains_seq(other, "prefer-dark"@),
    ensures
        gsettings_answer(before + "prefer-dark"@ + after) == Theme::Dark,
        gsettings_answer(other) == Theme::Light,
{
    let t = before + "prefer-dark"@ + after;
    let i = before.len() as int;
    assert(t.subrange(i, i + "prefer-dark"@.len()) == "prefer-dark"@);
}

/// Dropping the emoji fonts (exactly `NotoEmoji-Regular` and
/// `emoji-icon-font`) leaves every other font of the family and no emoji
/// font, and adds none.
pub proof fn law_emoji_fonts_dropped(names: Seq<Seq<char>>, name: Seq<char>)
    ensures
        is_emoji_font(name) <==> (name == "NotoEmoji-Regular"@ || name == "emoji-icon-font"@),
        without_emoji(names).contains(name) <==> names.contains(name) && !is_emoji_font(name),
    decreases names.len(),
{
    if names.len() > 0 {
        law_emoji_fonts_dropped(names.drop_last(), name);
        assert(names == names.drop_last().push(names.last()));
        if names.contains(name) && name != names.last() {
            let k = choose|k: int| 0 <= k < names.len() && names[k] == name;
            assert(names.drop_last()[k] == name);
        }
        if names.drop_last().contains(name) {
            let k = choose|k: int| 0 <= k < names.drop_last().len() && names.drop_last()[k] == name;
            assert(names[k] == name);
        }
        let w = without_emoji(names.drop_last());
        if !is_emoji_font(names.last()) {
            assert(without_emoji(names) == w.push(names.last()));
            if w.push(names.last()).contains(name) && name != names.last() {
                let k = choose|k: int| 0 <= k < w.push(names.last()).len() && w.push(names.last())[k] == name;
                assert(w[k] == name);
            }
            if w.contains(name) {
                let k = choose|k: int| 0 <= k < w.len() && w[k] == name;
                assert(w.push(names.last())[k] == name);
            }
            if name == names.last() {
                assert(w.push(names.last())[w.len() as int] == name);
            }
        }
    }
}

/// An explicit Dark or Light choice never probes the desktop preference.
pub proof fn law_explicit_choice_never_probes(state: ThemeState, now_ns: u64)
    requires
        state.choice_code() <= 1,
    ensures
        !needs_probe(state, now_ns),
{
}

/// Within 10 s after a probe, the desktop preference is not probed again.
pub proof fn law_probe_throttled(state: ThemeState, probe_ns: u64, now_ns: u64)
    requires
        state.last_check_ns() == Some(probe_ns),
        probe_ns <= now_ns,
        now_ns - probe_ns < 10_000_000_000,
    ensures
        !needs_probe(state, now_ns),
{
}

/// After the choice changes, the palette resolved next is rebuilt, whichever
/// it is.
pub proof fn law_new_choice_forces_reapply(
    s0: ThemeState,
    s1: ThemeState,
    theme: Theme,
    s2: ThemeState,
    now_ns: u64,
    detected: Option<Theme>,
    r: u8,
)
    requires
        set_theme_post(s0, s1, theme),
        resolve_post(s1, s2, now_ns, detected, r),
        r <= 1,
    ensures
        rebuilds(s2, r),
{
}

/// Once 10 s have passed since the last probe, following the system
/// probes the desktop preference again.
pub proof fn law_probe_resumes(state: ThemeState, probe_ns: u64, now_ns: u64)
    requires
        state.choice_code() >= 2,
        state.last_check_ns() == Some(probe_ns),
        probe_ns <= now_ns,
        now_ns - probe_ns >= 10_000_000_000,
    ensures
        needs_probe(state, now_ns),
{
}

/// From one frame to the next (resolve, apply, resolve again) the style is
/// rebuilt only when the palette resolved differs from the one applied, and
/// that happens only when following the system and a fresh probe of the
/// desktop preference found the other one.
pub proof fn law_same_palette_not_reapplied(
    s0: ThemeState,
    s1: ThemeState,
    t1: u64,
    d1: Option<Theme>,
    k: u8,
    s2: ThemeState,
    s3: ThemeState,
    t2: u64,
    d2: Option<Theme>,
    r: u8,
)
    requires
        resolve_post(s0, s1, t1, d1, k),
        mark_applied_post(s1, s2, k),
        resolve_post(s2, s3, t2, d2, r),
    ensures
        rebuilds(s3, r) <==> r != k,
        rebuilds(s3, r) ==> s0.choice_code() >= 2 && needs_probe(s2, t2),
{
}

} // verus!
