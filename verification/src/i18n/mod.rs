//! Internationalisation: the interface language, its selection from the
//! user's setting or the system locale, and the message bundle of each
//! language.
//!
//! The `Messages` struct is a flat bag of `&'static str` — no allocations,
//! no hashing.
//!
//! The language in effect lives in a `LangState` that the application
//! keeps; `init`, `set_lang`, `current` and `m` act on it.
use vstd::prelude::*;

use crate::text::{
    ascii_lowercase, equals_str, index_of, lemma_index_of_bounds, lemma_lowercase_trimmed,
    lemma_split_first, lemma_split_len, lowercase, split, split_chars, to_chars,
    to_lowercase_chars, trim, trim_chars,
};

pub mod en;
pub mod fr;

verus! {

broadcast use vstd::string::group_string_axioms;

// ---------------------------------------------------------------------------
// Language enum
// ---------------------------------------------------------------------------

#[derive(Copy, Clone, PartialEq, Eq, Debug, Structural)]
pub enum Lang {
    En,
    Fr,
}

/// The code of a language.
pub open spec fn lang_name(l: Lang) -> Seq<char> {
    match l {
        Lang::En => "en"@,
        Lang::Fr => "fr"@,
    }
}

/// The language a (trimmed, lowercased) name stands for.
pub open spec fn lang_from_key(key: Seq<char>) -> Option<Lang> {
    if key == "en"@ || key == "english"@ {
        Some(Lang::En)
    } else if key == "fr"@ || key == "french"@ || key == "français"@ || key == "francais"@ {
        Some(Lang::Fr)
    } else {
        None
    }
}

/// The code under which the language in effect is kept (0 = en, 1 = fr).
pub open spec fn lang_code(l: Lang) -> u8 {
    match l {
        Lang::En => 0,
        Lang::Fr => 1,
    }
}

/// The language a kept code stands for; every code but 0 means French.
pub open spec fn lang_of_code(code: u8) -> Lang {
    if code == 0 {
        Lang::En
    } else {
        Lang::Fr
    }
}

impl Lang {
    pub fn as_str(self) -> (r: &'static str)
        ensures
            r@ == lang_name(self),
    {
        match self {
            Lang::En => "en",
            Lang::Fr => "fr",
        }
    }

    /// The language named by `s`, ignoring surrounding whitespace and case.
    pub fn from_str(s: &str) -> (r: Option<Lang>)
        ensures
            r == lang_from_key(lowercase(trim(s@))),
            vstd::utf8::is_ascii_chars(trim(s@)) ==> r == lang_from_key(ascii_lowercase(trim(s@))),
    {
        let chars = to_chars(s);
        let t = trim_chars(chars.as_slice());
        let key = to_lowercase_chars(t.as_slice());
        Lang::from_key_chars(key.as_slice())
    }

    /// The language whose name is exactly `key`.
    pub fn from_key(key: &str) -> (r: Option<Lang>)
        ensures
            r == lang_from_key(key@),
    {
        let k = to_chars(key);
        Lang::from_key_chars(k.as_slice())
    }

    fn from_key_chars(key: &[char]) -> (r: Option<Lang>)
        ensures
            r == lang_from_key(key@),
    {
        if equals_str(key, "en") || equals_str(key, "english") {
            Some(Lang::En)
        } else if equals_str(key, "fr") || equals_str(key, "french") || equals_str(key, "français")
            || equals_str(key, "francais") {
            Some(Lang::Fr)
        } else {
            None
        }
    }

    /// The code under which the language is kept.
    pub fn code(self) -> (r: u8)
        ensures
            r == lang_code(self),
    {
        match self {
            Lang::En => 0,
            Lang::Fr => 1,
        }
    }
}

// ---------------------------------------------------------------------------
// Language in effect
// ---------------------------------------------------------------------------

/// The language in effect, kept as its code.
pub struct LangState {
    code: u8,
}

impl LangState {
    pub closed spec fn code(&self) -> u8 {
        self.code
    }

    /// English in effect.
    pub fn new() -> (r: LangState)
        ensures
            r.code() == 0,
    {
        LangState { code: 0 }
    }
}

/// Put `lang` in effect at start-up.
pub fn init(state: &mut LangState, lang: Lang)
    ensures
        final(state).code() == lang_code(lang),
{
    state.code = lang.code();
}

/// Put `lang` in effect.
pub fn set_lang(state: &mut LangState, lang: Lang)
    ensures
        final(state).code() == lang_code(lang),
{
    state.code = lang.code();
}

/// The language in effect.
pub fn current(state: &LangState) -> (r: Lang)
    ensures
        r == lang_of_code(state.code()),
{
    match state.code {
        0 => Lang::En,
        _ => Lang::Fr,
    }
}

// ---------------------------------------------------------------------------
// System locale
// ---------------------------------------------------------------------------

/// The language part of a locale value such as `fr_FR.UTF-8`: its part
/// before the first `.`, then before the first `_`.
pub open spec fn locale_part(value: Seq<char>) -> Seq<char> {
    split(split(value, '.')[0], '_')[0]
}

/// The language of a locale value: its language part, trimmed and
/// lowercased, read as a language name.
pub open spec fn locale_lang(value: Seq<char>) -> Option<Lang> {
    lang_from_key(lowercase(trim(locale_part(value))))
}

/// The language of a locale value whose trimmed language part is ASCII.
pub open spec fn locale_lang_ascii(value: Seq<char>) -> Option<Lang> {
    lang_from_key(ascii_lowercase(trim(locale_part(value))))
}

/// Whether the trimmed language part of a locale value is ASCII.
pub open spec fn ascii_locale(value: Seq<char>) -> bool {
    vstd::utf8::is_ascii_chars(trim(locale_part(value)))
}

/// The language named by a locale value, if any.
pub fn lang_from_locale(value: &str) -> (r: Option<Lang>)
    ensures
        r == locale_lang(value@),
        ascii_locale(value@) ==> r == locale_lang_ascii(value@),
{
    let chars = to_chars(value);
    let by_dot = split_chars(chars.as_slice(), '.');
    proof {
        lemma_split_len(value@, '.');
    }
    let code = &by_dot[0];
    let by_underscore = split_chars(code.as_slice(), '_');
    proof {
        lemma_split_len(code@, '_');
    }
    let lang = &by_underscore[0];
    let t = trim_chars(lang.as_slice());
    let key = to_lowercase_chars(t.as_slice());
    Lang::from_key_chars(key.as_slice())
}

/// The language of the first locale variable, in order, that is set and
/// names a language; English when none does.
pub open spec fn system_lang(values: Seq<Option<String>>) -> Lang
    decreases values.len(),
{
    if values.len() == 0 {
        Lang::En
    } else {
        match values[0] {
            Some(v) => match locale_lang(v@) {
                Some(l) => l,
                None => system_lang(values.drop_first()),
            },
            None => system_lang(values.drop_first()),
        }
    }
}

/// `system_lang` for values whose language parts are ASCII.
pub open spec fn system_lang_ascii(values: Seq<Option<String>>) -> Lang
    decreases values.len(),
{
    if values.len() == 0 {
        Lang::En
    } else {
        match values[0] {
            Some(v) => match locale_lang_ascii(v@) {
                Some(l) => l,
                None => system_lang_ascii(values.drop_first()),
            },
            None => system_lang_ascii(values.drop_first()),
        }
    }
}

/// Every value that is set has an ASCII language part.
pub open spec fn all_ascii_locales(values: Seq<Option<String>>) -> bool {
    forall|i: int| 0 <= i < values.len() && (#[trigger] values[i]) is Some ==> ascii_locale(values[i]->0@)
}

/// Pick the language from the values of `$LANG`, `$LC_ALL` and
/// `$LC_MESSAGES` (in that order; `None` for a variable that is not set).
/// Returns `Lang::En` if nothing matches.
pub fn detect_system_lang(values: &[Option<String>]) -> (r: Lang)
    ensures
        r == system_lang(values@),
        all_ascii_locales(values@) ==> r == system_lang_ascii(values@),
{
    let mut i: usize = 0;
    assert(values@.skip(0) == values@);
    while i < values.len()
        invariant
            i <= values@.len(),
            system_lang(values@.skip(i as int)) == system_lang(values@),
            all_ascii_locales(values@) ==> system_lang_ascii(values@.skip(i as int)) == system_lang_ascii(values@),
        decreases values@.len() - i,
    {
        assert(values@.skip(i as int)[0] == values@[i as int]);
        assert(values@.skip(i as int).drop_first() == values@.skip(i + 1));
        match &values[i] {
            Some(v) => {
                if let Some(l) = lang_from_locale(v.as_str()) {
                    return l;
                }
            },
            None => {},
        }
        i += 1;
    }
    Lang::En
}

/// English is named `en` or `english`, French `fr`, `french`, `français`
/// or `francais`; no other name stands for a language. Each language is
/// kept under its two-letter code.
pub proof fn law_language_names(key: Seq<char>)
    ensures
        lang_from_key(key) == Some(Lang::En) <==> set!["en"@, "english"@].contains(key),
        lang_from_key(key) == Some(Lang::Fr) <==> set!["fr"@, "french"@, "français"@, "francais"@].contains(key),
        lang_from_key(key) is None <==> !set!["en"@, "english"@, "fr"@, "french"@, "français"@, "francais"@].contains(key),
        lang_name(Lang::En) == "en"@,
        lang_name(Lang::Fr) == "fr"@,
{
    reveal_strlit("en");
    reveal_strlit("english");
    reveal_strlit("fr");
    reveal_strlit("french");
    reveal_strlit("français");
    reveal_strlit("francais");
    assert("en"@.len() == 2 && "fr"@.len() == 2 && "en"@[0] == 'e' && "fr"@[0] == 'f');
    assert("english"@.len() == 7 && "french"@.len() == 6);
    assert("français"@.len() == 8 && "francais"@.len() == 8);
}

/// The language of a locale value is read from its language code alone:
/// what follows the code (a territory after `_`, an encoding or modifier
/// after `.`) does not matter, provided the code holds neither character.
pub proof fn law_locale_code_decides(code: Seq<char>, tail: Seq<char>)
    requires
        forall|k: int| 0 <= k < code.len() ==> code[k] != '.' && code[k] != '_',
        tail.len() == 0 || tail[0] == '.' || tail[0] == '_',
    ensures
        locale_part(code + tail) == code,
        locale_lang(code + tail) == lang_from_key(lowercase(trim(code))),
        vstd::utf8::is_ascii_chars(trim(code)) ==> locale_lang_ascii(code + tail) == lang_from_key(
            ascii_lowercase(trim(code)),
        ),
{
    let s = code + tail;
    let n = code.len() as int;
    lemma_index_of_bounds(s, '.');
    let j: int = match index_of(s, '.') {
        Some(k) => k,
        None => s.len() as int,
    };
    lemma_split_first(s, '.', j);
    let p1 = s.take(j);
    assert(j >= n) by {
        if j < n {
            assert(s[j] == code[j]);
        }
    }
    assert(p1.take(n) == code);
    if j == n {
        assert(p1 == code);
        lemma_split_first(code, '_', n);
        assert(code.take(n) == code);
    } else {
        assert(s[n] == tail[0]);
        assert(p1[n] == '_');
        assert forall|k: int| 0 <= k < n implies p1[k] != '_' by {
            assert(p1[k] == code[k]);
        }
        lemma_split_first(p1, '_', n);
    }
}

/// Surrounding whitespace and case do not matter to the language a name
/// stands for: on a text whose trimmed part is ASCII, parsing it gives what
/// parsing its trimmed, lowercased form gives.
pub proof fn law_from_str_normalises(s: Seq<char>)
    requires
        vstd::utf8::is_ascii_chars(trim(s)),
    ensures
        vstd::utf8::is_ascii_chars(trim(ascii_lowercase(trim(s)))),
        lang_from_key(ascii_lowercase(trim(ascii_lowercase(trim(s))))) == lang_from_key(
            ascii_lowercase(trim(s)),
        ),
{
    lemma_lowercase_trimmed(s);
}

// ---------------------------------------------------------------------------
// Message bundles
// ---------------------------------------------------------------------------

/// The bundle of a language.
pub open spec fn bundle_of(lang: Lang) -> Messages {
    match lang {
        Lang::En => en::bundle(),
        Lang::Fr => fr::bundle(),
    }
}

/// The message bundle of a language.
pub fn messages(lang: Lang) -> (r: Messages)
    ensures
        r == bundle_of(lang),
{
    match lang {
        Lang::En => en::msg(),
        Lang::Fr => fr::msg(),
    }
}

/// The message bundle of the language in effect. Call this wherever a
/// localised text is shown.
pub fn m(state: &LangState) -> (r: Messages)
    ensures
        r == bundle_of(lang_of_code(state.code())),
{
    messages(current(state))
}

// ---------------------------------------------------------------------------
// Laws
// ---------------------------------------------------------------------------

/// The language put in effect is the one in effect.
pub proof fn law_code_roundtrip(l: Lang)
    ensures
        lang_of_code(lang_code(l)) == l,
{
}

/// A language's code parses back to the same language.
pub proof fn law_name_roundtrip(l: Lang)
    ensures
        vstd::utf8::is_ascii_chars(trim(lang_name(l))),
        lang_from_key(ascii_lowercase(trim(lang_name(l)))) == Some(l),
{
    reveal_strlit("en");
    reveal_strlit("fr");
    reveal_strlit("english");
    let n = lang_name(l);
    assert(crate::text::trim_start(n) == n);
    assert(crate::text::trim_end(n) == n);
    assert(ascii_lowercase(n) =~= n);
}

// ---------------------------------------------------------------------------
// Message bundle — one field per localised string.
// Field names mirror the English text where possible.
// ---------------------------------------------------------------------------

/// The message bundle: one field per localised string. Field names
/// mirror the English text where possible.
#[derive(Copy, Clone, Debug)]
pub struct Messages {
    // -- Sidebar ------------------------------------------------------------
    pub tab_processes: &'static str,
    pub tab_performance: &'static str,
    pub tab_startup: &'static str,
    pub tab_services: &'static str,
    pub tab_settings: &'static str,

    // -- Processes tab ------------------------------------------------------
    pub proc_heading: &'static str,
    pub proc_end_task: &'static str,
    pub proc_force_kill: &'static str,
    pub proc_end_task_n: &'static str,   // "End task ({n})"
    pub proc_force_kill_n: &'static str, // "Force kill ({n})"
    pub proc_filter_hint: &'static str,
    pub proc_view_tree: &'static str,
    pub proc_view_grouped: &'static str,
    pub proc_col_name: &'static str,
    pub proc_col_pid: &'static str,
    pub proc_col_user: &'static str,
    pub proc_col_cpu: &'static str,      // "CPU  {:.0}%"
    pub proc_col_mem: &'static str,      // "Memory  {:.0}%"
    pub proc_col_disk: &'static str,
    pub proc_col_status: &'static str,
    pub proc_section_apps: &'static str,
    pub proc_section_bg: &'static str,
    pub proc_count: &'static str,        // "{total} processes"
    pub proc_sampling: &'static str,     // "sampling…"

    // Process context menu
    pub ctx_end_task: &'static str,
    pub ctx_force_kill: &'static str,
    pub ctx_suspend: &'static str,
    pub ctx_resume: &'static str,
    pub ctx_open_location: &'static str,
    pub ctx_search_online: &'static str,
    pub ctx_copy_pid: &'static str,
    pub ctx_copy_name: &'static str,
    pub ctx_copy_cmd: &'static str,
    pub ctx_properties: &'static str,
    pub ctx_end_all: &'static str,        // "End all ({n})"
    pub ctx_force_kill_all: &'static str, // "Force kill all ({n})"
    pub ctx_suspend_all: &'static str,
    pub ctx_resume_all: &'static str,
    pub ctx_copy_all_pids: &'static str,
    pub ctx_properties_main: &'static str, // "Properties (main process)"

    // Properties window
    pub prop_title: &'static str,         // "Properties: {name}"
    pub prop_reload: &'static str,
    pub prop_pid: &'static str,
    pub prop_parent_pid: &'static str,
    pub prop_user: &'static str,
    pub prop_status: &'static str,
    pub prop_cpu: &'static str,
    pub prop_mem_rss: &'static str,
    pub prop_virt_mem: &'static str,
    pub prop_threads: &'static str,
    pub prop_fds: &'static str,
    pub prop_running_for: &'static str,
    pub prop_executable: &'static str,
    pub prop_working_dir: &'static str,
    pub prop_config: &'static str,
    pub prop_cmdline: &'static str,
    pub prop_dash: &'static str,          // "—" placeholder

    // Process status labels
    pub status_running: &'static str,
    pub status_idle: &'static str,
    pub status_waiting: &'static str,
    pub status_stopped: &'static str,
    pub status_zombie: &'static str,

    // -- Performance tab ----------------------------------------------------
    pub perf_cpu: &'static str,
    pub perf_memory: &'static str,
    pub perf_gpu: &'static str,           // "GPU {i} ({vendor})"
    pub perf_disk: &'static str,          // "Disk {name}"
    pub perf_show_details: &'static str,
    pub perf_hide_details: &'static str,
    pub perf_cpu_total_plot: &'static str,
    pub perf_current: &'static str,
    pub perf_uptime: &'static str,
    pub perf_per_core: &'static str,
    pub perf_core: &'static str,          // "Core {n}"
    pub perf_ram_plot: &'static str,
    pub perf_used: &'static str,
    pub perf_available: &'static str,
    pub perf_swap_total: &'static str,
    pub perf_swap_used: &'static str,
    pub perf_swap_plot: &'static str,
    pub perf_disk_plot: &'static str,
    pub perf_read: &'static str,
    pub perf_write: &'static str,
    pub perf_total: &'static str,
    pub perf_used_space: &'static str,
    pub perf_mount: &'static str,
    pub perf_net_plot: &'static str,
    pub perf_receive: &'static str,
    pub perf_send: &'static str,
    pub perf_total_recv: &'static str,
    pub perf_total_sent: &'static str,
    pub perf_gpu_plot: &'static str,
    pub perf_gpu_util: &'static str,
    pub perf_gpu_vram: &'static str,
    pub perf_gpu_temp: &'static str,
    pub perf_gpu_power: &'static str,
    pub perf_gpu_core_clock: &'static str,
    pub perf_gpu_mem_clock: &'static str,
    pub perf_gpu_unavailable: &'static str,
    pub perf_no_disk: &'static str,
    pub perf_no_iface: &'static str,
    pub perf_no_gpu: &'static str,

    // Interface kind labels
    pub iface_wifi: &'static str,
    pub iface_mobile: &'static str,
    pub iface_usb: &'static str,
    pub iface_ethernet: &'static str,
    pub iface_network: &'static str,

    // -- Startup tab --------------------------------------------------------
    pub startup_heading: &'static str,
    pub startup_filter_hint: &'static str,
    pub startup_desc: &'static str,
    pub startup_min_boot: &'static str,
    pub startup_section_normal: &'static str,
    pub startup_section_protected: &'static str,
    pub startup_protected_desc: &'static str,
    pub startup_enabled: &'static str,
    pub startup_disabled: &'static str,
    pub startup_protected_label: &'static str,
    pub startup_boot_presets: &'static [(&'static str, &'static str)], // [(label, value_display)]

    // -- Services tab -------------------------------------------------------
    pub svc_heading: &'static str,
    pub svc_filter_hint: &'static str,
    pub svc_running_only: &'static str,
    pub svc_desc: &'static str,
    pub svc_col_unit: &'static str,
    pub svc_col_scope: &'static str,
    pub svc_col_active: &'static str,
    pub svc_col_sub: &'static str,
    pub svc_col_desc: &'static str,
    pub svc_col_actions: &'static str,
    pub svc_start: &'static str,
    pub svc_stop: &'static str,
    pub svc_restart: &'static str,
    pub svc_scope_system: &'static str,
    pub svc_scope_user: &'static str,
    pub svc_units_shown: &'static str,    // "{n} units shown"
    pub svc_reload: &'static str,
    pub svc_ctx_copy_unit: &'static str,
    pub svc_ctx_properties: &'static str,
    pub svc_prop_title: &'static str,
    pub svc_prop_unit: &'static str,
    pub svc_prop_scope: &'static str,
    pub svc_prop_desc: &'static str,
    pub svc_prop_load: &'static str,
    pub svc_prop_active: &'static str,
    pub svc_prop_sub: &'static str,
    pub svc_prop_unit_file_state: &'static str,
    pub svc_prop_main_pid: &'static str,
    pub svc_prop_user: &'static str,
    pub svc_prop_mem: &'static str,
    pub svc_prop_tasks: &'static str,
    pub svc_prop_unit_file: &'static str,
    pub svc_prop_dropins: &'static str,
    pub svc_prop_workdir: &'static str,
    pub svc_prop_execstart: &'static str,

    // -- Settings tab -------------------------------------------------------
    pub set_heading: &'static str,
    pub set_desc: &'static str,
    pub set_refresh_title: &'static str,
    pub set_refresh_desc: &'static str,
    pub set_custom: &'static str,
    pub set_currently: &'static str,      // "Currently sampling every {}"
    pub set_bg_title: &'static str,
    pub set_bg_desc: &'static str,
    pub set_bg_checkbox: &'static str,
    pub set_bg_running: &'static str,
    pub set_bg_off: &'static str,
    pub set_notif_title: &'static str,
    pub set_notif_desc: &'static str,
    pub set_notif_cpu: &'static str,
    pub set_notif_ram: &'static str,
    pub set_notif_cooldown: &'static str,
    pub set_appearance_title: &'static str,
    pub set_appearance_desc: &'static str,
    pub set_theme_system: &'static str,
    pub set_theme_dark: &'static str,
    pub set_theme_light: &'static str,
    pub set_about_title: &'static str,
    pub set_version: &'static str,
    pub set_build: &'static str,
    pub set_build_debug: &'static str,
    pub set_build_release: &'static str,

    // -- Notifications ------------------------------------------------------
    pub notif_cpu_body: &'static str,     // "CPU usage at {:.0}% (threshold: {}%)"
    pub notif_ram_body: &'static str,

    // -- Misc ---------------------------------------------------------------
    pub open_in_fm: &'static str,         // "Open in file manager"
    pub gpu_unavailable_detail_intel: &'static str,
    pub gpu_unavailable_detail_other: &'static str,
    pub gpu_unavailable_fix_label: &'static str,
    pub gpu_unavailable_fix_cap: &'static str,
    pub gpu_unavailable_fix_sysctl: &'static str,
    pub perf_partitions: &'static str,
    pub perf_partition: &'static str,

    // -- Startup scope badges -----------------------------------------------
    pub scope_user_autostart: &'static str,
    pub scope_system_autostart: &'static str,
    pub scope_systemd_system: &'static str,
    pub scope_systemd_user: &'static str,

    // -- Startup context menu -----------------------------------------------
    pub startup_ctx_copy_name: &'static str,
    pub startup_ctx_open_desktop: &'static str,
    pub startup_ctx_properties: &'static str,

    // -- Startup properties -------------------------------------------------
    pub startup_prop_title: &'static str,
    pub startup_prop_name: &'static str,
    pub startup_prop_source: &'static str,
    pub startup_prop_description: &'static str,
    pub startup_prop_boot_time: &'static str,
    pub startup_prop_state: &'static str,
    pub startup_prop_state_protected: &'static str,
    pub startup_prop_state_enabled: &'static str,
    pub startup_prop_state_disabled: &'static str,
    pub startup_prop_desktop_file: &'static str,
    pub startup_prop_exec: &'static str,
    pub startup_prop_icon: &'static str,
}


} // verus!
