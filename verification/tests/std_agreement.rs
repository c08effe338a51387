//! The parsers agree with the same computation written with `str` methods
//! and `from_str_radix`, on inputs chosen to reach their corners.
use rproc::i18n::Lang;
use rproc::monitor::gpu::{drm_card_index, parse_first_cpu, parse_pmu_event_config, parse_sysfs_u64};
use rproc::theme::Theme;

const SAMPLES: &[&str] = &[
    "",
    " ",
    "0",
    "7",
    "+7",
    "-7",
    "+",
    "++1",
    "007",
    "18446744073709551615",
    "18446744073709551616",
    "4294967295",
    "4294967296",
    "12a",
    "\u{a0}5\u{2003}",
    "\u{3000}42\u{85}",
    "\u{200b}1",
    "\u{663}",
    "config=0x100003",
    "config=0x0",
    "event=0x12,config=0xabcd,umask=0x1",
    "event=0x12",
    " config = 0x1f ",
    "config=ff",
    "config=FF",
    "config=0XFF",
    "config=0x",
    "config=0x+1",
    "config=0xffffffffffffffff",
    "config=0x10000000000000000",
    "umask,config=0x1",
    "config=0x1=2",
    "CONFIG=0x1",
    "\u{2028}config=0x5\u{2029}",
    "config=0x1,,",
    ",config=0x1",
    "0-3",
    "2-5",
    "4,8,12",
    " 3 - 5",
    "-3",
    ",4",
    "9\u{a0}-1",
    "card1",
    "card01",
    "card+1",
    "card",
    "card-1",
    "cards",
    "dark",
    " DARK ",
    "Light\n",
    "SYSTEM",
    "sys tem",
    "en",
    "English",
    "FRANÇAIS",
    "Français",
    "francais",
    "French\t",
    "fr_FR",
];

fn std_event_config(s: &str) -> Option<u64> {
    for pair in s.trim().split(',') {
        let (k, v) = pair.split_once('=')?;
        if k.trim() == "config" {
            let v = v.trim();
            let v = v.strip_prefix("0x").unwrap_or(v);
            return u64::from_str_radix(v, 16).ok();
        }
    }
    None
}

fn std_first_cpu(s: &str) -> Option<u32> {
    s.trim().split(&['-', ','][..]).next()?.trim().parse().ok()
}

fn std_card_index(name: &str) -> Option<usize> {
    name.strip_prefix("card")?.parse().ok()
}

fn std_theme(s: &str) -> Option<Theme> {
    match s.trim().to_lowercase().as_str() {
        "dark" => Some(Theme::Dark),
        "light" => Some(Theme::Light),
        "system" => Some(Theme::System),
        _ => None,
    }
}

fn std_lang(s: &str) -> Option<Lang> {
    match s.trim().to_lowercase().as_str() {
        "en" | "english" => Some(Lang::En),
        "fr" | "french" | "français" | "francais" => Some(Lang::Fr),
        _ => None,
    }
}

#[test]
fn event_config_agrees_with_std() {
    for s in SAMPLES {
        assert_eq!(parse_pmu_event_config(s), std_event_config(s), "input {s:?}");
    }
}

#[test]
fn first_cpu_agrees_with_std() {
    for s in SAMPLES {
        assert_eq!(parse_first_cpu(s), std_first_cpu(s), "input {s:?}");
    }
}

#[test]
fn sysfs_numbers_agree_with_std() {
    for s in SAMPLES {
        assert_eq!(parse_sysfs_u64(s), s.trim().parse::<u64>().ok(), "input {s:?}");
    }
}

#[test]
fn card_index_agrees_with_std() {
    for s in SAMPLES {
        assert_eq!(drm_card_index(s), std_card_index(s), "input {s:?}");
    }
}

#[test]
fn names_agree_with_std() {
    for s in SAMPLES {
        assert_eq!(Theme::from_str(s), std_theme(s), "input {s:?}");
        assert_eq!(Lang::from_str(s), std_lang(s), "input {s:?}");
    }
}
