use rproc::i18n::{
    current, detect_system_lang, init, lang_from_locale, m, messages, set_lang, Lang, LangState,
};

#[test]
fn language_names() {
    assert_eq!(Lang::from_str("  Français "), Some(Lang::Fr));
    assert_eq!(Lang::from_str("FRANCAIS"), Some(Lang::Fr));
    assert_eq!(Lang::from_str("English\n"), Some(Lang::En));
    assert_eq!(Lang::from_str("de"), None);
    assert_eq!(Lang::from_key("EN"), None);
    for l in [Lang::En, Lang::Fr] {
        assert_eq!(Lang::from_str(l.as_str()), Some(l));
    }
}

#[test]
fn language_in_effect() {
    let mut st = LangState::new();
    assert_eq!(current(&st), Lang::En);
    init(&mut st, Lang::Fr);
    assert_eq!(current(&st), Lang::Fr);
    set_lang(&mut st, Lang::En);
    assert_eq!(current(&st), Lang::En);
    set_lang(&mut st, Lang::Fr);
    assert_eq!(m(&st).tab_settings, "Paramètres");
    assert_eq!(messages(Lang::En).set_theme_dark, "Dark");
    assert_eq!(messages(Lang::Fr).set_theme_dark, "Sombre");
}

#[test]
fn locale_values() {
    assert_eq!(lang_from_locale("fr_FR.UTF-8"), Some(Lang::Fr));
    assert_eq!(lang_from_locale("en_US"), Some(Lang::En));
    assert_eq!(lang_from_locale("C.UTF-8"), None);
    assert_eq!(lang_from_locale(""), None);
}

#[test]
fn system_language_from_variables() {
    let vals = vec![None, Some("C.UTF-8".to_string()), Some("fr_CA.UTF-8".to_string())];
    assert_eq!(detect_system_lang(&vals), Lang::Fr);
    assert_eq!(detect_system_lang(&[None, None, None]), Lang::En);
    let vals = vec![Some("en_GB.UTF-8".to_string()), Some("fr_FR".to_string())];
    assert_eq!(detect_system_lang(&vals), Lang::En);
}

#[test]
fn language_names_parse_regardless_of_space_and_case() {
    for s in [" EN\n", "Fr", "\tEnglish ", "de", ""] {
        let normal = s.trim().to_lowercase();
        assert_eq!(Lang::from_str(s), Lang::from_str(&normal));
    }
}
