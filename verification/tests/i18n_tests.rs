use steam_engineering_toolbox::i18n::{
    normalize_lang, normalize_locale_string, resolve_language, Language, Translator,
};
use steam_engineering_toolbox::keys;
use steam_engineering_toolbox::pack::{built_in_pack, en, ko};

#[test]
fn language_from_code_prefers_en_prefix() {
    assert_eq!(Language::from_code("en"), Language::En);
    assert_eq!(Language::from_code("EN-US"), Language::En);
    assert_eq!(Language::from_code("english"), Language::En);
    assert_eq!(Language::from_code("ko"), Language::Ko);
    assert_eq!(Language::from_code("de-de"), Language::Ko);
    assert_eq!(Language::from_code(""), Language::Ko);
}

#[test]
fn language_codes_round_trip() {
    assert_eq!(Language::Ko.as_code(), "ko");
    assert_eq!(Language::En.as_code(), "en");
    assert_eq!(Language::from_code(Language::En.as_code()), Language::En);
    assert_eq!(Language::from_code(Language::Ko.as_code()), Language::Ko);
}

#[test]
fn translator_serves_korean_base_strings() {
    let tr = Translator::new("ko");
    assert_eq!(tr.language(), Language::Ko);
    assert_eq!(tr.language_code(), "ko");
    assert_eq!(tr.t(keys::ERROR_PREFIX), "오류");
    assert_eq!(tr.t(keys::MAIN_MENU_EXIT), "0) 종료");
}

#[test]
fn translator_serves_english_with_korean_fallback() {
    let tr = Translator::new("en-us");
    assert_eq!(tr.language(), Language::En);
    assert_eq!(tr.t(keys::ERROR_PREFIX), "Error");
    assert_eq!(tr.t(keys::APP_EXIT), "Exiting application.");
    // A key outside the tables falls back to the Korean table's default.
    assert_eq!(tr.t("no.such.key"), "[missing translation]");
}

#[test]
fn translator_without_pack_has_no_overrides() {
    let tr = Translator::new("en");
    assert_eq!(tr.lookup(keys::ERROR_PREFIX), None);
}

#[test]
fn explicit_pack_overrides_built_in_strings() {
    let pack = vec![
        (keys::ERROR_PREFIX.to_string(), "Oops".to_string()),
        ("custom.key".to_string(), "Custom".to_string()),
    ];
    let tr = Translator::new_with_pack("en", Some(pack));
    assert_eq!(tr.t(keys::ERROR_PREFIX), "Oops");
    assert_eq!(tr.t("custom.key"), "Custom");
    // Keys the pack does not carry fall back to the built-in table.
    assert_eq!(tr.t(keys::APP_EXIT), "Exiting application.");
}

#[test]
fn built_in_pack_matches_tables() {
    let pack = built_in_pack("en-US").expect("english pack");
    let entry = pack.iter().find(|p| p.0 == keys::ERROR_PREFIX).expect("key present");
    assert_eq!(entry.1, "Error");
    let pack_ko = built_in_pack("ko-kr").expect("korean pack");
    let entry_ko = pack_ko.iter().find(|p| p.0 == keys::ERROR_PREFIX).expect("key present");
    assert_eq!(entry_ko.1, "오류");
    assert!(built_in_pack("fr").is_none());
}

#[test]
fn new_with_pack_falls_back_to_built_in() {
    let tr = Translator::new_with_pack("ko", None);
    assert_eq!(tr.lookup(keys::ERROR_PREFIX), Some("오류".to_string()));
}

#[test]
fn ko_and_en_tables_agree_on_keys() {
    assert_eq!(ko(keys::SETTINGS_HEADING), "\n-- 설정 --");
    assert_eq!(en(keys::SETTINGS_HEADING), Some("\n-- Settings --"));
    assert_eq!(en("no.such.key"), None);
    assert_eq!(ko("no.such.key"), "[missing translation]");
}

#[test]
fn normalize_lang_canonicalises_codes() {
    assert_eq!(normalize_lang("ko"), Some("ko".to_string()));
    assert_eq!(normalize_lang(" KO-KR "), Some("ko-kr".to_string()));
    assert_eq!(normalize_lang("en"), Some("en".to_string()));
    assert_eq!(normalize_lang("en-us"), Some("en-us".to_string()));
    assert_eq!(normalize_lang("en-uk"), Some("en-us".to_string()));
    assert_eq!(normalize_lang("de"), Some("de-de".to_string()));
    assert_eq!(normalize_lang("auto"), None);
    assert_eq!(normalize_lang(""), None);
    assert_eq!(normalize_lang("korean"), Some("ko".to_string()));
    assert_eq!(normalize_lang("en_GB"), Some("en-us".to_string()));
    assert_eq!(normalize_lang("deutsch"), Some("de-de".to_string()));
    assert_eq!(normalize_lang("fr"), None);
}

#[test]
fn normalize_locale_string_reads_the_language_part() {
    assert_eq!(normalize_locale_string("ko_KR.UTF-8"), Some("ko".to_string()));
    assert_eq!(normalize_locale_string("en-US"), Some("en".to_string()));
    assert_eq!(normalize_locale_string("EN.utf8"), Some("en".to_string()));
    assert_eq!(normalize_locale_string("de_DE"), None);
    assert_eq!(normalize_locale_string(""), None);
}

#[test]
fn resolve_language_prefers_cli_then_config_then_system() {
    assert_eq!(resolve_language("ko", Some("en"), Some("en")), "ko");
    assert_eq!(resolve_language("auto", Some("en-uk"), Some("ko")), "en-us");
    assert_eq!(resolve_language("auto", None, Some("ko")), "ko");
    assert_eq!(resolve_language("auto", Some("???"), Some("ko")), "ko");
    assert_eq!(resolve_language("auto", None, None), "en-us");
    assert_eq!(resolve_language("", None, None), "en-us");
}
