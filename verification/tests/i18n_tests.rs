use vrchat_x3d_start_fix::config::Language;
use vrchat_x3d_start_fix::i18n::{effective_locale, language_for_locale, normalize_locale};

#[test]
fn chinese_variants_select_simplified_chinese() {
    for value in ["zh", "zh-CN", "zh_SG", "zh-Hans", "ZH-tw"] {
        assert_eq!(normalize_locale(Some(value)), "zh-CN");
    }
}

#[test]
fn everything_else_falls_back_to_english() {
    assert_eq!(normalize_locale(Some("en-US")), "en");
    assert_eq!(normalize_locale(Some("ja-JP")), "en");
    assert_eq!(normalize_locale(None), "en");
}

#[test]
fn effective_language_matches_normalized_locale() {
    assert_eq!(language_for_locale("zh-Hans"), Language::ZhCn);
    assert_eq!(language_for_locale("en-US"), Language::En);
}

#[test]
fn near_misses_stay_english() {
    assert_eq!(normalize_locale(Some("zhx")), "en");
    assert_eq!(normalize_locale(Some("z")), "en");
    assert_eq!(normalize_locale(Some("")), "en");
    assert_eq!(normalize_locale(Some("en-zh")), "en");
    assert_eq!(normalize_locale(Some("ZH")), "zh-CN");
}

#[test]
fn override_beats_system_locale() {
    assert_eq!(effective_locale(Some(Language::En), Some("zh-CN")), "en");
    assert_eq!(effective_locale(Some(Language::ZhCn), None), "zh-CN");
    assert_eq!(effective_locale(None, Some("zh_TW")), "zh-CN");
    assert_eq!(effective_locale(None, None), "en");
    for locale in ["zh-Hans", "en-US", "fr"] {
        assert_eq!(language_for_locale(locale).locale(), normalize_locale(Some(locale)));
    }
}
