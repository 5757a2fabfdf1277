//! Locale selection.

use vstd::prelude::*;
use crate::config::{Language, language_locale};
use crate::text::{chars_of, chars_equal, lower_chars, starts_with, lower, has_prefix};

verus! {

/// A locale that selects Simplified Chinese: `zh` itself or any `zh-` /
/// `zh_` variant, ignoring ASCII case.
pub open spec fn is_chinese_locale(locale: Seq<char>) -> bool {
    ||| lower(locale) == "zh"@
    ||| has_prefix(lower(locale), "zh-"@)
    ||| has_prefix(lower(locale), "zh_"@)
}

/// The translation locale for an optional system locale.
pub open spec fn normalized(locale: Option<Seq<char>>) -> Seq<char> {
    match locale {
        Some(l) if is_chinese_locale(l) => "zh-CN"@,
        _ => "en"@,
    }
}

/// The language that a locale selects.
pub open spec fn language_of(locale: Seq<char>) -> Language {
    if is_chinese_locale(locale) {
        Language::ZhCn
    } else {
        Language::En
    }
}

fn chinese(locale: &str) -> (r: bool)
    ensures
        r == is_chinese_locale(locale@),
{
    let lowered = lower_chars(&chars_of(locale));
    chars_equal(&lowered, &chars_of("zh")) || starts_with(&lowered, &chars_of("zh-"))
        || starts_with(&lowered, &chars_of("zh_"))
}

/// Maps a system locale to one of the two translation locales.
pub fn normalize_locale(locale: Option<&str>) -> (r: &'static str)
    ensures
        r@ == normalized(match locale {
            Some(l) => Some(l@),
            None => None,
        }),
{
    match locale {
        Some(value) => {
            if chinese(value) {
                "zh-CN"
            } else {
                "en"
            }
        },
        None => "en",
    }
}

/// The language that the effective translation locale corresponds to.
pub fn language_for_locale(locale: &str) -> (language: Language)
    ensures
        language == language_of(locale@),
{
    if chinese(locale) {
        Language::ZhCn
    } else {
        Language::En
    }
}

/// The translation locale in effect: the configured override if there is
/// one, else the normalized system locale.
pub fn effective_locale(override_language: Option<Language>, system_locale: Option<&str>) -> (r: &'static str)
    ensures
        r@ == match override_language {
            Some(language) => language_locale(language),
            None => normalized(match system_locale {
                Some(l) => Some(l@),
                None => None,
            }),
        },
{
    match override_language {
        Some(language) => language.locale(),
        None => normalize_locale(system_locale),
    }
}

/// The language that a locale selects is the one whose own locale the
/// locale normalizes to, so the language menu marks the language in effect.
pub proof fn language_matches_normalized_locale(locale: Seq<char>)
    ensures
        language_locale(language_of(locale)) == normalized(Some(locale)),
{
}

/// Normalizing picks one of the two translation locales, ignores ASCII case,
/// and leaves a normalized locale as it is.
pub proof fn normalization_is_stable(locale: Seq<char>)
    ensures
        normalized(Some(locale)) == "zh-CN"@ || normalized(Some(locale)) == "en"@,
        normalized(Some(lower(locale))) == normalized(Some(locale)),
        normalized(Some(normalized(Some(locale)))) == normalized(Some(locale)),
        normalized(None) == "en"@,
{
    assert(lower(lower(locale)) =~= lower(locale));
    reveal_strlit("zh-CN");
    reveal_strlit("en");
    reveal_strlit("zh-");
    reveal_strlit("zh");
    reveal_strlit("zh_");
    let z = "zh-CN"@;
    assert(lower(z)[0] == 'z' && lower(z)[1] == 'h' && lower(z)[2] == '-');
    assert(lower(z).subrange(0, 3) =~= "zh-"@);
    assert(is_chinese_locale(z));
    let e = "en"@;
    assert(lower(e) =~= e);
    assert(lower(e)[0] != "zh"@[0]);
    assert(lower(e) != "zh"@);
    assert(lower(e).len() < 3);
    assert(!is_chinese_locale(e));
}

} // verus!
