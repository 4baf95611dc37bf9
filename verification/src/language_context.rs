//! The reader's current language, and the interface locale each language
//! code selects.

use vstd::prelude::*;
use crate::text::str_equal;

verus! {

/// The interface locale for a language code: the codes with a locale of
/// their own, the English and Spanish variants folded onto one locale each,
/// and `en-US` for everything else.
pub open spec fn locale_for(lang: Seq<char>) -> Seq<char> {
    if lang == "zh-TW"@ {
        "zh-TW"@
    } else if lang == "zh-CN"@ {
        "zh-CN"@
    } else if lang == "en-US"@ || lang == "en-GB"@ || lang == "en"@ {
        "en-US"@
    } else if lang == "es-ES"@ || lang == "es-CL"@ || lang == "es"@ {
        "es-ES"@
    } else if lang == "ja"@ {
        "ja"@
    } else if lang == "ko"@ {
        "ko"@
    } else if lang == "fr"@ {
        "fr"@
    } else if lang == "de"@ {
        "de"@
    } else if lang == "it"@ {
        "it"@
    } else if lang == "pt"@ {
        "pt"@
    } else if lang == "ru"@ {
        "ru"@
    } else {
        "en-US"@
    }
}

/// The interface locale that the language code `lang` selects.
pub fn interface_locale(lang: &str) -> (r: &'static str)
    ensures
        r@ == locale_for(lang@),
{
    if str_equal(lang, "zh-TW") {
        "zh-TW"
    } else if str_equal(lang, "zh-CN") {
        "zh-CN"
    } else if str_equal(lang, "en-US") || str_equal(lang, "en-GB") || str_equal(lang, "en") {
        "en-US"
    } else if str_equal(lang, "es-ES") || str_equal(lang, "es-CL") || str_equal(lang, "es") {
        "es-ES"
    } else if str_equal(lang, "ja") {
        "ja"
    } else if str_equal(lang, "ko") {
        "ko"
    } else if str_equal(lang, "fr") {
        "fr"
    } else if str_equal(lang, "de") {
        "de"
    } else if str_equal(lang, "it") {
        "it"
    } else if str_equal(lang, "pt") {
        "pt"
    } else if str_equal(lang, "ru") {
        "ru"
    } else {
        "en-US"
    }
}

/// The reader's current language.
pub struct LanguageState {
    pub current_language: String,
}

impl LanguageState {
    /// The reader starts in Traditional Chinese (`zh-TW`).
    pub fn new() -> (r: Self)
        ensures
            r.current_language@ == "zh-TW"@,
    {
        LanguageState { current_language: "zh-TW".to_string() }
    }

    /// Switches to `lang`, and gives the interface locale the switch selects.
    pub fn set_language(&mut self, lang: &str) -> (locale: &'static str)
        ensures
            final(self).current_language@ == lang@,
            locale@ == locale_for(lang@),
    {
        self.current_language = lang.to_string();
        interface_locale(lang)
    }
}

} // verus!

verus! {

/// A language code with a locale of its own selects that very locale; the
/// English codes select `en-US`, the Spanish ones `es-ES`; and whatever the
/// code, the locale is one of the eleven the reader has, each of which
/// selects itself.
pub proof fn law_locale_selection(lang: Seq<char>)
    ensures
        (lang == "zh-TW"@ || lang == "zh-CN"@ || lang == "ja"@ || lang == "ko"@ || lang == "fr"@ || lang == "de"@ || lang == "it"@ || lang == "pt"@ || lang == "ru"@) ==> locale_for(lang) == lang,
        (lang == "en-US"@ || lang == "en-GB"@ || lang == "en"@) ==> locale_for(lang) == "en-US"@,
        (lang == "es-ES"@ || lang == "es-CL"@ || lang == "es"@) ==> locale_for(lang) == "es-ES"@,
        locale_for(lang) == "zh-TW"@ || locale_for(lang) == "zh-CN"@ || locale_for(lang) == "en-US"@ || locale_for(lang) == "es-ES"@ || locale_for(lang) == "ja"@ || locale_for(lang) == "ko"@ || locale_for(lang) == "fr"@ || locale_for(lang) == "de"@ || locale_for(lang) == "it"@ || locale_for(lang) == "pt"@ || locale_for(lang) == "ru"@,
        locale_for(locale_for(lang)) == locale_for(lang),
{
    reveal_strlit("zh-TW");
    reveal_strlit("zh-CN");
    reveal_strlit("en-US");
    reveal_strlit("en-GB");
    reveal_strlit("en");
    reveal_strlit("es-ES");
    reveal_strlit("es-CL");
    reveal_strlit("es");
    reveal_strlit("ja");
    reveal_strlit("ko");
    reveal_strlit("fr");
    reveal_strlit("de");
    reveal_strlit("it");
    reveal_strlit("pt");
    reveal_strlit("ru");
    assert("zh-TW"@.len() == 5);
    assert("zh-CN"@.len() == 5);
    assert("en-US"@.len() == 5);
    assert("en-GB"@.len() == 5);
    assert("en"@.len() == 2);
    assert("es-ES"@.len() == 5);
    assert("es-CL"@.len() == 5);
    assert("es"@.len() == 2);
    assert("ja"@.len() == 2);
    assert("ko"@.len() == 2);
    assert("fr"@.len() == 2);
    assert("de"@.len() == 2);
    assert("it"@.len() == 2);
    assert("pt"@.len() == 2);
    assert("ru"@.len() == 2);
    assert("zh-TW"@[3] != "zh-CN"@[3]);
    assert("zh-TW"@[0] != "en-US"@[0]);
    assert("zh-TW"@[0] != "en-GB"@[0]);
    assert("zh-TW"@[0] != "es-ES"@[0]);
    assert("zh-TW"@[0] != "es-CL"@[0]);
    assert("zh-CN"@[0] != "en-US"@[0]);
    assert("zh-CN"@[0] != "en-GB"@[0]);
    assert("zh-CN"@[0] != "es-ES"@[0]);
    assert("zh-CN"@[0] != "es-CL"@[0]);
    assert("en-US"@[3] != "en-GB"@[3]);
    assert("en-US"@[1] != "es-ES"@[1]);
    assert("en-US"@[1] != "es-CL"@[1]);
    assert("en-GB"@[1] != "es-ES"@[1]);
    assert("en-GB"@[1] != "es-CL"@[1]);
    assert("en"@[1] != "es"@[1]);
    assert("en"@[0] != "ja"@[0]);
    assert("en"@[0] != "ko"@[0]);
    assert("en"@[0] != "fr"@[0]);
    assert("en"@[0] != "de"@[0]);
    assert("en"@[0] != "it"@[0]);
    assert("en"@[0] != "pt"@[0]);
    assert("en"@[0] != "ru"@[0]);
    assert("es-ES"@[3] != "es-CL"@[3]);
    assert("es"@[0] != "ja"@[0]);
    assert("es"@[0] != "ko"@[0]);
    assert("es"@[0] != "fr"@[0]);
    assert("es"@[0] != "de"@[0]);
    assert("es"@[0] != "it"@[0]);
    assert("es"@[0] != "pt"@[0]);
    assert("es"@[0] != "ru"@[0]);
    assert("ja"@[0] != "ko"@[0]);
    assert("ja"@[0] != "fr"@[0]);
    assert("ja"@[0] != "de"@[0]);
    assert("ja"@[0] != "it"@[0]);
    assert("ja"@[0] != "pt"@[0]);
    assert("ja"@[0] != "ru"@[0]);
    assert("ko"@[0] != "fr"@[0]);
    assert("ko"@[0] != "de"@[0]);
    assert("ko"@[0] != "it"@[0]);
    assert("ko"@[0] != "pt"@[0]);
    assert("ko"@[0] != "ru"@[0]);
    assert("fr"@[0] != "de"@[0]);
    assert("fr"@[0] != "it"@[0]);
    assert("fr"@[0] != "pt"@[0]);
    assert("fr"@[0] != "ru"@[0]);
    assert("de"@[0] != "it"@[0]);
    assert("de"@[0] != "pt"@[0]);
    assert("de"@[0] != "ru"@[0]);
    assert("it"@[0] != "pt"@[0]);
    assert("it"@[0] != "ru"@[0]);
    assert("pt"@[0] != "ru"@[0]);
}

} // verus!
