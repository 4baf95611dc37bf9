//! The languages the reader offers, and the language search of its menus.

use vstd::prelude::*;
use crate::text::{matches_query, str_equal, text_matches_query};

verus! {

/// A language the reader can be switched to: its code and its own name for itself.
#[derive(Clone, PartialEq)]
pub struct Language {
    pub code: &'static str,
    pub name: &'static str,
}

impl View for Language {
    type V = (Seq<char>, Seq<char>);

    /// The code and the name.
    open spec fn view(&self) -> (Seq<char>, Seq<char>) {
        (self.code@, self.name@)
    }
}

/// The views of a list of languages.
pub open spec fn language_views(ls: Seq<Language>) -> Seq<(Seq<char>, Seq<char>)> {
    ls.map_values(|l: Language| l@)
}

/// The languages on offer, as `(code, name)` pairs in menu order.
pub open spec fn available_language_table() -> Seq<(Seq<char>, Seq<char>)> {
    seq![
        ("zh-TW"@, "繁體中文"@),
        ("zh-CN"@, "简体中文"@),
        ("en-US"@, "English (US)"@),
        ("en-GB"@, "English (UK)"@),
        ("es-ES"@, "Español (España)"@),
        ("es-CL"@, "Español (Chile)"@),
        ("ja-JP"@, "日本語"@),
        ("ko-KR"@, "한국어"@),
        ("fr-FR"@, "Français (France)"@),
        ("de-DE"@, "Deutsch (Deutschland)"@),
        ("it-IT"@, "Italiano (Italia)"@),
        ("pt-PT"@, "Português (Portugal)"@),
        ("pt-BR"@, "Português (Brasil)"@),
        ("ru-RU"@, "Русский (Россия)"@),
        ("ar"@, "العربية"@),
        ("hi"@, "हिंदी"@),
        ("bn"@, "বাংলা"@),
        ("id"@, "Bahasa Indonesia"@),
        ("ms"@, "Bahasa Melayu"@),
        ("th"@, "ไทย"@),
        ("vi"@, "Tiếng Việt"@),
        ("nl"@, "Nederlands"@),
        ("pl"@, "Polski"@),
        ("uk"@, "Українська"@),
        ("el"@, "Ελληνικά"@),
        ("he"@, "עברית"@),
        ("tr"@, "Türkçe"@),
        ("sv"@, "Svenska"@),
        ("da"@, "Dansk"@),
        ("fi"@, "Suomi"@),
        ("no"@, "Norsk"@),
        ("cs"@, "Čeština"@),
        ("ro"@, "Română"@),
        ("hu"@, "Magyar"@),
        ("sk"@, "Slovenčina"@),
        ("hr"@, "Hrvatski"@),
        ("ca"@, "Català"@),
        ("fil"@, "Filipino"@),
        ("fa"@, "فارسی"@),
        ("lv"@, "Latviešu"@),
        ("af"@, "Afrikaans"@),
        ("sw"@, "Kiswahili"@),
        ("ga"@, "Gaeilge"@),
        ("et"@, "Eesti"@),
        ("eu"@, "Euskara"@),
        ("is"@, "Íslenska"@),
        ("mk"@, "Македонски"@),
        ("hy"@, "Հայերեն"@),
        ("ne"@, "नेपाली"@),
        ("lb"@, "Lëtzebuergesch"@),
        ("my"@, "မြန်မာဘာသာ"@),
        ("gl"@, "Galego"@),
        ("mr"@, "मराठी"@),
        ("ka"@, "ქართული"@),
        ("mn"@, "Монгол"@),
        ("si"@, "සිංහල"@),
        ("km"@, "ខ្មែរ"@),
        ("sn"@, "chiShona"@),
        ("yo"@, "Yorùbá"@),
        ("so"@, "Soomaali"@),
        ("ha"@, "Hausa"@),
        ("zu"@, "isiZulu"@),
        ("xh"@, "isiXhosa"@),
        ("am"@, "አማርኛ"@),
        ("be"@, "Беларуская"@),
        ("az"@, "Azərbaycan"@),
        ("uz"@, "O'zbek"@),
        ("kk"@, "Қазақ"@),
        ("ky"@, "Кыргызча"@),
        ("tg"@, "Тоҷикӣ"@),
        ("tk"@, "Türkmen"@),
        ("ur"@, "اردو"@),
        ("pa"@, "ਪੰਜਾਬੀ"@),
        ("gu"@, "ગુજરાતી"@),
        ("or"@, "ଓଡ଼ିଆ"@),
        ("ta"@, "தமிழ்"@),
        ("te"@, "తెలుగు"@),
        ("kn"@, "ಕನ್ನಡ"@),
        ("ml"@, "മലയാളം"@),
        ("as"@, "অসমীয়া"@),
        ("mai"@, "मैथिली"@),
        ("mni"@, "मैथिली"@),
        ("doi"@, "डोगरी"@),
        ("bho"@, "भोजपुरी"@),
        ("sat"@, "ᱥᱟᱱᱛᱟᱲᱤ"@),
        ("ks"@, "کٲشُر"@),
        ("sa"@, "संस्कृतम्"@),
        ("sd"@, "سنڌي"@),
        ("kok"@, "कोंकणी"@),
        ("gom"@, "कोंकणी"@),
        ("ar-AE"@, "العربية (الإمارات)"@),
        ("ar-DZ"@, "العربية (الجزائر)"@),
        ("ar-EG"@, "العربية (مصر)"@),
        ("ar-IQ"@, "العربية (العراق)"@),
        ("ar-LB"@, "العربية (لبنان)"@),
        ("ar-MA"@, "العربية (المغرب)"@),
        ("ar-SA"@, "العربية (السعودية)"@),
        ("ar-SY"@, "العربية (سوريا)"@),
        ("ar-TN"@, "العربية (تونس)"@),
        ("bg-BG"@, "Български"@),
        ("bn-BD"@, "বাংলা (বাংলাদেশ)"@),
        ("bn-IN"@, "বাংলা (ভারত)"@),
        ("cs-CZ"@, "Čeština (Česko)"@),
        ("da-DK"@, "Dansk (Danmark)"@),
        ("de-AT"@, "Deutsch (Österreich)"@),
        ("de-BE"@, "Deutsch (Belgien)"@),
        ("de-CH"@, "Deutsch (Schweiz)"@),
        ("de-LU"@, "Deutsch (Luxemburg)"@),
        ("el-GR"@, "Ελληνικά (Ελλάδα)"@),
        ("en"@, "English"@),
        ("en-AU"@, "English (Australia)"@),
        ("en-CA"@, "English (Canada)"@),
        ("en-HK"@, "English (Hong Kong)"@),
        ("en-IE"@, "English (Ireland)"@),
        ("en-IN"@, "English (India)"@),
        ("en-NZ"@, "English (New Zealand)"@),
        ("en-PH"@, "English (Philippines)"@),
        ("en-SG"@, "English (Singapore)"@),
        ("en-ZA"@, "English (South Africa)"@),
        ("es"@, "Español"@),
        ("es-419"@, "Español (Latinoamérica)"@),
        ("es-AR"@, "Español (Argentina)"@),
        ("es-BO"@, "Español (Bolivia)"@),
        ("es-CO"@, "Español (Colombia)"@),
        ("es-EC"@, "Español (Ecuador)"@),
        ("es-MX"@, "Español (México)"@),
        ("es-PE"@, "Español (Perú)"@),
        ("es-UY"@, "Español (Uruguay)"@),
        ("es-VE"@, "Español (Venezuela)"@),
        ("et-EE"@, "Eesti (Eesti)"@),
        ("fa-IR"@, "فارسی (ایران)"@),
        ("fi-FI"@, "Suomi (Suomi)"@),
        ("fr"@, "Français"@),
        ("fr-BE"@, "Français (Belgique)"@),
        ("fr-CA"@, "Français (Canada)"@),
        ("fr-CH"@, "Français (Suisse)"@),
        ("fr-LU"@, "Français (Luxembourg)"@),
        ("fr-MA"@, "Français (Maroc)"@),
        ("he-IL"@, "עברית (ישראל)"@),
        ("hi-IN"@, "हिन्दी (भारत)"@),
        ("hr-HR"@, "Hrvatski (Hrvatska)"@),
        ("hu-HU"@, "Magyar (Magyarország)"@),
        ("id-ID"@, "Bahasa Indonesia (Indonesia)"@),
        ("it-CH"@, "Italiano (Svizzera)"@),
        ("lt-LT"@, "Lietuvių"@),
        ("lv-LV"@, "Latviešu (Latvija)"@),
        ("ms-MY"@, "Bahasa Melayu (Malaysia)"@),
        ("ms-SG"@, "Bahasa Melayu (Singapura)"@),
        ("nb"@, "Norsk bokmål"@),
        ("nb-NO"@, "Norsk bokmål (Norge)"@),
        ("nl-BE"@, "Nederlands (België)"@),
        ("nl-NL"@, "Nederlands (Nederland)"@),
        ("nn-NO"@, "Norsk nynorsk"@),
        ("pl-PL"@, "Polski (Polska)"@),
        ("ro-RO"@, "Română (România)"@),
        ("ru-BY"@, "Русский (Беларусь)"@),
        ("ru-KZ"@, "Русский (Казахстан)"@),
        ("ru-UA"@, "Русский (Украина)"@),
        ("sk-SK"@, "Slovenčina (Slovensko)"@),
        ("sl-SI"@, "Slovenščina"@),
        ("sr-RS"@, "Српски"@),
        ("sv-FI"@, "Svenska (Finland)"@),
        ("sv-SE"@, "Svenska (Sverige)"@),
        ("ta-IN"@, "தமிழ் (இந்தியா)"@),
        ("ta-SG"@, "தமிழ் (சிங்கப்பூர்)"@),
        ("th-TH"@, "ไทย (ประเทศไทย)"@),
        ("tr-TR"@, "Türkçe (Türkiye)"@),
        ("uk-UA"@, "Українська (Україна)"@),
        ("vi-VN"@, "Tiếng Việt (Việt Nam)"@),
        ("zh"@, "中文"@),
        ("zh-HK"@, "中文（香港）"@),
        ("zh-Hans"@, "简体中文"@),
        ("zh-Hans-CN"@, "简体中文（中国大陆）"@),
        ("zh-Hant"@, "繁體中文"@),
        ("zh-Hant-HK"@, "繁體中文（香港）"@),
        ("zh-Hant-TW"@, "繁體中文（台灣）"@),
        ("zh-MO"@, "中文（澳門）"@),
        ("zh-SG"@, "中文（新加坡）"@),
    ]
}

/// The languages on offer, in menu order.
pub fn available_languages() -> (r: Vec<Language>)
    ensures
        language_views(r@) == available_language_table(),
{
    let r = vec![
        Language { code: "zh-TW", name: "繁體中文" },
        Language { code: "zh-CN", name: "简体中文" },
        Language { code: "en-US", name: "English (US)" },
        Language { code: "en-GB", name: "English (UK)" },
        Language { code: "es-ES", name: "Español (España)" },
        Language { code: "es-CL", name: "Español (Chile)" },
        Language { code: "ja-JP", name: "日本語" },
        Language { code: "ko-KR", name: "한국어" },
        Language { code: "fr-FR", name: "Français (France)" },
        Language { code: "de-DE", name: "Deutsch (Deutschland)" },
        Language { code: "it-IT", name: "Italiano (Italia)" },
        Language { code: "pt-PT", name: "Português (Portugal)" },
        Language { code: "pt-BR", name: "Português (Brasil)" },
        Language { code: "ru-RU", name: "Русский (Россия)" },
        Language { code: "ar", name: "العربية" },
        Language { code: "hi", name: "हिंदी" },
        Language { code: "bn", name: "বাংলা" },
        Language { code: "id", name: "Bahasa Indonesia" },
        Language { code: "ms", name: "Bahasa Melayu" },
        Language { code: "th", name: "ไทย" },
        Language { code: "vi", name: "Tiếng Việt" },
        Language { code: "nl", name: "Nederlands" },
        Language { code: "pl", name: "Polski" },
        Language { code: "uk", name: "Українська" },
        Language { code: "el", name: "Ελληνικά" },
        Language { code: "he", name: "עברית" },
        Language { code: "tr", name: "Türkçe" },
        Language { code: "sv", name: "Svenska" },
        Language { code: "da", name: "Dansk" },
        Language { code: "fi", name: "Suomi" },
        Language { code: "no", name: "Norsk" },
        Language { code: "cs", name: "Čeština" },
        Language { code: "ro", name: "Română" },
        Language { code: "hu", name: "Magyar" },
        Language { code: "sk", name: "Slovenčina" },
        Language { code: "hr", name: "Hrvatski" },
        Language { code: "ca", name: "Català" },
        Language { code: "fil", name: "Filipino" },
        Language { code: "fa", name: "فارسی" },
        Language { code: "lv", name: "Latviešu" },
        Language { code: "af", name: "Afrikaans" },
        Language { code: "sw", name: "Kiswahili" },
        Language { code: "ga", name: "Gaeilge" },
        Language { code: "et", name: "Eesti" },
        Language { code: "eu", name: "Euskara" },
        Language { code: "is", name: "Íslenska" },
        Language { code: "mk", name: "Македонски" },
        Language { code: "hy", name: "Հայերեն" },
        Language { code: "ne", name: "नेपाली" },
        Language { code: "lb", name: "Lëtzebuergesch" },
        Language { code: "my", name: "မြန်မာဘာသာ" },
        Language { code: "gl", name: "Galego" },
        Language { code: "mr", name: "मराठी" },
        Language { code: "ka", name: "ქართული" },
        Language { code: "mn", name: "Монгол" },
        Language { code: "si", name: "සිංහල" },
        Language { code: "km", name: "ខ្មែរ" },
        Language { code: "sn", name: "chiShona" },
        Language { code: "yo", name: "Yorùbá" },
        Language { code: "so", name: "Soomaali" },
        Language { code: "ha", name: "Hausa" },
        Language { code: "zu", name: "isiZulu" },
        Language { code: "xh", name: "isiXhosa" },
        Language { code: "am", name: "አማርኛ" },
        Language { code: "be", name: "Беларуская" },
        Language { code: "az", name: "Azərbaycan" },
        Language { code: "uz", name: "O'zbek" },
        Language { code: "kk", name: "Қазақ" },
        Language { code: "ky", name: "Кыргызча" },
        Language { code: "tg", name: "Тоҷикӣ" },
        Language { code: "tk", name: "Türkmen" },
        Language { code: "ur", name: "اردو" },
        Language { code: "pa", name: "ਪੰਜਾਬੀ" },
        Language { code: "gu", name: "ગુજરાતી" },
        Language { code: "or", name: "ଓଡ଼ିଆ" },
        Language { code: "ta", name: "தமிழ்" },
        Language { code: "te", name: "తెలుగు" },
        Language { code: "kn", name: "ಕನ್ನಡ" },
        Language { code: "ml", name: "മലയാളം" },
        Language { code: "as", name: "অসমীয়া" },
        Language { code: "mai", name: "मैथिली" },
        Language { code: "mni", name: "मैथिली" },
        Language { code: "doi", name: "डोगरी" },
        Language { code: "bho", name: "भोजपुरी" },
        Language { code: "sat", name: "ᱥᱟᱱᱛᱟᱲᱤ" },
        Language { code: "ks", name: "کٲشُر" },
        Language { code: "sa", name: "संस्कृतम्" },
        Language { code: "sd", name: "سنڌي" },
        Language { code: "kok", name: "कोंकणी" },
        Language { code: "gom", name: "कोंकणी" },
        Language { code: "ar-AE", name: "العربية (الإمارات)" },
        Language { code: "ar-DZ", name: "العربية (الجزائر)" },
        Language { code: "ar-EG", name: "العربية (مصر)" },
        Language { code: "ar-IQ", name: "العربية (العراق)" },
        Language { code: "ar-LB", name: "العربية (لبنان)" },
        Language { code: "ar-MA", name: "العربية (المغرب)" },
        Language { code: "ar-SA", name: "العربية (السعودية)" },
        Language { code: "ar-SY", name: "العربية (سوريا)" },
        Language { code: "ar-TN", name: "العربية (تونس)" },
        Language { code: "bg-BG", name: "Български" },
        Language { code: "bn-BD", name: "বাংলা (বাংলাদেশ)" },
        Language { code: "bn-IN", name: "বাংলা (ভারত)" },
        Language { code: "cs-CZ", name: "Čeština (Česko)" },
        Language { code: "da-DK", name: "Dansk (Danmark)" },
        Language { code: "de-AT", name: "Deutsch (Österreich)" },
        Language { code: "de-BE", name: "Deutsch (Belgien)" },
        Language { code: "de-CH", name: "Deutsch (Schweiz)" },
        Language { code: "de-LU", name: "Deutsch (Luxemburg)" },
        Language { code: "el-GR", name: "Ελληνικά (Ελλάδα)" },
        Language { code: "en", name: "English" },
        Language { code: "en-AU", name: "English (Australia)" },
        Language { code: "en-CA", name: "English (Canada)" },
        Language { code: "en-HK", name: "English (Hong Kong)" },
        Language { code: "en-IE", name: "English (Ireland)" },
        Language { code: "en-IN", name: "English (India)" },
        Language { code: "en-NZ", name: "English (New Zealand)" },
        Language { code: "en-PH", name: "English (Philippines)" },
        Language { code: "en-SG", name: "English (Singapore)" },
        Language { code: "en-ZA", name: "English (South Africa)" },
        Language { code: "es", name: "Español" },
        Language { code: "es-419", name: "Español (Latinoamérica)" },
        Language { code: "es-AR", name: "Español (Argentina)" },
        Language { code: "es-BO", name: "Español (Bolivia)" },
        Language { code: "es-CO", name: "Español (Colombia)" },
        Language { code: "es-EC", name: "Español (Ecuador)" },
        Language { code: "es-MX", name: "Español (México)" },
        Language { code: "es-PE", name: "Español (Perú)" },
        Language { code: "es-UY", name: "Español (Uruguay)" },
        Language { code: "es-VE", name: "Español (Venezuela)" },
        Language { code: "et-EE", name: "Eesti (Eesti)" },
        Language { code: "fa-IR", name: "فارسی (ایران)" },
        Language { code: "fi-FI", name: "Suomi (Suomi)" },
        Language { code: "fr", name: "Français" },
        Language { code: "fr-BE", name: "Français (Belgique)" },
        Language { code: "fr-CA", name: "Français (Canada)" },
        Language { code: "fr-CH", name: "Français (Suisse)" },
        Language { code: "fr-LU", name: "Français (Luxembourg)" },
        Language { code: "fr-MA", name: "Français (Maroc)" },
        Language { code: "he-IL", name: "עברית (ישראל)" },
        Language { code: "hi-IN", name: "हिन्दी (भारत)" },
        Language { code: "hr-HR", name: "Hrvatski (Hrvatska)" },
        Language { code: "hu-HU", name: "Magyar (Magyarország)" },
        Language { code: "id-ID", name: "Bahasa Indonesia (Indonesia)" },
        Language { code: "it-CH", name: "Italiano (Svizzera)" },
        Language { code: "lt-LT", name: "Lietuvių" },
        Language { code: "lv-LV", name: "Latviešu (Latvija)" },
        Language { code: "ms-MY", name: "Bahasa Melayu (Malaysia)" },
        Language { code: "ms-SG", name: "Bahasa Melayu (Singapura)" },
        Language { code: "nb", name: "Norsk bokmål" },
        Language { code: "nb-NO", name: "Norsk bokmål (Norge)" },
        Language { code: "nl-BE", name: "Nederlands (België)" },
        Language { code: "nl-NL", name: "Nederlands (Nederland)" },
        Language { code: "nn-NO", name: "Norsk nynorsk" },
        Language { code: "pl-PL", name: "Polski (Polska)" },
        Language { code: "ro-RO", name: "Română (România)" },
        Language { code: "ru-BY", name: "Русский (Беларусь)" },
        Language { code: "ru-KZ", name: "Русский (Казахстан)" },
        Language { code: "ru-UA", name: "Русский (Украина)" },
        Language { code: "sk-SK", name: "Slovenčina (Slovensko)" },
        Language { code: "sl-SI", name: "Slovenščina" },
        Language { code: "sr-RS", name: "Српски" },
        Language { code: "sv-FI", name: "Svenska (Finland)" },
        Language { code: "sv-SE", name: "Svenska (Sverige)" },
        Language { code: "ta-IN", name: "தமிழ் (இந்தியா)" },
        Language { code: "ta-SG", name: "தமிழ் (சிங்கப்பூர்)" },
        Language { code: "th-TH", name: "ไทย (ประเทศไทย)" },
        Language { code: "tr-TR", name: "Türkçe (Türkiye)" },
        Language { code: "uk-UA", name: "Українська (Україна)" },
        Language { code: "vi-VN", name: "Tiếng Việt (Việt Nam)" },
        Language { code: "zh", name: "中文" },
        Language { code: "zh-HK", name: "中文（香港）" },
        Language { code: "zh-Hans", name: "简体中文" },
        Language { code: "zh-Hans-CN", name: "简体中文（中国大陆）" },
        Language { code: "zh-Hant", name: "繁體中文" },
        Language { code: "zh-Hant-HK", name: "繁體中文（香港）" },
        Language { code: "zh-Hant-TW", name: "繁體中文（台灣）" },
        Language { code: "zh-MO", name: "中文（澳門）" },
        Language { code: "zh-SG", name: "中文（新加坡）" },
    ];
    assert(language_views(r@) =~= available_language_table());
    r
}

/// The text a language menu shows for `lang`: its name.
pub fn display_language(lang: &&Language) -> (r: String)
    ensures
        r@ == lang.name@,
{
    lang.name.to_string()
}

/// The languages that a menu search `query` keeps: those whose name or code
/// matches it, ignoring case.
pub open spec fn filter_languages_spec(ls: Seq<(Seq<char>, Seq<char>)>, query: Seq<char>) -> Seq<(Seq<char>, Seq<char>)>
    decreases ls.len(),
{
    if ls.len() == 0 {
        ls
    } else {
        let rest = filter_languages_spec(ls.drop_last(), query);
        if matches_query(ls.last().1, query) || matches_query(ls.last().0, query) {
            rest.push(ls.last())
        } else {
            rest
        }
    }
}

/// The languages of `langs` that the search `query` keeps, in order.
pub fn filter_languages(langs: &Vec<Language>, query: &str) -> (r: Vec<Language>)
    ensures
        language_views(r@) == filter_languages_spec(language_views(langs@), query@),
{
    let ghost lv = language_views(langs@);
    let mut out: Vec<Language> = Vec::new();
    let mut i: usize = 0;
    while i < langs.len()
        invariant
            lv == language_views(langs@),
            i <= langs@.len(),
            language_views(out@) == filter_languages_spec(lv.subrange(0, i as int), query@),
        decreases langs@.len() - i,
    {
        assert(lv.subrange(0, i + 1).drop_last() =~= lv.subrange(0, i as int));
        assert(lv.subrange(0, i + 1).last() == langs@[i as int]@);
        let l = Language { code: langs[i].code, name: langs[i].name };
        assert(l@ == langs@[i as int]@);
        if text_matches_query(l.name, query) || text_matches_query(l.code, query) {
            let ghost before = out@;
            out.push(l);
            assert(language_views(out@) =~= language_views(before).push(l@));
        }
        i = i + 1;
    }
    assert(lv.subrange(0, langs@.len() as int) =~= lv);
    out
}

/// The name of the first language of `ls` whose code is `code`.
pub open spec fn name_of_code(ls: Seq<(Seq<char>, Seq<char>)>, code: Seq<char>) -> Option<Seq<char>>
    decreases ls.len(),
{
    if ls.len() == 0 {
        None
    } else if ls[0].0 == code {
        Some(ls[0].1)
    } else {
        name_of_code(ls.drop_first(), code)
    }
}

/// The name that a menu shows for the language `code`, or `fallback` for a
/// code that is not on offer.
pub fn language_name(langs: &Vec<Language>, code: &str, fallback: &'static str) -> (r: &'static str)
    ensures
        r@ == match name_of_code(language_views(langs@), code@) {
            Some(n) => n,
            None => fallback@,
        },
{
    let ghost lv = language_views(langs@);
    let n = langs.len();
    let mut i: usize = 0;
    assert(lv.subrange(0, n as int) =~= lv);
    while i < n
        invariant
            n == langs@.len(),
            lv == language_views(langs@),
            i <= n,
            name_of_code(lv.subrange(i as int, n as int), code@) == name_of_code(lv, code@),
        decreases n - i,
    {
        let ghost tail = lv.subrange(i as int, n as int);
        assert(tail[0] == langs@[i as int]@);
        if str_equal(langs[i].code, code) {
            return langs[i].name;
        }
        assert(tail.drop_first() =~= lv.subrange(i + 1, n as int));
        i = i + 1;
    }
    fallback
}

} // verus!
