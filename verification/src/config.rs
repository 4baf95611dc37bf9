//! Deployment settings: which API base URL the reader talks to, which
//! environment and version it reports, and when its debug aids show.
//!
//! The values that come from the build (`option_env!`), from the compile
//! profile and from the browser's location are read by the caller and handed
//! in; everything decided from them is here.

use vstd::prelude::*;
use crate::text::{is_blank, lemma_split_nonempty, split_by_char, split_spec, str_equal, trim_spec, views};

verus! {

/// The API base that production builds use when none is configured.
pub const PRODUCTION_API_URL: &'static str = "https://ifecaro.com/db/api";

/// The API base of the staging deployment.
pub const STAGING_API_URL: &'static str = "https://ifecaro.com/staging/db/api";

/// The views of an optional string slice.
pub open spec fn opt_str_view(o: Option<&str>) -> Option<Seq<char>> {
    match o {
        Some(s) => Some(s@),
        None => None,
    }
}

/// The API base chosen from an explicit setting, the staging URL, the
/// environment label and whether the page is served from a local host name.
pub open spec fn resolved_api_url(
    explicit: Option<Seq<char>>,
    staging: Seq<char>,
    app_env: Seq<char>,
    is_local_hostname: bool,
) -> Seq<char> {
    match explicit {
        Some(base) => base,
        None => if is_local_hostname {
            staging
        } else if app_env == "production"@ {
            PRODUCTION_API_URL@
        } else {
            staging
        },
    }
}

/// Picks the API base: an explicit setting wins, a local host name uses
/// staging, and otherwise production builds use the production URL and every
/// other environment uses staging.
pub fn resolve_base_api_url(
    explicit_base: Option<&'static str>,
    staging_api_url: &'static str,
    app_env: &'static str,
    is_local_hostname: bool,
) -> (r: &'static str)
    ensures
        r@ == resolved_api_url(opt_str_view(explicit_base), staging_api_url@, app_env@, is_local_hostname),
{
    if let Some(base) = explicit_base {
        return base;
    }
    if is_local_hostname {
        return staging_api_url;
    }
    if str_equal(app_env, "production") {
        PRODUCTION_API_URL
    } else {
        staging_api_url
    }
}

/// A configured value counts only when it holds something besides white space.
pub open spec fn configured(raw: Option<Seq<char>>) -> Option<Seq<char>> {
    match raw {
        Some(v) => if trim_spec(v).len() == 0 { None } else { Some(v) },
        None => None,
    }
}

/// The explicit API base from a raw build setting: a blank setting is as good
/// as none.
pub fn explicit_api_base(raw: Option<&'static str>) -> (r: Option<&'static str>)
    ensures
        opt_str_view(r) == configured(opt_str_view(raw)),
{
    match raw {
        Some(v) => if is_blank(v) { None } else { Some(v) },
        None => None,
    }
}

/// The host names that count as a local development server.
pub open spec fn is_local_host_spec(host: Seq<char>) -> bool {
    host == "localhost"@ || host == "127.0.0.1"@
}

/// Tells whether `host` is `localhost` or `127.0.0.1`.
pub fn is_local_hostname(host: &str) -> (b: bool)
    ensures
        b == is_local_host_spec(host@),
{
    str_equal(host, "localhost") || str_equal(host, "127.0.0.1")
}

/// The API base the reader uses, from the raw build setting, the environment
/// label and the page's host name where there is a page.
pub fn base_api_url(
    raw_explicit_base: Option<&'static str>,
    app_env: &'static str,
    hostname: Option<&str>,
) -> (r: &'static str)
    ensures
        r@ == resolved_api_url(
            configured(opt_str_view(raw_explicit_base)),
            STAGING_API_URL@,
            app_env@,
            match hostname {
                Some(h) => is_local_host_spec(h@),
                None => false,
            },
        ),
{
    let explicit_base = explicit_api_base(raw_explicit_base);
    let local = match hostname {
        Some(h) => is_local_hostname(h),
        None => false,
    };
    resolve_base_api_url(explicit_base, STAGING_API_URL, app_env, local)
}

/// The first of the two settings that is present, else the fallback.
pub open spec fn first_present(a: Option<Seq<char>>, b: Option<Seq<char>>, fallback: Seq<char>) -> Seq<
    char,
> {
    match a {
        Some(x) => x,
        None => match b {
            Some(y) => y,
            None => fallback,
        },
    }
}

/// The version label: the image tag if the build has one, else the
/// configured application version, else the package version.
pub fn app_version_label(
    ghcr_tag: Option<&'static str>,
    app_version: Option<&'static str>,
    package_version: &'static str,
) -> (r: &'static str)
    ensures
        r@ == first_present(opt_str_view(ghcr_tag), opt_str_view(app_version), package_version@),
{
    match ghcr_tag {
        Some(t) => t,
        None => match app_version {
            Some(v) => v,
            None => package_version,
        },
    }
}

/// The environment label: the front-end setting, else the application
/// setting, else `development`.
pub fn app_env_label(vite_app_env: Option<&'static str>, ifecaro_app_env: Option<&'static str>) -> (r:
    &'static str)
    ensures
        r@ == first_present(opt_str_view(vite_app_env), opt_str_view(ifecaro_app_env), "development"@),
{
    match vite_app_env {
        Some(e) => e,
        None => match ifecaro_app_env {
            Some(e) => e,
            None => "development",
        },
    }
}

/// The environments in which a deployed build may show its debug aids.
pub open spec fn is_deployed_env(app_env: Seq<char>) -> bool {
    app_env == "staging"@ || app_env == "production"@
}

/// Debug information shows in every debug build, and in staging or
/// production builds when the page asked for debug mode.
pub fn should_show_story_debug_info(debug_build: bool, app_env: &str, debugmode: bool) -> (b: bool)
    ensures
        b == (debug_build || (is_deployed_env(app_env@) && debugmode)),
{
    if debug_build {
        return true;
    }
    (str_equal(app_env, "staging") || str_equal(app_env, "production")) && debugmode
}

/// The version label never shows in development, and shows in staging or
/// production when the page asked for debug mode.
pub fn should_show_version_label(app_env: &str, debugmode: bool) -> (b: bool)
    ensures
        app_env@ == "development"@ ==> !b,
        b == (is_deployed_env(app_env@) && debugmode),
{
    if str_equal(app_env, "development") {
        proof {
            reveal_strlit("development");
            reveal_strlit("staging");
            reveal_strlit("production");
            assert("development"@.len() != "staging"@.len());
            assert("development"@.len() != "production"@.len());
        }
        return false;
    }
    (str_equal(app_env, "staging") || str_equal(app_env, "production")) && debugmode
}

} // verus!

verus! {

/// `s` without the run of `c` at its start.
pub open spec fn strip_leading(s: Seq<char>, c: char) -> Seq<char>
    decreases s.len(),
{
    if s.len() > 0 && s[0] == c {
        strip_leading(s.drop_first(), c)
    } else {
        s
    }
}

/// A query pair whose name is `debugmode` and whose value is `true`.
pub open spec fn is_debugmode_pair(pair: Seq<char>) -> bool {
    let kv = split_spec(pair, '=');
    kv[0] == "debugmode"@ && kv.len() >= 2 && kv[1] == "true"@
}

/// A query (the text after `?`) one of whose `&`-separated pairs is
/// `debugmode=true`.
pub open spec fn has_debugmode_pair(query: Seq<char>) -> bool {
    let pairs = split_spec(query, '&');
    exists|i: int| 0 <= i < pairs.len() && is_debugmode_pair(#[trigger] pairs[i])
}

/// A query string (with or without its leading `?`) that holds the pair
/// `debugmode=true`.
pub open spec fn debugmode_in_query(search: Seq<char>) -> bool {
    has_debugmode_pair(strip_leading(search, '?'))
}

/// The index after the run of `c` that starts `s`.
fn skip_leading(s: &str, c: char) -> (i: usize)
    ensures
        i <= s@.len(),
        s@.subrange(i as int, s@.len() as int) == strip_leading(s@, c),
{
    let n = s.unicode_len();
    let mut i: usize = 0;
    assert(s@.subrange(0, n as int) =~= s@);
    while i < n && s.get_char(i) == c
        invariant
            n == s@.len(),
            i <= n,
            strip_leading(s@.subrange(i as int, n as int), c) == strip_leading(s@, c),
        decreases n - i,
    {
        assert(s@.subrange(i as int, n as int).drop_first() =~= s@.subrange(i + 1, n as int));
        i = i + 1;
    }
    i
}

/// Tells whether one `name=value` pair reads `debugmode=true`.
fn pair_is_debugmode(pair: &str) -> (b: bool)
    ensures
        b == is_debugmode_pair(pair@),
{
    let kv = split_by_char(pair, '=');
    proof {
        lemma_split_nonempty(pair@, '=');
        assert(views(kv@)[0] == kv@[0]@);
    }
    if !str_equal(kv[0].as_str(), "debugmode") {
        return false;
    }
    if kv.len() < 2 {
        return false;
    }
    proof {
        assert(views(kv@)[1] == kv@[1]@);
    }
    str_equal(kv[1].as_str(), "true")
}

/// Whether one of the `&`-separated pairs of `query` is `debugmode=true`.
pub fn query_has_debugmode(query: &str) -> (b: bool)
    ensures
        b == has_debugmode_pair(query@),
{
    let pairs = split_by_char(query, '&');
    let ghost ps = split_spec(query@, '&');
    let mut i: usize = 0;
    while i < pairs.len()
        invariant
            ps == split_spec(query@, '&'),
            views(pairs@) == ps,
            i <= pairs@.len(),
            forall|j: int| 0 <= j < i ==> !is_debugmode_pair(#[trigger] ps[j]),
        decreases pairs@.len() - i,
    {
        assert(ps[i as int] == pairs@[i as int]@);
        if pair_is_debugmode(pairs[i].as_str()) {
            assert(is_debugmode_pair(ps[i as int]));
            return true;
        }
        i = i + 1;
    }
    false
}

/// Tells whether the page's query string turns debug mode on.
pub fn debugmode_enabled_from_url(search: &str) -> (b: bool)
    ensures
        b == debugmode_in_query(search@),
{
    let start = skip_leading(search, '?');
    let rest = search.substring_char(start, search.unicode_len());
    query_has_debugmode(rest)
}

} // verus!

verus! {

/// The path of the paragraph collection under the API base.
pub const PARAGRAPHS: &'static str = "/collections/paragraphs/records";

/// The path of the chapter collection under the API base.
pub const CHAPTERS: &'static str = "/collections/chapters/records";

/// The path of the action collection under the API base.
pub const ACTIONS: &'static str = "/collections/actions/records";

/// The path of the character collection under the API base.
pub const CHARACTERS: &'static str = "/collections/characters/records";

/// The path of the attribute collection under the API base.
pub const ATTRIBUTES: &'static str = "/collections/attributes/records";

/// The path of the relationship collection under the API base.
pub const RELATIONSHIPS: &'static str = "/collections/relationships/records";

/// The path of the public collection list under the API base.
pub const PUBLIC_COLLECTIONS: &'static str = "/collections/public";

/// The token sent to the API: none, the collections being public.
pub const AUTH_TOKEN: &'static str = "";

/// A language of the story content: its name and its code.
pub struct Language<'a> {
    pub name: &'a str,
    pub code: &'a str,
}

/// The languages the story content is written in, as `(name, code)` pairs.
pub open spec fn content_language_table() -> Seq<(Seq<char>, Seq<char>)> {
    seq![
        ("English (US)"@, "en-US"@),
        ("English (UK)"@, "en-GB"@),
        ("Español (España)"@, "es-ES"@),
        ("Español (Chile)"@, "es-CL"@),
        ("Français (France)"@, "fr-FR"@),
        ("中文（台灣）"@, "zh-TW"@),
        ("中文（中国）"@, "zh-CN"@),
    ]
}

/// The languages the story content is written in.
pub fn languages() -> (r: Vec<Language<'static>>)
    ensures
        r@.map_values(|l: Language<'static>| (l.name@, l.code@)) == content_language_table(),
{
    let r = vec![
        Language { name: "English (US)", code: "en-US" },
        Language { name: "English (UK)", code: "en-GB" },
        Language { name: "Español (España)", code: "es-ES" },
        Language { name: "Español (Chile)", code: "es-CL" },
        Language { name: "Français (France)", code: "fr-FR" },
        Language { name: "中文（台灣）", code: "zh-TW" },
        Language { name: "中文（中国）", code: "zh-CN" },
    ];
    assert(r@.map_values(|l: Language<'static>| (l.name@, l.code@)) =~= content_language_table());
    r
}

} // verus!

verus! {

/// A build setting that holds nothing but white space chooses the same API
/// base as no setting at all.
pub proof fn law_blank_setting_is_unset(raw: Seq<char>, staging: Seq<char>, app_env: Seq<char>, is_local_hostname: bool)
    requires
        trim_spec(raw).len() == 0,
    ensures
        resolved_api_url(configured(Some(raw)), staging, app_env, is_local_hostname) == resolved_api_url(
            configured(None),
            staging,
            app_env,
            is_local_hostname,
        ),
{
}

/// An explicit API base wins over every other input.
pub proof fn law_explicit_base_wins(base: Seq<char>, staging: Seq<char>, app_env: Seq<char>, is_local_hostname: bool)
    ensures
        resolved_api_url(Some(base), staging, app_env, is_local_hostname) == base,
{
}

} // verus!
