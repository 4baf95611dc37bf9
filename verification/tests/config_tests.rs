use ifecaro::config::{
    app_env_label, app_version_label, base_api_url, debugmode_enabled_from_url, explicit_api_base,
    is_local_hostname, languages, query_has_debugmode, resolve_base_api_url,
    should_show_story_debug_info, should_show_version_label, CHAPTERS, PARAGRAPHS,
    PRODUCTION_API_URL, STAGING_API_URL,
};

#[test]
fn defaults_to_staging_in_development() {
    let actual = resolve_base_api_url(
        None,
        "https://ifecaro.com/staging/db/api",
        "development",
        false,
    );

    assert_eq!(actual, "https://ifecaro.com/staging/db/api");
}

#[test]
fn local_hostname_uses_staging_api() {
    let actual = resolve_base_api_url(
        None,
        "https://ifecaro.com/staging/db/api",
        "development",
        true,
    );

    assert_eq!(actual, "https://ifecaro.com/staging/db/api");
}

#[test]
fn explicit_base_url_has_highest_priority() {
    let actual = resolve_base_api_url(
        Some("https://example.com/custom/api"),
        "https://ifecaro.com/staging/db/api",
        "production",
        true,
    );

    assert_eq!(actual, "https://example.com/custom/api");
}

#[test]
fn empty_explicit_base_url_matches_unset_behavior() {
    let explicit_base = Some("").filter(|value| !value.trim().is_empty());
    let expected = resolve_base_api_url(
        None,
        "https://ifecaro.com/staging/db/api",
        "production",
        false,
    );
    let actual = resolve_base_api_url(
        explicit_base,
        "https://ifecaro.com/staging/db/api",
        "production",
        false,
    );

    assert_eq!(actual, expected);
}

#[test]
fn production_without_explicit_base_url_uses_production_default() {
    let actual = resolve_base_api_url(
        None,
        "https://ifecaro.com/staging/db/api",
        "production",
        false,
    );
    let expected = "https://ifecaro.com/db/api";

    assert_eq!(actual, expected);
    assert!(!actual.is_empty());
}

#[test]
fn non_production_without_explicit_base_url_uses_staging_default() {
    let actual = resolve_base_api_url(None, "https://ifecaro.com/staging/db/api", "staging", false);

    assert_eq!(actual, "https://ifecaro.com/staging/db/api");
    assert!(!actual.is_empty());
}

#[test]
fn blank_build_setting_counts_as_unset() {
    assert_eq!(explicit_api_base(Some("   ")), None);
    assert_eq!(explicit_api_base(Some("")), None);
    assert_eq!(explicit_api_base(None), None);
    assert_eq!(explicit_api_base(Some(" https://x/api ")), Some(" https://x/api "));
}

#[test]
fn base_api_url_combines_setting_environment_and_host() {
    assert_eq!(base_api_url(None, "production", None), PRODUCTION_API_URL);
    assert_eq!(base_api_url(None, "production", Some("localhost")), STAGING_API_URL);
    assert_eq!(base_api_url(None, "production", Some("127.0.0.1")), STAGING_API_URL);
    assert_eq!(base_api_url(None, "production", Some("ifecaro.com")), PRODUCTION_API_URL);
    assert_eq!(base_api_url(Some("  "), "production", None), PRODUCTION_API_URL);
    assert_eq!(base_api_url(Some("https://a/b"), "development", Some("localhost")), "https://a/b");
    assert_eq!(base_api_url(None, "staging", None), STAGING_API_URL);
}

#[test]
fn local_host_names() {
    assert!(is_local_hostname("localhost"));
    assert!(is_local_hostname("127.0.0.1"));
    assert!(!is_local_hostname("localhost.example"));
    assert!(!is_local_hostname(""));
}

#[test]
fn environment_label_prefers_front_end_setting() {
    assert_eq!(app_env_label(Some("staging"), Some("production")), "staging");
    assert_eq!(app_env_label(None, Some("production")), "production");
    assert_eq!(app_env_label(None, None), "development");
}

#[test]
fn version_label_prefers_image_tag() {
    assert_eq!(app_version_label(Some("v9"), Some("1.2"), "0.1.0"), "v9");
    assert_eq!(app_version_label(None, Some("1.2"), "0.1.0"), "1.2");
    assert_eq!(app_version_label(None, None, "0.1.0"), "0.1.0");
}

#[test]
fn debugmode_query_parsing() {
    assert!(debugmode_enabled_from_url("?debugmode=true"));
    assert!(debugmode_enabled_from_url("debugmode=true"));
    assert!(debugmode_enabled_from_url("??a=1&debugmode=true&b=2"));
    assert!(debugmode_enabled_from_url("?debugmode=true=extra"));
    assert!(!debugmode_enabled_from_url("?debugmode=false"));
    assert!(!debugmode_enabled_from_url("?debugmode"));
    assert!(!debugmode_enabled_from_url("?DEBUGMODE=true"));
    assert!(!debugmode_enabled_from_url(""));
    assert!(query_has_debugmode("x=1&debugmode=true"));
    assert!(!query_has_debugmode("?debugmode=true"));
}

#[test]
fn debug_info_visibility() {
    assert!(should_show_story_debug_info(true, "development", false));
    assert!(should_show_story_debug_info(false, "staging", true));
    assert!(should_show_story_debug_info(false, "production", true));
    assert!(!should_show_story_debug_info(false, "production", false));
    assert!(!should_show_story_debug_info(false, "development", true));
}

#[test]
fn version_label_visibility() {
    assert!(!should_show_version_label("development", true));
    assert!(should_show_version_label("staging", true));
    assert!(should_show_version_label("production", true));
    assert!(!should_show_version_label("production", false));
    assert!(!should_show_version_label("test", true));
}

#[test]
fn content_languages_and_paths() {
    let langs = languages();
    assert_eq!(langs.len(), 7);
    assert_eq!(langs[0].name, "English (US)");
    assert_eq!(langs[0].code, "en-US");
    assert_eq!(langs[5].code, "zh-TW");
    assert_eq!(langs[6].name, "中文（中国）");
    assert_eq!(PARAGRAPHS, "/collections/paragraphs/records");
    assert_eq!(CHAPTERS, "/collections/chapters/records");
}
