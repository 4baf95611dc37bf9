use ifecaro::language_selector::{available_languages, Language};
use ifecaro::route::Route;

#[test]
fn story_route_moves_to_the_canonical_language() {
    let r = Route::Story { lang: "zh-tw".to_string() };
    assert_eq!(r.with_canonical_language("zh-TW"), Some(Route::Story { lang: "zh-TW".to_string() }));
}

#[test]
fn every_language_page_keeps_its_kind() {
    let pages = vec![
        (Route::Dashboard { lang: "en".to_string() }, Route::Dashboard { lang: "en-US".to_string() }),
        (Route::InviteRequest { lang: "en".to_string() }, Route::InviteRequest { lang: "en-US".to_string() }),
        (
            Route::InviteCheckEmail { lang: "en".to_string() },
            Route::InviteCheckEmail { lang: "en-US".to_string() },
        ),
        (Route::Register { lang: "en".to_string() }, Route::Register { lang: "en-US".to_string() }),
        (Route::Login { lang: "en".to_string() }, Route::Login { lang: "en-US".to_string() }),
    ];
    for (page, expected) in pages {
        assert_eq!(page.with_canonical_language("en-US"), Some(expected));
    }
}

#[test]
fn canonical_route_is_left_alone() {
    let r = Route::Login { lang: "ja-JP".to_string() };
    assert_eq!(r.with_canonical_language("ja-JP"), None);
}

#[test]
fn pages_without_language_are_left_alone() {
    assert_eq!(Route::Home {}.with_canonical_language("en-US"), None);
    let missing = Route::PageNotFound { route: vec!["a".to_string(), "b".to_string()] };
    assert_eq!(missing.with_canonical_language("en-US"), None);
}

#[test]
fn no_browser_language_starts_in_english() {
    let langs = available_languages();
    assert_eq!(Route::default_language(None, "", &langs), "en-US");
}

#[test]
fn browser_language_with_other_canonical_form_takes_that_form() {
    let langs = available_languages();
    assert_eq!(Route::default_language(Some("zh-tw"), "zh-TW", &langs), "zh-TW");
}

#[test]
fn offered_browser_language_is_kept() {
    let langs = available_languages();
    assert_eq!(Route::default_language(Some("ja-JP"), "ja-JP", &langs), "ja-JP");
    assert_eq!(Route::default_language(Some("ar"), "ar", &langs), "ar");
}

#[test]
fn browser_language_falls_back_to_a_shared_prefix() {
    let langs = available_languages();
    assert_eq!(Route::default_language(Some("de-XX"), "de-XX", &langs), "de-DE");
    assert_eq!(Route::default_language(Some("en-XX"), "en-XX", &langs), "en-US");
    assert_eq!(Route::default_language(Some("ja"), "ja", &langs), "ja-JP");
}

#[test]
fn unknown_browser_language_starts_in_english() {
    let langs = available_languages();
    assert_eq!(Route::default_language(Some("xx-YY"), "xx-YY", &langs), "en-US");
}

#[test]
fn prefix_search_follows_menu_order() {
    let langs = vec![
        Language { code: "pt-PT", name: "Português (Portugal)" },
        Language { code: "pt-BR", name: "Português (Brasil)" },
    ];
    assert_eq!(Route::default_language(Some("pt-AO"), "pt-AO", &langs), "pt-PT");
}

#[test]
fn a_page_moved_to_its_canonical_language_stays_there() {
    let r = Route::Register { lang: "en".to_string() };
    let moved = r.with_canonical_language("en-US").unwrap();
    assert_eq!(moved.with_canonical_language("en-US"), None);
}

#[test]
fn picking_a_language_keeps_the_page() {
    let r = Route::Dashboard { lang: "zh-TW".to_string() };
    assert_eq!(r.route_for_language("ja-JP"), Some(Route::Dashboard { lang: "ja-JP".to_string() }));
    let s = Route::Story { lang: "zh-TW".to_string() };
    assert_eq!(s.route_for_language("zh-TW"), Some(Route::Story { lang: "zh-TW".to_string() }));
    assert_eq!(Route::Home {}.route_for_language("ja-JP"), None);
    assert_eq!(Route::PageNotFound { route: vec!["x".to_string()] }.route_for_language("ja-JP"), None);
}
