use ifecaro::chapter_context::{
    chapter_display_title, chapters_from_json, filter_chapters, json_number_as_i64,
    sort_chapters_by_order, Chapter, ChapterState, ChapterTitle,
};
use ifecaro::json::JsonValue;
use ifecaro::paragraph_context::{Paragraph, ParagraphChoice, ParagraphState, Text};
use ifecaro::paragraph_list::{display_paragraph, is_picker_disabled, list_paragraphs, selected_paragraph, Paragraph as ListParagraph};
use ifecaro::story::{Action, ToField};

fn s(x: &str) -> String {
    x.to_string()
}

fn obj(entries: Vec<(&str, JsonValue)>) -> JsonValue {
    JsonValue::Object(entries.into_iter().map(|(k, v)| (k.to_string(), v)).collect())
}

fn title(lang: &str, t: &str) -> ChapterTitle {
    ChapterTitle { lang: s(lang), title: s(t) }
}

fn chapter(id: &str, order: i32, titles: Vec<ChapterTitle>) -> Chapter {
    Chapter { id: s(id), titles, order }
}

#[test]
fn chapters_read_from_api_json() {
    let data = obj(vec![(
        "items",
        JsonValue::Array(vec![
            obj(vec![
                ("id", JsonValue::Str(s("c2"))),
                (
                    "titles",
                    JsonValue::Array(vec![
                        obj(vec![("lang", JsonValue::Str(s("en-US"))), ("title", JsonValue::Str(s("Two")))]),
                        obj(vec![("lang", JsonValue::Number(s("1"))), ("title", JsonValue::Str(s("bad")))]),
                    ]),
                ),
                ("order", JsonValue::Number(s("2"))),
            ]),
            obj(vec![("id", JsonValue::Str(s("no-order"))), ("titles", JsonValue::Array(vec![]))]),
            obj(vec![
                ("id", JsonValue::Str(s("c1"))),
                ("titles", JsonValue::Array(vec![])),
                ("order", JsonValue::Str(s("first"))),
            ]),
            obj(vec![
                ("id", JsonValue::Number(s("3"))),
                ("titles", JsonValue::Array(vec![])),
                ("order", JsonValue::Number(s("1"))),
            ]),
        ]),
    )]);
    let chapters = chapters_from_json(&data).unwrap();
    assert_eq!(chapters.len(), 2);
    assert_eq!(chapters[0].id, "c2");
    assert_eq!(chapters[0].order, 2);
    assert_eq!(chapters[0].titles, vec![title("en-US", "Two")]);
    assert_eq!(chapters[1].id, "c1");
    assert_eq!(chapters[1].order, 0);
    assert!(chapters_from_json(&obj(vec![("items", JsonValue::Null)])).is_none());
    assert!(chapters_from_json(&JsonValue::Array(vec![])).is_none());
}

#[test]
fn json_integers_as_i64() {
    assert_eq!(json_number_as_i64("42"), Some(42));
    assert_eq!(json_number_as_i64("-7"), Some(-7));
    assert_eq!(json_number_as_i64("9223372036854775807"), Some(i64::MAX));
    assert_eq!(json_number_as_i64("-9223372036854775808"), Some(i64::MIN));
    assert_eq!(json_number_as_i64("9223372036854775808"), None);
    assert_eq!(json_number_as_i64("1.5"), None);
    assert_eq!(json_number_as_i64("1e3"), None);
    assert_eq!(json_number_as_i64("+1"), None);
    assert_eq!(json_number_as_i64("-"), None);
    assert_eq!(json_number_as_i64(""), None);
}

#[test]
fn chapter_order_wraps_to_i32() {
    let data = obj(vec![(
        "items",
        JsonValue::Array(vec![obj(vec![
            ("id", JsonValue::Str(s("c"))),
            ("titles", JsonValue::Array(vec![])),
            ("order", JsonValue::Number(s("4294967297"))),
        ])]),
    )]);
    let chapters = chapters_from_json(&data).unwrap();
    assert_eq!(chapters[0].order, 4294967297i64 as i32);
}

#[test]
fn chapters_sort_stably_by_order() {
    let sorted = sort_chapters_by_order(vec![
        chapter("c", 3, vec![]),
        chapter("a1", 1, vec![]),
        chapter("b", 2, vec![]),
        chapter("a2", 1, vec![]),
        chapter("neg", -5, vec![]),
    ]);
    let ids: Vec<&str> = sorted.iter().map(|c| c.id.as_str()).collect();
    assert_eq!(ids, vec!["neg", "a1", "a2", "b", "c"]);
    assert!(sort_chapters_by_order(vec![]).is_empty());
}

#[test]
fn chapter_titles_by_language() {
    let c = chapter("c", 1, vec![title("fr", "Un"), title("en-GB", "One"), title("zh-TW", "一")]);
    assert_eq!(chapter_display_title(&c, "zh-TW", "未翻譯"), "一");
    assert_eq!(chapter_display_title(&c, "es-ES", "untranslated"), "（untranslated）One");
    let d = chapter("d", 1, vec![title("fr", "Un")]);
    assert_eq!(chapter_display_title(&d, "es-ES", "u"), "（u）Un");
    let e = chapter("e", 1, vec![]);
    assert_eq!(chapter_display_title(&e, "es-ES", "u"), "（u）");
}

#[test]
fn chapter_search() {
    let chapters = vec![
        chapter("a", 1, vec![title("en-US", "The Forest"), title("zh-TW", "森林")]),
        chapter("b", 2, vec![title("fr", "La Mer")]),
        chapter("c", 3, vec![]),
    ];
    let all = filter_chapters(&chapters, "zh-TW", "");
    assert_eq!(all.len(), 3);
    let forest = filter_chapters(&chapters, "en-US", "FOREST");
    assert_eq!(forest.len(), 1);
    assert_eq!(forest[0].id, "a");
    assert!(filter_chapters(&chapters, "zh-TW", "forest").is_empty());
    let sea = filter_chapters(&chapters, "zh-TW", "mer");
    assert_eq!(sea.len(), 1);
    assert_eq!(sea[0].id, "b");
    let mut state = ChapterState::new();
    assert!(!state.loaded);
    state.set_chapters(chapters);
    assert!(state.loaded);
    assert_eq!(state.chapters.len(), 3);
}

fn paragraph(id: &str, chapter_id: &str) -> Paragraph {
    Paragraph {
        id: s(id),
        chapter_id: s(chapter_id),
        texts: vec![Text { lang: s("en-US"), paragraphs: s("text"), choices: vec![s("go")] }],
        choices: vec![ParagraphChoice::SimpleOld(s("p9"))],
    }
}

#[test]
fn paragraph_state_lookups() {
    let mut state = ParagraphState::new();
    assert!(!state.loaded);
    state.set_paragraphs(vec![paragraph("p1", "c1"), paragraph("p2", "c2"), paragraph("p3", "c1"), paragraph("p1", "c3")]);
    assert!(state.loaded);
    let c1 = state.get_by_chapter("c1");
    let ids: Vec<&str> = c1.iter().map(|p| p.id.as_str()).collect();
    assert_eq!(ids, vec!["p1", "p3"]);
    assert!(state.get_by_chapter("none").is_empty());
    let p1 = state.get_by_id("p1").unwrap();
    assert_eq!(p1.chapter_id, "c1");
    assert_eq!(p1, paragraph("p1", "c1"));
    assert!(state.get_by_id("zz").is_none());
}

#[test]
fn stored_choice_forms() {
    let complex = ParagraphChoice::Complex {
        to: vec![s("a"), s("b")],
        type_: s("set"),
        key: Some(s("k")),
        value: Some(JsonValue::Number(s("3"))),
        same_page: Some(true),
        time_limit: Some(30),
        timeout_to: None,
    };
    assert_eq!(complex.get_to(), vec![s("a"), s("b")]);
    assert_eq!(complex.get_type(), "set");
    assert_eq!(complex.get_key(), Some(s("k")));
    assert_eq!(complex.get_value(), Some(JsonValue::Number(s("3"))));
    assert_eq!(complex.get_same_page(), Some(true));
    assert_eq!(complex.get_time_limit(), Some(30));
    let old = ParagraphChoice::ComplexOld {
        to: s("x"),
        type_: s("goto"),
        key: None,
        value: None,
        same_page: None,
        time_limit: Some(5),
        timeout_to: Some(s("y")),
    };
    assert_eq!(old.get_to(), vec![s("x")]);
    assert_eq!(old.get_time_limit(), Some(5));
    let simple = ParagraphChoice::Simple(vec![s("p1"), s("p2")]);
    assert_eq!(simple.get_to(), vec![s("p1"), s("p2")]);
    assert_eq!(simple.get_type(), "goto");
    assert_eq!(simple.get_key(), None);
    assert_eq!(simple.get_same_page(), None);
    let simple_old = ParagraphChoice::SimpleOld(s("p"));
    assert_eq!(simple_old.get_to(), vec![s("p")]);
    assert_eq!(simple_old.get_value(), None);
    assert_eq!(simple_old.clone(), simple_old);
}

fn lp(id: &str, preview: &str, has_translation: bool) -> ListParagraph {
    ListParagraph { id: s(id), preview: s(preview), has_translation }
}

#[test]
fn paragraph_pickers() {
    let ps = vec![lp("p1", "Dark forest", true), lp("p2", "Sea shore", false), lp("p3", "Forest edge", true)];
    let d = display_paragraph(&ps[1], "untranslated");
    assert_eq!(d.id, "p2");
    assert_eq!(d.display_text, "（untranslated）Sea shore");
    assert_eq!(display_paragraph(&ps[0], "u").display_text, "Dark forest");

    let listed = list_paragraphs(&ps, &vec![], "u", "FOREST");
    let ids: Vec<&str> = listed.iter().map(|p| p.id.as_str()).collect();
    assert_eq!(ids, vec!["p1", "p3"]);
    let not_chosen = list_paragraphs(&ps, &vec![s("p1")], "u", "");
    let ids: Vec<&str> = not_chosen.iter().map(|p| p.id.as_str()).collect();
    assert_eq!(ids, vec!["p2", "p3"]);
    let marker = list_paragraphs(&ps, &vec![], "untranslated", "untrans");
    assert_eq!(marker.len(), 1);
    assert_eq!(marker[0].id, "p2");

    let sel = selected_paragraph(&ps, "p2", "u").unwrap();
    assert_eq!(sel.display_text, "（u）Sea shore");
    assert!(selected_paragraph(&ps, "p9", "u").is_none());
    assert!(is_picker_disabled(false, &vec![]));
    assert!(is_picker_disabled(true, &ps));
    assert!(!is_picker_disabled(false, &ps));
}

#[test]
fn story_action_targets() {
    let multiple = Action::from_parts(s("goto"), None, None, ToField::Multiple(vec![s("a"), s("b"), s("c"), s("d"), s("e")]));
    assert_eq!(multiple.targets(), vec![s("a"), s("b"), s("c"), s("d"), s("e")]);
    let single = Action::from_parts(s("goto"), Some(s("k")), None, ToField::Single(s("p1")));
    assert_eq!(single.targets(), vec![s("p1")]);
    assert_eq!(single.key, Some(s("k")));
    let empty = Action::from_parts(s("goto"), None, Some(JsonValue::Null), ToField::Single(String::new()));
    assert!(empty.targets().is_empty());
    assert_eq!(empty.value, Some(JsonValue::Null));
}
