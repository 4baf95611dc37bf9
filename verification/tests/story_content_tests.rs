use ifecaro::json::JsonValue;
use ifecaro::story_content::{
    animation_play_state, choice_selected_class, choice_state_class, expire_countdown,
    is_choice_enabled, keyboard_action, overlay_hidden, overlay_prompt_key,
    overlay_visibility_class, paragraph_lines, should_lock_page_scroll,
    should_show_chapter_title, should_show_choices, should_show_choices_on_overlay_hide,
    should_show_filter_on_blur, value_or_zero, Action, Choice, KeyAction,
};
use ifecaro::text::{parse_usize, split_by_char};
use ifecaro::translation_form::ParagraphChoice;
use ifecaro::paragraph_context::{Paragraph, ParagraphChoice as StoredChoice, Text};
use ifecaro::story_content::{get_paragraph_text, paragraph_to_choices};
use ifecaro::text::decimal_string;

fn create_test_choice(caption: &str, to: &str, action_type: &str) -> Choice {
    Choice {
        caption: caption.to_string().into(),
        action: Action {
            type_: action_type.to_string().into(),
            key: None,
            value: None,
            to: to.to_string().into(),
        },
    }
}

fn create_test_choice_with_value(
    caption: &str,
    to: &str,
    action_type: &str,
    key: Option<String>,
    value: Option<JsonValue>,
) -> Choice {
    Choice {
        caption: caption.to_string().into(),
        action: Action { type_: action_type.to_string().into(), key, value, to: to.to_string().into() },
    }
}

#[test]
fn overlay_shown_disables_scroll() {
    assert!(should_lock_page_scroll(true, "scroll"));
}

#[test]
fn overlay_hidden_enables_scroll() {
    assert!(!should_lock_page_scroll(false, "scroll"));
}

#[test]
fn page_turn_mode_disables_scroll() {
    assert!(should_lock_page_scroll(false, "horizontal"));
    assert!(should_lock_page_scroll(false, "vertical"));
}

#[test]
fn desktop_blur_shows_overlay() {
    assert!(should_show_filter_on_blur(false));
}

#[test]
fn mobile_blur_does_not_show_overlay() {
    assert!(!should_show_filter_on_blur(true));
}

#[test]
fn overlay_hide_with_short_content_and_countdown_shows_choices() {
    let show_filter = false;
    let has_shown_choices = false;
    let has_countdown = true;
    let scroll_height = 500;
    let client_height = 800;
    assert!(should_show_choices_on_overlay_hide(
        show_filter,
        has_shown_choices,
        has_countdown,
        scroll_height,
        client_height
    ));
}

#[test]
fn overlay_hide_with_scrollable_content_and_countdown_keeps_choices_hidden() {
    let show_filter = false;
    let has_shown_choices = false;
    let has_countdown = true;
    let scroll_height = 1500;
    let client_height = 800;
    assert!(!should_show_choices_on_overlay_hide(
        show_filter,
        has_shown_choices,
        has_countdown,
        scroll_height,
        client_height
    ));
}

#[test]
fn overlay_hide_other_cases() {
    assert!(!should_show_choices_on_overlay_hide(true, false, true, 500, 800));
    assert!(!should_show_choices_on_overlay_hide(false, true, true, 500, 800));
    assert!(!should_show_choices_on_overlay_hide(false, false, false, 500, 800));
    assert!(should_show_choices_on_overlay_hide(false, false, true, 800, 800));
}

#[test]
fn test_keyboard_number_parsing() {
    let test_keys = vec!["1", "2", "3", "4", "5"];

    for (i, key) in test_keys.iter().enumerate() {
        if let Some(num) = parse_usize(key) {
            assert_eq!(num, i + 1);
            assert!(num > 0);
            assert!(num <= 5);
        } else {
            panic!("Unable to parse key: {}", key);
        }
        assert_eq!(key.parse::<usize>().ok(), parse_usize(key));
    }
}

#[test]
fn test_keyboard_invalid_keys() {
    let invalid_keys = vec!["0", "a", "Enter", "Space", "ArrowUp"];

    for key in invalid_keys {
        let parse_result = parse_usize(key);
        if key == "0" {
            assert!(parse_result.is_some());
        } else {
            assert!(parse_result.is_none());
        }
        assert_eq!(key.parse::<usize>().ok(), parse_result);
    }
}

#[test]
fn test_large_paragraph_content() {
    let base_text = "This is a test paragraph.";
    let large_paragraph = base_text.repeat(1000);

    assert!(large_paragraph.len() > 10000);
    assert!(large_paragraph.starts_with(base_text));
    assert!(large_paragraph.ends_with(base_text));

    let lines = split_by_char(&large_paragraph, '\n');
    assert_eq!(lines.len(), 1);
    assert_eq!(paragraph_lines(&large_paragraph).len(), 1);
}

#[test]
fn test_choice_creation_and_serialization() {
    let choice = create_test_choice("Test option", "test_target", "goto");

    assert_eq!(choice.caption, "Test option");
    assert_eq!(choice.action.to, "test_target");
    assert_eq!(choice.action.type_, "goto");
    assert!(choice.action.key.is_none());
    assert!(choice.action.value.is_none());
}

#[test]
fn test_choice_with_complex_action_data() {
    let choice = create_test_choice_with_value(
        "Settings option",
        "settings_page",
        "set",
        Some("difficulty".to_string()),
        Some(JsonValue::Str("hard".to_string())),
    );

    assert_eq!(choice.caption, "Settings option");
    assert_eq!(choice.action.type_, "set");
    assert_eq!(choice.action.key, Some("difficulty".to_string()));
    assert!(choice.action.value.is_some());

    if let Some(JsonValue::Str(value)) = &choice.action.value {
        assert_eq!(value, "hard");
    } else {
        panic!("Expected string value");
    }
}

#[test]
fn test_goto_action_type() {
    let choice = create_test_choice("Jump to", "scene_1", "goto");
    assert_eq!(choice.action.type_, "goto");
    assert_eq!(choice.action.to, "scene_1");
}

#[test]
fn test_set_action_type() {
    let choice = create_test_choice_with_value(
        "Settings",
        "config",
        "set",
        Some("language".to_string()),
        Some(JsonValue::Str("zh-TW".to_string())),
    );
    assert_eq!(choice.action.type_, "set");
    assert!(choice.action.key.is_some());
    assert!(choice.action.value.is_some());
}

#[test]
fn test_add_action_type() {
    let choice = create_test_choice_with_value(
        "Add item",
        "inventory",
        "add",
        Some("item_id".to_string()),
        Some(JsonValue::Number("42".to_string())),
    );
    assert_eq!(choice.action.type_, "add");
    assert_eq!(choice.action.key, Some("item_id".to_string()));

    if let Some(JsonValue::Number(num)) = &choice.action.value {
        assert_eq!(num.parse::<u64>().ok(), Some(42));
    } else {
        panic!("Expected number value");
    }
}

#[test]
fn test_custom_action_type() {
    let choice = create_test_choice("Custom action", "custom_target", "custom_action");
    assert_eq!(choice.action.type_, "custom_action");
    assert_eq!(choice.action.to, "custom_target");
}

#[test]
fn test_empty_choice_array() {
    let choices: Vec<Choice> = vec![];
    assert_eq!(choices.len(), 0);
    assert!(choices.is_empty());
}

#[test]
fn test_single_choice_array() {
    let choices = vec![create_test_choice("Single option", "single", "goto")];
    assert_eq!(choices.len(), 1);
    assert_eq!(choices[0].caption, "Single option");
}

#[test]
fn test_multiple_choices_array() {
    let choices = vec![
        create_test_choice("Option one", "choice1", "goto"),
        create_test_choice("Option two", "choice2", "goto"),
        create_test_choice("Option three", "choice3", "goto"),
    ];

    assert_eq!(choices.len(), 3);
    for (i, choice) in choices.iter().enumerate() {
        assert_eq!(choice.caption, format!("Option {}", ["one", "two", "three"][i]));
        assert_eq!(choice.action.to, format!("choice{}", i + 1));
        assert_eq!(choice.action.type_, "goto");
    }
}

#[test]
fn test_choice_filtering_by_type() {
    let choices = vec![
        create_test_choice("Jump option", "scene1", "goto"),
        create_test_choice_with_value("Settings option", "config", "set", Some("key".to_string()), None),
        create_test_choice("Another jump", "scene2", "goto"),
        create_test_choice_with_value("Add option", "inventory", "add", Some("item".to_string()), None),
    ];

    let goto_choices: Vec<&Choice> = choices.iter().filter(|c| c.action.type_ == "goto").collect();
    assert_eq!(goto_choices.len(), 2);

    let set_choices: Vec<&Choice> = choices.iter().filter(|c| c.action.type_ == "set").collect();
    assert_eq!(set_choices.len(), 1);

    let add_choices: Vec<&Choice> = choices.iter().filter(|c| c.action.type_ == "add").collect();
    assert_eq!(add_choices.len(), 1);
}

#[test]
fn test_enabled_choices_matching() {
    let choices = vec![
        create_test_choice("Enabled option", "enabled", "goto"),
        create_test_choice("Disabled option", "disabled", "goto"),
        create_test_choice("Another enabled", "enabled2", "goto"),
    ];

    let enabled_choices = vec!["Enabled option".to_string(), "Another enabled".to_string()];

    for (i, choice) in choices.iter().enumerate() {
        let is_enabled = is_choice_enabled(&enabled_choices, &choice.caption, &vec![], i);
        match i {
            0 => assert!(is_enabled, "First option should be enabled"),
            1 => assert!(!is_enabled, "Second option should be disabled"),
            2 => assert!(is_enabled, "Third option should be enabled"),
            _ => panic!("Unexpected option index"),
        }
    }
}

#[test]
fn test_disabled_by_countdown_logic() {
    let choices = vec![
        create_test_choice("Normal option", "normal", "goto"),
        create_test_choice("Countdown disabled option", "countdown", "goto"),
    ];

    let enabled_choices = vec!["normal".to_string(), "countdown".to_string()];
    let disabled_by_countdown = vec![false, true];

    let countdowns = vec![10u32, 0u32];
    let max_times = vec![30u32, 30u32];

    for (i, &countdown) in countdowns.iter().enumerate() {
        let is_expired = countdown == 0 && max_times[i] > 0;
        if i == 0 {
            assert!(!is_expired, "First option should not be expired");
        } else {
            assert!(is_expired, "Second option should be expired");
        }
    }
    assert!(is_choice_enabled(&enabled_choices, &choices[0].action.to, &disabled_by_countdown, 0));
    assert!(!is_choice_enabled(&enabled_choices, &choices[1].action.to, &disabled_by_countdown, 1));
}

#[test]
fn test_all_choices_disabled_scenario() {
    let choices = vec![
        create_test_choice("Disabled option 1", "disabled1", "goto"),
        create_test_choice("Disabled option 2", "disabled2", "goto"),
        create_test_choice("Disabled option 3", "disabled3", "goto"),
    ];

    let choice_count = 3;
    let progress_started = vec![false; choice_count];
    let disabled_by_countdown = vec![false; choice_count];

    let available_count = progress_started
        .iter()
        .zip(disabled_by_countdown.iter())
        .filter(|(&started, &disabled)| started && !disabled)
        .count();

    assert_eq!(available_count, 0);
    let none_enabled: Vec<String> = vec![];
    for (i, c) in choices.iter().enumerate() {
        assert!(!is_choice_enabled(&none_enabled, &c.action.to, &disabled_by_countdown, i));
    }
}

#[test]
fn test_countdown_array_initialization() {
    let choice_count = 3;
    let mut countdowns = vec![0u32; choice_count];
    let mut max_times = vec![0u32; choice_count];
    let progress_started = vec![false; choice_count];
    let disabled_by_countdown = vec![false; choice_count];

    assert_eq!(countdowns.len(), 3);
    assert_eq!(max_times.len(), 3);
    assert_eq!(progress_started.len(), 3);
    assert_eq!(disabled_by_countdown.len(), 3);

    for i in 0..choice_count {
        assert_eq!(value_or_zero(&countdowns, i), 0);
        assert_eq!(value_or_zero(&max_times, i), 0);
        assert_eq!(progress_started[i], false);
        assert_eq!(disabled_by_countdown[i], false);
    }

    countdowns[0] = 30;
    countdowns[1] = 60;
    countdowns[2] = 0;

    max_times[0] = 30;
    max_times[1] = 60;
    max_times[2] = 0;

    assert_eq!(value_or_zero(&countdowns, 0), 30);
    assert_eq!(value_or_zero(&countdowns, 1), 60);
    assert_eq!(value_or_zero(&countdowns, 2), 0);
    assert_eq!(value_or_zero(&countdowns, 3), 0);
}

#[test]
fn test_countdown_time_setting() {
    let choices = vec![
        create_test_choice("First option", "choice1", "goto"),
        create_test_choice("Second option", "choice2", "goto"),
    ];
    let mut countdowns = vec![0u32; choices.len()];
    let mut max_times = vec![0u32; choices.len()];
    let countdown_time = 5;
    countdowns[0] = countdown_time;
    countdowns[1] = countdown_time;
    max_times[0] = countdown_time;
    max_times[1] = countdown_time;
    assert_eq!(countdowns[0], countdown_time);
    assert_eq!(countdowns[1], countdown_time);
    assert_eq!(max_times[0], countdown_time);
    assert_eq!(max_times[1], countdown_time);
    assert_eq!(value_or_zero(&countdowns, 1), countdown_time);
    assert_eq!(value_or_zero(&max_times, 2), 0);
}

#[test]
fn test_countdown_expiration_logic() {
    let mut disabled = vec![false, false];
    let countdowns = vec![5u32, 0u32];
    expire_countdown(&mut disabled, 0, countdowns[0]);
    assert_eq!(disabled, vec![true, false]);
    expire_countdown(&mut disabled, 1, countdowns[1]);
    assert_eq!(disabled, vec![true, false]);
    expire_countdown(&mut disabled, 0, countdowns[0]);
    assert_eq!(disabled, vec![true, false]);
}

#[test]
fn test_keyboard_choice_index_calculation() {
    let choices = vec![
        create_test_choice("First option", "choice1", "goto"),
        create_test_choice("Second option", "choice2", "goto"),
        create_test_choice("Third option", "choice3", "goto"),
    ];
    let enabled = vec!["choice1".to_string(), "choice2".to_string(), "choice3".to_string()];

    for key_num in 1..=3usize {
        let key = key_num.to_string();
        assert_eq!(keyboard_action(&key, &choices, &enabled, &vec![]), KeyAction::Choose(key_num - 1));
    }

    for key_num in 4..=9usize {
        let key = key_num.to_string();
        assert_eq!(keyboard_action(&key, &choices, &enabled, &vec![]), KeyAction::Consume);
    }
}

#[test]
fn keyboard_respects_enabled_and_countdown() {
    let choices = vec![
        create_test_choice("A", "a", "goto"),
        create_test_choice("B", "b", "goto"),
    ];
    let enabled = vec!["a".to_string()];
    assert_eq!(keyboard_action("1", &choices, &enabled, &vec![false, false]), KeyAction::Choose(0));
    assert_eq!(keyboard_action("2", &choices, &enabled, &vec![false, false]), KeyAction::Consume);
    assert_eq!(keyboard_action("1", &choices, &enabled, &vec![true]), KeyAction::Consume);
    assert_eq!(keyboard_action("0", &choices, &enabled, &vec![]), KeyAction::Consume);
    assert_eq!(keyboard_action("+1", &choices, &enabled, &vec![]), KeyAction::Choose(0));
    assert_eq!(keyboard_action("Enter", &choices, &enabled, &vec![]), KeyAction::Ignore);
    assert_eq!(keyboard_action("", &choices, &enabled, &vec![]), KeyAction::Ignore);
}

#[test]
fn test_large_choice_array_creation() {
    let mut choices = Vec::new();
    for i in 0..1000 {
        choices.push(create_test_choice(&format!("Choice {}", i), &format!("target_{}", i), "goto"));
    }
    let repeated_text = "Single line text".repeat(100);
    let lines = paragraph_lines(&repeated_text);
    assert_eq!(lines.len(), 1);
    assert!(lines[0].len() > 1000);

    let enabled_choices: Vec<bool> = (0..1000).map(|i| i % 2 == 0).collect();
    assert_eq!(choices.len(), 1000);
    assert_eq!(enabled_choices.iter().filter(|&&x| x).count(), 500);
}

#[test]
fn test_choice_search_performance() {
    let mut choices = Vec::new();
    let mut enabled_choices = Vec::new();
    for i in 1..=2000 {
        let caption = format!("Option {}", i);
        choices.push(create_test_choice(&caption, &format!("target_{}", i), "goto"));
        if i % 2 == 0 {
            enabled_choices.push(caption);
        }
    }
    assert_eq!(choices.len(), 2000);
    assert_eq!(enabled_choices.len(), 1000);
    let mut enabled_count = 0;
    for (i, choice) in choices.iter().enumerate() {
        if is_choice_enabled(&enabled_choices, &choice.caption, &vec![], i) {
            enabled_count += 1;
        }
    }
    assert_eq!(enabled_count, 1000);
}

#[test]
fn test_empty_string_values() {
    let choice = Choice {
        caption: "".into(),
        action: Action {
            type_: "".into(),
            key: Some("".to_string()),
            value: Some(JsonValue::Str("".to_string())),
            to: "".into(),
        },
    };

    assert_eq!(choice.caption, "");
    assert_eq!(choice.action.type_, "");
    assert_eq!(choice.action.to, "");
    assert!(choice.action.key.is_some());
    assert!(choice.action.value.is_some());
}

#[test]
fn test_unicode_content() {
    let choice = create_test_choice("🎮 Game option 🎯", "unicode_target_test", "goto");
    assert_eq!(choice.caption, "🎮 Game option 🎯");
    assert_eq!(choice.action.to, "unicode_target_test");
    assert!(choice.caption.contains("🎮"));
    assert!(choice.caption.contains("🎯"));
}

#[test]
fn test_special_characters() {
    let choice = create_test_choice("Special chars: !@#$%^&*()_+-=[]{}|;':\",./<>?", "special_chars", "goto");
    assert!(choice.caption.contains("!@#$%^&*()"));
    assert!(choice.caption.contains("[]{}|"));
    assert!(choice.caption.contains("\",./<>?"));
}

#[test]
fn test_very_long_strings() {
    let long_caption = "Very long option title".repeat(100);
    let long_target = "very_long_target_".repeat(50);
    let choice = create_test_choice(&long_caption, &long_target, "goto");
    assert!(choice.caption.len() > 1000);
    assert!(choice.action.to.len() > 500);
    assert!(choice.caption.starts_with("Very long option title"));
    assert!(choice.action.to.starts_with("very_long_target_"));
}

#[test]
fn test_null_and_none_values() {
    let choice = Choice {
        caption: "Test None values".into(),
        action: Action { type_: "test".into(), key: None, value: Some(JsonValue::Null), to: "test_target".into() },
    };
    assert!(choice.action.key.is_none());
    assert!(choice.action.value.is_some());
    if let Some(JsonValue::Null) = choice.action.value {
    } else {
        panic!("Expected null value");
    }
}

#[test]
fn paragraph_lines_drop_blank_lines() {
    let lines = paragraph_lines("first\n\n   \nsecond\t\n\nthird");
    assert_eq!(lines, vec!["first".to_string(), "second\t".to_string(), "third".to_string()]);
    assert!(paragraph_lines("").is_empty());
    assert!(paragraph_lines("\n \n").is_empty());
}

#[test]
fn page_classes_and_flags() {
    assert!(choice_state_class(true).starts_with("cursor-pointer"));
    assert!(choice_state_class(false).starts_with("opacity-50"));
    assert_eq!(choice_selected_class(true), "text-gray-100 dark:text-gray-300");
    assert_eq!(choice_selected_class(false), "");
    assert!(overlay_hidden(false, false));
    assert!(overlay_hidden(true, true));
    assert!(!overlay_hidden(true, false));
    assert_eq!(overlay_visibility_class(true, false), "opacity-100 transform translate-y-0");
    assert_eq!(overlay_visibility_class(true, true), "opacity-0 pointer-events-none transform translate-y-2");
    assert_eq!(overlay_prompt_key(true), "continue_reading");
    assert_eq!(overlay_prompt_key(false), "start_reading");
    assert!(should_show_chapter_title(false, "Chapter 1"));
    assert!(!should_show_chapter_title(true, "Chapter 1"));
    assert!(!should_show_chapter_title(false, ""));
    assert!(should_show_choices(true, true));
    assert!(should_show_choices(false, false));
    assert!(!should_show_choices(false, true));
    assert_eq!(animation_play_state(true), "paused");
    assert_eq!(animation_play_state(false), "running");
}

#[test]
fn choice_from_stored_choice() {
    let simple = Choice::from_paragraph_choice(ParagraphChoice::Simple("p2".to_string()));
    assert_eq!(simple.caption, "");
    assert_eq!(simple.action.type_, "goto");
    assert_eq!(simple.action.to, "p2");
    assert!(simple.action.key.is_none());
    assert!(simple.action.value.is_none());

    let complex = Choice::from_paragraph_choice(ParagraphChoice::Complex {
        to: "p3".to_string(),
        type_: "set".to_string(),
        key: Some("k".to_string()),
        value: Some(JsonValue::Bool(true)),
        same_page: Some(true),
        time_limit: Some(10),
    });
    assert_eq!(complex.action.type_, "set");
    assert_eq!(complex.action.to, "p3");
    assert_eq!(complex.action.key, Some("k".to_string()));
    assert_eq!(complex.action.value, Some(JsonValue::Bool(true)));
    let copy = complex.clone();
    assert_eq!(copy, complex);
}

#[test]
fn test_choice_conversion_edge_cases() {
    let edge_case_paragraph = Paragraph {
        id: "edge_case".to_string(),
        chapter_id: "edge".to_string(),
        texts: vec![Text {
            lang: "zh-TW".to_string(),
            paragraphs: "Edge case test".to_string(),
            choices: vec![],
        }],
        choices: vec![
            StoredChoice::Simple(vec![]),
            StoredChoice::Complex {
                to: vec!["target1".to_string(), "target2".to_string()],
                type_: "multi_goto".to_string(),
                key: None,
                value: None,
                same_page: None,
                time_limit: None,
                timeout_to: None,
            },
        ],
    };

    let choices = paragraph_to_choices(&edge_case_paragraph, "zh-TW");

    assert_eq!(choices.len(), 2);
    assert_eq!(choices[0].caption, "Option 1");
    assert_eq!(choices[1].caption, "Option 2");
    assert_eq!(choices[0].action.to, "");
    assert_eq!(choices[1].action.to, "target1");
    assert_eq!(choices[1].action.type_, "multi_goto");
}

fn two_language_paragraph() -> Paragraph {
    Paragraph {
        id: "p".to_string(),
        chapter_id: "c".to_string(),
        texts: vec![
            Text {
                lang: "zh-TW".to_string(),
                paragraphs: "文字".to_string(),
                choices: vec!["左".to_string()],
            },
            Text {
                lang: "en-US".to_string(),
                paragraphs: "Text".to_string(),
                choices: vec!["Left".to_string(), "Right".to_string()],
            },
        ],
        choices: vec![
            StoredChoice::SimpleOld("a".to_string()),
            StoredChoice::ComplexOld {
                to: "b".to_string(),
                type_: "set".to_string(),
                key: Some("flag".to_string()),
                value: Some(JsonValue::Bool(true)),
                same_page: Some(true),
                time_limit: Some(5),
                timeout_to: None,
            },
            StoredChoice::Simple(vec!["c".to_string(), "d".to_string()]),
        ],
    }
}

#[test]
fn paragraph_choices_take_captions_of_the_requested_language() {
    let choices = paragraph_to_choices(&two_language_paragraph(), "en-US");
    assert_eq!(choices.len(), 3);
    assert_eq!(choices[0].caption, "Left");
    assert_eq!(choices[1].caption, "Right");
    assert_eq!(choices[2].caption, "Option 3");
    assert_eq!(choices[0].action.type_, "goto");
    assert_eq!(choices[0].action.to, "a");
    assert_eq!(choices[1].action.type_, "set");
    assert_eq!(choices[1].action.key, Some("flag".to_string()));
    assert_eq!(choices[1].action.value, Some(JsonValue::Bool(true)));
    assert_eq!(choices[1].action.to, "b");
    assert_eq!(choices[2].action.to, "c");
}

#[test]
fn paragraph_choices_fall_back_to_the_first_text() {
    let choices = paragraph_to_choices(&two_language_paragraph(), "fr");
    assert_eq!(choices[0].caption, "左");
    assert_eq!(choices[1].caption, "Option 2");
    assert_eq!(choices[2].caption, "Option 3");
}

#[test]
fn decimal_string_writes_numbers_as_format_does() {
    for n in [0usize, 7, 9, 10, 11, 99, 100, 1234, 1_000_000, usize::MAX] {
        assert_eq!(decimal_string(n), format!("{}", n));
    }
}

#[test]
fn paragraph_text_takes_the_requested_language() {
    let p = two_language_paragraph();
    assert_eq!(get_paragraph_text(&p, "en-US"), "Text");
    assert_eq!(get_paragraph_text(&p, "zh-TW"), "文字");
}

#[test]
fn paragraph_text_serves_zh_tw_readers_from_plain_zh() {
    let p = Paragraph {
        id: "p".to_string(),
        chapter_id: "c".to_string(),
        texts: vec![
            Text { lang: "en-US".to_string(), paragraphs: "Text".to_string(), choices: vec![] },
            Text { lang: "zh".to_string(), paragraphs: "中文".to_string(), choices: vec![] },
        ],
        choices: vec![],
    };
    assert_eq!(get_paragraph_text(&p, "zh-TW"), "中文");
    assert_eq!(get_paragraph_text(&p, "zh-CN"), "Text");
}

#[test]
fn paragraph_text_without_texts_is_empty() {
    let p = Paragraph { id: "p".to_string(), chapter_id: "c".to_string(), texts: vec![], choices: vec![] };
    assert_eq!(get_paragraph_text(&p, "en-US"), "");
}
