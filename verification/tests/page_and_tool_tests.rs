use ifecaro::address::{restore_plan, staging_prefix, str_starts_with, RestorePlan};
use ifecaro::dropdown::{
    dropdown_button_class, dropdown_position_class, dropdown_state_class, dropdown_width_class,
    DEFAULT_DROPDOWN_BUTTON, DEFAULT_DROPDOWN_POSITION,
};
use ifecaro::layout::{handle_choice_selection, KeyboardState, LayoutKey};
use ifecaro::settings::{
    settings_animation_class, settings_position_class, should_show_clear, theme_button_state_class,
    theme_layout_class, SettingsContext,
};
use ifecaro::story_content::{Action, Choice};
use ifecaro::tooling::{
    benchmark_suite, category_suite, full_suite, internal_suite, main_menu_choice,
    parse_external_command, parse_internal_command, quick_suite, release_command,
    replace_all_str, replace_first_str, should_skip_tailwind, split_whitespace, ssh_key_file,
    test_menu_choice, test_runner_args, with_skip_tailwind, MainMenuChoice, TestCategory,
    TestMenuChoice, TestMode, TestTally,
};

fn s(x: &str) -> String {
    x.to_string()
}

fn choice(to: &str) -> Choice {
    Choice { caption: format!("to {}", to), action: Action { type_: s("goto"), key: None, value: None, to: s(to) } }
}

#[test]
fn test_dropdown_default_max_width() {
    assert!(dropdown_width_class(None).contains("max-w-[60vw]"));
    assert_eq!(dropdown_width_class(Some(s("w-64"))), "w-64");
}

#[test]
fn dropdown_classes() {
    assert_eq!(dropdown_position_class(None), DEFAULT_DROPDOWN_POSITION);
    assert_eq!(dropdown_button_class(None, false), DEFAULT_DROPDOWN_BUTTON);
    assert_eq!(dropdown_button_class(Some(s("btn")), true), "btn opacity-50 cursor-not-allowed");
    assert_eq!(dropdown_state_class(true, false), "translate-y-0 opacity-100");
    assert_eq!(dropdown_state_class(false, true), "-translate-y-2 opacity-0 pointer-events-none");
    assert_eq!(dropdown_state_class(false, false), "translate-y-2 sm:-translate-y-2 opacity-0 pointer-events-none");
}

#[test]
fn keyboard_navigation() {
    let mut k = KeyboardState::default();
    k.choices = vec![choice("a"), choice("b"), choice("c")];
    k.enabled_choices = vec![s("a"), s("c")];
    let up = k.handle_key(&LayoutKey::ArrowUp);
    assert_eq!(k.selected_index, 0);
    assert!(up.stop_propagation && up.target.is_none());
    k.handle_key(&LayoutKey::ArrowDown);
    k.handle_key(&LayoutKey::ArrowDown);
    k.handle_key(&LayoutKey::ArrowDown);
    assert_eq!(k.selected_index, 2);
    let enter = k.handle_key(&LayoutKey::Enter);
    assert_eq!(enter.target, Some(s("c")));
    let two = k.handle_key(&LayoutKey::Character(s("2")));
    assert_eq!(two.target, None);
    assert_eq!(k.selected_index, 2);
    assert!(two.stop_propagation);
    let one = k.handle_key(&LayoutKey::Character(s("1")));
    assert_eq!(one.target, Some(s("a")));
    assert_eq!(k.selected_index, 0);
    let letter = k.handle_key(&LayoutKey::Character(s("x")));
    assert!(letter.stop_propagation && letter.target.is_none());
    let other = k.handle_key(&LayoutKey::Other);
    assert!(!other.stop_propagation);
    k.selected_index = -1;
    assert_eq!(k.handle_key(&LayoutKey::Enter).target, None);
    assert_eq!(handle_choice_selection(&k, 2), Some(s("c")));
    assert_eq!(handle_choice_selection(&k, 1), None);
    assert_eq!(handle_choice_selection(&k, 7), None);
}

#[test]
fn empty_keyboard_state() {
    let mut k = KeyboardState::default();
    k.handle_key(&LayoutKey::ArrowDown);
    assert_eq!(k.selected_index, 0);
    assert_eq!(k.handle_key(&LayoutKey::Enter).target, None);
}

#[test]
fn page_address_rules() {
    assert_eq!(staging_prefix("/staging"), Some(s("staging")));
    assert_eq!(staging_prefix("/staging/zh-TW"), Some(s("staging")));
    assert_eq!(staging_prefix("/stagingx"), None);
    assert_eq!(staging_prefix("/zh-TW"), None);
    assert!(str_starts_with("abc", ""));
    assert!(!str_starts_with("ab", "abc"));
    assert!(matches!(restore_plan("", "", "/p", "?x", "#y"), RestorePlan::Nothing));
    assert!(matches!(restore_plan("?a=1", "#h", "/p", "?a=1", "#h"), RestorePlan::Forget));
    match restore_plan("?a=1", "#h", "/zh-TW", "", "") {
        RestorePlan::Replace(url) => assert_eq!(url, "/zh-TW?a=1#h"),
        _ => panic!("expected a replacement"),
    }
    match restore_plan("", "#h", "/p", "", "") {
        RestorePlan::Replace(url) => assert_eq!(url, "/p#h"),
        _ => panic!("expected a replacement"),
    }
}

#[test]
fn settings_values() {
    let mut c = SettingsContext::new();
    assert!(!c.reader_mode());
    assert_eq!(c.theme_mode(), "auto");
    assert!(c.toggle_reader_mode());
    assert!(c.reader_mode());
    assert!(!c.toggle_reader_mode());
    assert!(!c.reader_mode());
    c.set(s("theme_mode"), s("paper"));
    assert_eq!(c.theme_mode(), "paper");
    c.set(s("reader_mode"), s("yes"));
    assert!(!c.reader_mode());
    assert_eq!(settings_animation_class(true, false), "translate-y-0 opacity-100");
    assert_eq!(settings_animation_class(false, true), "-translate-y-2 opacity-0 pointer-events-none");
    assert_eq!(settings_animation_class(false, false), "translate-y-2 opacity-0 pointer-events-none");
    assert!(settings_position_class(true).starts_with("absolute"));
    assert!(settings_position_class(false).starts_with("fixed"));
    assert_eq!(theme_layout_class(true), "grid grid-cols-2 gap-2");
    assert!(should_show_clear(false, true));
    assert!(!should_show_clear(false, false));
    assert!(theme_button_state_class(true).starts_with("border-blue-500"));
}

#[test]
fn deployment_menus() {
    assert_eq!(main_menu_choice(" 1\n"), MainMenuChoice::Check);
    assert_eq!(main_menu_choice("5"), MainMenuChoice::Dev);
    assert_eq!(main_menu_choice("7\r\n"), MainMenuChoice::Remote);
    assert_eq!(main_menu_choice("0"), MainMenuChoice::Exit);
    assert_eq!(main_menu_choice("8"), MainMenuChoice::Invalid);
    assert_eq!(main_menu_choice(""), MainMenuChoice::Invalid);
    assert_eq!(test_menu_choice("2\n"), TestMenuChoice::Run(TestMode::Quick));
    assert_eq!(test_menu_choice("0"), TestMenuChoice::Back);
    assert_eq!(test_menu_choice("x"), TestMenuChoice::Invalid);
    assert_eq!(test_runner_args(None), vec!["run", "--release", "--bin", "test-runner", "full"]);
    assert_eq!(test_runner_args(Some(TestMode::Internal))[4], "internal");
}

#[test]
fn ssh_key_location() {
    assert_eq!(ssh_key_file(Some("/k/id"), Some("/x"), Some("y")), "/k/id");
    assert_eq!(ssh_key_file(Some("  "), None, None), "/root/.ssh/id_rsa");
    assert_eq!(ssh_key_file(None, Some("/home/me/.ssh"), None), "/home/me/.ssh/id_rsa");
    assert_eq!(ssh_key_file(None, None, Some("deploy")), "/root/.ssh/deploy");
}

#[test]
fn string_replacement() {
    assert_eq!(replace_first_str("cargo test --lib; cargo test", "cargo test", "X"), "X --lib; cargo test");
    assert_eq!(replace_first_str("abc", "zz", "X"), "abc");
    assert_eq!(replace_all_str("aaa", "aa", "b"), "ba");
    assert_eq!(replace_all_str("xyxyx", "xy", ""), "x");
    assert_eq!(replace_all_str("", "a", "b"), "");
    assert_eq!(replace_all_str("abc", "", "-"), "-a-b-c-");
    assert_eq!(replace_all_str("", "", "x"), "x");
    for (h, p, r) in [("one two one", "one", "1"), ("ababab", "aba", "-"), ("abc", "c", "cc"), ("日本", "", "|"), ("ab", "", "")] {
        assert_eq!(replace_all_str(h, p, r), h.replace(p, r));
        assert_eq!(replace_first_str(h, p, r), h.replacen(p, r, 1));
    }
}

#[test]
fn words_of_a_command() {
    assert_eq!(split_whitespace("  cargo   test\t--lib \n"), vec![s("cargo"), s("test"), s("--lib")]);
    assert!(split_whitespace(" \t ").is_empty());
    for t in ["a b", "  a\u{3000}b  c", "", "x"] {
        let ours = split_whitespace(t);
        let std: Vec<String> = t.split_whitespace().map(String::from).collect();
        assert_eq!(ours, std);
    }
}

#[test]
fn test_runner_commands() {
    assert_eq!(release_command("cargo check"), "cargo check --release");
    assert_eq!(release_command("docker compose exec app cargo test --lib"), "docker compose exec app cargo test --release --lib");
    assert_eq!(release_command("cargo test --release x"), "cargo test --release x");
    assert_eq!(release_command("cargo bench"), "cargo bench");
    assert!(should_skip_tailwind("cargo test"));
    assert!(should_skip_tailwind("cargo check"));
    assert!(!should_skip_tailwind("cargo bench"));
    assert_eq!(
        parse_internal_command("docker compose exec app cargo test --lib"),
        (s("cargo"), vec![s("test"), s("--lib")])
    );
    assert_eq!(parse_external_command("docker compose exec app cargo check"), (s("docker"), vec![s("compose"), s("exec"), s("app"), s("cargo"), s("check")]));
    assert_eq!(parse_external_command("   "), (s("echo"), vec![s("No command")]));
    assert_eq!(
        with_skip_tailwind(&vec![s("compose"), s("exec"), s("app"), s("cargo")]),
        vec![s("compose"), s("exec"), s("-e"), s("SKIP_TAILWIND=1"), s("app"), s("cargo")]
    );
}

#[test]
fn test_suites() {
    let full = full_suite(false);
    assert_eq!(full.len(), 10);
    assert_eq!(full[0].name, "Compile Check");
    assert_eq!(full[0].command, "docker compose exec app cargo check");
    assert_eq!(full[9].command, "docker compose exec app wasm-pack test --headless --chrome --release");
    let inside = full_suite(true);
    assert_eq!(inside[1].command, "cargo test --lib");
    assert_eq!(quick_suite(true).len(), 5);
    assert_eq!(benchmark_suite(false)[1].command, "docker compose exec app cargo bench");
    let internal = internal_suite();
    assert_eq!(internal.len(), 9);
    assert_eq!(internal[0].name, internal[0].command);
    let ui = category_suite(TestCategory::UI, true);
    assert_eq!(ui.len(), 1);
    assert_eq!(ui[0].command, "cargo test --lib components::story_content_tests");
    let mut tally = TestTally::new();
    tally.record(true);
    tally.record(false);
    tally.record(true);
    assert_eq!((tally.total, tally.passed, tally.failed), (3, 2, 1));
    assert_eq!(tally.exit_code(), 1);
    assert_eq!(TestTally::new().exit_code(), 0);
}

#[test]
fn highlight_stays_on_a_choice_for_every_key() {
    let keys = vec![
        LayoutKey::ArrowUp,
        LayoutKey::ArrowDown,
        LayoutKey::Enter,
        LayoutKey::Other,
        LayoutKey::Character(s("1")),
        LayoutKey::Character(s("3")),
        LayoutKey::Character(s("9")),
    ];
    for start in 0..3 {
        for key in &keys {
            let mut k = KeyboardState::default();
            k.choices = vec![choice("a"), choice("b"), choice("c")];
            k.enabled_choices = vec![s("a"), s("b"), s("c")];
            k.selected_index = start;
            k.handle_key(key);
            assert!(k.selected_index >= 0 && k.selected_index < 3);
        }
    }
    let mut empty = KeyboardState::default();
    empty.handle_key(&LayoutKey::ArrowDown);
    empty.handle_key(&LayoutKey::ArrowUp);
    assert_eq!(empty.selected_index, 0);
}

#[test]
fn tally_counts_each_test_once() {
    let mut t = TestTally::new();
    for passed in [true, false, true, true, false] {
        t.record(passed);
        assert_eq!(t.total, t.passed + t.failed);
    }
    assert_eq!((t.total, t.passed, t.failed), (5, 3, 2));
    assert_eq!(t.exit_code(), 1);
}
