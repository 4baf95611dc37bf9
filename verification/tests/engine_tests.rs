use ifecaro::choices_reducer::{Action as EditorAction, Choice as EditorChoice, ChoicesState};
use ifecaro::impacts::{
    apply_impacts_preview, apply_numeric_op, clamp_0_100, clamp_relationship, AttributeField,
    CharacterAttributes, CharacterStateSnapshot, Impact, ImpactList, NumericOp, RelationshipField,
    RelationshipMetrics, RelationshipState,
};
use ifecaro::json::{json_get, set_flag_path, JsonValue};
use ifecaro::keyed::{PairMap, StrMap};
use ifecaro::multi_attr_check::{
    actor_attrs_from_snapshot, apply_actor_attrs_to_character, character_attributes_to_actor_attrs,
    clamp_personality, classify_outcome_tier, read_attr_or_current, roll_dice_pool,
    store_actor_attrs, EventOutcomeTier, InfluenceKind, MultiAttrCheckResult, MultiAttrRollLog,
    SupportDiceSpec,
};
use ifecaro::story_runtime::{
    load_text_by_key, pick_outcome_with_fallback, resolve_check_outcome, resolve_node_text,
    tier_to_key, GameRuntimeState, NodeOutcome, NodeResolveResult,
};
use ifecaro::text::{
    contains_str, is_blank, is_whitespace_char, parse_u32, parse_usize, split_by_char,
    text_matches_query, trim_string,
};

fn s(x: &str) -> String {
    x.to_string()
}

fn percent(current: i32, value: i32) -> i32 {
    ((current as f32) * (value as f32 / 100.0)).round() as i32
}

#[test]
fn whitespace_matches_std_for_every_char() {
    for u in 0u32..=0x10FFFF {
        if let Some(c) = char::from_u32(u) {
            assert_eq!(is_whitespace_char(c), c.is_whitespace(), "{:?}", c);
        }
    }
}

#[test]
fn text_helpers_match_std() {
    for t in ["", "  a b  ", "\u{3000}x\u{2028}", "\t\n", "abc"] {
        assert_eq!(trim_string(t), t.trim());
        assert_eq!(is_blank(t), t.trim().is_empty());
        let ours = split_by_char(t, ' ');
        let std: Vec<String> = t.split(' ').map(String::from).collect();
        assert_eq!(ours, std);
    }
    for t in ["0", "42", "+7", "-1", "4294967295", "4294967296", "", "1a"] {
        assert_eq!(parse_u32(t), t.parse::<u32>().ok());
        assert_eq!(parse_usize(t), t.parse::<usize>().ok());
    }
    assert!(contains_str("hello world", "o w"));
    assert!(contains_str("abc", ""));
    assert!(!contains_str("abc", "abcd"));
    assert!(text_matches_query("ÀB", "àb"));
    assert!(!text_matches_query("AB", "àb"));
    assert!(text_matches_query("The FOREST", "forest"));
    assert!(!text_matches_query("sea", "forest"));
}

#[test]
fn clamping() {
    assert_eq!(clamp_0_100(-5), 0);
    assert_eq!(clamp_0_100(55), 55);
    assert_eq!(clamp_0_100(101), 100);
    assert_eq!(clamp_relationship(-150), -100);
    assert_eq!(clamp_relationship(150), 100);
    assert_eq!(clamp_relationship(-3), -3);
    assert_eq!(clamp_personality(120), 100);
    assert_eq!(clamp_personality(-1), 0);
}

#[test]
fn numeric_operations() {
    assert_eq!(apply_numeric_op(50, &NumericOp::Add, 30, 0, 100, &percent), 80);
    assert_eq!(apply_numeric_op(90, &NumericOp::Add, 30, 0, 100, &percent), 100);
    assert_eq!(apply_numeric_op(i32::MAX, &NumericOp::Add, i32::MAX, 0, 100, &percent), 100);
    assert_eq!(apply_numeric_op(i32::MIN, &NumericOp::Add, -1, -100, 100, &percent), -100);
    assert_eq!(apply_numeric_op(50, &NumericOp::SetTo, -20, -100, 100, &percent), -20);
    assert_eq!(apply_numeric_op(50, &NumericOp::Scale, 150, 0, 100, &percent), 75);
    assert_eq!(apply_numeric_op(80, &NumericOp::Scale, 200, 0, 100, &percent), 100);
    assert_eq!(apply_numeric_op(-40, &NumericOp::Scale, 50, -100, 100, &percent), -20);
}

fn attrs_with(morality: i32) -> CharacterAttributes {
    let mut a = CharacterAttributes::new_default();
    a.set(AttributeField::Morality, morality);
    a
}

#[test]
fn impact_preview_applies_in_order() {
    let mut chars: StrMap<CharacterAttributes> = StrMap::new();
    chars.insert(s("hero"), attrs_with(50));
    let mut rels: PairMap<RelationshipMetrics> = PairMap::new();
    rels.insert((s("hero"), s("ally")), RelationshipMetrics::default());
    let impacts = vec![
        Impact::CharacterAttribute { character_id: s("hero"), field: AttributeField::Morality, op: NumericOp::Add, value: 30 },
        Impact::CharacterAttribute { character_id: s("hero"), field: AttributeField::Morality, op: NumericOp::Add, value: 30 },
        Impact::CharacterAttribute { character_id: s("newbie"), field: AttributeField::Courage, op: NumericOp::SetTo, value: 40 },
        Impact::Relationship { from_id: s("hero"), to_id: s("ally"), field: RelationshipField::Trust, op: NumericOp::Add, value: -150 },
        Impact::Relationship { from_id: s("a"), to_id: s("b"), field: RelationshipField::Fear, op: NumericOp::SetTo, value: 12 },
        Impact::Flag { character_id: s("hero"), path: vec![s("saved_the_boy")], value: JsonValue::Bool(true) },
    ];
    let out = apply_impacts_preview(&chars, &rels, &impacts, &percent);
    let hero = out.characters.get("hero").unwrap();
    assert_eq!(hero.get(AttributeField::Morality), 100);
    assert_eq!(out.characters.get("newbie").unwrap().get(AttributeField::Courage), 40);
    assert_eq!(out.characters.get("newbie").unwrap().get(AttributeField::Morality), 0);
    assert_eq!(out.relationships.get("hero", "ally").unwrap().get(RelationshipField::Trust), -100);
    assert_eq!(out.relationships.get("a", "b").unwrap().get(RelationshipField::Fear), 12);
    assert_eq!(json_get(&hero.traits_flags, "saved_the_boy"), Some(&JsonValue::Bool(true)));
    assert_eq!(chars.get("hero").unwrap().get(AttributeField::Morality), 50);
}

#[test]
fn no_impacts_change_nothing() {
    let mut chars: StrMap<CharacterAttributes> = StrMap::new();
    chars.insert(s("hero"), attrs_with(10));
    let rels: PairMap<RelationshipMetrics> = PairMap::new();
    let out = apply_impacts_preview(&chars, &rels, &vec![], &percent);
    assert_eq!(out.characters.entries.len(), 1);
    assert_eq!(out.characters.get("hero").unwrap().get(AttributeField::Morality), 10);
    assert!(out.relationships.entries.is_empty());
}

#[test]
fn snapshot_round_trip_and_impacts() {
    let mut chars: StrMap<CharacterAttributes> = StrMap::new();
    chars.insert(s("hero"), attrs_with(20));
    let snapshot = CharacterStateSnapshot {
        characters: chars,
        relationships: vec![
            RelationshipState { from_id: s("a"), to_id: s("b"), metrics: RelationshipMetrics::default() },
        ],
    };
    let preview = snapshot.to_preview_state();
    assert_eq!(preview.relationships.entries.len(), 1);
    let back = CharacterStateSnapshot::from_preview_state(preview);
    assert_eq!(back.relationships.len(), 1);
    assert_eq!(back.relationships[0].from_id, "a");
    let after = snapshot.apply_impacts(
        &vec![Impact::Relationship { from_id: s("a"), to_id: s("b"), field: RelationshipField::Affinity, op: NumericOp::Add, value: 5 }],
        &percent,
    );
    assert_eq!(after.relationships[0].metrics.affinity, 5);
    assert_eq!(after.characters.get("hero").unwrap().get(AttributeField::Morality), 20);
}

#[test]
fn flag_paths_build_nested_objects() {
    let mut root = JsonValue::Object(vec![]);
    set_flag_path(&mut root, &vec![s("quest"), s("stage")], JsonValue::Number(s("2")));
    let quest = json_get(&root, "quest").unwrap();
    assert_eq!(json_get(quest, "stage"), Some(&JsonValue::Number(s("2"))));
    set_flag_path(&mut root, &vec![s("quest"), s("done")], JsonValue::Bool(false));
    let quest = json_get(&root, "quest").unwrap();
    assert_eq!(json_get(quest, "stage"), Some(&JsonValue::Number(s("2"))));
    assert_eq!(json_get(quest, "done"), Some(&JsonValue::Bool(false)));
    let mut flat = JsonValue::Null;
    set_flag_path(&mut flat, &vec![s("x")], JsonValue::Bool(true));
    assert_eq!(flat, JsonValue::Null);
    let mut untouched = JsonValue::Bool(true);
    set_flag_path(&mut untouched, &vec![], JsonValue::Null);
    assert_eq!(untouched, JsonValue::Bool(true));
}

#[test]
fn outcome_tiers() {
    let result = |successes: u32, required: u32| MultiAttrCheckResult {
        success: successes >= required,
        successes,
        required_successes: required,
        rolls: vec![],
    };
    assert_eq!(classify_outcome_tier(&result(5, 2)), EventOutcomeTier::GreatSuccess);
    assert_eq!(classify_outcome_tier(&result(4, 2)), EventOutcomeTier::Success);
    assert_eq!(classify_outcome_tier(&result(2, 2)), EventOutcomeTier::Success);
    assert_eq!(classify_outcome_tier(&result(1, 2)), EventOutcomeTier::Mixed);
    assert_eq!(classify_outcome_tier(&result(0, 2)), EventOutcomeTier::Failure);
    assert_eq!(classify_outcome_tier(&result(0, 3)), EventOutcomeTier::Disaster);
    assert_eq!(tier_to_key(&EventOutcomeTier::GreatSuccess), "great_success");
    assert_eq!(tier_to_key(&EventOutcomeTier::Disaster), "disaster");
}

#[test]
fn dice_pool_rolls_within_faces() {
    let logs = vec![
        MultiAttrRollLog { key: s("courage"), kind: InfluenceKind::Support, die_sides: 6, rolled: vec![] },
        MultiAttrRollLog { key: s("fear"), kind: InfluenceKind::Resist, die_sides: 6, rolled: vec![] },
    ];
    let specs = vec![SupportDiceSpec { log_index: 0, die_sides: 6, count: 20 }];
    let r = roll_dice_pool(&specs, logs, 4, 5);
    assert_eq!(r.rolls.len(), 2);
    assert_eq!(r.rolls[0].rolled.len(), 20);
    assert!(r.rolls[0].rolled.iter().all(|x| (1..=6).contains(x)));
    assert!(r.rolls[1].rolled.is_empty());
    let count = r.rolls[0].rolled.iter().filter(|x| **x >= 4).count() as u32;
    assert_eq!(r.successes, count);
    assert_eq!(r.success, r.successes >= 5);
    assert_eq!(r.required_successes, 5);
    let distinct: std::collections::HashSet<u32> = r.rolls[0].rolled.iter().copied().collect();
    assert!(distinct.len() > 1);

    let sure = roll_dice_pool(&specs, vec![MultiAttrRollLog { key: s("k"), kind: InfluenceKind::Support, die_sides: 6, rolled: vec![] }], 1, 20);
    assert_eq!(sure.successes, 20);
    assert!(sure.success);
}

#[test]
fn actor_attribute_maps() {
    let mut c = CharacterAttributes::new_default();
    c.set(AttributeField::Courage, 70);
    let m = character_attributes_to_actor_attrs(&c);
    assert_eq!(m.entries.len(), 21);
    assert_eq!(read_attr_or_current(&m, "courage", 0), 70);
    assert_eq!(read_attr_or_current(&m, "unknown", 9), 9);
    let mut changes: StrMap<i32> = StrMap::new();
    changes.insert(s("courage"), 10);
    changes.insert(s("intox"), 33);
    changes.insert(s("not_an_attribute"), 1);
    let updated = apply_actor_attrs_to_character(c, &changes);
    assert_eq!(updated.get(AttributeField::Courage), 10);
    assert_eq!(updated.get(AttributeField::Intox), 33);
    assert_eq!(updated.get(AttributeField::Health), 0);

    let mut snapshot = CharacterStateSnapshot { characters: StrMap::new(), relationships: vec![] };
    let fresh = actor_attrs_from_snapshot(&snapshot, "ghost");
    assert_eq!(read_attr_or_current(&fresh, "morality", 5), 0);
    store_actor_attrs(&mut snapshot, s("ghost"), &changes);
    let stored = actor_attrs_from_snapshot(&snapshot, "ghost");
    assert_eq!(read_attr_or_current(&stored, "courage", 0), 10);
    assert_eq!(read_attr_or_current(&stored, "intox", 0), 33);
}

fn outcome(next: &str, text: Option<&str>, key: Option<&str>) -> NodeOutcome {
    NodeOutcome { next_node_id: s(next), text: text.map(s), text_key: key.map(s) }
}

#[test]
fn outcome_fallbacks() {
    let mut outcomes: StrMap<NodeOutcome> = StrMap::new();
    outcomes.insert(s("success"), outcome("win", Some("ok"), None));
    outcomes.insert(s("failure"), outcome("lose", None, Some("demo.outcome.failure")));
    assert_eq!(pick_outcome_with_fallback("n", &outcomes, "great_success").unwrap().next_node_id, "win");
    assert_eq!(pick_outcome_with_fallback("n", &outcomes, "disaster").unwrap().next_node_id, "lose");
    assert_eq!(pick_outcome_with_fallback("n", &outcomes, "odd").unwrap().next_node_id, "win");
    let empty: StrMap<NodeOutcome> = StrMap::new();
    assert_eq!(pick_outcome_with_fallback("n1", &empty, "mixed").unwrap_err(), "node n1 找不到可用 outcome（tier=mixed）");
    let r = resolve_check_outcome("n", &outcomes, &EventOutcomeTier::Disaster).unwrap();
    assert_eq!(r, NodeResolveResult { next_node_id: s("lose"), outcome_tier: s("disaster"), text: None, text_key: Some(s("demo.outcome.failure")) });
}

#[test]
fn node_texts_and_runtime() {
    assert_eq!(load_text_by_key("demo.node.intro"), Some(s("夜幕降臨，前線傳來緊急命令。")));
    assert_eq!(load_text_by_key("x"), None);
    assert_eq!(resolve_node_text(Some(s("t")), Some(s("demo.node.intro"))), "t");
    assert_eq!(resolve_node_text(None, Some(s("nope"))), "[textKey:nope]");
    assert_eq!(resolve_node_text(None, None), "(missing narrative text)");

    let mut st = GameRuntimeState::new_default();
    assert_eq!(st.current_node_id, "intro");
    st.run_plain_node(None, Some(s("demo.node.intro")), Some(s("check")));
    assert_eq!(st.current_node_id, "check");
    assert_eq!(st.current_text, "夜幕降臨，前線傳來緊急命令。");
    st.note_missing_node();
    assert_eq!(st.debug_message, Some(s("找不到 node: check")));
    st.apply_check_result(Err(s("boom")));
    assert_eq!(st.debug_message, Some(s("boom")));
    assert_eq!(st.current_node_id, "check");
    st.apply_check_result(Ok(NodeResolveResult { next_node_id: s("end"), outcome_tier: s("success"), text: None, text_key: Some(s("demo.outcome.success")) }));
    assert_eq!(st.current_node_id, "end");
    assert_eq!(st.last_outcome_tier, Some(s("success")));
    assert_eq!(st.debug_message, None);
    assert_eq!(st.current_text, "你穩住局勢，隊伍順利前進。");
}

#[test]
fn choice_editor_reducer() {
    let mut st = ChoicesState::new();
    st.dispatch(EditorAction::Add);
    st.dispatch(EditorAction::Add);
    assert_eq!(st.list.len(), 2);
    assert_eq!(st.para_cache.len(), 2);
    st.dispatch(EditorAction::SetField { idx: 1, field: "caption", value: s("Second") });
    st.dispatch(EditorAction::SetField { idx: 1, field: "same_page", value: s("true") });
    st.dispatch(EditorAction::SetField { idx: 5, field: "caption", value: s("ignored") });
    assert_eq!(st.list[1].caption, "Second");
    assert!(st.list[1].same_page);
    st.dispatch(EditorAction::ToggleActionType(0));
    assert_eq!(st.action_type_open, vec![true, false]);
    st.dispatch(EditorAction::ToggleActionType(0));
    assert_eq!(st.action_type_open, vec![false, false]);
    st.dispatch(EditorAction::SetChapterSearch { idx: 0, query: s("forest") });
    assert_eq!(st.chapter_search[0], "forest");
    st.dispatch(EditorAction::Remove(0));
    assert_eq!(st.list.len(), 1);
    assert_eq!(st.list[0].caption, "Second");
    assert_eq!(st.chapter_search, vec![String::new()]);
    st.dispatch(EditorAction::Remove(9));
    assert_eq!(st.list.len(), 1);
    st.dispatch(EditorAction::SetList(vec![EditorChoice::new_default(), EditorChoice::new_default(), EditorChoice::new_default()]));
    assert_eq!(st.list.len(), 3);
    assert_eq!(st.timeout_para_open.len(), 3);
    st.dispatch(EditorAction::SetEffects { idx: 2, impacts: vec![Impact::default_character(s("c"))] });
    assert_eq!(st.list[2].impacts.len(), 1);
    st.dispatch(EditorAction::SetList(vec![]));
    assert!(st.action_type_open.is_empty());
    let c = EditorChoice::new_default();
    let round = EditorChoice::from_tuple(c.to_tuple());
    assert_eq!(round, c);
    let list = ImpactList::new();
    assert!(list.0.is_empty());
}

#[test]
fn impacts_applied_in_two_steps_give_the_same_result() {
    let mut chars: StrMap<CharacterAttributes> = StrMap::new();
    chars.insert(s("hero"), attrs_with(50));
    let rels: PairMap<RelationshipMetrics> = PairMap::new();
    let first = vec![
        Impact::CharacterAttribute { character_id: s("newbie"), field: AttributeField::Courage, op: NumericOp::Add, value: 5 },
        Impact::Flag { character_id: s("hero"), path: vec![s("quest"), s("started")], value: JsonValue::Bool(true) },
    ];
    let second = vec![
        Impact::Flag { character_id: s("newbie"), path: vec![s("met"), s("hero")], value: JsonValue::Bool(true) },
        Impact::Relationship { from_id: s("hero"), to_id: s("newbie"), field: RelationshipField::Trust, op: NumericOp::Add, value: 20 },
    ];
    let mut all = first.clone();
    all.extend(second.iter().cloned());
    let once = apply_impacts_preview(&chars, &rels, &all, &percent);
    let mid = apply_impacts_preview(&chars, &rels, &first, &percent);
    let twice = apply_impacts_preview(&mid.characters, &mid.relationships, &second, &percent);
    let newbie_once = once.characters.get("newbie").unwrap();
    let newbie_twice = twice.characters.get("newbie").unwrap();
    assert_eq!(newbie_once.get(AttributeField::Courage), newbie_twice.get(AttributeField::Courage));
    assert_eq!(newbie_once.traits_flags, newbie_twice.traits_flags);
    assert!(matches!(mid.characters.get("newbie").unwrap().traits_flags, JsonValue::Object(_)));
    assert_eq!(once.characters.get("hero").unwrap().traits_flags, twice.characters.get("hero").unwrap().traits_flags);
    assert_eq!(
        once.relationships.get("hero", "newbie").unwrap().get(RelationshipField::Trust),
        twice.relationships.get("hero", "newbie").unwrap().get(RelationshipField::Trust)
    );
}
