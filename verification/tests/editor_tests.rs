use ifecaro::choice_impacts_editor::{
    attribute_field_from_name, attribute_field_name, attribute_field_options, first_character_id,
    first_relationship, impact_type, numeric_op_from_name, numeric_op_options, parse_flag_checkbox,
    parse_flag_path, parse_impact_value, relationship_field_from_name, relationship_field_options,
    update_impact_type, CharacterOption, RelationshipOption,
};
use ifecaro::choice_impacts_editor::{
    attribute_field_from_label, change_impact_row_type, edit_effect_row, edit_impact, edit_impact_row,
    handle_impact_row_event, numeric_op_from_label, remove_impact_row, ImpactEdit, ImpactRowEvent,
};
use ifecaro::choices_reducer::Choice as EditorChoice;
use ifecaro::impacts::{AttributeField, Impact, NumericOp, RelationshipField};
use ifecaro::json::JsonValue;
use ifecaro::translation_form::{add_choice_target, edit_choice_field, is_form_valid, remove_choice_target, ParagraphChoice};

fn s(x: &str) -> String {
    x.to_string()
}

fn chars() -> Vec<CharacterOption> {
    vec![
        CharacterOption { id: s("c1"), char_id: s("hero"), role: Some(s("lead")) },
        CharacterOption { id: s("c2"), char_id: s("villain"), role: None },
    ]
}

fn rels() -> Vec<RelationshipOption> {
    vec![RelationshipOption { id: s("r1"), from_id: s("c1"), to_id: s("c2") }]
}

#[test]
fn first_options() {
    assert_eq!(first_character_id(&chars()), "c1");
    assert_eq!(first_character_id(&vec![]), "");
    assert_eq!(first_relationship(&rels()), (s("c1"), s("c2")));
    assert_eq!(first_relationship(&vec![]), (String::new(), String::new()));
}

#[test]
fn field_menus() {
    let options = attribute_field_options();
    assert_eq!(options.len(), 21);
    assert_eq!(options[0], (AttributeField::Honesty, s("Honesty")));
    assert_eq!(options[20], (AttributeField::Intox, s("Intoxication")));
    for (f, _) in options.iter() {
        assert_eq!(attribute_field_from_name(attribute_field_name(*f)), Some(*f));
        assert_eq!(attribute_field_name(*f), format!("{:?}", f));
    }
    assert_eq!(attribute_field_from_name("Intoxication"), None);
    let rel = relationship_field_options();
    assert_eq!(rel.len(), 5);
    assert_eq!(rel[1], (RelationshipField::Trust, s("Trust")));
    assert_eq!(relationship_field_from_name("Fear"), Some(RelationshipField::Fear));
    assert_eq!(relationship_field_from_name("fear"), None);
    let ops = numeric_op_options(s("Add"), s("Set to"), s("Scale"));
    assert_eq!(ops[1], (NumericOp::SetTo, s("Set to")));
    assert_eq!(numeric_op_from_name("Set"), Some(NumericOp::SetTo));
    assert_eq!(numeric_op_from_name("Add"), Some(NumericOp::Add));
    assert_eq!(numeric_op_from_name("Scale"), Some(NumericOp::Scale));
    assert_eq!(numeric_op_from_name("Multiply"), None);
}

#[test]
fn impact_kind_changes() {
    let start = Impact::default_character(s("c9"));
    assert_eq!(impact_type(&start), "character_attribute");
    let rel = update_impact_type(&start, "relationship", &chars(), &rels());
    assert_eq!(impact_type(&rel), "relationship");
    assert_eq!(
        rel,
        Impact::Relationship { from_id: s("c1"), to_id: s("c2"), field: RelationshipField::Trust, op: NumericOp::Add, value: 0 }
    );
    let flag = update_impact_type(&rel, "flag", &chars(), &rels());
    assert_eq!(impact_type(&flag), "flag");
    assert_eq!(flag, Impact::Flag { character_id: s("c1"), path: vec![s("flag_name")], value: JsonValue::Bool(true) });
    let back = update_impact_type(&flag, "character_attribute", &vec![], &rels());
    assert_eq!(back, Impact::default_character(String::new()));
    let other = update_impact_type(&flag, "anything", &chars(), &vec![]);
    assert_eq!(other, Impact::default_character(s("c1")));
    let empty_rel = update_impact_type(&start, "relationship", &chars(), &vec![]);
    assert_eq!(
        empty_rel,
        Impact::Relationship { from_id: String::new(), to_id: String::new(), field: RelationshipField::Trust, op: NumericOp::Add, value: 0 }
    );
}

#[test]
fn typed_input() {
    assert_eq!(parse_flag_path(" a . b..c "), vec![s("a"), s("b"), s("c")]);
    assert!(parse_flag_path("").is_empty());
    assert!(parse_flag_path(" . ").is_empty());
    assert_eq!(parse_impact_value("15"), Some(15));
    assert_eq!(parse_impact_value("-100"), Some(-100));
    assert_eq!(parse_impact_value("+7"), Some(7));
    assert_eq!(parse_impact_value("2147483647"), Some(i32::MAX));
    assert_eq!(parse_impact_value("-2147483648"), Some(i32::MIN));
    assert_eq!(parse_impact_value("2147483648"), None);
    assert_eq!(parse_impact_value("1.5"), None);
    assert_eq!(parse_impact_value(""), None);
    assert_eq!(parse_impact_value("-"), None);
    assert_eq!(parse_impact_value("+-1"), None);
    for t in ["0", "-0", "+0", "12", "-12", "abc", " 1", "99999999999"] {
        assert_eq!(parse_impact_value(t), t.parse::<i32>().ok());
    }
    assert!(parse_flag_checkbox("true"));
    assert!(!parse_flag_checkbox("false"));
    assert!(!parse_flag_checkbox("True"));
    assert!(!parse_flag_checkbox("on"));
}

#[test]
fn translation_form_rules() {
    assert!(is_form_valid("text", "caption", "p1", true));
    assert!(!is_form_valid("  ", "caption", "p1", true));
    assert!(!is_form_valid("text", "", "p1", true));
    assert!(!is_form_valid("text", "caption", "\t", true));
    assert!(!is_form_valid("text", "caption", "p1", false));

    let mut c = EditorChoice::new_default();
    edit_choice_field(&mut c, "caption", s("Go north"));
    edit_choice_field(&mut c, "goto", s("p1, p2 ,p3"));
    edit_choice_field(&mut c, "same_page", s("true"));
    edit_choice_field(&mut c, "time_limit", s("30"));
    edit_choice_field(&mut c, "timeout_to", s("   "));
    edit_choice_field(&mut c, "unknown", s("x"));
    assert_eq!(c.caption, "Go north");
    assert_eq!(c.goto, vec![s("p1"), s("p2"), s("p3")]);
    assert!(!c.same_page);
    assert_eq!(c.time_limit, Some(30));
    assert_eq!(c.timeout_to, None);

    let mut targets = vec![s("a"), s("b")];
    add_choice_target(&mut targets, s("b"));
    assert_eq!(targets, vec![s("a"), s("b")]);
    add_choice_target(&mut targets, s("c"));
    assert_eq!(targets, vec![s("a"), s("b"), s("c")]);
    let mut dup = vec![s("a"), s("b"), s("a")];
    remove_choice_target(&mut dup, "a");
    assert_eq!(dup, vec![s("b")]);
    remove_choice_target(&mut dup, "zz");
    assert_eq!(dup, vec![s("b")]);

    let stored = ParagraphChoice::Simple(s("p4"));
    assert_eq!(stored.get_to(), "p4");
    assert_eq!(stored.get_type(), "goto");
    let complex = ParagraphChoice::Complex {
        to: s("p5"),
        type_: s("add"),
        key: Some(s("gold")),
        value: Some(JsonValue::Number(s("10"))),
        same_page: None,
        time_limit: None,
    };
    assert_eq!(complex.get_key(), Some(s("gold")));
    assert_eq!(complex.get_value(), Some(JsonValue::Number(s("10"))));
}

fn attribute_impact() -> Impact {
    Impact::CharacterAttribute { character_id: s("c1"), field: AttributeField::Morality, op: NumericOp::Add, value: 3 }
}

fn relationship_impact() -> Impact {
    Impact::Relationship { from_id: s("c1"), to_id: s("c2"), field: RelationshipField::Trust, op: NumericOp::Add, value: 1 }
}

fn flag_impact() -> Impact {
    Impact::Flag { character_id: s("c1"), path: vec![s("saved")], value: JsonValue::Bool(true) }
}

#[test]
fn attribute_row_edits_one_part_at_a_time() {
    let i = attribute_impact();
    assert_eq!(
        edit_impact(&i, &ImpactEdit::Character(s("c2"))),
        Impact::CharacterAttribute { character_id: s("c2"), field: AttributeField::Morality, op: NumericOp::Add, value: 3 }
    );
    assert_eq!(
        edit_impact(&i, &ImpactEdit::Field(s("Courage"))),
        Impact::CharacterAttribute { character_id: s("c1"), field: AttributeField::Courage, op: NumericOp::Add, value: 3 }
    );
    assert_eq!(
        edit_impact(&i, &ImpactEdit::Op(s("Set"))),
        Impact::CharacterAttribute { character_id: s("c1"), field: AttributeField::Morality, op: NumericOp::SetTo, value: 3 }
    );
    assert_eq!(
        edit_impact(&i, &ImpactEdit::Value(s("-12"))),
        Impact::CharacterAttribute { character_id: s("c1"), field: AttributeField::Morality, op: NumericOp::Add, value: -12 }
    );
}

#[test]
fn unreadable_input_leaves_the_row_alone() {
    let i = attribute_impact();
    assert_eq!(edit_impact(&i, &ImpactEdit::Field(s("Intoxication"))), i);
    assert_eq!(edit_impact(&i, &ImpactEdit::Op(s("Multiply"))), i);
    assert_eq!(edit_impact(&i, &ImpactEdit::Value(s("3.5"))), i);
    assert_eq!(edit_impact(&i, &ImpactEdit::Value(s(""))), i);
    assert_eq!(edit_impact(&i, &ImpactEdit::Path(s("a.b"))), i);
    let r = relationship_impact();
    assert_eq!(edit_impact(&r, &ImpactEdit::Character(s("c3"))), r);
    assert_eq!(edit_impact(&r, &ImpactEdit::Field(s("Morality"))), r);
}

#[test]
fn relationship_row_edits() {
    let r = relationship_impact();
    assert_eq!(
        edit_impact(&r, &ImpactEdit::From(s("c3"))),
        Impact::Relationship { from_id: s("c3"), to_id: s("c2"), field: RelationshipField::Trust, op: NumericOp::Add, value: 1 }
    );
    assert_eq!(
        edit_impact(&r, &ImpactEdit::To(s("c4"))),
        Impact::Relationship { from_id: s("c1"), to_id: s("c4"), field: RelationshipField::Trust, op: NumericOp::Add, value: 1 }
    );
    assert_eq!(
        edit_impact(&r, &ImpactEdit::Field(s("Fear"))),
        Impact::Relationship { from_id: s("c1"), to_id: s("c2"), field: RelationshipField::Fear, op: NumericOp::Add, value: 1 }
    );
    assert_eq!(
        edit_impact(&r, &ImpactEdit::Op(s("Scale"))),
        Impact::Relationship { from_id: s("c1"), to_id: s("c2"), field: RelationshipField::Trust, op: NumericOp::Scale, value: 1 }
    );
    assert_eq!(
        edit_impact(&r, &ImpactEdit::Value(s("+40"))),
        Impact::Relationship { from_id: s("c1"), to_id: s("c2"), field: RelationshipField::Trust, op: NumericOp::Add, value: 40 }
    );
}

#[test]
fn flag_row_edits() {
    let f = flag_impact();
    assert_eq!(
        edit_impact(&f, &ImpactEdit::Character(s("c9"))),
        Impact::Flag { character_id: s("c9"), path: vec![s("saved")], value: JsonValue::Bool(true) }
    );
    assert_eq!(
        edit_impact(&f, &ImpactEdit::Path(s(" quests . boy ..  "))),
        Impact::Flag { character_id: s("c1"), path: vec![s("quests"), s("boy")], value: JsonValue::Bool(true) }
    );
    assert_eq!(
        edit_impact(&f, &ImpactEdit::Checked(s("false"))),
        Impact::Flag { character_id: s("c1"), path: vec![s("saved")], value: JsonValue::Bool(false) }
    );
    assert_eq!(
        edit_impact(&f, &ImpactEdit::Checked(s("on"))),
        Impact::Flag { character_id: s("c1"), path: vec![s("saved")], value: JsonValue::Bool(false) }
    );
    assert_eq!(edit_impact(&f, &ImpactEdit::Value(s("5"))), f);
}

#[test]
fn row_operations_touch_only_their_row() {
    let mut rows = vec![attribute_impact(), relationship_impact(), flag_impact()];
    assert!(edit_impact_row(&mut rows, 1, &ImpactEdit::Value(s("7"))));
    assert_eq!(rows[0], attribute_impact());
    assert_eq!(
        rows[1],
        Impact::Relationship { from_id: s("c1"), to_id: s("c2"), field: RelationshipField::Trust, op: NumericOp::Add, value: 7 }
    );
    assert_eq!(rows[2], flag_impact());

    change_impact_row_type(&mut rows, 0, "flag", &chars(), &vec![]);
    assert_eq!(rows[0], Impact::Flag { character_id: s("c1"), path: vec![s("flag_name")], value: JsonValue::Bool(true) });
    assert_eq!(rows[2], flag_impact());

    remove_impact_row(&mut rows, 0);
    assert_eq!(rows.len(), 2);
    assert_eq!(rows[1], flag_impact());
}

#[test]
fn row_inputs_never_change_the_impact_kind() {
    let edits = vec![
        ImpactEdit::Character(s("c2")),
        ImpactEdit::From(s("c2")),
        ImpactEdit::To(s("c1")),
        ImpactEdit::Field(s("Fear")),
        ImpactEdit::Op(s("Add")),
        ImpactEdit::Value(s("9")),
        ImpactEdit::Path(s("x.y")),
        ImpactEdit::Checked(s("true")),
    ];
    for impact in [attribute_impact(), relationship_impact(), flag_impact()] {
        for e in &edits {
            assert_eq!(impact_type(&edit_impact(&impact, e)), impact_type(&impact));
        }
    }
}

#[test]
fn rejected_row_input_is_not_saved_and_changes_nothing() {
    let mut rows = vec![attribute_impact(), relationship_impact(), flag_impact()];
    let before = vec![attribute_impact(), relationship_impact(), flag_impact()];
    assert!(!edit_impact_row(&mut rows, 0, &ImpactEdit::Value(s("12x"))));
    assert!(!edit_impact_row(&mut rows, 0, &ImpactEdit::Field(s("Intoxication"))));
    assert!(!edit_impact_row(&mut rows, 1, &ImpactEdit::Op(s("Scale (%)"))));
    assert!(!edit_impact_row(&mut rows, 2, &ImpactEdit::Value(s("3"))));
    assert_eq!(rows, before);
    assert!(edit_impact_row(&mut rows, 0, &ImpactEdit::Field(s("Intox"))));
    assert!(edit_impact_row(&mut rows, 2, &ImpactEdit::Checked(s("no"))));
}

#[test]
fn row_events_say_when_the_list_is_saved() {
    let mut rows = vec![attribute_impact(), relationship_impact()];
    assert!(!handle_impact_row_event(&mut rows, 0, &ImpactRowEvent::Edit(ImpactEdit::Op(s("Multiply"))), &chars(), &rels()));
    assert_eq!(rows[0], attribute_impact());
    assert!(handle_impact_row_event(&mut rows, 0, &ImpactRowEvent::Edit(ImpactEdit::Op(s("Scale"))), &chars(), &rels()));
    assert_eq!(
        rows[0],
        Impact::CharacterAttribute { character_id: s("c1"), field: AttributeField::Morality, op: NumericOp::Scale, value: 3 }
    );
    assert!(handle_impact_row_event(&mut rows, 1, &ImpactRowEvent::ChangeType(s("flag")), &chars(), &rels()));
    assert_eq!(rows[1], Impact::Flag { character_id: s("c1"), path: vec![s("flag_name")], value: JsonValue::Bool(true) });
    assert!(handle_impact_row_event(&mut rows, 0, &ImpactRowEvent::Remove, &chars(), &rels()));
    assert_eq!(rows.len(), 1);
}

#[test]
fn effect_menus_select_by_label() {
    assert_eq!(attribute_field_from_label("Intoxication"), Some(AttributeField::Intox));
    assert_eq!(attribute_field_from_label("Intox"), None);
    assert_eq!(attribute_field_from_label("Courage"), Some(AttributeField::Courage));
    assert_eq!(numeric_op_from_label("Scale (%)"), Some(NumericOp::Scale));
    assert_eq!(numeric_op_from_label("Scale"), None);
    assert_eq!(numeric_op_from_label("Set"), Some(NumericOp::SetTo));
    assert_eq!(numeric_op_from_label("Add"), Some(NumericOp::Add));
}

#[test]
fn effect_row_edits_by_label() {
    let mut rows = vec![attribute_impact(), relationship_impact()];
    edit_effect_row(&mut rows, 0, &ImpactEdit::Field(s("Intoxication")));
    edit_effect_row(&mut rows, 0, &ImpactEdit::Op(s("Scale (%)")));
    assert_eq!(
        rows[0],
        Impact::CharacterAttribute { character_id: s("c1"), field: AttributeField::Intox, op: NumericOp::Scale, value: 3 }
    );
    edit_effect_row(&mut rows, 0, &ImpactEdit::Field(s("Intox")));
    edit_effect_row(&mut rows, 1, &ImpactEdit::Op(s("Scale")));
    assert_eq!(rows[1], relationship_impact());
    edit_effect_row(&mut rows, 1, &ImpactEdit::Field(s("Respect")));
    assert_eq!(
        rows[1],
        Impact::Relationship { from_id: s("c1"), to_id: s("c2"), field: RelationshipField::Respect, op: NumericOp::Add, value: 1 }
    );
    assert_eq!(rows[0].clone(), Impact::CharacterAttribute { character_id: s("c1"), field: AttributeField::Intox, op: NumericOp::Scale, value: 3 });
}
