//! The impact editor's rules: the options its menus list, the names that
//! select them, how an impact changes kind, and how typed input is read.

use vstd::prelude::*;
use crate::impacts::{AttributeField, Impact, ImpactView, NumericOp, RelationshipField};
use crate::json::{JsonValue, JsonView};
use crate::impacts::copy_strings;
use crate::text::{parse_i32, parse_i32_spec, split_by_char, split_spec, str_equal, trim_spec, trim_string, views};

verus! {

/// A character that an impact can name.
#[derive(Debug, PartialEq)]
pub struct CharacterOption {
    pub id: String,
    pub char_id: String,
    pub role: Option<String>,
}

/// A relationship that an impact can name.
#[derive(Debug, PartialEq)]
pub struct RelationshipOption {
    pub id: String,
    pub from_id: String,
    pub to_id: String,
}

/// The id of the first character, or the empty text when there is none.
pub fn first_character_id(characters: &Vec<CharacterOption>) -> (r: String)
    ensures
        r@ == (if characters@.len() > 0 {
            characters@[0].id@
        } else {
            Seq::<char>::empty()
        }),
{
    if characters.len() > 0 {
        characters[0].id.clone()
    } else {
        String::new()
    }
}

/// The two ends of the first relationship, or two empty texts when there is
/// none.
pub fn first_relationship(relations: &Vec<RelationshipOption>) -> (r: (String, String))
    ensures
        r.0@ == (if relations@.len() > 0 {
            relations@[0].from_id@
        } else {
            Seq::<char>::empty()
        }),
        r.1@ == (if relations@.len() > 0 {
            relations@[0].to_id@
        } else {
            Seq::<char>::empty()
        }),
{
    if relations.len() > 0 {
        (relations[0].from_id.clone(), relations[0].to_id.clone())
    } else {
        (String::new(), String::new())
    }
}

/// The attributes in the order the field menu lists them.
pub open spec fn attribute_field_order() -> Seq<AttributeField> {
    seq![
        AttributeField::Honesty,
        AttributeField::Empathy,
        AttributeField::Affability,
        AttributeField::Intimidation,
        AttributeField::Aggression,
        AttributeField::Discipline,
        AttributeField::Curiosity,
        AttributeField::Courage,
        AttributeField::Impulsivity,
        AttributeField::Idealism,
        AttributeField::Pragmatism,
        AttributeField::Loyalty,
        AttributeField::Opportunism,
        AttributeField::Stoicism,
        AttributeField::Morality,
        AttributeField::Health,
        AttributeField::Stress,
        AttributeField::Fatigue,
        AttributeField::Pain,
        AttributeField::Morale,
        AttributeField::Intox,
    ]
}

/// The name by which the field menu selects an attribute (its variant name).
pub open spec fn attribute_field_name_spec(f: AttributeField) -> Seq<char> {
    match f {
        AttributeField::Honesty => "Honesty"@,
        AttributeField::Empathy => "Empathy"@,
        AttributeField::Affability => "Affability"@,
        AttributeField::Intimidation => "Intimidation"@,
        AttributeField::Aggression => "Aggression"@,
        AttributeField::Discipline => "Discipline"@,
        AttributeField::Curiosity => "Curiosity"@,
        AttributeField::Courage => "Courage"@,
        AttributeField::Impulsivity => "Impulsivity"@,
        AttributeField::Idealism => "Idealism"@,
        AttributeField::Pragmatism => "Pragmatism"@,
        AttributeField::Loyalty => "Loyalty"@,
        AttributeField::Opportunism => "Opportunism"@,
        AttributeField::Stoicism => "Stoicism"@,
        AttributeField::Morality => "Morality"@,
        AttributeField::Health => "Health"@,
        AttributeField::Stress => "Stress"@,
        AttributeField::Fatigue => "Fatigue"@,
        AttributeField::Pain => "Pain"@,
        AttributeField::Morale => "Morale"@,
        AttributeField::Intox => "Intox"@,
    }
}

/// The label the field menu shows for an attribute.
pub open spec fn attribute_field_label(f: AttributeField) -> Seq<char> {
    match f {
        AttributeField::Intox => "Intoxication"@,
        _ => attribute_field_name_spec(f),
    }
}

/// The name by which the field menu selects `f`.
pub fn attribute_field_name(f: AttributeField) -> (r: &'static str)
    ensures
        r@ == attribute_field_name_spec(f),
{
    match f {
        AttributeField::Honesty => "Honesty",
        AttributeField::Empathy => "Empathy",
        AttributeField::Affability => "Affability",
        AttributeField::Intimidation => "Intimidation",
        AttributeField::Aggression => "Aggression",
        AttributeField::Discipline => "Discipline",
        AttributeField::Curiosity => "Curiosity",
        AttributeField::Courage => "Courage",
        AttributeField::Impulsivity => "Impulsivity",
        AttributeField::Idealism => "Idealism",
        AttributeField::Pragmatism => "Pragmatism",
        AttributeField::Loyalty => "Loyalty",
        AttributeField::Opportunism => "Opportunism",
        AttributeField::Stoicism => "Stoicism",
        AttributeField::Morality => "Morality",
        AttributeField::Health => "Health",
        AttributeField::Stress => "Stress",
        AttributeField::Fatigue => "Fatigue",
        AttributeField::Pain => "Pain",
        AttributeField::Morale => "Morale",
        AttributeField::Intox => "Intox",
    }
}

/// The field menu's options: each attribute with its label, in menu order.
pub fn attribute_field_options() -> (r: Vec<(AttributeField, String)>)
    ensures
        r@.len() == attribute_field_order().len(),
        forall|i: int|
            0 <= i < r@.len() ==> (#[trigger] r@[i]).0 == attribute_field_order()[i] && r@[i].1@
                == attribute_field_label(attribute_field_order()[i]),
{
    let r = vec![
        (AttributeField::Honesty, "Honesty".to_string()),
        (AttributeField::Empathy, "Empathy".to_string()),
        (AttributeField::Affability, "Affability".to_string()),
        (AttributeField::Intimidation, "Intimidation".to_string()),
        (AttributeField::Aggression, "Aggression".to_string()),
        (AttributeField::Discipline, "Discipline".to_string()),
        (AttributeField::Curiosity, "Curiosity".to_string()),
        (AttributeField::Courage, "Courage".to_string()),
        (AttributeField::Impulsivity, "Impulsivity".to_string()),
        (AttributeField::Idealism, "Idealism".to_string()),
        (AttributeField::Pragmatism, "Pragmatism".to_string()),
        (AttributeField::Loyalty, "Loyalty".to_string()),
        (AttributeField::Opportunism, "Opportunism".to_string()),
        (AttributeField::Stoicism, "Stoicism".to_string()),
        (AttributeField::Morality, "Morality".to_string()),
        (AttributeField::Health, "Health".to_string()),
        (AttributeField::Stress, "Stress".to_string()),
        (AttributeField::Fatigue, "Fatigue".to_string()),
        (AttributeField::Pain, "Pain".to_string()),
        (AttributeField::Morale, "Morale".to_string()),
        (AttributeField::Intox, "Intoxication".to_string()),
    ];
    r
}

/// The first attribute of `fs` whose menu name is `name`.
pub open spec fn first_attribute_named(fs: Seq<AttributeField>, name: Seq<char>) -> Option<
    AttributeField,
>
    decreases fs.len(),
{
    if fs.len() == 0 {
        None
    } else if attribute_field_name_spec(fs[0]) == name {
        Some(fs[0])
    } else {
        first_attribute_named(fs.drop_first(), name)
    }
}

/// The attribute that the field menu's name `name` selects, if any.
pub open spec fn attribute_field_named(name: Seq<char>) -> Option<AttributeField> {
    first_attribute_named(attribute_field_order(), name)
}

proof fn lemma_first_attribute_named(fs: Seq<AttributeField>, name: Seq<char>, i: int)
    requires
        0 <= i <= fs.len(),
        forall|k: int| 0 <= k < i ==> attribute_field_name_spec(#[trigger] fs[k]) != name,
        i == fs.len() || attribute_field_name_spec(fs[i]) == name,
    ensures
        first_attribute_named(fs, name) == (if i < fs.len() {
            Some(fs[i])
        } else {
            None
        }),
    decreases i,
{
    if i > 0 {
        let rest = fs.drop_first();
        assert forall|k: int| 0 <= k < i - 1 implies attribute_field_name_spec(#[trigger] rest[k]) != name by {
            assert(rest[k] == fs[k + 1]);
        }
        lemma_first_attribute_named(rest, name, i - 1);
    }
}

/// The attribute that the field menu's name `name` selects.
pub fn attribute_field_from_name(name: &str) -> (r: Option<AttributeField>)
    ensures
        r == attribute_field_named(name@),
        match r {
            Some(f) => attribute_field_name_spec(f) == name@,
            None => forall|f: AttributeField| attribute_field_name_spec(f) != name@,
        },
{
    let options = attribute_field_options();
    let mut i: usize = 0;
    while i < options.len()
        invariant
            options@.len() == attribute_field_order().len(),
            forall|k: int|
                0 <= k < options@.len() ==> (#[trigger] options@[k]).0 == attribute_field_order()[k],
            i <= options@.len(),
            forall|k: int| 0 <= k < i ==> attribute_field_name_spec(#[trigger] attribute_field_order()[k]) != name@,
        decreases options@.len() - i,
    {
        let f = options[i].0;
        assert(f == attribute_field_order()[i as int]);
        if str_equal(attribute_field_name(f), name) {
            proof {
                lemma_first_attribute_named(attribute_field_order(), name@, i as int);
            }
            return Some(f);
        }
        i = i + 1;
    }
    proof {
        lemma_first_attribute_named(attribute_field_order(), name@, attribute_field_order().len() as int);
        assert forall|f: AttributeField| attribute_field_name_spec(f) != name@ by {
            let k: int = match f {
                AttributeField::Honesty => 0,
                AttributeField::Empathy => 1,
                AttributeField::Affability => 2,
                AttributeField::Intimidation => 3,
                AttributeField::Aggression => 4,
                AttributeField::Discipline => 5,
                AttributeField::Curiosity => 6,
                AttributeField::Courage => 7,
                AttributeField::Impulsivity => 8,
                AttributeField::Idealism => 9,
                AttributeField::Pragmatism => 10,
                AttributeField::Loyalty => 11,
                AttributeField::Opportunism => 12,
                AttributeField::Stoicism => 13,
                AttributeField::Morality => 14,
                AttributeField::Health => 15,
                AttributeField::Stress => 16,
                AttributeField::Fatigue => 17,
                AttributeField::Pain => 18,
                AttributeField::Morale => 19,
                AttributeField::Intox => 20,
            };
            assert(attribute_field_order()[k] == f);
        }
    }
    None
}

/// The name by which the menus select a relationship metric.
pub open spec fn relationship_field_name_spec(f: RelationshipField) -> Seq<char> {
    match f {
        RelationshipField::Affinity => "Affinity"@,
        RelationshipField::Trust => "Trust"@,
        RelationshipField::Respect => "Respect"@,
        RelationshipField::Fear => "Fear"@,
        RelationshipField::Attraction => "Attraction"@,
    }
}

/// The relationship menu's options: each metric with its label, in menu order.
pub fn relationship_field_options() -> (r: Vec<(RelationshipField, String)>)
    ensures
        r@.len() == 5,
        r@[0].0 == RelationshipField::Affinity,
        r@[1].0 == RelationshipField::Trust,
        r@[2].0 == RelationshipField::Respect,
        r@[3].0 == RelationshipField::Fear,
        r@[4].0 == RelationshipField::Attraction,
        forall|i: int| 0 <= i < 5 ==> (#[trigger] r@[i]).1@ == relationship_field_name_spec(r@[i].0),
{
    vec![
        (RelationshipField::Affinity, "Affinity".to_string()),
        (RelationshipField::Trust, "Trust".to_string()),
        (RelationshipField::Respect, "Respect".to_string()),
        (RelationshipField::Fear, "Fear".to_string()),
        (RelationshipField::Attraction, "Attraction".to_string()),
    ]
}

/// The relationship metric that the menu's name `name` selects, if any.
pub open spec fn relationship_field_named(name: Seq<char>) -> Option<RelationshipField> {
    if name == "Affinity"@ {
        Some(RelationshipField::Affinity)
    } else if name == "Trust"@ {
        Some(RelationshipField::Trust)
    } else if name == "Respect"@ {
        Some(RelationshipField::Respect)
    } else if name == "Fear"@ {
        Some(RelationshipField::Fear)
    } else if name == "Attraction"@ {
        Some(RelationshipField::Attraction)
    } else {
        None
    }
}

/// The relationship metric that the menu's name `name` selects.
pub fn relationship_field_from_name(name: &str) -> (r: Option<RelationshipField>)
    ensures
        r == relationship_field_named(name@),
        match r {
            Some(f) => relationship_field_name_spec(f) == name@,
            None => forall|f: RelationshipField| relationship_field_name_spec(f) != name@,
        },
{
    if str_equal(name, "Affinity") {
        Some(RelationshipField::Affinity)
    } else if str_equal(name, "Trust") {
        Some(RelationshipField::Trust)
    } else if str_equal(name, "Respect") {
        Some(RelationshipField::Respect)
    } else if str_equal(name, "Fear") {
        Some(RelationshipField::Fear)
    } else if str_equal(name, "Attraction") {
        Some(RelationshipField::Attraction)
    } else {
        None
    }
}

/// The name by which the operation menu selects an operation.
pub open spec fn numeric_op_name_spec(op: NumericOp) -> Seq<char> {
    match op {
        NumericOp::Add => "Add"@,
        NumericOp::SetTo => "Set"@,
        NumericOp::Scale => "Scale"@,
    }
}

/// The operation menu's options, with the labels in the reader's language.
pub fn numeric_op_options(add_label: String, set_label: String, scale_label: String) -> (r: Vec<
    (NumericOp, String),
>)
    ensures
        r@.len() == 3,
        r@[0].0 == NumericOp::Add && r@[0].1@ == add_label@,
        r@[1].0 == NumericOp::SetTo && r@[1].1@ == set_label@,
        r@[2].0 == NumericOp::Scale && r@[2].1@ == scale_label@,
{
    vec![(NumericOp::Add, add_label), (NumericOp::SetTo, set_label), (NumericOp::Scale, scale_label)]
}

/// The operation that the menu's name `name` selects, if any.
pub open spec fn numeric_op_named(name: Seq<char>) -> Option<NumericOp> {
    if name == "Add"@ {
        Some(NumericOp::Add)
    } else if name == "Set"@ {
        Some(NumericOp::SetTo)
    } else if name == "Scale"@ {
        Some(NumericOp::Scale)
    } else {
        None
    }
}

/// The operation that the menu's name `name` selects.
pub fn numeric_op_from_name(name: &str) -> (r: Option<NumericOp>)
    ensures
        r == numeric_op_named(name@),
        match r {
            Some(op) => numeric_op_name_spec(op) == name@,
            None => forall|op: NumericOp| numeric_op_name_spec(op) != name@,
        },
{
    if str_equal(name, "Add") {
        Some(NumericOp::Add)
    } else if str_equal(name, "Set") {
        Some(NumericOp::SetTo)
    } else if str_equal(name, "Scale") {
        Some(NumericOp::Scale)
    } else {
        None
    }
}

/// The label the effect editor's field menu shows for `f`.
fn attribute_field_label_str(f: AttributeField) -> (r: &'static str)
    ensures
        r@ == attribute_field_label(f),
{
    match f {
        AttributeField::Intox => "Intoxication",
        _ => attribute_field_name(f),
    }
}

/// The first attribute of `fs` whose label is `label`.
pub open spec fn first_attribute_labelled(fs: Seq<AttributeField>, label: Seq<char>) -> Option<
    AttributeField,
>
    decreases fs.len(),
{
    if fs.len() == 0 {
        None
    } else if attribute_field_label(fs[0]) == label {
        Some(fs[0])
    } else {
        first_attribute_labelled(fs.drop_first(), label)
    }
}

/// The attribute that the effect editor's field menu selects by the label
/// `label`, if any.
pub open spec fn attribute_field_labelled(label: Seq<char>) -> Option<AttributeField> {
    first_attribute_labelled(attribute_field_order(), label)
}

proof fn lemma_first_attribute_labelled(fs: Seq<AttributeField>, label: Seq<char>, i: int)
    requires
        0 <= i <= fs.len(),
        forall|k: int| 0 <= k < i ==> attribute_field_label(#[trigger] fs[k]) != label,
        i == fs.len() || attribute_field_label(fs[i]) == label,
    ensures
        first_attribute_labelled(fs, label) == (if i < fs.len() {
            Some(fs[i])
        } else {
            None
        }),
    decreases i,
{
    if i > 0 {
        let rest = fs.drop_first();
        assert forall|k: int| 0 <= k < i - 1 implies attribute_field_label(#[trigger] rest[k]) != label by {
            assert(rest[k] == fs[k + 1]);
        }
        lemma_first_attribute_labelled(rest, label, i - 1);
    }
}

/// The attribute that the effect editor's field menu selects by its label.
pub fn attribute_field_from_label(label: &str) -> (r: Option<AttributeField>)
    ensures
        r == first_attribute_labelled(attribute_field_order(), label@),
{
    let options = attribute_field_options();
    let mut i: usize = 0;
    while i < options.len()
        invariant
            options@.len() == attribute_field_order().len(),
            forall|k: int|
                0 <= k < options@.len() ==> (#[trigger] options@[k]).0 == attribute_field_order()[k],
            i <= options@.len(),
            forall|k: int| 0 <= k < i ==> attribute_field_label(#[trigger] attribute_field_order()[k]) != label@,
        decreases options@.len() - i,
    {
        let f = options[i].0;
        assert(f == attribute_field_order()[i as int]);
        if str_equal(attribute_field_label_str(f), label) {
            proof {
                lemma_first_attribute_labelled(attribute_field_order(), label@, i as int);
            }
            return Some(f);
        }
        i = i + 1;
    }
    proof {
        lemma_first_attribute_labelled(attribute_field_order(), label@, attribute_field_order().len() as int);
    }
    None
}

/// The operation that the effect editor's operation menu selects by the
/// label `label`, if any.
pub open spec fn numeric_op_labelled(label: Seq<char>) -> Option<NumericOp> {
    if label == "Add"@ {
        Some(NumericOp::Add)
    } else if label == "Set"@ {
        Some(NumericOp::SetTo)
    } else if label == "Scale (%)"@ {
        Some(NumericOp::Scale)
    } else {
        None
    }
}

/// The operation that the effect editor's operation menu selects by its
/// label.
pub fn numeric_op_from_label(label: &str) -> (r: Option<NumericOp>)
    ensures
        r == numeric_op_labelled(label@),
{
    if str_equal(label, "Add") {
        Some(NumericOp::Add)
    } else if str_equal(label, "Set") {
        Some(NumericOp::SetTo)
    } else if str_equal(label, "Scale (%)") {
        Some(NumericOp::Scale)
    } else {
        None
    }
}

/// The kind of an impact, as the kind menu names it.
pub open spec fn impact_type_spec(i: ImpactView) -> Seq<char> {
    match i {
        ImpactView::CharacterAttribute { .. } => "character_attribute"@,
        ImpactView::Relationship { .. } => "relationship"@,
        ImpactView::Flag { .. } => "flag"@,
    }
}

/// The kind of `impact`, as the kind menu names it.
pub fn impact_type(impact: &Impact) -> (r: &'static str)
    ensures
        r@ == impact_type_spec(impact@),
{
    match impact {
        Impact::CharacterAttribute { .. } => "character_attribute",
        Impact::Relationship { .. } => "relationship",
        Impact::Flag { .. } => "flag",
    }
}

/// The impact a row holds after its kind is changed to `to`: a fresh impact
/// of that kind on the first relationship or character (trust raised by 0,
/// the flag `flag_name` set to `true`, or morality raised by 0).
pub open spec fn update_impact_type_spec(
    to: Seq<char>,
    first_character: Seq<char>,
    first_from: Seq<char>,
    first_to: Seq<char>,
) -> ImpactView {
    if to == "relationship"@ {
        ImpactView::Relationship {
            from_id: first_from,
            to_id: first_to,
            field: RelationshipField::Trust,
            op: NumericOp::Add,
            value: 0,
        }
    } else if to == "flag"@ {
        ImpactView::Flag {
            character_id: first_character,
            path: seq!["flag_name"@],
            value: JsonView::Bool(true),
        }
    } else {
        ImpactView::CharacterAttribute {
            character_id: first_character,
            field: AttributeField::Morality,
            op: NumericOp::Add,
            value: 0,
        }
    }
}

/// The impact that replaces `impact` when its kind is changed to `to`.
pub fn update_impact_type(
    impact: &Impact,
    to: &str,
    characters: &Vec<CharacterOption>,
    relations: &Vec<RelationshipOption>,
) -> (r: Impact)
    ensures
        r@ == update_impact_type_spec(
            to@,
            if characters@.len() > 0 {
                characters@[0].id@
            } else {
                Seq::<char>::empty()
            },
            if relations@.len() > 0 {
                relations@[0].from_id@
            } else {
                Seq::<char>::empty()
            },
            if relations@.len() > 0 {
                relations@[0].to_id@
            } else {
                Seq::<char>::empty()
            },
        ),
{
    if str_equal(to, "relationship") {
        let (from_id, to_id) = first_relationship(relations);
        Impact::Relationship {
            from_id,
            to_id,
            field: RelationshipField::Trust,
            op: NumericOp::Add,
            value: 0,
        }
    } else if str_equal(to, "flag") {
        let path = vec!["flag_name".to_string()];
        assert(views(path@) =~= seq!["flag_name"@]);
        proof {
            reveal_strlit("flag");
            reveal_strlit("relationship");
            assert("flag"@.len() != "relationship"@.len());
        }
        Impact::Flag {
            character_id: first_character_id(characters),
            path,
            value: JsonValue::Bool(true),
        }
    } else {
        Impact::default_character(first_character_id(characters))
    }
}

/// The flag path that the path field's text names: its `.`-separated pieces,
/// trimmed, without the empty ones.
pub open spec fn flag_path_spec(pieces: Seq<Seq<char>>) -> Seq<Seq<char>>
    decreases pieces.len(),
{
    if pieces.len() == 0 {
        Seq::empty()
    } else {
        let rest = flag_path_spec(pieces.drop_last());
        let t = trim_spec(pieces.last());
        if t.len() == 0 {
            rest
        } else {
            rest.push(t)
        }
    }
}

/// Reads the flag path field.
pub fn parse_flag_path(text: &str) -> (r: Vec<String>)
    ensures
        views(r@) == flag_path_spec(split_spec(text@, '.')),
{
    let pieces = split_by_char(text, '.');
    let ghost ps = views(pieces@);
    let mut out: Vec<String> = Vec::new();
    let mut i: usize = 0;
    while i < pieces.len()
        invariant
            ps == views(pieces@),
            i <= pieces@.len(),
            views(out@) == flag_path_spec(ps.subrange(0, i as int)),
        decreases pieces@.len() - i,
    {
        assert(ps.subrange(0, i + 1).drop_last() =~= ps.subrange(0, i as int));
        assert(ps.subrange(0, i + 1).last() == pieces@[i as int]@);
        let t = trim_string(pieces[i].as_str());
        if t.unicode_len() > 0 {
            let ghost before = out@;
            out.push(t);
            assert(views(out@) =~= views(before).push(t@));
        }
        i = i + 1;
    }
    assert(ps.subrange(0, pieces@.len() as int) =~= ps);
    out
}

/// Reads the amount field: the new amount when the text is an `i32`, and
/// nothing (the impact stays as it was) otherwise.
pub fn parse_impact_value(text: &str) -> (r: Option<i32>)
    ensures
        match parse_i32_spec(text@) {
            Some(v) => r == Some(v as i32),
            None => r is None,
        },
{
    parse_i32(text)
}

/// Reads the flag checkbox's value: `true` is set, anything else is not.
pub fn parse_flag_checkbox(text: &str) -> (b: bool)
    ensures
        b == (text@ == "true"@),
{
    str_equal(text, "true")
}

} // verus!

verus! {

/// An input made in one control of an impact row, with the text the control
/// gave.
#[derive(Debug, PartialEq)]
pub enum ImpactEdit {
    /// The character menu of an attribute or flag row.
    Character(String),
    /// The first character of a relationship row.
    From(String),
    /// The second character of a relationship row.
    To(String),
    /// The attribute or relationship-metric menu, by option name.
    Field(String),
    /// The operation menu, by option name.
    Op(String),
    /// The amount field.
    Value(String),
    /// The flag path field.
    Path(String),
    /// The flag checkbox.
    Checked(String),
}

/// The content of an `ImpactEdit`.
pub enum ImpactEditView {
    Character(Seq<char>),
    From(Seq<char>),
    To(Seq<char>),
    Field(Seq<char>),
    Op(Seq<char>),
    Value(Seq<char>),
    Path(Seq<char>),
    Checked(Seq<char>),
}

impl View for ImpactEdit {
    type V = ImpactEditView;

    open spec fn view(&self) -> ImpactEditView {
        match self {
            ImpactEdit::Character(t) => ImpactEditView::Character(t@),
            ImpactEdit::From(t) => ImpactEditView::From(t@),
            ImpactEdit::To(t) => ImpactEditView::To(t@),
            ImpactEdit::Field(t) => ImpactEditView::Field(t@),
            ImpactEdit::Op(t) => ImpactEditView::Op(t@),
            ImpactEdit::Value(t) => ImpactEditView::Value(t@),
            ImpactEdit::Path(t) => ImpactEditView::Path(t@),
            ImpactEdit::Checked(t) => ImpactEditView::Checked(t@),
        }
    }
}

/// The attribute that the text `t` selects: by label in the effect editor,
/// by name in the impact editor.
pub open spec fn attribute_field_chosen(t: Seq<char>, by_label: bool) -> Option<AttributeField> {
    if by_label {
        attribute_field_labelled(t)
    } else {
        attribute_field_named(t)
    }
}

/// The operation that the text `t` selects: by label in the effect editor,
/// by name in the impact editor.
pub open spec fn numeric_op_chosen(t: Seq<char>, by_label: bool) -> Option<NumericOp> {
    if by_label {
        numeric_op_labelled(t)
    } else {
        numeric_op_named(t)
    }
}

fn choose_attribute_field(t: &str, by_label: bool) -> (r: Option<AttributeField>)
    ensures
        r == attribute_field_chosen(t@, by_label),
{
    if by_label {
        attribute_field_from_label(t)
    } else {
        attribute_field_from_name(t)
    }
}

fn choose_numeric_op(t: &str, by_label: bool) -> (r: Option<NumericOp>)
    ensures
        r == numeric_op_chosen(t@, by_label),
{
    if by_label {
        numeric_op_from_label(t)
    } else {
        numeric_op_from_name(t)
    }
}

/// The impact a row holds after the input `e`. The input sets the one part
/// of the impact that its control shows; a menu option that selects nothing
/// (by label when `by_label` holds, by name otherwise), an amount that is not
/// an `i32`, and a control that the row does not have leave the impact as it
/// was.
pub open spec fn edited_row(i: ImpactView, e: ImpactEditView, by_label: bool) -> ImpactView {
    match i {
        ImpactView::CharacterAttribute { character_id, field, op, value } => match e {
            ImpactEditView::Character(t) => ImpactView::CharacterAttribute {
                character_id: t,
                field,
                op,
                value,
            },
            ImpactEditView::Field(t) => match attribute_field_chosen(t, by_label) {
                Some(f) => ImpactView::CharacterAttribute { character_id, field: f, op, value },
                None => i,
            },
            ImpactEditView::Op(t) => match numeric_op_chosen(t, by_label) {
                Some(o) => ImpactView::CharacterAttribute { character_id, field, op: o, value },
                None => i,
            },
            ImpactEditView::Value(t) => match parse_i32_spec(t) {
                Some(v) => ImpactView::CharacterAttribute {
                    character_id,
                    field,
                    op,
                    value: v as i32,
                },
                None => i,
            },
            _ => i,
        },
        ImpactView::Relationship { from_id, to_id, field, op, value } => match e {
            ImpactEditView::From(t) => ImpactView::Relationship {
                from_id: t,
                to_id,
                field,
                op,
                value,
            },
            ImpactEditView::To(t) => ImpactView::Relationship { from_id, to_id: t, field, op, value },
            ImpactEditView::Field(t) => match relationship_field_named(t) {
                Some(f) => ImpactView::Relationship { from_id, to_id, field: f, op, value },
                None => i,
            },
            ImpactEditView::Op(t) => match numeric_op_chosen(t, by_label) {
                Some(o) => ImpactView::Relationship { from_id, to_id, field, op: o, value },
                None => i,
            },
            ImpactEditView::Value(t) => match parse_i32_spec(t) {
                Some(v) => ImpactView::Relationship { from_id, to_id, field, op, value: v as i32 },
                None => i,
            },
            _ => i,
        },
        ImpactView::Flag { character_id, path, value } => match e {
            ImpactEditView::Character(t) => ImpactView::Flag { character_id: t, path, value },
            ImpactEditView::Path(t) => ImpactView::Flag {
                character_id,
                path: flag_path_spec(split_spec(t, '.')),
                value,
            },
            ImpactEditView::Checked(t) => ImpactView::Flag {
                character_id,
                path,
                value: JsonView::Bool(t == "true"@),
            },
            _ => i,
        },
    }
}

/// Whether the row takes the input `e`: a character, target, path or
/// checkbox input always; a menu input when it selects an option; an amount
/// when it is an `i32`; an input from a control the row does not have never.
pub open spec fn row_edit_accepted(i: ImpactView, e: ImpactEditView, by_label: bool) -> bool {
    match i {
        ImpactView::CharacterAttribute { .. } => match e {
            ImpactEditView::Character(_) => true,
            ImpactEditView::Field(t) => attribute_field_chosen(t, by_label) is Some,
            ImpactEditView::Op(t) => numeric_op_chosen(t, by_label) is Some,
            ImpactEditView::Value(t) => parse_i32_spec(t) is Some,
            _ => false,
        },
        ImpactView::Relationship { .. } => match e {
            ImpactEditView::From(_) => true,
            ImpactEditView::To(_) => true,
            ImpactEditView::Field(t) => relationship_field_named(t) is Some,
            ImpactEditView::Op(t) => numeric_op_chosen(t, by_label) is Some,
            ImpactEditView::Value(t) => parse_i32_spec(t) is Some,
            _ => false,
        },
        ImpactView::Flag { .. } => match e {
            ImpactEditView::Character(_) => true,
            ImpactEditView::Path(_) => true,
            ImpactEditView::Checked(_) => true,
            _ => false,
        },
    }
}

/// The impact editor's row after the input `e` (menus by name).
pub open spec fn edited_impact(i: ImpactView, e: ImpactEditView) -> ImpactView {
    edited_row(i, e, false)
}

/// Whether the impact editor's row takes the input `e` (menus by name); the
/// editor saves the list after every input it takes, and only then.
pub open spec fn edit_is_accepted(i: ImpactView, e: ImpactEditView) -> bool {
    row_edit_accepted(i, e, false)
}

/// The effect editor's row after the input `e` (menus by label).
pub open spec fn edited_effect(i: ImpactView, e: ImpactEditView) -> ImpactView {
    edited_row(i, e, true)
}

/// An input the row does not take leaves it as it was.
pub proof fn lemma_rejected_edit_changes_nothing(i: ImpactView, e: ImpactEditView, by_label: bool)
    ensures
        !row_edit_accepted(i, e, by_label) ==> edited_row(i, e, by_label) == i,
{
}

/// The impact that `impact` becomes after the input `edit`, with menu
/// options chosen by label when `by_label` holds and by name otherwise.
fn edit_row(impact: &Impact, edit: &ImpactEdit, by_label: bool) -> (r: Impact)
    ensures
        r@ == edited_row(impact@, edit@, by_label),
{
    match impact {
        Impact::CharacterAttribute { character_id, field, op, value } => match edit {
            ImpactEdit::Character(t) => Impact::CharacterAttribute {
                character_id: t.clone(),
                field: *field,
                op: *op,
                value: *value,
            },
            ImpactEdit::Field(t) => match choose_attribute_field(t.as_str(), by_label) {
                Some(f) => Impact::CharacterAttribute {
                    character_id: character_id.clone(),
                    field: f,
                    op: *op,
                    value: *value,
                },
                None => impact.clone(),
            },
            ImpactEdit::Op(t) => match choose_numeric_op(t.as_str(), by_label) {
                Some(o) => Impact::CharacterAttribute {
                    character_id: character_id.clone(),
                    field: *field,
                    op: o,
                    value: *value,
                },
                None => impact.clone(),
            },
            ImpactEdit::Value(t) => match parse_impact_value(t.as_str()) {
                Some(v) => Impact::CharacterAttribute {
                    character_id: character_id.clone(),
                    field: *field,
                    op: *op,
                    value: v,
                },
                None => impact.clone(),
            },
            _ => impact.clone(),
        },
        Impact::Relationship { from_id, to_id, field, op, value } => match edit {
            ImpactEdit::From(t) => Impact::Relationship {
                from_id: t.clone(),
                to_id: to_id.clone(),
                field: *field,
                op: *op,
                value: *value,
            },
            ImpactEdit::To(t) => Impact::Relationship {
                from_id: from_id.clone(),
                to_id: t.clone(),
                field: *field,
                op: *op,
                value: *value,
            },
            ImpactEdit::Field(t) => match relationship_field_from_name(t.as_str()) {
                Some(f) => Impact::Relationship {
                    from_id: from_id.clone(),
                    to_id: to_id.clone(),
                    field: f,
                    op: *op,
                    value: *value,
                },
                None => impact.clone(),
            },
            ImpactEdit::Op(t) => match choose_numeric_op(t.as_str(), by_label) {
                Some(o) => Impact::Relationship {
                    from_id: from_id.clone(),
                    to_id: to_id.clone(),
                    field: *field,
                    op: o,
                    value: *value,
                },
                None => impact.clone(),
            },
            ImpactEdit::Value(t) => match parse_impact_value(t.as_str()) {
                Some(v) => Impact::Relationship {
                    from_id: from_id.clone(),
                    to_id: to_id.clone(),
                    field: *field,
                    op: *op,
                    value: v,
                },
                None => impact.clone(),
            },
            _ => impact.clone(),
        },
        Impact::Flag { character_id, path, value } => match edit {
            ImpactEdit::Character(t) => Impact::Flag {
                character_id: t.clone(),
                path: copy_strings(path),
                value: value.clone(),
            },
            ImpactEdit::Path(t) => Impact::Flag {
                character_id: character_id.clone(),
                path: parse_flag_path(t.as_str()),
                value: value.clone(),
            },
            ImpactEdit::Checked(t) => Impact::Flag {
                character_id: character_id.clone(),
                path: copy_strings(path),
                value: JsonValue::Bool(parse_flag_checkbox(t.as_str())),
            },
            _ => impact.clone(),
        },
    }
}

/// The impact that `impact` becomes after the input `edit` in the impact
/// editor.
pub fn edit_impact(impact: &Impact, edit: &ImpactEdit) -> (r: Impact)
    ensures
        r@ == edited_impact(impact@, edit@),
{
    edit_row(impact, edit, false)
}

/// Whether the row takes the input `edit`.
fn row_accepts(impact: &Impact, edit: &ImpactEdit, by_label: bool) -> (r: bool)
    ensures
        r == row_edit_accepted(impact@, edit@, by_label),
{
    match impact {
        Impact::CharacterAttribute { .. } => match edit {
            ImpactEdit::Character(_) => true,
            ImpactEdit::Field(t) => choose_attribute_field(t.as_str(), by_label).is_some(),
            ImpactEdit::Op(t) => choose_numeric_op(t.as_str(), by_label).is_some(),
            ImpactEdit::Value(t) => parse_impact_value(t.as_str()).is_some(),
            _ => false,
        },
        Impact::Relationship { .. } => match edit {
            ImpactEdit::From(_) => true,
            ImpactEdit::To(_) => true,
            ImpactEdit::Field(t) => relationship_field_from_name(t.as_str()).is_some(),
            ImpactEdit::Op(t) => choose_numeric_op(t.as_str(), by_label).is_some(),
            ImpactEdit::Value(t) => parse_impact_value(t.as_str()).is_some(),
            _ => false,
        },
        Impact::Flag { .. } => match edit {
            ImpactEdit::Character(_) => true,
            ImpactEdit::Path(_) => true,
            ImpactEdit::Checked(_) => true,
            _ => false,
        },
    }
}

/// Applies the input `edit` to the row at `index` of the impact editor and
/// tells whether the row took it, in which case the editor saves the list.
/// An input the row does not take leaves the list exactly as it was; the
/// other rows always stay as they were.
pub fn edit_impact_row(impacts: &mut Vec<Impact>, index: usize, edit: &ImpactEdit) -> (accepted: bool)
    requires
        index < old(impacts)@.len(),
    ensures
        accepted == edit_is_accepted(old(impacts)@[index as int]@, edit@),
        !accepted ==> final(impacts)@ == old(impacts)@,
        final(impacts)@.len() == old(impacts)@.len(),
        final(impacts)@[index as int]@ == edited_impact(old(impacts)@[index as int]@, edit@),
        forall|j: int|
            0 <= j < old(impacts)@.len() && j != index ==> #[trigger] final(impacts)@[j]
                == old(impacts)@[j],
{
    let accepted = row_accepts(&impacts[index], edit, false);
    if accepted {
        let changed = edit_row(&impacts[index], edit, false);
        impacts.set(index, changed);
    } else {
        proof {
            lemma_rejected_edit_changes_nothing(impacts@[index as int]@, edit@, false);
        }
    }
    accepted
}

/// Applies the input `edit` to the row at `index` of the effect editor,
/// whose menus select by label. An input the row does not take leaves the
/// list exactly as it was; the other rows always stay as they were.
pub fn edit_effect_row(effects: &mut Vec<Impact>, index: usize, edit: &ImpactEdit)
    requires
        index < old(effects)@.len(),
    ensures
        !row_edit_accepted(old(effects)@[index as int]@, edit@, true) ==> final(effects)@ == old(
            effects,
        )@,
        final(effects)@.len() == old(effects)@.len(),
        final(effects)@[index as int]@ == edited_effect(old(effects)@[index as int]@, edit@),
        forall|j: int|
            0 <= j < old(effects)@.len() && j != index ==> #[trigger] final(effects)@[j]
                == old(effects)@[j],
{
    if row_accepts(&effects[index], edit, true) {
        let changed = edit_row(&effects[index], edit, true);
        effects.set(index, changed);
    } else {
        proof {
            lemma_rejected_edit_changes_nothing(effects@[index as int]@, edit@, true);
        }
    }
}

/// Changes the kind of the row at `index` to `to`, as the kind menu of the
/// impact editor and of the effect editor does; the other rows stay as they
/// were. The impact editor saves the list after every kind change.
pub fn change_impact_row_type(
    impacts: &mut Vec<Impact>,
    index: usize,
    to: &str,
    characters: &Vec<CharacterOption>,
    relations: &Vec<RelationshipOption>,
)
    requires
        index < old(impacts)@.len(),
    ensures
        final(impacts)@.len() == old(impacts)@.len(),
        final(impacts)@[index as int]@ == update_impact_type_spec(
            to@,
            if characters@.len() > 0 {
                characters@[0].id@
            } else {
                Seq::<char>::empty()
            },
            if relations@.len() > 0 {
                relations@[0].from_id@
            } else {
                Seq::<char>::empty()
            },
            if relations@.len() > 0 {
                relations@[0].to_id@
            } else {
                Seq::<char>::empty()
            },
        ),
        forall|j: int|
            0 <= j < old(impacts)@.len() && j != index ==> #[trigger] final(impacts)@[j]
                == old(impacts)@[j],
{
    let changed = update_impact_type(&impacts[index], to, characters, relations);
    impacts.set(index, changed);
}

/// Removes the row at `index`, as its remove button does; the impact editor
/// saves the list after every removal.
pub fn remove_impact_row(impacts: &mut Vec<Impact>, index: usize)
    requires
        index < old(impacts)@.len(),
    ensures
        final(impacts)@ == old(impacts)@.remove(index as int),
{
    impacts.remove(index);
}


/// What the reader does in one row of the impact editor.
#[derive(Debug, PartialEq)]
pub enum ImpactRowEvent {
    /// An input in one of the row's controls.
    Edit(ImpactEdit),
    /// A choice in the kind menu.
    ChangeType(String),
    /// A press of the remove button.
    Remove,
}

/// Carries out `event` on the row at `index` of the impact editor and tells
/// whether the editor then saves the list: after every kind change and every
/// removal, and after an input exactly when the row takes it.
pub fn handle_impact_row_event(
    impacts: &mut Vec<Impact>,
    index: usize,
    event: &ImpactRowEvent,
    characters: &Vec<CharacterOption>,
    relations: &Vec<RelationshipOption>,
) -> (save: bool)
    requires
        index < old(impacts)@.len(),
    ensures
        match event {
            ImpactRowEvent::Edit(e) => {
                &&& save == edit_is_accepted(old(impacts)@[index as int]@, e@)
                &&& !save ==> final(impacts)@ == old(impacts)@
                &&& final(impacts)@.len() == old(impacts)@.len()
                &&& final(impacts)@[index as int]@ == edited_impact(old(impacts)@[index as int]@, e@)
                &&& forall|j: int|
                    0 <= j < old(impacts)@.len() && j != index ==> #[trigger] final(impacts)@[j]
                        == old(impacts)@[j]
            },
            ImpactRowEvent::ChangeType(to) => {
                &&& save
                &&& final(impacts)@.len() == old(impacts)@.len()
                &&& final(impacts)@[index as int]@ == update_impact_type_spec(
                    to@,
                    if characters@.len() > 0 {
                        characters@[0].id@
                    } else {
                        Seq::<char>::empty()
                    },
                    if relations@.len() > 0 {
                        relations@[0].from_id@
                    } else {
                        Seq::<char>::empty()
                    },
                    if relations@.len() > 0 {
                        relations@[0].to_id@
                    } else {
                        Seq::<char>::empty()
                    },
                )
                &&& forall|j: int|
                    0 <= j < old(impacts)@.len() && j != index ==> #[trigger] final(impacts)@[j]
                        == old(impacts)@[j]
            },
            ImpactRowEvent::Remove => {
                &&& save
                &&& final(impacts)@ == old(impacts)@.remove(index as int)
            },
        },
{
    match event {
        ImpactRowEvent::Edit(e) => edit_impact_row(impacts, index, e),
        ImpactRowEvent::ChangeType(to) => {
            change_impact_row_type(impacts, index, to.as_str(), characters, relations);
            true
        },
        ImpactRowEvent::Remove => {
            remove_impact_row(impacts, index);
            true
        },
    }
}

} // verus!

verus! {

/// No input in a row's controls changes the kind of its impact: only the
/// kind menu does.
pub proof fn law_edit_keeps_kind(i: ImpactView, e: ImpactEditView, by_label: bool)
    ensures
        impact_type_spec(edited_row(i, e, by_label)) == impact_type_spec(i),
{
}

} // verus!
