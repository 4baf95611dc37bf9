//! The translation form: paragraphs with their texts in each language, the
//! choices they offer, and the rules by which the form edits and accepts them.

use vstd::prelude::*;
use crate::choices_reducer::{Choice as EditorChoice, ChoiceView as EditorChoiceView, set_field_spec};
use crate::json::{JsonValue, JsonView, opt_json_view, copy_opt_json};
use crate::story_runtime::{opt_view, copy_opt};
use crate::text::{is_blank, str_equal, trim_spec, views};

verus! {

/// A choice as a paragraph stores it: either a full action, or the bare
/// target of a jump.
#[derive(Debug, PartialEq)]
pub enum ParagraphChoice {
    Complex {
        to: String,
        type_: String,
        key: Option<String>,
        value: Option<JsonValue>,
        same_page: Option<bool>,
        time_limit: Option<u32>,
    },
    Simple(String),
}

/// The content of a `ParagraphChoice`.
pub enum ParagraphChoiceView {
    Complex {
        to: Seq<char>,
        type_: Seq<char>,
        key: Option<Seq<char>>,
        value: Option<JsonView>,
        same_page: Option<bool>,
        time_limit: Option<u32>,
    },
    Simple(Seq<char>),
}

impl View for ParagraphChoice {
    type V = ParagraphChoiceView;

    open spec fn view(&self) -> ParagraphChoiceView {
        match self {
            ParagraphChoice::Complex { to, type_, key, value, same_page, time_limit } =>
                ParagraphChoiceView::Complex {
                to: to@,
                type_: type_@,
                key: opt_view(*key),
                value: opt_json_view(*value),
                same_page: *same_page,
                time_limit: *time_limit,
            },
            ParagraphChoice::Simple(t) => ParagraphChoiceView::Simple(t@),
        }
    }
}

/// Where a stored choice leads.
pub open spec fn choice_to(c: ParagraphChoiceView) -> Seq<char> {
    match c {
        ParagraphChoiceView::Complex { to, .. } => to,
        ParagraphChoiceView::Simple(t) => t,
    }
}

/// The action type of a stored choice: a bare target is a jump (`goto`).
pub open spec fn choice_type(c: ParagraphChoiceView) -> Seq<char> {
    match c {
        ParagraphChoiceView::Complex { type_, .. } => type_,
        ParagraphChoiceView::Simple(_) => "goto"@,
    }
}

/// The key of a stored choice's action, if it has one.
pub open spec fn choice_key(c: ParagraphChoiceView) -> Option<Seq<char>> {
    match c {
        ParagraphChoiceView::Complex { key, .. } => key,
        ParagraphChoiceView::Simple(_) => None,
    }
}

/// The value of a stored choice's action, if it has one.
pub open spec fn choice_value(c: ParagraphChoiceView) -> Option<JsonView> {
    match c {
        ParagraphChoiceView::Complex { value, .. } => value,
        ParagraphChoiceView::Simple(_) => None,
    }
}

impl ParagraphChoice {
    /// Where the choice leads.
    pub fn get_to(&self) -> (r: String)
        ensures
            r@ == choice_to(self@),
    {
        match self {
            ParagraphChoice::Complex { to, .. } => to.clone(),
            ParagraphChoice::Simple(text) => text.clone(),
        }
    }

    /// The choice's action type.
    pub fn get_type(&self) -> (r: String)
        ensures
            r@ == choice_type(self@),
    {
        match self {
            ParagraphChoice::Complex { type_, .. } => type_.clone(),
            ParagraphChoice::Simple(_) => "goto".to_string(),
        }
    }

    /// The key of the choice's action.
    pub fn get_key(&self) -> (r: Option<String>)
        ensures
            opt_view(r) == choice_key(self@),
    {
        match self {
            ParagraphChoice::Complex { key, .. } => copy_opt(key),
            ParagraphChoice::Simple(_) => None,
        }
    }

    /// The value of the choice's action.
    pub fn get_value(&self) -> (r: Option<JsonValue>)
        ensures
            opt_json_view(r) == choice_value(self@),
    {
        match self {
            ParagraphChoice::Complex { value, .. } => copy_opt_json(value),
            ParagraphChoice::Simple(_) => None,
        }
    }
}

/// A paragraph's text in one language, with the captions of its choices.
#[derive(Debug, PartialEq)]
pub struct Text {
    pub lang: String,
    pub paragraphs: String,
    pub choices: Vec<String>,
}

/// A paragraph of the story: its texts and the choices it offers.
#[derive(Debug, PartialEq)]
pub struct Paragraph {
    pub id: String,
    pub chapter_id: String,
    pub texts: Vec<Text>,
    pub choices: Vec<ParagraphChoice>,
}

} // verus!

verus! {

/// The form may be sent once the paragraph text, the new caption and the new
/// target hold more than white space and a paragraph is selected.
pub open spec fn form_valid(
    paragraphs: Seq<char>,
    new_caption: Seq<char>,
    new_goto: Seq<char>,
    has_selected_paragraph: bool,
) -> bool {
    trim_spec(paragraphs).len() > 0 && trim_spec(new_caption).len() > 0 && trim_spec(new_goto).len()
        > 0 && has_selected_paragraph
}

/// Whether the form may be sent.
pub fn is_form_valid(
    paragraphs: &str,
    new_caption: &str,
    new_goto: &str,
    has_selected_paragraph: bool,
) -> (b: bool)
    ensures
        b == form_valid(paragraphs@, new_caption@, new_goto@, has_selected_paragraph),
{
    !is_blank(paragraphs) && !is_blank(new_caption) && !is_blank(new_goto) && has_selected_paragraph
}

/// What the form's field edit does to a choice: the editor's own edit, except
/// that the form keeps `same_page` out of reach.
pub open spec fn form_edit_spec(c: EditorChoiceView, field: Seq<char>, value: Seq<char>) -> EditorChoiceView {
    if field == "same_page"@ {
        c
    } else {
        set_field_spec(c, field, value)
    }
}

/// Gives the field named `field` of `choice` the text `value`.
pub fn edit_choice_field(choice: &mut EditorChoice, field: &str, value: String)
    ensures
        final(choice)@ == form_edit_spec(old(choice)@, field@, value@),
{
    if !str_equal(field, "same_page") {
        choice.set_field(field, value);
    }
}

/// `targets` with `id` added at the end, unless it is there already.
pub open spec fn with_target(targets: Seq<Seq<char>>, id: Seq<char>) -> Seq<Seq<char>> {
    if targets.contains(id) {
        targets
    } else {
        targets.push(id)
    }
}

/// `targets` without any occurrence of `id`, the rest in order.
pub open spec fn without_target(targets: Seq<Seq<char>>, id: Seq<char>) -> Seq<Seq<char>>
    decreases targets.len(),
{
    if targets.len() == 0 {
        targets
    } else {
        let rest = without_target(targets.drop_last(), id);
        if targets.last() == id {
            rest
        } else {
            rest.push(targets.last())
        }
    }
}

/// Adds the paragraph `id` to a choice's targets, once.
pub fn add_choice_target(targets: &mut Vec<String>, id: String)
    ensures
        views(final(targets)@) == with_target(views(old(targets)@), id@),
{
    let ghost ts = views(targets@);
    let mut present = false;
    let mut i: usize = 0;
    while i < targets.len()
        invariant
            ts == views(targets@),
            i <= targets@.len(),
            present == (exists|j: int| 0 <= j < i && #[trigger] ts[j] == id@),
        decreases targets@.len() - i,
    {
        assert(ts[i as int] == targets@[i as int]@);
        if str_equal(targets[i].as_str(), id.as_str()) {
            present = true;
        }
        i = i + 1;
    }
    if !present {
        let ghost before = targets@;
        targets.push(id);
        assert(views(targets@) =~= views(before).push(id@));
    }
}

/// Takes the paragraph `id` out of a choice's targets.
pub fn remove_choice_target(targets: &mut Vec<String>, id: &str)
    ensures
        views(final(targets)@) == without_target(views(old(targets)@), id@),
{
    let ghost ts = views(targets@);
    let mut kept: Vec<String> = Vec::new();
    let mut i: usize = 0;
    while i < targets.len()
        invariant
            ts == views(targets@),
            i <= targets@.len(),
            views(kept@) == without_target(ts.subrange(0, i as int), id@),
        decreases targets@.len() - i,
    {
        assert(ts.subrange(0, i + 1).drop_last() =~= ts.subrange(0, i as int));
        assert(ts.subrange(0, i + 1).last() == targets@[i as int]@);
        if !str_equal(targets[i].as_str(), id) {
            let t = targets[i].clone();
            let ghost before = kept@;
            kept.push(t);
            assert(views(kept@) =~= views(before).push(t@));
        }
        i = i + 1;
    }
    assert(ts.subrange(0, targets@.len() as int) =~= ts);
    *targets = kept;
}

} // verus!

verus! {

/// Adding a target twice is the same as adding it once, and adding puts it
/// among the targets.
pub proof fn law_add_target_idempotent(targets: Seq<Seq<char>>, id: Seq<char>)
    ensures
        with_target(with_target(targets, id), id) == with_target(targets, id),
        with_target(targets, id).contains(id),
{
    if !targets.contains(id) {
        assert(targets.push(id)[targets.len() as int] == id);
    }
}

/// After a target is removed, it is no longer among the targets, and every
/// other target stays.
pub proof fn law_removed_target_gone(targets: Seq<Seq<char>>, id: Seq<char>)
    ensures
        !without_target(targets, id).contains(id),
        forall|t: Seq<char>| t != id && targets.contains(t) ==> #[trigger] without_target(targets, id).contains(t),
    decreases targets.len(),
{
    if targets.len() > 0 {
        let rest = targets.drop_last();
        law_removed_target_gone(rest, id);
        let r = without_target(rest, id);
        if targets.last() != id {
            assert(r.push(targets.last())[r.len() as int] == targets.last());
            assert forall|t: Seq<char>| t != id && targets.contains(t) implies #[trigger] without_target(targets, id).contains(t) by {
                let j = choose|j: int| 0 <= j < targets.len() && targets[j] == t;
                if j < targets.len() - 1 {
                    assert(rest[j] == t);
                    assert(rest.contains(t));
                    assert(without_target(rest, id).contains(t));
                    let k = choose|k: int| 0 <= k < r.len() && r[k] == t;
                    assert(r.push(targets.last())[k] == t);
                } else {
                    assert(r.push(targets.last())[r.len() as int] == t);
                }
            }
            assert forall|k: int| 0 <= k < r.push(targets.last()).len() implies r.push(targets.last())[k] != id by {
                if k < r.len() {
                    assert(r.push(targets.last())[k] == r[k]);
                }
            }
        } else {
            assert forall|t: Seq<char>| t != id && targets.contains(t) implies #[trigger] without_target(targets, id).contains(t) by {
                let j = choose|j: int| 0 <= j < targets.len() && targets[j] == t;
                assert(j < targets.len() - 1);
                assert(rest[j] == t);
                assert(rest.contains(t));
                assert(without_target(rest, id).contains(t));
            }
        }
    }
}

} // verus!
