//! The story as the content API delivers it: chapters of paragraphs whose
//! choices lead to one or more targets.

use vstd::prelude::*;
use smallvec::SmallVec;
use crate::json::{JsonValue, opt_json_view};
use crate::story_runtime::opt_view;
use crate::text::views;

verus! {

/// The targets of an action, kept in a `SmallVec` of the `smallvec` crate,
/// which holds up to four of them without a heap allocation.
#[verifier::external_body]
#[derive(Debug)]
pub struct TargetList {
    items: SmallVec<[String; 4]>,
}

/// The targets a target list holds, in order.
pub uninterp spec fn target_list(v: TargetList) -> Seq<Seq<char>>;

impl TargetList {
    /// An empty target list, from `SmallVec::new`.
    #[verifier::external_body]
    fn new() -> (r: TargetList)
        ensures
            target_list(r) == Seq::<Seq<char>>::empty(),
    {
        TargetList { items: SmallVec::new() }
    }

    /// Appends a target, by `SmallVec::push`, which puts the item after the
    /// others.
    #[verifier::external_body]
    fn push(&mut self, target: String)
        ensures
            target_list(*final(self)) == target_list(*old(self)).push(target@),
    {
        self.items.push(target)
    }

    /// A target list holding the items of `v` in order, from
    /// `SmallVec::from_vec`.
    #[verifier::external_body]
    fn from_vec(v: Vec<String>) -> (r: TargetList)
        ensures
            target_list(r) == views(v@),
    {
        TargetList { items: SmallVec::from_vec(v) }
    }

    /// Copies of the targets in order, by the slice's `to_vec`.
    #[verifier::external_body]
    fn to_vec(&self) -> (r: Vec<String>)
        ensures
            views(r@) == target_list(*self),
    {
        self.items.to_vec()
    }
}

/// The `to` member of a stored action: a list of targets, or a single one.
pub enum ToField {
    Multiple(Vec<String>),
    Single(String),
}

/// The targets that a `to` member names: a list as it is, a single target
/// as a list of one, and an empty single target as no target at all.
pub open spec fn to_field_targets(to: ToField) -> Seq<Seq<char>> {
    match to {
        ToField::Multiple(v) => views(v@),
        ToField::Single(s) => if s@.len() == 0 {
            Seq::empty()
        } else {
            seq![s@]
        },
    }
}

/// What taking a choice does.
#[derive(Debug)]
pub struct Action {
    pub type_: String,
    pub key: Option<String>,
    pub value: Option<JsonValue>,
    pub to: TargetList,
}

impl Action {
    /// The action that a stored record describes, with its `to` member read
    /// as a target list.
    pub fn from_parts(type_: String, key: Option<String>, value: Option<JsonValue>, to: ToField) -> (r:
        Action)
        ensures
            r.type_@ == type_@,
            opt_view(r.key) == opt_view(key),
            opt_json_view(r.value) == opt_json_view(value),
            target_list(r.to) == to_field_targets(to),
    {
        let to = match to {
            ToField::Multiple(v) => TargetList::from_vec(v),
            ToField::Single(s) => {
                if s.unicode_len() == 0 {
                    TargetList::new()
                } else {
                    let ghost sv = s@;
                    let mut v = TargetList::new();
                    v.push(s);
                    assert(target_list(v) =~= seq![sv]);
                    v
                }
            },
        };
        Action { type_, key, value, to }
    }

    /// The action's targets, in order.
    pub fn targets(&self) -> (r: Vec<String>)
        ensures
            views(r@) == target_list(self.to),
    {
        self.to.to_vec()
    }
}

/// A choice of a paragraph.
#[derive(Debug)]
pub struct Choice {
    pub caption: String,
    pub action: Action,
}

/// A paragraph of a chapter, with its choices.
#[derive(Debug)]
pub struct Paragraph {
    pub id: String,
    pub content: String,
    pub choices: Vec<Choice>,
}

/// A chapter of the story.
#[derive(Debug)]
pub struct Chapter {
    pub id: String,
    pub title: String,
    pub paragraphs: Vec<Paragraph>,
}

/// The story.
#[derive(Debug)]
pub struct Story {
    pub id: String,
    pub title: String,
    pub description: String,
    pub chapters: Vec<Chapter>,
}

} // verus!
