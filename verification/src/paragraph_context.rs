//! The paragraphs the reader has loaded, the forms their stored choices take,
//! and the lookups by chapter and by id.

use vstd::prelude::*;
use crate::impacts::copy_strings;
use crate::json::{JsonValue, JsonView, opt_json_view, copy_opt_json};
use crate::story_runtime::{opt_view, copy_opt};
use crate::text::{str_equal, views};

verus! {

/// A choice as a loaded paragraph stores it. Current records hold a list of
/// targets; older ones hold a single target.
#[derive(Debug, PartialEq)]
pub enum ParagraphChoice {
    Complex {
        to: Vec<String>,
        type_: String,
        key: Option<String>,
        value: Option<JsonValue>,
        same_page: Option<bool>,
        time_limit: Option<u32>,
        timeout_to: Option<String>,
    },
    ComplexOld {
        to: String,
        type_: String,
        key: Option<String>,
        value: Option<JsonValue>,
        same_page: Option<bool>,
        time_limit: Option<u32>,
        timeout_to: Option<String>,
    },
    Simple(Vec<String>),
    SimpleOld(String),
}

/// The content of a `ParagraphChoice`.
pub enum ParagraphChoiceView {
    Complex {
        to: Seq<Seq<char>>,
        type_: Seq<char>,
        key: Option<Seq<char>>,
        value: Option<JsonView>,
        same_page: Option<bool>,
        time_limit: Option<u32>,
        timeout_to: Option<Seq<char>>,
    },
    ComplexOld {
        to: Seq<char>,
        type_: Seq<char>,
        key: Option<Seq<char>>,
        value: Option<JsonView>,
        same_page: Option<bool>,
        time_limit: Option<u32>,
        timeout_to: Option<Seq<char>>,
    },
    Simple(Seq<Seq<char>>),
    SimpleOld(Seq<char>),
}

impl View for ParagraphChoice {
    type V = ParagraphChoiceView;

    open spec fn view(&self) -> ParagraphChoiceView {
        match self {
            ParagraphChoice::Complex { to, type_, key, value, same_page, time_limit, timeout_to } =>
                ParagraphChoiceView::Complex {
                to: views(to@),
                type_: type_@,
                key: opt_view(*key),
                value: opt_json_view(*value),
                same_page: *same_page,
                time_limit: *time_limit,
                timeout_to: opt_view(*timeout_to),
            },
            ParagraphChoice::ComplexOld { to, type_, key, value, same_page, time_limit, timeout_to } =>
                ParagraphChoiceView::ComplexOld {
                to: to@,
                type_: type_@,
                key: opt_view(*key),
                value: opt_json_view(*value),
                same_page: *same_page,
                time_limit: *time_limit,
                timeout_to: opt_view(*timeout_to),
            },
            ParagraphChoice::Simple(ts) => ParagraphChoiceView::Simple(views(ts@)),
            ParagraphChoice::SimpleOld(t) => ParagraphChoiceView::SimpleOld(t@),
        }
    }
}

/// The targets of a stored choice: a single old-style target is a list of one.
pub open spec fn choice_targets(c: ParagraphChoiceView) -> Seq<Seq<char>> {
    match c {
        ParagraphChoiceView::Complex { to, .. } => to,
        ParagraphChoiceView::ComplexOld { to, .. } => seq![to],
        ParagraphChoiceView::Simple(ts) => ts,
        ParagraphChoiceView::SimpleOld(t) => seq![t],
    }
}

/// The action type of a stored choice: the simple forms are jumps (`goto`).
pub open spec fn choice_type(c: ParagraphChoiceView) -> Seq<char> {
    match c {
        ParagraphChoiceView::Complex { type_, .. } => type_,
        ParagraphChoiceView::ComplexOld { type_, .. } => type_,
        _ => "goto"@,
    }
}

/// The key of a stored choice's action.
pub open spec fn choice_key(c: ParagraphChoiceView) -> Option<Seq<char>> {
    match c {
        ParagraphChoiceView::Complex { key, .. } => key,
        ParagraphChoiceView::ComplexOld { key, .. } => key,
        _ => None,
    }
}

/// The value of a stored choice's action.
pub open spec fn choice_value(c: ParagraphChoiceView) -> Option<JsonView> {
    match c {
        ParagraphChoiceView::Complex { value, .. } => value,
        ParagraphChoiceView::ComplexOld { value, .. } => value,
        _ => None,
    }
}

/// Whether the choice's target shows on the same page.
pub open spec fn choice_same_page(c: ParagraphChoiceView) -> Option<bool> {
    match c {
        ParagraphChoiceView::Complex { same_page, .. } => same_page,
        ParagraphChoiceView::ComplexOld { same_page, .. } => same_page,
        _ => None,
    }
}

/// The choice's time limit in seconds.
pub open spec fn choice_time_limit(c: ParagraphChoiceView) -> Option<u32> {
    match c {
        ParagraphChoiceView::Complex { time_limit, .. } => time_limit,
        ParagraphChoiceView::ComplexOld { time_limit, .. } => time_limit,
        _ => None,
    }
}

impl ParagraphChoice {
    /// The targets of the choice.
    pub fn get_to(&self) -> (r: Vec<String>)
        ensures
            views(r@) == choice_targets(self@),
    {
        match self {
            ParagraphChoice::Complex { to, .. } => copy_strings(to),
            ParagraphChoice::ComplexOld { to, .. } => {
                let r = vec![to.clone()];
                assert(views(r@) =~= seq![to@]);
                r
            },
            ParagraphChoice::Simple(texts) => copy_strings(texts),
            ParagraphChoice::SimpleOld(text) => {
                let r = vec![text.clone()];
                assert(views(r@) =~= seq![text@]);
                r
            },
        }
    }

    /// The action type of the choice.
    pub fn get_type(&self) -> (r: String)
        ensures
            r@ == choice_type(self@),
    {
        match self {
            ParagraphChoice::Complex { type_, .. } => type_.clone(),
            ParagraphChoice::ComplexOld { type_, .. } => type_.clone(),
            ParagraphChoice::Simple(_) => "goto".to_string(),
            ParagraphChoice::SimpleOld(_) => "goto".to_string(),
        }
    }

    /// The key of the choice's action.
    pub fn get_key(&self) -> (r: Option<String>)
        ensures
            opt_view(r) == choice_key(self@),
    {
        match self {
            ParagraphChoice::Complex { key, .. } => copy_opt(key),
            ParagraphChoice::ComplexOld { key, .. } => copy_opt(key),
            ParagraphChoice::Simple(_) => None,
            ParagraphChoice::SimpleOld(_) => None,
        }
    }

    /// The value of the choice's action.
    pub fn get_value(&self) -> (r: Option<JsonValue>)
        ensures
            opt_json_view(r) == choice_value(self@),
    {
        match self {
            ParagraphChoice::Complex { value, .. } => copy_opt_json(value),
            ParagraphChoice::ComplexOld { value, .. } => copy_opt_json(value),
            ParagraphChoice::Simple(_) => None,
            ParagraphChoice::SimpleOld(_) => None,
        }
    }

    /// Whether the choice's target shows on the same page.
    pub fn get_same_page(&self) -> (r: Option<bool>)
        ensures
            r == choice_same_page(self@),
    {
        match self {
            ParagraphChoice::Complex { same_page, .. } => *same_page,
            ParagraphChoice::ComplexOld { same_page, .. } => *same_page,
            ParagraphChoice::Simple(_) => None,
            ParagraphChoice::SimpleOld(_) => None,
        }
    }

    /// The choice's time limit in seconds.
    pub fn get_time_limit(&self) -> (r: Option<u32>)
        ensures
            r == choice_time_limit(self@),
    {
        match self {
            ParagraphChoice::Complex { time_limit, .. } => *time_limit,
            ParagraphChoice::ComplexOld { time_limit, .. } => *time_limit,
            ParagraphChoice::Simple(_) => None,
            ParagraphChoice::SimpleOld(_) => None,
        }
    }
}

impl Clone for ParagraphChoice {
    fn clone(&self) -> (r: Self)
        ensures
            r@ == self@,
    {
        match self {
            ParagraphChoice::Complex { to, type_, key, value, same_page, time_limit, timeout_to } =>
                ParagraphChoice::Complex {
                to: copy_strings(to),
                type_: type_.clone(),
                key: copy_opt(key),
                value: copy_opt_json(value),
                same_page: *same_page,
                time_limit: *time_limit,
                timeout_to: copy_opt(timeout_to),
            },
            ParagraphChoice::ComplexOld { to, type_, key, value, same_page, time_limit, timeout_to } =>
                ParagraphChoice::ComplexOld {
                to: to.clone(),
                type_: type_.clone(),
                key: copy_opt(key),
                value: copy_opt_json(value),
                same_page: *same_page,
                time_limit: *time_limit,
                timeout_to: copy_opt(timeout_to),
            },
            ParagraphChoice::Simple(ts) => ParagraphChoice::Simple(copy_strings(ts)),
            ParagraphChoice::SimpleOld(t) => ParagraphChoice::SimpleOld(t.clone()),
        }
    }
}

/// A paragraph's text in one language, with the captions of its choices.
#[derive(Debug, PartialEq)]
pub struct Text {
    pub lang: String,
    pub paragraphs: String,
    pub choices: Vec<String>,
}

/// The content of a `Text`.
pub struct TextView {
    pub lang: Seq<char>,
    pub paragraphs: Seq<char>,
    pub choices: Seq<Seq<char>>,
}

impl View for Text {
    type V = TextView;

    open spec fn view(&self) -> TextView {
        TextView { lang: self.lang@, paragraphs: self.paragraphs@, choices: views(self.choices@) }
    }
}

impl Clone for Text {
    fn clone(&self) -> (r: Self)
        ensures
            r@ == self@,
    {
        Text {
            lang: self.lang.clone(),
            paragraphs: self.paragraphs.clone(),
            choices: copy_strings(&self.choices),
        }
    }
}

/// A loaded paragraph.
#[derive(Debug, PartialEq)]
pub struct Paragraph {
    pub id: String,
    pub chapter_id: String,
    pub texts: Vec<Text>,
    pub choices: Vec<ParagraphChoice>,
}

/// The content of a `Paragraph`.
pub struct ParagraphView {
    pub id: Seq<char>,
    pub chapter_id: Seq<char>,
    pub texts: Seq<TextView>,
    pub choices: Seq<ParagraphChoiceView>,
}

/// The views of a list of texts.
pub open spec fn text_views(ts: Seq<Text>) -> Seq<TextView> {
    ts.map_values(|t: Text| t@)
}

/// The views of a list of stored choices.
pub open spec fn choice_views(cs: Seq<ParagraphChoice>) -> Seq<ParagraphChoiceView> {
    cs.map_values(|c: ParagraphChoice| c@)
}

/// The views of a list of paragraphs.
pub open spec fn paragraph_views(ps: Seq<Paragraph>) -> Seq<ParagraphView> {
    ps.map_values(|p: Paragraph| p@)
}

impl View for Paragraph {
    type V = ParagraphView;

    open spec fn view(&self) -> ParagraphView {
        ParagraphView {
            id: self.id@,
            chapter_id: self.chapter_id@,
            texts: text_views(self.texts@),
            choices: choice_views(self.choices@),
        }
    }
}

/// A copy of a list of texts.
fn copy_texts(v: &Vec<Text>) -> (r: Vec<Text>)
    ensures
        text_views(r@) == text_views(v@),
{
    let mut out: Vec<Text> = Vec::new();
    let mut i: usize = 0;
    while i < v.len()
        invariant
            i <= v@.len(),
            text_views(out@) == text_views(v@.subrange(0, i as int)),
        decreases v@.len() - i,
    {
        let t = v[i].clone();
        let ghost before = out@;
        out.push(t);
        assert(out@ == before.push(t));
        assert(text_views(out@) =~= text_views(before).push(t@));
        assert(text_views(v@.subrange(0, i + 1)) =~= text_views(v@.subrange(0, i as int)).push(v@[i as int]@));
        i = i + 1;
    }
    assert(v@.subrange(0, v@.len() as int) =~= v@);
    out
}

/// A copy of a list of stored choices.
fn copy_choices(v: &Vec<ParagraphChoice>) -> (r: Vec<ParagraphChoice>)
    ensures
        choice_views(r@) == choice_views(v@),
{
    let mut out: Vec<ParagraphChoice> = Vec::new();
    let mut i: usize = 0;
    while i < v.len()
        invariant
            i <= v@.len(),
            choice_views(out@) == choice_views(v@.subrange(0, i as int)),
        decreases v@.len() - i,
    {
        let c = v[i].clone();
        let ghost before = out@;
        out.push(c);
        assert(out@ == before.push(c));
        assert(choice_views(out@) =~= choice_views(before).push(c@));
        assert(choice_views(v@.subrange(0, i + 1)) =~= choice_views(v@.subrange(0, i as int)).push(v@[i as int]@));
        i = i + 1;
    }
    assert(v@.subrange(0, v@.len() as int) =~= v@);
    out
}

impl Clone for Paragraph {
    fn clone(&self) -> (r: Self)
        ensures
            r@ == self@,
    {
        Paragraph {
            id: self.id.clone(),
            chapter_id: self.chapter_id.clone(),
            texts: copy_texts(&self.texts),
            choices: copy_choices(&self.choices),
        }
    }
}

/// The body of the paragraph collection as the API sends it.
#[derive(Debug)]
pub struct ParagraphData {
    pub items: Vec<Paragraph>,
}

} // verus!

verus! {

/// The paragraphs of `ps` that belong to `chapter_id`, in order.
pub open spec fn in_chapter(ps: Seq<ParagraphView>, chapter_id: Seq<char>) -> Seq<ParagraphView>
    decreases ps.len(),
{
    if ps.len() == 0 {
        Seq::empty()
    } else {
        let rest = in_chapter(ps.drop_last(), chapter_id);
        if ps.last().chapter_id == chapter_id {
            rest.push(ps.last())
        } else {
            rest
        }
    }
}

/// The first paragraph of `ps` whose id is `id`.
pub open spec fn find_by_id(ps: Seq<ParagraphView>, id: Seq<char>) -> Option<ParagraphView>
    decreases ps.len(),
{
    if ps.len() == 0 {
        None
    } else if ps[0].id == id {
        Some(ps[0])
    } else {
        find_by_id(ps.drop_first(), id)
    }
}

/// The paragraphs the reader has loaded, and whether it has loaded them.
pub struct ParagraphState {
    pub paragraphs: Vec<Paragraph>,
    pub loaded: bool,
}

impl ParagraphState {
    /// Nothing loaded yet.
    pub fn new() -> (r: Self)
        ensures
            r.paragraphs@.len() == 0,
            !r.loaded,
    {
        ParagraphState { paragraphs: Vec::new(), loaded: false }
    }

    /// Takes the loaded paragraphs, and marks the state loaded.
    pub fn set_paragraphs(&mut self, paragraphs: Vec<Paragraph>)
        ensures
            final(self).paragraphs@ == paragraphs@,
            final(self).loaded,
    {
        self.paragraphs = paragraphs;
        self.loaded = true;
    }

    /// Copies of the paragraphs of one chapter, in order.
    pub fn get_by_chapter(&self, chapter_id: &str) -> (r: Vec<Paragraph>)
        ensures
            paragraph_views(r@) == in_chapter(paragraph_views(self.paragraphs@), chapter_id@),
    {
        let ghost ps = paragraph_views(self.paragraphs@);
        let mut out: Vec<Paragraph> = Vec::new();
        let mut i: usize = 0;
        while i < self.paragraphs.len()
            invariant
                ps == paragraph_views(self.paragraphs@),
                i <= self.paragraphs@.len(),
                paragraph_views(out@) == in_chapter(ps.subrange(0, i as int), chapter_id@),
            decreases self.paragraphs@.len() - i,
        {
            assert(ps.subrange(0, i + 1).drop_last() =~= ps.subrange(0, i as int));
            assert(ps.subrange(0, i + 1).last() == self.paragraphs@[i as int]@);
            if str_equal(self.paragraphs[i].chapter_id.as_str(), chapter_id) {
                let p = self.paragraphs[i].clone();
                let ghost before = out@;
                out.push(p);
                assert(paragraph_views(out@) =~= paragraph_views(before).push(p@));
            }
            i = i + 1;
        }
        assert(ps.subrange(0, self.paragraphs@.len() as int) =~= ps);
        out
    }

    /// A copy of the first paragraph with the id `id`.
    pub fn get_by_id(&self, id: &str) -> (r: Option<Paragraph>)
        ensures
            match r {
                Some(p) => find_by_id(paragraph_views(self.paragraphs@), id@) == Some(p@),
                None => find_by_id(paragraph_views(self.paragraphs@), id@) is None,
            },
    {
        let ghost ps = paragraph_views(self.paragraphs@);
        let n = self.paragraphs.len();
        let mut i: usize = 0;
        assert(ps.subrange(0, n as int) =~= ps);
        while i < n
            invariant
                n == self.paragraphs@.len(),
                ps == paragraph_views(self.paragraphs@),
                i <= n,
                find_by_id(ps.subrange(i as int, n as int), id@) == find_by_id(ps, id@),
            decreases n - i,
        {
            let ghost rest = ps.subrange(i as int, n as int);
            assert(rest[0] == self.paragraphs@[i as int]@);
            if str_equal(self.paragraphs[i].id.as_str(), id) {
                return Some(self.paragraphs[i].clone());
            }
            assert(rest.drop_first() =~= ps.subrange(i + 1, n as int));
            i = i + 1;
        }
        None
    }
}

/// Every paragraph that a chapter lookup gives belongs to that chapter and
/// is one of the loaded paragraphs.
pub proof fn law_chapter_lookup_sound(ps: Seq<ParagraphView>, chapter_id: Seq<char>)
    ensures
        forall|k: int|
            0 <= k < in_chapter(ps, chapter_id).len() ==> (#[trigger] in_chapter(ps, chapter_id)[k]).chapter_id
                == chapter_id && ps.contains(in_chapter(ps, chapter_id)[k]),
    decreases ps.len(),
{
    if ps.len() > 0 {
        law_chapter_lookup_sound(ps.drop_last(), chapter_id);
        let rest = in_chapter(ps.drop_last(), chapter_id);
        assert forall|k: int| 0 <= k < rest.len() implies ps.contains(#[trigger] rest[k]) by {
            let j = choose|j: int| 0 <= j < ps.drop_last().len() && ps.drop_last()[j] == rest[k];
            assert(ps[j] == rest[k]);
        }
        assert(ps[ps.len() - 1] == ps.last());
    }
}

/// The paragraph an id lookup gives carries that id and is one of the loaded
/// paragraphs; and a lookup gives nothing only when no loaded paragraph has
/// the id.
pub proof fn law_id_lookup_sound(ps: Seq<ParagraphView>, id: Seq<char>)
    ensures
        match find_by_id(ps, id) {
            Some(p) => p.id == id && ps.contains(p),
            None => forall|k: int| 0 <= k < ps.len() ==> (#[trigger] ps[k]).id != id,
        },
    decreases ps.len(),
{
    if ps.len() > 0 && ps[0].id != id {
        law_id_lookup_sound(ps.drop_first(), id);
        match find_by_id(ps.drop_first(), id) {
            Some(p) => {
                let j = choose|j: int| 0 <= j < ps.drop_first().len() && ps.drop_first()[j] == p;
                assert(ps[j + 1] == p);
            },
            None => {
                assert forall|k: int| 0 <= k < ps.len() implies (#[trigger] ps[k]).id != id by {
                    if k > 0 {
                        assert(ps[k] == ps.drop_first()[k - 1]);
                    }
                }
            },
        }
    } else if ps.len() > 0 {
        assert(ps[0] == ps[0]);
    }
}

} // verus!
