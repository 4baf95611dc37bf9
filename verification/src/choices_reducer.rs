//! The choice editor's state and the transitions that its actions make.

use vstd::prelude::*;
use crate::impacts::{Impact, ImpactView, impact_views};
use crate::json::{JsonValue, JsonView, opt_json_view, copy_opt_json};
use crate::paragraph_list::{Paragraph as ParagraphListParagraph, ParagraphView, paragraph_views};
use crate::story_runtime::{opt_view, copy_opt};
use crate::text::{views, split_spec, trim_spec, parse_unsigned_spec, str_equal};

verus! {

/// One choice as the editor holds it.
#[derive(Debug, PartialEq)]
pub struct Choice {
    pub caption: String,
    pub goto: Vec<String>,
    pub action_type: String,
    pub action_key: Option<String>,
    pub action_value: Option<JsonValue>,
    pub target_chapter: String,
    pub same_page: bool,
    pub time_limit: Option<u32>,
    pub timeout_to: Option<String>,
    pub timeout_target_chapter: String,
    pub impacts: Vec<Impact>,
}

/// The content of an edited choice.
pub struct ChoiceView {
    pub caption: Seq<char>,
    pub goto: Seq<Seq<char>>,
    pub action_type: Seq<char>,
    pub action_key: Option<Seq<char>>,
    pub action_value: Option<JsonView>,
    pub target_chapter: Seq<char>,
    pub same_page: bool,
    pub time_limit: Option<u32>,
    pub timeout_to: Option<Seq<char>>,
    pub timeout_target_chapter: Seq<char>,
    pub impacts: Seq<ImpactView>,
}

impl View for Choice {
    type V = ChoiceView;

    open spec fn view(&self) -> ChoiceView {
        ChoiceView {
            caption: self.caption@,
            goto: views(self.goto@),
            action_type: self.action_type@,
            action_key: opt_view(self.action_key),
            action_value: opt_json_view(self.action_value),
            target_chapter: self.target_chapter@,
            same_page: self.same_page,
            time_limit: self.time_limit,
            timeout_to: opt_view(self.timeout_to),
            timeout_target_chapter: self.timeout_target_chapter@,
            impacts: impact_views(self.impacts@),
        }
    }
}

/// A fresh choice: every text empty, no targets, no action key or value, not on
/// the same page, no time limit, no impacts.
pub open spec fn empty_choice_view() -> ChoiceView {
    ChoiceView {
        caption: Seq::empty(),
        goto: Seq::empty(),
        action_type: Seq::empty(),
        action_key: None,
        action_value: None,
        target_chapter: Seq::empty(),
        same_page: false,
        time_limit: None,
        timeout_to: None,
        timeout_target_chapter: Seq::empty(),
        impacts: Seq::empty(),
    }
}

/// A copy of a list of impacts.
pub fn copy_impacts(v: &Vec<Impact>) -> (r: Vec<Impact>)
    ensures
        impact_views(r@) == impact_views(v@),
{
    let mut out: Vec<Impact> = Vec::new();
    let mut i: usize = 0;
    while i < v.len()
        invariant
            0 <= i <= v.len(),
            impact_views(out@) == impact_views(v@.subrange(0, i as int)),
        decreases v.len() - i,
    {
        let c = v[i].clone();
        let ghost cv = c@;
        let ghost before = out@;
        out.push(c);
        assert(impact_views(out@) =~= impact_views(before).push(cv));
        assert(v@.subrange(0, i + 1) =~= v@.subrange(0, i as int).push(v@[i as int]));
        assert(impact_views(v@.subrange(0, i + 1)) =~= impact_views(v@.subrange(0, i as int)).push(cv));
        i = i + 1;
    }
    assert(v@.subrange(0, v.len() as int) =~= v@);
    out
}

impl Default for Choice {
    /// A fresh choice (see `empty_choice_view`).
    fn default() -> (r: Self)
        ensures
            r@ == empty_choice_view(),
    {
        Choice::new_default()
    }
}

impl Clone for Choice {
    fn clone(&self) -> (r: Self)
        ensures
            r@ == self@,
    {
        Choice {
            caption: self.caption.clone(),
            goto: crate::impacts::copy_strings(&self.goto),
            action_type: self.action_type.clone(),
            action_key: copy_opt(&self.action_key),
            action_value: copy_opt_json(&self.action_value),
            target_chapter: self.target_chapter.clone(),
            same_page: self.same_page,
            time_limit: self.time_limit,
            timeout_to: copy_opt(&self.timeout_to),
            timeout_target_chapter: self.timeout_target_chapter.clone(),
            impacts: copy_impacts(&self.impacts),
        }
    }
}

impl Choice {
    /// A fresh choice (see `empty_choice_view`).
    pub fn new_default() -> (r: Self)
        ensures
            r@ == empty_choice_view(),
    {
        let r = Choice {
            caption: String::new(),
            goto: Vec::new(),
            action_type: String::new(),
            action_key: None,
            action_value: None,
            target_chapter: String::new(),
            same_page: false,
            time_limit: None,
            timeout_to: None,
            timeout_target_chapter: String::new(),
            impacts: Vec::new(),
        };
        assert(views(r.goto@) =~= Seq::<Seq<char>>::empty());
        assert(impact_views(r.impacts@) =~= Seq::<ImpactView>::empty());
        r
    }

    /// The choice as the tuple of its fields, in declaration order.
    pub fn to_tuple(&self) -> (r: (
        String,
        Vec<String>,
        String,
        Option<String>,
        Option<JsonValue>,
        String,
        bool,
        Option<u32>,
        Option<String>,
        String,
        Vec<Impact>,
    ))
        ensures
            Choice::from_tuple_spec(r) == self@,
    {
        (
            self.caption.clone(),
            crate::impacts::copy_strings(&self.goto),
            self.action_type.clone(),
            copy_opt(&self.action_key),
            copy_opt_json(&self.action_value),
            self.target_chapter.clone(),
            self.same_page,
            self.time_limit,
            copy_opt(&self.timeout_to),
            self.timeout_target_chapter.clone(),
            copy_impacts(&self.impacts),
        )
    }

    /// The content of the choice that a tuple of fields makes.
    pub open spec fn from_tuple_spec(
        tup: (
            String,
            Vec<String>,
            String,
            Option<String>,
            Option<JsonValue>,
            String,
            bool,
            Option<u32>,
            Option<String>,
            String,
            Vec<Impact>,
        ),
    ) -> ChoiceView {
        ChoiceView {
            caption: tup.0@,
            goto: views(tup.1@),
            action_type: tup.2@,
            action_key: opt_view(tup.3),
            action_value: opt_json_view(tup.4),
            target_chapter: tup.5@,
            same_page: tup.6,
            time_limit: tup.7,
            timeout_to: opt_view(tup.8),
            timeout_target_chapter: tup.9@,
            impacts: impact_views(tup.10@),
        }
    }

    /// The choice with the fields of a tuple, in declaration order.
    pub fn from_tuple(
        tup: (
            String,
            Vec<String>,
            String,
            Option<String>,
            Option<JsonValue>,
            String,
            bool,
            Option<u32>,
            Option<String>,
            String,
            Vec<Impact>,
        ),
    ) -> (r: Self)
        ensures
            r@ == Choice::from_tuple_spec(tup),
    {
        Choice {
            caption: tup.0,
            goto: tup.1,
            action_type: tup.2,
            action_key: tup.3,
            action_value: tup.4,
            target_chapter: tup.5,
            same_page: tup.6,
            time_limit: tup.7,
            timeout_to: tup.8,
            timeout_target_chapter: tup.9,
            impacts: tup.10,
        }
    }
}

} // verus!

verus! {

/// `s` without item `i`; unchanged when `i` is out of range.
pub open spec fn remove_at<A>(s: Seq<A>, i: int) -> Seq<A> {
    if 0 <= i < s.len() {
        s.remove(i)
    } else {
        s
    }
}

/// `s` with item `i` replaced by `x`; unchanged when `i` is out of range.
pub open spec fn set_at<A>(s: Seq<A>, i: int, x: A) -> Seq<A> {
    if 0 <= i < s.len() {
        s.update(i, x)
    } else {
        s
    }
}

/// `s` with flag `i` flipped; unchanged when `i` is out of range.
pub open spec fn toggle_at(s: Seq<bool>, i: int) -> Seq<bool> {
    if 0 <= i < s.len() {
        s.update(i, !s[i])
    } else {
        s
    }
}

/// `s` cut to length `n`, or padded to it with copies of `d`.
pub open spec fn sync_len<A>(s: Seq<A>, n: nat, d: A) -> Seq<A> {
    if s.len() < n {
        s + Seq::new((n - s.len()) as nat, |_i: int| d)
    } else {
        s.subrange(0, n as int)
    }
}

/// Removes item `idx` of `v` when it exists.
pub fn remove_idx<T>(v: &mut Vec<T>, idx: usize)
    ensures
        final(v)@ == remove_at(old(v)@, idx as int),
{
    if idx < v.len() {
        v.remove(idx);
    }
}

/// Flips flag `idx` of `v` when it exists.
pub fn toggle_idx(v: &mut Vec<bool>, idx: usize)
    ensures
        final(v)@ == toggle_at(old(v)@, idx as int),
{
    if idx < v.len() {
        let b = v[idx];
        v.set(idx, !b);
    }
}

/// Replaces item `idx` of `v` by `x` when it exists.
pub fn set_idx<T>(v: &mut Vec<T>, idx: usize, x: T)
    ensures
        final(v)@ == set_at(old(v)@, idx as int, x),
{
    if idx < v.len() {
        v.set(idx, x);
    }
}

/// Cuts or pads (with `false`) a list of flags to length `n`.
pub fn sync_len_flags(v: &mut Vec<bool>, n: usize)
    ensures
        final(v)@ == sync_len(old(v)@, n as nat, false),
{
    if v.len() < n {
        let ghost start = v@;
        while v.len() < n
            invariant
                start.len() <= v@.len() <= n,
                v@ == start + Seq::new((v@.len() - start.len()) as nat, |_i: int| false),
            decreases n - v.len(),
        {
            let ghost before = v@;
            v.push(false);
            assert(v@ =~= start + Seq::new((v@.len() - start.len()) as nat, |_i: int| false));
        }
    } else {
        v.truncate(n);
        assert(v@ =~= old(v)@.subrange(0, n as int));
    }
}

/// Cuts or pads (with empty strings) a list of strings to length `n`.
pub fn sync_len_strings(v: &mut Vec<String>, n: usize)
    ensures
        views(final(v)@) == sync_len(views(old(v)@), n as nat, Seq::<char>::empty()),
{
    let ghost start = views(v@);
    if v.len() < n {
        while v.len() < n
            invariant
                start.len() <= v@.len() <= n,
                views(v@) == start + Seq::new((v@.len() - start.len()) as nat, |_i: int| Seq::<char>::empty()),
            decreases n - v.len(),
        {
            let ghost before = v@;
            let e = String::new();
            v.push(e);
            proof {
                crate::text::lemma_views_push(before, e);
            }
            assert(views(v@) =~= start + Seq::new((v@.len() - start.len()) as nat, |_i: int| Seq::<char>::empty()));
        }
    } else {
        v.truncate(n);
        assert(views(v@) =~= start.subrange(0, n as int));
    }
}

/// The views of the paragraph lists of the cache.
pub open spec fn cache_views(v: Seq<Vec<ParagraphListParagraph>>) -> Seq<Seq<ParagraphView>> {
    v.map_values(|l: Vec<ParagraphListParagraph>| paragraph_views(l@))
}

/// Cuts or pads (with empty lists) a paragraph cache to length `n`.
pub fn sync_len_caches(v: &mut Vec<Vec<ParagraphListParagraph>>, n: usize)
    ensures
        cache_views(final(v)@) == sync_len(cache_views(old(v)@), n as nat, Seq::<ParagraphView>::empty()),
{
    let ghost start = cache_views(v@);
    if v.len() < n {
        while v.len() < n
            invariant
                start.len() <= v@.len() <= n,
                cache_views(v@) == start + Seq::new((v@.len() - start.len()) as nat, |_i: int| Seq::<ParagraphView>::empty()),
            decreases n - v.len(),
        {
            let ghost before = v@;
            let e: Vec<ParagraphListParagraph> = Vec::new();
            assert(paragraph_views(e@) =~= Seq::<ParagraphView>::empty());
            v.push(e);
            assert(cache_views(v@) =~= cache_views(before).push(Seq::<ParagraphView>::empty()));
            assert(cache_views(v@) =~= start + Seq::new((v@.len() - start.len()) as nat, |_i: int| Seq::<ParagraphView>::empty()));
        }
    } else {
        v.truncate(n);
        assert(cache_views(v@) =~= start.subrange(0, n as int));
    }
}

} // verus!

verus! {

/// The targets that a comma-separated text names: its comma-separated pieces,
/// each with surrounding white space removed.
pub open spec fn goto_targets(value: Seq<char>) -> Seq<Seq<char>> {
    split_spec(value, ',').map_values(|p: Seq<char>| trim_spec(p))
}

/// A choice after the editor field named `field` receives the text `value`.
/// Unknown field names change nothing.
pub open spec fn set_field_spec(c: ChoiceView, field: Seq<char>, value: Seq<char>) -> ChoiceView {
    if field == "caption"@ {
        ChoiceView { caption: value, ..c }
    } else if field == "goto"@ {
        ChoiceView { goto: goto_targets(value), ..c }
    } else if field == "action_type"@ {
        ChoiceView { action_type: value, ..c }
    } else if field == "action_key"@ {
        ChoiceView { action_key: Some(value), ..c }
    } else if field == "action_value"@ {
        ChoiceView { action_value: Some(JsonView::Str(value)), ..c }
    } else if field == "target_chapter"@ {
        ChoiceView { target_chapter: value, ..c }
    } else if field == "same_page"@ {
        ChoiceView { same_page: value == "true"@, ..c }
    } else if field == "time_limit"@ {
        ChoiceView {
            time_limit: match parse_unsigned_spec(value, u32::MAX as int) {
                Some(v) => Some(v as u32),
                None => None,
            },
            ..c
        }
    } else if field == "timeout_to"@ {
        ChoiceView {
            timeout_to: if trim_spec(value).len() == 0 {
                None
            } else {
                Some(value)
            },
            ..c
        }
    } else if field == "timeout_target_chapter"@ {
        ChoiceView { timeout_target_chapter: value, ..c }
    } else {
        c
    }
}

/// The targets named by a comma-separated text.
pub fn parse_goto(value: &str) -> (r: Vec<String>)
    ensures
        views(r@) == goto_targets(value@),
{
    let pieces = crate::text::split_by_char(value, ',');
    let ghost ps = views(pieces@);
    let mut out: Vec<String> = Vec::new();
    let mut i: usize = 0;
    while i < pieces.len()
        invariant
            ps == views(pieces@),
            ps.len() == pieces@.len(),
            0 <= i <= pieces.len(),
            views(out@) == ps.subrange(0, i as int).map_values(|p: Seq<char>| trim_spec(p)),
        decreases pieces.len() - i,
    {
        let t = crate::text::trim_string(pieces[i].as_str());
        let ghost before = out@;
        out.push(t);
        proof {
            crate::text::lemma_views_push(before, t);
        }
        assert(views(out@) =~= ps.subrange(0, i + 1).map_values(|p: Seq<char>| trim_spec(p)));
        i = i + 1;
    }
    assert(ps.subrange(0, pieces.len() as int) =~= ps);
    out
}

impl Choice {
    /// Gives the editor field named `field` the text `value` (see
    /// `set_field_spec`).
    pub fn set_field(&mut self, field: &str, value: String)
        ensures
            final(self)@ == set_field_spec(old(self)@, field@, value@),
    {
        if str_equal(field, "caption") {
            self.caption = value;
        } else if str_equal(field, "goto") {
            self.goto = parse_goto(value.as_str());
        } else if str_equal(field, "action_type") {
            self.action_type = value;
        } else if str_equal(field, "action_key") {
            self.action_key = Some(value);
        } else if str_equal(field, "action_value") {
            self.action_value = Some(JsonValue::Str(value));
        } else if str_equal(field, "target_chapter") {
            self.target_chapter = value;
        } else if str_equal(field, "same_page") {
            self.same_page = str_equal(value.as_str(), "true");
        } else if str_equal(field, "time_limit") {
            self.time_limit = crate::text::parse_u32(value.as_str());
        } else if str_equal(field, "timeout_to") {
            if crate::text::is_blank(value.as_str()) {
                self.timeout_to = None;
            } else {
                self.timeout_to = Some(value);
            }
        } else if str_equal(field, "timeout_target_chapter") {
            self.timeout_target_chapter = value;
        }
    }
}

} // verus!

verus! {

/// Everything the choice editor keeps per choice: the choices, and for each the
/// open/closed state of its pickers, their search texts and their paragraph
/// lists.
#[derive(Debug, PartialEq)]
pub struct ChoicesState {
    pub list: Vec<Choice>,
    pub action_type_open: Vec<bool>,
    pub chapter_open: Vec<bool>,
    pub chapter_search: Vec<String>,
    pub para_open: Vec<bool>,
    pub para_search: Vec<String>,
    pub para_cache: Vec<Vec<ParagraphListParagraph>>,
    pub timeout_chapter_open: Vec<bool>,
    pub timeout_chapter_search: Vec<String>,
    pub timeout_para_open: Vec<bool>,
    pub timeout_para_search: Vec<String>,
    pub timeout_para_cache: Vec<Vec<ParagraphListParagraph>>,
}

/// The content of the editor state.
pub struct ChoicesView {
    pub list: Seq<ChoiceView>,
    pub action_type_open: Seq<bool>,
    pub chapter_open: Seq<bool>,
    pub chapter_search: Seq<Seq<char>>,
    pub para_open: Seq<bool>,
    pub para_search: Seq<Seq<char>>,
    pub para_cache: Seq<Seq<ParagraphView>>,
    pub timeout_chapter_open: Seq<bool>,
    pub timeout_chapter_search: Seq<Seq<char>>,
    pub timeout_para_open: Seq<bool>,
    pub timeout_para_search: Seq<Seq<char>>,
    pub timeout_para_cache: Seq<Seq<ParagraphView>>,
}

/// The views of a list of choices.
pub open spec fn choice_views(v: Seq<Choice>) -> Seq<ChoiceView> {
    v.map_values(|c: Choice| c@)
}

impl View for ChoicesState {
    type V = ChoicesView;

    open spec fn view(&self) -> ChoicesView {
        ChoicesView {
            list: choice_views(self.list@),
            action_type_open: self.action_type_open@,
            chapter_open: self.chapter_open@,
            chapter_search: views(self.chapter_search@),
            para_open: self.para_open@,
            para_search: views(self.para_search@),
            para_cache: cache_views(self.para_cache@),
            timeout_chapter_open: self.timeout_chapter_open@,
            timeout_chapter_search: views(self.timeout_chapter_search@),
            timeout_para_open: self.timeout_para_open@,
            timeout_para_search: views(self.timeout_para_search@),
            timeout_para_cache: cache_views(self.timeout_para_cache@),
        }
    }
}

/// Every per-choice list has one item per choice.
pub open spec fn aligned(s: ChoicesView) -> bool {
    let n = s.list.len();
    &&& s.action_type_open.len() == n
    &&& s.chapter_open.len() == n
    &&& s.chapter_search.len() == n
    &&& s.para_open.len() == n
    &&& s.para_search.len() == n
    &&& s.para_cache.len() == n
    &&& s.timeout_chapter_open.len() == n
    &&& s.timeout_chapter_search.len() == n
    &&& s.timeout_para_open.len() == n
    &&& s.timeout_para_search.len() == n
    &&& s.timeout_para_cache.len() == n
}

/// What the editor can do to its state.
pub enum Action {
    Add,
    Remove(usize),
    /// Give the field named `field` of choice `idx` the text `value`.
    SetField { idx: usize, field: &'static str, value: String },
    SetEffects { idx: usize, impacts: Vec<Impact> },
    ToggleActionType(usize),
    ToggleChapter(usize),
    TogglePara(usize),
    SetChapterSearch { idx: usize, query: String },
    SetParaSearch { idx: usize, query: String },
    SetParaList { idx: usize, list: Vec<ParagraphListParagraph> },
    ToggleTimeoutChapter(usize),
    ToggleTimeoutPara(usize),
    SetTimeoutChapterSearch { idx: usize, query: String },
    SetTimeoutParaSearch { idx: usize, query: String },
    SetTimeoutParaList { idx: usize, list: Vec<ParagraphListParagraph> },
    SetList(Vec<Choice>),
}

/// The content of an action.
pub enum ActionView {
    Add,
    Remove(int),
    SetField { idx: int, field: Seq<char>, value: Seq<char> },
    SetEffects { idx: int, impacts: Seq<ImpactView> },
    ToggleActionType(int),
    ToggleChapter(int),
    TogglePara(int),
    SetChapterSearch { idx: int, query: Seq<char> },
    SetParaSearch { idx: int, query: Seq<char> },
    SetParaList { idx: int, list: Seq<ParagraphView> },
    ToggleTimeoutChapter(int),
    ToggleTimeoutPara(int),
    SetTimeoutChapterSearch { idx: int, query: Seq<char> },
    SetTimeoutParaSearch { idx: int, query: Seq<char> },
    SetTimeoutParaList { idx: int, list: Seq<ParagraphView> },
    SetList(Seq<ChoiceView>),
}

impl View for Action {
    type V = ActionView;

    open spec fn view(&self) -> ActionView {
        match self {
            Action::Add => ActionView::Add,
            Action::Remove(i) => ActionView::Remove(*i as int),
            Action::SetField { idx, field, value } => ActionView::SetField {
                idx: *idx as int,
                field: field@,
                value: value@,
            },
            Action::SetEffects { idx, impacts } => ActionView::SetEffects {
                idx: *idx as int,
                impacts: impact_views(impacts@),
            },
            Action::ToggleActionType(i) => ActionView::ToggleActionType(*i as int),
            Action::ToggleChapter(i) => ActionView::ToggleChapter(*i as int),
            Action::TogglePara(i) => ActionView::TogglePara(*i as int),
            Action::SetChapterSearch { idx, query } => ActionView::SetChapterSearch {
                idx: *idx as int,
                query: query@,
            },
            Action::SetParaSearch { idx, query } => ActionView::SetParaSearch {
                idx: *idx as int,
                query: query@,
            },
            Action::SetParaList { idx, list } => ActionView::SetParaList {
                idx: *idx as int,
                list: paragraph_views(list@),
            },
            Action::ToggleTimeoutChapter(i) => ActionView::ToggleTimeoutChapter(*i as int),
            Action::ToggleTimeoutPara(i) => ActionView::ToggleTimeoutPara(*i as int),
            Action::SetTimeoutChapterSearch { idx, query } => ActionView::SetTimeoutChapterSearch {
                idx: *idx as int,
                query: query@,
            },
            Action::SetTimeoutParaSearch { idx, query } => ActionView::SetTimeoutParaSearch {
                idx: *idx as int,
                query: query@,
            },
            Action::SetTimeoutParaList { idx, list } => ActionView::SetTimeoutParaList {
                idx: *idx as int,
                list: paragraph_views(list@),
            },
            Action::SetList(l) => ActionView::SetList(choice_views(l@)),
        }
    }
}

/// The state after an action. `Add` appends a fresh choice with closed pickers,
/// empty searches and empty paragraph lists; `Remove(i)` drops item `i` from
/// every list that has it; the others change the named item of one list, where
/// it exists; `SetList` replaces the choices and cuts or pads every other list
/// to their number.
pub open spec fn reduce(s: ChoicesView, a: ActionView) -> ChoicesView {
    match a {
        ActionView::Add => ChoicesView {
            list: s.list.push(empty_choice_view()),
            action_type_open: s.action_type_open.push(false),
            chapter_open: s.chapter_open.push(false),
            chapter_search: s.chapter_search.push(Seq::empty()),
            para_open: s.para_open.push(false),
            para_search: s.para_search.push(Seq::empty()),
            para_cache: s.para_cache.push(Seq::empty()),
            timeout_chapter_open: s.timeout_chapter_open.push(false),
            timeout_chapter_search: s.timeout_chapter_search.push(Seq::empty()),
            timeout_para_open: s.timeout_para_open.push(false),
            timeout_para_search: s.timeout_para_search.push(Seq::empty()),
            timeout_para_cache: s.timeout_para_cache.push(Seq::empty()),
        },
        ActionView::Remove(i) => ChoicesView {
            list: remove_at(s.list, i),
            action_type_open: remove_at(s.action_type_open, i),
            chapter_open: remove_at(s.chapter_open, i),
            chapter_search: remove_at(s.chapter_search, i),
            para_open: remove_at(s.para_open, i),
            para_search: remove_at(s.para_search, i),
            para_cache: remove_at(s.para_cache, i),
            timeout_chapter_open: remove_at(s.timeout_chapter_open, i),
            timeout_chapter_search: remove_at(s.timeout_chapter_search, i),
            timeout_para_open: remove_at(s.timeout_para_open, i),
            timeout_para_search: remove_at(s.timeout_para_search, i),
            timeout_para_cache: remove_at(s.timeout_para_cache, i),
        },
        ActionView::SetField { idx, field, value } => if 0 <= idx < s.list.len() {
            ChoicesView { list: s.list.update(idx, set_field_spec(s.list[idx], field, value)), ..s }
        } else {
            s
        },
        ActionView::SetEffects { idx, impacts } => if 0 <= idx < s.list.len() {
            ChoicesView { list: s.list.update(idx, ChoiceView { impacts, ..s.list[idx] }), ..s }
        } else {
            s
        },
        ActionView::ToggleActionType(i) => ChoicesView {
            action_type_open: toggle_at(s.action_type_open, i),
            ..s
        },
        ActionView::ToggleChapter(i) => ChoicesView { chapter_open: toggle_at(s.chapter_open, i), ..s },
        ActionView::TogglePara(i) => ChoicesView { para_open: toggle_at(s.para_open, i), ..s },
        ActionView::SetChapterSearch { idx, query } => ChoicesView {
            chapter_search: set_at(s.chapter_search, idx, query),
            ..s
        },
        ActionView::SetParaSearch { idx, query } => ChoicesView {
            para_search: set_at(s.para_search, idx, query),
            ..s
        },
        ActionView::SetParaList { idx, list } => ChoicesView {
            para_cache: set_at(s.para_cache, idx, list),
            ..s
        },
        ActionView::ToggleTimeoutChapter(i) => ChoicesView {
            timeout_chapter_open: toggle_at(s.timeout_chapter_open, i),
            ..s
        },
        ActionView::ToggleTimeoutPara(i) => ChoicesView {
            timeout_para_open: toggle_at(s.timeout_para_open, i),
            ..s
        },
        ActionView::SetTimeoutChapterSearch { idx, query } => ChoicesView {
            timeout_chapter_search: set_at(s.timeout_chapter_search, idx, query),
            ..s
        },
        ActionView::SetTimeoutParaSearch { idx, query } => ChoicesView {
            timeout_para_search: set_at(s.timeout_para_search, idx, query),
            ..s
        },
        ActionView::SetTimeoutParaList { idx, list } => ChoicesView {
            timeout_para_cache: set_at(s.timeout_para_cache, idx, list),
            ..s
        },
        ActionView::SetList(l) => {
            let n = l.len();
            ChoicesView {
                list: l,
                action_type_open: sync_len(s.action_type_open, n, false),
                chapter_open: sync_len(s.chapter_open, n, false),
                chapter_search: sync_len(s.chapter_search, n, Seq::empty()),
                para_open: sync_len(s.para_open, n, false),
                para_search: sync_len(s.para_search, n, Seq::empty()),
                para_cache: sync_len(s.para_cache, n, Seq::empty()),
                timeout_chapter_open: sync_len(s.timeout_chapter_open, n, false),
                timeout_chapter_search: sync_len(s.timeout_chapter_search, n, Seq::empty()),
                timeout_para_open: sync_len(s.timeout_para_open, n, false),
                timeout_para_search: sync_len(s.timeout_para_search, n, Seq::empty()),
                timeout_para_cache: sync_len(s.timeout_para_cache, n, Seq::empty()),
            }
        },
    }
}

} // verus!

verus! {

/// `views` commutes with removing, replacing and appending an item.
pub proof fn lemma_views_edits(s: Seq<String>, i: int, x: String)
    ensures
        views(remove_at(s, i)) == remove_at(views(s), i),
        views(set_at(s, i, x)) == set_at(views(s), i, x@),
        views(s.push(x)) == views(s).push(x@),
{
    assert(views(remove_at(s, i)) =~= remove_at(views(s), i));
    assert(views(set_at(s, i, x)) =~= set_at(views(s), i, x@));
    assert(views(s.push(x)) =~= views(s).push(x@));
}

/// `choice_views` commutes with removing, replacing and appending an item.
pub proof fn lemma_choice_views_edits(s: Seq<Choice>, i: int, x: Choice)
    ensures
        choice_views(remove_at(s, i)) == remove_at(choice_views(s), i),
        choice_views(set_at(s, i, x)) == set_at(choice_views(s), i, x@),
        choice_views(s.push(x)) == choice_views(s).push(x@),
{
    assert(choice_views(remove_at(s, i)) =~= remove_at(choice_views(s), i));
    assert(choice_views(set_at(s, i, x)) =~= set_at(choice_views(s), i, x@));
    assert(choice_views(s.push(x)) =~= choice_views(s).push(x@));
}

/// `cache_views` commutes with removing, replacing and appending an item.
pub proof fn lemma_cache_views_edits(s: Seq<Vec<ParagraphListParagraph>>, i: int, x: Vec<ParagraphListParagraph>)
    ensures
        cache_views(remove_at(s, i)) == remove_at(cache_views(s), i),
        cache_views(set_at(s, i, x)) == set_at(cache_views(s), i, paragraph_views(x@)),
        cache_views(s.push(x)) == cache_views(s).push(paragraph_views(x@)),
{
    assert(cache_views(remove_at(s, i)) =~= remove_at(cache_views(s), i));
    assert(cache_views(set_at(s, i, x)) =~= set_at(cache_views(s), i, paragraph_views(x@)));
    assert(cache_views(s.push(x)) =~= cache_views(s).push(paragraph_views(x@)));
}

} // verus!

verus! {

impl ChoicesState {
    /// An editor state without choices.
    pub fn new() -> (r: Self)
        ensures
            r@.list.len() == 0,
            aligned(r@),
    {
        ChoicesState {
            list: Vec::new(),
            action_type_open: Vec::new(),
            chapter_open: Vec::new(),
            chapter_search: Vec::new(),
            para_open: Vec::new(),
            para_search: Vec::new(),
            para_cache: Vec::new(),
            timeout_chapter_open: Vec::new(),
            timeout_chapter_search: Vec::new(),
            timeout_para_open: Vec::new(),
            timeout_para_search: Vec::new(),
            timeout_para_cache: Vec::new(),
        }
    }

    /// Carries out `action` (see `reduce`).
    pub fn dispatch(&mut self, action: Action)
        ensures
            final(self)@ == reduce(old(self)@, action@),
    {
        match action {
            Action::Add => {
                let c = Choice::new_default();
                let e1 = String::new();
                let e2 = String::new();
                let e3 = String::new();
                let e4 = String::new();
                let p1: Vec<ParagraphListParagraph> = Vec::new();
                let p2: Vec<ParagraphListParagraph> = Vec::new();
                proof {
                    lemma_choice_views_edits(self.list@, 0, c);
                    lemma_views_edits(self.chapter_search@, 0, e1);
                    lemma_views_edits(self.para_search@, 0, e2);
                    lemma_views_edits(self.timeout_chapter_search@, 0, e3);
                    lemma_views_edits(self.timeout_para_search@, 0, e4);
                    lemma_cache_views_edits(self.para_cache@, 0, p1);
                    lemma_cache_views_edits(self.timeout_para_cache@, 0, p2);
                    assert(paragraph_views(p1@) =~= Seq::<ParagraphView>::empty());
                    assert(paragraph_views(p2@) =~= Seq::<ParagraphView>::empty());
                }
                self.list.push(c);
                self.action_type_open.push(false);
                self.chapter_open.push(false);
                self.chapter_search.push(e1);
                self.para_open.push(false);
                self.para_search.push(e2);
                self.para_cache.push(p1);
                self.timeout_chapter_open.push(false);
                self.timeout_chapter_search.push(e3);
                self.timeout_para_open.push(false);
                self.timeout_para_search.push(e4);
                self.timeout_para_cache.push(p2);
            },
            Action::Remove(i) => {
                proof {
                    lemma_choice_views_edits(self.list@, i as int, arbitrary());
                    lemma_views_edits(self.chapter_search@, i as int, arbitrary());
                    lemma_views_edits(self.para_search@, i as int, arbitrary());
                    lemma_views_edits(self.timeout_chapter_search@, i as int, arbitrary());
                    lemma_views_edits(self.timeout_para_search@, i as int, arbitrary());
                    lemma_cache_views_edits(self.para_cache@, i as int, arbitrary());
                    lemma_cache_views_edits(self.timeout_para_cache@, i as int, arbitrary());
                }
                remove_idx(&mut self.list, i);
                remove_idx(&mut self.action_type_open, i);
                remove_idx(&mut self.chapter_open, i);
                remove_idx(&mut self.chapter_search, i);
                remove_idx(&mut self.para_open, i);
                remove_idx(&mut self.para_search, i);
                remove_idx(&mut self.para_cache, i);
                remove_idx(&mut self.timeout_chapter_open, i);
                remove_idx(&mut self.timeout_chapter_search, i);
                remove_idx(&mut self.timeout_para_open, i);
                remove_idx(&mut self.timeout_para_search, i);
                remove_idx(&mut self.timeout_para_cache, i);
            },
            Action::SetField { idx, field, value } => {
                if idx < self.list.len() {
                    let mut c = self.list[idx].clone();
                    c.set_field(field, value);
                    proof {
                        lemma_choice_views_edits(self.list@, idx as int, c);
                    }
                    self.list.set(idx, c);
                }
            },
            Action::SetEffects { idx, impacts } => {
                if idx < self.list.len() {
                    let mut c = self.list[idx].clone();
                    c.impacts = impacts;
                    proof {
                        lemma_choice_views_edits(self.list@, idx as int, c);
                    }
                    self.list.set(idx, c);
                }
            },
            Action::ToggleActionType(i) => toggle_idx(&mut self.action_type_open, i),
            Action::ToggleChapter(i) => toggle_idx(&mut self.chapter_open, i),
            Action::TogglePara(i) => toggle_idx(&mut self.para_open, i),
            Action::SetChapterSearch { idx, query } => {
                proof {
                    lemma_views_edits(self.chapter_search@, idx as int, query);
                }
                set_idx(&mut self.chapter_search, idx, query);
            },
            Action::SetParaSearch { idx, query } => {
                proof {
                    lemma_views_edits(self.para_search@, idx as int, query);
                }
                set_idx(&mut self.para_search, idx, query);
            },
            Action::SetParaList { idx, list } => {
                proof {
                    lemma_cache_views_edits(self.para_cache@, idx as int, list);
                }
                set_idx(&mut self.para_cache, idx, list);
            },
            Action::ToggleTimeoutChapter(i) => toggle_idx(&mut self.timeout_chapter_open, i),
            Action::ToggleTimeoutPara(i) => toggle_idx(&mut self.timeout_para_open, i),
            Action::SetTimeoutChapterSearch { idx, query } => {
                proof {
                    lemma_views_edits(self.timeout_chapter_search@, idx as int, query);
                }
                set_idx(&mut self.timeout_chapter_search, idx, query);
            },
            Action::SetTimeoutParaSearch { idx, query } => {
                proof {
                    lemma_views_edits(self.timeout_para_search@, idx as int, query);
                }
                set_idx(&mut self.timeout_para_search, idx, query);
            },
            Action::SetTimeoutParaList { idx, list } => {
                proof {
                    lemma_cache_views_edits(self.timeout_para_cache@, idx as int, list);
                }
                set_idx(&mut self.timeout_para_cache, idx, list);
            },
            Action::SetList(new_list) => {
                self.list = new_list;
                let len = self.list.len();
                sync_len_flags(&mut self.action_type_open, len);
                sync_len_flags(&mut self.chapter_open, len);
                sync_len_strings(&mut self.chapter_search, len);
                sync_len_flags(&mut self.para_open, len);
                sync_len_strings(&mut self.para_search, len);
                sync_len_caches(&mut self.para_cache, len);
                sync_len_flags(&mut self.timeout_chapter_open, len);
                sync_len_strings(&mut self.timeout_chapter_search, len);
                sync_len_flags(&mut self.timeout_para_open, len);
                sync_len_strings(&mut self.timeout_para_search, len);
                sync_len_caches(&mut self.timeout_para_cache, len);
            },
        }
    }
}

} // verus!

verus! {

/// Every action keeps the per-choice lists aligned with the choices; after
/// `SetList` they are aligned whatever they were before.
pub proof fn law_reduce_keeps_aligned(s: ChoicesView, a: ActionView)
    ensures
        aligned(s) ==> aligned(reduce(s, a)),
        a is SetList ==> aligned(reduce(s, a)),
{
}

/// Adding a choice and then removing the last one gives back the state before
/// (when it was aligned).
pub proof fn law_add_then_remove_last(s: ChoicesView)
    requires
        aligned(s),
    ensures
        reduce(reduce(s, ActionView::Add), ActionView::Remove(s.list.len() as int)) == s,
{
    let t = reduce(s, ActionView::Add);
    let r = reduce(t, ActionView::Remove(s.list.len() as int));
    assert(r.list =~= s.list);
    assert(r.action_type_open =~= s.action_type_open);
    assert(r.chapter_open =~= s.chapter_open);
    assert(r.chapter_search =~= s.chapter_search);
    assert(r.para_open =~= s.para_open);
    assert(r.para_search =~= s.para_search);
    assert(r.para_cache =~= s.para_cache);
    assert(r.timeout_chapter_open =~= s.timeout_chapter_open);
    assert(r.timeout_chapter_search =~= s.timeout_chapter_search);
    assert(r.timeout_para_open =~= s.timeout_para_open);
    assert(r.timeout_para_search =~= s.timeout_para_search);
    assert(r.timeout_para_cache =~= s.timeout_para_cache);
}

/// Toggling the same picker twice leaves the state as it was.
pub proof fn law_toggle_twice(s: ChoicesView, i: int)
    ensures
        reduce(reduce(s, ActionView::ToggleActionType(i)), ActionView::ToggleActionType(i)) == s,
        reduce(reduce(s, ActionView::ToggleChapter(i)), ActionView::ToggleChapter(i)) == s,
        reduce(reduce(s, ActionView::TogglePara(i)), ActionView::TogglePara(i)) == s,
        reduce(reduce(s, ActionView::ToggleTimeoutChapter(i)), ActionView::ToggleTimeoutChapter(i))
            == s,
        reduce(reduce(s, ActionView::ToggleTimeoutPara(i)), ActionView::ToggleTimeoutPara(i)) == s,
{
    assert(toggle_at(toggle_at(s.action_type_open, i), i) =~= s.action_type_open);
    assert(toggle_at(toggle_at(s.chapter_open, i), i) =~= s.chapter_open);
    assert(toggle_at(toggle_at(s.para_open, i), i) =~= s.para_open);
    assert(toggle_at(toggle_at(s.timeout_chapter_open, i), i) =~= s.timeout_chapter_open);
    assert(toggle_at(toggle_at(s.timeout_para_open, i), i) =~= s.timeout_para_open);
}

/// An action that names a choice that does not exist changes nothing.
pub proof fn law_out_of_range_changes_nothing(s: ChoicesView, a: ActionView)
    requires
        aligned(s),
        match a {
            ActionView::Add | ActionView::SetList(_) => false,
            ActionView::Remove(i) | ActionView::ToggleActionType(i) | ActionView::ToggleChapter(i)
            | ActionView::TogglePara(i) | ActionView::ToggleTimeoutChapter(i)
            | ActionView::ToggleTimeoutPara(i) => i < 0 || i >= s.list.len(),
            ActionView::SetField { idx, .. } | ActionView::SetEffects { idx, .. }
            | ActionView::SetChapterSearch { idx, .. } | ActionView::SetParaSearch { idx, .. }
            | ActionView::SetParaList { idx, .. } | ActionView::SetTimeoutChapterSearch { idx, .. }
            | ActionView::SetTimeoutParaSearch { idx, .. } | ActionView::SetTimeoutParaList {
                idx,
                ..
            } => idx < 0 || idx >= s.list.len(),
        },
    ensures
        reduce(s, a) == s,
{
}

/// Setting a field of a choice changes that choice only.
pub proof fn law_set_field_touches_one_choice(s: ChoicesView, idx: int, field: Seq<char>, value: Seq<char>, j: int)
    requires
        0 <= j < s.list.len(),
        j != idx,
    ensures
        reduce(s, ActionView::SetField { idx, field, value }).list[j] == s.list[j],
        reduce(s, ActionView::SetField { idx, field, value }).list.len() == s.list.len(),
{
}

} // verus!

verus! {

/// The choice at `idx` after the editor field `field` of it receives `value`.
pub open spec fn choice_after_set(s: ChoicesView, idx: int, field: Seq<char>, value: Seq<char>) -> ChoiceView {
    reduce(s, ActionView::SetField { idx, field, value }).list[idx]
}

/// Each named field of a choice writes its own member and only it: after
/// `SetField` on a choice that exists, the member the field names holds the
/// new text (or what it reads as), and putting back the member's old value
/// gives the choice as it was.
pub proof fn law_set_field_writes_its_own_member(s: ChoicesView, idx: int, value: Seq<char>)
    requires
        0 <= idx < s.list.len(),
    ensures
        choice_after_set(s, idx, "caption"@, value).caption == value,
        (ChoiceView { caption: s.list[idx].caption, ..choice_after_set(s, idx, "caption"@, value) }) == s.list[idx],
        choice_after_set(s, idx, "action_type"@, value).action_type == value,
        (ChoiceView { action_type: s.list[idx].action_type, ..choice_after_set(s, idx, "action_type"@, value) }) == s.list[idx],
        choice_after_set(s, idx, "action_key"@, value).action_key == Some(value),
        (ChoiceView { action_key: s.list[idx].action_key, ..choice_after_set(s, idx, "action_key"@, value) }) == s.list[idx],
        choice_after_set(s, idx, "target_chapter"@, value).target_chapter == value,
        (ChoiceView { target_chapter: s.list[idx].target_chapter, ..choice_after_set(s, idx, "target_chapter"@, value) }) == s.list[idx],
        choice_after_set(s, idx, "same_page"@, value).same_page == (value == "true"@),
        (ChoiceView { same_page: s.list[idx].same_page, ..choice_after_set(s, idx, "same_page"@, value) }) == s.list[idx],
        choice_after_set(s, idx, "timeout_target_chapter"@, value).timeout_target_chapter == value,
        (ChoiceView { timeout_target_chapter: s.list[idx].timeout_target_chapter, ..choice_after_set(s, idx, "timeout_target_chapter"@, value) }) == s.list[idx],
{
    reveal_strlit("caption");
    reveal_strlit("goto");
    reveal_strlit("action_type");
    reveal_strlit("action_key");
    reveal_strlit("action_value");
    reveal_strlit("target_chapter");
    reveal_strlit("same_page");
    reveal_strlit("time_limit");
    reveal_strlit("timeout_to");
    reveal_strlit("timeout_target_chapter");
    assert("action_key"@[7] != "time_limit"@[7]);
    assert("action_key"@[7] != "timeout_to"@[7]);
    assert("action_key"@[7] != "action_value"@[7]);
    assert("action_type"@.len() != "action_key"@.len());
    assert("target_chapter"@.len() == 14);
    assert("action_type"@.len() == 11);
    assert("action_key"@.len() == 10);
    assert("action_value"@.len() == 12);
    assert("same_page"@.len() == 9);
    assert("time_limit"@.len() == 10);
    assert("timeout_to"@.len() == 10);
    assert("timeout_target_chapter"@.len() == 22);
    assert("caption"@.len() == 7);
    assert("goto"@.len() == 4);
    assert("target_chapter"@ != "caption"@);
    assert("target_chapter"@ != "goto"@);
    assert("target_chapter"@ != "action_type"@);
    assert("target_chapter"@ != "action_key"@);
    assert("target_chapter"@ != "action_value"@);
    assert(set_field_spec(s.list[idx], "target_chapter"@, value) == ChoiceView {
        target_chapter: value,
        ..s.list[idx]
    });
}

} // verus!
