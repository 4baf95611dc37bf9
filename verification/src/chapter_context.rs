//! The chapters of the story: how they are read from the API's JSON, the
//! order they are listed in, which title shows for a language, and the
//! chapter search of the chapter selector.

use vstd::prelude::*;
use crate::json::{JsonValue, JsonView, array_view, get_field, json_get, lemma_array_view};
use crate::text::{
    all_digits, append_str, decimal_value, lowercase, matches_query, parse_unsigned,
    str_equal, text_matches_query, to_lowercase, unsigned_digits,
};

verus! {

/// A chapter's title in one language.
#[derive(Debug, PartialEq)]
pub struct ChapterTitle {
    pub lang: String,
    pub title: String,
}

/// A chapter: its id, its titles, and its place in the story.
#[derive(Debug, PartialEq)]
pub struct Chapter {
    pub id: String,
    pub titles: Vec<ChapterTitle>,
    pub order: i32,
}

/// The content of a `Chapter`; each title is a `(lang, title)` pair.
pub struct ChapterView {
    pub id: Seq<char>,
    pub titles: Seq<(Seq<char>, Seq<char>)>,
    pub order: i32,
}

impl View for ChapterTitle {
    type V = (Seq<char>, Seq<char>);

    open spec fn view(&self) -> (Seq<char>, Seq<char>) {
        (self.lang@, self.title@)
    }
}

/// The views of a list of titles.
pub open spec fn title_views(ts: Seq<ChapterTitle>) -> Seq<(Seq<char>, Seq<char>)> {
    ts.map_values(|t: ChapterTitle| t@)
}

impl View for Chapter {
    type V = ChapterView;

    open spec fn view(&self) -> ChapterView {
        ChapterView { id: self.id@, titles: title_views(self.titles@), order: self.order }
    }
}

/// The views of a list of chapters.
pub open spec fn chapter_views(cs: Seq<Chapter>) -> Seq<ChapterView> {
    cs.map_values(|c: Chapter| c@)
}

impl Clone for ChapterTitle {
    fn clone(&self) -> (r: Self)
        ensures
            r@ == self@,
    {
        ChapterTitle { lang: self.lang.clone(), title: self.title.clone() }
    }
}

impl Clone for Chapter {
    fn clone(&self) -> (r: Self)
        ensures
            r@ == self@,
    {
        let mut titles: Vec<ChapterTitle> = Vec::new();
        let mut i: usize = 0;
        while i < self.titles.len()
            invariant
                i <= self.titles@.len(),
                title_views(titles@) == title_views(self.titles@.subrange(0, i as int)),
            decreases self.titles@.len() - i,
        {
            let t = self.titles[i].clone();
            let ghost before = titles@;
            titles.push(t);
            assert(title_views(titles@) =~= title_views(before).push(t@));
            assert(title_views(self.titles@.subrange(0, i + 1)) =~= title_views(
                self.titles@.subrange(0, i as int),
            ).push(self.titles@[i as int]@));
            i = i + 1;
        }
        assert(self.titles@.subrange(0, self.titles@.len() as int) =~= self.titles@);
        Chapter { id: self.id.clone(), titles, order: self.order }
    }
}

/// The chapters the reader has loaded, and whether it has loaded them.
pub struct ChapterState {
    pub chapters: Vec<Chapter>,
    pub loaded: bool,
}

impl ChapterState {
    /// Nothing loaded yet.
    pub fn new() -> (r: Self)
        ensures
            r.chapters@.len() == 0,
            !r.loaded,
    {
        ChapterState { chapters: Vec::new(), loaded: false }
    }

    /// Takes the loaded chapters, and marks the state loaded.
    pub fn set_chapters(&mut self, chapters: Vec<Chapter>)
        ensures
            final(self).chapters@ == chapters@,
            final(self).loaded,
    {
        self.chapters = chapters;
        self.loaded = true;
    }
}

} // verus!

verus! {

/// The integer that a JSON number's text writes, when it is one that fits in
/// an `i64` (what `serde_json::Value::as_i64` gives): an optional `-`, then
/// decimal digits; fractions and exponents are not integers.
pub open spec fn json_int(text: Seq<char>) -> Option<int> {
    let neg = text.len() > 0 && text[0] == '-';
    let d = if neg {
        text.drop_first()
    } else {
        text
    };
    if d.len() > 0 && all_digits(d) && (if neg {
        decimal_value(d) <= 0x8000_0000_0000_0000
    } else {
        decimal_value(d) <= 0x7FFF_FFFF_FFFF_FFFF
    }) {
        Some(
            if neg {
                -decimal_value(d)
            } else {
                decimal_value(d) as int
            },
        )
    } else {
        None
    }
}

/// The integer a JSON number writes, if it fits in an `i64`.
pub fn json_number_as_i64(text: &str) -> (r: Option<i64>)
    ensures
        match json_int(text@) {
            Some(v) => r == Some(v as i64),
            None => r is None,
        },
{
    let n = text.unicode_len();
    let neg = n > 0 && text.get_char(0) == '-';
    let digits = if neg {
        text.substring_char(1, n)
    } else {
        text
    };
    assert(neg ==> digits@ =~= text@.drop_first());
    if digits.unicode_len() > 0 && digits.get_char(0) == '+' {
        assert(!crate::text::is_ascii_digit(digits@[0]));
        return None;
    }
    assert(unsigned_digits(digits@) == digits@);
    if neg {
        match parse_unsigned(digits, 0x8000_0000_0000_0000u64) {
            Some(v) => {
                if v == 0x8000_0000_0000_0000u64 {
                    Some(i64::MIN)
                } else {
                    Some(-(v as i64))
                }
            },
            None => None,
        }
    } else {
        match parse_unsigned(digits, 0x7FFF_FFFF_FFFF_FFFFu64) {
            Some(v) => Some(v as i64),
            None => None,
        }
    }
}

/// A chapter's place from its `order` member: the number's `i64` value cut
/// to `i32`, or 0 when it is not an integer.
pub open spec fn order_of(o: JsonView) -> i32 {
    match o {
        JsonView::Number(t) => match json_int(t) {
            Some(v) => (v as i64) as i32,
            None => 0,
        },
        _ => 0,
    }
}

/// One title from its JSON object: both `lang` and `title` must be strings.
pub open spec fn title_of_json(t: JsonView) -> Option<(Seq<char>, Seq<char>)> {
    match get_field(t, "lang"@) {
        Some(JsonView::Str(lang)) => match get_field(t, "title"@) {
            Some(JsonView::Str(title)) => Some((lang, title)),
            _ => None,
        },
        _ => None,
    }
}

/// The titles that read well from a JSON array, in order; the others are
/// left out.
pub open spec fn titles_of_json(ts: Seq<JsonView>) -> Seq<(Seq<char>, Seq<char>)>
    decreases ts.len(),
{
    if ts.len() == 0 {
        Seq::empty()
    } else {
        let rest = titles_of_json(ts.drop_last());
        match title_of_json(ts.last()) {
            Some(t) => rest.push(t),
            None => rest,
        }
    }
}

/// One chapter from its JSON object: it needs a string `id`, an array
/// `titles` and an `order` member.
pub open spec fn chapter_of_json(item: JsonView) -> Option<ChapterView> {
    match get_field(item, "id"@) {
        Some(JsonView::Str(id)) => match get_field(item, "titles"@) {
            Some(JsonView::Array(ts)) => match get_field(item, "order"@) {
                Some(o) => Some(ChapterView { id, titles: titles_of_json(ts), order: order_of(o) }),
                None => None,
            },
            _ => None,
        },
        _ => None,
    }
}

/// The chapters that read well from a JSON array, in order.
pub open spec fn chapters_of_json(items: Seq<JsonView>) -> Seq<ChapterView>
    decreases items.len(),
{
    if items.len() == 0 {
        Seq::empty()
    } else {
        let rest = chapters_of_json(items.drop_last());
        match chapter_of_json(items.last()) {
            Some(c) => rest.push(c),
            None => rest,
        }
    }
}

/// The chapters of the API's answer, when it has an `items` array.
pub open spec fn chapter_list_of_json(data: JsonView) -> Option<Seq<ChapterView>> {
    match get_field(data, "items"@) {
        Some(JsonView::Array(items)) => Some(chapters_of_json(items)),
        _ => None,
    }
}

/// Reads one title.
fn title_from_json(t: &JsonValue) -> (r: Option<ChapterTitle>)
    ensures
        match r {
            Some(x) => title_of_json(t@) == Some(x@),
            None => title_of_json(t@) is None,
        },
{
    let lang = match json_get(t, "lang") {
        Some(JsonValue::Str(l)) => l.clone(),
        _ => return None,
    };
    let title = match json_get(t, "title") {
        Some(JsonValue::Str(s)) => s.clone(),
        _ => return None,
    };
    Some(ChapterTitle { lang, title })
}

/// Reads one chapter.
fn chapter_from_json(item: &JsonValue) -> (r: Option<Chapter>)
    ensures
        match r {
            Some(c) => chapter_of_json(item@) == Some(c@),
            None => chapter_of_json(item@) is None,
        },
{
    let id = match json_get(item, "id") {
        Some(JsonValue::Str(s)) => s.clone(),
        _ => return None,
    };
    let ts = match json_get(item, "titles") {
        Some(JsonValue::Array(v)) => v,
        _ => return None,
    };
    let o = match json_get(item, "order") {
        Some(x) => x,
        None => return None,
    };
    proof {
        lemma_array_view(ts@);
    }
    let ghost tv = array_view(ts@);
    let mut titles: Vec<ChapterTitle> = Vec::new();
    let mut i: usize = 0;
    while i < ts.len()
        invariant
            tv == array_view(ts@),
            tv.len() == ts@.len(),
            forall|k: int| 0 <= k < ts@.len() ==> #[trigger] tv[k] == ts@[k]@,
            i <= ts@.len(),
            title_views(titles@) == titles_of_json(tv.subrange(0, i as int)),
        decreases ts@.len() - i,
    {
        assert(tv.subrange(0, i + 1).drop_last() =~= tv.subrange(0, i as int));
        assert(tv.subrange(0, i + 1).last() == ts@[i as int]@);
        match title_from_json(&ts[i]) {
            Some(t) => {
                let ghost before = titles@;
                titles.push(t);
                assert(title_views(titles@) =~= title_views(before).push(t@));
            },
            None => {},
        }
        i = i + 1;
    }
    assert(tv.subrange(0, ts@.len() as int) =~= tv);
    let order: i32 = match o {
        JsonValue::Number(t) => match json_number_as_i64(t.as_str()) {
            Some(v) => v as i32,
            None => 0,
        },
        _ => 0,
    };
    Some(Chapter { id, titles, order })
}

/// The chapters of the API's answer: every item of its `items` array that
/// reads as a chapter, in order; `None` when there is no `items` array.
pub fn chapters_from_json(data: &JsonValue) -> (r: Option<Vec<Chapter>>)
    ensures
        match r {
            Some(cs) => chapter_list_of_json(data@) == Some(chapter_views(cs@)),
            None => chapter_list_of_json(data@) is None,
        },
{
    let items = match json_get(data, "items") {
        Some(JsonValue::Array(v)) => v,
        _ => return None,
    };
    proof {
        lemma_array_view(items@);
    }
    let ghost iv = array_view(items@);
    let mut out: Vec<Chapter> = Vec::new();
    let mut i: usize = 0;
    while i < items.len()
        invariant
            iv == array_view(items@),
            iv.len() == items@.len(),
            forall|k: int| 0 <= k < items@.len() ==> #[trigger] iv[k] == items@[k]@,
            i <= items@.len(),
            chapter_views(out@) == chapters_of_json(iv.subrange(0, i as int)),
        decreases items@.len() - i,
    {
        assert(iv.subrange(0, i + 1).drop_last() =~= iv.subrange(0, i as int));
        assert(iv.subrange(0, i + 1).last() == items@[i as int]@);
        match chapter_from_json(&items[i]) {
            Some(c) => {
                let ghost before = out@;
                out.push(c);
                assert(chapter_views(out@) =~= chapter_views(before).push(c@));
            },
            None => {},
        }
        i = i + 1;
    }
    assert(iv.subrange(0, items@.len() as int) =~= iv);
    Some(out)
}

} // verus!

verus! {

/// Where a chapter with place `order` goes among `s`: after the last one
/// whose place is not greater.
pub open spec fn insert_pos(s: Seq<ChapterView>, order: i32) -> int
    decreases s.len(),
{
    if s.len() == 0 {
        0
    } else if s.last().order <= order {
        s.len() as int
    } else {
        insert_pos(s.drop_last(), order)
    }
}

/// The chapters in ascending order of place; chapters with the same place
/// keep their relative order (a stable sort).
pub open spec fn sort_by_order(s: Seq<ChapterView>) -> Seq<ChapterView>
    decreases s.len(),
{
    if s.len() == 0 {
        s
    } else {
        let sorted = sort_by_order(s.drop_last());
        sorted.insert(insert_pos(sorted, s.last().order), s.last())
    }
}

/// The chapters sorted by place, as `sort_by` on `order` leaves them.
pub fn sort_chapters_by_order(chapters: Vec<Chapter>) -> (r: Vec<Chapter>)
    ensures
        chapter_views(r@) == sort_by_order(chapter_views(chapters@)),
{
    let ghost cv = chapter_views(chapters@);
    let n = chapters.len();
    let mut out: Vec<Chapter> = Vec::new();
    let mut i: usize = 0;
    while i < n
        invariant
            cv == chapter_views(chapters@),
            n == cv.len(),
            i <= n,
            chapter_views(out@) == sort_by_order(cv.subrange(0, i as int)),
        decreases n - i,
    {
        let c = chapters[i].clone();
        assert(c@ == cv[i as int]);
        let ghost sorted = chapter_views(out@);
        let mut j: usize = out.len();
        assert(sorted.subrange(0, j as int) =~= sorted);
        while j > 0 && out[j - 1].order > c.order
            invariant
                sorted == chapter_views(out@),
                j <= out@.len(),
                insert_pos(sorted, c.order) == insert_pos(sorted.subrange(0, j as int), c.order),
            decreases j,
        {
            assert(sorted.subrange(0, j as int).drop_last() =~= sorted.subrange(0, j - 1));
            assert(sorted.subrange(0, j as int).last() == out@[j - 1]@);
            j = j - 1;
        }
        proof {
            if j > 0 {
                assert(sorted.subrange(0, j as int).last() == out@[j - 1]@);
            }
            assert(cv.subrange(0, i + 1).drop_last() =~= cv.subrange(0, i as int));
        }
        out.insert(j, c);
        assert(chapter_views(out@) =~= sorted.insert(j as int, c@));
        i = i + 1;
    }
    assert(cv.subrange(0, n as int) =~= cv);
    out
}

/// Where `insert_pos` puts a chapter: after every chapter not later than it
/// at the end of the list, and before the later ones.
proof fn lemma_insert_pos(s: Seq<ChapterView>, order: i32)
    ensures
        0 <= insert_pos(s, order) <= s.len(),
        forall|k: int| insert_pos(s, order) <= k < s.len() ==> #[trigger] s[k].order > order,
        insert_pos(s, order) > 0 ==> s[insert_pos(s, order) - 1].order <= order,
    decreases s.len(),
{
    if s.len() > 0 && s.last().order > order {
        lemma_insert_pos(s.drop_last(), order);
        assert forall|k: int| insert_pos(s, order) <= k < s.len() implies #[trigger] s[k].order
            > order by {
            if k < s.len() - 1 {
                assert(s[k] == s.drop_last()[k]);
            }
        }
    }
}

/// The places of `s` never go down.
pub open spec fn ordered_by_place(s: Seq<ChapterView>) -> bool {
    forall|a: int, b: int| 0 <= a <= b < s.len() ==> #[trigger] s[a].order <= #[trigger] s[b].order
}

/// Sorting by place gives the same chapters, each as often as before, with
/// places that never go down.
pub proof fn law_sort_by_order(s: Seq<ChapterView>)
    ensures
        ordered_by_place(sort_by_order(s)),
        sort_by_order(s).to_multiset() == s.to_multiset(),
    decreases s.len(),
{
    broadcast use vstd::seq_lib::to_multiset_insert, vstd::seq_lib::to_multiset_build;

    if s.len() > 0 {
        law_sort_by_order(s.drop_last());
        let sorted = sort_by_order(s.drop_last());
        let x = s.last();
        lemma_insert_pos(sorted, x.order);
        let p = insert_pos(sorted, x.order);
        let r = sorted.insert(p, x);
        assert forall|a: int, b: int| 0 <= a <= b < r.len() implies #[trigger] r[a].order
            <= #[trigger] r[b].order by {
            if b < p {
                assert(r[a] == sorted[a] && r[b] == sorted[b]);
            } else if b == p {
                if a < p {
                    assert(sorted[a].order <= sorted[p - 1].order);
                }
            } else if a < p {
                assert(r[b] == sorted[b - 1]);
                assert(sorted[b - 1].order > x.order);
            } else if a == p {
                assert(r[b] == sorted[b - 1]);
            } else {
                assert(r[a] == sorted[a - 1] && r[b] == sorted[b - 1]);
            }
        }
        assert(s =~= s.drop_last().push(x));
    }
}

} // verus!

verus! {

/// The first title of `ts` in language `lang`.
pub open spec fn title_in_lang(ts: Seq<(Seq<char>, Seq<char>)>, lang: Seq<char>) -> Option<Seq<char>>
    decreases ts.len(),
{
    if ts.len() == 0 {
        None
    } else if ts[0].0 == lang {
        Some(ts[0].1)
    } else {
        title_in_lang(ts.drop_first(), lang)
    }
}

/// The first English title of `ts` (`en-US` or `en-GB`).
pub open spec fn english_title(ts: Seq<(Seq<char>, Seq<char>)>) -> Option<Seq<char>>
    decreases ts.len(),
{
    if ts.len() == 0 {
        None
    } else if ts[0].0 == "en-US"@ || ts[0].0 == "en-GB"@ {
        Some(ts[0].1)
    } else {
        english_title(ts.drop_first())
    }
}

/// The title that stands in for a missing translation: English, else the
/// first title there is.
pub open spec fn fallback_title(ts: Seq<(Seq<char>, Seq<char>)>) -> Option<Seq<char>> {
    match english_title(ts) {
        Some(t) => Some(t),
        None => if ts.len() > 0 {
            Some(ts[0].1)
        } else {
            None
        },
    }
}

/// The title that the chapter search looks at: the one in `lang`, else the
/// fallback.
pub open spec fn searched_title(ts: Seq<(Seq<char>, Seq<char>)>, lang: Seq<char>) -> Option<Seq<char>> {
    match title_in_lang(ts, lang) {
        Some(t) => Some(t),
        None => fallback_title(ts),
    }
}

/// Finds the first title of `c` in `lang`, or else the first English one.
fn find_title(c: &Chapter, lang: &str, english: bool) -> (r: Option<usize>)
    ensures
        match r {
            Some(k) => k < c.titles@.len() && (if english {
                english_title(c@.titles) == Some(c@.titles[k as int].1)
            } else {
                title_in_lang(c@.titles, lang@) == Some(c@.titles[k as int].1)
            }),
            None => if english {
                english_title(c@.titles) is None
            } else {
                title_in_lang(c@.titles, lang@) is None
            },
        },
{
    let ghost ts = c@.titles;
    let n = c.titles.len();
    let mut i: usize = 0;
    assert(ts.subrange(0, n as int) =~= ts);
    while i < n
        invariant
            n == c.titles@.len(),
            ts == c@.titles,
            ts.len() == n,
            i <= n,
            english ==> english_title(ts.subrange(i as int, n as int)) == english_title(ts),
            !english ==> title_in_lang(ts.subrange(i as int, n as int), lang@) == title_in_lang(ts, lang@),
        decreases n - i,
    {
        let ghost tail = ts.subrange(i as int, n as int);
        assert(tail[0] == c.titles@[i as int]@);
        let l = c.titles[i].lang.as_str();
        let hit = if english {
            str_equal(l, "en-US") || str_equal(l, "en-GB")
        } else {
            str_equal(l, lang)
        };
        if hit {
            return Some(i);
        }
        assert(tail.drop_first() =~= ts.subrange(i + 1, n as int));
        i = i + 1;
    }
    None
}

/// The title of `c` that the chapter search looks at for `lang`.
fn chapter_searched_title(c: &Chapter, lang: &str) -> (r: Option<String>)
    ensures
        match r {
            Some(t) => searched_title(c@.titles, lang@) == Some(t@),
            None => searched_title(c@.titles, lang@) is None,
        },
{
    if let Some(k) = find_title(c, lang, false) {
        return Some(c.titles[k].title.clone());
    }
    if let Some(k) = find_title(c, lang, true) {
        return Some(c.titles[k].title.clone());
    }
    if c.titles.len() > 0 {
        Some(c.titles[0].title.clone())
    } else {
        None
    }
}

/// The name a chapter shows in `lang`: its title in that language, or else
/// the fallback title after the marker `（untranslated）`, with `untranslated`
/// the marker's text in the reader's language.
pub open spec fn display_title(ts: Seq<(Seq<char>, Seq<char>)>, lang: Seq<char>, untranslated: Seq<char>) -> Seq<char> {
    match title_in_lang(ts, lang) {
        Some(t) => t,
        None => seq!['（'] + untranslated + seq!['）'] + match fallback_title(ts) {
            Some(t) => t,
            None => Seq::empty(),
        },
    }
}

/// The name that `chapter` shows in the language `lang`.
pub fn chapter_display_title(chapter: &Chapter, lang: &str, untranslated: &str) -> (r: String)
    ensures
        r@ == display_title(chapter@.titles, lang@, untranslated@),
{
    if let Some(k) = find_title(chapter, lang, false) {
        return chapter.titles[k].title.clone();
    }
    let mut out = String::new();
    append_str(&mut out, "（");
    append_str(&mut out, untranslated);
    append_str(&mut out, "）");
    let fallback = if let Some(k) = find_title(chapter, lang, true) {
        chapter.titles[k].title.clone()
    } else if chapter.titles.len() > 0 {
        chapter.titles[0].title.clone()
    } else {
        String::new()
    };
    append_str(&mut out, fallback.as_str());
    proof {
        reveal_strlit("（");
        reveal_strlit("）");
    }
    out
}

/// Whether the chapter search `query` keeps a chapter: an empty query keeps
/// every chapter, and otherwise the chapter's searched title must match.
pub open spec fn chapter_matches(ts: Seq<(Seq<char>, Seq<char>)>, lang: Seq<char>, query: Seq<char>) -> bool {
    lowercase(query).len() == 0 || match searched_title(ts, lang) {
        Some(t) => matches_query(t, query),
        None => false,
    }
}

/// The chapters that the search keeps, in order.
pub open spec fn filter_chapters_spec(cs: Seq<ChapterView>, lang: Seq<char>, query: Seq<char>) -> Seq<ChapterView>
    decreases cs.len(),
{
    if cs.len() == 0 {
        cs
    } else {
        let rest = filter_chapters_spec(cs.drop_last(), lang, query);
        if chapter_matches(cs.last().titles, lang, query) {
            rest.push(cs.last())
        } else {
            rest
        }
    }
}

/// Copies of the chapters that the search `query` keeps, looking at titles
/// in `lang`.
pub fn filter_chapters(chapters: &Vec<Chapter>, lang: &str, query: &str) -> (r: Vec<Chapter>)
    ensures
        chapter_views(r@) == filter_chapters_spec(chapter_views(chapters@), lang@, query@),
{
    let ghost cv = chapter_views(chapters@);
    let q = to_lowercase(query);
    let empty_query = q.unicode_len() == 0;
    let mut out: Vec<Chapter> = Vec::new();
    let mut i: usize = 0;
    while i < chapters.len()
        invariant
            cv == chapter_views(chapters@),
            i <= chapters@.len(),
            q@ == lowercase(query@),
            empty_query == (lowercase(query@).len() == 0),
            chapter_views(out@) == filter_chapters_spec(cv.subrange(0, i as int), lang@, query@),
        decreases chapters@.len() - i,
    {
        assert(cv.subrange(0, i + 1).drop_last() =~= cv.subrange(0, i as int));
        assert(cv.subrange(0, i + 1).last() == chapters@[i as int]@);
        let keep = if empty_query {
            true
        } else {
            match chapter_searched_title(&chapters[i], lang) {
                Some(t) => text_matches_query(t.as_str(), query),
                None => false,
            }
        };
        if keep {
            let c = chapters[i].clone();
            let ghost before = out@;
            out.push(c);
            assert(chapter_views(out@) =~= chapter_views(before).push(c@));
        }
        i = i + 1;
    }
    assert(cv.subrange(0, chapters@.len() as int) =~= cv);
    out
}

} // verus!

verus! {

proof fn lemma_first_english(ts: Seq<(Seq<char>, Seq<char>)>, k: int)
    requires
        0 <= k < ts.len(),
        ts[k].0 == "en-US"@ || ts[k].0 == "en-GB"@,
        forall|j: int| 0 <= j < k ==> ts[j].0 != "en-US"@ && ts[j].0 != "en-GB"@,
    ensures
        english_title(ts) == Some(ts[k].1),
    decreases k,
{
    if k > 0 {
        let rest = ts.drop_first();
        assert forall|j: int| 0 <= j < k - 1 implies rest[j].0 != "en-US"@ && rest[j].0 != "en-GB"@ by {
            assert(rest[j] == ts[j + 1]);
        }
        lemma_first_english(rest, k - 1);
    }
}

proof fn lemma_no_title_in(ts: Seq<(Seq<char>, Seq<char>)>, lang: Seq<char>)
    requires
        forall|j: int| 0 <= j < ts.len() ==> ts[j].0 != lang,
    ensures
        title_in_lang(ts, lang) is None,
    decreases ts.len(),
{
    if ts.len() > 0 {
        let rest = ts.drop_first();
        assert forall|j: int| 0 <= j < rest.len() implies rest[j].0 != lang by {
            assert(rest[j] == ts[j + 1]);
        }
        lemma_no_title_in(rest, lang);
    }
}

proof fn lemma_first_in(ts: Seq<(Seq<char>, Seq<char>)>, lang: Seq<char>, k: int)
    requires
        0 <= k < ts.len(),
        ts[k].0 == lang,
        forall|j: int| 0 <= j < k ==> ts[j].0 != lang,
    ensures
        title_in_lang(ts, lang) == Some(ts[k].1),
    decreases k,
{
    if k > 0 {
        let rest = ts.drop_first();
        assert forall|j: int| 0 <= j < k - 1 implies rest[j].0 != lang by {
            assert(rest[j] == ts[j + 1]);
        }
        lemma_first_in(rest, lang, k - 1);
    }
}

/// A chapter shows, and is searched by, its first title in the reader's
/// language; a chapter with no title in that language shows its first
/// English (`en-US` or `en-GB`) title, marked as untranslated, and is
/// searched by that title.
pub proof fn law_chapter_title_choice(ts: Seq<(Seq<char>, Seq<char>)>, lang: Seq<char>, untranslated: Seq<char>, k: int)
    requires
        0 <= k < ts.len(),
    ensures
        (ts[k].0 == lang && forall|j: int| 0 <= j < k ==> ts[j].0 != lang) ==> {
            &&& display_title(ts, lang, untranslated) == ts[k].1
            &&& searched_title(ts, lang) == Some(ts[k].1)
        },
        ((forall|j: int| 0 <= j < ts.len() ==> ts[j].0 != lang) && (ts[k].0 == "en-US"@ || ts[k].0
            == "en-GB"@) && forall|j: int| 0 <= j < k ==> ts[j].0 != "en-US"@ && ts[j].0 != "en-GB"@)
            ==> {
            &&& display_title(ts, lang, untranslated) == seq!['（'] + untranslated + seq!['）'] + ts[k].1
            &&& searched_title(ts, lang) == Some(ts[k].1)
        },
{
    if ts[k].0 == lang && forall|j: int| 0 <= j < k ==> ts[j].0 != lang {
        lemma_first_in(ts, lang, k);
    }
    if (forall|j: int| 0 <= j < ts.len() ==> ts[j].0 != lang) && (ts[k].0 == "en-US"@ || ts[k].0
        == "en-GB"@) && forall|j: int| 0 <= j < k ==> ts[j].0 != "en-US"@ && ts[j].0 != "en-GB"@ {
        lemma_no_title_in(ts, lang);
        lemma_first_english(ts, k);
    }
}

} // verus!
