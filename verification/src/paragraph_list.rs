//! Items of the paragraph pickers.

use vstd::prelude::*;
use crate::text::{append_str, matches_query, str_equal, text_matches_query, views};

verus! {

/// A paragraph as a picker lists it.
#[derive(Debug, PartialEq)]
pub struct Paragraph {
    pub id: String,
    pub preview: String,
    pub has_translation: bool,
}

/// The content of a listed paragraph.
pub struct ParagraphView {
    pub id: Seq<char>,
    pub preview: Seq<char>,
    pub has_translation: bool,
}

impl View for Paragraph {
    type V = ParagraphView;

    open spec fn view(&self) -> ParagraphView {
        ParagraphView { id: self.id@, preview: self.preview@, has_translation: self.has_translation }
    }
}

impl Clone for Paragraph {
    fn clone(&self) -> (r: Self)
        ensures
            r@ == self@,
    {
        Paragraph {
            id: self.id.clone(),
            preview: self.preview.clone(),
            has_translation: self.has_translation,
        }
    }
}

/// The views of a list of paragraphs.
pub open spec fn paragraph_views(v: Seq<Paragraph>) -> Seq<ParagraphView> {
    v.map_values(|p: Paragraph| p@)
}

} // verus!

verus! {

/// A paragraph with the text a picker shows for it.
#[derive(Debug, PartialEq)]
pub struct DisplayParagraph {
    pub id: String,
    pub display_text: String,
}

/// The text a picker shows for a paragraph: its preview, after the marker
/// `（untranslated）` when it has no translation in the current language.
pub open spec fn display_text_spec(p: ParagraphView, untranslated: Seq<char>) -> Seq<char> {
    if p.has_translation {
        p.preview
    } else {
        seq!['（'] + untranslated + seq!['）'] + p.preview
    }
}

/// The picker's form of `p`, with `untranslated` the marker's text in the
/// reader's language.
pub fn display_paragraph(p: &Paragraph, untranslated: &str) -> (r: DisplayParagraph)
    ensures
        r.id@ == p.id@,
        r.display_text@ == display_text_spec(p@, untranslated@),
{
    let display_text = if !p.has_translation {
        let mut t = String::new();
        append_str(&mut t, "（");
        append_str(&mut t, untranslated);
        append_str(&mut t, "）");
        append_str(&mut t, p.preview.as_str());
        proof {
            reveal_strlit("（");
            reveal_strlit("）");
        }
        t
    } else {
        p.preview.clone()
    };
    DisplayParagraph { id: p.id.clone(), display_text }
}

/// The `(id, text)` pairs a picker lists, in order: the paragraphs not among
/// `excluded` whose shown text matches the search `query`.
pub open spec fn listed_paragraphs(
    ps: Seq<ParagraphView>,
    excluded: Seq<Seq<char>>,
    untranslated: Seq<char>,
    query: Seq<char>,
) -> Seq<(Seq<char>, Seq<char>)>
    decreases ps.len(),
{
    if ps.len() == 0 {
        Seq::empty()
    } else {
        let rest = listed_paragraphs(ps.drop_last(), excluded, untranslated, query);
        let p = ps.last();
        let t = display_text_spec(p, untranslated);
        if !excluded.contains(p.id) && matches_query(t, query) {
            rest.push((p.id, t))
        } else {
            rest
        }
    }
}

/// The `(id, text)` pairs of a list of shown paragraphs.
pub open spec fn display_views(ds: Seq<DisplayParagraph>) -> Seq<(Seq<char>, Seq<char>)> {
    ds.map_values(|d: DisplayParagraph| (d.id@, d.display_text@))
}

/// Whether `id` is one of `ids`.
fn contains_id(ids: &Vec<String>, id: &str) -> (b: bool)
    ensures
        b == views(ids@).contains(id@),
{
    let ghost vs = views(ids@);
    let mut i: usize = 0;
    while i < ids.len()
        invariant
            vs == views(ids@),
            i <= ids@.len(),
            forall|j: int| 0 <= j < i ==> #[trigger] vs[j] != id@,
        decreases ids@.len() - i,
    {
        assert(vs[i as int] == ids@[i as int]@);
        if str_equal(ids[i].as_str(), id) {
            return true;
        }
        i = i + 1;
    }
    false
}

/// The paragraphs a picker lists for the search `query`, leaving out those
/// whose ids are in `excluded` (the ones already chosen).
pub fn list_paragraphs(
    paragraphs: &Vec<Paragraph>,
    excluded: &Vec<String>,
    untranslated: &str,
    query: &str,
) -> (r: Vec<DisplayParagraph>)
    ensures
        display_views(r@) == listed_paragraphs(
            paragraph_views(paragraphs@),
            views(excluded@),
            untranslated@,
            query@,
        ),
{
    let ghost pv = paragraph_views(paragraphs@);
    let mut out: Vec<DisplayParagraph> = Vec::new();
    let mut i: usize = 0;
    while i < paragraphs.len()
        invariant
            pv == paragraph_views(paragraphs@),
            i <= paragraphs@.len(),
            display_views(out@) == listed_paragraphs(
                pv.subrange(0, i as int),
                views(excluded@),
                untranslated@,
                query@,
            ),
        decreases paragraphs@.len() - i,
    {
        assert(pv.subrange(0, i + 1).drop_last() =~= pv.subrange(0, i as int));
        assert(pv.subrange(0, i + 1).last() == paragraphs@[i as int]@);
        if !contains_id(excluded, paragraphs[i].id.as_str()) {
            let d = display_paragraph(&paragraphs[i], untranslated);
            if text_matches_query(d.display_text.as_str(), query) {
                let ghost before = out@;
                let ghost dv = (d.id@, d.display_text@);
                out.push(d);
                assert(display_views(out@) =~= display_views(before).push(dv));
            }
        }
        i = i + 1;
    }
    assert(pv.subrange(0, paragraphs@.len() as int) =~= pv);
    out
}

/// The first paragraph of `ps` with the id `id`, in the picker's form.
pub open spec fn selected_spec(ps: Seq<ParagraphView>, id: Seq<char>, untranslated: Seq<char>) -> Option<
    (Seq<char>, Seq<char>),
>
    decreases ps.len(),
{
    if ps.len() == 0 {
        None
    } else if ps[0].id == id {
        Some((ps[0].id, display_text_spec(ps[0], untranslated)))
    } else {
        selected_spec(ps.drop_first(), id, untranslated)
    }
}

/// The picker's form of the paragraph whose id is the picker's value.
pub fn selected_paragraph(paragraphs: &Vec<Paragraph>, value: &str, untranslated: &str) -> (r: Option<
    DisplayParagraph,
>)
    ensures
        match r {
            Some(d) => selected_spec(paragraph_views(paragraphs@), value@, untranslated@) == Some(
                (d.id@, d.display_text@),
            ),
            None => selected_spec(paragraph_views(paragraphs@), value@, untranslated@) is None,
        },
{
    let ghost pv = paragraph_views(paragraphs@);
    let n = paragraphs.len();
    let mut i: usize = 0;
    assert(pv.subrange(0, n as int) =~= pv);
    while i < n
        invariant
            n == paragraphs@.len(),
            pv == paragraph_views(paragraphs@),
            i <= n,
            selected_spec(pv.subrange(i as int, n as int), value@, untranslated@) == selected_spec(
                pv,
                value@,
                untranslated@,
            ),
        decreases n - i,
    {
        let ghost tail = pv.subrange(i as int, n as int);
        assert(tail[0] == paragraphs@[i as int]@);
        if str_equal(paragraphs[i].id.as_str(), value) {
            return Some(display_paragraph(&paragraphs[i], untranslated));
        }
        assert(tail.drop_first() =~= pv.subrange(i + 1, n as int));
        i = i + 1;
    }
    None
}

/// The multi-select picker is disabled when asked to be, and when there is
/// nothing to pick.
pub fn is_picker_disabled(disabled: bool, paragraphs: &Vec<Paragraph>) -> (b: bool)
    ensures
        b == (disabled || paragraphs@.len() == 0),
{
    disabled || paragraphs.len() == 0
}

} // verus!
