//! The reader's story page: the choices it lists, and the decisions it makes
//! about lines, keys, overlays, countdowns and which choices may be taken.

use vstd::prelude::*;
use crate::json::{JsonValue, JsonView, opt_json_view, copy_opt_json};
use crate::story_runtime::{opt_view, copy_opt};
use crate::translation_form::{ParagraphChoice, choice_key, choice_to, choice_type, choice_value};
use crate::text::{
    append_str, decimal_digits, decimal_string, is_blank, parse_unsigned_spec, parse_usize,
    split_by_char, split_spec, str_equal, trim_spec, views,
};
use crate::paragraph_context::{Paragraph, ParagraphChoiceView as StoredChoiceView, TextView};

verus! {

/// What taking a choice does.
#[derive(Debug, PartialEq)]
pub struct Action {
    pub type_: String,
    pub key: Option<String>,
    pub value: Option<JsonValue>,
    pub to: String,
}

/// A choice as the story page lists it.
#[derive(Debug, PartialEq)]
pub struct Choice {
    pub caption: String,
    pub action: Action,
}

/// The content of an `Action`.
pub struct ActionView {
    pub type_: Seq<char>,
    pub key: Option<Seq<char>>,
    pub value: Option<JsonView>,
    pub to: Seq<char>,
}

/// The content of a `Choice`.
pub struct ChoiceView {
    pub caption: Seq<char>,
    pub action: ActionView,
}

impl View for Action {
    type V = ActionView;

    open spec fn view(&self) -> ActionView {
        ActionView {
            type_: self.type_@,
            key: opt_view(self.key),
            value: opt_json_view(self.value),
            to: self.to@,
        }
    }
}

impl View for Choice {
    type V = ChoiceView;

    open spec fn view(&self) -> ChoiceView {
        ChoiceView { caption: self.caption@, action: self.action@ }
    }
}

impl Clone for Action {
    fn clone(&self) -> (r: Self)
        ensures
            r@ == self@,
    {
        Action {
            type_: self.type_.clone(),
            key: copy_opt(&self.key),
            value: copy_opt_json(&self.value),
            to: self.to.clone(),
        }
    }
}

impl Clone for Choice {
    fn clone(&self) -> (r: Self)
        ensures
            r@ == self@,
    {
        Choice { caption: self.caption.clone(), action: self.action.clone() }
    }
}

impl Choice {
    /// The page's form of a choice as a paragraph stores it; the caption is
    /// left empty, for the page to fill in from the paragraph's text.
    pub fn from_paragraph_choice(choice: ParagraphChoice) -> (r: Choice)
        ensures
            r@.caption == Seq::<char>::empty(),
            r@.action.type_ == choice_type(choice@),
            r@.action.key == choice_key(choice@),
            r@.action.value == choice_value(choice@),
            r@.action.to == choice_to(choice@),
    {
        Choice {
            caption: String::new(),
            action: Action {
                type_: choice.get_type(),
                key: choice.get_key(),
                value: choice.get_value(),
                to: choice.get_to(),
            },
        }
    }
}

/// The targets of a list of choices.
pub open spec fn choice_targets(cs: Seq<Choice>) -> Seq<Seq<char>> {
    cs.map_values(|c: Choice| c.action.to@)
}

} // verus!

verus! {

/// The lines of a paragraph that hold more than white space, in order.
pub open spec fn shown_lines(lines: Seq<Seq<char>>) -> Seq<Seq<char>>
    decreases lines.len(),
{
    if lines.len() == 0 {
        Seq::empty()
    } else {
        let rest = shown_lines(lines.drop_last());
        if trim_spec(lines.last()).len() == 0 {
            rest
        } else {
            rest.push(lines.last())
        }
    }
}

/// The lines of `paragraph` that the page shows: it is cut at each newline,
/// and lines with nothing but white space are left out.
pub fn paragraph_lines(paragraph: &str) -> (r: Vec<String>)
    ensures
        views(r@) == shown_lines(split_spec(paragraph@, '\n')),
{
    let pieces = split_by_char(paragraph, '\n');
    let ghost ps = views(pieces@);
    let mut out: Vec<String> = Vec::new();
    let mut i: usize = 0;
    while i < pieces.len()
        invariant
            ps == views(pieces@),
            i <= pieces@.len(),
            views(out@) == shown_lines(ps.subrange(0, i as int)),
        decreases pieces@.len() - i,
    {
        assert(ps.subrange(0, i + 1).drop_last() =~= ps.subrange(0, i as int));
        assert(ps.subrange(0, i + 1).last() == pieces@[i as int]@);
        if !is_blank(pieces[i].as_str()) {
            let line = pieces[i].clone();
            let ghost before = out@;
            out.push(line);
            assert(views(out@) =~= views(before).push(line@));
        }
        i = i + 1;
    }
    assert(ps.subrange(0, pieces@.len() as int) =~= ps);
    out
}

/// A choice may be taken when its key is among the enabled ones and its
/// countdown has not run out (a missing countdown entry has not).
pub open spec fn choice_enabled(
    enabled_choices: Seq<Seq<char>>,
    key: Seq<char>,
    disabled_by_countdown: Seq<bool>,
    index: int,
) -> bool {
    enabled_choices.contains(key) && !(0 <= index < disabled_by_countdown.len()
        && disabled_by_countdown[index])
}

/// Whether the choice at `index`, known to the page by `key`, may be taken.
pub fn is_choice_enabled(
    enabled_choices: &Vec<String>,
    key: &str,
    disabled_by_countdown: &Vec<bool>,
    index: usize,
) -> (b: bool)
    ensures
        b == choice_enabled(views(enabled_choices@), key@, disabled_by_countdown@, index as int),
{
    let ghost es = views(enabled_choices@);
    let mut found = false;
    let mut i: usize = 0;
    while i < enabled_choices.len()
        invariant
            es == views(enabled_choices@),
            i <= enabled_choices@.len(),
            found == (exists|j: int| 0 <= j < i && #[trigger] es[j] == key@),
        decreases enabled_choices@.len() - i,
    {
        assert(es[i as int] == enabled_choices@[i as int]@);
        if str_equal(enabled_choices[i].as_str(), key) {
            found = true;
        }
        i = i + 1;
    }
    let disabled = index < disabled_by_countdown.len() && disabled_by_countdown[index];
    found && !disabled
}

/// What a key press on the story page does.
#[derive(Debug, PartialEq, Eq, Structural)]
pub enum KeyAction {
    /// The key is not a number: the page leaves it alone.
    Ignore,
    /// The key is a number that selects nothing: the page swallows it.
    Consume,
    /// The key selects the choice at this index: the page takes it.
    Choose(usize),
}

/// What pressing `key` does, given the listed choices, the enabled targets and
/// the countdown state: a number `n` from 1 to the number of choices takes the
/// `n`-th choice if it may be taken.
pub open spec fn key_action(
    key: Seq<char>,
    targets: Seq<Seq<char>>,
    enabled_choices: Seq<Seq<char>>,
    disabled_by_countdown: Seq<bool>,
) -> KeyAction {
    match parse_unsigned_spec(key, usize::MAX as int) {
        None => KeyAction::Ignore,
        Some(n) => if 1 <= n <= targets.len() && choice_enabled(
            enabled_choices,
            targets[n - 1],
            disabled_by_countdown,
            n - 1,
        ) {
            KeyAction::Choose((n - 1) as usize)
        } else {
            KeyAction::Consume
        },
    }
}

/// Decides what a key press on the story page does.
pub fn keyboard_action(
    key: &str,
    choices: &Vec<Choice>,
    enabled_choices: &Vec<String>,
    disabled_by_countdown: &Vec<bool>,
) -> (r: KeyAction)
    ensures
        r == key_action(key@, choice_targets(choices@), views(enabled_choices@), disabled_by_countdown@),
{
    match parse_usize(key) {
        None => KeyAction::Ignore,
        Some(num) => {
            if num > 0 && num <= choices.len() {
                let idx = num - 1;
                assert(choice_targets(choices@)[idx as int] == choices@[idx as int].action.to@);
                if is_choice_enabled(
                    enabled_choices,
                    choices[idx].action.to.as_str(),
                    disabled_by_countdown,
                    idx,
                ) {
                    return KeyAction::Choose(idx);
                }
            }
            KeyAction::Consume
        },
    }
}

/// The class that marks a choice as available or not.
pub fn choice_state_class(is_enabled: bool) -> (r: &'static str)
    ensures
        r@ == (if is_enabled {
            "cursor-pointer text-gray-900 hover:text-gray-700 dark:text-white dark:hover:text-gray-300 transition-opacity transition-transform"@
        } else {
            "opacity-50 cursor-not-allowed text-gray-400 dark:text-gray-400"@
        }),
{
    if is_enabled {
        "cursor-pointer text-gray-900 hover:text-gray-700 dark:text-white dark:hover:text-gray-300 transition-opacity transition-transform"
    } else {
        "opacity-50 cursor-not-allowed text-gray-400 dark:text-gray-400"
    }
}

/// The class that marks the choice the keyboard last selected.
pub fn choice_selected_class(is_selected: bool) -> (r: &'static str)
    ensures
        r@ == (if is_selected {
            "text-gray-100 dark:text-gray-300"@
        } else {
            ""@
        }),
{
    if is_selected {
        "text-gray-100 dark:text-gray-300"
    } else {
        ""
    }
}

/// The reading overlay is out of sight when it was dismissed, and always on
/// small screens.
pub fn overlay_hidden(show_filter: bool, is_mobile: bool) -> (b: bool)
    ensures
        b == (!show_filter || is_mobile),
{
    !show_filter || is_mobile
}

/// The overlay's visibility classes.
pub fn overlay_visibility_class(show_filter: bool, is_mobile: bool) -> (r: &'static str)
    ensures
        r@ == (if !show_filter || is_mobile {
            "opacity-0 pointer-events-none transform translate-y-2"@
        } else {
            "opacity-100 transform translate-y-0"@
        }),
{
    if overlay_hidden(show_filter, is_mobile) {
        "opacity-0 pointer-events-none transform translate-y-2"
    } else {
        "opacity-100 transform translate-y-0"
    }
}

/// The message key of the overlay's prompt: continue once the reader has
/// been in the text, start before.
pub fn overlay_prompt_key(is_focused: bool) -> (r: &'static str)
    ensures
        r@ == (if is_focused {
            "continue_reading"@
        } else {
            "start_reading"@
        }),
{
    if is_focused {
        "continue_reading"
    } else {
        "start_reading"
    }
}

/// The chapter title shows above the text outside the settings chapter, when
/// there is a title.
pub fn should_show_chapter_title(is_settings_chapter: bool, chapter_title: &str) -> (b: bool)
    ensures
        b == (!is_settings_chapter && chapter_title@.len() > 0),
{
    !is_settings_chapter && chapter_title.unicode_len() > 0
}

/// The list of choices shows in the settings chapter, and elsewhere unless
/// the reader mode hides it.
pub fn should_show_choices(is_settings_chapter: bool, reader_mode: bool) -> (b: bool)
    ensures
        b == (is_settings_chapter || !reader_mode),
{
    is_settings_chapter || !reader_mode
}

/// The play state of the countdown bars: paused while the overlay covers the
/// text.
pub fn animation_play_state(is_countdown_paused: bool) -> (r: &'static str)
    ensures
        r@ == (if is_countdown_paused {
            "paused"@
        } else {
            "running"@
        }),
{
    if is_countdown_paused {
        "paused"
    } else {
        "running"
    }
}

/// The entry at `index`, or 0 past the end.
pub fn value_or_zero(values: &Vec<u32>, index: usize) -> (r: u32)
    ensures
        r == (if index < values@.len() {
            values@[index as int]
        } else {
            0
        }),
{
    if index < values.len() {
        values[index]
    } else {
        0
    }
}

/// When the countdown bar of the choice at `index` runs out, that choice is
/// disabled; a choice without a countdown is left as it is.
pub fn expire_countdown(disabled_by_countdown: &mut Vec<bool>, index: usize, countdown: u32)
    requires
        countdown > 0 ==> index < old(disabled_by_countdown)@.len(),
    ensures
        final(disabled_by_countdown)@ == (if countdown > 0 {
            old(disabled_by_countdown)@.update(index as int, true)
        } else {
            old(disabled_by_countdown)@
        }),
{
    if countdown > 0 {
        if !disabled_by_countdown[index] {
            disabled_by_countdown.set(index, true);
        } else {
            assert(old(disabled_by_countdown)@.update(index as int, true) =~= old(
                disabled_by_countdown,
            )@);
        }
    }
}

/// The page cannot scroll while the overlay covers it, nor in a page-turning
/// mode: only the `scroll` mode scrolls.
pub fn should_lock_page_scroll(show_filter: bool, reading_mode: &str) -> (b: bool)
    ensures
        b == (show_filter || reading_mode@ != "scroll"@),
{
    show_filter || !str_equal(reading_mode, "scroll")
}

/// Leaving the text brings the overlay back on large screens, not on small
/// ones.
pub fn should_show_filter_on_blur(is_mobile: bool) -> (b: bool)
    ensures
        b == !is_mobile,
{
    !is_mobile
}

/// When the overlay goes away, the choices of a timed paragraph appear at
/// once if they have not yet and the whole text fits on the screen; a text
/// that needs scrolling keeps them back until the reader gets to the end.
pub fn should_show_choices_on_overlay_hide(
    show_filter: bool,
    has_shown_choices: bool,
    has_countdown: bool,
    scroll_height: i32,
    client_height: i32,
) -> (b: bool)
    ensures
        b == (!show_filter && !has_shown_choices && has_countdown && scroll_height <= client_height),
{
    !show_filter && !has_shown_choices && has_countdown && scroll_height <= client_height
}

} // verus!

verus! {

/// A key press never takes a choice that may not be taken, and only ever
/// takes a listed one.
pub proof fn law_key_takes_only_enabled_choices(
    key: Seq<char>,
    targets: Seq<Seq<char>>,
    enabled_choices: Seq<Seq<char>>,
    disabled_by_countdown: Seq<bool>,
    i: usize,
)
    requires
        key_action(key, targets, enabled_choices, disabled_by_countdown) == KeyAction::Choose(i),
    ensures
        i < targets.len(),
        choice_enabled(enabled_choices, targets[i as int], disabled_by_countdown, i as int),
{
}

/// Every line the page shows holds more than white space, and the lines keep
/// the paragraph's order.
pub proof fn law_shown_lines_not_blank(lines: Seq<Seq<char>>)
    ensures
        forall|k: int| 0 <= k < shown_lines(lines).len() ==> trim_spec(#[trigger] shown_lines(lines)[k]).len() > 0,
        shown_lines(lines).len() <= lines.len(),
    decreases lines.len(),
{
    if lines.len() > 0 {
        law_shown_lines_not_blank(lines.drop_last());
    }
}

} // verus!

verus! {

/// The text of the paragraphs the reader has gone through on the current
/// page, merged into one.
pub struct StoryMergedContext {
    pub merged_paragraph: String,
}

impl StoryMergedContext {
    /// Nothing merged yet.
    pub fn new() -> (r: Self)
        ensures
            r.merged_paragraph@.len() == 0,
    {
        StoryMergedContext { merged_paragraph: String::new() }
    }
}

} // verus!

verus! {

/// The position of the first text in `lang`, or the number of texts when
/// none is in it.
pub open spec fn lang_position(texts: Seq<TextView>, lang: Seq<char>) -> nat
    decreases texts.len(),
{
    if texts.len() == 0 {
        0
    } else if texts[0].lang == lang {
        0
    } else {
        1 + lang_position(texts.drop_first(), lang)
    }
}

/// The text whose captions the page shows: the first one in `lang`, else
/// the paragraph's first text.
pub open spec fn caption_text(texts: Seq<TextView>, lang: Seq<char>) -> TextView {
    let k = lang_position(texts, lang);
    if k < texts.len() {
        texts[k as int]
    } else {
        texts[0]
    }
}

/// The caption of the choice at `i` when the text names none: `Option `
/// and the choice's number, counted from 1.
pub open spec fn default_caption(i: int) -> Seq<char> {
    "Option "@ + decimal_digits((i + 1) as nat)
}

/// How the page lists the stored choice `c` at position `i`, given the
/// captions of the shown text: its caption, its action, and its first
/// target (none when it has no target).
pub open spec fn shown_choice(c: StoredChoiceView, captions: Seq<Seq<char>>, i: int) -> ChoiceView {
    let targets = crate::paragraph_context::choice_targets(c);
    ChoiceView {
        caption: if i < captions.len() {
            captions[i]
        } else {
            default_caption(i)
        },
        action: ActionView {
            type_: crate::paragraph_context::choice_type(c),
            key: crate::paragraph_context::choice_key(c),
            value: crate::paragraph_context::choice_value(c),
            to: if targets.len() > 0 {
                targets[0]
            } else {
                Seq::empty()
            },
        },
    }
}

proof fn lemma_lang_position(texts: Seq<TextView>, lang: Seq<char>, k: int)
    requires
        0 <= k <= texts.len(),
        forall|j: int| 0 <= j < k ==> texts[j].lang != lang,
        k == texts.len() || texts[k].lang == lang,
    ensures
        lang_position(texts, lang) == k,
    decreases k,
{
    if k > 0 {
        let rest = texts.drop_first();
        assert forall|j: int| 0 <= j < k - 1 implies rest[j].lang != lang by {
            assert(rest[j] == texts[j + 1]);
        }
        lemma_lang_position(rest, lang, k - 1);
    }
}

/// The choices a loaded paragraph shows in `lang`: one for each stored
/// choice, in order, captioned from the first text in `lang` (or the first
/// text when none is in it) and numbered `Option 1`, `Option 2`, ... where
/// that text has fewer captions; each jumps to its first target.
pub fn paragraph_to_choices(paragraph: &Paragraph, lang: &str) -> (r: Vec<Choice>)
    requires
        paragraph.texts@.len() > 0,
    ensures
        r@.len() == paragraph.choices@.len(),
        forall|i: int|
            0 <= i < r@.len() ==> #[trigger] r@[i]@ == shown_choice(
                paragraph@.choices[i],
                caption_text(paragraph@.texts, lang@).choices,
                i,
            ),
{
    let ghost pv = paragraph@;
    let n = paragraph.texts.len();
    let mut k: usize = 0;
    while k < n && !str_equal(paragraph.texts[k].lang.as_str(), lang)
        invariant
            n == paragraph.texts@.len(),
            pv == paragraph@,
            k <= n,
            forall|j: int| 0 <= j < k ==> pv.texts[j].lang != lang@,
        decreases n - k,
    {
        k = k + 1;
    }
    proof {
        lemma_lang_position(pv.texts, lang@, k as int);
    }
    let text = if k < n {
        &paragraph.texts[k]
    } else {
        &paragraph.texts[0]
    };
    assert(text@ == caption_text(pv.texts, lang@));
    let ghost captions = text@.choices;
    let mut r: Vec<Choice> = Vec::new();
    let mut i: usize = 0;
    while i < paragraph.choices.len()
        invariant
            pv == paragraph@,
            captions == text@.choices,
            captions == caption_text(pv.texts, lang@).choices,
            i <= paragraph.choices@.len(),
            r@.len() == i,
            forall|j: int|
                0 <= j < i ==> #[trigger] r@[j]@ == shown_choice(pv.choices[j], captions, j),
        decreases paragraph.choices@.len() - i,
    {
        let caption = if i < text.choices.len() {
            text.choices[i].clone()
        } else {
            let mut s = "Option ".to_string();
            let number = decimal_string(i + 1);
            append_str(&mut s, number.as_str());
            s
        };
        let c = &paragraph.choices[i];
        let targets = c.get_to();
        let to = if targets.len() > 0 {
            targets[0].clone()
        } else {
            String::new()
        };
        let choice = Choice {
            caption,
            action: Action { type_: c.get_type(), key: c.get_key(), value: c.get_value(), to },
        };
        assert(c@ == pv.choices[i as int]);
        assert(choice@ == shown_choice(pv.choices[i as int], captions, i as int));
        r.push(choice);
        i = i + 1;
    }
    r
}

} // verus!

verus! {

/// A text in `text_lang` serves a reader of `lang`: the same code, or plain
/// `zh` for `zh-TW`.
pub open spec fn serves_language(text_lang: Seq<char>, lang: Seq<char>) -> bool {
    text_lang == lang || (lang == "zh-TW"@ && text_lang == "zh"@)
}

/// The position of the first text that serves `lang`, or the number of
/// texts when none does.
pub open spec fn serving_position(texts: Seq<TextView>, lang: Seq<char>) -> nat
    decreases texts.len(),
{
    if texts.len() == 0 {
        0
    } else if serves_language(texts[0].lang, lang) {
        0
    } else {
        1 + serving_position(texts.drop_first(), lang)
    }
}

/// The body a reader of `lang` sees: that of the first text serving `lang`,
/// else that of the first text, else nothing.
pub open spec fn shown_paragraph_text(texts: Seq<TextView>, lang: Seq<char>) -> Seq<char> {
    let k = serving_position(texts, lang);
    if k < texts.len() {
        texts[k as int].paragraphs
    } else if texts.len() > 0 {
        texts[0].paragraphs
    } else {
        Seq::empty()
    }
}

proof fn lemma_serving_position(texts: Seq<TextView>, lang: Seq<char>, k: int)
    requires
        0 <= k <= texts.len(),
        forall|j: int| 0 <= j < k ==> !serves_language(texts[j].lang, lang),
        k == texts.len() || serves_language(texts[k].lang, lang),
    ensures
        serving_position(texts, lang) == k,
    decreases k,
{
    if k > 0 {
        let rest = texts.drop_first();
        assert forall|j: int| 0 <= j < k - 1 implies !serves_language(rest[j].lang, lang) by {
            assert(rest[j] == texts[j + 1]);
        }
        lemma_serving_position(rest, lang, k - 1);
    }
}

/// The body of `paragraph` that a reader of `lang` sees.
pub fn get_paragraph_text(paragraph: &Paragraph, lang: &str) -> (r: String)
    ensures
        r@ == shown_paragraph_text(paragraph@.texts, lang@),
{
    let ghost pv = paragraph@;
    let n = paragraph.texts.len();
    let zh_tw = str_equal(lang, "zh-TW");
    let mut k: usize = 0;
    while k < n
        invariant
            n == paragraph.texts@.len(),
            pv == paragraph@,
            zh_tw == (lang@ == "zh-TW"@),
            k <= n,
            forall|j: int| 0 <= j < k ==> !serves_language(pv.texts[j].lang, lang@),
        decreases n - k,
    {
        let t = &paragraph.texts[k];
        if str_equal(t.lang.as_str(), lang) || (zh_tw && str_equal(t.lang.as_str(), "zh")) {
            proof {
                lemma_serving_position(pv.texts, lang@, k as int);
            }
            return t.paragraphs.clone();
        }
        k = k + 1;
    }
    proof {
        lemma_serving_position(pv.texts, lang@, n as int);
    }
    if n > 0 {
        paragraph.texts[0].paragraphs.clone()
    } else {
        String::new()
    }
}

} // verus!
