//! The reader's pages as routes, the language each of them carries, and the
//! language a first visit starts in.

use vstd::prelude::*;
use crate::address::{starts_with, str_starts_with};
use crate::language_selector::{Language, language_views};
use crate::text::{str_equal, views};
use crate::impacts::copy_strings;

verus! {

/// A page of the reader. Every page but the home page and the missing page
/// is under a language.
#[derive(Debug, PartialEq)]
pub enum Route {
    Home {},
    Story { lang: String },
    Dashboard { lang: String },
    InviteRequest { lang: String },
    InviteCheckEmail { lang: String },
    Register { lang: String },
    Login { lang: String },
    PageNotFound { route: Vec<String> },
}

/// The content of a `Route`.
pub enum RouteView {
    Home,
    Story(Seq<char>),
    Dashboard(Seq<char>),
    InviteRequest(Seq<char>),
    InviteCheckEmail(Seq<char>),
    Register(Seq<char>),
    Login(Seq<char>),
    PageNotFound(Seq<Seq<char>>),
}

impl View for Route {
    type V = RouteView;

    open spec fn view(&self) -> RouteView {
        match self {
            Route::Home {} => RouteView::Home,
            Route::Story { lang } => RouteView::Story(lang@),
            Route::Dashboard { lang } => RouteView::Dashboard(lang@),
            Route::InviteRequest { lang } => RouteView::InviteRequest(lang@),
            Route::InviteCheckEmail { lang } => RouteView::InviteCheckEmail(lang@),
            Route::Register { lang } => RouteView::Register(lang@),
            Route::Login { lang } => RouteView::Login(lang@),
            Route::PageNotFound { route } => RouteView::PageNotFound(views(route@)),
        }
    }
}

/// The language a page is under, if it is under one.
pub open spec fn route_language(r: RouteView) -> Option<Seq<char>> {
    match r {
        RouteView::Story(l) => Some(l),
        RouteView::Dashboard(l) => Some(l),
        RouteView::InviteRequest(l) => Some(l),
        RouteView::InviteCheckEmail(l) => Some(l),
        RouteView::Register(l) => Some(l),
        RouteView::Login(l) => Some(l),
        _ => None,
    }
}

/// The same page under the language `lang` (a page under no language is
/// left as it is).
pub open spec fn under_language(r: RouteView, lang: Seq<char>) -> RouteView {
    match r {
        RouteView::Story(_) => RouteView::Story(lang),
        RouteView::Dashboard(_) => RouteView::Dashboard(lang),
        RouteView::InviteRequest(_) => RouteView::InviteRequest(lang),
        RouteView::InviteCheckEmail(_) => RouteView::InviteCheckEmail(lang),
        RouteView::Register(_) => RouteView::Register(lang),
        RouteView::Login(_) => RouteView::Login(lang),
        _ => r,
    }
}

/// The first language of `ls` whose code's first two characters begin
/// `language`.
pub open spec fn prefix_language(ls: Seq<(Seq<char>, Seq<char>)>, language: Seq<char>) -> Option<
    Seq<char>,
>
    decreases ls.len(),
{
    if ls.len() == 0 {
        None
    } else if starts_with(language, ls[0].0.subrange(0, 2)) {
        Some(ls[0].0)
    } else {
        prefix_language(ls.drop_first(), language)
    }
}

/// Some language of `ls` has the code `code`.
pub open spec fn offers_code(ls: Seq<(Seq<char>, Seq<char>)>, code: Seq<char>) -> bool {
    exists|i: int| 0 <= i < ls.len() && #[trigger] ls[i].0 == code
}

/// The language a first visit starts in: with no browser language, or one
/// that matches nothing on offer, English (US); a browser language with
/// another canonical form, that form; one on offer, itself; else the first
/// language on offer that shares its first two characters.
pub open spec fn starting_language(
    browser_language: Option<Seq<char>>,
    canonical_form: Seq<char>,
    ls: Seq<(Seq<char>, Seq<char>)>,
) -> Seq<char> {
    match browser_language {
        None => "en-US"@,
        Some(l) => if canonical_form != l {
            canonical_form
        } else if offers_code(ls, l) {
            l
        } else {
            match prefix_language(ls, l) {
                Some(c) => c,
                None => "en-US"@,
            }
        },
    }
}

/// The codes on offer begin with two ASCII characters, so that their first
/// two bytes are their first two characters.
pub open spec fn codes_have_ascii_prefix(ls: Seq<(Seq<char>, Seq<char>)>) -> bool {
    forall|i: int|
        0 <= i < ls.len() ==> {
            &&& (#[trigger] ls[i]).0.len() >= 2
            &&& (ls[i].0[0] as u32) < 128
            &&& (ls[i].0[1] as u32) < 128
        }
}

impl Route {
    /// The same page under `canonical`, the canonical form of its language,
    /// when that differs from the language it is under; `None` for a page
    /// already under its canonical language and for a page under none.
    pub fn with_canonical_language(&self, canonical: &str) -> (r: Option<Route>)
        ensures
            match route_language(self@) {
                None => r is None,
                Some(l) => if canonical@ == l {
                    r is None
                } else {
                    r is Some && r->0@ == under_language(self@, canonical@)
                },
            },
    {
        let lang = match self {
            Route::Story { lang } => lang,
            Route::Dashboard { lang } => lang,
            Route::InviteRequest { lang } => lang,
            Route::InviteCheckEmail { lang } => lang,
            Route::Register { lang } => lang,
            Route::Login { lang } => lang,
            Route::Home {} => {
                return None;
            },
            Route::PageNotFound { .. } => {
                return None;
            },
        };
        if str_equal(canonical, lang.as_str()) {
            return None;
        }
        let c = canonical.to_string();
        let r = match self {
            Route::Story { .. } => Route::Story { lang: c },
            Route::Dashboard { .. } => Route::Dashboard { lang: c },
            Route::InviteRequest { .. } => Route::InviteRequest { lang: c },
            Route::InviteCheckEmail { .. } => Route::InviteCheckEmail { lang: c },
            Route::Register { .. } => Route::Register { lang: c },
            Route::Login { .. } => Route::Login { lang: c },
            Route::Home {} => Route::Home {},
            Route::PageNotFound { route } => Route::PageNotFound { route: copy_strings(route) },
        };
        Some(r)
    }

    /// The page to go to when the reader picks the language `code`: the same
    /// page under `code`; nothing for a page under no language.
    pub fn route_for_language(&self, code: &str) -> (r: Option<Route>)
        ensures
            match route_language(self@) {
                None => r is None,
                Some(_) => r is Some && r->0@ == under_language(self@, code@),
            },
    {
        let c = code.to_string();
        match self {
            Route::Story { .. } => Some(Route::Story { lang: c }),
            Route::Dashboard { .. } => Some(Route::Dashboard { lang: c }),
            Route::InviteRequest { .. } => Some(Route::InviteRequest { lang: c }),
            Route::InviteCheckEmail { .. } => Some(Route::InviteCheckEmail { lang: c }),
            Route::Register { .. } => Some(Route::Register { lang: c }),
            Route::Login { .. } => Some(Route::Login { lang: c }),
            Route::Home {} => None,
            Route::PageNotFound { .. } => None,
        }
    }

    /// The language a first visit starts in, given the browser's language
    /// (if it tells one), the canonical form of that language, and the
    /// languages on offer.
    pub fn default_language(
        browser_language: Option<&str>,
        canonical_form: &str,
        langs: &Vec<Language>,
    ) -> (r: String)
        requires
            codes_have_ascii_prefix(language_views(langs@)),
        ensures
            r@ == starting_language(
                match browser_language {
                    Some(l) => Some(l@),
                    None => None,
                },
                canonical_form@,
                language_views(langs@),
            ),
    {
        let ghost lv = language_views(langs@);
        let language = match browser_language {
            None => {
                return "en-US".to_string();
            },
            Some(l) => l,
        };
        if !str_equal(canonical_form, language) {
            return canonical_form.to_string();
        }
        let n = langs.len();
        let mut i: usize = 0;
        while i < n
            invariant
                n == langs@.len(),
                lv == language_views(langs@),
                browser_language == Some(language),
                canonical_form@ == language@,
                i <= n,
                forall|j: int| 0 <= j < i ==> lv[j].0 != language@,
            decreases n - i,
        {
            assert(lv[i as int].0 == langs@[i as int].code@);
            if str_equal(langs[i].code, language) {
                assert(offers_code(lv, language@)) by {
                    assert(lv[i as int].0 == language@);
                }
                return language.to_string();
            }
            i = i + 1;
        }
        assert(!offers_code(lv, language@));
        let mut k: usize = 0;
        assert(lv.subrange(0, n as int) =~= lv);
        while k < n
            invariant
                n == langs@.len(),
                lv == language_views(langs@),
                codes_have_ascii_prefix(lv),
                browser_language == Some(language),
                canonical_form@ == language@,
                !offers_code(lv, language@),
                k <= n,
                prefix_language(lv.subrange(k as int, n as int), language@) == prefix_language(
                    lv,
                    language@,
                ),
            decreases n - k,
        {
            let ghost tail = lv.subrange(k as int, n as int);
            assert(tail[0] == lv[k as int]);
            assert(lv[k as int].0 == langs@[k as int].code@);
            let code = langs[k].code;
            assert(code@.len() >= 2) by {
                assert(codes_have_ascii_prefix(lv));
                assert(lv[k as int].0.len() >= 2);
            }
            let head = code.substring_char(0, 2);
            if str_starts_with(language, head) {
                assert(tail.len() > 0 && tail[0].0.subrange(0, 2) == head@);
                assert(prefix_language(tail, language@) == Some(code@));
                return code.to_string();
            }
            assert(tail.drop_first() =~= lv.subrange(k + 1, n as int));
            k = k + 1;
        }
        "en-US".to_string()
    }
}

} // verus!

verus! {

/// A page moved to the canonical form of its language is under that form,
/// so asking again with the same form moves it no further.
pub proof fn law_canonical_move_is_final(r: RouteView, canonical: Seq<char>)
    requires
        route_language(r) is Some,
    ensures
        route_language(under_language(r, canonical)) == Some(canonical),
        under_language(under_language(r, canonical), canonical) == under_language(r, canonical),
{
}

} // verus!
