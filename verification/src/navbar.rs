//! The navigation bar's decisions: whether the page asked for debug mode,
//! the address it keeps that request in, and the name of the current language.

use vstd::prelude::*;
use crate::config::{has_debugmode_pair, query_has_debugmode};
use crate::language_selector::{Language, language_name, language_views, name_of_code};
use crate::text::{append_str, split_by_char, split_spec, views};

verus! {

/// The query as the navigation bar reads it from the page's address: the text
/// between the first `?` and the next one, if there is a first.
pub open spec fn navbar_query(search: Seq<char>) -> Seq<char> {
    let parts = split_spec(search, '?');
    if parts.len() > 1 {
        parts[1]
    } else {
        Seq::empty()
    }
}

/// The navigation bar's reading of debug mode: a `debugmode=true` pair in
/// its query.
pub open spec fn navbar_debugmode_spec(search: Seq<char>) -> bool {
    has_debugmode_pair(navbar_query(search))
}

/// Whether the page's query turns debug mode on, as the navigation bar reads it.
pub fn navbar_debugmode_enabled(search: &str) -> (b: bool)
    ensures
        b == navbar_debugmode_spec(search@),
{
    let parts = split_by_char(search, '?');
    let query: String = if parts.len() > 1 {
        assert(views(parts@)[1] == parts@[1]@);
        parts[1].clone()
    } else {
        String::new()
    };
    assert(query@ == navbar_query(search@));
    query_has_debugmode(query.as_str())
}

/// The address that keeps debug mode on: the page's path with the query
/// `?debugmode=true`.
pub fn debugmode_url(path: &str) -> (r: String)
    ensures
        r@ == path@ + "?debugmode=true"@,
{
    let mut out = path.to_string();
    append_str(&mut out, "?debugmode=true");
    out
}

/// The name the navigation bar shows for the current language: its name
/// among `langs`, or `English` for a code that is not there.
pub fn current_language_name(langs: &Vec<Language>, code: &str) -> (r: &'static str)
    ensures
        r@ == match name_of_code(language_views(langs@), code@) {
            Some(n) => n,
            None => "English"@,
        },
{
    language_name(langs, code, "English")
}

} // verus!
