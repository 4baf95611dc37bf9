//! Decisions about the page's address: the staging prefix of its path, and
//! restoring a query and fragment that a redirect dropped.

use vstd::prelude::*;
use crate::text::{append_str, str_equal};

verus! {

/// `s` begins with `p`.
pub open spec fn starts_with(s: Seq<char>, p: Seq<char>) -> bool {
    p.len() <= s.len() && s.subrange(0, p.len() as int) == p
}

/// Whether `s` begins with `p`, as `str::starts_with` tells.
pub fn str_starts_with(s: &str, p: &str) -> (b: bool)
    ensures
        b == starts_with(s@, p@),
{
    let n = s.unicode_len();
    let m = p.unicode_len();
    if m > n {
        return false;
    }
    str_equal(s.substring_char(0, m), p)
}

/// The deployment prefix of a path: `staging` for `/staging` and everything
/// under `/staging/`.
pub open spec fn staging_prefix_spec(path: Seq<char>) -> Option<Seq<char>> {
    if path == "/staging"@ || starts_with(path, "/staging/"@) {
        Some("staging"@)
    } else {
        None
    }
}

/// The deployment prefix of the page's path.
pub fn staging_prefix(path: &str) -> (r: Option<String>)
    ensures
        match r {
            Some(p) => staging_prefix_spec(path@) == Some(p@),
            None => staging_prefix_spec(path@) is None,
        },
{
    if str_equal(path, "/staging") || str_starts_with(path, "/staging/") {
        Some("staging".to_string())
    } else {
        None
    }
}

/// What to do with the query and fragment the page started with.
pub enum RestorePlan {
    /// Nothing was kept: nothing to do.
    Nothing,
    /// The address still has them: forget the kept copies.
    Forget,
    /// They were dropped: put this address back, and forget the kept copies.
    Replace(String),
}

/// The plan in the abstract: `None` for nothing to do, `Some(None)` to only
/// forget, `Some(Some(url))` to put `url` back.
pub open spec fn restore_spec(
    initial_search: Seq<char>,
    initial_hash: Seq<char>,
    current_path: Seq<char>,
    current_search: Seq<char>,
    current_hash: Seq<char>,
) -> Option<Option<Seq<char>>> {
    if initial_search.len() == 0 && initial_hash.len() == 0 {
        None
    } else if current_search == initial_search && current_hash == initial_hash {
        Some(None)
    } else {
        Some(Some(current_path + initial_search + initial_hash))
    }
}

/// Decides whether the query and fragment the page started with must be put
/// back on the current path.
pub fn restore_plan(
    initial_search: &str,
    initial_hash: &str,
    current_path: &str,
    current_search: &str,
    current_hash: &str,
) -> (r: RestorePlan)
    ensures
        match r {
            RestorePlan::Nothing => restore_spec(
                initial_search@,
                initial_hash@,
                current_path@,
                current_search@,
                current_hash@,
            ) is None,
            RestorePlan::Forget => restore_spec(
                initial_search@,
                initial_hash@,
                current_path@,
                current_search@,
                current_hash@,
            ) == Some(None::<Seq<char>>),
            RestorePlan::Replace(url) => restore_spec(
                initial_search@,
                initial_hash@,
                current_path@,
                current_search@,
                current_hash@,
            ) == Some(Some(url@)),
        },
{
    if initial_search.unicode_len() == 0 && initial_hash.unicode_len() == 0 {
        return RestorePlan::Nothing;
    }
    if str_equal(current_search, initial_search) && str_equal(current_hash, initial_hash) {
        return RestorePlan::Forget;
    }
    let mut url = current_path.to_string();
    append_str(&mut url, initial_search);
    append_str(&mut url, initial_hash);
    RestorePlan::Replace(url)
}

} // verus!
