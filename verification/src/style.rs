//! CSS classes of the navigation bar's elements.

use vstd::prelude::*;
use crate::text::has_substring;

verus! {

/// The kinds of element the navigation bar draws.
#[derive(Debug, Clone, PartialEq, Eq, Structural)]
pub enum NavbarStyle {
    Link,
    Dropdown,
    DropdownOption,
}

/// The class list of each kind of navigation bar element.
pub open spec fn navbar_class(style: NavbarStyle) -> Seq<char> {
    match style {
        NavbarStyle::Link => "flex-1 sm:flex-none text-center text-xs text-gray-800 dark:text-white paper:text-[#1f2937] hover:text-gray-900 dark:hover:text-gray-300 paper:hover:text-[#111827] transition-colors duration-200 py-2 pen-texture-text"@,
        NavbarStyle::Dropdown => "flex-1 sm:flex-none text-center text-xs text-gray-800 dark:text-white paper:text-[#1f2937] hover:text-gray-900 dark:hover:text-gray-300 paper:hover:text-[#111827] transition-colors duration-200 py-2 cursor-pointer pen-texture-text"@,
        NavbarStyle::DropdownOption => "text-gray-800 dark:text-gray-300 paper:text-[#374151] hover:bg-gray-100 dark:hover:bg-gray-700 paper:hover:bg-[#f0e6cf] pen-texture-text"@,
    }
}

impl NavbarStyle {
    /// The class list for this kind of element.
    pub fn class(&self) -> (r: &'static str)
        ensures
            r@ == navbar_class(*self),
    {
        match self {
            NavbarStyle::Link => "flex-1 sm:flex-none text-center text-xs text-gray-800 dark:text-white paper:text-[#1f2937] hover:text-gray-900 dark:hover:text-gray-300 paper:hover:text-[#111827] transition-colors duration-200 py-2 pen-texture-text",
            NavbarStyle::Dropdown => "flex-1 sm:flex-none text-center text-xs text-gray-800 dark:text-white paper:text-[#1f2937] hover:text-gray-900 dark:hover:text-gray-300 paper:hover:text-[#111827] transition-colors duration-200 py-2 cursor-pointer pen-texture-text",
            NavbarStyle::DropdownOption => "text-gray-800 dark:text-gray-300 paper:text-[#374151] hover:bg-gray-100 dark:hover:bg-gray-700 paper:hover:bg-[#f0e6cf] pen-texture-text",
        }
    }
}


} // verus!

verus! {

/// The classes that links and dropdown buttons share, before the ink texture.
pub open spec fn navbar_item_base() -> Seq<char> {
    "flex-1 sm:flex-none text-center text-xs text-gray-800 dark:text-white paper:text-[#1f2937] hover:text-gray-900 dark:hover:text-gray-300 paper:hover:text-[#111827] transition-colors duration-200 py-2"@
}

/// `p` matches `s` at `i` from its `k`-th character on.
spec fn matches_from(s: Seq<char>, p: Seq<char>, i: int, k: nat) -> bool
    decreases p.len() - k,
{
    if k >= p.len() {
        true
    } else {
        i + k < s.len() && s[i + k] == p[k as int] && matches_from(s, p, i, k + 1)
    }
}

/// `p` matches `s` at no position from `i` on.
spec fn absent_from(s: Seq<char>, p: Seq<char>, i: nat) -> bool
    decreases s.len() - i,
{
    if i >= s.len() {
        true
    } else {
        !matches_from(s, p, i as int, 0) && absent_from(s, p, i + 1)
    }
}

/// A pattern that matches at no position of `s` from `i` on does not occur
/// there.
proof fn lemma_absent_from_sound(s: Seq<char>, p: Seq<char>, i: nat, j: int)
    requires
        absent_from(s, p, i),
        i <= j,
        j + p.len() <= s.len(),
        p.len() > 0,
    ensures
        s.subrange(j, j + p.len()) != p,
    decreases s.len() - i,
{
    if j == i {
        if s.subrange(j, j + p.len()) == p {
            lemma_matches_from(s, p, j, 0);
        }
    } else {
        lemma_absent_from_sound(s, p, i + 1, j);
    }
}

proof fn lemma_matches_from(s: Seq<char>, p: Seq<char>, j: int, k: nat)
    requires
        0 <= j,
        j + p.len() <= s.len(),
        s.subrange(j, j + p.len()) == p,
    ensures
        matches_from(s, p, j, k),
    decreases p.len() - k,
{
    if k < p.len() {
        assert(s.subrange(j, j + p.len())[k as int] == s[j + k]);
        lemma_matches_from(s, p, j, k + 1);
    }
}

/// `p` occurs nowhere in `s` when it matches at no position.
proof fn lemma_not_substring(s: Seq<char>, p: Seq<char>)
    requires
        absent_from(s, p, 0),
        p.len() > 0,
    ensures
        !has_substring(s, p),
{
    assert forall|i: int| 0 <= i && i + p.len() <= s.len() implies #[trigger] s.subrange(i, i + p.len()) != p by {
        lemma_absent_from_sound(s, p, 0, i);
    }
}

/// The link class has no `cursor-pointer`: each position is checked in
/// turn, from the end.
proof fn lemma_link_without_pointer()
    ensures
        absent_from(navbar_class(NavbarStyle::Link), "cursor-pointer"@, 0),
{
    reveal_strlit("flex-1 sm:flex-none text-center text-xs text-gray-800 dark:text-white paper:text-[#1f2937] hover:text-gray-900 dark:hover:text-gray-300 paper:hover:text-[#111827] transition-colors duration-200 py-2 pen-texture-text");
    reveal_strlit("cursor-pointer");
    reveal_with_fuel(matches_from, 3);
    let s = navbar_class(NavbarStyle::Link);
    let p = "cursor-pointer"@;
    assert(absent_from(s, p, 215));
    assert(absent_from(s, p, 214));
    assert(absent_from(s, p, 213));
    assert(absent_from(s, p, 212));
    assert(absent_from(s, p, 211));
    assert(absent_from(s, p, 210));
    assert(absent_from(s, p, 209));
    assert(absent_from(s, p, 208));
    assert(absent_from(s, p, 207));
    assert(absent_from(s, p, 206));
    assert(absent_from(s, p, 205));
    assert(absent_from(s, p, 204));
    assert(absent_from(s, p, 203));
    assert(absent_from(s, p, 202));
    assert(absent_from(s, p, 201));
    assert(absent_from(s, p, 200));
    assert(absent_from(s, p, 199));
    assert(absent_from(s, p, 198));
    assert(absent_from(s, p, 197));
    assert(absent_from(s, p, 196));
    assert(absent_from(s, p, 195));
    assert(absent_from(s, p, 194));
    assert(absent_from(s, p, 193));
    assert(absent_from(s, p, 192));
    assert(absent_from(s, p, 191));
    assert(absent_from(s, p, 190));
    assert(absent_from(s, p, 189));
    assert(absent_from(s, p, 188));
    assert(absent_from(s, p, 187));
    assert(absent_from(s, p, 186));
    assert(absent_from(s, p, 185));
    assert(absent_from(s, p, 184));
    assert(absent_from(s, p, 183));
    assert(absent_from(s, p, 182));
    assert(absent_from(s, p, 181));
    assert(absent_from(s, p, 180));
    assert(absent_from(s, p, 179));
    assert(absent_from(s, p, 178));
    assert(absent_from(s, p, 177));
    assert(absent_from(s, p, 176));
    assert(absent_from(s, p, 175));
    assert(absent_from(s, p, 174));
    assert(absent_from(s, p, 173));
    assert(absent_from(s, p, 172));
    assert(absent_from(s, p, 171));
    assert(absent_from(s, p, 170));
    assert(absent_from(s, p, 169));
    assert(absent_from(s, p, 168));
    assert(absent_from(s, p, 167));
    assert(absent_from(s, p, 166));
    assert(absent_from(s, p, 165));
    assert(absent_from(s, p, 164));
    assert(absent_from(s, p, 163));
    assert(absent_from(s, p, 162));
    assert(absent_from(s, p, 161));
    assert(absent_from(s, p, 160));
    assert(absent_from(s, p, 159));
    assert(absent_from(s, p, 158));
    assert(absent_from(s, p, 157));
    assert(absent_from(s, p, 156));
    assert(absent_from(s, p, 155));
    assert(absent_from(s, p, 154));
    assert(absent_from(s, p, 153));
    assert(absent_from(s, p, 152));
    assert(absent_from(s, p, 151));
    assert(absent_from(s, p, 150));
    assert(absent_from(s, p, 149));
    assert(absent_from(s, p, 148));
    assert(absent_from(s, p, 147));
    assert(absent_from(s, p, 146));
    assert(absent_from(s, p, 145));
    assert(absent_from(s, p, 144));
    assert(absent_from(s, p, 143));
    assert(absent_from(s, p, 142));
    assert(absent_from(s, p, 141));
    assert(absent_from(s, p, 140));
    assert(absent_from(s, p, 139));
    assert(absent_from(s, p, 138));
    assert(absent_from(s, p, 137));
    assert(absent_from(s, p, 136));
    assert(absent_from(s, p, 135));
    assert(absent_from(s, p, 134));
    assert(absent_from(s, p, 133));
    assert(absent_from(s, p, 132));
    assert(absent_from(s, p, 131));
    assert(absent_from(s, p, 130));
    assert(absent_from(s, p, 129));
    assert(absent_from(s, p, 128));
    assert(absent_from(s, p, 127));
    assert(absent_from(s, p, 126));
    assert(absent_from(s, p, 125));
    assert(absent_from(s, p, 124));
    assert(absent_from(s, p, 123));
    assert(absent_from(s, p, 122));
    assert(absent_from(s, p, 121));
    assert(absent_from(s, p, 120));
    assert(absent_from(s, p, 119));
    assert(absent_from(s, p, 118));
    assert(absent_from(s, p, 117));
    assert(absent_from(s, p, 116));
    assert(absent_from(s, p, 115));
    assert(absent_from(s, p, 114));
    assert(absent_from(s, p, 113));
    assert(absent_from(s, p, 112));
    assert(absent_from(s, p, 111));
    assert(absent_from(s, p, 110));
    assert(absent_from(s, p, 109));
    assert(absent_from(s, p, 108));
    assert(absent_from(s, p, 107));
    assert(absent_from(s, p, 106));
    assert(absent_from(s, p, 105));
    assert(absent_from(s, p, 104));
    assert(absent_from(s, p, 103));
    assert(absent_from(s, p, 102));
    assert(absent_from(s, p, 101));
    assert(absent_from(s, p, 100));
    assert(absent_from(s, p, 99));
    assert(absent_from(s, p, 98));
    assert(absent_from(s, p, 97));
    assert(absent_from(s, p, 96));
    assert(absent_from(s, p, 95));
    assert(absent_from(s, p, 94));
    assert(absent_from(s, p, 93));
    assert(absent_from(s, p, 92));
    assert(absent_from(s, p, 91));
    assert(absent_from(s, p, 90));
    assert(absent_from(s, p, 89));
    assert(absent_from(s, p, 88));
    assert(absent_from(s, p, 87));
    assert(absent_from(s, p, 86));
    assert(absent_from(s, p, 85));
    assert(absent_from(s, p, 84));
    assert(absent_from(s, p, 83));
    assert(absent_from(s, p, 82));
    assert(absent_from(s, p, 81));
    assert(absent_from(s, p, 80));
    assert(absent_from(s, p, 79));
    assert(absent_from(s, p, 78));
    assert(absent_from(s, p, 77));
    assert(absent_from(s, p, 76));
    assert(absent_from(s, p, 75));
    assert(absent_from(s, p, 74));
    assert(absent_from(s, p, 73));
    assert(absent_from(s, p, 72));
    assert(absent_from(s, p, 71));
    assert(absent_from(s, p, 70));
    assert(absent_from(s, p, 69));
    assert(absent_from(s, p, 68));
    assert(absent_from(s, p, 67));
    assert(absent_from(s, p, 66));
    assert(absent_from(s, p, 65));
    assert(absent_from(s, p, 64));
    assert(absent_from(s, p, 63));
    assert(absent_from(s, p, 62));
    assert(absent_from(s, p, 61));
    assert(absent_from(s, p, 60));
    assert(absent_from(s, p, 59));
    assert(absent_from(s, p, 58));
    assert(absent_from(s, p, 57));
    assert(absent_from(s, p, 56));
    assert(absent_from(s, p, 55));
    assert(absent_from(s, p, 54));
    assert(absent_from(s, p, 53));
    assert(absent_from(s, p, 52));
    assert(absent_from(s, p, 51));
    assert(absent_from(s, p, 50));
    assert(absent_from(s, p, 49));
    assert(absent_from(s, p, 48));
    assert(absent_from(s, p, 47));
    assert(absent_from(s, p, 46));
    assert(absent_from(s, p, 45));
    assert(absent_from(s, p, 44));
    assert(absent_from(s, p, 43));
    assert(absent_from(s, p, 42));
    assert(absent_from(s, p, 41));
    assert(absent_from(s, p, 40));
    assert(absent_from(s, p, 39));
    assert(absent_from(s, p, 38));
    assert(absent_from(s, p, 37));
    assert(absent_from(s, p, 36));
    assert(absent_from(s, p, 35));
    assert(absent_from(s, p, 34));
    assert(absent_from(s, p, 33));
    assert(absent_from(s, p, 32));
    assert(absent_from(s, p, 31));
    assert(absent_from(s, p, 30));
    assert(absent_from(s, p, 29));
    assert(absent_from(s, p, 28));
    assert(absent_from(s, p, 27));
    assert(absent_from(s, p, 26));
    assert(absent_from(s, p, 25));
    assert(absent_from(s, p, 24));
    assert(absent_from(s, p, 23));
    assert(absent_from(s, p, 22));
    assert(absent_from(s, p, 21));
    assert(absent_from(s, p, 20));
    assert(absent_from(s, p, 19));
    assert(absent_from(s, p, 18));
    assert(absent_from(s, p, 17));
    assert(absent_from(s, p, 16));
    assert(absent_from(s, p, 15));
    assert(absent_from(s, p, 14));
    assert(absent_from(s, p, 13));
    assert(absent_from(s, p, 12));
    assert(absent_from(s, p, 11));
    assert(absent_from(s, p, 10));
    assert(absent_from(s, p, 9));
    assert(absent_from(s, p, 8));
    assert(absent_from(s, p, 7));
    assert(absent_from(s, p, 6));
    assert(absent_from(s, p, 5));
    assert(absent_from(s, p, 4));
    assert(absent_from(s, p, 3));
    assert(absent_from(s, p, 2));
    assert(absent_from(s, p, 1));
    assert(absent_from(s, p, 0));
}

/// The dropdown option class has no `cursor-pointer`: each position is
/// checked in turn, from the end.
proof fn lemma_option_without_pointer()
    ensures
        absent_from(navbar_class(NavbarStyle::DropdownOption), "cursor-pointer"@, 0),
{
    reveal_strlit("text-gray-800 dark:text-gray-300 paper:text-[#374151] hover:bg-gray-100 dark:hover:bg-gray-700 paper:hover:bg-[#f0e6cf] pen-texture-text");
    reveal_strlit("cursor-pointer");
    reveal_with_fuel(matches_from, 3);
    let s = navbar_class(NavbarStyle::DropdownOption);
    let p = "cursor-pointer"@;
    assert(absent_from(s, p, 136));
    assert(absent_from(s, p, 135));
    assert(absent_from(s, p, 134));
    assert(absent_from(s, p, 133));
    assert(absent_from(s, p, 132));
    assert(absent_from(s, p, 131));
    assert(absent_from(s, p, 130));
    assert(absent_from(s, p, 129));
    assert(absent_from(s, p, 128));
    assert(absent_from(s, p, 127));
    assert(absent_from(s, p, 126));
    assert(absent_from(s, p, 125));
    assert(absent_from(s, p, 124));
    assert(absent_from(s, p, 123));
    assert(absent_from(s, p, 122));
    assert(absent_from(s, p, 121));
    assert(absent_from(s, p, 120));
    assert(absent_from(s, p, 119));
    assert(absent_from(s, p, 118));
    assert(absent_from(s, p, 117));
    assert(absent_from(s, p, 116));
    assert(absent_from(s, p, 115));
    assert(absent_from(s, p, 114));
    assert(absent_from(s, p, 113));
    assert(absent_from(s, p, 112));
    assert(absent_from(s, p, 111));
    assert(absent_from(s, p, 110));
    assert(absent_from(s, p, 109));
    assert(absent_from(s, p, 108));
    assert(absent_from(s, p, 107));
    assert(absent_from(s, p, 106));
    assert(absent_from(s, p, 105));
    assert(absent_from(s, p, 104));
    assert(absent_from(s, p, 103));
    assert(absent_from(s, p, 102));
    assert(absent_from(s, p, 101));
    assert(absent_from(s, p, 100));
    assert(absent_from(s, p, 99));
    assert(absent_from(s, p, 98));
    assert(absent_from(s, p, 97));
    assert(absent_from(s, p, 96));
    assert(absent_from(s, p, 95));
    assert(absent_from(s, p, 94));
    assert(absent_from(s, p, 93));
    assert(absent_from(s, p, 92));
    assert(absent_from(s, p, 91));
    assert(absent_from(s, p, 90));
    assert(absent_from(s, p, 89));
    assert(absent_from(s, p, 88));
    assert(absent_from(s, p, 87));
    assert(absent_from(s, p, 86));
    assert(absent_from(s, p, 85));
    assert(absent_from(s, p, 84));
    assert(absent_from(s, p, 83));
    assert(absent_from(s, p, 82));
    assert(absent_from(s, p, 81));
    assert(absent_from(s, p, 80));
    assert(absent_from(s, p, 79));
    assert(absent_from(s, p, 78));
    assert(absent_from(s, p, 77));
    assert(absent_from(s, p, 76));
    assert(absent_from(s, p, 75));
    assert(absent_from(s, p, 74));
    assert(absent_from(s, p, 73));
    assert(absent_from(s, p, 72));
    assert(absent_from(s, p, 71));
    assert(absent_from(s, p, 70));
    assert(absent_from(s, p, 69));
    assert(absent_from(s, p, 68));
    assert(absent_from(s, p, 67));
    assert(absent_from(s, p, 66));
    assert(absent_from(s, p, 65));
    assert(absent_from(s, p, 64));
    assert(absent_from(s, p, 63));
    assert(absent_from(s, p, 62));
    assert(absent_from(s, p, 61));
    assert(absent_from(s, p, 60));
    assert(absent_from(s, p, 59));
    assert(absent_from(s, p, 58));
    assert(absent_from(s, p, 57));
    assert(absent_from(s, p, 56));
    assert(absent_from(s, p, 55));
    assert(absent_from(s, p, 54));
    assert(absent_from(s, p, 53));
    assert(absent_from(s, p, 52));
    assert(absent_from(s, p, 51));
    assert(absent_from(s, p, 50));
    assert(absent_from(s, p, 49));
    assert(absent_from(s, p, 48));
    assert(absent_from(s, p, 47));
    assert(absent_from(s, p, 46));
    assert(absent_from(s, p, 45));
    assert(absent_from(s, p, 44));
    assert(absent_from(s, p, 43));
    assert(absent_from(s, p, 42));
    assert(absent_from(s, p, 41));
    assert(absent_from(s, p, 40));
    assert(absent_from(s, p, 39));
    assert(absent_from(s, p, 38));
    assert(absent_from(s, p, 37));
    assert(absent_from(s, p, 36));
    assert(absent_from(s, p, 35));
    assert(absent_from(s, p, 34));
    assert(absent_from(s, p, 33));
    assert(absent_from(s, p, 32));
    assert(absent_from(s, p, 31));
    assert(absent_from(s, p, 30));
    assert(absent_from(s, p, 29));
    assert(absent_from(s, p, 28));
    assert(absent_from(s, p, 27));
    assert(absent_from(s, p, 26));
    assert(absent_from(s, p, 25));
    assert(absent_from(s, p, 24));
    assert(absent_from(s, p, 23));
    assert(absent_from(s, p, 22));
    assert(absent_from(s, p, 21));
    assert(absent_from(s, p, 20));
    assert(absent_from(s, p, 19));
    assert(absent_from(s, p, 18));
    assert(absent_from(s, p, 17));
    assert(absent_from(s, p, 16));
    assert(absent_from(s, p, 15));
    assert(absent_from(s, p, 14));
    assert(absent_from(s, p, 13));
    assert(absent_from(s, p, 12));
    assert(absent_from(s, p, 11));
    assert(absent_from(s, p, 10));
    assert(absent_from(s, p, 9));
    assert(absent_from(s, p, 8));
    assert(absent_from(s, p, 7));
    assert(absent_from(s, p, 6));
    assert(absent_from(s, p, 5));
    assert(absent_from(s, p, 4));
    assert(absent_from(s, p, 3));
    assert(absent_from(s, p, 2));
    assert(absent_from(s, p, 1));
    assert(absent_from(s, p, 0));
}

/// `s` ends with `suffix`.
pub open spec fn ends_with(s: Seq<char>, suffix: Seq<char>) -> bool {
    suffix.len() <= s.len() && s.subrange(s.len() - suffix.len(), s.len() as int) == suffix
}

/// A dropdown button is styled as a link with the pointer cursor added just
/// before the ink texture; only the dropdown button has the pointer cursor,
/// and every element ends with the ink texture.
pub proof fn law_navbar_classes_related()
    ensures
        navbar_class(NavbarStyle::Link) == navbar_item_base() + " pen-texture-text"@,
        navbar_class(NavbarStyle::Dropdown) == navbar_item_base() + " cursor-pointer pen-texture-text"@,
        !has_substring(navbar_class(NavbarStyle::Link), "cursor-pointer"@),
        !has_substring(navbar_class(NavbarStyle::DropdownOption), "cursor-pointer"@),
        ends_with(navbar_class(NavbarStyle::Link), "pen-texture-text"@),
        ends_with(navbar_class(NavbarStyle::Dropdown), "pen-texture-text"@),
        ends_with(navbar_class(NavbarStyle::DropdownOption), "pen-texture-text"@),
{
    reveal_strlit("flex-1 sm:flex-none text-center text-xs text-gray-800 dark:text-white paper:text-[#1f2937] hover:text-gray-900 dark:hover:text-gray-300 paper:hover:text-[#111827] transition-colors duration-200 py-2 pen-texture-text");
    reveal_strlit("flex-1 sm:flex-none text-center text-xs text-gray-800 dark:text-white paper:text-[#1f2937] hover:text-gray-900 dark:hover:text-gray-300 paper:hover:text-[#111827] transition-colors duration-200 py-2 cursor-pointer pen-texture-text");
    reveal_strlit("flex-1 sm:flex-none text-center text-xs text-gray-800 dark:text-white paper:text-[#1f2937] hover:text-gray-900 dark:hover:text-gray-300 paper:hover:text-[#111827] transition-colors duration-200 py-2");
    reveal_strlit("text-gray-800 dark:text-gray-300 paper:text-[#374151] hover:bg-gray-100 dark:hover:bg-gray-700 paper:hover:bg-[#f0e6cf] pen-texture-text");
    reveal_strlit(" pen-texture-text");
    reveal_strlit(" cursor-pointer pen-texture-text");
    reveal_strlit("pen-texture-text");
    reveal_strlit("cursor-pointer");
    assert(navbar_class(NavbarStyle::Link) =~= navbar_item_base() + " pen-texture-text"@);
    assert(navbar_class(NavbarStyle::Dropdown) =~= navbar_item_base() + " cursor-pointer pen-texture-text"@);
    let l = navbar_class(NavbarStyle::Link);
    let d = navbar_class(NavbarStyle::Dropdown);
    let o = navbar_class(NavbarStyle::DropdownOption);
    assert(l.subrange(l.len() - 16, l.len() as int) =~= "pen-texture-text"@);
    assert(d.subrange(d.len() - 16, d.len() as int) =~= "pen-texture-text"@);
    assert(o.subrange(o.len() - 16, o.len() as int) =~= "pen-texture-text"@);
    lemma_link_without_pointer();
    lemma_option_without_pointer();
    lemma_not_substring(l, "cursor-pointer"@);
    lemma_not_substring(o, "cursor-pointer"@);
}

} // verus!
