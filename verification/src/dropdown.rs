//! The classes of the searchable dropdown: its panel, its button and its
//! placement, each with the default that a caller may replace.

use vstd::prelude::*;
use crate::text::append_str;

verus! {

/// The default width classes of the dropdown panel.
pub const DEFAULT_DROPDOWN_WIDTH: &'static str = "w-full sm:min-w-[16rem] sm:max-w-[60vw]";

/// The default placement classes of the dropdown panel: a sheet above the
/// bottom bar on a small screen, below the button on a large one.
pub const DEFAULT_DROPDOWN_POSITION: &'static str = "fixed bottom-14 left-0 right-0 rounded-t-lg sm:absolute sm:bottom-auto sm:right-0 sm:top-full sm:left-auto sm:rounded-md";

/// The default classes of the dropdown's button.
pub const DEFAULT_DROPDOWN_BUTTON: &'static str = "w-full px-4 py-2.5 text-sm border border-gray-300 dark:border-gray-600 paper:border-[#e4d5b2] rounded-lg bg-white dark:bg-gray-700 paper:bg-[#fef8e7] text-gray-900 dark:text-white paper:text-[#1f2937] shadow-sm focus:outline-none focus:ring-2 focus:ring-green-500 focus:border-transparent transition duration-200 ease-in-out hover:border-green-500 dark:hover:border-green-500 paper:hover:border-[#c6b17e] flex justify-between items-center relative will-change-transform will-change-opacity";

/// The views of an optional string.
pub open spec fn opt_string_view(o: Option<String>) -> Option<Seq<char>> {
    match o {
        Some(s) => Some(s@),
        None => None,
    }
}

/// A caller's classes, or the default.
pub open spec fn or_default(custom: Option<Seq<char>>, default: Seq<char>) -> Seq<char> {
    match custom {
        Some(c) => c,
        None => default,
    }
}

/// A caller's classes, or `default`.
fn custom_or(custom: Option<String>, default: &'static str) -> (r: String)
    ensures
        r@ == or_default(opt_string_view(custom), default@),
{
    match custom {
        Some(c) => c,
        None => default.to_string(),
    }
}

/// The width classes of the panel.
pub fn dropdown_width_class(custom: Option<String>) -> (r: String)
    ensures
        r@ == or_default(opt_string_view(custom), DEFAULT_DROPDOWN_WIDTH@),
{
    custom_or(custom, DEFAULT_DROPDOWN_WIDTH)
}

/// The placement classes of the panel.
pub fn dropdown_position_class(custom: Option<String>) -> (r: String)
    ensures
        r@ == or_default(opt_string_view(custom), DEFAULT_DROPDOWN_POSITION@),
{
    custom_or(custom, DEFAULT_DROPDOWN_POSITION)
}

/// The button's classes, dimmed when the dropdown is disabled.
pub fn dropdown_button_class(custom: Option<String>, disabled: bool) -> (r: String)
    ensures
        r@ == or_default(opt_string_view(custom), DEFAULT_DROPDOWN_BUTTON@) + (if disabled {
            " opacity-50 cursor-not-allowed"@
        } else {
            Seq::<char>::empty()
        }),
{
    let mut c = custom_or(custom, DEFAULT_DROPDOWN_BUTTON);
    if disabled {
        append_str(&mut c, " opacity-50 cursor-not-allowed");
    } else {
        assert(c@ + Seq::<char>::empty() =~= c@);
    }
    c
}

/// The panel's open or closed state classes; a closed panel slides up on a
/// small screen and down on a large one, or always down when the caller
/// says the screen is large.
pub fn dropdown_state_class(is_open: bool, is_desktop: bool) -> (r: String)
    ensures
        r@ == (if is_open {
            "translate-y-0 opacity-100"@
        } else {
            (if is_desktop {
                "-translate-y-2"@
            } else {
                "translate-y-2 sm:-translate-y-2"@
            }) + " opacity-0 pointer-events-none"@
        }),
{
    if is_open {
        return "translate-y-0 opacity-100".to_string();
    }
    let mut c = if is_desktop {
        "-translate-y-2".to_string()
    } else {
        "translate-y-2 sm:-translate-y-2".to_string()
    };
    append_str(&mut c, " opacity-0 pointer-events-none");
    c
}

} // verus!
