//! The reader's settings: what they hold, how the settings menu reads and
//! changes them, and the classes of the settings menu.

use vstd::prelude::*;
use crate::keyed::{StrMap, raw_map_view, lemma_raw_map_insert};
use crate::text::str_equal;

verus! {

/// The reader's settings, by name.
pub struct SettingsContext {
    pub settings: StrMap<String>,
    pub loaded: bool,
}

/// The settings as a map from name to value.
pub open spec fn settings_view(c: SettingsContext) -> Map<Seq<char>, Seq<char>> {
    raw_map_view(c.settings).map_values(|v: String| v@)
}

/// Reader mode is on when the setting `reader_mode` is `true`.
pub open spec fn reader_mode_spec(s: Map<Seq<char>, Seq<char>>) -> bool {
    s.contains_key("reader_mode"@) && s["reader_mode"@] == "true"@
}

/// The theme is the setting `theme_mode`, or `auto` when there is none.
pub open spec fn theme_mode_spec(s: Map<Seq<char>, Seq<char>>) -> Seq<char> {
    if s.contains_key("theme_mode"@) {
        s["theme_mode"@]
    } else {
        "auto"@
    }
}

/// The themes the settings menu offers, in menu order.
pub open spec fn theme_modes() -> Seq<Seq<char>> {
    seq!["auto"@, "light"@, "dark"@, "paper"@]
}

/// The themes the settings menu offers, in menu order.
pub fn theme_mode_options() -> (r: Vec<&'static str>)
    ensures
        r@.map_values(|m: &'static str| m@) == theme_modes(),
{
    let r = vec!["auto", "light", "dark", "paper"];
    assert(r@.map_values(|m: &'static str| m@) =~= theme_modes());
    r
}

impl SettingsContext {
    /// No settings, not loaded yet.
    pub fn new() -> (r: Self)
        ensures
            settings_view(r) == Map::<Seq<char>, Seq<char>>::empty(),
            !r.loaded,
    {
        let r = SettingsContext { settings: StrMap::new(), loaded: false };
        assert(settings_view(r) =~= Map::<Seq<char>, Seq<char>>::empty());
        r
    }

    /// Whether reader mode is on.
    pub fn reader_mode(&self) -> (b: bool)
        ensures
            b == reader_mode_spec(settings_view(*self)),
    {
        match self.settings.get("reader_mode") {
            Some(v) => str_equal(v.as_str(), "true"),
            None => false,
        }
    }

    /// The chosen theme.
    pub fn theme_mode(&self) -> (r: String)
        ensures
            r@ == theme_mode_spec(settings_view(*self)),
    {
        match self.settings.get("theme_mode") {
            Some(v) => v.clone(),
            None => "auto".to_string(),
        }
    }

    /// Stores `value` under the setting `name`.
    pub fn set(&mut self, name: String, value: String)
        ensures
            settings_view(*final(self)) == settings_view(*old(self)).insert(name@, value@),
            final(self).loaded == old(self).loaded,
    {
        let ghost before = self.settings;
        let ghost k = name;
        let ghost v = value;
        self.settings.insert(name, value);
        proof {
            lemma_raw_map_insert(before, self.settings, k, v);
        }
        assert(settings_view(*self) =~= settings_view(*old(self)).insert(k@, v@));
    }

    /// Switches reader mode, storing `true` or `false`.
    pub fn toggle_reader_mode(&mut self) -> (new_mode: bool)
        ensures
            new_mode == !reader_mode_spec(settings_view(*old(self))),
            settings_view(*final(self)) == settings_view(*old(self)).insert(
                "reader_mode"@,
                if new_mode {
                    "true"@
                } else {
                    "false"@
                },
            ),
    {
        let new_mode = !self.reader_mode();
        let value = if new_mode {
            "true".to_string()
        } else {
            "false".to_string()
        };
        self.set("reader_mode".to_string(), value);
        new_mode
    }
}

/// The settings panel's slide and fade classes.
pub fn settings_animation_class(is_open: bool, is_desktop: bool) -> (r: &'static str)
    ensures
        r@ == (if is_open {
            "translate-y-0 opacity-100"@
        } else if is_desktop {
            "-translate-y-2 opacity-0 pointer-events-none"@
        } else {
            "translate-y-2 opacity-0 pointer-events-none"@
        }),
{
    if is_open {
        "translate-y-0 opacity-100"
    } else if is_desktop {
        "-translate-y-2 opacity-0 pointer-events-none"
    } else {
        "translate-y-2 opacity-0 pointer-events-none"
    }
}

/// Where the settings panel opens: below its button on a large screen, as a
/// sheet above the bottom bar on a small one.
pub fn settings_position_class(is_desktop: bool) -> (r: &'static str)
    ensures
        r@ == (if is_desktop {
            "absolute right-0 top-full left-auto bottom-auto rounded-md mt-2"@
        } else {
            "fixed bottom-14 left-0 right-0 rounded-t-lg"@
        }),
{
    if is_desktop {
        "absolute right-0 top-full left-auto bottom-auto rounded-md mt-2"
    } else {
        "fixed bottom-14 left-0 right-0 rounded-t-lg"
    }
}

/// The grid of theme buttons: two columns on a large screen, one on a small.
pub fn theme_layout_class(is_desktop: bool) -> (r: &'static str)
    ensures
        r@ == (if is_desktop {
            "grid grid-cols-2 gap-2"@
        } else {
            "grid grid-cols-1 gap-2"@
        }),
{
    if is_desktop {
        "grid grid-cols-2 gap-2"
    } else {
        "grid grid-cols-1 gap-2"
    }
}

/// The button that clears stored choices shows in debug builds, and when the
/// page asked for debug mode.
pub fn should_show_clear(debug_build: bool, debugmode: bool) -> (b: bool)
    ensures
        b == (debug_build || debugmode),
{
    debug_build || debugmode
}

/// The classes of a theme button, marking the active theme.
pub fn theme_button_state_class(is_active: bool) -> (r: &'static str)
    ensures
        r@ == (if is_active {
            "border-blue-500 text-blue-700 dark:text-blue-300 paper:text-[#1f2937] bg-blue-50 dark:bg-blue-900/30 paper:bg-[#eae0c9] paper:border-[#c6b17e]"@
        } else {
            "border-gray-200 dark:border-gray-700 paper:border-[#e4d5b2] text-gray-700 dark:text-gray-300 paper:text-[#374151] hover:bg-gray-100 dark:hover:bg-gray-700 paper:hover:bg-[#f0e6cf]"@
        }),
{
    if is_active {
        "border-blue-500 text-blue-700 dark:text-blue-300 paper:text-[#1f2937] bg-blue-50 dark:bg-blue-900/30 paper:bg-[#eae0c9] paper:border-[#c6b17e]"
    } else {
        "border-gray-200 dark:border-gray-700 paper:border-[#e4d5b2] text-gray-700 dark:text-gray-300 paper:text-[#374151] hover:bg-gray-100 dark:hover:bg-gray-700 paper:hover:bg-[#f0e6cf]"
    }
}

/// Reading back a setting gives what was last stored under its name.
pub proof fn law_setting_reads_back(s: Map<Seq<char>, Seq<char>>, name: Seq<char>, value: Seq<char>)
    ensures
        s.insert(name, value)[name] == value,
        name == "theme_mode"@ ==> theme_mode_spec(s.insert(name, value)) == value,
        name == "reader_mode"@ ==> (reader_mode_spec(s.insert(name, value)) <==> value == "true"@),
{
}

} // verus!
