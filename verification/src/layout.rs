//! Keyboard control of the story page: moving the highlight among the
//! choices and taking one with a number key or Enter.

use vstd::prelude::*;
use crate::story_content::{Choice, choice_targets};
use crate::text::{parse_unsigned_spec, parse_usize, str_equal, views};

verus! {

/// The keys the layout reacts to.
pub enum LayoutKey {
    ArrowUp,
    ArrowDown,
    /// A key that types text, such as a digit.
    Character(String),
    Enter,
    Other,
}

/// What the layout does about a key press: the choice target to follow, if
/// any, and whether the key stops there.
pub struct KeyOutcome {
    pub target: Option<String>,
    pub stop_propagation: bool,
}

/// The keyboard's view of the story page: the highlighted choice, the
/// choices, and the targets that may be followed.
pub struct KeyboardState {
    pub selected_index: i32,
    pub choices: Vec<Choice>,
    pub enabled_choices: Vec<String>,
}

/// The result of a key press in the abstract: the new highlight, the target
/// to follow, and whether the key stops there.
pub struct KeyStep {
    pub selected_index: i32,
    pub target: Option<Seq<char>>,
    pub stop_propagation: bool,
}

/// The content of a key.
pub enum LayoutKeyView {
    ArrowUp,
    ArrowDown,
    Character(Seq<char>),
    Enter,
    Other,
}

impl View for LayoutKey {
    type V = LayoutKeyView;

    open spec fn view(&self) -> LayoutKeyView {
        match self {
            LayoutKey::ArrowUp => LayoutKeyView::ArrowUp,
            LayoutKey::ArrowDown => LayoutKeyView::ArrowDown,
            LayoutKey::Character(s) => LayoutKeyView::Character(s@),
            LayoutKey::Enter => LayoutKeyView::Enter,
            LayoutKey::Other => LayoutKeyView::Other,
        }
    }
}

/// The target that taking choice `idx` follows, if that choice exists and its
/// target is enabled.
pub open spec fn follow_target(targets: Seq<Seq<char>>, enabled: Seq<Seq<char>>, idx: int) -> Option<
    Seq<char>,
> {
    if 0 <= idx < targets.len() && enabled.contains(targets[idx]) {
        Some(targets[idx])
    } else {
        None
    }
}

/// What a key press does, given the highlight, the choices' targets and the
/// enabled targets. The arrows move the highlight within the list, a number
/// `n` takes the `n`-th choice (highlighting it) and Enter takes the
/// highlighted one; these keys stop there, the others pass.
pub open spec fn key_step(
    selected: i32,
    targets: Seq<Seq<char>>,
    enabled: Seq<Seq<char>>,
    key: LayoutKeyView,
) -> KeyStep {
    let last = (targets.len() as i32) - 1;
    match key {
        LayoutKeyView::ArrowUp => KeyStep {
            selected_index: if selected > 0 {
                (selected - 1) as i32
            } else {
                selected
            },
            target: None,
            stop_propagation: true,
        },
        LayoutKeyView::ArrowDown => KeyStep {
            selected_index: if selected < last {
                (selected + 1) as i32
            } else {
                selected
            },
            target: None,
            stop_propagation: true,
        },
        LayoutKeyView::Character(k) => match parse_unsigned_spec(k, usize::MAX as int) {
            Some(n) => if 1 <= n <= targets.len() && follow_target(targets, enabled, n - 1) is Some {
                KeyStep {
                    selected_index: (n - 1) as i32,
                    target: follow_target(targets, enabled, n - 1),
                    stop_propagation: true,
                }
            } else {
                KeyStep { selected_index: selected, target: None, stop_propagation: true }
            },
            None => KeyStep { selected_index: selected, target: None, stop_propagation: true },
        },
        LayoutKeyView::Enter => KeyStep {
            selected_index: selected,
            target: if 0 <= selected < (targets.len() as i32) {
                follow_target(targets, enabled, selected as int)
            } else {
                None
            },
            stop_propagation: true,
        },
        LayoutKeyView::Other => KeyStep { selected_index: selected, target: None, stop_propagation: false },
    }
}

/// Whether `t` is one of the enabled targets.
fn is_enabled_target(enabled: &Vec<String>, t: &str) -> (b: bool)
    ensures
        b == views(enabled@).contains(t@),
{
    let ghost vs = views(enabled@);
    let mut i: usize = 0;
    while i < enabled.len()
        invariant
            vs == views(enabled@),
            i <= enabled@.len(),
            forall|j: int| 0 <= j < i ==> #[trigger] vs[j] != t@,
        decreases enabled@.len() - i,
    {
        assert(vs[i as int] == enabled@[i as int]@);
        if str_equal(enabled[i].as_str(), t) {
            return true;
        }
        i = i + 1;
    }
    false
}

impl Default for KeyboardState {
    /// No choices, the first position highlighted.
    fn default() -> (r: Self)
        ensures
            r.selected_index == 0,
            r.choices@.len() == 0,
            r.enabled_choices@.len() == 0,
    {
        KeyboardState { selected_index: 0, choices: Vec::new(), enabled_choices: Vec::new() }
    }
}

impl KeyboardState {
    /// The target that taking choice `idx` follows, if that choice exists and
    /// its target is enabled.
    pub fn choice_target(&self, idx: usize) -> (r: Option<String>)
        ensures
            match r {
                Some(t) => follow_target(
                    choice_targets(self.choices@),
                    views(self.enabled_choices@),
                    idx as int,
                ) == Some(t@),
                None => follow_target(
                    choice_targets(self.choices@),
                    views(self.enabled_choices@),
                    idx as int,
                ) is None,
            },
    {
        if idx < self.choices.len() {
            assert(choice_targets(self.choices@)[idx as int] == self.choices@[idx as int].action.to@);
            if is_enabled_target(&self.enabled_choices, self.choices[idx].action.to.as_str()) {
                return Some(self.choices[idx].action.to.clone());
            }
        }
        None
    }

    /// Handles a key press: moves the highlight and says which target, if
    /// any, to follow.
    pub fn handle_key(&mut self, key: &LayoutKey) -> (r: KeyOutcome)
        requires
            (old(self).choices@.len() as i32) != i32::MIN,
        ensures
            final(self).choices@ == old(self).choices@,
            final(self).enabled_choices@ == old(self).enabled_choices@,
            ({
                let step = key_step(
                    old(self).selected_index,
                    choice_targets(old(self).choices@),
                    views(old(self).enabled_choices@),
                    key@,
                );
                &&& final(self).selected_index == step.selected_index
                &&& r.stop_propagation == step.stop_propagation
                &&& match r.target {
                    Some(t) => step.target == Some(t@),
                    None => step.target is None,
                }
            }),
    {
        let n = self.choices.len();
        match key {
            LayoutKey::ArrowUp => {
                if self.selected_index > 0 {
                    self.selected_index = self.selected_index - 1;
                }
                KeyOutcome { target: None, stop_propagation: true }
            },
            LayoutKey::ArrowDown => {
                if self.selected_index < (n as i32) - 1 {
                    self.selected_index = self.selected_index + 1;
                }
                KeyOutcome { target: None, stop_propagation: true }
            },
            LayoutKey::Character(k) => {
                if let Some(num) = parse_usize(k.as_str()) {
                    if num > 0 && num <= n {
                        let idx = num - 1;
                        let t = self.choice_target(idx);
                        if t.is_some() {
                            self.selected_index = idx as i32;
                        }
                        return KeyOutcome { target: t, stop_propagation: true };
                    }
                }
                KeyOutcome { target: None, stop_propagation: true }
            },
            LayoutKey::Enter => {
                if self.selected_index >= 0 && self.selected_index < (n as i32) {
                    let t = self.choice_target(self.selected_index as usize);
                    return KeyOutcome { target: t, stop_propagation: true };
                }
                KeyOutcome { target: None, stop_propagation: true }
            },
            LayoutKey::Other => KeyOutcome { target: None, stop_propagation: false },
        }
    }
}

/// The target that selecting choice `idx` follows, as the layout's click
/// handler decides it.
pub fn handle_choice_selection(state: &KeyboardState, idx: usize) -> (r: Option<String>)
    ensures
        match r {
            Some(t) => follow_target(
                choice_targets(state.choices@),
                views(state.enabled_choices@),
                idx as int,
            ) == Some(t@),
            None => follow_target(
                choice_targets(state.choices@),
                views(state.enabled_choices@),
                idx as int,
            ) is None,
        },
{
    state.choice_target(idx)
}

} // verus!

verus! {

/// Whatever key is pressed, a highlight on a choice (or at the top of an
/// empty list) stays on a choice (or at the top of an empty list). The one
/// exception is a number key that takes a choice past the `i32` range, whose
/// index the page cannot hold in its `i32` highlight.
pub proof fn law_highlight_stays_in_range(
    selected: i32,
    targets: Seq<Seq<char>>,
    enabled: Seq<Seq<char>>,
    key: LayoutKeyView,
)
    requires
        0 <= selected,
        selected < targets.len() || selected == 0,
        match key {
            LayoutKeyView::Character(k) => match parse_unsigned_spec(k, usize::MAX as int) {
                Some(n) => (1 <= n <= targets.len() && follow_target(targets, enabled, n - 1) is Some)
                    ==> n - 1 <= i32::MAX,
                None => true,
            },
            _ => true,
        },
    ensures
        ({
            let next = key_step(selected, targets, enabled, key).selected_index;
            0 <= next && (next < targets.len() || next == 0)
        }),
{
    if targets.len() <= i32::MAX {
        assert((targets.len() as i32) == targets.len());
    }
}

/// A key never leads to a target that is not enabled.
pub proof fn law_keys_follow_only_enabled_targets(
    selected: i32,
    targets: Seq<Seq<char>>,
    enabled: Seq<Seq<char>>,
    key: LayoutKeyView,
)
    ensures
        key_step(selected, targets, enabled, key).target matches Some(t) ==> enabled.contains(t),
{
}

} // verus!
