//! The node runtime of the story demo: which outcome a check leads to, which
//! text a node shows, and how the runtime state moves from node to node.

use vstd::prelude::*;
use crate::keyed::{StrMap, raw_map_view};
use crate::multi_attr_check::EventOutcomeTier;

verus! {

/// Where a node goes for one outcome tier, and the text it shows.
#[derive(Debug, PartialEq)]
pub struct NodeOutcome {
    pub next_node_id: String,
    pub text: Option<String>,
    pub text_key: Option<String>,
}

/// The views of an optional string.
pub open spec fn opt_view(o: Option<String>) -> Option<Seq<char>> {
    match o {
        Some(s) => Some(s@),
        None => None,
    }
}

/// A copy of an optional string.
pub fn copy_opt(o: &Option<String>) -> (r: Option<String>)
    ensures
        opt_view(r) == opt_view(*o),
{
    match o {
        Some(s) => Some(s.clone()),
        None => None,
    }
}

/// The key under which a node lists its outcome for `tier`.
pub open spec fn tier_key_spec(tier: EventOutcomeTier) -> Seq<char> {
    match tier {
        EventOutcomeTier::GreatSuccess => "great_success"@,
        EventOutcomeTier::Success => "success"@,
        EventOutcomeTier::Mixed => "mixed"@,
        EventOutcomeTier::Failure => "failure"@,
        EventOutcomeTier::Disaster => "disaster"@,
    }
}

/// The key under which a node lists its outcome for `tier`.
pub fn tier_to_key(tier: &EventOutcomeTier) -> (r: &'static str)
    ensures
        r@ == tier_key_spec(*tier),
{
    match tier {
        EventOutcomeTier::GreatSuccess => "great_success",
        EventOutcomeTier::Success => "success",
        EventOutcomeTier::Mixed => "mixed",
        EventOutcomeTier::Failure => "failure",
        EventOutcomeTier::Disaster => "disaster",
    }
}

/// Different tiers have different keys.
pub proof fn law_tier_keys_distinct(a: EventOutcomeTier, b: EventOutcomeTier)
    ensures
        a != b ==> tier_key_spec(a) != tier_key_spec(b),
{
    reveal_strlit("great_success");
    reveal_strlit("success");
    reveal_strlit("mixed");
    reveal_strlit("failure");
    reveal_strlit("disaster");
    assert("great_success"@.len() != "success"@.len());
    assert("great_success"@.len() != "mixed"@.len());
    assert("great_success"@.len() != "failure"@.len());
    assert("great_success"@.len() != "disaster"@.len());
    assert("success"@[0] != "mixed"@[0]);
    assert("success"@[0] != "failure"@[0]);
    assert("success"@[0] != "disaster"@[0]);
    assert("mixed"@.len() != "failure"@.len());
    assert("mixed"@.len() != "disaster"@.len());
    assert("failure"@.len() != "disaster"@.len());
}

/// The outcome keys a node has.
pub open spec fn outcome_keys(outcomes: StrMap<NodeOutcome>) -> Set<Seq<char>> {
    raw_map_view(outcomes).dom()
}

/// The key whose outcome a check with tier key `tier` leads to: the tier's own
/// outcome; for a great success, mixed result or disaster whose own outcome is
/// missing, that of a success (great success, mixed) or failure (disaster);
/// then that of a success; then that of a failure. `None` when none of these
/// exists.
pub open spec fn chosen_outcome_key(keys: Set<Seq<char>>, tier: Seq<char>) -> Option<Seq<char>> {
    let fallback = if tier == "great_success"@ || tier == "mixed"@ {
        "success"@
    } else if tier == "disaster"@ {
        "failure"@
    } else {
        tier
    };
    if keys.contains(tier) {
        Some(tier)
    } else if keys.contains(fallback) {
        Some(fallback)
    } else if keys.contains("success"@) {
        Some("success"@)
    } else if keys.contains("failure"@) {
        Some("failure"@)
    } else {
        None
    }
}

/// The message for a node without a usable outcome.
pub open spec fn no_outcome_message(node_id: Seq<char>, tier: Seq<char>) -> Seq<char> {
    "node "@ + node_id + " 找不到可用 outcome（tier="@ + tier + "）"@
}

/// The outcome that a check with tier key `tier_key` leads to at node
/// `node_id` (see `chosen_outcome_key`), or the message that none is usable.
pub fn pick_outcome_with_fallback<'a>(
    node_id: &str,
    outcomes: &'a StrMap<NodeOutcome>,
    tier_key: &str,
) -> (r: Result<&'a NodeOutcome, String>)
    ensures
        match chosen_outcome_key(outcome_keys(*outcomes), tier_key@) {
            Some(k) => r matches Ok(o) && *o == raw_map_view(*outcomes)[k],
            None => r matches Err(msg) && msg@ == no_outcome_message(node_id@, tier_key@),
        },
{
    let fallback: &str = if crate::text::str_equal(tier_key, "great_success")
        || crate::text::str_equal(tier_key, "mixed") {
        "success"
    } else if crate::text::str_equal(tier_key, "disaster") {
        "failure"
    } else {
        tier_key
    };
    if let Some(o) = outcomes.get(tier_key) {
        return Ok(o);
    }
    if let Some(o) = outcomes.get(fallback) {
        return Ok(o);
    }
    if let Some(o) = outcomes.get("success") {
        return Ok(o);
    }
    if let Some(o) = outcomes.get("failure") {
        return Ok(o);
    }
    let msg = "node ".to_owned().concat(node_id).concat(" 找不到可用 outcome（tier=").concat(
        tier_key,
    ).concat("）");
    Err(msg)
}

} // verus!

verus! {

/// The demo text stored under `key`, if there is one.
pub open spec fn text_for_key(key: Seq<char>) -> Option<Seq<char>> {
    if key == "demo.node.intro"@ {
        Some("夜幕降臨，前線傳來緊急命令。"@)
    } else if key == "demo.outcome.success"@ {
        Some("你穩住局勢，隊伍順利前進。"@)
    } else if key == "demo.outcome.failure"@ {
        Some("你失去節奏，隊伍陷入混亂。"@)
    } else {
        None
    }
}

/// The demo text stored under `text_key`, if there is one.
pub fn load_text_by_key(text_key: &str) -> (r: Option<String>)
    ensures
        opt_view(r) == text_for_key(text_key@),
{
    if crate::text::str_equal(text_key, "demo.node.intro") {
        Some("夜幕降臨，前線傳來緊急命令。".to_owned())
    } else if crate::text::str_equal(text_key, "demo.outcome.success") {
        Some("你穩住局勢，隊伍順利前進。".to_owned())
    } else if crate::text::str_equal(text_key, "demo.outcome.failure") {
        Some("你失去節奏，隊伍陷入混亂。".to_owned())
    } else {
        None
    }
}

/// The text a node shows: its own text; else the text stored under its text
/// key, or `[textKey:<key>]` when none is stored; else a marker that the
/// narrative text is missing.
pub open spec fn node_text(text: Option<Seq<char>>, text_key: Option<Seq<char>>) -> Seq<char> {
    match text {
        Some(t) => t,
        None => match text_key {
            Some(k) => match text_for_key(k) {
                Some(t) => t,
                None => "[textKey:"@ + k + "]"@,
            },
            None => "(missing narrative text)"@,
        },
    }
}

/// The text a node shows (see `node_text`).
pub fn resolve_node_text(text: Option<String>, text_key: Option<String>) -> (r: String)
    ensures
        r@ == node_text(opt_view(text), opt_view(text_key)),
{
    if let Some(text) = text {
        return text;
    }
    if let Some(key) = text_key {
        if let Some(resolved) = load_text_by_key(key.as_str()) {
            return resolved;
        }
        return "[textKey:".to_owned().concat(key.as_str()).concat("]");
    }
    "(missing narrative text)".to_owned()
}

/// Where the node runtime stands.
#[derive(Debug, PartialEq)]
pub struct GameRuntimeState {
    pub current_node_id: String,
    pub current_text: String,
    pub current_text_key: Option<String>,
    pub debug_message: Option<String>,
    pub last_outcome_tier: Option<String>,
}

/// What a check at a node resolved to.
#[derive(Debug, PartialEq)]
pub struct NodeResolveResult {
    pub next_node_id: String,
    pub outcome_tier: String,
    pub text: Option<String>,
    pub text_key: Option<String>,
}

impl Default for GameRuntimeState {
    /// The state before the first step (see `new_default`).
    fn default() -> (r: Self)
        ensures
            r.current_node_id@ == "intro"@,
            r.current_text@ == "按下「下一步」開始節點流程。"@,
            r.current_text_key is None,
            r.debug_message is None,
            r.last_outcome_tier is None,
    {
        GameRuntimeState::new_default()
    }
}

impl GameRuntimeState {
    /// The state before the first step: at node `intro`, with a prompt to start.
    pub fn new_default() -> (r: Self)
        ensures
            r.current_node_id@ == "intro"@,
            r.current_text@ == "按下「下一步」開始節點流程。"@,
            r.current_text_key is None,
            r.debug_message is None,
            r.last_outcome_tier is None,
    {
        GameRuntimeState {
            current_node_id: "intro".to_owned(),
            current_text: "按下「下一步」開始節點流程。".to_owned(),
            current_text_key: None,
            debug_message: None,
            last_outcome_tier: None,
        }
    }

    /// Moves to node `next_node_id`.
    pub fn goto_node(&mut self, next_node_id: String)
        ensures
            final(self).current_node_id@ == next_node_id@,
            final(self).current_text@ == old(self).current_text@,
            opt_view(final(self).current_text_key) == opt_view(old(self).current_text_key),
            opt_view(final(self).debug_message) == opt_view(old(self).debug_message),
            opt_view(final(self).last_outcome_tier) == opt_view(old(self).last_outcome_tier),
    {
        self.current_node_id = next_node_id;
    }

    /// A step at a node that does not exist: the state reports the missing
    /// node and stays where it is.
    pub fn note_missing_node(&mut self)
        ensures
            final(self).debug_message matches Some(m) && m@ == "找不到 node: "@ + old(self).current_node_id@,
            final(self).current_node_id@ == old(self).current_node_id@,
            final(self).current_text@ == old(self).current_text@,
            opt_view(final(self).current_text_key) == opt_view(old(self).current_text_key),
            opt_view(final(self).last_outcome_tier) == opt_view(old(self).last_outcome_tier),
    {
        let msg = "找不到 node: ".to_owned().concat(self.current_node_id.as_str());
        self.debug_message = Some(msg);
    }

    /// A step at a node without a check: show its text, clear the tier and the
    /// message, and move to its next node when it has one.
    pub fn run_plain_node(
        &mut self,
        text: Option<String>,
        text_key: Option<String>,
        next_node_id: Option<String>,
    )
        ensures
            final(self).current_text@ == node_text(opt_view(text), opt_view(text_key)),
            opt_view(final(self).current_text_key) == opt_view(text_key),
            final(self).last_outcome_tier is None,
            final(self).debug_message is None,
            final(self).current_node_id@ == match next_node_id {
                Some(n) => n@,
                None => old(self).current_node_id@,
            },
    {
        self.current_text = resolve_node_text(text, copy_opt(&text_key));
        self.current_text_key = text_key;
        self.last_outcome_tier = None;
        self.debug_message = None;
        if let Some(next) = next_node_id {
            self.goto_node(next);
        }
    }

    /// A step at a node with a check, once the check has resolved: on success
    /// show the outcome's text, record its tier, clear the message and move to
    /// its next node; on failure record the message and stay.
    pub fn apply_check_result(&mut self, result: Result<NodeResolveResult, String>)
        ensures
            match result {
                Ok(res) => {
                    &&& final(self).current_text@ == node_text(opt_view(res.text), opt_view(res.text_key))
                    &&& opt_view(final(self).current_text_key) == opt_view(res.text_key)
                    &&& opt_view(final(self).last_outcome_tier) == Some(res.outcome_tier@)
                    &&& final(self).debug_message is None
                    &&& final(self).current_node_id@ == res.next_node_id@
                },
                Err(e) => {
                    &&& opt_view(final(self).debug_message) == Some(e@)
                    &&& final(self).current_node_id@ == old(self).current_node_id@
                    &&& final(self).current_text@ == old(self).current_text@
                    &&& opt_view(final(self).current_text_key) == opt_view(old(self).current_text_key)
                    &&& opt_view(final(self).last_outcome_tier) == opt_view(old(self).last_outcome_tier)
                },
            },
    {
        match result {
            Ok(res) => {
                self.current_text = resolve_node_text(copy_opt(&res.text), copy_opt(&res.text_key));
                self.current_text_key = res.text_key;
                self.last_outcome_tier = Some(res.outcome_tier);
                self.debug_message = None;
                self.goto_node(res.next_node_id);
            },
            Err(err) => {
                self.debug_message = Some(err);
            },
        }
    }
}

/// What a check with outcome tier `tier` resolves to at node `node_id`: the
/// chosen outcome's next node and text, with the tier's key (see
/// `pick_outcome_with_fallback`), or the message that no outcome is usable.
pub fn resolve_check_outcome(node_id: &str, outcomes: &StrMap<NodeOutcome>, tier: &EventOutcomeTier) -> (r: Result<NodeResolveResult, String>)
    ensures
        match chosen_outcome_key(outcome_keys(*outcomes), tier_key_spec(*tier)) {
            Some(k) => r matches Ok(res) && {
                let o = raw_map_view(*outcomes)[k];
                &&& res.next_node_id@ == o.next_node_id@
                &&& res.outcome_tier@ == tier_key_spec(*tier)
                &&& opt_view(res.text) == opt_view(o.text)
                &&& opt_view(res.text_key) == opt_view(o.text_key)
            },
            None => r matches Err(msg) && msg@ == no_outcome_message(node_id@, tier_key_spec(*tier)),
        },
{
    let tier_key = tier_to_key(tier);
    match pick_outcome_with_fallback(node_id, outcomes, tier_key) {
        Ok(outcome) => Ok(NodeResolveResult {
            next_node_id: outcome.next_node_id.clone(),
            outcome_tier: tier_key.to_owned(),
            text: copy_opt(&outcome.text),
            text_key: copy_opt(&outcome.text_key),
        }),
        Err(e) => Err(e),
    }
}

} // verus!

verus! {

/// How a node's outcome is chosen for a tier, over every set of outcome
/// keys: the tier's own outcome when the node has one; otherwise a great
/// success or a mixed result falls back to the success outcome and a
/// disaster to the failure outcome; any tier then falls back to success, and
/// then to failure. The chosen key is always one the node has, and nothing is
/// chosen only when the node has neither the tier's own outcome, nor a
/// success, nor a failure outcome.
pub proof fn law_outcome_fallbacks(keys: Set<Seq<char>>, tier: Seq<char>)
    ensures
        keys.contains(tier) ==> chosen_outcome_key(keys, tier) == Some(tier),
        !keys.contains("mixed"@) && keys.contains("success"@) ==> chosen_outcome_key(keys, "mixed"@)
            == Some("success"@),
        !keys.contains("great_success"@) && keys.contains("success"@) ==> chosen_outcome_key(
            keys,
            "great_success"@,
        ) == Some("success"@),
        !keys.contains("disaster"@) && keys.contains("failure"@) ==> chosen_outcome_key(keys, "disaster"@)
            == Some("failure"@),
        !keys.contains(tier) && keys.contains("success"@) && tier != "disaster"@ ==> chosen_outcome_key(
            keys,
            tier,
        ) == Some("success"@),
        !keys.contains(tier) && !keys.contains("success"@) && keys.contains("failure"@)
            ==> chosen_outcome_key(keys, tier) == Some("failure"@),
        chosen_outcome_key(keys, tier) matches Some(k) ==> keys.contains(k),
        chosen_outcome_key(keys, tier) is None <==> (!keys.contains(tier) && !keys.contains("success"@)
            && !keys.contains("failure"@)),
{
    reveal_strlit("mixed");
    reveal_strlit("success");
    reveal_strlit("failure");
    reveal_strlit("great_success");
    reveal_strlit("disaster");
    assert("mixed"@.len() != "great_success"@.len());
    assert("disaster"@.len() != "great_success"@.len());
    assert("disaster"@.len() != "mixed"@.len());
}

} // verus!
