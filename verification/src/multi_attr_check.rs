//! Multi-attribute checks: a pool of dice built from a character's attributes,
//! the tally of successes against what the check requires, and the outcome
//! tier that the story shows.

use vstd::prelude::*;
use rand::Rng;
use crate::impacts::{AttributeField, CharacterAttributes, CharacterStateSnapshot, CharacterView, attr_get, char_map_view, default_character_view, lemma_char_map_insert};
use crate::keyed::StrMap;

verus! {

/// The part an attribute plays in a check.
#[derive(Clone, Copy, PartialEq, Eq, Structural, Debug)]
pub enum InfluenceKind {
    /// Its dice count towards success.
    Support,
    /// It raises the number of successes required.
    Resist,
}

/// The dice rolled for one attribute of a check.
#[derive(Debug, PartialEq)]
pub struct MultiAttrRollLog {
    pub key: String,
    pub kind: InfluenceKind,
    pub die_sides: u32,
    /// Rolls recorded for this attribute (empty for resist entries).
    pub rolled: Vec<u32>,
}

/// The outcome of a check.
#[derive(Debug, PartialEq)]
pub struct MultiAttrCheckResult {
    pub success: bool,
    pub successes: u32,
    pub required_successes: u32,
    pub rolls: Vec<MultiAttrRollLog>,
}

/// How well an event went, for choosing the narrative that follows it.
#[derive(Clone, Copy, PartialEq, Eq, Structural, Debug)]
pub enum EventOutcomeTier {
    GreatSuccess,
    Success,
    Mixed,
    Failure,
    Disaster,
}

/// The tier for a check with `successes` against `required`: three or more
/// successes to spare is a great success, meeting the requirement a success,
/// missing it by one a mixed result, by three or more a disaster, and by two a
/// failure.
pub open spec fn tier_spec(successes: int, required: int) -> EventOutcomeTier {
    let margin = successes - required;
    if successes >= required {
        if margin >= 3 {
            EventOutcomeTier::GreatSuccess
        } else {
            EventOutcomeTier::Success
        }
    } else if margin >= -1 {
        EventOutcomeTier::Mixed
    } else if margin <= -3 {
        EventOutcomeTier::Disaster
    } else {
        EventOutcomeTier::Failure
    }
}

/// Classifies the outcome tier of a check. The tier only helps to pick the
/// narrative; it changes no numbers.
pub fn classify_outcome_tier(result: &MultiAttrCheckResult) -> (r: EventOutcomeTier)
    requires
        i32::MIN <= (result.successes as i32) - (result.required_successes as i32) <= i32::MAX,
    ensures
        r == tier_spec((result.successes as i32) as int, (result.required_successes as i32) as int),
        result.successes <= i32::MAX && result.required_successes <= i32::MAX ==> r == tier_spec(
            result.successes as int,
            result.required_successes as int,
        ),
{
    let successes = #[verifier::truncate] (result.successes as i32);
    let required = #[verifier::truncate] (result.required_successes as i32);
    let margin = successes - required;
    if successes >= required {
        if margin >= 3 {
            EventOutcomeTier::GreatSuccess
        } else {
            EventOutcomeTier::Success
        }
    } else if margin >= -1 {
        EventOutcomeTier::Mixed
    } else if margin <= -3 {
        EventOutcomeTier::Disaster
    } else {
        EventOutcomeTier::Failure
    }
}

/// The rank of a tier, from disaster (0) to great success (4).
pub open spec fn tier_rank(t: EventOutcomeTier) -> int {
    match t {
        EventOutcomeTier::Disaster => 0,
        EventOutcomeTier::Failure => 1,
        EventOutcomeTier::Mixed => 2,
        EventOutcomeTier::Success => 3,
        EventOutcomeTier::GreatSuccess => 4,
    }
}

/// The tier is a success tier exactly when the check succeeded; it depends on
/// the margin `successes - required` alone, and a larger margin never gives a
/// lower tier.
pub proof fn law_tier_follows_margin(s1: int, r1: int, s2: int, r2: int)
    ensures
        (tier_spec(s1, r1) == EventOutcomeTier::GreatSuccess || tier_spec(s1, r1)
            == EventOutcomeTier::Success) <==> s1 >= r1,
        s1 - r1 == s2 - r2 ==> tier_spec(s1, r1) == tier_spec(s2, r2),
        s1 - r1 <= s2 - r2 ==> tier_rank(tier_spec(s1, r1)) <= tier_rank(tier_spec(s2, r2)),
{
}

} // verus!

verus! {

/// Dice that a supporting attribute adds to the pool: `count` dice with
/// `die_sides` faces, recorded in the roll log at `log_index`.
#[derive(Clone, Copy, PartialEq, Eq, Structural, Debug)]
pub struct SupportDiceSpec {
    pub log_index: usize,
    pub die_sides: u32,
    pub count: u32,
}

/// The number of rolls in `rolls` that reach `t`.
pub open spec fn count_at_least(rolls: Seq<u32>, t: u32) -> nat
    decreases rolls.len(),
{
    if rolls.len() == 0 {
        0
    } else {
        count_at_least(rolls.drop_last(), t) + if rolls.last() >= t {
            1nat
        } else {
            0nat
        }
    }
}

/// The number of recorded rolls, over all logs, that reach `t`.
pub open spec fn log_successes(logs: Seq<MultiAttrRollLog>, t: u32) -> nat
    decreases logs.len(),
{
    if logs.len() == 0 {
        0
    } else {
        log_successes(logs.drop_last(), t) + count_at_least(logs.last().rolled@, t)
    }
}

/// The number of dice in the pool.
pub open spec fn total_dice(specs: Seq<SupportDiceSpec>) -> nat
    decreases specs.len(),
{
    if specs.len() == 0 {
        0
    } else {
        total_dice(specs.drop_last()) + specs.last().count as nat
    }
}

/// The number of dice of the pool that are recorded in log `j`.
pub open spec fn dice_for_log(specs: Seq<SupportDiceSpec>, j: int) -> nat
    decreases specs.len(),
{
    if specs.len() == 0 {
        0
    } else {
        dice_for_log(specs.drop_last(), j) + if specs.last().log_index == j {
            specs.last().count as nat
        } else {
            0nat
        }
    }
}

/// Every spec points at a log that exists and rolls that log's kind of die.
pub open spec fn specs_fit_logs(specs: Seq<SupportDiceSpec>, logs: Seq<MultiAttrRollLog>) -> bool {
    forall|k: int|
        0 <= k < specs.len() ==> #[trigger] specs[k].log_index < logs.len() && specs[k].die_sides
            == logs[specs[k].log_index as int].die_sides
}

/// A die that is rolled has at least one face.
pub open spec fn dice_have_faces(specs: Seq<SupportDiceSpec>) -> bool {
    forall|k: int| 0 <= k < specs.len() && #[trigger] specs[k].count > 0 ==> specs[k].die_sides >= 1
}

/// One roll of a die with `sides` faces, `rand::Rng::gen_range(1..=sides)` on
/// the thread's generator. Stated: the value lies in `1..=sides`, the range
/// sampled. Which value comes out is chance and is not stated.
#[verifier::external_body]
fn roll_die(sides: u32) -> (r: u32)
    requires
        sides >= 1,
    ensures
        1 <= r <= sides,
{
    rand::thread_rng().gen_range(1..=sides)
}

/// Recounting successes after one log gets a different list of rolls.
proof fn lemma_log_successes_update(logs: Seq<MultiAttrRollLog>, j: int, x: MultiAttrRollLog, t: u32)
    requires
        0 <= j < logs.len(),
    ensures
        log_successes(logs.update(j, x), t) + count_at_least(logs[j].rolled@, t) == log_successes(logs, t)
            + count_at_least(x.rolled@, t),
    decreases logs.len(),
{
    if j < logs.len() - 1 {
        lemma_log_successes_update(logs.drop_last(), j, x, t);
        assert(logs.update(j, x).drop_last() =~= logs.drop_last().update(j, x));
    } else {
        assert(logs.update(j, x).drop_last() =~= logs.drop_last());
    }
}

/// Rolls the support pool: every spec rolls its `count` dice, each roll is
/// appended to the log the spec points at (when that log exists) and counts as
/// a success when it reaches `success_threshold`. The check succeeds when the
/// successes reach `required_successes`. Which numbers the dice show is chance;
/// stated is what holds of every outcome.
pub fn roll_dice_pool(
    specs: &Vec<SupportDiceSpec>,
    logs: Vec<MultiAttrRollLog>,
    success_threshold: u32,
    required_successes: u32,
) -> (r: MultiAttrCheckResult)
    requires
        total_dice(specs@) <= u32::MAX,
        dice_have_faces(specs@),
    ensures
        r.required_successes == required_successes,
        r.success == (r.successes >= required_successes),
        r.successes <= total_dice(specs@),
        r.rolls@.len() == logs@.len(),
        forall|j: int|
            0 <= j < logs@.len() ==> {
                &&& (#[trigger] r.rolls@[j]).key == logs@[j].key
                &&& r.rolls@[j].kind == logs@[j].kind
                &&& r.rolls@[j].die_sides == logs@[j].die_sides
                &&& r.rolls@[j].rolled@.len() == logs@[j].rolled@.len() + dice_for_log(specs@, j)
                &&& r.rolls@[j].rolled@.subrange(0, logs@[j].rolled@.len() as int)
                    == logs@[j].rolled@
            },
        specs_fit_logs(specs@, logs@) ==> r.successes + log_successes(logs@, success_threshold)
            == log_successes(r.rolls@, success_threshold),
        specs_fit_logs(specs@, logs@) ==> forall|j: int, i: int|
            0 <= j < logs@.len() && logs@[j].rolled@.len() <= i < r.rolls@[j].rolled@.len()
                ==> 1 <= #[trigger] r.rolls@[j].rolled@[i] <= logs@[j].die_sides,
{
    let mut roll_logs = logs;
    let ghost init = roll_logs@;
    let mut total_successes: u32 = 0;
    let mut k: usize = 0;
    while k < specs.len()
        invariant
            0 <= k <= specs.len(),
            total_dice(specs@) <= u32::MAX,
            dice_have_faces(specs@),
            roll_logs@.len() == init.len(),
            total_successes <= total_dice(specs@.subrange(0, k as int)),
            forall|j: int|
                0 <= j < init.len() ==> {
                    &&& (#[trigger] roll_logs@[j]).key == init[j].key
                    &&& roll_logs@[j].kind == init[j].kind
                    &&& roll_logs@[j].die_sides == init[j].die_sides
                    &&& roll_logs@[j].rolled@.len() == init[j].rolled@.len() + dice_for_log(
                        specs@.subrange(0, k as int),
                        j,
                    )
                    &&& roll_logs@[j].rolled@.subrange(0, init[j].rolled@.len() as int)
                        == init[j].rolled@
                },
            specs_fit_logs(specs@, init) ==> total_successes + log_successes(init, success_threshold)
                == log_successes(roll_logs@, success_threshold),
            specs_fit_logs(specs@, init) ==> forall|j: int, i: int|
                0 <= j < init.len() && init[j].rolled@.len() <= i < roll_logs@[j].rolled@.len()
                    ==> 1 <= #[trigger] roll_logs@[j].rolled@[i] <= init[j].die_sides,
        decreases specs.len() - k,
    {
        let spec = specs[k];
        assert(specs@.subrange(0, k + 1).drop_last() =~= specs@.subrange(0, k as int));
        proof {
            lemma_total_dice_prefix(specs@, k + 1);
        }
        let mut d: u32 = 0;
        let ghost logs_before = roll_logs@;
        let ghost successes_before = total_successes;
        while d < spec.count
            invariant
                0 <= k < specs.len(),
                spec == specs@[k as int],
                d <= spec.count,
                total_dice(specs@) <= u32::MAX,
                dice_have_faces(specs@),
                total_dice(specs@.subrange(0, k + 1)) <= total_dice(specs@),
                total_dice(specs@.subrange(0, k + 1)) == total_dice(specs@.subrange(0, k as int)) + spec.count,
                roll_logs@.len() == init.len(),
                logs_before.len() == init.len(),
                total_successes <= total_dice(specs@.subrange(0, k as int)) + d,
                total_successes >= successes_before,
                total_successes - successes_before <= d,
                forall|j: int|
                    0 <= j < init.len() ==> {
                        &&& (#[trigger] roll_logs@[j]).key == init[j].key
                        &&& roll_logs@[j].kind == init[j].kind
                        &&& roll_logs@[j].die_sides == init[j].die_sides
                        &&& roll_logs@[j].rolled@.len() == logs_before[j].rolled@.len() + if j
                            == spec.log_index {
                            d as int
                        } else {
                            0
                        }
                        &&& roll_logs@[j].rolled@.subrange(0, logs_before[j].rolled@.len() as int)
                            == logs_before[j].rolled@
                    },
                specs_fit_logs(specs@, init) ==> total_successes - successes_before + log_successes(
                    logs_before,
                    success_threshold,
                ) == log_successes(roll_logs@, success_threshold),
                specs_fit_logs(specs@, init) ==> forall|i: int|
                    logs_before[spec.log_index as int].rolled@.len() <= i < roll_logs@[spec.log_index as int].rolled@.len()
                        ==> 1 <= #[trigger] roll_logs@[spec.log_index as int].rolled@[i] <= spec.die_sides,
            decreases spec.count - d,
        {
            assert(spec.count > 0);
            let roll = roll_die(spec.die_sides);
            if spec.log_index < roll_logs.len() {
                let ghost old_logs = roll_logs@;
                let mut entry = roll_logs.remove(spec.log_index);
                entry.rolled.push(roll);
                let ghost new_entry = entry;
                roll_logs.insert(spec.log_index, entry);
                assert(roll_logs@ =~= old_logs.update(spec.log_index as int, new_entry));
                assert(new_entry.rolled@.drop_last() =~= old_logs[spec.log_index as int].rolled@);
                proof {
                    lemma_log_successes_update(old_logs, spec.log_index as int, new_entry, success_threshold);
                }
                assert forall|j: int| 0 <= j < init.len() implies (#[trigger] roll_logs@[j]).rolled@.subrange(0, logs_before[j].rolled@.len() as int) == logs_before[j].rolled@ by {
                    if j == spec.log_index {
                        assert(roll_logs@[j].rolled@.subrange(0, logs_before[j].rolled@.len() as int) =~= old_logs[j].rolled@.subrange(0, logs_before[j].rolled@.len() as int));
                    }
                }
            } else {
                assert(!specs_fit_logs(specs@, init)) by {
                    assert(specs@[k as int].log_index >= init.len());
                }
            }
            if roll >= success_threshold {
                total_successes = total_successes + 1;
            }
            d = d + 1;
        }
        proof {
            if specs_fit_logs(specs@, init) {
                assert(spec.die_sides == init[spec.log_index as int].die_sides);
                assert forall|j: int, i: int|
                    0 <= j < init.len() && init[j].rolled@.len() <= i < roll_logs@[j].rolled@.len() implies 1 <= #[trigger] roll_logs@[j].rolled@[i] <= init[j].die_sides by {
                    if i < logs_before[j].rolled@.len() {
                        assert(roll_logs@[j].rolled@[i] == roll_logs@[j].rolled@.subrange(0, logs_before[j].rolled@.len() as int)[i]);
                        assert(logs_before[j].rolled@[i] == roll_logs@[j].rolled@[i]);
                    }
                }
            }
            assert forall|j: int| 0 <= j < init.len() implies (#[trigger] roll_logs@[j]).rolled@.subrange(0, init[j].rolled@.len() as int) == init[j].rolled@ by {
                assert(roll_logs@[j].rolled@.subrange(0, init[j].rolled@.len() as int) =~= roll_logs@[j].rolled@.subrange(0, logs_before[j].rolled@.len() as int).subrange(0, init[j].rolled@.len() as int));
            }
        }
        k = k + 1;
    }
    assert(specs@.subrange(0, specs@.len() as int) =~= specs@);
    let success = total_successes >= required_successes;
    MultiAttrCheckResult {
        success,
        successes: total_successes,
        required_successes,
        rolls: roll_logs,
    }
}

/// Totals over a prefix of the pool never exceed the total of the pool.
proof fn lemma_total_dice_prefix(specs: Seq<SupportDiceSpec>, k: int)
    requires
        0 <= k <= specs.len(),
    ensures
        total_dice(specs.subrange(0, k)) <= total_dice(specs),
    decreases specs.len(),
{
    if k < specs.len() {
        lemma_total_dice_prefix(specs.drop_last(), k);
        assert(specs.drop_last().subrange(0, k) =~= specs.subrange(0, k));
    } else {
        assert(specs.subrange(0, k) =~= specs);
    }
}

} // verus!

verus! {

/// Attribute values by attribute name, as a check reads them.
pub type ActorAttrs = StrMap<i32>;

/// The attribute map of a character: one entry per attribute, under its
/// lower-case name.
pub open spec fn actor_attrs_of(c: CharacterView) -> Map<Seq<char>, i32> {
    Map::<Seq<char>, i32>::empty()
        .insert("honesty"@, c.honesty)
        .insert("empathy"@, c.empathy)
        .insert("affability"@, c.affability)
        .insert("intimidation"@, c.intimidation)
        .insert("aggression"@, c.aggression)
        .insert("discipline"@, c.discipline)
        .insert("curiosity"@, c.curiosity)
        .insert("courage"@, c.courage)
        .insert("impulsivity"@, c.impulsivity)
        .insert("idealism"@, c.idealism)
        .insert("pragmatism"@, c.pragmatism)
        .insert("loyalty"@, c.loyalty)
        .insert("opportunism"@, c.opportunism)
        .insert("stoicism"@, c.stoicism)
        .insert("morality"@, c.morality)
        .insert("health"@, c.health)
        .insert("stress"@, c.stress)
        .insert("fatigue"@, c.fatigue)
        .insert("pain"@, c.pain)
        .insert("morale"@, c.morale)
        .insert("intox"@, c.intox)
}

/// The value under `key`, or `current` when the map has none.
pub open spec fn lookup_or(m: Map<Seq<char>, i32>, key: Seq<char>, current: i32) -> i32 {
    if m.contains_key(key) {
        m[key]
    } else {
        current
    }
}

/// A character whose attributes are taken from `m` where it names them.
pub open spec fn with_actor_attrs(c: CharacterView, m: Map<Seq<char>, i32>) -> CharacterView {
    CharacterView {
        honesty: lookup_or(m, "honesty"@, c.honesty),
        empathy: lookup_or(m, "empathy"@, c.empathy),
        affability: lookup_or(m, "affability"@, c.affability),
        intimidation: lookup_or(m, "intimidation"@, c.intimidation),
        aggression: lookup_or(m, "aggression"@, c.aggression),
        discipline: lookup_or(m, "discipline"@, c.discipline),
        curiosity: lookup_or(m, "curiosity"@, c.curiosity),
        courage: lookup_or(m, "courage"@, c.courage),
        impulsivity: lookup_or(m, "impulsivity"@, c.impulsivity),
        idealism: lookup_or(m, "idealism"@, c.idealism),
        pragmatism: lookup_or(m, "pragmatism"@, c.pragmatism),
        loyalty: lookup_or(m, "loyalty"@, c.loyalty),
        opportunism: lookup_or(m, "opportunism"@, c.opportunism),
        stoicism: lookup_or(m, "stoicism"@, c.stoicism),
        morality: lookup_or(m, "morality"@, c.morality),
        health: lookup_or(m, "health"@, c.health),
        stress: lookup_or(m, "stress"@, c.stress),
        fatigue: lookup_or(m, "fatigue"@, c.fatigue),
        pain: lookup_or(m, "pain"@, c.pain),
        morale: lookup_or(m, "morale"@, c.morale),
        intox: lookup_or(m, "intox"@, c.intox),
        traits_flags: c.traits_flags,
    }
}

/// The attribute map of a character, one entry per attribute under its
/// lower-case name.
pub fn character_attributes_to_actor_attrs(attrs: &CharacterAttributes) -> (r: ActorAttrs)
    ensures
        crate::keyed::raw_map_view(r) == actor_attrs_of(attrs@),
{
    let mut map: ActorAttrs = StrMap::new();
    let ghost mut acc = Map::<Seq<char>, i32>::empty();
    assert(crate::keyed::raw_map_view(map) =~= acc);
    let k = "honesty".to_owned();
    let ghost kk = k;
    let ghost before = map;
    map.insert(k, attrs.honesty);
    proof {
        crate::keyed::lemma_raw_map_insert(before, map, kk, attrs.honesty);
        acc = acc.insert(kk@, attrs.honesty);
    }
    let k = "empathy".to_owned();
    let ghost kk = k;
    let ghost before = map;
    map.insert(k, attrs.empathy);
    proof {
        crate::keyed::lemma_raw_map_insert(before, map, kk, attrs.empathy);
        acc = acc.insert(kk@, attrs.empathy);
    }
    let k = "affability".to_owned();
    let ghost kk = k;
    let ghost before = map;
    map.insert(k, attrs.affability);
    proof {
        crate::keyed::lemma_raw_map_insert(before, map, kk, attrs.affability);
        acc = acc.insert(kk@, attrs.affability);
    }
    let k = "intimidation".to_owned();
    let ghost kk = k;
    let ghost before = map;
    map.insert(k, attrs.intimidation);
    proof {
        crate::keyed::lemma_raw_map_insert(before, map, kk, attrs.intimidation);
        acc = acc.insert(kk@, attrs.intimidation);
    }
    let k = "aggression".to_owned();
    let ghost kk = k;
    let ghost before = map;
    map.insert(k, attrs.aggression);
    proof {
        crate::keyed::lemma_raw_map_insert(before, map, kk, attrs.aggression);
        acc = acc.insert(kk@, attrs.aggression);
    }
    let k = "discipline".to_owned();
    let ghost kk = k;
    let ghost before = map;
    map.insert(k, attrs.discipline);
    proof {
        crate::keyed::lemma_raw_map_insert(before, map, kk, attrs.discipline);
        acc = acc.insert(kk@, attrs.discipline);
    }
    let k = "curiosity".to_owned();
    let ghost kk = k;
    let ghost before = map;
    map.insert(k, attrs.curiosity);
    proof {
        crate::keyed::lemma_raw_map_insert(before, map, kk, attrs.curiosity);
        acc = acc.insert(kk@, attrs.curiosity);
    }
    let k = "courage".to_owned();
    let ghost kk = k;
    let ghost before = map;
    map.insert(k, attrs.courage);
    proof {
        crate::keyed::lemma_raw_map_insert(before, map, kk, attrs.courage);
        acc = acc.insert(kk@, attrs.courage);
    }
    let k = "impulsivity".to_owned();
    let ghost kk = k;
    let ghost before = map;
    map.insert(k, attrs.impulsivity);
    proof {
        crate::keyed::lemma_raw_map_insert(before, map, kk, attrs.impulsivity);
        acc = acc.insert(kk@, attrs.impulsivity);
    }
    let k = "idealism".to_owned();
    let ghost kk = k;
    let ghost before = map;
    map.insert(k, attrs.idealism);
    proof {
        crate::keyed::lemma_raw_map_insert(before, map, kk, attrs.idealism);
        acc = acc.insert(kk@, attrs.idealism);
    }
    let k = "pragmatism".to_owned();
    let ghost kk = k;
    let ghost before = map;
    map.insert(k, attrs.pragmatism);
    proof {
        crate::keyed::lemma_raw_map_insert(before, map, kk, attrs.pragmatism);
        acc = acc.insert(kk@, attrs.pragmatism);
    }
    let k = "loyalty".to_owned();
    let ghost kk = k;
    let ghost before = map;
    map.insert(k, attrs.loyalty);
    proof {
        crate::keyed::lemma_raw_map_insert(before, map, kk, attrs.loyalty);
        acc = acc.insert(kk@, attrs.loyalty);
    }
    let k = "opportunism".to_owned();
    let ghost kk = k;
    let ghost before = map;
    map.insert(k, attrs.opportunism);
    proof {
        crate::keyed::lemma_raw_map_insert(before, map, kk, attrs.opportunism);
        acc = acc.insert(kk@, attrs.opportunism);
    }
    let k = "stoicism".to_owned();
    let ghost kk = k;
    let ghost before = map;
    map.insert(k, attrs.stoicism);
    proof {
        crate::keyed::lemma_raw_map_insert(before, map, kk, attrs.stoicism);
        acc = acc.insert(kk@, attrs.stoicism);
    }
    let k = "morality".to_owned();
    let ghost kk = k;
    let ghost before = map;
    map.insert(k, attrs.morality);
    proof {
        crate::keyed::lemma_raw_map_insert(before, map, kk, attrs.morality);
        acc = acc.insert(kk@, attrs.morality);
    }
    let k = "health".to_owned();
    let ghost kk = k;
    let ghost before = map;
    map.insert(k, attrs.health);
    proof {
        crate::keyed::lemma_raw_map_insert(before, map, kk, attrs.health);
        acc = acc.insert(kk@, attrs.health);
    }
    let k = "stress".to_owned();
    let ghost kk = k;
    let ghost before = map;
    map.insert(k, attrs.stress);
    proof {
        crate::keyed::lemma_raw_map_insert(before, map, kk, attrs.stress);
        acc = acc.insert(kk@, attrs.stress);
    }
    let k = "fatigue".to_owned();
    let ghost kk = k;
    let ghost before = map;
    map.insert(k, attrs.fatigue);
    proof {
        crate::keyed::lemma_raw_map_insert(before, map, kk, attrs.fatigue);
        acc = acc.insert(kk@, attrs.fatigue);
    }
    let k = "pain".to_owned();
    let ghost kk = k;
    let ghost before = map;
    map.insert(k, attrs.pain);
    proof {
        crate::keyed::lemma_raw_map_insert(before, map, kk, attrs.pain);
        acc = acc.insert(kk@, attrs.pain);
    }
    let k = "morale".to_owned();
    let ghost kk = k;
    let ghost before = map;
    map.insert(k, attrs.morale);
    proof {
        crate::keyed::lemma_raw_map_insert(before, map, kk, attrs.morale);
        acc = acc.insert(kk@, attrs.morale);
    }
    let k = "intox".to_owned();
    let ghost kk = k;
    let ghost before = map;
    map.insert(k, attrs.intox);
    proof {
        crate::keyed::lemma_raw_map_insert(before, map, kk, attrs.intox);
        acc = acc.insert(kk@, attrs.intox);
    }
    map
}

/// The value stored under `key`, or `current` when the map has none.
pub fn read_attr_or_current(attrs: &ActorAttrs, key: &str, current: i32) -> (r: i32)
    ensures
        r == lookup_or(crate::keyed::raw_map_view(*attrs), key@, current),
{
    match attrs.get(key) {
        Some(v) => *v,
        None => current,
    }
}

/// `base` with every attribute that `attrs` names replaced by the value there.
pub fn apply_actor_attrs_to_character(base: CharacterAttributes, attrs: &ActorAttrs) -> (r:
    CharacterAttributes)
    ensures
        r@ == with_actor_attrs(base@, crate::keyed::raw_map_view(*attrs)),
{
    let mut base = base;
    base.honesty = read_attr_or_current(attrs, "honesty", base.honesty);
    base.empathy = read_attr_or_current(attrs, "empathy", base.empathy);
    base.affability = read_attr_or_current(attrs, "affability", base.affability);
    base.intimidation = read_attr_or_current(attrs, "intimidation", base.intimidation);
    base.aggression = read_attr_or_current(attrs, "aggression", base.aggression);
    base.discipline = read_attr_or_current(attrs, "discipline", base.discipline);
    base.curiosity = read_attr_or_current(attrs, "curiosity", base.curiosity);
    base.courage = read_attr_or_current(attrs, "courage", base.courage);
    base.impulsivity = read_attr_or_current(attrs, "impulsivity", base.impulsivity);
    base.idealism = read_attr_or_current(attrs, "idealism", base.idealism);
    base.pragmatism = read_attr_or_current(attrs, "pragmatism", base.pragmatism);
    base.loyalty = read_attr_or_current(attrs, "loyalty", base.loyalty);
    base.opportunism = read_attr_or_current(attrs, "opportunism", base.opportunism);
    base.stoicism = read_attr_or_current(attrs, "stoicism", base.stoicism);
    base.morality = read_attr_or_current(attrs, "morality", base.morality);
    base.health = read_attr_or_current(attrs, "health", base.health);
    base.stress = read_attr_or_current(attrs, "stress", base.stress);
    base.fatigue = read_attr_or_current(attrs, "fatigue", base.fatigue);
    base.pain = read_attr_or_current(attrs, "pain", base.pain);
    base.morale = read_attr_or_current(attrs, "morale", base.morale);
    base.intox = read_attr_or_current(attrs, "intox", base.intox);
    base
}

/// The attribute names are pairwise different.
proof fn lemma_attr_names_distinct()
    ensures
        "honesty"@ != "empathy"@,
        "honesty"@ != "affability"@,
        "honesty"@ != "intimidation"@,
        "honesty"@ != "aggression"@,
        "honesty"@ != "discipline"@,
        "honesty"@ != "curiosity"@,
        "honesty"@ != "courage"@,
        "honesty"@ != "impulsivity"@,
        "honesty"@ != "idealism"@,
        "honesty"@ != "pragmatism"@,
        "honesty"@ != "loyalty"@,
        "honesty"@ != "opportunism"@,
        "honesty"@ != "stoicism"@,
        "honesty"@ != "morality"@,
        "honesty"@ != "health"@,
        "honesty"@ != "stress"@,
        "honesty"@ != "fatigue"@,
        "honesty"@ != "pain"@,
        "honesty"@ != "morale"@,
        "honesty"@ != "intox"@,
        "empathy"@ != "affability"@,
        "empathy"@ != "intimidation"@,
        "empathy"@ != "aggression"@,
        "empathy"@ != "discipline"@,
        "empathy"@ != "curiosity"@,
        "empathy"@ != "courage"@,
        "empathy"@ != "impulsivity"@,
        "empathy"@ != "idealism"@,
        "empathy"@ != "pragmatism"@,
        "empathy"@ != "loyalty"@,
        "empathy"@ != "opportunism"@,
        "empathy"@ != "stoicism"@,
        "empathy"@ != "morality"@,
        "empathy"@ != "health"@,
        "empathy"@ != "stress"@,
        "empathy"@ != "fatigue"@,
        "empathy"@ != "pain"@,
        "empathy"@ != "morale"@,
        "empathy"@ != "intox"@,
        "affability"@ != "intimidation"@,
        "affability"@ != "aggression"@,
        "affability"@ != "discipline"@,
        "affability"@ != "curiosity"@,
        "affability"@ != "courage"@,
        "affability"@ != "impulsivity"@,
        "affability"@ != "idealism"@,
        "affability"@ != "pragmatism"@,
        "affability"@ != "loyalty"@,
        "affability"@ != "opportunism"@,
        "affability"@ != "stoicism"@,
        "affability"@ != "morality"@,
        "affability"@ != "health"@,
        "affability"@ != "stress"@,
        "affability"@ != "fatigue"@,
        "affability"@ != "pain"@,
        "affability"@ != "morale"@,
        "affability"@ != "intox"@,
        "intimidation"@ != "aggression"@,
        "intimidation"@ != "discipline"@,
        "intimidation"@ != "curiosity"@,
        "intimidation"@ != "courage"@,
        "intimidation"@ != "impulsivity"@,
        "intimidation"@ != "idealism"@,
        "intimidation"@ != "pragmatism"@,
        "intimidation"@ != "loyalty"@,
        "intimidation"@ != "opportunism"@,
        "intimidation"@ != "stoicism"@,
        "intimidation"@ != "morality"@,
        "intimidation"@ != "health"@,
        "intimidation"@ != "stress"@,
        "intimidation"@ != "fatigue"@,
        "intimidation"@ != "pain"@,
        "intimidation"@ != "morale"@,
        "intimidation"@ != "intox"@,
        "aggression"@ != "discipline"@,
        "aggression"@ != "curiosity"@,
        "aggression"@ != "courage"@,
        "aggression"@ != "impulsivity"@,
        "aggression"@ != "idealism"@,
        "aggression"@ != "pragmatism"@,
        "aggression"@ != "loyalty"@,
        "aggression"@ != "opportunism"@,
        "aggression"@ != "stoicism"@,
        "aggression"@ != "morality"@,
        "aggression"@ != "health"@,
        "aggression"@ != "stress"@,
        "aggression"@ != "fatigue"@,
        "aggression"@ != "pain"@,
        "aggression"@ != "morale"@,
        "aggression"@ != "intox"@,
        "discipline"@ != "curiosity"@,
        "discipline"@ != "courage"@,
        "discipline"@ != "impulsivity"@,
        "discipline"@ != "idealism"@,
        "discipline"@ != "pragmatism"@,
        "discipline"@ != "loyalty"@,
        "discipline"@ != "opportunism"@,
        "discipline"@ != "stoicism"@,
        "discipline"@ != "morality"@,
        "discipline"@ != "health"@,
        "discipline"@ != "stress"@,
        "discipline"@ != "fatigue"@,
        "discipline"@ != "pain"@,
        "discipline"@ != "morale"@,
        "discipline"@ != "intox"@,
        "curiosity"@ != "courage"@,
        "curiosity"@ != "impulsivity"@,
        "curiosity"@ != "idealism"@,
        "curiosity"@ != "pragmatism"@,
        "curiosity"@ != "loyalty"@,
        "curiosity"@ != "opportunism"@,
        "curiosity"@ != "stoicism"@,
        "curiosity"@ != "morality"@,
        "curiosity"@ != "health"@,
        "curiosity"@ != "stress"@,
        "curiosity"@ != "fatigue"@,
        "curiosity"@ != "pain"@,
        "curiosity"@ != "morale"@,
        "curiosity"@ != "intox"@,
        "courage"@ != "impulsivity"@,
        "courage"@ != "idealism"@,
        "courage"@ != "pragmatism"@,
        "courage"@ != "loyalty"@,
        "courage"@ != "opportunism"@,
        "courage"@ != "stoicism"@,
        "courage"@ != "morality"@,
        "courage"@ != "health"@,
        "courage"@ != "stress"@,
        "courage"@ != "fatigue"@,
        "courage"@ != "pain"@,
        "courage"@ != "morale"@,
        "courage"@ != "intox"@,
        "impulsivity"@ != "idealism"@,
        "impulsivity"@ != "pragmatism"@,
        "impulsivity"@ != "loyalty"@,
        "impulsivity"@ != "opportunism"@,
        "impulsivity"@ != "stoicism"@,
        "impulsivity"@ != "morality"@,
        "impulsivity"@ != "health"@,
        "impulsivity"@ != "stress"@,
        "impulsivity"@ != "fatigue"@,
        "impulsivity"@ != "pain"@,
        "impulsivity"@ != "morale"@,
        "impulsivity"@ != "intox"@,
        "idealism"@ != "pragmatism"@,
        "idealism"@ != "loyalty"@,
        "idealism"@ != "opportunism"@,
        "idealism"@ != "stoicism"@,
        "idealism"@ != "morality"@,
        "idealism"@ != "health"@,
        "idealism"@ != "stress"@,
        "idealism"@ != "fatigue"@,
        "idealism"@ != "pain"@,
        "idealism"@ != "morale"@,
        "idealism"@ != "intox"@,
        "pragmatism"@ != "loyalty"@,
        "pragmatism"@ != "opportunism"@,
        "pragmatism"@ != "stoicism"@,
        "pragmatism"@ != "morality"@,
        "pragmatism"@ != "health"@,
        "pragmatism"@ != "stress"@,
        "pragmatism"@ != "fatigue"@,
        "pragmatism"@ != "pain"@,
        "pragmatism"@ != "morale"@,
        "pragmatism"@ != "intox"@,
        "loyalty"@ != "opportunism"@,
        "loyalty"@ != "stoicism"@,
        "loyalty"@ != "morality"@,
        "loyalty"@ != "health"@,
        "loyalty"@ != "stress"@,
        "loyalty"@ != "fatigue"@,
        "loyalty"@ != "pain"@,
        "loyalty"@ != "morale"@,
        "loyalty"@ != "intox"@,
        "opportunism"@ != "stoicism"@,
        "opportunism"@ != "morality"@,
        "opportunism"@ != "health"@,
        "opportunism"@ != "stress"@,
        "opportunism"@ != "fatigue"@,
        "opportunism"@ != "pain"@,
        "opportunism"@ != "morale"@,
        "opportunism"@ != "intox"@,
        "stoicism"@ != "morality"@,
        "stoicism"@ != "health"@,
        "stoicism"@ != "stress"@,
        "stoicism"@ != "fatigue"@,
        "stoicism"@ != "pain"@,
        "stoicism"@ != "morale"@,
        "stoicism"@ != "intox"@,
        "morality"@ != "health"@,
        "morality"@ != "stress"@,
        "morality"@ != "fatigue"@,
        "morality"@ != "pain"@,
        "morality"@ != "morale"@,
        "morality"@ != "intox"@,
        "health"@ != "stress"@,
        "health"@ != "fatigue"@,
        "health"@ != "pain"@,
        "health"@ != "morale"@,
        "health"@ != "intox"@,
        "stress"@ != "fatigue"@,
        "stress"@ != "pain"@,
        "stress"@ != "morale"@,
        "stress"@ != "intox"@,
        "fatigue"@ != "pain"@,
        "fatigue"@ != "morale"@,
        "fatigue"@ != "intox"@,
        "pain"@ != "morale"@,
        "pain"@ != "intox"@,
        "morale"@ != "intox"@,
{
    reveal_strlit("honesty");
    reveal_strlit("empathy");
    reveal_strlit("affability");
    reveal_strlit("intimidation");
    reveal_strlit("aggression");
    reveal_strlit("discipline");
    reveal_strlit("curiosity");
    reveal_strlit("courage");
    reveal_strlit("impulsivity");
    reveal_strlit("idealism");
    reveal_strlit("pragmatism");
    reveal_strlit("loyalty");
    reveal_strlit("opportunism");
    reveal_strlit("stoicism");
    reveal_strlit("morality");
    reveal_strlit("health");
    reveal_strlit("stress");
    reveal_strlit("fatigue");
    reveal_strlit("pain");
    reveal_strlit("morale");
    reveal_strlit("intox");
    assert(
"honesty"@[0] != "empathy"@[0] &&
"honesty"@.len() != "affability"@.len() &&
"honesty"@.len() != "intimidation"@.len() &&
"honesty"@.len() != "aggression"@.len() &&
"honesty"@.len() != "discipline"@.len() &&
"honesty"@.len() != "curiosity"@.len() &&
"honesty"@[0] != "courage"@[0] &&
"honesty"@.len() != "impulsivity"@.len() &&
"honesty"@.len() != "idealism"@.len() &&
"honesty"@.len() != "pragmatism"@.len() &&
"honesty"@[0] != "loyalty"@[0] &&
"honesty"@.len() != "opportunism"@.len() &&
"honesty"@.len() != "stoicism"@.len() &&
"honesty"@.len() != "morality"@.len() &&
"honesty"@.len() != "health"@.len() &&
"honesty"@.len() != "stress"@.len() &&
"honesty"@[0] != "fatigue"@[0] &&
"honesty"@.len() != "pain"@.len() &&
"honesty"@.len() != "morale"@.len() &&
"honesty"@.len() != "intox"@.len() &&
"empathy"@.len() != "affability"@.len() &&
"empathy"@.len() != "intimidation"@.len() &&
"empathy"@.len() != "aggression"@.len() &&
"empathy"@.len() != "discipline"@.len() &&
"empathy"@.len() != "curiosity"@.len() &&
"empathy"@[0] != "courage"@[0] &&
"empathy"@.len() != "impulsivity"@.len() &&
"empathy"@.len() != "idealism"@.len() &&
"empathy"@.len() != "pragmatism"@.len() &&
"empathy"@[0] != "loyalty"@[0] &&
"empathy"@.len() != "opportunism"@.len() &&
"empathy"@.len() != "stoicism"@.len() &&
"empathy"@.len() != "morality"@.len() &&
"empathy"@.len() != "health"@.len() &&
"empathy"@.len() != "stress"@.len() &&
"empathy"@[0] != "fatigue"@[0] &&
"empathy"@.len() != "pain"@.len() &&
"empathy"@.len() != "morale"@.len() &&
"empathy"@.len() != "intox"@.len() &&
"affability"@.len() != "intimidation"@.len() &&
"affability"@[1] != "aggression"@[1] &&
"affability"@[0] != "discipline"@[0] &&
"affability"@.len() != "curiosity"@.len() &&
"affability"@.len() != "courage"@.len() &&
"affability"@.len() != "impulsivity"@.len() &&
"affability"@.len() != "idealism"@.len() &&
"affability"@[0] != "pragmatism"@[0] &&
"affability"@.len() != "loyalty"@.len() &&
"affability"@.len() != "opportunism"@.len() &&
"affability"@.len() != "stoicism"@.len() &&
"affability"@.len() != "morality"@.len() &&
"affability"@.len() != "health"@.len() &&
"affability"@.len() != "stress"@.len() &&
"affability"@.len() != "fatigue"@.len() &&
"affability"@.len() != "pain"@.len() &&
"affability"@.len() != "morale"@.len() &&
"affability"@.len() != "intox"@.len() &&
"intimidation"@.len() != "aggression"@.len() &&
"intimidation"@.len() != "discipline"@.len() &&
"intimidation"@.len() != "curiosity"@.len() &&
"intimidation"@.len() != "courage"@.len() &&
"intimidation"@.len() != "impulsivity"@.len() &&
"intimidation"@.len() != "idealism"@.len() &&
"intimidation"@.len() != "pragmatism"@.len() &&
"intimidation"@.len() != "loyalty"@.len() &&
"intimidation"@.len() != "opportunism"@.len() &&
"intimidation"@.len() != "stoicism"@.len() &&
"intimidation"@.len() != "morality"@.len() &&
"intimidation"@.len() != "health"@.len() &&
"intimidation"@.len() != "stress"@.len() &&
"intimidation"@.len() != "fatigue"@.len() &&
"intimidation"@.len() != "pain"@.len() &&
"intimidation"@.len() != "morale"@.len() &&
"intimidation"@.len() != "intox"@.len() &&
"aggression"@[0] != "discipline"@[0] &&
"aggression"@.len() != "curiosity"@.len() &&
"aggression"@.len() != "courage"@.len() &&
"aggression"@.len() != "impulsivity"@.len() &&
"aggression"@.len() != "idealism"@.len() &&
"aggression"@[0] != "pragmatism"@[0] &&
"aggression"@.len() != "loyalty"@.len() &&
"aggression"@.len() != "opportunism"@.len() &&
"aggression"@.len() != "stoicism"@.len() &&
"aggression"@.len() != "morality"@.len() &&
"aggression"@.len() != "health"@.len() &&
"aggression"@.len() != "stress"@.len() &&
"aggression"@.len() != "fatigue"@.len() &&
"aggression"@.len() != "pain"@.len() &&
"aggression"@.len() != "morale"@.len() &&
"aggression"@.len() != "intox"@.len() &&
"discipline"@.len() != "curiosity"@.len() &&
"discipline"@.len() != "courage"@.len() &&
"discipline"@.len() != "impulsivity"@.len() &&
"discipline"@.len() != "idealism"@.len() &&
"discipline"@[0] != "pragmatism"@[0] &&
"discipline"@.len() != "loyalty"@.len() &&
"discipline"@.len() != "opportunism"@.len() &&
"discipline"@.len() != "stoicism"@.len() &&
"discipline"@.len() != "morality"@.len() &&
"discipline"@.len() != "health"@.len() &&
"discipline"@.len() != "stress"@.len() &&
"discipline"@.len() != "fatigue"@.len() &&
"discipline"@.len() != "pain"@.len() &&
"discipline"@.len() != "morale"@.len() &&
"discipline"@.len() != "intox"@.len() &&
"curiosity"@.len() != "courage"@.len() &&
"curiosity"@.len() != "impulsivity"@.len() &&
"curiosity"@.len() != "idealism"@.len() &&
"curiosity"@.len() != "pragmatism"@.len() &&
"curiosity"@.len() != "loyalty"@.len() &&
"curiosity"@.len() != "opportunism"@.len() &&
"curiosity"@.len() != "stoicism"@.len() &&
"curiosity"@.len() != "morality"@.len() &&
"curiosity"@.len() != "health"@.len() &&
"curiosity"@.len() != "stress"@.len() &&
"curiosity"@.len() != "fatigue"@.len() &&
"curiosity"@.len() != "pain"@.len() &&
"curiosity"@.len() != "morale"@.len() &&
"curiosity"@.len() != "intox"@.len() &&
"courage"@.len() != "impulsivity"@.len() &&
"courage"@.len() != "idealism"@.len() &&
"courage"@.len() != "pragmatism"@.len() &&
"courage"@[0] != "loyalty"@[0] &&
"courage"@.len() != "opportunism"@.len() &&
"courage"@.len() != "stoicism"@.len() &&
"courage"@.len() != "morality"@.len() &&
"courage"@.len() != "health"@.len() &&
"courage"@.len() != "stress"@.len() &&
"courage"@[0] != "fatigue"@[0] &&
"courage"@.len() != "pain"@.len() &&
"courage"@.len() != "morale"@.len() &&
"courage"@.len() != "intox"@.len() &&
"impulsivity"@.len() != "idealism"@.len() &&
"impulsivity"@.len() != "pragmatism"@.len() &&
"impulsivity"@.len() != "loyalty"@.len() &&
"impulsivity"@[0] != "opportunism"@[0] &&
"impulsivity"@.len() != "stoicism"@.len() &&
"impulsivity"@.len() != "morality"@.len() &&
"impulsivity"@.len() != "health"@.len() &&
"impulsivity"@.len() != "stress"@.len() &&
"impulsivity"@.len() != "fatigue"@.len() &&
"impulsivity"@.len() != "pain"@.len() &&
"impulsivity"@.len() != "morale"@.len() &&
"impulsivity"@.len() != "intox"@.len() &&
"idealism"@.len() != "pragmatism"@.len() &&
"idealism"@.len() != "loyalty"@.len() &&
"idealism"@.len() != "opportunism"@.len() &&
"idealism"@[0] != "stoicism"@[0] &&
"idealism"@[0] != "morality"@[0] &&
"idealism"@.len() != "health"@.len() &&
"idealism"@.len() != "stress"@.len() &&
"idealism"@.len() != "fatigue"@.len() &&
"idealism"@.len() != "pain"@.len() &&
"idealism"@.len() != "morale"@.len() &&
"idealism"@.len() != "intox"@.len() &&
"pragmatism"@.len() != "loyalty"@.len() &&
"pragmatism"@.len() != "opportunism"@.len() &&
"pragmatism"@.len() != "stoicism"@.len() &&
"pragmatism"@.len() != "morality"@.len() &&
"pragmatism"@.len() != "health"@.len() &&
"pragmatism"@.len() != "stress"@.len() &&
"pragmatism"@.len() != "fatigue"@.len() &&
"pragmatism"@.len() != "pain"@.len() &&
"pragmatism"@.len() != "morale"@.len() &&
"pragmatism"@.len() != "intox"@.len() &&
"loyalty"@.len() != "opportunism"@.len() &&
"loyalty"@.len() != "stoicism"@.len() &&
"loyalty"@.len() != "morality"@.len() &&
"loyalty"@.len() != "health"@.len() &&
"loyalty"@.len() != "stress"@.len() &&
"loyalty"@[0] != "fatigue"@[0] &&
"loyalty"@.len() != "pain"@.len() &&
"loyalty"@.len() != "morale"@.len() &&
"loyalty"@.len() != "intox"@.len() &&
"opportunism"@.len() != "stoicism"@.len() &&
"opportunism"@.len() != "morality"@.len() &&
"opportunism"@.len() != "health"@.len() &&
"opportunism"@.len() != "stress"@.len() &&
"opportunism"@.len() != "fatigue"@.len() &&
"opportunism"@.len() != "pain"@.len() &&
"opportunism"@.len() != "morale"@.len() &&
"opportunism"@.len() != "intox"@.len() &&
"stoicism"@[0] != "morality"@[0] &&
"stoicism"@.len() != "health"@.len() &&
"stoicism"@.len() != "stress"@.len() &&
"stoicism"@.len() != "fatigue"@.len() &&
"stoicism"@.len() != "pain"@.len() &&
"stoicism"@.len() != "morale"@.len() &&
"stoicism"@.len() != "intox"@.len() &&
"morality"@.len() != "health"@.len() &&
"morality"@.len() != "stress"@.len() &&
"morality"@.len() != "fatigue"@.len() &&
"morality"@.len() != "pain"@.len() &&
"morality"@.len() != "morale"@.len() &&
"morality"@.len() != "intox"@.len() &&
"health"@[0] != "stress"@[0] &&
"health"@.len() != "fatigue"@.len() &&
"health"@.len() != "pain"@.len() &&
"health"@[0] != "morale"@[0] &&
"health"@.len() != "intox"@.len() &&
"stress"@.len() != "fatigue"@.len() &&
"stress"@.len() != "pain"@.len() &&
"stress"@[0] != "morale"@[0] &&
"stress"@.len() != "intox"@.len() &&
"fatigue"@.len() != "pain"@.len() &&
"fatigue"@.len() != "morale"@.len() &&
"fatigue"@.len() != "intox"@.len() &&
"pain"@.len() != "morale"@.len() &&
"pain"@.len() != "intox"@.len() &&
"morale"@.len() != "intox"@.len() && true
    );
}

/// Writing a character's own attribute map back into it changes nothing.
pub proof fn law_actor_attrs_round_trip(c: CharacterView)
    ensures
        with_actor_attrs(c, actor_attrs_of(c)) == c,
{
    lemma_attr_names_distinct();
    reveal_strlit("honesty");
    reveal_strlit("empathy");
    reveal_strlit("affability");
    reveal_strlit("intimidation");
    reveal_strlit("aggression");
    reveal_strlit("discipline");
    reveal_strlit("curiosity");
    reveal_strlit("courage");
    reveal_strlit("impulsivity");
    reveal_strlit("idealism");
    reveal_strlit("pragmatism");
    reveal_strlit("loyalty");
    reveal_strlit("opportunism");
    reveal_strlit("stoicism");
    reveal_strlit("morality");
    reveal_strlit("health");
    reveal_strlit("stress");
    reveal_strlit("fatigue");
    reveal_strlit("pain");
    reveal_strlit("morale");
    reveal_strlit("intox");
    assert(lookup_or(actor_attrs_of(c), "honesty"@, c.honesty) == c.honesty);
    assert(lookup_or(actor_attrs_of(c), "empathy"@, c.empathy) == c.empathy);
    assert(lookup_or(actor_attrs_of(c), "affability"@, c.affability) == c.affability);
    assert(lookup_or(actor_attrs_of(c), "intimidation"@, c.intimidation) == c.intimidation);
    assert(lookup_or(actor_attrs_of(c), "aggression"@, c.aggression) == c.aggression);
    assert(lookup_or(actor_attrs_of(c), "discipline"@, c.discipline) == c.discipline);
    assert(lookup_or(actor_attrs_of(c), "curiosity"@, c.curiosity) == c.curiosity);
    assert(lookup_or(actor_attrs_of(c), "courage"@, c.courage) == c.courage);
    assert(lookup_or(actor_attrs_of(c), "impulsivity"@, c.impulsivity) == c.impulsivity);
    assert(lookup_or(actor_attrs_of(c), "idealism"@, c.idealism) == c.idealism);
    assert(lookup_or(actor_attrs_of(c), "pragmatism"@, c.pragmatism) == c.pragmatism);
    assert(lookup_or(actor_attrs_of(c), "loyalty"@, c.loyalty) == c.loyalty);
    assert(lookup_or(actor_attrs_of(c), "opportunism"@, c.opportunism) == c.opportunism);
    assert(lookup_or(actor_attrs_of(c), "stoicism"@, c.stoicism) == c.stoicism);
    assert(lookup_or(actor_attrs_of(c), "morality"@, c.morality) == c.morality);
    assert(lookup_or(actor_attrs_of(c), "health"@, c.health) == c.health);
    assert(lookup_or(actor_attrs_of(c), "stress"@, c.stress) == c.stress);
    assert(lookup_or(actor_attrs_of(c), "fatigue"@, c.fatigue) == c.fatigue);
    assert(lookup_or(actor_attrs_of(c), "pain"@, c.pain) == c.pain);
    assert(lookup_or(actor_attrs_of(c), "morale"@, c.morale) == c.morale);
    assert(lookup_or(actor_attrs_of(c), "intox"@, c.intox) == c.intox);
}

/// After writing an attribute map into a character, the character's attribute
/// map agrees with it on every attribute name it holds.
pub proof fn law_actor_attrs_written(c: CharacterView, m: Map<Seq<char>, i32>, key: Seq<char>)
    ensures
        m.contains_key(key) && actor_attrs_of(c).contains_key(key) ==> actor_attrs_of(
            with_actor_attrs(c, m),
        )[key] == m[key],
{
    lemma_attr_names_distinct();
    reveal_strlit("honesty");
    reveal_strlit("empathy");
    reveal_strlit("affability");
    reveal_strlit("intimidation");
    reveal_strlit("aggression");
    reveal_strlit("discipline");
    reveal_strlit("curiosity");
    reveal_strlit("courage");
    reveal_strlit("impulsivity");
    reveal_strlit("idealism");
    reveal_strlit("pragmatism");
    reveal_strlit("loyalty");
    reveal_strlit("opportunism");
    reveal_strlit("stoicism");
    reveal_strlit("morality");
    reveal_strlit("health");
    reveal_strlit("stress");
    reveal_strlit("fatigue");
    reveal_strlit("pain");
    reveal_strlit("morale");
    reveal_strlit("intox");
}

/// The name under which an attribute map holds the attribute `f`.
pub open spec fn actor_attr_key(f: AttributeField) -> Seq<char> {
    match f {
        AttributeField::Honesty => "honesty"@,
        AttributeField::Empathy => "empathy"@,
        AttributeField::Affability => "affability"@,
        AttributeField::Intimidation => "intimidation"@,
        AttributeField::Aggression => "aggression"@,
        AttributeField::Discipline => "discipline"@,
        AttributeField::Curiosity => "curiosity"@,
        AttributeField::Courage => "courage"@,
        AttributeField::Impulsivity => "impulsivity"@,
        AttributeField::Idealism => "idealism"@,
        AttributeField::Pragmatism => "pragmatism"@,
        AttributeField::Loyalty => "loyalty"@,
        AttributeField::Opportunism => "opportunism"@,
        AttributeField::Stoicism => "stoicism"@,
        AttributeField::Morality => "morality"@,
        AttributeField::Health => "health"@,
        AttributeField::Stress => "stress"@,
        AttributeField::Fatigue => "fatigue"@,
        AttributeField::Pain => "pain"@,
        AttributeField::Morale => "morale"@,
        AttributeField::Intox => "intox"@,
    }
}

/// Writing an attribute map into a character changes only the attributes
/// the map names: each attribute it names takes the map's value, each one it
/// does not name keeps the character's own value, and the flags are kept.
pub proof fn law_unnamed_attrs_kept(c: CharacterView, m: Map<Seq<char>, i32>, f: AttributeField)
    ensures
        !m.contains_key(actor_attr_key(f)) ==> attr_get(with_actor_attrs(c, m), f) == attr_get(c, f),
        m.contains_key(actor_attr_key(f)) ==> attr_get(with_actor_attrs(c, m), f) == m[actor_attr_key(f)],
        with_actor_attrs(c, m).traits_flags == c.traits_flags,
{
}

/// Holds a personality value to `0..=100`.
pub fn clamp_personality(value: i32) -> (r: i32)
    ensures
        r == crate::impacts::clamp_spec(value as int, 0, 100),
{
    crate::impacts::clamp_0_100(value)
}

} // verus!

verus! {

/// The attributes that a snapshot holds for `actor`: all zero for an actor
/// the snapshot does not know.
pub open spec fn snapshot_character(chars: Map<Seq<char>, CharacterView>, actor: Seq<char>) -> CharacterView {
    if chars.contains_key(actor) {
        chars[actor]
    } else {
        default_character_view()
    }
}

/// The attribute map of `actor_id` in a character snapshot.
pub fn actor_attrs_from_snapshot(snapshot: &CharacterStateSnapshot, actor_id: &str) -> (r: ActorAttrs)
    ensures
        crate::keyed::raw_map_view(r) == actor_attrs_of(
            snapshot_character(char_map_view(snapshot.characters), actor_id@),
        ),
{
    match snapshot.characters.get(actor_id) {
        Some(c) => character_attributes_to_actor_attrs(c),
        None => character_attributes_to_actor_attrs(&CharacterAttributes::new_default()),
    }
}

/// Writes an actor's attribute map back into a snapshot: the actor's stored
/// attributes (zeros if it had none) take every value the map names, and
/// the rest of the snapshot stays as it was.
pub fn store_actor_attrs(snapshot: &mut CharacterStateSnapshot, actor_id: String, attrs: &ActorAttrs)
    ensures
        char_map_view(final(snapshot).characters) == char_map_view(old(snapshot).characters).insert(
            actor_id@,
            with_actor_attrs(
                snapshot_character(char_map_view(old(snapshot).characters), actor_id@),
                crate::keyed::raw_map_view(*attrs),
            ),
        ),
        old(snapshot).characters.wf() ==> final(snapshot).characters.wf(),
        final(snapshot).relationships@ == old(snapshot).relationships@,
{
    let base = match snapshot.characters.get(actor_id.as_str()) {
        Some(c) => c.clone(),
        None => CharacterAttributes::new_default(),
    };
    let updated = apply_actor_attrs_to_character(base, attrs);
    let ghost kk = actor_id;
    let ghost vv = updated;
    let ghost before = snapshot.characters;
    snapshot.characters.insert(actor_id, updated);
    proof {
        lemma_char_map_insert(before, snapshot.characters, kk, vv);
    }
}

} // verus!
