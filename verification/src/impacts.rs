//! Impacts that a choice has on characters: numeric changes to attributes and
//! relationships, and flags written into a character's trait tree.

use vstd::prelude::*;
use crate::json::{JsonValue, JsonView, set_path, set_flag_path, lemma_set_path_object};
use crate::keyed::{StrMap, PairMap, lemma_str_insert, lemma_pair_insert, str_insert, pair_insert, pair_keys, first_index, lemma_first_index, lemma_first_index_unique};
use crate::text::views;

verus! {

/// How an impact changes a number.
#[derive(Clone, Copy, PartialEq, Eq, Structural, Debug)]
pub enum NumericOp {
    Add,
    SetTo,
    Scale,
}

/// The character attributes that an impact can change.
#[derive(Clone, Copy, PartialEq, Eq, Structural, Debug)]
pub enum AttributeField {
    Honesty,
    Empathy,
    Affability,
    Intimidation,
    Aggression,
    Discipline,
    Curiosity,
    Courage,
    Impulsivity,
    Idealism,
    Pragmatism,
    Loyalty,
    Opportunism,
    Stoicism,
    Morality,
    Health,
    Stress,
    Fatigue,
    Pain,
    Morale,
    Intox,
}

/// The relationship metrics that an impact can change.
#[derive(Clone, Copy, PartialEq, Eq, Structural, Debug)]
pub enum RelationshipField {
    Affinity,
    Trust,
    Respect,
    Fear,
    Attraction,
}

/// One change that a choice makes.
#[derive(Debug, PartialEq)]
#[allow(inconsistent_fields)]
pub enum Impact {
    CharacterAttribute { character_id: String, field: AttributeField, op: NumericOp, value: i32 },
    Relationship {
        from_id: String,
        to_id: String,
        field: RelationshipField,
        op: NumericOp,
        value: i32,
    },
    Flag {
        character_id: String,
        /// Path inside `traits_flags` (e.g. `["saved_the_boy"]`).
        path: Vec<String>,
        value: JsonValue,
    },
}

/// The content of an impact.
#[allow(inconsistent_fields)]
pub enum ImpactView {
    CharacterAttribute { character_id: Seq<char>, field: AttributeField, op: NumericOp, value: i32 },
    Relationship {
        from_id: Seq<char>,
        to_id: Seq<char>,
        field: RelationshipField,
        op: NumericOp,
        value: i32,
    },
    Flag { character_id: Seq<char>, path: Seq<Seq<char>>, value: JsonView },
}

impl View for Impact {
    type V = ImpactView;

    open spec fn view(&self) -> ImpactView {
        match self {
            Impact::CharacterAttribute { character_id, field, op, value } =>
                ImpactView::CharacterAttribute {
                character_id: character_id@,
                field: *field,
                op: *op,
                value: *value,
            },
            Impact::Relationship { from_id, to_id, field, op, value } => ImpactView::Relationship {
                from_id: from_id@,
                to_id: to_id@,
                field: *field,
                op: *op,
                value: *value,
            },
            Impact::Flag { character_id, path, value } => ImpactView::Flag {
                character_id: character_id@,
                path: views(path@),
                value: value@,
            },
        }
    }
}

/// Copies a list of strings.
pub fn copy_strings(v: &Vec<String>) -> (r: Vec<String>)
    ensures
        views(r@) == views(v@),
{
    let mut out: Vec<String> = Vec::new();
    let mut i: usize = 0;
    while i < v.len()
        invariant
            0 <= i <= v.len(),
            views(out@) == views(v@.subrange(0, i as int)),
        decreases v.len() - i,
    {
        let ghost before = out@;
        out.push(v[i].clone());
        assert(out@ == before.push(v@[i as int]));
        assert(v@.subrange(0, i + 1) =~= v@.subrange(0, i as int).push(v@[i as int]));
        proof {
            crate::text::lemma_views_push(before, v@[i as int]);
            crate::text::lemma_views_push(v@.subrange(0, i as int), v@[i as int]);
        }
        i = i + 1;
    }
    assert(v@.subrange(0, v.len() as int) =~= v@);
    out
}

impl Clone for Impact {
    fn clone(&self) -> (r: Self)
        ensures
            r@ == self@,
    {
        match self {
            Impact::CharacterAttribute { character_id, field, op, value } =>
                Impact::CharacterAttribute {
                character_id: character_id.clone(),
                field: *field,
                op: *op,
                value: *value,
            },
            Impact::Relationship { from_id, to_id, field, op, value } => Impact::Relationship {
                from_id: from_id.clone(),
                to_id: to_id.clone(),
                field: *field,
                op: *op,
                value: *value,
            },
            Impact::Flag { character_id, path, value } => Impact::Flag {
                character_id: character_id.clone(),
                path: copy_strings(path),
                value: value.clone(),
            },
        }
    }
}

impl Impact {
    /// The impact that an editor starts a new row with: morality of the given
    /// character, plus zero.
    pub fn default_character(character_id: String) -> (r: Self)
        ensures
            r@ == (ImpactView::CharacterAttribute {
                character_id: character_id@,
                field: AttributeField::Morality,
                op: NumericOp::Add,
                value: 0,
            }),
    {
        Impact::CharacterAttribute {
            character_id,
            field: AttributeField::Morality,
            op: NumericOp::Add,
            value: 0,
        }
    }
}

/// A list of impacts, as a choice stores it.
pub struct ImpactList(pub Vec<Impact>);

impl ImpactList {
    /// An empty list.
    pub fn new() -> (r: Self)
        ensures
            r.0@.len() == 0,
    {
        ImpactList(Vec::new())
    }
}

impl Default for ImpactList {
    /// An empty list.
    fn default() -> (r: Self)
        ensures
            r.0@.len() == 0,
    {
        ImpactList::new()
    }
}

} // verus!

verus! {

/// The attributes of one character, and the tree of flags that story choices set.
#[derive(Debug, PartialEq)]
pub struct CharacterAttributes {
    pub honesty: i32,
    pub empathy: i32,
    pub affability: i32,
    pub intimidation: i32,
    pub aggression: i32,
    pub discipline: i32,
    pub curiosity: i32,
    pub courage: i32,
    pub impulsivity: i32,
    pub idealism: i32,
    pub pragmatism: i32,
    pub loyalty: i32,
    pub opportunism: i32,
    pub stoicism: i32,
    pub morality: i32,
    pub health: i32,
    pub stress: i32,
    pub fatigue: i32,
    pub pain: i32,
    pub morale: i32,
    pub intox: i32,
    pub traits_flags: JsonValue,
}

/// The content of a character's attributes.
pub struct CharacterView {
    pub honesty: i32,
    pub empathy: i32,
    pub affability: i32,
    pub intimidation: i32,
    pub aggression: i32,
    pub discipline: i32,
    pub curiosity: i32,
    pub courage: i32,
    pub impulsivity: i32,
    pub idealism: i32,
    pub pragmatism: i32,
    pub loyalty: i32,
    pub opportunism: i32,
    pub stoicism: i32,
    pub morality: i32,
    pub health: i32,
    pub stress: i32,
    pub fatigue: i32,
    pub pain: i32,
    pub morale: i32,
    pub intox: i32,
    pub traits_flags: JsonView,
}

impl View for CharacterAttributes {
    type V = CharacterView;

    open spec fn view(&self) -> CharacterView {
        CharacterView {
            honesty: self.honesty,
            empathy: self.empathy,
            affability: self.affability,
            intimidation: self.intimidation,
            aggression: self.aggression,
            discipline: self.discipline,
            curiosity: self.curiosity,
            courage: self.courage,
            impulsivity: self.impulsivity,
            idealism: self.idealism,
            pragmatism: self.pragmatism,
            loyalty: self.loyalty,
            opportunism: self.opportunism,
            stoicism: self.stoicism,
            morality: self.morality,
            health: self.health,
            stress: self.stress,
            fatigue: self.fatigue,
            pain: self.pain,
            morale: self.morale,
            intox: self.intox,
            traits_flags: self.traits_flags@,
        }
    }
}

/// A character with every attribute at zero and no flags.
pub open spec fn default_character_view() -> CharacterView {
    CharacterView {
        honesty: 0,
        empathy: 0,
        affability: 0,
        intimidation: 0,
        aggression: 0,
        discipline: 0,
        curiosity: 0,
        courage: 0,
        impulsivity: 0,
        idealism: 0,
        pragmatism: 0,
        loyalty: 0,
        opportunism: 0,
        stoicism: 0,
        morality: 0,
        health: 0,
        stress: 0,
        fatigue: 0,
        pain: 0,
        morale: 0,
        intox: 0,
        traits_flags: JsonView::Object(Seq::empty()),
    }
}

/// The value of attribute `f`.
pub open spec fn attr_get(a: CharacterView, f: AttributeField) -> i32 {
    match f {
        AttributeField::Honesty => a.honesty,
        AttributeField::Empathy => a.empathy,
        AttributeField::Affability => a.affability,
        AttributeField::Intimidation => a.intimidation,
        AttributeField::Aggression => a.aggression,
        AttributeField::Discipline => a.discipline,
        AttributeField::Curiosity => a.curiosity,
        AttributeField::Courage => a.courage,
        AttributeField::Impulsivity => a.impulsivity,
        AttributeField::Idealism => a.idealism,
        AttributeField::Pragmatism => a.pragmatism,
        AttributeField::Loyalty => a.loyalty,
        AttributeField::Opportunism => a.opportunism,
        AttributeField::Stoicism => a.stoicism,
        AttributeField::Morality => a.morality,
        AttributeField::Health => a.health,
        AttributeField::Stress => a.stress,
        AttributeField::Fatigue => a.fatigue,
        AttributeField::Pain => a.pain,
        AttributeField::Morale => a.morale,
        AttributeField::Intox => a.intox,
    }
}

/// `a` with attribute `f` set to `x`.
pub open spec fn attr_set(a: CharacterView, f: AttributeField, x: i32) -> CharacterView {
    match f {
        AttributeField::Honesty => CharacterView { honesty: x, ..a },
        AttributeField::Empathy => CharacterView { empathy: x, ..a },
        AttributeField::Affability => CharacterView { affability: x, ..a },
        AttributeField::Intimidation => CharacterView { intimidation: x, ..a },
        AttributeField::Aggression => CharacterView { aggression: x, ..a },
        AttributeField::Discipline => CharacterView { discipline: x, ..a },
        AttributeField::Curiosity => CharacterView { curiosity: x, ..a },
        AttributeField::Courage => CharacterView { courage: x, ..a },
        AttributeField::Impulsivity => CharacterView { impulsivity: x, ..a },
        AttributeField::Idealism => CharacterView { idealism: x, ..a },
        AttributeField::Pragmatism => CharacterView { pragmatism: x, ..a },
        AttributeField::Loyalty => CharacterView { loyalty: x, ..a },
        AttributeField::Opportunism => CharacterView { opportunism: x, ..a },
        AttributeField::Stoicism => CharacterView { stoicism: x, ..a },
        AttributeField::Morality => CharacterView { morality: x, ..a },
        AttributeField::Health => CharacterView { health: x, ..a },
        AttributeField::Stress => CharacterView { stress: x, ..a },
        AttributeField::Fatigue => CharacterView { fatigue: x, ..a },
        AttributeField::Pain => CharacterView { pain: x, ..a },
        AttributeField::Morale => CharacterView { morale: x, ..a },
        AttributeField::Intox => CharacterView { intox: x, ..a },
    }
}

impl CharacterAttributes {
    /// A character with every attribute at zero and an empty flag object.
    pub fn new_default() -> (r: Self)
        ensures
            r@ == default_character_view(),
    {
        CharacterAttributes {
            honesty: 0,
            empathy: 0,
            affability: 0,
            intimidation: 0,
            aggression: 0,
            discipline: 0,
            curiosity: 0,
            courage: 0,
            impulsivity: 0,
            idealism: 0,
            pragmatism: 0,
            loyalty: 0,
            opportunism: 0,
            stoicism: 0,
            morality: 0,
            health: 0,
            stress: 0,
            fatigue: 0,
            pain: 0,
            morale: 0,
            intox: 0,
            traits_flags: JsonValue::Object(Vec::new()),
        }
    }

    /// The value of attribute `f`.
    pub fn get(&self, f: AttributeField) -> (r: i32)
        ensures
            r == attr_get(self@, f),
    {
        match f {
            AttributeField::Honesty => self.honesty,
            AttributeField::Empathy => self.empathy,
            AttributeField::Affability => self.affability,
            AttributeField::Intimidation => self.intimidation,
            AttributeField::Aggression => self.aggression,
            AttributeField::Discipline => self.discipline,
            AttributeField::Curiosity => self.curiosity,
            AttributeField::Courage => self.courage,
            AttributeField::Impulsivity => self.impulsivity,
            AttributeField::Idealism => self.idealism,
            AttributeField::Pragmatism => self.pragmatism,
            AttributeField::Loyalty => self.loyalty,
            AttributeField::Opportunism => self.opportunism,
            AttributeField::Stoicism => self.stoicism,
            AttributeField::Morality => self.morality,
            AttributeField::Health => self.health,
            AttributeField::Stress => self.stress,
            AttributeField::Fatigue => self.fatigue,
            AttributeField::Pain => self.pain,
            AttributeField::Morale => self.morale,
            AttributeField::Intox => self.intox,
        }
    }

    /// Sets attribute `f` to `x`.
    pub fn set(&mut self, f: AttributeField, x: i32)
        ensures
            final(self)@ == attr_set(old(self)@, f, x),
    {
        match f {
            AttributeField::Honesty => self.honesty = x,
            AttributeField::Empathy => self.empathy = x,
            AttributeField::Affability => self.affability = x,
            AttributeField::Intimidation => self.intimidation = x,
            AttributeField::Aggression => self.aggression = x,
            AttributeField::Discipline => self.discipline = x,
            AttributeField::Curiosity => self.curiosity = x,
            AttributeField::Courage => self.courage = x,
            AttributeField::Impulsivity => self.impulsivity = x,
            AttributeField::Idealism => self.idealism = x,
            AttributeField::Pragmatism => self.pragmatism = x,
            AttributeField::Loyalty => self.loyalty = x,
            AttributeField::Opportunism => self.opportunism = x,
            AttributeField::Stoicism => self.stoicism = x,
            AttributeField::Morality => self.morality = x,
            AttributeField::Health => self.health = x,
            AttributeField::Stress => self.stress = x,
            AttributeField::Fatigue => self.fatigue = x,
            AttributeField::Pain => self.pain = x,
            AttributeField::Morale => self.morale = x,
            AttributeField::Intox => self.intox = x,
        }
    }
}

impl Default for CharacterAttributes {
    /// All attributes zero, and no flags.
    fn default() -> (r: Self)
        ensures
            r@ == default_character_view(),
    {
        CharacterAttributes::new_default()
    }
}

impl Clone for CharacterAttributes {
    fn clone(&self) -> (r: Self)
        ensures
            r@ == self@,
    {
        CharacterAttributes {
            honesty: self.honesty,
            empathy: self.empathy,
            affability: self.affability,
            intimidation: self.intimidation,
            aggression: self.aggression,
            discipline: self.discipline,
            curiosity: self.curiosity,
            courage: self.courage,
            impulsivity: self.impulsivity,
            idealism: self.idealism,
            pragmatism: self.pragmatism,
            loyalty: self.loyalty,
            opportunism: self.opportunism,
            stoicism: self.stoicism,
            morality: self.morality,
            health: self.health,
            stress: self.stress,
            fatigue: self.fatigue,
            pain: self.pain,
            morale: self.morale,
            intox: self.intox,
            traits_flags: self.traits_flags.clone(),
        }
    }
}

/// How two characters stand towards each other.
#[derive(Clone, Copy, PartialEq, Eq, Structural, Debug)]
pub struct RelationshipMetrics {
    pub affinity: i32,
    pub trust: i32,
    pub respect: i32,
    pub fear: i32,
    pub attraction: i32,
}

/// The value of metric `f`.
pub open spec fn metric_get(m: RelationshipMetrics, f: RelationshipField) -> i32 {
    match f {
        RelationshipField::Affinity => m.affinity,
        RelationshipField::Trust => m.trust,
        RelationshipField::Respect => m.respect,
        RelationshipField::Fear => m.fear,
        RelationshipField::Attraction => m.attraction,
    }
}

/// `m` with metric `f` set to `x`.
pub open spec fn metric_set(m: RelationshipMetrics, f: RelationshipField, x: i32) -> RelationshipMetrics {
    match f {
        RelationshipField::Affinity => RelationshipMetrics { affinity: x, ..m },
        RelationshipField::Trust => RelationshipMetrics { trust: x, ..m },
        RelationshipField::Respect => RelationshipMetrics { respect: x, ..m },
        RelationshipField::Fear => RelationshipMetrics { fear: x, ..m },
        RelationshipField::Attraction => RelationshipMetrics { attraction: x, ..m },
    }
}

/// All metrics at zero.
pub open spec fn zero_metrics() -> RelationshipMetrics {
    RelationshipMetrics { affinity: 0, trust: 0, respect: 0, fear: 0, attraction: 0 }
}

impl Default for RelationshipMetrics {
    fn default() -> (r: Self)
        ensures
            r == zero_metrics(),
    {
        RelationshipMetrics { affinity: 0, trust: 0, respect: 0, fear: 0, attraction: 0 }
    }
}

impl RelationshipMetrics {
    /// The value of metric `f`.
    pub fn get(&self, f: RelationshipField) -> (r: i32)
        ensures
            r == metric_get(*self, f),
    {
        match f {
            RelationshipField::Affinity => self.affinity,
            RelationshipField::Trust => self.trust,
            RelationshipField::Respect => self.respect,
            RelationshipField::Fear => self.fear,
            RelationshipField::Attraction => self.attraction,
        }
    }

    /// Sets metric `f` to `x`.
    pub fn set(&mut self, f: RelationshipField, x: i32)
        ensures
            *final(self) == metric_set(*old(self), f, x),
    {
        match f {
            RelationshipField::Affinity => self.affinity = x,
            RelationshipField::Trust => self.trust = x,
            RelationshipField::Respect => self.respect = x,
            RelationshipField::Fear => self.fear = x,
            RelationshipField::Attraction => self.attraction = x,
        }
    }
}

} // verus!

verus! {

/// `x` held to the range `lo..=hi`.
pub open spec fn clamp_spec(x: int, lo: int, hi: int) -> int {
    if x < lo {
        lo
    } else if x > hi {
        hi
    } else {
        x
    }
}

/// Holds a personality attribute to `0..=100`.
pub fn clamp_0_100(value: i32) -> (r: i32)
    ensures
        r == clamp_spec(value as int, 0, 100),
{
    if value < 0 {
        0
    } else if value > 100 {
        100
    } else {
        value
    }
}

/// Holds a relationship metric to `-100..=100`.
pub fn clamp_relationship(value: i32) -> (r: i32)
    ensures
        r == clamp_spec(value as int, -100, 100),
{
    if value < -100 {
        -100
    } else if value > 100 {
        100
    } else {
        value
    }
}

/// The percentage scaling that `NumericOp::Scale` applies is computed by the
/// caller (it rounds a floating-point product); such a computation is usable
/// when it accepts every pair of arguments and gives one answer for each.
pub open spec fn scale_ok<F: Fn(i32, i32) -> i32>(f: F) -> bool {
    &&& forall|c: i32, v: i32| #[trigger] call_requires(f, (c, v))
    &&& forall|c: i32, v: i32, r1: i32, r2: i32|
        #![trigger call_ensures(f, (c, v), r1), call_ensures(f, (c, v), r2)]
        call_ensures(f, (c, v), r1) && call_ensures(f, (c, v), r2) ==> r1 == r2
}

/// The answer of the scaling computation `f` for `current` scaled by `value` percent.
pub open spec fn scaled<F: Fn(i32, i32) -> i32>(f: F, current: i32, value: i32) -> i32 {
    choose|r: i32| call_ensures(f, (current, value), r)
}

/// The number that an operation yields before it is held to its range.
pub open spec fn op_value<F: Fn(i32, i32) -> i32>(current: i32, op: NumericOp, value: i32, f: F) -> int {
    match op {
        NumericOp::Add => current + value,
        NumericOp::SetTo => value as int,
        NumericOp::Scale => scaled(f, current, value) as int,
    }
}

/// Applies `op` with `value` to `current`, then holds the result to `lo..=hi`.
/// Addition is exact (it cannot wrap).
pub fn apply_numeric_op<F: Fn(i32, i32) -> i32>(
    current: i32,
    op: &NumericOp,
    value: i32,
    lo: i32,
    hi: i32,
    scale: &F,
) -> (r: i32)
    requires
        scale_ok(*scale),
        lo <= hi,
    ensures
        r == clamp_spec(op_value(current, *op, value, *scale), lo as int, hi as int),
{
    let raw: i64 = match op {
        NumericOp::Add => current as i64 + value as i64,
        NumericOp::SetTo => value as i64,
        NumericOp::Scale => {
            let s = scale(current, value);
            assert(call_ensures(*scale, (current, value), s));
            assert(call_ensures(*scale, (current, value), scaled(*scale, current, value)));
            s as i64
        },
    };
    if raw < lo as i64 {
        lo
    } else if raw > hi as i64 {
        hi
    } else {
        raw as i32
    }
}

/// Characters and relationships as an impact preview works on them.
pub struct PreviewState {
    pub characters: StrMap<CharacterAttributes>,
    pub relationships: PairMap<RelationshipMetrics>,
}

/// The content of a preview state: characters by id, and relationship metrics by
/// `(from_id, to_id)`.
pub struct PreviewView {
    pub characters: Map<Seq<char>, CharacterView>,
    pub relationships: Map<(Seq<char>, Seq<char>), RelationshipMetrics>,
}

/// The characters of a map, by id.
pub open spec fn char_map_view(m: StrMap<CharacterAttributes>) -> Map<Seq<char>, CharacterView> {
    Map::new(|k: Seq<char>| m.has(k), |k: Seq<char>| m.at(k)@)
}

/// The relationship metrics of a map, by ordered pair of ids.
pub open spec fn rel_map_view(m: PairMap<RelationshipMetrics>) -> Map<
    (Seq<char>, Seq<char>),
    RelationshipMetrics,
> {
    Map::new(|k: (Seq<char>, Seq<char>)| m.has(k), |k: (Seq<char>, Seq<char>)| m.at(k))
}

impl View for PreviewState {
    type V = PreviewView;

    open spec fn view(&self) -> PreviewView {
        PreviewView {
            characters: char_map_view(self.characters),
            relationships: rel_map_view(self.relationships),
        }
    }
}

/// A state after one impact. An attribute or relationship impact creates the
/// character (all zero, no flags) or the relationship (all zero) it names when
/// it is missing; a flag impact on a missing character changes nothing.
pub open spec fn apply_impact<F: Fn(i32, i32) -> i32>(s: PreviewView, imp: ImpactView, f: F) -> PreviewView {
    match imp {
        ImpactView::CharacterAttribute { character_id, field, op, value } => {
            let cur = if s.characters.contains_key(character_id) {
                s.characters[character_id]
            } else {
                default_character_view()
            };
            let x = clamp_spec(op_value(attr_get(cur, field), op, value, f), 0, 100) as i32;
            PreviewView { characters: s.characters.insert(character_id, attr_set(cur, field, x)), ..s }
        },
        ImpactView::Relationship { from_id, to_id, field, op, value } => {
            let key = (from_id, to_id);
            let cur = if s.relationships.contains_key(key) {
                s.relationships[key]
            } else {
                zero_metrics()
            };
            let x = clamp_spec(op_value(metric_get(cur, field), op, value, f), -100, 100) as i32;
            PreviewView { relationships: s.relationships.insert(key, metric_set(cur, field, x)), ..s }
        },
        ImpactView::Flag { character_id, path, value } => {
            if s.characters.contains_key(character_id) {
                let cur = s.characters[character_id];
                PreviewView {
                    characters: s.characters.insert(
                        character_id,
                        CharacterView { traits_flags: set_path(cur.traits_flags, path, value), ..cur },
                    ),
                    ..s
                }
            } else {
                s
            }
        },
    }
}

/// A state after a list of impacts, applied in order.
pub open spec fn apply_impacts_spec<F: Fn(i32, i32) -> i32>(
    s: PreviewView,
    imps: Seq<ImpactView>,
    f: F,
) -> PreviewView
    decreases imps.len(),
{
    if imps.len() == 0 {
        s
    } else {
        apply_impact(apply_impacts_spec(s, imps.drop_last(), f), imps.last(), f)
    }
}

/// The views of a list of impacts.
pub open spec fn impact_views(v: Seq<Impact>) -> Seq<ImpactView> {
    v.map_values(|i: Impact| i@)
}

/// A flag impact with a path of two keys or more needs an object at the root of
/// the flags of its character; this holds for every flag impact of `imps` whose
/// character is in `chars` from the start. (Characters that impacts create
/// start with an empty object.)
pub open spec fn flag_roots_ok(chars: Map<Seq<char>, CharacterView>, imps: Seq<ImpactView>) -> bool {
    forall|i: int|
        0 <= i < imps.len() ==> match #[trigger] imps[i] {
            ImpactView::Flag { character_id, path, value } => (path.len() >= 2
                && chars.contains_key(character_id)) ==> chars[character_id].traits_flags is Object,
            _ => true,
        }
}

/// Inserting into a character map inserts into its view.
pub proof fn lemma_char_map_insert(
    before: StrMap<CharacterAttributes>,
    after: StrMap<CharacterAttributes>,
    k: String,
    v: CharacterAttributes,
)
    requires
        after.entries@ == str_insert(before.entries@, k, v),
    ensures
        char_map_view(after) == char_map_view(before).insert(k@, v@),
        before.wf() ==> after.wf(),
{
    assert forall|k2: Seq<char>| #[trigger] char_map_view(after).contains_key(k2) == char_map_view(before).insert(k@, v@).contains_key(k2) by {
        lemma_str_insert(before.entries@, k, v, k2);
    }
    assert forall|k2: Seq<char>| char_map_view(after).contains_key(k2) implies #[trigger] char_map_view(after)[k2] == char_map_view(before).insert(k@, v@)[k2] by {
        lemma_str_insert(before.entries@, k, v, k2);
    }
    lemma_str_insert(before.entries@, k, v, k@);
    assert(char_map_view(after) =~= char_map_view(before).insert(k@, v@));
}

/// Inserting into a relationship map inserts into its view.
pub proof fn lemma_rel_map_insert(
    before: PairMap<RelationshipMetrics>,
    after: PairMap<RelationshipMetrics>,
    k: (String, String),
    v: RelationshipMetrics,
)
    requires
        after.entries@ == pair_insert(before.entries@, k, v),
    ensures
        rel_map_view(after) == rel_map_view(before).insert((k.0@, k.1@), v),
        before.wf() ==> after.wf(),
{
    assert forall|k2: (Seq<char>, Seq<char>)| #[trigger] rel_map_view(after).contains_key(k2) == rel_map_view(before).insert((k.0@, k.1@), v).contains_key(k2) by {
        lemma_pair_insert(before.entries@, k, v, k2);
    }
    assert forall|k2: (Seq<char>, Seq<char>)| rel_map_view(after).contains_key(k2) implies #[trigger] rel_map_view(after)[k2] == rel_map_view(before).insert((k.0@, k.1@), v)[k2] by {
        lemma_pair_insert(before.entries@, k, v, k2);
    }
    lemma_pair_insert(before.entries@, k, v, (k.0@, k.1@));
    assert(rel_map_view(after) =~= rel_map_view(before).insert((k.0@, k.1@), v));
}

} // verus!

verus! {

/// A flag impact with a path of two keys or more finds an object at the root of
/// its character's flags, when that character exists.
pub open spec fn flag_root_ok(chars: Map<Seq<char>, CharacterView>, imp: ImpactView) -> bool {
    match imp {
        ImpactView::Flag { character_id, path, value } => (path.len() >= 2 && chars.contains_key(
            character_id,
        )) ==> chars[character_id].traits_flags is Object,
        _ => true,
    }
}

/// Applies one impact to `state`.
fn apply_one<F: Fn(i32, i32) -> i32>(state: &mut PreviewState, imp: &Impact, scale: &F)
    requires
        scale_ok(*scale),
        flag_root_ok(old(state)@.characters, imp@),
    ensures
        final(state)@ == apply_impact(old(state)@, imp@, *scale),
        old(state).characters.wf() ==> final(state).characters.wf(),
        old(state).relationships.wf() ==> final(state).relationships.wf(),
{
    match imp {
        Impact::CharacterAttribute { character_id, field, op, value } => {
            let mut cur = match state.characters.get(character_id.as_str()) {
                Some(a) => a.clone(),
                None => CharacterAttributes::new_default(),
            };
            let x = apply_numeric_op(cur.get(*field), op, *value, 0, 100, scale);
            cur.set(*field, x);
            let k = character_id.clone();
            let ghost kk = k;
            let ghost vv = cur;
            let ghost before = state.characters;
            state.characters.insert(k, cur);
            proof {
                lemma_char_map_insert(before, state.characters, kk, vv);
            }
        },
        Impact::Relationship { from_id, to_id, field, op, value } => {
            let mut cur = match state.relationships.get(from_id.as_str(), to_id.as_str()) {
                Some(m) => *m,
                None => RelationshipMetrics::default(),
            };
            let x = apply_numeric_op(cur.get(*field), op, *value, -100, 100, scale);
            cur.set(*field, x);
            let k = (from_id.clone(), to_id.clone());
            let ghost kk = k;
            let ghost before = state.relationships;
            state.relationships.insert(k, cur);
            proof {
                lemma_rel_map_insert(before, state.relationships, kk, cur);
            }
        },
        Impact::Flag { character_id, path, value } => {
            match state.characters.get(character_id.as_str()) {
                Some(a) => {
                    let mut cur = a.clone();
                    set_flag_path(&mut cur.traits_flags, path, value.clone());
                    let k = character_id.clone();
                    let ghost kk = k;
                    let ghost vv = cur;
                    let ghost before = state.characters;
                    state.characters.insert(k, cur);
                    proof {
                        lemma_char_map_insert(before, state.characters, kk, vv);
                    }
                },
                None => {},
            }
        },
    }
}

/// Two character maps with the same keys and entry-wise equal values have the
/// same view.
proof fn lemma_char_map_same(a: StrMap<CharacterAttributes>, b: StrMap<CharacterAttributes>)
    requires
        a.keys() == b.keys(),
        a.entries@.len() == b.entries@.len(),
        forall|i: int| 0 <= i < a.entries@.len() ==> (#[trigger] a.entries@[i]).1@ == b.entries@[i].1@,
    ensures
        char_map_view(a) == char_map_view(b),
{
    assert forall|k: Seq<char>| char_map_view(a).contains_key(k) implies #[trigger] char_map_view(a)[k] == char_map_view(b)[k] by {
        lemma_first_index(a.keys(), k);
    }
    assert(char_map_view(a) =~= char_map_view(b));
}

/// A copy of a character map.
pub fn copy_characters(m: &StrMap<CharacterAttributes>) -> (r: StrMap<CharacterAttributes>)
    ensures
        char_map_view(r) == char_map_view(*m),
        r.keys() == m.keys(),
{
    let mut out: Vec<(String, CharacterAttributes)> = Vec::new();
    let mut i: usize = 0;
    while i < m.entries.len()
        invariant
            0 <= i <= m.entries.len(),
            out@.len() == i,
            forall|j: int| 0 <= j < i ==> (#[trigger] out@[j]).0 == m.entries@[j].0 && out@[j].1@ == m.entries@[j].1@,
        decreases m.entries.len() - i,
    {
        out.push((m.entries[i].0.clone(), m.entries[i].1.clone()));
        i = i + 1;
    }
    let r = StrMap { entries: out };
    assert(r.keys() =~= m.keys());
    proof {
        lemma_char_map_same(r, *m);
    }
    r
}

/// A copy of a relationship map.
pub fn copy_relationships(m: &PairMap<RelationshipMetrics>) -> (r: PairMap<RelationshipMetrics>)
    ensures
        r.entries@ == m.entries@,
{
    let mut out: Vec<((String, String), RelationshipMetrics)> = Vec::new();
    let mut i: usize = 0;
    while i < m.entries.len()
        invariant
            0 <= i <= m.entries.len(),
            out@ == m.entries@.subrange(0, i as int),
        decreases m.entries.len() - i,
    {
        let k = (m.entries[i].0.0.clone(), m.entries[i].0.1.clone());
        out.push((k, m.entries[i].1));
        assert(m.entries@.subrange(0, i + 1) =~= m.entries@.subrange(0, i as int).push(m.entries@[i as int]));
        i = i + 1;
    }
    assert(m.entries@.subrange(0, m.entries@.len() as int) =~= m.entries@);
    PairMap { entries: out }
}

/// Characters whose flags are not an object were in `init` with such flags.
pub open spec fn flags_from_start(chars: Map<Seq<char>, CharacterView>, init: Map<Seq<char>, CharacterView>) -> bool {
    forall|k: Seq<char>|
        #[trigger] chars.contains_key(k) ==> (chars[k].traits_flags is Object || (init.contains_key(k)
            && !(init[k].traits_flags is Object)))
}

/// Applies `impacts` in order to copies of `attributes` and `relationships`, and
/// returns the resulting characters and relationships. Attribute values are held
/// to `0..=100` and relationship metrics to `-100..=100` after each impact.
#[verifier::rlimit(40)]
pub fn apply_impacts_preview<F: Fn(i32, i32) -> i32>(
    attributes: &StrMap<CharacterAttributes>,
    relationships: &PairMap<RelationshipMetrics>,
    impacts: &Vec<Impact>,
    scale: &F,
) -> (r: PreviewState)
    requires
        scale_ok(*scale),
        flag_roots_ok(char_map_view(*attributes), impact_views(impacts@)),
    ensures
        r@ == apply_impacts_spec(
            PreviewView {
                characters: char_map_view(*attributes),
                relationships: rel_map_view(*relationships),
            },
            impact_views(impacts@),
            *scale,
        ),
        attributes.wf() ==> r.characters.wf(),
        relationships.wf() ==> r.relationships.wf(),
        flags_from_start(r@.characters, char_map_view(*attributes)),
{
    let ghost init = PreviewView {
        characters: char_map_view(*attributes),
        relationships: rel_map_view(*relationships),
    };
    let ghost imps = impact_views(impacts@);
    let mut state = PreviewState {
        characters: copy_characters(attributes),
        relationships: copy_relationships(relationships),
    };
    assert(state.characters.wf() == attributes.wf());
    assert(rel_map_view(state.relationships) =~= rel_map_view(*relationships));
    assert(state@ == init);
    let mut i: usize = 0;
    assert(imps.subrange(0, 0) =~= Seq::<ImpactView>::empty());
    while i < impacts.len()
        invariant
            scale_ok(*scale),
            imps == impact_views(impacts@),
            imps.len() == impacts@.len(),
            flag_roots_ok(init.characters, imps),
            0 <= i <= impacts.len(),
            state@ == apply_impacts_spec(init, imps.subrange(0, i as int), *scale),
            flags_from_start(state@.characters, init.characters),
            attributes.wf() ==> state.characters.wf(),
            relationships.wf() ==> state.relationships.wf(),
        decreases impacts.len() - i,
    {
        let ghost before = state@;
        assert(imps[i as int] == impacts@[i as int]@);
        assert(flag_root_ok(state@.characters, impacts@[i as int]@)) by {
            match imps[i as int] {
                ImpactView::Flag { character_id, path, value } => {
                    if path.len() >= 2 && state@.characters.contains_key(character_id) {
                        assert(state@.characters.contains_key(character_id));
                    }
                },
                _ => {},
            }
        }
        apply_one(&mut state, &impacts[i], scale);
        assert(imps.subrange(0, i + 1).drop_last() =~= imps.subrange(0, i as int));
        assert(flags_from_start(state@.characters, init.characters)) by {
            match imps[i as int] {
                ImpactView::Flag { character_id, path, value } => {
                    if before.characters.contains_key(character_id) {
                        let t = before.characters[character_id].traits_flags;
                        if t is Object {
                            lemma_set_path_object(t, path, value);
                        }
                    }
                },
                _ => {},
            }
        }
        i = i + 1;
    }
    assert(imps.subrange(0, impacts.len() as int) =~= imps);
    state
}

} // verus!

verus! {

/// One relationship of a saved snapshot.
#[derive(Debug, PartialEq)]
pub struct RelationshipState {
    pub from_id: String,
    pub to_id: String,
    pub metrics: RelationshipMetrics,
}

/// The content of a saved relationship.
pub struct RelationshipStateView {
    pub from_id: Seq<char>,
    pub to_id: Seq<char>,
    pub metrics: RelationshipMetrics,
}

impl View for RelationshipState {
    type V = RelationshipStateView;

    open spec fn view(&self) -> RelationshipStateView {
        RelationshipStateView { from_id: self.from_id@, to_id: self.to_id@, metrics: self.metrics }
    }
}

impl Clone for RelationshipState {
    fn clone(&self) -> (r: Self)
        ensures
            r@ == self@,
    {
        RelationshipState {
            from_id: self.from_id.clone(),
            to_id: self.to_id.clone(),
            metrics: self.metrics,
        }
    }
}

/// The views of a list of relationships.
pub open spec fn rel_state_views(v: Seq<RelationshipState>) -> Seq<RelationshipStateView> {
    v.map_values(|r: RelationshipState| r@)
}

/// The metrics by pair of ids that a list of relationships records, a later
/// entry for the same pair replacing an earlier one.
pub open spec fn rel_list_map(rels: Seq<RelationshipStateView>) -> Map<
    (Seq<char>, Seq<char>),
    RelationshipMetrics,
>
    decreases rels.len(),
{
    if rels.len() == 0 {
        Map::empty()
    } else {
        rel_list_map(rels.drop_last()).insert(
            (rels.last().from_id, rels.last().to_id),
            rels.last().metrics,
        )
    }
}

/// The characters and relationships that are saved between sessions.
pub struct CharacterStateSnapshot {
    pub characters: StrMap<CharacterAttributes>,
    pub relationships: Vec<RelationshipState>,
}

/// The pair keys of a list of relationships.
pub open spec fn rel_keys(rels: Seq<RelationshipStateView>) -> Seq<(Seq<char>, Seq<char>)> {
    rels.map_values(|r: RelationshipStateView| (r.from_id, r.to_id))
}

/// The relationship list that a relationship map turns into: one entry per
/// entry of the map, in the map's order.
pub open spec fn rel_entries_views(es: Seq<((String, String), RelationshipMetrics)>) -> Seq<
    RelationshipStateView,
> {
    es.map_values(
        |e: ((String, String), RelationshipMetrics)|
            RelationshipStateView { from_id: e.0.0@, to_id: e.0.1@, metrics: e.1 },
    )
}

impl CharacterStateSnapshot {
    /// The snapshot as a preview state: the same characters, and the
    /// relationships keyed by `(from_id, to_id)` (a later entry for the same
    /// pair wins).
    pub fn to_preview_state(&self) -> (r: PreviewState)
        ensures
            char_map_view(r.characters) == char_map_view(self.characters),
            rel_map_view(r.relationships) == rel_list_map(rel_state_views(self.relationships@)),
            self.characters.wf() ==> r.characters.wf(),
            r.relationships.wf(),
            rel_keys(rel_state_views(self.relationships@)).no_duplicates() ==> rel_entries_views(
                r.relationships.entries@,
            ) == rel_state_views(self.relationships@),
    {
        let mut rels: PairMap<RelationshipMetrics> = PairMap::new();
        let ghost src = rel_state_views(self.relationships@);
        let mut i: usize = 0;
        assert(rel_map_view(rels) =~= Map::<(Seq<char>, Seq<char>), RelationshipMetrics>::empty());
        while i < self.relationships.len()
            invariant
                src == rel_state_views(self.relationships@),
                0 <= i <= self.relationships.len(),
                rels.wf(),
                rel_map_view(rels) == rel_list_map(src.subrange(0, i as int)),
                rel_keys(src).no_duplicates() ==> rel_entries_views(rels.entries@) == src.subrange(
                    0,
                    i as int,
                ),
            decreases self.relationships.len() - i,
        {
            let rel = &self.relationships[i];
            let k = (rel.from_id.clone(), rel.to_id.clone());
            let ghost kk = k;
            let ghost before = rels;
            proof {
                lemma_first_index(before.keys(), (kk.0@, kk.1@));
            }
            rels.insert(k, rel.metrics);
            proof {
                lemma_rel_map_insert(before, rels, kk, rel.metrics);
                lemma_pair_insert(before.entries@, kk, rel.metrics, (kk.0@, kk.1@));
                assert(src.subrange(0, i + 1).drop_last() =~= src.subrange(0, i as int));
                if rel_keys(src).no_duplicates() {
                    assert(rel_keys(src)[i as int] == (kk.0@, kk.1@));
                    if before.keys().contains((kk.0@, kk.1@)) {
                        let w = choose|w: int| 0 <= w < before.keys().len() && before.keys()[w] == (kk.0@, kk.1@);
                        assert(rel_entries_views(before.entries@)[w] == src[w]);
                        assert(rel_keys(src)[w] == rel_keys(src)[i as int]);
                    }
                    assert(rels.entries@ == before.entries@.push((kk, rel.metrics)));
                    assert(rel_entries_views(rels.entries@) =~= src.subrange(0, i + 1));
                }
            }
            i = i + 1;
        }
        assert(src.subrange(0, self.relationships.len() as int) =~= src);
        PreviewState { characters: copy_characters(&self.characters), relationships: rels }
    }

    /// A snapshot of a preview state: the same characters, and one relationship
    /// per entry of the relationship map, in the map's order.
    pub fn from_preview_state(state: PreviewState) -> (r: Self)
        ensures
            char_map_view(r.characters) == char_map_view(state.characters),
            r.characters.entries@ == state.characters.entries@,
            rel_state_views(r.relationships@) == rel_entries_views(state.relationships.entries@),
    {
        let es = &state.relationships.entries;
        let mut out: Vec<RelationshipState> = Vec::new();
        let mut i: usize = 0;
        while i < es.len()
            invariant
                0 <= i <= es.len(),
                rel_state_views(out@) == rel_entries_views(es@.subrange(0, i as int)),
            decreases es.len() - i,
        {
            let ghost before = out@;
            let x = RelationshipState {
                from_id: es[i].0.0.clone(),
                to_id: es[i].0.1.clone(),
                metrics: es[i].1,
            };
            let ghost xv = x@;
            out.push(x);
            assert(rel_state_views(out@) =~= rel_state_views(before).push(xv));
            assert(es@.subrange(0, i + 1) =~= es@.subrange(0, i as int).push(es@[i as int]));
            assert(rel_entries_views(es@.subrange(0, i + 1)) =~= rel_entries_views(es@.subrange(0, i as int)).push(xv));
            i = i + 1;
        }
        assert(es@.subrange(0, es@.len() as int) =~= es@);
        CharacterStateSnapshot { characters: state.characters, relationships: out }
    }

    /// The snapshot after `impacts` (see `apply_impacts_preview`).
    pub fn apply_impacts<F: Fn(i32, i32) -> i32>(&self, impacts: &Vec<Impact>, scale: &F) -> (r:
        Self)
        requires
            scale_ok(*scale),
            flag_roots_ok(char_map_view(self.characters), impact_views(impacts@)),
        ensures
            ({
                let after = apply_impacts_spec(
                    PreviewView {
                        characters: char_map_view(self.characters),
                        relationships: rel_list_map(rel_state_views(self.relationships@)),
                    },
                    impact_views(impacts@),
                    *scale,
                );
                &&& char_map_view(r.characters) == after.characters
                &&& rel_list_map(rel_state_views(r.relationships@)) == after.relationships
            }),
    {
        let base = self.to_preview_state();
        let updated = apply_impacts_preview(&base.characters, &base.relationships, impacts, scale);
        let ghost rels = updated.relationships;
        let r = CharacterStateSnapshot::from_preview_state(updated);
        proof {
            lemma_entries_list_map(rels);
        }
        r
    }
}

/// Listing the entries of a relationship map without repeated keys, and
/// recording them again, gives back the map.
pub proof fn lemma_entries_list_map(m: PairMap<RelationshipMetrics>)
    requires
        m.wf(),
    ensures
        rel_list_map(rel_entries_views(m.entries@)) == rel_map_view(m),
{
    let es = m.entries@;
    lemma_list_map_prefix(es);
    assert(rel_list_map(rel_entries_views(m.entries@)) =~= rel_map_view(m));
}

/// The map of an entry list without repeated keys, built entry by entry.
proof fn lemma_list_map_prefix(es: Seq<((String, String), RelationshipMetrics)>)
    requires
        pair_keys(es).no_duplicates(),
    ensures
        forall|k: (Seq<char>, Seq<char>)| #[trigger] rel_list_map(rel_entries_views(es)).contains_key(k) <==> pair_keys(es).contains(k),
        forall|k: (Seq<char>, Seq<char>)| pair_keys(es).contains(k) ==> #[trigger] rel_list_map(rel_entries_views(es))[k] == es[first_index(pair_keys(es), k)].1,
    decreases es.len(),
{
    if es.len() > 0 {
        let p = es.drop_last();
        assert(pair_keys(p) =~= pair_keys(es).drop_last());
        assert(pair_keys(p).no_duplicates());
        lemma_list_map_prefix(p);
        assert(rel_entries_views(es).drop_last() =~= rel_entries_views(p));
        let lk = pair_keys(es).last();
        assert(lk == (es.last().0.0@, es.last().0.1@));
        assert(rel_list_map(rel_entries_views(es)) == rel_list_map(rel_entries_views(p)).insert(lk, es.last().1));
        assert forall|k: (Seq<char>, Seq<char>)| pair_keys(es).contains(k) implies #[trigger] rel_list_map(rel_entries_views(es))[k] == es[first_index(pair_keys(es), k)].1 by {
            lemma_first_index(pair_keys(es), k);
            lemma_first_index(pair_keys(p), k);
            if k == lk {
                lemma_first_index_unique(pair_keys(es), k, es.len() - 1);
            } else {
                let j = first_index(pair_keys(es), k);
                assert(j < es.len() - 1);
                lemma_first_index_unique(pair_keys(p), k, j);
            }
        }
        assert forall|k: (Seq<char>, Seq<char>)| #[trigger] rel_list_map(rel_entries_views(es)).contains_key(k) <==> pair_keys(es).contains(k) by {
            if pair_keys(p).contains(k) {
                let w = choose|w: int| 0 <= w < pair_keys(p).len() && pair_keys(p)[w] == k;
                assert(pair_keys(es)[w] == k);
            }
            if pair_keys(es).contains(k) && k != lk {
                let w = choose|w: int| 0 <= w < pair_keys(es).len() && pair_keys(es)[w] == k;
                assert(pair_keys(p)[w] == k);
            }
        }
    }
}

} // verus!

verus! {

/// Applying two lists of impacts one after the other is applying their
/// concatenation.
pub proof fn law_apply_impacts_concat<F: Fn(i32, i32) -> i32>(
    s: PreviewView,
    a: Seq<ImpactView>,
    b: Seq<ImpactView>,
    f: F,
)
    ensures
        apply_impacts_spec(s, a + b, f) == apply_impacts_spec(apply_impacts_spec(s, a, f), b, f),
    decreases b.len(),
{
    if b.len() == 0 {
        assert(a + b =~= a);
    } else {
        law_apply_impacts_concat(s, a, b.drop_last(), f);
        assert((a + b).drop_last() =~= a + b.drop_last());
        assert((a + b).last() == b.last());
    }
}

/// Impacts keep the root of every character's flags an object, except where
/// it was not one from the start; characters they create start with an
/// empty object.
pub proof fn lemma_apply_keeps_flag_objects<F: Fn(i32, i32) -> i32>(
    s: PreviewView,
    imps: Seq<ImpactView>,
    f: F,
)
    ensures
        flags_from_start(apply_impacts_spec(s, imps, f).characters, s.characters),
    decreases imps.len(),
{
    if imps.len() > 0 {
        let prev = apply_impacts_spec(s, imps.drop_last(), f);
        lemma_apply_keeps_flag_objects(s, imps.drop_last(), f);
        match imps.last() {
            ImpactView::Flag { character_id, path, value } => {
                if prev.characters.contains_key(character_id) {
                    let t = prev.characters[character_id].traits_flags;
                    if t is Object {
                        lemma_set_path_object(t, path, value);
                    }
                }
            },
            _ => {},
        }
    }
}

/// Applying a list of impacts in two steps, one part after the other, is
/// applying the whole list: the first part may be applied wherever the whole
/// may, the second part may then be applied to what the first gives, and the
/// result is the same.
pub proof fn law_apply_in_two_steps<F: Fn(i32, i32) -> i32>(
    s: PreviewView,
    a: Seq<ImpactView>,
    b: Seq<ImpactView>,
    f: F,
)
    requires
        flag_roots_ok(s.characters, a + b),
    ensures
        flag_roots_ok(s.characters, a),
        flag_roots_ok(apply_impacts_spec(s, a, f).characters, b),
        apply_impacts_spec(apply_impacts_spec(s, a, f), b, f) == apply_impacts_spec(s, a + b, f),
{
    law_apply_impacts_concat(s, a, b, f);
    assert forall|i: int| 0 <= i < a.len() implies match #[trigger] a[i] {
        ImpactView::Flag { character_id, path, value } => (path.len() >= 2
            && s.characters.contains_key(character_id)) ==> s.characters[character_id].traits_flags is Object,
        _ => true,
    } by {
        assert((a + b)[i] == a[i]);
    }
    let m = apply_impacts_spec(s, a, f);
    lemma_apply_keeps_flag_objects(s, a, f);
    assert forall|i: int| 0 <= i < b.len() implies match #[trigger] b[i] {
        ImpactView::Flag { character_id, path, value } => (path.len() >= 2
            && m.characters.contains_key(character_id)) ==> m.characters[character_id].traits_flags is Object,
        _ => true,
    } by {
        assert((a + b)[a.len() + i] == b[i]);
        match b[i] {
            ImpactView::Flag { character_id, path, value } => {
                if path.len() >= 2 && m.characters.contains_key(character_id) {
                    assert(m.characters.contains_key(character_id));
                }
            },
            _ => {},
        }
    }
}

/// No impacts leave the state as it was.
pub proof fn law_apply_no_impacts<F: Fn(i32, i32) -> i32>(s: PreviewView, f: F)
    ensures
        apply_impacts_spec(s, Seq::empty(), f) == s,
{
}

/// After an attribute impact, the attribute it names lies in `0..=100`; after a
/// relationship impact, the metric it names lies in `-100..=100`.
pub proof fn law_impact_result_in_range<F: Fn(i32, i32) -> i32>(s: PreviewView, imp: ImpactView, f: F)
    ensures
        imp matches ImpactView::CharacterAttribute { character_id, field, op, value } ==> {
            let v = attr_get(apply_impact(s, imp, f).characters[character_id], field);
            0 <= v <= 100
        },
        imp matches ImpactView::Relationship { from_id, to_id, field, op, value } ==> {
            let v = metric_get(apply_impact(s, imp, f).relationships[(from_id, to_id)], field);
            -100 <= v <= 100
        },
{
}

/// Setting an attribute to a value within `0..=100`, or a metric to a value
/// within `-100..=100`, stores that value exactly; every other attribute or
/// metric of that character or pair keeps its value.
pub proof fn law_set_stores_value<F: Fn(i32, i32) -> i32>(s: PreviewView, imp: ImpactView, f: F, other_attr: AttributeField, other_metric: RelationshipField)
    ensures
        imp matches ImpactView::CharacterAttribute { character_id, field, op, value } ==> {
            let after = apply_impact(s, imp, f).characters[character_id];
            let before = if s.characters.contains_key(character_id) {
                s.characters[character_id]
            } else {
                default_character_view()
            };
            &&& (op == NumericOp::SetTo && 0 <= value <= 100) ==> attr_get(after, field) == value
            &&& other_attr != field ==> attr_get(after, other_attr) == attr_get(before, other_attr)
            &&& after.traits_flags == before.traits_flags
        },
        imp matches ImpactView::Relationship { from_id, to_id, field, op, value } ==> {
            let after = apply_impact(s, imp, f).relationships[(from_id, to_id)];
            let before = if s.relationships.contains_key((from_id, to_id)) {
                s.relationships[(from_id, to_id)]
            } else {
                zero_metrics()
            };
            &&& (op == NumericOp::SetTo && -100 <= value <= 100) ==> metric_get(after, field) == value
            &&& other_metric != field ==> metric_get(after, other_metric) == metric_get(before, other_metric)
        },
{
}

/// A flag impact on an existing character whose flags are an object makes the
/// flag at its path read back as the impact's value; an impact never removes a
/// character or a relationship.
pub proof fn law_flag_reads_back<F: Fn(i32, i32) -> i32>(s: PreviewView, imp: ImpactView, f: F)
    ensures
        imp matches ImpactView::Flag { character_id, path, value } ==> (s.characters.contains_key(
            character_id,
        ) && s.characters[character_id].traits_flags is Object && path.len() >= 1
            ==> crate::json::get_path(
            apply_impact(s, imp, f).characters[character_id].traits_flags,
            path,
        ) == Some(value)),
        s.characters.dom().subset_of(apply_impact(s, imp, f).characters.dom()),
        s.relationships.dom().subset_of(apply_impact(s, imp, f).relationships.dom()),
{
    match imp {
        ImpactView::Flag { character_id, path, value } => {
            if s.characters.contains_key(character_id) && s.characters[character_id].traits_flags is Object && path.len() >= 1 {
                crate::json::lemma_get_after_set(s.characters[character_id].traits_flags, path, value);
            }
        },
        _ => {},
    }
}

} // verus!
