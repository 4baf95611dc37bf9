//! Lookup by string key in lists of `(key, value)` entries: the first entry
//! whose key matches is the one that counts.

use vstd::prelude::*;

verus! {

/// Index of the first key of `ks` equal to `k`, or `-1` when there is none.
pub open spec fn first_index<K>(ks: Seq<K>, k: K) -> int {
    if exists|i: int| 0 <= i < ks.len() && #[trigger] ks[i] == k && (forall|j: int| 0 <= j < i ==> ks[j] != k) {
        choose|i: int| 0 <= i < ks.len() && #[trigger] ks[i] == k && (forall|j: int| 0 <= j < i ==> ks[j] != k)
    } else {
        -1
    }
}

/// The key views of a list of entries.
pub open spec fn entry_keys<V>(es: Seq<(String, V)>) -> Seq<Seq<char>> {
    es.map_values(|e: (String, V)| e.0@)
}

/// `first_index` is `-1` exactly when no key matches; otherwise it points at the
/// first match.
pub proof fn lemma_first_index<K>(ks: Seq<K>, k: K)
    ensures
        -1 <= first_index(ks, k) < ks.len(),
        first_index(ks, k) == -1 <==> !ks.contains(k),
        first_index(ks, k) >= 0 ==> ks[first_index(ks, k)] == k && forall|j: int|
            0 <= j < first_index(ks, k) ==> ks[j] != k,
{
    if ks.contains(k) {
        let w = choose|i: int| 0 <= i < ks.len() && ks[i] == k;
        lemma_minimal_match(ks, k, w);
    }
}

proof fn lemma_minimal_match<K>(ks: Seq<K>, k: K, w: int)
    requires
        0 <= w < ks.len(),
        ks[w] == k,
    ensures
        exists|i: int| 0 <= i < ks.len() && #[trigger] ks[i] == k && (forall|j: int| 0 <= j < i ==> ks[j] != k),
    decreases w,
{
    if exists|j: int| 0 <= j < w && ks[j] == k {
        let j = choose|j: int| 0 <= j < w && ks[j] == k;
        lemma_minimal_match(ks, k, j);
    } else {
        assert(0 <= w < ks.len() && ks[w] == k && (forall|j: int| 0 <= j < w ==> ks[j] != k));
    }
}

/// Two indices that are both the first match of `k` are the same.
pub proof fn lemma_first_index_unique<K>(ks: Seq<K>, k: K, i: int)
    requires
        0 <= i < ks.len(),
        ks[i] == k,
        forall|j: int| 0 <= j < i ==> ks[j] != k,
    ensures
        first_index(ks, k) == i,
{
    lemma_first_index(ks, k);
    let f = first_index(ks, k);
    if f < i {
        assert(ks[f] != k);
    } else if f > i {
        assert(ks[i] != k);
    }
}

/// Position of the first entry of `es` whose key is `k`.
pub fn find_key<V>(es: &Vec<(String, V)>, k: &str) -> (r: Option<usize>)
    ensures
        match r {
            Some(i) => first_index(entry_keys(es@), k@) == i as int,
            None => first_index(entry_keys(es@), k@) == -1,
        },
{
    let ghost ks = entry_keys(es@);
    let mut i: usize = 0;
    while i < es.len()
        invariant
            ks == entry_keys(es@),
            ks.len() == es@.len(),
            0 <= i <= es.len(),
            forall|j: int| 0 <= j < i ==> ks[j] != k@,
        decreases es.len() - i,
    {
        assert(ks[i as int] == es@[i as int].0@);
        if crate::text::str_equal(es[i].0.as_str(), k) {
            proof {
                lemma_first_index_unique(ks, k@, i as int);
            }
            return Some(i);
        }
        i = i + 1;
    }
    proof {
        lemma_first_index(ks, k@);
        if ks.contains(k@) {
            let w = choose|w: int| 0 <= w < ks.len() && ks[w] == k@;
            assert(ks[w] != k@);
        }
    }
    None
}

} // verus!

verus! {

/// Entries after inserting `(k, v)`: the first entry with key `k` is replaced,
/// or the pair goes at the end.
pub open spec fn str_insert<V>(es: Seq<(String, V)>, k: String, v: V) -> Seq<(String, V)> {
    let i = first_index(entry_keys(es), k@);
    if i >= 0 {
        es.update(i, (k, v))
    } else {
        es.push((k, v))
    }
}

/// A map from strings to values, kept as a list of entries in insertion order.
pub struct StrMap<V> {
    pub entries: Vec<(String, V)>,
}

impl<V> StrMap<V> {
    /// The keys, in entry order.
    pub open spec fn keys(self) -> Seq<Seq<char>> {
        entry_keys(self.entries@)
    }

    /// No key occurs twice.
    pub open spec fn wf(self) -> bool {
        self.keys().no_duplicates()
    }

    /// The map holds key `k`.
    pub open spec fn has(self, k: Seq<char>) -> bool {
        self.keys().contains(k)
    }

    /// The value stored under `k` (meaningful where `has(k)`).
    pub open spec fn at(self, k: Seq<char>) -> V {
        self.entries@[first_index(self.keys(), k)].1
    }

    /// An empty map.
    pub fn new() -> (m: Self)
        ensures
            m.entries@.len() == 0,
            m.wf(),
    {
        StrMap { entries: Vec::new() }
    }

    /// The value stored under `k`, if any.
    pub fn get(&self, k: &str) -> (r: Option<&V>)
        ensures
            match r {
                Some(v) => self.has(k@) && *v == self.at(k@),
                None => !self.has(k@),
            },
    {
        proof {
            lemma_first_index(self.keys(), k@);
        }
        match find_key(&self.entries, k) {
            Some(i) => Some(&self.entries[i].1),
            None => None,
        }
    }

    /// Stores `v` under `k`, replacing what `k` held.
    pub fn insert(&mut self, k: String, v: V)
        ensures
            final(self).entries@ == str_insert(old(self).entries@, k, v),
    {
        match find_key(&self.entries, k.as_str()) {
            Some(i) => {
                self.entries.set(i, (k, v));
            },
            None => {
                self.entries.push((k, v));
            },
        }
    }
}

/// What inserting into a string-keyed list of entries does to lookups.
pub proof fn lemma_str_insert<V>(es: Seq<(String, V)>, k: String, v: V, k2: Seq<char>)
    ensures
        entry_keys(str_insert(es, k, v)).contains(k2) <==> (k2 == k@ || entry_keys(es).contains(
            k2,
        )),
        str_insert(es, k, v)[first_index(entry_keys(str_insert(es, k, v)), k@)].1 == v,
        k2 != k@ && entry_keys(es).contains(k2) ==> str_insert(es, k, v)[first_index(
            entry_keys(str_insert(es, k, v)),
            k2,
        )].1 == es[first_index(entry_keys(es), k2)].1,
        entry_keys(es).no_duplicates() ==> entry_keys(str_insert(es, k, v)).no_duplicates(),
        first_index(entry_keys(es), k@) >= 0 ==> entry_keys(str_insert(es, k, v)) == entry_keys(es),
        first_index(entry_keys(es), k@) < 0 ==> entry_keys(str_insert(es, k, v)) == entry_keys(
            es,
        ).push(k@),
{
    let ks = entry_keys(es);
    let ins = str_insert(es, k, v);
    let ks2 = entry_keys(ins);
    lemma_first_index(ks, k@);
    lemma_first_index(ks, k2);
    let i = first_index(ks, k@);
    if i >= 0 {
        assert(ks2 =~= ks);
        lemma_first_index(ks2, k@);
        lemma_first_index(ks2, k2);
    } else {
        assert(ks2 =~= ks.push(k@));
        lemma_first_index_unique(ks2, k@, ks.len() as int);
        if ks.contains(k2) && k2 != k@ {
            let j = first_index(ks, k2);
            lemma_first_index_unique(ks2, k2, j);
        }
        if ks2.contains(k2) && k2 != k@ {
            let w = choose|w: int| 0 <= w < ks2.len() && ks2[w] == k2;
            assert(ks[w] == k2);
        }
        if ks.no_duplicates() {
            assert forall|a: int, b: int| 0 <= a < ks2.len() && 0 <= b < ks2.len() && a != b implies ks2[a] != ks2[b] by {
                if a < ks.len() && b < ks.len() {
                } else if a == ks.len() {
                    assert(ks2[b] == ks[b]);
                } else {
                    assert(ks2[a] == ks[a]);
                }
            }
        }
    }
}

} // verus!

verus! {

/// The key views of a list of entries keyed by string pairs.
pub open spec fn pair_keys<V>(es: Seq<((String, String), V)>) -> Seq<(Seq<char>, Seq<char>)> {
    es.map_values(|e: ((String, String), V)| (e.0.0@, e.0.1@))
}

/// Position of the first entry of `es` whose key is `(a, b)`.
pub fn find_pair<V>(es: &Vec<((String, String), V)>, a: &str, b: &str) -> (r: Option<usize>)
    ensures
        match r {
            Some(i) => first_index(pair_keys(es@), (a@, b@)) == i as int,
            None => first_index(pair_keys(es@), (a@, b@)) == -1,
        },
{
    let ghost ks = pair_keys(es@);
    let mut i: usize = 0;
    while i < es.len()
        invariant
            ks == pair_keys(es@),
            ks.len() == es@.len(),
            0 <= i <= es.len(),
            forall|j: int| 0 <= j < i ==> ks[j] != (a@, b@),
        decreases es.len() - i,
    {
        assert(ks[i as int] == (es@[i as int].0.0@, es@[i as int].0.1@));
        if crate::text::str_equal(es[i].0.0.as_str(), a) && crate::text::str_equal(
            es[i].0.1.as_str(),
            b,
        ) {
            proof {
                lemma_first_index_unique(ks, (a@, b@), i as int);
            }
            return Some(i);
        }
        i = i + 1;
    }
    proof {
        lemma_first_index(ks, (a@, b@));
        if ks.contains((a@, b@)) {
            let w = choose|w: int| 0 <= w < ks.len() && ks[w] == (a@, b@);
            assert(ks[w] != (a@, b@));
        }
    }
    None
}

/// Entries after inserting `(k, v)` into a pair-keyed list.
pub open spec fn pair_insert<V>(es: Seq<((String, String), V)>, k: (String, String), v: V) -> Seq<
    ((String, String), V),
> {
    let i = first_index(pair_keys(es), (k.0@, k.1@));
    if i >= 0 {
        es.update(i, (k, v))
    } else {
        es.push((k, v))
    }
}

/// A map keyed by ordered pairs of strings, kept as a list of entries in
/// insertion order.
pub struct PairMap<V> {
    pub entries: Vec<((String, String), V)>,
}

impl<V> PairMap<V> {
    /// The keys, in entry order.
    pub open spec fn keys(self) -> Seq<(Seq<char>, Seq<char>)> {
        pair_keys(self.entries@)
    }

    /// No key occurs twice.
    pub open spec fn wf(self) -> bool {
        self.keys().no_duplicates()
    }

    /// The map holds key `k`.
    pub open spec fn has(self, k: (Seq<char>, Seq<char>)) -> bool {
        self.keys().contains(k)
    }

    /// The value stored under `k` (meaningful where `has(k)`).
    pub open spec fn at(self, k: (Seq<char>, Seq<char>)) -> V {
        self.entries@[first_index(self.keys(), k)].1
    }

    /// An empty map.
    pub fn new() -> (m: Self)
        ensures
            m.entries@.len() == 0,
            m.wf(),
    {
        PairMap { entries: Vec::new() }
    }

    /// The value stored under `(a, b)`, if any.
    pub fn get(&self, a: &str, b: &str) -> (r: Option<&V>)
        ensures
            match r {
                Some(v) => self.has((a@, b@)) && *v == self.at((a@, b@)),
                None => !self.has((a@, b@)),
            },
    {
        proof {
            lemma_first_index(self.keys(), (a@, b@));
        }
        match find_pair(&self.entries, a, b) {
            Some(i) => Some(&self.entries[i].1),
            None => None,
        }
    }

    /// Stores `v` under `k`, replacing what `k` held.
    pub fn insert(&mut self, k: (String, String), v: V)
        ensures
            final(self).entries@ == pair_insert(old(self).entries@, k, v),
    {
        match find_pair(&self.entries, k.0.as_str(), k.1.as_str()) {
            Some(i) => {
                self.entries.set(i, (k, v));
            },
            None => {
                self.entries.push((k, v));
            },
        }
    }
}

/// What inserting into a pair-keyed list of entries does to lookups.
pub proof fn lemma_pair_insert<V>(
    es: Seq<((String, String), V)>,
    k: (String, String),
    v: V,
    k2: (Seq<char>, Seq<char>),
)
    ensures
        pair_keys(pair_insert(es, k, v)).contains(k2) <==> (k2 == (k.0@, k.1@) || pair_keys(
            es,
        ).contains(k2)),
        pair_insert(es, k, v)[first_index(pair_keys(pair_insert(es, k, v)), (k.0@, k.1@))].1 == v,
        k2 != (k.0@, k.1@) && pair_keys(es).contains(k2) ==> pair_insert(es, k, v)[first_index(
            pair_keys(pair_insert(es, k, v)),
            k2,
        )].1 == es[first_index(pair_keys(es), k2)].1,
        pair_keys(es).no_duplicates() ==> pair_keys(pair_insert(es, k, v)).no_duplicates(),
        first_index(pair_keys(es), (k.0@, k.1@)) >= 0 ==> pair_keys(pair_insert(es, k, v))
            == pair_keys(es),
        first_index(pair_keys(es), (k.0@, k.1@)) < 0 ==> pair_keys(pair_insert(es, k, v))
            == pair_keys(es).push((k.0@, k.1@)),
{
    let kk = (k.0@, k.1@);
    let ks = pair_keys(es);
    let ins = pair_insert(es, k, v);
    let ks2 = pair_keys(ins);
    lemma_first_index(ks, kk);
    lemma_first_index(ks, k2);
    let i = first_index(ks, kk);
    if i >= 0 {
        assert(ks2 =~= ks);
        lemma_first_index(ks2, kk);
        lemma_first_index(ks2, k2);
    } else {
        assert(ks2 =~= ks.push(kk));
        lemma_first_index_unique(ks2, kk, ks.len() as int);
        if ks.contains(k2) && k2 != kk {
            let j = first_index(ks, k2);
            lemma_first_index_unique(ks2, k2, j);
        }
        if ks2.contains(k2) && k2 != kk {
            let w = choose|w: int| 0 <= w < ks2.len() && ks2[w] == k2;
            assert(ks[w] == k2);
        }
        if ks.no_duplicates() {
            assert forall|a: int, b: int| 0 <= a < ks2.len() && 0 <= b < ks2.len() && a != b implies ks2[a] != ks2[b] by {
                if a < ks.len() && b < ks.len() {
                } else if a == ks.len() {
                    assert(ks2[b] == ks[b]);
                } else {
                    assert(ks2[a] == ks[a]);
                }
            }
        }
    }
}

} // verus!

verus! {

/// The content of a string-keyed map whose values are plain.
pub open spec fn raw_map_view<V>(m: StrMap<V>) -> Map<Seq<char>, V> {
    Map::new(|k: Seq<char>| m.has(k), |k: Seq<char>| m.at(k))
}

/// Inserting into a map inserts into its content.
pub proof fn lemma_raw_map_insert<V>(before: StrMap<V>, after: StrMap<V>, k: String, v: V)
    requires
        after.entries@ == str_insert(before.entries@, k, v),
    ensures
        raw_map_view(after) == raw_map_view(before).insert(k@, v),
        before.wf() ==> after.wf(),
{
    assert forall|k2: Seq<char>| #[trigger] raw_map_view(after).contains_key(k2) == raw_map_view(before).insert(k@, v).contains_key(k2) by {
        lemma_str_insert(before.entries@, k, v, k2);
    }
    assert forall|k2: Seq<char>| raw_map_view(after).contains_key(k2) implies #[trigger] raw_map_view(after)[k2] == raw_map_view(before).insert(k@, v)[k2] by {
        lemma_str_insert(before.entries@, k, v, k2);
    }
    lemma_str_insert(before.entries@, k, v, k@);
    assert(raw_map_view(after) =~= raw_map_view(before).insert(k@, v));
}

} // verus!
