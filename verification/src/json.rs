//! A JSON document tree, as the story data and character flags hold it, and the
//! flag-path update that impacts perform on it.

use vstd::prelude::*;
use crate::keyed::{first_index, entry_keys, find_key, lemma_first_index, lemma_first_index_unique};
use crate::text::views;

verus! {

/// A JSON value. Numbers keep the text they were written with.
#[derive(Debug, PartialEq)]
pub enum JsonValue {
    Null,
    Bool(bool),
    Number(String),
    Str(String),
    Array(Vec<JsonValue>),
    Object(Vec<(String, JsonValue)>),
}

/// The mathematical content of a `JsonValue`.
pub enum JsonView {
    Null,
    Bool(bool),
    Number(Seq<char>),
    Str(Seq<char>),
    Array(Seq<JsonView>),
    Object(Seq<(Seq<char>, JsonView)>),
}

/// The view of a JSON value.
pub open spec fn json_view(j: JsonValue) -> JsonView
    decreases j,
{
    match j {
        JsonValue::Null => JsonView::Null,
        JsonValue::Bool(b) => JsonView::Bool(b),
        JsonValue::Number(s) => JsonView::Number(s@),
        JsonValue::Str(s) => JsonView::Str(s@),
        JsonValue::Array(v) => JsonView::Array(array_view(v@)),
        JsonValue::Object(es) => JsonView::Object(object_view(es@)),
    }
}

/// The views of the items of an array.
pub open spec fn array_view(v: Seq<JsonValue>) -> Seq<JsonView>
    decreases v,
{
    if v.len() == 0 {
        Seq::<JsonView>::empty()
    } else {
        array_view(v.drop_last()).push(json_view(v.last()))
    }
}

/// The views of the entries of an object.
pub open spec fn object_view(es: Seq<(String, JsonValue)>) -> Seq<(Seq<char>, JsonView)>
    decreases es,
{
    if es.len() == 0 {
        Seq::<(Seq<char>, JsonView)>::empty()
    } else {
        object_view(es.drop_last()).push((es.last().0@, json_view(es.last().1)))
    }
}

impl View for JsonValue {
    type V = JsonView;

    open spec fn view(&self) -> JsonView {
        json_view(*self)
    }
}

/// Item-wise description of `array_view`.
pub proof fn lemma_array_view(v: Seq<JsonValue>)
    ensures
        array_view(v).len() == v.len(),
        forall|i: int| 0 <= i < v.len() ==> #[trigger] array_view(v)[i] == json_view(v[i]),
    decreases v.len(),
{
    if v.len() > 0 {
        lemma_array_view(v.drop_last());
    }
}

/// Entry-wise description of `object_view`.
pub proof fn lemma_object_view(es: Seq<(String, JsonValue)>)
    ensures
        object_view(es).len() == es.len(),
        forall|i: int|
            0 <= i < es.len() ==> #[trigger] object_view(es)[i] == (es[i].0@, json_view(es[i].1)),
        view_keys(object_view(es)) == entry_keys(es),
    decreases es.len(),
{
    if es.len() > 0 {
        lemma_object_view(es.drop_last());
    }
    assert(view_keys(object_view(es)) =~= entry_keys(es));
}

/// The keys of object entries.
pub open spec fn view_keys(es: Seq<(Seq<char>, JsonView)>) -> Seq<Seq<char>> {
    es.map_values(|e: (Seq<char>, JsonView)| e.0)
}

/// The value under key `k` in object entries: the first entry with that key.
pub open spec fn obj_get(es: Seq<(Seq<char>, JsonView)>, k: Seq<char>) -> Option<JsonView> {
    let i = first_index(view_keys(es), k);
    if i >= 0 {
        Some(es[i].1)
    } else {
        None
    }
}

/// Object entries after `map.insert(k, v)`: the first entry with key `k` gets
/// value `v` in place, or a new entry goes at the end.
pub open spec fn obj_insert(es: Seq<(Seq<char>, JsonView)>, k: Seq<char>, v: JsonView) -> Seq<
    (Seq<char>, JsonView),
> {
    let i = first_index(view_keys(es), k);
    if i >= 0 {
        es.update(i, (k, v))
    } else {
        es.push((k, v))
    }
}

/// A JSON value after setting the flag at `path` to `v`: every key but the last
/// names an object (one that is missing, or holds a non-object, becomes an empty
/// object), and the last key receives `v`. Where the value at hand is not an
/// object, nothing changes.
pub open spec fn set_path(j: JsonView, path: Seq<Seq<char>>, v: JsonView) -> JsonView
    decreases path.len(),
{
    if path.len() == 0 {
        j
    } else {
        match j {
            JsonView::Object(es) => {
                if path.len() == 1 {
                    JsonView::Object(obj_insert(es, path[0], v))
                } else {
                    let child = match obj_get(es, path[0]) {
                        Some(c) => if c is Object {
                            c
                        } else {
                            JsonView::Object(Seq::empty())
                        },
                        None => JsonView::Object(Seq::empty()),
                    };
                    JsonView::Object(obj_insert(es, path[0], set_path(child, path.drop_first(), v)))
                }
            },
            _ => j,
        }
    }
}

/// The value found by following `path` through nested objects.
pub open spec fn get_path(j: JsonView, path: Seq<Seq<char>>) -> Option<JsonView>
    decreases path.len(),
{
    if path.len() == 0 {
        Some(j)
    } else {
        match j {
            JsonView::Object(es) => match obj_get(es, path[0]) {
                Some(c) => get_path(c, path.drop_first()),
                None => None,
            },
            _ => None,
        }
    }
}

/// After inserting `k`, looking `k` up gives the inserted value, and every other
/// key gives what it gave before.
pub proof fn lemma_obj_insert_get(es: Seq<(Seq<char>, JsonView)>, k: Seq<char>, v: JsonView, k2: Seq<char>)
    ensures
        obj_get(obj_insert(es, k, v), k) == Some(v),
        k2 != k ==> obj_get(obj_insert(es, k, v), k2) == obj_get(es, k2),
{
    let ks = view_keys(es);
    let ins = obj_insert(es, k, v);
    let ks2 = view_keys(ins);
    lemma_first_index(ks, k);
    lemma_first_index(ks, k2);
    let i = first_index(ks, k);
    if i >= 0 {
        assert(ks2 =~= ks);
    } else {
        assert(ks2 =~= ks.push(k));
        assert(!ks.contains(k));
        lemma_first_index_unique(ks2, k, ks.len() as int);
        if k2 != k {
            lemma_first_index(ks2, k2);
            if ks.contains(k2) {
                let j = first_index(ks, k2);
                lemma_first_index_unique(ks2, k2, j);
            } else {
                assert(!ks2.contains(k2)) by {
                    if ks2.contains(k2) {
                        let w = choose|w: int| 0 <= w < ks2.len() && ks2[w] == k2;
                        assert(ks[w] == k2);
                    }
                }
            }
        }
    }
}

/// Setting a flag leaves an object an object.
pub proof fn lemma_set_path_object(j: JsonView, path: Seq<Seq<char>>, v: JsonView)
    requires
        j is Object,
    ensures
        set_path(j, path, v) is Object,
{
}

/// A flag that was set reads back as the value written (the root being an object
/// and the path not empty).
pub proof fn lemma_get_after_set(j: JsonView, path: Seq<Seq<char>>, v: JsonView)
    requires
        j is Object,
        path.len() >= 1,
    ensures
        get_path(set_path(j, path, v), path) == Some(v),
    decreases path.len(),
{
    let es = j->Object_0;
    if path.len() == 1 {
        lemma_obj_insert_get(es, path[0], v, path[0]);
        assert(get_path(v, path.drop_first()) == Some(v));
    } else {
        let child = match obj_get(es, path[0]) {
            Some(c) => if c is Object {
                c
            } else {
                JsonView::Object(Seq::empty())
            },
            None => JsonView::Object(Seq::empty()),
        };
        lemma_get_after_set(child, path.drop_first(), v);
        let new_child = set_path(child, path.drop_first(), v);
        lemma_obj_insert_get(es, path[0], new_child, path[0]);
        assert(set_path(j, path, v) == JsonView::Object(obj_insert(es, path[0], new_child)));
    }
}

/// A copy of `j` with the same view.
pub fn copy_json(j: &JsonValue) -> (r: JsonValue)
    ensures
        r@ == j@,
    decreases j,
{
    match j {
        JsonValue::Null => JsonValue::Null,
        JsonValue::Bool(b) => JsonValue::Bool(*b),
        JsonValue::Number(s) => JsonValue::Number(s.clone()),
        JsonValue::Str(s) => JsonValue::Str(s.clone()),
        JsonValue::Array(items) => {
            let mut out: Vec<JsonValue> = Vec::new();
            let mut i: usize = 0;
            while i < items.len()
                invariant
                    *j == JsonValue::Array(*items),
                    0 <= i <= items.len(),
                    out@.len() == i,
                    array_view(out@) == array_view(items@.subrange(0, i as int)),
                decreases items.len() - i,
            {
                proof {
                    assert(decreases_to!(*j => (*j)->Array_0));
                    assert(decreases_to!(*items => items@));
                    assert(decreases_to!(items@ => items@[i as int]));
                    assert(decreases_to!(*j => items@[i as int]));
                }
                let c = copy_json(&items[i]);
                let ghost before = out@;
                out.push(c);
                assert(out@.drop_last() == before);
                assert(items@.subrange(0, i + 1).drop_last() =~= items@.subrange(0, i as int));
                i = i + 1;
            }
            assert(items@.subrange(0, items.len() as int) =~= items@);
            JsonValue::Array(out)
        },
        JsonValue::Object(es) => {
            let mut out: Vec<(String, JsonValue)> = Vec::new();
            let mut i: usize = 0;
            while i < es.len()
                invariant
                    *j == JsonValue::Object(*es),
                    0 <= i <= es.len(),
                    out@.len() == i,
                    object_view(out@) == object_view(es@.subrange(0, i as int)),
                decreases es.len() - i,
            {
                let k = es[i].0.clone();
                proof {
                    assert(decreases_to!(*j => (*j)->Object_0));
                    assert(decreases_to!(*es => es@));
                    assert(decreases_to!(es@ => es@[i as int]));
                    assert(decreases_to!(es@[i as int] => es@[i as int].1));
                    assert(decreases_to!(*j => es@[i as int].1));
                }
                let c = copy_json(&es[i].1);
                let ghost before = out@;
                out.push((k, c));
                assert(out@.drop_last() == before);
                assert(es@.subrange(0, i + 1).drop_last() =~= es@.subrange(0, i as int));
                i = i + 1;
            }
            assert(es@.subrange(0, es.len() as int) =~= es@);
            JsonValue::Object(out)
        },
    }
}

} // verus!

verus! {

/// Sets key `k` of object entries to `v`, as `Map::insert` does.
pub fn object_insert(es: &mut Vec<(String, JsonValue)>, k: String, v: JsonValue)
    ensures
        object_view(final(es)@) == obj_insert(object_view(old(es)@), k@, v@),
{
    proof {
        lemma_object_view(es@);
    }
    let ghost kv = k@;
    let ghost vv = v@;
    match find_key(es, k.as_str()) {
        Some(i) => {
            es.set(i, (k, v));
            proof {
                lemma_object_view(es@);
                assert(object_view(es@) =~= object_view(old(es)@).update(i as int, (kv, vv)));
            }
        },
        None => {
            es.push((k, v));
            proof {
                lemma_object_view(es@);
                assert(object_view(es@) =~= object_view(old(es)@).push((kv, vv)));
            }
        },
    }
}

/// Follows `path` from position `idx` on and sets the flag there (see `set_path`).
fn set_path_from(node: JsonValue, path: &Vec<String>, idx: usize, value: JsonValue) -> (r:
    JsonValue)
    requires
        idx <= path.len(),
        path.len() - idx >= 2 ==> node is Object,
    ensures
        r@ == set_path(node@, views(path@).subrange(idx as int, path.len() as int), value@),
    decreases path.len() - idx,
{
    let ghost rest = views(path@).subrange(idx as int, path.len() as int);
    if idx >= path.len() {
        assert(rest.len() == 0);
        return node;
    }
    assert(rest[0] == path@[idx as int]@);
    match node {
        JsonValue::Object(mut es) => {
            let ghost es0 = object_view(es@);
            if idx + 1 == path.len() {
                object_insert(&mut es, path[idx].clone(), value);
                JsonValue::Object(es)
            } else {
                proof {
                    lemma_object_view(es@);
                }
                let child: JsonValue = match find_key(&es, path[idx].as_str()) {
                    Some(i) => {
                        assert(object_view(es@)[i as int] == (es@[i as int].0@, json_view(es@[i as int].1)));
                        match &es[i].1 {
                            JsonValue::Object(_) => copy_json(&es[i].1),
                            _ => JsonValue::Object(Vec::new()),
                        }
                    },
                    None => JsonValue::Object(Vec::new()),
                };
                assert(object_view(Seq::<(String, JsonValue)>::empty()) =~= Seq::<(Seq<char>, JsonView)>::empty());
                let ghost expected_child = match obj_get(es0, rest[0]) {
                    Some(c) => if c is Object {
                        c
                    } else {
                        JsonView::Object(Seq::empty())
                    },
                    None => JsonView::Object(Seq::empty()),
                };
                assert(child@ == expected_child);
                let new_child = set_path_from(child, path, idx + 1, value);
                assert(views(path@).subrange(idx + 1, path.len() as int) =~= rest.drop_first());
                object_insert(&mut es, path[idx].clone(), new_child);
                JsonValue::Object(es)
            }
        },
        other => other,
    }
}

/// Sets the flag at `path` inside `root` to `value`: keys on the way that are
/// missing, or hold something other than an object, become empty objects.
/// An empty path changes nothing; a root that is not an object is left alone
/// by a one-key path (a longer path needs an object root).
pub fn set_flag_path(root: &mut JsonValue, path: &Vec<String>, value: JsonValue)
    requires
        path.len() >= 2 ==> *old(root) is Object,
    ensures
        final(root)@ == set_path(old(root)@, views(path@), value@),
{
    let mut taken = JsonValue::Null;
    core::mem::swap(root, &mut taken);
    let updated = set_path_from(taken, path, 0, value);
    assert(views(path@).subrange(0, path.len() as int) =~= views(path@));
    *root = updated;
}

} // verus!

verus! {

impl Clone for JsonValue {
    fn clone(&self) -> (r: Self)
        ensures
            r@ == self@,
    {
        copy_json(self)
    }
}

} // verus!

verus! {

/// The view of an optional JSON value.
pub open spec fn opt_json_view(o: Option<JsonValue>) -> Option<JsonView> {
    match o {
        Some(j) => Some(j@),
        None => None,
    }
}

/// A copy of an optional JSON value.
pub fn copy_opt_json(o: &Option<JsonValue>) -> (r: Option<JsonValue>)
    ensures
        opt_json_view(r) == opt_json_view(*o),
{
    match o {
        Some(j) => Some(j.clone()),
        None => None,
    }
}

} // verus!

verus! {

/// The member `k` of a JSON value: the first entry with that key of an
/// object, and nothing for any other kind of value.
pub open spec fn get_field(j: JsonView, k: Seq<char>) -> Option<JsonView> {
    match j {
        JsonView::Object(es) => obj_get(es, k),
        _ => None,
    }
}

/// The member `k` of `j`, as `serde_json::Value::get` gives it for a string key.
pub fn json_get<'a>(j: &'a JsonValue, k: &str) -> (r: Option<&'a JsonValue>)
    ensures
        match r {
            Some(x) => get_field(j@, k@) == Some(x@),
            None => get_field(j@, k@) is None,
        },
{
    match j {
        JsonValue::Object(es) => {
            proof {
                lemma_object_view(es@);
            }
            match find_key(es, k) {
                Some(i) => Some(&es[i].1),
                None => None,
            }
        },
        _ => None,
    }
}

} // verus!
