//! The JSON value model: the shape of the execution context's state, with the
//! spec-level operations (key lookup, upsert, nested get and set) that the
//! path resolver and the interpreter contracts are stated over.

use vstd::prelude::*;

verus! {

/// A JSON value as the interpreter sees it. Numbers that fit `i64` are held
/// exactly; any other number keeps its decimal text in `Num`.
#[derive(Debug, PartialEq, Eq)]
pub enum JsonValue {
    Null,
    Bool(bool),
    Int(i64),
    Num(String),
    Str(String),
    Arr(Vec<JsonValue>),
    Obj(Vec<(String, JsonValue)>),
}

/// The mathematical model of a `JsonValue`.
pub enum JsonView {
    Null,
    Bool(bool),
    Int(int),
    Num(Seq<char>),
    Str(Seq<char>),
    Arr(Seq<JsonView>),
    Obj(Seq<(Seq<char>, JsonView)>),
}

pub closed spec fn json_view(v: JsonValue) -> JsonView
    decreases v,
    via json_view_decreases
{
    match v {
        JsonValue::Null => JsonView::Null,
        JsonValue::Bool(b) => JsonView::Bool(b),
        JsonValue::Int(i) => JsonView::Int(i as int),
        JsonValue::Num(s) => JsonView::Num(s@),
        JsonValue::Str(s) => JsonView::Str(s@),
        JsonValue::Arr(items) => JsonView::Arr(
            Seq::new(
                items@.len(),
                |i: int|
                    if 0 <= i < items@.len() {
                        json_view(items[i])
                    } else {
                        JsonView::Null
                    },
            ),
        ),
        JsonValue::Obj(entries) => JsonView::Obj(
            Seq::new(
                entries@.len(),
                |i: int|
                    if 0 <= i < entries@.len() {
                        (entries[i].0@, json_view(entries[i].1))
                    } else {
                        (Seq::empty(), JsonView::Null)
                    },
            ),
        ),
    }
}

#[via_fn]
proof fn json_view_decreases(v: JsonValue) {
    match v {
        JsonValue::Arr(items) => {
            assert forall|i: int| 0 <= i < items@.len() implies decreases_to!(v => items[i]) by {
                assert(decreases_to!(v => items));
                vstd::std_specs::vec::axiom_vec_index_decreases(items, i);
            }
        },
        JsonValue::Obj(entries) => {
            assert forall|i: int|
                0 <= i < entries@.len() implies decreases_to!(v => entries[i].1) by {
                assert(decreases_to!(v => entries));
                vstd::std_specs::vec::axiom_vec_index_decreases(entries, i);
                assert(decreases_to!(entries[i] => entries[i].1));
            }
        },
        _ => {},
    }
}

impl View for JsonValue {
    type V = JsonView;

    open spec fn view(&self) -> JsonView {
        json_view(*self)
    }
}

impl JsonView {
    /// The canonical empty workspace: a JSON object with no keys.
    pub open spec fn empty_object() -> JsonView {
        JsonView::Obj(Seq::empty())
    }
}

/// The value of key `k` among `es`: the first entry with that key, if any.
pub open spec fn obj_lookup(es: Seq<(Seq<char>, JsonView)>, k: Seq<char>) -> Option<JsonView>
    decreases es.len(),
{
    if es.len() == 0 {
        Option::None
    } else if es[0].0 == k {
        Option::Some(es[0].1)
    } else {
        obj_lookup(es.drop_first(), k)
    }
}

/// `es` with key `k` bound to `v`: the first entry with key `k` is replaced in
/// place; if there is none, a new entry is appended.
pub open spec fn obj_upsert(
    es: Seq<(Seq<char>, JsonView)>,
    k: Seq<char>,
    v: JsonView,
) -> Seq<(Seq<char>, JsonView)>
    decreases es.len(),
{
    if es.len() == 0 {
        seq![(k, v)]
    } else if es[0].0 == k {
        seq![(k, v)] + es.drop_first()
    } else {
        seq![es[0]] + obj_upsert(es.drop_first(), k, v)
    }
}

/// The value reached from `t` by descending through the keys of `segs`.
pub open spec fn get_in(t: JsonView, segs: Seq<Seq<char>>) -> Option<JsonView>
    decreases segs.len(),
{
    if segs.len() == 0 {
        Option::Some(t)
    } else {
        match t {
            JsonView::Obj(es) => match obj_lookup(es, segs[0]) {
                Option::Some(c) => get_in(c, segs.drop_first()),
                Option::None => Option::None,
            },
            _ => Option::None,
        }
    }
}

/// `t` with `v` written at the path `segs`. Every node along the path that is
/// missing or not an object is replaced by an empty object before descending:
/// the write always lands, destructively if need be.
pub open spec fn set_in(t: JsonView, segs: Seq<Seq<char>>, v: JsonView) -> JsonView
    decreases segs.len(),
{
    if segs.len() == 0 {
        t
    } else {
        let es = match t {
            JsonView::Obj(es) => es,
            _ => Seq::empty(),
        };
        if segs.len() == 1 {
            JsonView::Obj(obj_upsert(es, segs[0], v))
        } else {
            let child = match obj_lookup(es, segs[0]) {
                Option::Some(c) => if c is Obj {
                    c
                } else {
                    JsonView::empty_object()
                },
                Option::None => JsonView::empty_object(),
            };
            JsonView::Obj(obj_upsert(es, segs[0], set_in(child, segs.drop_first(), v)))
        }
    }
}

pub proof fn lemma_upsert_lookup(es: Seq<(Seq<char>, JsonView)>, k: Seq<char>, v: JsonView)
    ensures
        obj_lookup(obj_upsert(es, k, v), k) == Option::Some(v),
    decreases es.len(),
{
    if es.len() == 0 {
    } else if es[0].0 == k {
    } else {
        lemma_upsert_lookup(es.drop_first(), k, v);
        assert((seq![es[0]] + obj_upsert(es.drop_first(), k, v)).drop_first() =~= obj_upsert(
            es.drop_first(),
            k,
            v,
        ));
    }
}

/// The views of a sequence of JSON array elements.
pub open spec fn items_view(s: Seq<JsonValue>) -> Seq<JsonView> {
    Seq::new(s.len(), |i: int| json_view(s[i]))
}

/// The views of a sequence of JSON object entries.
pub open spec fn entries_view(es: Seq<(String, JsonValue)>) -> Seq<(Seq<char>, JsonView)> {
    Seq::new(es.len(), |i: int| (es[i].0@, json_view(es[i].1)))
}

/// How `json_view` acts on each constructor.
pub broadcast proof fn lemma_json_view_shape(v: JsonValue)
    ensures
        #[trigger] json_view(v) == match v {
            JsonValue::Null => JsonView::Null,
            JsonValue::Bool(b) => JsonView::Bool(b),
            JsonValue::Int(i) => JsonView::Int(i as int),
            JsonValue::Num(s) => JsonView::Num(s@),
            JsonValue::Str(s) => JsonView::Str(s@),
            JsonValue::Arr(items) => JsonView::Arr(items_view(items@)),
            JsonValue::Obj(entries) => JsonView::Obj(entries_view(entries@)),
        },
{
    match v {
        JsonValue::Arr(items) => {
            assert(json_view(v) is Arr);
            let inner = json_view(v)->Arr_0;
            assert(inner =~= items_view(items@));
            assert(json_view(v) == JsonView::Arr(inner));
        },
        JsonValue::Obj(entries) => {
            assert(json_view(v) is Obj);
            let inner = json_view(v)->Obj_0;
            assert(inner =~= entries_view(entries@));
            assert(json_view(v) == JsonView::Obj(inner));
        },
        _ => {},
    }
}

pub proof fn lemma_obj_lookup_found(es: Seq<(Seq<char>, JsonView)>, k: Seq<char>, idx: int)
    requires
        0 <= idx < es.len(),
        es[idx].0 == k,
        forall|j: int| 0 <= j < idx ==> es[j].0 != k,
    ensures
        obj_lookup(es, k) == Option::Some(es[idx].1),
    decreases idx,
{
    if idx == 0 {
    } else {
        lemma_obj_lookup_found(es.drop_first(), k, idx - 1);
    }
}

pub proof fn lemma_obj_lookup_absent(es: Seq<(Seq<char>, JsonView)>, k: Seq<char>)
    requires
        forall|j: int| 0 <= j < es.len() ==> es[j].0 != k,
    ensures
        obj_lookup(es, k) is None,
    decreases es.len(),
{
    if es.len() > 0 {
        lemma_obj_lookup_absent(es.drop_first(), k);
    }
}

pub proof fn lemma_obj_upsert_found(
    es: Seq<(Seq<char>, JsonView)>,
    k: Seq<char>,
    v: JsonView,
    idx: int,
)
    requires
        0 <= idx < es.len(),
        es[idx].0 == k,
        forall|j: int| 0 <= j < idx ==> es[j].0 != k,
    ensures
        obj_upsert(es, k, v) == es.update(idx, (k, v)),
    decreases idx,
{
    if idx == 0 {
        assert(seq![(k, v)] + es.drop_first() =~= es.update(0, (k, v)));
    } else {
        lemma_obj_upsert_found(es.drop_first(), k, v, idx - 1);
        assert(seq![es[0]] + es.drop_first().update(idx - 1, (k, v)) =~= es.update(idx, (k, v)));
    }
}

pub proof fn lemma_obj_upsert_absent(es: Seq<(Seq<char>, JsonView)>, k: Seq<char>, v: JsonView)
    requires
        forall|j: int| 0 <= j < es.len() ==> es[j].0 != k,
    ensures
        obj_upsert(es, k, v) == es.push((k, v)),
    decreases es.len(),
{
    if es.len() == 0 {
        assert(seq![(k, v)] =~= es.push((k, v)));
    } else {
        lemma_obj_upsert_absent(es.drop_first(), k, v);
        assert(seq![es[0]] + es.drop_first().push((k, v)) =~= es.push((k, v)));
    }
}

/// Writing a value at a path, then reading that same path, yields the value
/// back: this holds for every workspace, every non-empty key path and every
/// value, because the write vivifies whatever stands in its way.
pub proof fn lemma_set_then_get(t: JsonView, segs: Seq<Seq<char>>, v: JsonView)
    requires
        segs.len() >= 1,
    ensures
        get_in(set_in(t, segs, v), segs) == Option::Some(v),
    decreases segs.len(),
{
    let es = match t {
        JsonView::Obj(es0) => es0,
        _ => Seq::<(Seq<char>, JsonView)>::empty(),
    };
    if segs.len() == 1 {
        lemma_upsert_lookup(es, segs[0], v);
        let w = set_in(t, segs, v);
        assert(w == JsonView::Obj(obj_upsert(es, segs[0], v)));
        assert(obj_lookup(obj_upsert(es, segs[0], v), segs[0]) == Option::Some(v));
        assert(segs.drop_first().len() == 0);
        assert(get_in(v, segs.drop_first()) == Option::Some(v));
        assert(get_in(w, segs) == Option::Some(v));
    } else {
        let child = match obj_lookup(es, segs[0]) {
            Option::Some(c) => if c is Obj {
                c
            } else {
                JsonView::empty_object()
            },
            Option::None => JsonView::empty_object(),
        };
        let sub = set_in(child, segs.drop_first(), v);
        lemma_upsert_lookup(es, segs[0], sub);
        lemma_set_then_get(child, segs.drop_first(), v);
        let w = set_in(t, segs, v);
        assert(w == JsonView::Obj(obj_upsert(es, segs[0], sub)));
        assert(obj_lookup(obj_upsert(es, segs[0], sub), segs[0]) == Option::Some(sub));
        assert(get_in(sub, segs.drop_first()) == Option::Some(v));
        assert(get_in(w, segs) == Option::Some(v));
    }
}

/// The position of the first entry whose key is `k`, if any.
pub fn find_key(es: &Vec<(String, JsonValue)>, k: &String) -> (r: Option<usize>)
    ensures
        match r {
            Option::Some(idx) => 0 <= idx < es@.len() && es@[idx as int].0@ == k@ && (forall|
                j: int,
            |
                0 <= j < idx ==> es@[j].0@ != k@),
            Option::None => forall|j: int| 0 <= j < es@.len() ==> es@[j].0@ != k@,
        },
{
    let mut idx: usize = 0;
    while idx < es.len()
        invariant
            0 <= idx <= es@.len(),
            forall|j: int| 0 <= j < idx ==> es@[j].0@ != k@,
        decreases es@.len() - idx,
    {
        if es[idx].0 == *k {
            return Option::Some(idx);
        }
        idx = idx + 1;
    }
    Option::None
}

/// Bind key `k` to `v` among `es`: replace the first entry with that key in
/// place, or append a new entry.
pub fn upsert_entry(es: &mut Vec<(String, JsonValue)>, k: String, v: JsonValue)
    ensures
        entries_view(final(es)@) == obj_upsert(entries_view(old(es)@), k@, json_view(v)),
{
    let ghost es0 = entries_view(old(es)@);
    match find_key(es, &k) {
        Option::Some(idx) => {
            proof {
                lemma_obj_upsert_found(es0, k@, json_view(v), idx as int);
            }
            es.remove(idx);
            es.insert(idx, (k, v));
            proof {
                assert(entries_view(es@) =~= es0.update(idx as int, (k@, json_view(v))));
            }
        },
        Option::None => {
            proof {
                lemma_obj_upsert_absent(es0, k@, json_view(v));
            }
            es.push((k, v));
            proof {
                assert(entries_view(es@) =~= es0.push((k@, json_view(v))));
            }
        },
    }
}

/// The key path that a sequence of segment strings stands for.
pub open spec fn segs_view(segs: Seq<String>) -> Seq<Seq<char>> {
    segs.map_values(|s: String| s@)
}

/// Write `value` at the key path `segs[i..]` under `t`, vivifying along the
/// way, exactly as `set_in` describes.
pub fn set_segments(t: JsonValue, segs: &Vec<String>, i: usize, value: JsonValue) -> (r: JsonValue)
    requires
        i < segs@.len(),
    ensures
        json_view(r) == set_in(json_view(t), segs_view(segs@).skip(i as int), json_view(value)),
    decreases segs@.len() - i,
{
    broadcast use lemma_json_view_shape;

    let ghost t0 = json_view(t);
    let ghost path = segs_view(segs@).skip(i as int);
    let mut es: Vec<(String, JsonValue)> = match t {
        JsonValue::Obj(es0) => es0,
        _ => Vec::new(),
    };
    let ghost esv = entries_view(es@);
    proof {
        assert(path.len() >= 1);
        assert(path[0] == segs@[i as int]@);
        if !(t0 is Obj) {
            assert(esv =~= Seq::<(Seq<char>, JsonView)>::empty());
        }
    }
    let n = segs.len();
    if i + 1 == n {
        upsert_entry(&mut es, segs[i].clone(), value);
        proof {
            assert(path.len() == 1);
        }
        JsonValue::Obj(es)
    } else {
        proof {
            assert(path.len() >= 2);
            assert(path.skip(1) =~= segs_view(segs@).skip(i + 1 as int));
        }
        match find_key(&es, &segs[i]) {
            Option::Some(idx) => {
                let ghost old_es = es@;
                let pair = es.remove(idx);
                let (k0, c0) = pair;
                proof {
                    lemma_obj_lookup_found(esv, segs@[i as int]@, idx as int);
                    assert(esv[idx as int] == (old_es[idx as int].0@, json_view(
                        old_es[idx as int].1,
                    )));
                    assert(c0 == old_es[idx as int].1);
                    assert(obj_lookup(esv, path[0]) == Option::Some(json_view(c0)));
                }
                let child = if matches!(c0, JsonValue::Obj(_)) {
                    c0
                } else {
                    let empty_entries: Vec<(String, JsonValue)> = Vec::new();
                    JsonValue::Obj(empty_entries)
                };
                proof {
                    assert(entries_view(Seq::<(String, JsonValue)>::empty())
                        =~= Seq::<(Seq<char>, JsonView)>::empty());
                    assert(json_view(child) == match obj_lookup(esv, path[0]) {
                        Option::Some(c) => if c is Obj {
                            c
                        } else {
                            JsonView::empty_object()
                        },
                        Option::None => JsonView::empty_object(),
                    });
                }
                let newchild = set_segments(child, segs, i + 1, value);
                es.insert(idx, (k0, newchild));
                proof {
                    let sub = set_in(json_view(child), path.skip(1), json_view(value));
                    lemma_obj_upsert_found(esv, path[0], sub, idx as int);
                    assert(entries_view(es@) =~= esv.update(idx as int, (path[0], sub)));
                }
                JsonValue::Obj(es)
            },
            Option::None => {
                let child = JsonValue::Obj(Vec::new());
                proof {
                    lemma_obj_lookup_absent(esv, segs@[i as int]@);
                    assert(entries_view(Seq::<(String, JsonValue)>::empty())
                        =~= Seq::<(Seq<char>, JsonView)>::empty());
                }
                let newchild = set_segments(child, segs, i + 1, value);
                let key = segs[i].clone();
                es.push((key, newchild));
                proof {
                    let sub = set_in(JsonView::empty_object(), path.skip(1), json_view(value));
                    lemma_obj_upsert_absent(esv, path[0], sub);
                    assert(entries_view(es@) =~= esv.push((path[0], sub)));
                }
                JsonValue::Obj(es)
            },
        }
    }
}

/// Read the value at the key path `segs[i..]` under `v`, exactly as `get_in`
/// describes.
pub fn get_segments<'a>(v: &'a JsonValue, segs: &Vec<String>, i: usize) -> (r: Option<
    &'a JsonValue,
>)
    requires
        i <= segs@.len(),
    ensures
        match r {
            Option::Some(c) => get_in(json_view(*v), segs_view(segs@).skip(i as int))
                == Option::Some(json_view(*c)),
            Option::None => get_in(json_view(*v), segs_view(segs@).skip(i as int)) is None,
        },
    decreases segs@.len() - i,
{
    broadcast use lemma_json_view_shape;

    let ghost path = segs_view(segs@).skip(i as int);
    if i == segs.len() {
        proof {
            assert(path.len() == 0);
        }
        return Option::Some(v);
    }
    proof {
        assert(path[0] == segs@[i as int]@);
        assert(path.skip(1) =~= segs_view(segs@).skip(i + 1 as int));
    }
    match v {
        JsonValue::Obj(es) => {
            let ghost esv = entries_view(es@);
            match find_key(es, &segs[i]) {
                Option::Some(idx) => {
                    proof {
                        lemma_obj_lookup_found(esv, segs@[i as int]@, idx as int);
                    }
                    get_segments(&es[idx].1, segs, i + 1)
                },
                Option::None => {
                    proof {
                        lemma_obj_lookup_absent(esv, segs@[i as int]@);
                    }
                    Option::None
                },
            }
        },
        _ => Option::None,
    }
}

} // verus!
