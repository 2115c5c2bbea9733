//! The execution context: the JSON-shaped state threaded through one
//! top-level action invocation.

use vstd::prelude::*;
use crate::json::{entries_view, lemma_json_view_shape, JsonValue, JsonView};

verus! {

/// The state of one interpretation: externally-read collection data, the
/// request body, the acting user, and the scratch workspace. Only `temp` is
/// directly mutable by assignment steps; `body` and `user` never change for
/// the life of one invocation.
#[derive(Debug)]
pub struct Context {
    pub data: serde_json::Value,
    pub body: serde_json::Value,
    pub user: serde_json::Value,
    pub temp: JsonValue,
}

impl Context {
    /// A fresh context: the given data, body and user, and an empty scratch
    /// workspace.
    pub fn new(data: serde_json::Value, body: serde_json::Value, user: serde_json::Value) -> (r:
        Context)
        ensures
            r.data == data,
            r.body == body,
            r.user == user,
            r.temp@ == JsonView::empty_object(),
    {
        broadcast use lemma_json_view_shape;

        let temp_entries: Vec<(String, JsonValue)> = Vec::new();
        let c = Context { data, body, user, temp: JsonValue::Obj(temp_entries) };
        proof {
            assert(entries_view(Seq::<(String, JsonValue)>::empty())
                =~= Seq::<(Seq<char>, JsonView)>::empty());
        }
        c
    }
}

/// What a successful composition return does to the caller's context: `data`
/// and `temp` are replaced entirely by the composed run's values — no
/// field-level merge — while `body` and `user` stay the caller's own.
pub open spec fn merge_spec(caller: Context, sub: Context) -> Context {
    Context { data: sub.data, body: caller.body, user: caller.user, temp: sub.temp }
}

/// Merge a composed run's result back into the caller's context, exactly as
/// `merge_spec` describes.
pub fn merge_composition(caller: Context, sub: Context) -> (r: Context)
    ensures
        r == merge_spec(caller, sub),
        r.data == sub.data,
        r.temp == sub.temp,
        r.body == caller.body,
        r.user == caller.user,
{
    Context { data: sub.data, body: caller.body, user: caller.user, temp: sub.temp }
}

/// Law: when a composed program returns with an untouched workspace — the
/// fresh, empty object every composed invocation starts from — the caller's
/// workspace after the merge is that empty object, whatever the caller had
/// accumulated in it before the call.
pub proof fn lemma_composition_overwrites_workspace(caller: Context, sub: Context)
    requires
        sub.temp@ == JsonView::empty_object(),
    ensures
        merge_spec(caller, sub).temp@ == JsonView::empty_object(),
{
}

} // verus!
