//! Converters between the interpreter's own JSON model and the outside
//! carrier type. Reading an outside tree is bounded by a depth budget; what
//! lies deeper degrades to null.

use vstd::prelude::*;
use crate::bridge::{
    value_arr_items, value_as_bool, value_as_i64, value_as_str, value_from_bool,
    value_from_entries, value_from_i64, value_from_items, value_from_number_text, value_from_str,
    value_is_null, value_null, value_number_text, value_obj_entries,
};
use crate::json::JsonValue;

verus! {

/// How deep a tree the converter follows before degrading to null.
pub const CONVERT_DEPTH: u32 = 64;

/// Read an outside JSON value into the interpreter's model, down to `fuel`
/// levels of nesting.
pub fn value_to_tree(v: &serde_json::Value, fuel: u32) -> (r: JsonValue)
    decreases fuel,
{
    if fuel == 0 {
        return JsonValue::Null;
    }
    if value_is_null(v) {
        return JsonValue::Null;
    }
    if let Option::Some(b) = value_as_bool(v) {
        return JsonValue::Bool(b);
    }
    if let Option::Some(i) = value_as_i64(v) {
        return JsonValue::Int(i);
    }
    if let Option::Some(s) = value_as_str(v) {
        return JsonValue::Str(s);
    }
    if let Option::Some(items) = value_arr_items(v) {
        let mut out: Vec<JsonValue> = Vec::new();
        let mut i: usize = 0;
        while i < items.len()
            invariant
                0 <= i <= items@.len(),
                fuel >= 1,
            decreases items@.len() - i,
        {
            let c = value_to_tree(&items[i], fuel - 1);
            out.push(c);
            i = i + 1;
        }
        return JsonValue::Arr(out);
    }
    if let Option::Some(entries) = value_obj_entries(v) {
        let mut out: Vec<(String, JsonValue)> = Vec::new();
        let mut i: usize = 0;
        while i < entries.len()
            invariant
                0 <= i <= entries@.len(),
                fuel >= 1,
            decreases entries@.len() - i,
        {
            let c = value_to_tree(&entries[i].1, fuel - 1);
            let k = entries[i].0.clone();
            out.push((k, c));
            i = i + 1;
        }
        return JsonValue::Obj(out);
    }
    JsonValue::Num(value_number_text(v))
}

/// Write a value of the interpreter's model out as an outside JSON value.
#[verifier::loop_isolation(false)]
pub fn tree_to_value(j: &JsonValue) -> (r: serde_json::Value)
    decreases *j,
{
    match j {
        JsonValue::Null => value_null(),
        JsonValue::Bool(b) => value_from_bool(*b),
        JsonValue::Int(i) => value_from_i64(*i),
        JsonValue::Num(s) => value_from_number_text(s.as_str()),
        JsonValue::Str(s) => value_from_str(s.as_str()),
        JsonValue::Arr(items) => {
            let mut out: Vec<serde_json::Value> = Vec::new();
            let mut i: usize = 0;
            while i < items.len()
                invariant
                    0 <= i <= items@.len(),
                decreases items@.len() - i,
            {
                proof {
                    assert(*items == (*j)->Arr_0);
                    assert(decreases_to!(*j => (*j)->Arr_0));
                    vstd::std_specs::vec::axiom_vec_index_decreases(*items, i as int);
                }
                let c = tree_to_value(&items[i]);
                out.push(c);
                i = i + 1;
            }
            value_from_items(out)
        },
        JsonValue::Obj(entries) => {
            let mut out: Vec<(String, serde_json::Value)> = Vec::new();
            let mut i: usize = 0;
            while i < entries.len()
                invariant
                    0 <= i <= entries@.len(),
                decreases entries@.len() - i,
            {
                proof {
                    assert(*entries == (*j)->Obj_0);
                    assert(decreases_to!(*j => (*j)->Obj_0));
                    vstd::std_specs::vec::axiom_vec_index_decreases(*entries, i as int);
                }
                let c = tree_to_value(&entries[i].1);
                let k = entries[i].0.clone();
                out.push((k, c));
                i = i + 1;
            }
            value_from_entries(out)
        },
    }
}

} // verus!
