//! The trusted bridge to the outside crates: the sandboxed scripting
//! evaluator (rhai) and the JSON carrier type (serde_json). Every item here
//! either declares an outside type or wraps one outside call; nothing else in
//! the crate touches those crates directly.

use vstd::prelude::*;
use crate::errors::EvalFailure;

verus! {

#[verifier::external_type_specification]
#[verifier::external_body]
pub struct ExValue(serde_json::Value);

#[verifier::external_type_specification]
#[verifier::external_body]
pub struct ExEngine(rhai::Engine);

#[verifier::external_type_specification]
#[verifier::external_body]
pub struct ExDynamic(rhai::Dynamic);

#[verifier::external_type_specification]
#[verifier::external_body]
pub struct ExEvalAltResult(rhai::EvalAltResult);

/// Relies on `serde_json::Value::clone` (a derived `Clone`): an equal value
/// comes back.
#[verifier::external_body]
pub(crate) fn value_clone(v: &serde_json::Value) -> (r: serde_json::Value)
    ensures
        r == *v,
{
    v.clone()
}

/// Relies on `serde_json::Value::is_null`.
#[verifier::external_body]
pub(crate) fn value_is_null(v: &serde_json::Value) -> (r: bool) {
    v.is_null()
}

/// Relies on `serde_json::Value::as_bool`.
#[verifier::external_body]
pub(crate) fn value_as_bool(v: &serde_json::Value) -> (r: Option<bool>) {
    v.as_bool()
}

/// Relies on `serde_json::Value::as_i64`.
#[verifier::external_body]
pub(crate) fn value_as_i64(v: &serde_json::Value) -> (r: Option<i64>) {
    v.as_i64()
}

/// Relies on `serde_json::Value::as_str`; the borrowed text is copied out.
#[verifier::external_body]
pub(crate) fn value_as_str(v: &serde_json::Value) -> (r: Option<String>) {
    v.as_str().map(|s| s.to_owned())
}

/// Relies on `serde_json::Value::as_array`; the elements are copied out.
#[verifier::external_body]
pub(crate) fn value_arr_items(v: &serde_json::Value) -> (r: Option<Vec<serde_json::Value>>) {
    v.as_array().cloned()
}

/// Relies on `serde_json::Value::as_object`; the entries are copied out in
/// the map's iteration order.
#[verifier::external_body]
pub(crate) fn value_obj_entries(v: &serde_json::Value) -> (r: Option<
    Vec<(String, serde_json::Value)>,
>) {
    v.as_object().map(|m| m.iter().map(|(k, x)| (k.clone(), x.clone())).collect())
}

/// Relies on `serde_json::Value`'s `Display`: the JSON text of the value;
/// for a number, its literal.
#[verifier::external_body]
pub(crate) fn value_number_text(v: &serde_json::Value) -> (r: String) {
    v.to_string()
}

/// Relies on `serde_json::Value::Null`.
#[verifier::external_body]
pub(crate) fn value_null() -> (r: serde_json::Value) {
    serde_json::Value::Null
}

/// Relies on `serde_json::Value::Bool`.
#[verifier::external_body]
pub(crate) fn value_from_bool(b: bool) -> (r: serde_json::Value) {
    serde_json::Value::Bool(b)
}

/// Relies on `serde_json::Value::from` for `i64`.
#[verifier::external_body]
pub(crate) fn value_from_i64(i: i64) -> (r: serde_json::Value) {
    serde_json::Value::from(i)
}

/// Relies on `serde_json::Value::String`.
#[verifier::external_body]
pub(crate) fn value_from_str(s: &str) -> (r: serde_json::Value) {
    serde_json::Value::String(s.to_owned())
}

/// Relies on `serde_json::Number`'s `FromStr`: the number written in `s`,
/// or JSON null where `s` is no number literal.
#[verifier::external_body]
pub(crate) fn value_from_number_text(s: &str) -> (r: serde_json::Value) {
    serde_json::from_str::<serde_json::Number>(s).map(serde_json::Value::Number).unwrap_or(
        serde_json::Value::Null,
    )
}

/// Relies on `serde_json::Value::Array`.
#[verifier::external_body]
pub(crate) fn value_from_items(items: Vec<serde_json::Value>) -> (r: serde_json::Value) {
    serde_json::Value::Array(items)
}

/// Relies on `serde_json::Value::Object`; entries collect in key order, a
/// later duplicate key replacing an earlier one.
#[verifier::external_body]
pub(crate) fn value_from_entries(es: Vec<(String, serde_json::Value)>) -> (r: serde_json::Value) {
    serde_json::Value::Object(es.into_iter().collect())
}

/// Relies on rhai's `Engine::new` and its `set_max_operations`,
/// `set_max_call_levels` and `set_max_string_size` setters: an engine whose
/// every later evaluation is bounded by the given ceilings.
#[verifier::external_body]
pub(crate) fn engine_with_limits(max_ops: u64, max_call_levels: usize, max_string: usize) -> (r:
    rhai::Engine) {
    let mut e = rhai::Engine::new();
    e.set_max_operations(max_ops);
    e.set_max_call_levels(max_call_levels);
    e.set_max_string_size(max_string);
    e
}

/// Relies on `rhai::serde::to_dynamic`: the same JSON value as an evaluator
/// value; an inconvertible value becomes the evaluator's unit value.
#[verifier::external_body]
pub(crate) fn value_to_dynamic(v: &serde_json::Value) -> (r: rhai::Dynamic) {
    rhai::serde::to_dynamic(v).unwrap_or(rhai::Dynamic::UNIT)
}

/// Relies on `serde_json::to_value` applied to an evaluator value: the
/// result as JSON; an inconvertible result becomes JSON null.
#[verifier::external_body]
pub(crate) fn dynamic_to_value(d: &rhai::Dynamic) -> (r: serde_json::Value) {
    serde_json::to_value(d).unwrap_or(serde_json::Value::Null)
}

/// Relies on rhai's `Scope` and `Engine::eval_with_scope`: evaluates `expr`
/// with `data`, `body` and `user` as immutable bindings and the workspace as
/// the one mutable binding `context`, and hands back the raw result together
/// with the final value of the `context` binding.
#[verifier::external_body]
pub(crate) fn eval_raw(
    engine: &rhai::Engine,
    data: &serde_json::Value,
    body: &serde_json::Value,
    user: &serde_json::Value,
    temp: &serde_json::Value,
    expr: &str,
) -> (r: Result<(serde_json::Value, serde_json::Value), Box<rhai::EvalAltResult>>) {
    let mut scope = rhai::Scope::new();
    scope.push_constant("data", value_to_dynamic(data));
    scope.push_constant("body", value_to_dynamic(body));
    scope.push_constant("user", value_to_dynamic(user));
    scope.push("context", value_to_dynamic(temp));
    let out = engine.eval_with_scope::<rhai::Dynamic>(&mut scope, expr)?;
    let after = scope.get_value::<rhai::Dynamic>("context").map_or(
        serde_json::Value::Null,
        |c| dynamic_to_value(&c),
    );
    Ok((dynamic_to_value(&out), after))
}

/// Relies on `rhai::EvalAltResult`: the ceiling-hit variants (too many
/// operations, data too large, stack overflow) are told apart from every
/// other failure, whose display text is kept.
#[verifier::external_body]
pub(crate) fn classify_eval_error(e: Box<rhai::EvalAltResult>) -> (r: EvalFailure) {
    match *e {
        rhai::EvalAltResult::ErrorTooManyOperations(_) => EvalFailure::Resource,
        rhai::EvalAltResult::ErrorDataTooLarge(_, _) => EvalFailure::Resource,
        rhai::EvalAltResult::ErrorStackOverflow(_) => EvalFailure::Resource,
        other => EvalFailure::Script(other.to_string()),
    }
}

} // verus!
