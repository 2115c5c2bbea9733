use taurifest::context::Context;
use taurifest::engine::{run_action, ActionEngine};
use taurifest::errors::ActionError;
use taurifest::json::JsonValue;
use taurifest::manifest::{ActionRunStep, Route, Step};
use taurifest::path::get_value_by_path;

fn val(text: &str) -> serde_json::Value {
    serde_json::from_str(text).unwrap()
}

fn asg(path: &str, expr: &str) -> Step {
    Step::Assignment {
        path: path.to_string(),
        expr: expr.to_string(),
    }
}

fn cond(expr: &str, then_steps: Vec<Step>, else_steps: Option<Vec<Step>>) -> Step {
    Step::Conditional {
        expr: expr.to_string(),
        then_steps,
        else_steps,
    }
}

fn comp(name: &str) -> Step {
    Step::NamedComposition(ActionRunStep {
        name: name.to_string(),
    })
}

fn route(steps: Vec<Step>) -> Route {
    Route {
        route_type: "action".to_string(),
        reads: Vec::new(),
        writes: Vec::new(),
        update: None,
        steps,
        internal: None,
    }
}

fn ctx(data: &str) -> Context {
    Context::new(val(data), serde_json::Value::Null, serde_json::Value::Null)
}

fn no_routes() -> Vec<(String, Route)> {
    Vec::new()
}

#[test]
fn conditional_true_sets_flag_true() {
    let engine = ActionEngine::new();
    let steps = vec![cond(
        "data.counter > 3",
        vec![asg("context.flag", "true")],
        Some(vec![asg("context.flag", "false")]),
    )];
    let out = engine
        .run(&no_routes(), &steps, ctx(r#"{"counter":5}"#))
        .unwrap();
    assert_eq!(
        out.temp,
        JsonValue::Obj(vec![("flag".to_string(), JsonValue::Bool(true))])
    );
}

#[test]
fn conditional_false_runs_only_else() {
    let engine = ActionEngine::new();
    let steps = vec![cond(
        "data.counter > 3",
        vec![asg("context.taken", "\"then\"")],
        Some(vec![asg("context.taken", "\"else\"")]),
    )];
    let out = engine
        .run(&no_routes(), &steps, ctx(r#"{"counter":1}"#))
        .unwrap();
    assert_eq!(
        out.temp,
        JsonValue::Obj(vec![(
            "taken".to_string(),
            JsonValue::Str("else".to_string())
        )])
    );
    assert_eq!(get_value_by_path(&out.temp, "context.then_marker"), None);
}

#[test]
fn conditional_error_counts_as_false() {
    let engine = ActionEngine::new();
    let steps = vec![cond(
        "no_such_function()",
        vec![asg("context.t", "1")],
        Some(vec![asg("context.e", "1")]),
    )];
    let out = engine.run(&no_routes(), &steps, ctx("{}")).unwrap();
    assert_eq!(
        out.temp,
        JsonValue::Obj(vec![("e".to_string(), JsonValue::Int(1))])
    );
}

#[test]
fn conditional_without_else_is_a_no_op_when_false() {
    let engine = ActionEngine::new();
    let steps = vec![cond("false", vec![asg("context.t", "1")], None)];
    let out = engine.run(&no_routes(), &steps, ctx("{}")).unwrap();
    assert_eq!(out.temp, JsonValue::Obj(Vec::new()));
}

#[test]
fn branch_runs_before_following_sibling() {
    let engine = ActionEngine::new();
    let steps = vec![
        cond("true", vec![asg("context.x", "1")], None),
        asg("context.y", "context.x + 1"),
    ];
    let out = engine.run(&no_routes(), &steps, ctx("{}")).unwrap();
    assert_eq!(
        get_value_by_path(&out.temp, "context.y"),
        Some(&JsonValue::Int(2))
    );
}

#[test]
fn assignment_auto_vivifies_intermediate_object() {
    let engine = ActionEngine::new();
    let steps = vec![asg("context.user.name", "\"Ada\"")];
    let out = engine.run(&no_routes(), &steps, ctx("{}")).unwrap();
    assert_eq!(
        out.temp,
        JsonValue::Obj(vec![(
            "user".to_string(),
            JsonValue::Obj(vec![("name".to_string(), JsonValue::Str("Ada".to_string()))])
        )])
    );
}

#[test]
fn composition_runs_named_program_and_replaces_temp() {
    let engine = ActionEngine::new();
    let routes = vec![(
        "resetCounter".to_string(),
        route(vec![asg("context.counter", "0")]),
    )];
    let steps = vec![asg("context.stale", "1"), comp("resetCounter")];
    let out = engine.run(&routes, &steps, ctx("{}")).unwrap();
    assert_eq!(
        out.temp,
        JsonValue::Obj(vec![("counter".to_string(), JsonValue::Int(0))])
    );
    assert_eq!(get_value_by_path(&out.temp, "context.stale"), None);
}

#[test]
fn composition_with_untouched_temp_discards_caller_temp() {
    let engine = ActionEngine::new();
    let routes = vec![("noop".to_string(), route(Vec::new()))];
    let steps = vec![asg("context.a", "1"), comp("noop")];
    let out = engine.run(&routes, &steps, ctx("{}")).unwrap();
    assert_eq!(out.temp, JsonValue::Obj(Vec::new()));
}

#[test]
fn unknown_composition_target_fails() {
    let engine = ActionEngine::new();
    let steps = vec![comp("doesNotExist")];
    let r = engine.run(&no_routes(), &steps, ctx("{}"));
    assert_eq!(
        r.unwrap_err(),
        ActionError::CompositionTargetNotFound("doesNotExist".to_string())
    );
}

#[test]
fn unknown_composition_aborts_whole_run() {
    let engine = ActionEngine::new();
    let steps = vec![
        asg("context.a", "1"),
        comp("doesNotExist"),
        asg("context.b", "2"),
    ];
    let r = engine.run(&no_routes(), &steps, ctx("{}"));
    assert!(matches!(
        r,
        Err(ActionError::CompositionTargetNotFound(_))
    ));
}

#[test]
fn assignment_outside_context_fails_not_mutable() {
    let engine = ActionEngine::new();
    let steps = vec![asg("body.x", "1")];
    let r = engine.run(&no_routes(), &steps, ctx("{}"));
    assert_eq!(
        r.unwrap_err(),
        ActionError::NotMutable("body.x".to_string())
    );
}

#[test]
fn runaway_expression_fails_resource_exceeded() {
    let engine = ActionEngine::new();
    let steps = vec![asg("context.x", "while true { }")];
    let r = engine.run(&no_routes(), &steps, ctx("{}"));
    assert_eq!(r.unwrap_err(), ActionError::ResourceExceeded);
}

#[test]
fn broken_assignment_expression_is_fatal() {
    let engine = ActionEngine::new();
    let steps = vec![asg("context.x", "no_such_function()")];
    let r = engine.run(&no_routes(), &steps, ctx("{}"));
    assert!(matches!(r, Err(ActionError::ExpressionError(_))));
}

#[test]
fn empty_program_returns_context_unchanged() {
    let engine = ActionEngine::new();
    let out = engine
        .run(&no_routes(), &Vec::new(), ctx(r#"{"k":true}"#))
        .unwrap();
    assert_eq!(out.data, val(r#"{"k":true}"#));
    assert_eq!(out.temp, JsonValue::Obj(Vec::new()));
}

#[test]
fn body_and_user_survive_a_run() {
    let engine = ActionEngine::new();
    let body = val(r#"{"from":"client"}"#);
    let user = val(r#"{"id":3}"#);
    let context = Context::new(val("{}"), body.clone(), user.clone());
    let steps = vec![asg("context.x", "body.from")];
    let out = engine.run(&no_routes(), &steps, context).unwrap();
    assert_eq!(out.body, body);
    assert_eq!(out.user, user);
    assert_eq!(
        get_value_by_path(&out.temp, "context.x"),
        Some(&JsonValue::Str("client".to_string()))
    );
}

#[test]
fn expressions_can_read_all_bindings() {
    let engine = ActionEngine::new();
    let context = Context::new(
        val(r#"{"n":10}"#),
        val(r#"{"m":4}"#),
        serde_json::Value::Null,
    );
    let steps = vec![asg("context.sum", "data.n + body.m")];
    let out = engine.run(&no_routes(), &steps, context).unwrap();
    assert_eq!(
        get_value_by_path(&out.temp, "context.sum"),
        Some(&JsonValue::Int(14))
    );
}

#[test]
fn deep_composition_chain_is_cut_off() {
    let engine = ActionEngine::new();
    let routes = vec![("loopy".to_string(), route(vec![comp("loopy")]))];
    let steps = vec![comp("loopy")];
    let r = engine.run(&routes, &steps, ctx("{}"));
    assert_eq!(r.unwrap_err(), ActionError::ResourceExceeded);
}

#[test]
fn run_action_resolves_route_and_runs_it() {
    let engine = ActionEngine::new();
    let routes = vec![(
        "greet".to_string(),
        route(vec![asg("context.msg", "\"hi\"")]),
    )];
    let out = run_action(
        &engine,
        &routes,
        &"greet".to_string(),
        val("{}"),
        serde_json::Value::Null,
        serde_json::Value::Null,
    )
    .unwrap();
    assert_eq!(
        get_value_by_path(&out.temp, "context.msg"),
        Some(&JsonValue::Str("hi".to_string()))
    );
}

#[test]
fn run_action_unknown_name_fails() {
    let engine = ActionEngine::new();
    let r = run_action(
        &engine,
        &no_routes(),
        &"missing".to_string(),
        val("{}"),
        serde_json::Value::Null,
        serde_json::Value::Null,
    );
    assert_eq!(
        r.unwrap_err(),
        ActionError::CompositionTargetNotFound("missing".to_string())
    );
}

#[test]
fn conditional_expression_side_effects_persist() {
    let engine = ActionEngine::new();
    let steps = vec![cond(
        "context.touched = 1; true",
        vec![asg("context.t", "context.touched + 1")],
        None,
    )];
    let out = engine.run(&no_routes(), &steps, ctx("{}")).unwrap();
    assert_eq!(
        get_value_by_path(&out.temp, "context.touched"),
        Some(&JsonValue::Int(1))
    );
    assert_eq!(
        get_value_by_path(&out.temp, "context.t"),
        Some(&JsonValue::Int(2))
    );
}

#[test]
fn assignment_expression_side_effects_persist() {
    let engine = ActionEngine::new();
    let steps = vec![asg("context.x", "context.y = 5; 10")];
    let out = engine.run(&no_routes(), &steps, ctx("{}")).unwrap();
    assert_eq!(
        get_value_by_path(&out.temp, "context.y"),
        Some(&JsonValue::Int(5))
    );
    assert_eq!(
        get_value_by_path(&out.temp, "context.x"),
        Some(&JsonValue::Int(10))
    );
}

#[test]
fn non_integer_number_keeps_its_literal() {
    let engine = ActionEngine::new();
    let steps = vec![asg("context.r", "1.5")];
    let out = engine.run(&no_routes(), &steps, ctx("{}")).unwrap();
    assert_eq!(
        get_value_by_path(&out.temp, "context.r"),
        Some(&JsonValue::Num("1.5".to_string()))
    );
}

#[test]
fn array_results_are_kept_whole() {
    let engine = ActionEngine::new();
    let steps = vec![asg("context.xs", "[1, \"two\"]")];
    let out = engine.run(&no_routes(), &steps, ctx("{}")).unwrap();
    assert_eq!(
        get_value_by_path(&out.temp, "context.xs"),
        Some(&JsonValue::Arr(vec![
            JsonValue::Int(1),
            JsonValue::Str("two".to_string())
        ]))
    );
}

#[test]
fn composition_preserves_collection_data() {
    let engine = ActionEngine::new();
    let routes = vec![(
        "copyIn".to_string(),
        route(vec![asg("context.seen", "data.n")]),
    )];
    let steps = vec![comp("copyIn")];
    let out = engine.run(&routes, &steps, ctx(r#"{"n":7}"#)).unwrap();
    assert_eq!(out.data, val(r#"{"n":7}"#));
    assert_eq!(
        get_value_by_path(&out.temp, "context.seen"),
        Some(&JsonValue::Int(7))
    );
}

#[test]
fn lone_composition_to_empty_program_replaces_any_caller_temp() {
    let engine = ActionEngine::new();
    let routes = vec![("sub".to_string(), route(Vec::new()))];
    let steps = vec![comp("sub")];
    let context = Context {
        data: val("{}"),
        body: val("{}"),
        user: serde_json::Value::Null,
        temp: JsonValue::Obj(vec![("a".to_string(), JsonValue::Int(1))]),
    };
    let out = engine.run(&routes, &steps, context).unwrap();
    assert_eq!(out.temp, JsonValue::Obj(Vec::new()));
}

#[test]
fn run_action_on_empty_program_returns_fresh_context() {
    let engine = ActionEngine::new();
    let routes = vec![("blank".to_string(), route(Vec::new()))];
    let out = run_action(
        &engine,
        &routes,
        &"blank".to_string(),
        val(r#"{"k":1}"#),
        val(r#"{"b":2}"#),
        serde_json::Value::Null,
    )
    .unwrap();
    assert_eq!(out.data, val(r#"{"k":1}"#));
    assert_eq!(out.body, val(r#"{"b":2}"#));
    assert_eq!(out.user, serde_json::Value::Null);
    assert_eq!(out.temp, JsonValue::Obj(Vec::new()));
}
