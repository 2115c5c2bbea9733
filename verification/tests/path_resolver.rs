use taurifest::errors::ActionError;
use taurifest::json::JsonValue;
use taurifest::path::{get_value_by_path, set_value_by_path};

fn empty_obj() -> JsonValue {
    JsonValue::Obj(Vec::new())
}

#[test]
fn write_then_read_returns_value() {
    let mut temp = empty_obj();
    let r = set_value_by_path(&mut temp, "context.a.b", JsonValue::Int(7));
    assert!(r.is_ok());
    let got = get_value_by_path(&temp, "context.a.b");
    assert_eq!(got, Some(&JsonValue::Int(7)));
}

#[test]
fn write_vivifies_non_object_root() {
    let mut temp = JsonValue::Int(5);
    let r = set_value_by_path(&mut temp, "context.a", JsonValue::Str("x".to_string()));
    assert!(r.is_ok());
    assert_eq!(
        temp,
        JsonValue::Obj(vec![("a".to_string(), JsonValue::Str("x".to_string()))])
    );
}

#[test]
fn write_vivifies_non_object_intermediate() {
    let mut temp = JsonValue::Obj(vec![("a".to_string(), JsonValue::Int(3))]);
    let r = set_value_by_path(&mut temp, "context.a.b", JsonValue::Bool(true));
    assert!(r.is_ok());
    assert_eq!(
        get_value_by_path(&temp, "context.a.b"),
        Some(&JsonValue::Bool(true))
    );
}

#[test]
fn write_overwrites_existing_key_in_place() {
    let mut temp = JsonValue::Obj(vec![
        ("a".to_string(), JsonValue::Int(1)),
        ("b".to_string(), JsonValue::Int(2)),
    ]);
    let r = set_value_by_path(&mut temp, "context.a", JsonValue::Int(9));
    assert!(r.is_ok());
    assert_eq!(
        temp,
        JsonValue::Obj(vec![
            ("a".to_string(), JsonValue::Int(9)),
            ("b".to_string(), JsonValue::Int(2)),
        ])
    );
}

#[test]
fn data_root_is_not_mutable() {
    let mut temp = empty_obj();
    let r = set_value_by_path(&mut temp, "data.x", JsonValue::Int(1));
    assert_eq!(r, Err(ActionError::NotMutable("data.x".to_string())));
    assert_eq!(temp, empty_obj());
}

#[test]
fn empty_path_is_invalid() {
    let mut temp = empty_obj();
    let r = set_value_by_path(&mut temp, "", JsonValue::Int(1));
    assert_eq!(r, Err(ActionError::InvalidPath("".to_string())));
}

#[test]
fn root_only_path_is_invalid() {
    let mut temp = empty_obj();
    let r = set_value_by_path(&mut temp, "context", JsonValue::Int(1));
    assert_eq!(r, Err(ActionError::InvalidPath("context".to_string())));
}

#[test]
fn empty_segment_is_invalid() {
    let mut temp = empty_obj();
    let r = set_value_by_path(&mut temp, "context..x", JsonValue::Int(1));
    assert_eq!(r, Err(ActionError::InvalidPath("context..x".to_string())));
    let r2 = set_value_by_path(&mut temp, "context.x.", JsonValue::Int(1));
    assert_eq!(r2, Err(ActionError::InvalidPath("context.x.".to_string())));
}

#[test]
fn read_of_missing_key_is_none() {
    let temp = empty_obj();
    assert_eq!(get_value_by_path(&temp, "context.nope"), None);
}

#[test]
fn read_outside_context_is_none() {
    let temp = JsonValue::Obj(vec![("x".to_string(), JsonValue::Int(1))]);
    assert_eq!(get_value_by_path(&temp, "data.x"), None);
}
