//! Unit tests of the value model, the control-flow result type, and the
//! scope stack's visibility rules.

use lorgn::ast::Name;
use lorgn::runtime::{Context, EvRes, Scope};
use lorgn::Value;

#[test]
fn value_narrowing_succeeds_on_the_right_variant() {
    assert_eq!(
        Value::String("abc".to_string()).into_string(),
        Some("abc".to_string())
    );
    assert_eq!(Value::Integer(7).into_i32(), Some(7));
    assert_eq!(Value::Bool(true).into_bool(), Some(true));
}

#[test]
fn value_narrowing_fails_on_any_other_variant() {
    assert_eq!(Value::Integer(7).into_string(), None);
    assert_eq!(Value::Bool(true).into_i32(), None);
    assert_eq!(Value::Unit.into_bool(), None);
}

#[test]
fn value_conversions_from_host_types() {
    assert_eq!(Value::from("xy".to_string()), Value::String("xy".to_string()));
    assert_eq!(Value::from(5), Value::Integer(5));
    assert_eq!(Value::from(false), Value::Bool(false));
}

#[test]
fn name_equality_is_structural() {
    let a = Name::from("hello");
    let b = Name::from("hello".to_string());
    let c = Name::from("other");
    assert_eq!(a, b);
    assert!(a != c);
    assert_eq!(String::from(a), "hello".to_string());
}

#[test]
fn ev_res_helpers() {
    let v = EvRes::new_val(Value::Integer(1));
    assert!(!v.is_short_circuit());
    assert_eq!(v.into_value(), Some(Value::Integer(1)));

    let ret = EvRes::ReturnSC(Value::Integer(2));
    assert!(ret.is_short_circuit());
    assert_eq!(ret.into_value(), None);

    let brk = EvRes::BreakSC(Value::Integer(3));
    assert!(brk.is_short_circuit());
    assert_eq!(brk.into_value(), None);
}

#[test]
fn scope_bindings_last_write_wins() {
    let scope = Scope::new_with(
        vec![
            ("x".into(), Value::Integer(1)),
            ("y".into(), Value::Integer(2)),
            ("x".into(), Value::Integer(3)),
        ],
        false,
    );
    assert_eq!(scope.get(&"x".into()), Some(&Value::Integer(3)));
    assert_eq!(scope.get(&"y".into()), Some(&Value::Integer(2)));
    assert_eq!(scope.get(&"z".into()), None);
}

#[test]
fn scope_insert_overwrites() {
    let mut scope = Scope::new(true);
    scope.insert("x".into(), Value::Integer(1));
    scope.insert("x".into(), Value::Integer(2));
    assert_eq!(scope.get(&"x".into()), Some(&Value::Integer(2)));
}

#[test]
fn scope_get_mut_writes_through() {
    let mut scope = Scope::new(false);
    scope.insert("x".into(), Value::Integer(1));
    if let Some(v) = scope.get_mut(&"x".into()) {
        *v = Value::Integer(5);
    }
    assert_eq!(scope.get(&"x".into()), Some(&Value::Integer(5)));
    assert!(scope.get_mut(&"y".into()).is_none());
}

#[test]
fn lookup_stops_at_a_non_bubbling_frame() {
    // The lower frame holds x; the top frame does not. With a non-bubbling
    // top frame the walk stops there; with a bubbling one it continues.
    let lower = Scope::new_with(vec![("x".into(), Value::Integer(1))], false);
    let closed_top = Scope::new(false);
    let context = Context { scopes: vec![lower, closed_top] };
    assert_eq!(context.find_variable(&"x".into()), None);

    let lower = Scope::new_with(vec![("x".into(), Value::Integer(1))], false);
    let open_top = Scope::new(true);
    let context = Context { scopes: vec![lower, open_top] };
    assert_eq!(context.find_variable(&"x".into()), Some(Value::Integer(1)));
}

#[test]
fn lookup_inspects_the_stopping_frame_itself() {
    let top = Scope::new_with(vec![("x".into(), Value::Integer(9))], false);
    let context = Context { scopes: vec![top] };
    assert_eq!(context.find_variable(&"x".into()), Some(Value::Integer(9)));
}

#[test]
fn top_scope_and_top_index() {
    let context = Context { scopes: vec![] };
    assert!(context.top_scope().is_none());

    let frame = Scope::new_with(vec![("x".into(), Value::Integer(1))], false);
    let context = Context { scopes: vec![Scope::new(false), frame] };
    assert_eq!(context.top_index(), 1);
    let top = context.top_scope().expect("a frame is open");
    assert_eq!(top.get(&"x".into()), Some(&Value::Integer(1)));
}
