use option_result_js::result::ResultJs;
use option_result_js::value::CallOutcome;
use option_result_js::value::Value;

fn add_one(v: Value) -> CallOutcome {
    match v {
        Value::Data(n) => CallOutcome::Returned(Value::Data(n + 1)),
        _ => CallOutcome::Failed,
    }
}

#[test]
fn present_value_is_ok() {
    let r = ResultJs::new(Value::Data(5));
    assert!(r.is_ok());
    assert!(!r.is_err());
}

#[test]
fn null_and_undefined_are_err() {
    let r = ResultJs::new(Value::Null);
    assert!(r.is_err());
    assert!(!r.is_ok());
    let u = ResultJs::new(Value::Undefined);
    assert!(u.is_err());
}

#[test]
fn constructed_err_payload_is_the_null_sentinel() {
    let r = ResultJs::new(Value::Undefined);
    let e = r.err();
    assert!(e.is_none());
    assert_eq!(e.unwrap_or_default(), Value::Null);
}

#[test]
fn ok_projection_agrees_with_is_ok() {
    let cases = [
        Value::Null,
        Value::Undefined,
        Value::Bool(false),
        Value::Bool(true),
        Value::Data(0),
        Value::Data(5),
    ];
    for v in cases {
        let was_ok = ResultJs::new(v).is_ok();
        let projected = ResultJs::new(v).ok();
        assert_eq!(projected.is_some(), was_ok);
    }
}

#[test]
fn ok_projection_keeps_the_payload() {
    let o = ResultJs::new(Value::Data(5)).ok();
    assert_eq!(o.unwrap_or(Value::Data(0)), Value::Data(5));
    let e = ResultJs::new(Value::Null).ok();
    assert!(e.is_none());
}

#[test]
fn err_projection_on_ok_is_empty() {
    let e = ResultJs::new(Value::Data(5)).err();
    assert!(e.is_none());
}

#[test]
fn map_ok_transforms_the_payload() {
    let r = ResultJs::new(Value::Data(5)).map_ok(add_one);
    assert!(r.is_ok());
    assert_eq!(r.ok().unwrap_or(Value::Data(0)), Value::Data(6));
}

#[test]
fn map_ok_on_err_loses_the_payload() {
    let r = ResultJs::new(Value::Null).map_ok(add_one);
    assert!(r.is_err());
    assert!(r.err().is_none());
}

#[test]
fn map_ok_failure_collapses_to_err() {
    let r = ResultJs::new(Value::Data(5)).map_ok(|_| CallOutcome::Failed);
    assert!(r.is_err());
}

#[test]
fn map_ok_to_absent_value_collapses_to_err() {
    let r = ResultJs::new(Value::Data(5)).map_ok(|_| CallOutcome::Returned(Value::Null));
    assert!(r.is_err());
}

#[test]
fn is_ok_and_applies_the_predicate() {
    let r = ResultJs::new(Value::Data(5));
    let above_three = |v: Value| match v {
        Value::Data(n) => CallOutcome::Returned(Value::Bool(n > 3)),
        _ => CallOutcome::Failed,
    };
    assert!(r.is_ok_and(above_three));
    assert!(!ResultJs::new(Value::Data(2)).is_ok_and(above_three));
    assert!(!ResultJs::new(Value::Null).is_ok_and(above_three));
    assert!(!r.is_ok_and(|_| CallOutcome::Failed));
    assert!(!r.is_ok_and(|_| CallOutcome::Returned(Value::Data(1))));
}

#[test]
fn is_err_and_applies_the_predicate_to_the_err_payload() {
    let r = ResultJs::new(Value::Null);
    let is_null = |v: Value| CallOutcome::Returned(Value::Bool(v == Value::Null));
    assert!(r.is_err_and(is_null));
    assert!(!r.is_err_and(|_| CallOutcome::Returned(Value::Bool(false))));
    assert!(!r.is_err_and(|_| CallOutcome::Failed));
    assert!(!ResultJs::new(Value::Data(5)).is_err_and(is_null));
}

#[test]
fn map_err_rewraps_the_transformed_payload_as_ok() {
    let r = ResultJs::new(Value::Undefined).map_err(|_| CallOutcome::Returned(Value::Data(8)));
    assert!(r.is_ok());
    assert_eq!(r.ok().unwrap_or(Value::Data(0)), Value::Data(8));
}

#[test]
fn map_err_on_ok_collapses_to_err() {
    let r = ResultJs::new(Value::Data(5)).map_err(|_| CallOutcome::Returned(Value::Data(8)));
    assert!(r.is_err());
}

#[test]
fn map_err_failure_or_absent_result_collapses_to_err() {
    let failed = ResultJs::new(Value::Null).map_err(|_| CallOutcome::Failed);
    assert!(failed.is_err());
    let absent = ResultJs::new(Value::Null).map_err(|_| CallOutcome::Returned(Value::Undefined));
    assert!(absent.is_err());
}

#[test]
fn map_or_applies_the_transform_on_ok() {
    let r = ResultJs::new(Value::Data(5));
    assert_eq!(r.map_or(Value::Data(0), add_one), Value::Data(6));
}

#[test]
fn map_or_returns_the_default_on_err() {
    let r = ResultJs::new(Value::Null);
    assert_eq!(r.map_or(Value::Data(0), add_one), Value::Data(0));
}

#[test]
fn map_or_failure_yields_the_null_sentinel() {
    let r = ResultJs::new(Value::Data(5));
    assert_eq!(r.map_or(Value::Data(0), |_| CallOutcome::Failed), Value::Null);
}

#[test]
fn map_err_or_transforms_the_err_payload() {
    let r = ResultJs::new(Value::Null).map_err_or(|_| CallOutcome::Returned(Value::Data(8)), Value::Data(1));
    assert!(r.is_ok());
    assert_eq!(r.ok().unwrap_or(Value::Data(0)), Value::Data(8));
}

#[test]
fn map_err_or_failure_falls_back_to_the_default() {
    let r = ResultJs::new(Value::Null).map_err_or(|_| CallOutcome::Failed, Value::Data(1));
    assert!(r.is_ok());
    assert_eq!(r.ok().unwrap_or(Value::Data(0)), Value::Data(1));
}

#[test]
fn map_err_or_on_ok_constructs_from_the_default() {
    let r = ResultJs::new(Value::Data(5)).map_err_or(|_| CallOutcome::Returned(Value::Data(8)), Value::Data(1));
    assert!(r.is_ok());
    assert_eq!(r.ok().unwrap_or(Value::Data(0)), Value::Data(1));
}

#[test]
fn map_err_or_on_ok_with_absent_default_is_err() {
    let r = ResultJs::new(Value::Data(5)).map_err_or(|_| CallOutcome::Returned(Value::Data(8)), Value::Null);
    assert!(r.is_err());
}

#[test]
fn result_accessors_are_idempotent() {
    let r = ResultJs::new(Value::Data(5));
    assert_eq!(r.is_ok(), r.is_ok());
    assert_eq!(r.is_err(), r.is_err());
    let e = ResultJs::new(Value::Null);
    assert_eq!(e.is_ok(), e.is_ok());
    assert_eq!(e.is_err(), e.is_err());
}
