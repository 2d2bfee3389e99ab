use fama::PipeContent;
use fama::Scope;
use fama::TypeKey;
use fama::Value;

#[test]
fn test_flow_is_running() {
    let pipe: PipeContent = PipeContent::make();

    assert!(pipe.is_running(), "The pipe state should have been 'run'");
}

#[test]
fn test_flow_stop() {
    let mut pipe = PipeContent::make();
    pipe.stop();

    assert!(!pipe.is_running());
}

#[test]
fn test_store_overwrites_same_kind() {
    let mut pipe = PipeContent::make();
    pipe.store(Value::I64(1));
    pipe.store(Value::I64(2));

    assert_eq!(pipe.container().get(TypeKey::I64), Some(Value::I64(2)));
    assert!(pipe.is_running());
}

#[test]
fn test_scope_fallback_reads_outer() {
    let mut outer = Scope::new();
    outer.set(Value::I64(1));
    outer.set(Value::Str("shared".to_string()));

    let mut inner = Scope::with_fallback(&outer);
    assert_eq!(inner.get(TypeKey::I64), Some(Value::I64(1)));

    inner.set(Value::I64(2));
    assert_eq!(inner.get(TypeKey::I64), Some(Value::I64(2)));
    assert_eq!(inner.get(TypeKey::Str), Some(Value::Str("shared".to_string())));

    // writes are local: the outer scope is untouched
    assert_eq!(outer.get(TypeKey::I64), Some(Value::I64(1)));
    assert_eq!(outer.get_required(TypeKey::I64), Value::I64(1));
}

#[test]
fn test_scope_absent_kind() {
    let scope = Scope::new();
    assert_eq!(scope.get(TypeKey::Bool), None);
}

#[test]
fn test_value_duplicate_is_equal() {
    let values = vec![
        Value::I64(-7),
        Value::Bool(true),
        Value::Str("copy".to_string()),
        Value::OptI64(Some(3)),
        Value::OptI64(None),
        Value::OptStr(Some("x".to_string())),
        Value::ResI64(Ok(1)),
        Value::ResI64(Err("bad".to_string())),
    ];
    for v in values {
        assert_eq!(v.duplicate(), v);
    }
}

#[test]
fn test_value_kind_queries() {
    assert_eq!(Value::OptI64(None).key(), TypeKey::OptI64);
    assert!(Value::OptI64(None).is_none_value());
    assert!(!Value::OptI64(Some(0)).is_none_value());
    assert!(Value::ResI64(Err(String::new())).is_err_value());
    assert!(!Value::ResI64(Ok(0)).is_err_value());
    assert!(!Value::I64(0).is_none_value());
}
