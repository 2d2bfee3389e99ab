use std::cell::Cell;

use fama::FamaPipe;
use fama::PipeContent;
use fama::Pipeline;
use fama::PipelineTrait;
use fama::Scope;
use fama::TypeKey;
use fama::Value;

fn as_i64(v: &Value) -> i64 {
    match v {
        Value::I64(n) => *n,
        _ => panic!("expected an integer value"),
    }
}

struct AddOne;

impl FamaPipe<Value> for AddOne {
    fn receive_pipe_content(&self, num: Value, pipe: PipeContent) -> (PipeContent, Value) {
        (pipe, Value::I64(as_i64(&num) + 1))
    }
}

struct AddTwo;

impl FamaPipe<Value> for AddTwo {
    fn receive_pipe_content(&self, num: Value, pipe: PipeContent) -> (PipeContent, Value) {
        (pipe, Value::I64(as_i64(&num) + 2))
    }
}

struct StoreAddOne;

impl FamaPipe<()> for StoreAddOne {
    fn receive_pipe_content(&self, num: Value, mut pipe: PipeContent) -> (PipeContent, ()) {
        pipe.store(Value::I64(as_i64(&num) + 1));
        (pipe, ())
    }
}

struct StoreAddTwo;

impl FamaPipe<()> for StoreAddTwo {
    fn receive_pipe_content(&self, num: Value, mut pipe: PipeContent) -> (PipeContent, ()) {
        pipe.store(Value::I64(as_i64(&num) + 2));
        (pipe, ())
    }
}

struct ValidateCount;

impl FamaPipe<bool> for ValidateCount {
    fn receive_pipe_content(&self, num: Value, pipe: PipeContent) -> (PipeContent, bool) {
        (pipe, as_i64(&num) >= 6)
    }
}

struct SomeIfBig;

impl FamaPipe<Value> for SomeIfBig {
    fn receive_pipe_content(&self, num: Value, pipe: PipeContent) -> (PipeContent, Value) {
        let n = as_i64(&num);
        (pipe, Value::OptI64(if n > 10 { Some(n) } else { None }))
    }
}

struct OkIfBig;

impl FamaPipe<Value> for OkIfBig {
    fn receive_pipe_content(&self, num: Value, pipe: PipeContent) -> (PipeContent, Value) {
        let n = as_i64(&num);
        (pipe, Value::ResI64(if n > 10 { Ok(n) } else { Err(String::new()) }))
    }
}

#[test]
fn test_through() {
    let result = Pipeline::pass(Value::I64(0))
        .through(TypeKey::I64, StoreAddOne)
        .through(TypeKey::I64, StoreAddOne)
        .through(TypeKey::I64, StoreAddTwo)
        .through(TypeKey::I64, StoreAddTwo)
        .deliver();

    assert_eq!(result, Value::I64(6));
}

#[test]
fn test_store() {
    let result = Pipeline::pass(Value::I64(0))
        .store(TypeKey::I64, AddOne)
        .store(TypeKey::I64, AddOne)
        .store(TypeKey::I64, AddTwo)
        .store(TypeKey::I64, AddTwo)
        .deliver();

    assert_eq!(result, Value::I64(6));
}

#[test]
fn test_next() {
    let result = Pipeline::pass(Value::I64(0))
        .store(TypeKey::I64, AddOne)
        .store(TypeKey::I64, AddOne)
        .store(TypeKey::I64, AddTwo)
        .next(TypeKey::I64, ValidateCount)
        .store(TypeKey::I64, AddTwo)
        .deliver();

    assert_eq!(result, Value::I64(4));

    let result = Pipeline::pass(Value::I64(0))
        .store(TypeKey::I64, AddOne)
        .store(TypeKey::I64, AddOne)
        .store(TypeKey::I64, AddTwo)
        .store(TypeKey::I64, AddTwo)
        .store(TypeKey::I64, AddTwo)
        .next(TypeKey::I64, ValidateCount)
        .store(TypeKey::I64, AddTwo)
        .deliver();

    assert_eq!(result, Value::I64(10));
}

#[test]
fn test_through_fn1() {
    let result = Pipeline::pass(Value::I64(33))
        .through_fn(TypeKey::I64, |num: Value, mut pipe: PipeContent| {
            pipe.store(Value::I64(as_i64(&num) + 2));
            pipe
        })
        .through_fn(TypeKey::I64, |num: Value, mut pipe: PipeContent| {
            pipe.store(Value::Bool(as_i64(&num) == 35));
            pipe
        })
        .deliver_as(TypeKey::Bool);

    assert_eq!(result, Value::Bool(true));
}

#[test]
fn test_through_content_needs_no_argument() {
    let result = Pipeline::pass(Value::I64(1))
        .through_content(|mut pipe: PipeContent| {
            pipe.store(Value::Str("tagged".to_string()));
            pipe
        })
        .deliver_as(TypeKey::Str);

    assert_eq!(result, Value::Str("tagged".to_string()));
}

#[test]
fn test_next_fn() {
    let result = Pipeline::pass(Value::I64(33))
        .next_fn(TypeKey::I64, |num: Value, mut pipe: PipeContent| {
            pipe.store(Value::I64(as_i64(&num) + 2));
            (pipe, true)
        })
        .next_fn(TypeKey::I64, |num: Value, pipe: PipeContent| {
            let keep = as_i64(&num) != 35;
            (pipe, keep)
        })
        .next_fn(TypeKey::I64, |num: Value, pipe: PipeContent| {
            let keep = as_i64(&num) == 35;
            (pipe, keep)
        })
        .confirm();

    assert_eq!(result, false);
}

#[test]
fn test_store_fn() {
    let total = Pipeline::pass(Value::I64(0))
        .store_fn(TypeKey::I64, |num: Value, pipe: PipeContent| {
            let v = Value::I64(as_i64(&num) + 1);
            (pipe, v)
        })
        .store_fn(TypeKey::I64, |num: Value, pipe: PipeContent| {
            let v = Value::I64(as_i64(&num) + 4);
            (pipe, v)
        })
        .store_fn(TypeKey::I64, |num: Value, pipe: PipeContent| {
            let v = Value::I64(as_i64(&num) * 5);
            (pipe, v)
        })
        .deliver();

    assert_eq!(total, Value::I64(25));
}

#[test]
fn test_store2_fn() {
    let pipeline: Pipeline = Pipeline::pass(Value::I64(0));
    let pipeline = pipeline.store_fn(TypeKey::I64, |num: Value, pipe: PipeContent| {
        let v = Value::I64(as_i64(&num) + 1);
        (pipe, v)
    });
    let pipeline = pipeline.store_fn(TypeKey::I64, |num: Value, pipe: PipeContent| {
        let v = Value::I64(as_i64(&num) + 4);
        (pipe, v)
    });
    let pipeline = pipeline.store_fn(TypeKey::I64, |num: Value, pipe: PipeContent| {
        let v = Value::I64(as_i64(&num) * 5);
        (pipe, v)
    });
    let total = pipeline.deliver();

    assert_eq!(total, Value::I64(25));
}

#[test]
fn test_some_flow_fn() {
    let result1 = Pipeline::pass(Value::I64(0))
        .some_fn(TypeKey::I64, |num: Value, pipe: PipeContent| {
            let n = as_i64(&num);
            (pipe, Value::OptI64(if n > 10 { Some(n) } else { None }))
        })
        .deliver_as(TypeKey::OptI64);

    assert_eq!(result1, Value::OptI64(None));

    let result2 = Pipeline::pass(Value::I64(100))
        .some_fn(TypeKey::I64, |num: Value, pipe: PipeContent| {
            let n = as_i64(&num);
            (pipe, Value::OptI64(if n > 10 { Some(n) } else { None }))
        })
        .deliver_as(TypeKey::OptI64);

    assert_eq!(result2, Value::OptI64(Some(100)));
}

#[test]
fn test_some_flow() {
    let result1 = Pipeline::pass(Value::I64(0)).some(TypeKey::I64, SomeIfBig).deliver_as(
        TypeKey::OptI64,
    );

    assert_eq!(result1, Value::OptI64(None));

    let result2 = Pipeline::pass(Value::I64(100)).some(TypeKey::I64, SomeIfBig).deliver_as(
        TypeKey::OptI64,
    );

    assert_eq!(result2, Value::OptI64(Some(100)));
}

#[test]
fn test_result_flow_fn() {
    let result1 = Pipeline::pass(Value::I64(0))
        .ok_fn(TypeKey::I64, |num: Value, pipe: PipeContent| {
            let n = as_i64(&num);
            (pipe, Value::ResI64(if n > 10 { Ok(n) } else { Err(String::new()) }))
        })
        .deliver_as(TypeKey::ResI64);

    assert!(matches!(result1, Value::ResI64(Err(_))));

    let result2 = Pipeline::pass(Value::I64(100))
        .ok_fn(TypeKey::I64, |num: Value, pipe: PipeContent| {
            let n = as_i64(&num);
            (pipe, Value::ResI64(if n > 10 { Ok(n) } else { Err(String::new()) }))
        })
        .deliver_as(TypeKey::ResI64);

    assert_eq!(result2, Value::ResI64(Ok(100)));
}

#[test]
fn test_result_flow() {
    let result1 = Pipeline::pass(Value::I64(0)).ok(TypeKey::I64, OkIfBig).deliver_as(
        TypeKey::ResI64,
    );

    assert!(matches!(result1, Value::ResI64(Err(_))));

    let result2 = Pipeline::pass(Value::I64(100)).ok(TypeKey::I64, OkIfBig).deliver_as(
        TypeKey::ResI64,
    );

    assert_eq!(result2, Value::ResI64(Ok(100)));
}

#[test]
fn test_deliver_as() {
    let result = Pipeline::pass(Value::I64(0))
        .store_fn(TypeKey::I64, |num: Value, pipe: PipeContent| {
            let v = Value::I64(as_i64(&num) + 1);
            (pipe, v)
        })
        .store_fn(TypeKey::I64, |num: Value, pipe: PipeContent| {
            let v = Value::I64(as_i64(&num) + 4);
            (pipe, v)
        })
        .store_fn(TypeKey::I64, |num: Value, pipe: PipeContent| {
            let v = Value::I64(as_i64(&num) * 5);
            (pipe, v)
        })
        .store_fn(TypeKey::I64, |num: Value, pipe: PipeContent| {
            let v = Value::Bool(as_i64(&num) == 25);
            (pipe, v)
        })
        .deliver_as(TypeKey::Bool);

    assert_eq!(result, Value::Bool(true));
}

#[test]
fn test_empty_pipeline_delivers_payload() {
    let pipeline = Pipeline::pass(Value::I64(7));

    assert_eq!(pipeline.deliver(), Value::I64(7));
    assert!(pipeline.confirm());
    assert_eq!(pipeline.failure(), None);
}

#[test]
fn test_halt_skips_every_later_stage() {
    let invocations = Cell::new(0u32);

    let pipeline = Pipeline::pass(Value::I64(0))
        .next_fn(TypeKey::I64, |_num: Value, pipe: PipeContent| (pipe, false))
        .through_fn(TypeKey::I64, |_num: Value, pipe: PipeContent| {
            invocations.set(invocations.get() + 1);
            pipe
        })
        .store_fn(TypeKey::I64, |_num: Value, pipe: PipeContent| {
            invocations.set(invocations.get() + 1);
            (pipe, Value::I64(999))
        });

    assert!(!pipeline.confirm());
    assert_eq!(invocations.get(), 0, "no stage after the halt may run");
    assert_eq!(pipeline.deliver(), Value::I64(0));
    assert_eq!(pipeline.failure(), None);
}

#[test]
fn test_stop_through_content_handle() {
    let invocations = Cell::new(0u32);

    let pipeline = Pipeline::pass(Value::I64(0))
        .through_fn(TypeKey::I64, |_num: Value, mut pipe: PipeContent| {
            pipe.stop_the_flow();
            pipe
        })
        .through_fn(TypeKey::I64, |_num: Value, pipe: PipeContent| {
            invocations.set(invocations.get() + 1);
            pipe
        });

    assert!(!pipeline.confirm());
    assert_eq!(invocations.get(), 0);
}

#[test]
fn test_noop_store_keeps_delivery() {
    let pipeline = Pipeline::pass(Value::I64(5)).store_fn(
        TypeKey::I64,
        |num: Value, pipe: PipeContent| (pipe, num),
    );

    assert_eq!(pipeline.deliver(), Value::I64(5));
    assert!(pipeline.confirm());
}

#[test]
fn test_deliver_as_round_trip() {
    let pipeline = Pipeline::pass(Value::I64(1)).store_fn(
        TypeKey::I64,
        |_num: Value, pipe: PipeContent| (pipe, Value::Str("kept".to_string())),
    );

    assert_eq!(pipeline.deliver_as(TypeKey::Str), Value::Str("kept".to_string()));
    assert_eq!(pipeline.try_deliver_as(TypeKey::Str), Some(Value::Str("kept".to_string())));
}

#[test]
fn test_try_deliver_as_absent_kind() {
    let pipeline = Pipeline::pass(Value::I64(1));

    assert_eq!(pipeline.try_deliver_as(TypeKey::Bool), None);

    let pipeline = pipeline.store_fn(TypeKey::I64, |_num: Value, pipe: PipeContent| {
        (pipe, Value::Bool(true))
    });
    assert_eq!(pipeline.try_deliver_as(TypeKey::Bool), Some(Value::Bool(true)));
}

#[test]
fn test_missing_required_argument_fails_run() {
    let invocations = Cell::new(0u32);

    let pipeline = Pipeline::pass(Value::I64(1))
        .store_fn(TypeKey::Str, |_text: Value, pipe: PipeContent| {
            invocations.set(invocations.get() + 1);
            (pipe, Value::Str("never".to_string()))
        })
        .store_fn(TypeKey::I64, |_num: Value, pipe: PipeContent| {
            invocations.set(invocations.get() + 1);
            (pipe, Value::I64(2))
        });

    assert_eq!(invocations.get(), 0, "a failed run invokes no stage");
    assert!(!pipeline.confirm());
    assert_eq!(pipeline.failure(), Some(TypeKey::Str));
    assert_eq!(pipeline.deliver(), Value::I64(1), "the stored content is still delivered");
}

#[test]
fn test_pass_content_overrides_payload() {
    let pipeline = Pipeline::pass(Value::I64(1)).pass_content(Value::I64(8));

    assert_eq!(pipeline.deliver(), Value::I64(8));
}

#[test]
fn test_pass_within_sees_outer_defaults() {
    let mut defaults = Scope::new();
    defaults.set(Value::Str("configured".to_string()));

    let pipeline = Pipeline::pass_within(Value::I64(0), &defaults).store_fn(
        TypeKey::Str,
        |text: Value, pipe: PipeContent| {
            let tag = match &text {
                Value::Str(s) => Value::Str(format!("{}!", s)),
                _ => text,
            };
            (pipe, tag)
        },
    );

    assert_eq!(pipeline.deliver_as(TypeKey::Str), Value::Str("configured!".to_string()));
    assert_eq!(pipeline.deliver(), Value::I64(0));
}

struct DoubleUp;

impl PipelineTrait for DoubleUp {
    fn handle_pipe(&self, pipeline: Pipeline) -> Pipeline {
        pipeline.store_fn(TypeKey::I64, |num: Value, pipe: PipeContent| {
            let v = Value::I64(as_i64(&num) * 2);
            (pipe, v)
        })
    }
}

#[test]
fn test_pipeline_trait_delivers() {
    assert_eq!(DoubleUp.try_to_deliver(Value::I64(21)), Some(Value::I64(42)));
    assert_eq!(DoubleUp.try_deliver_as(Value::I64(3), TypeKey::I64), Some(Value::I64(6)));
    assert_eq!(DoubleUp.try_deliver_as(Value::I64(3), TypeKey::Bool), None);
    assert!(DoubleUp.confirm(Value::I64(1)));
}

#[test]
fn scenario_store_adds_one() {
    let pipeline = Pipeline::pass(Value::I64(0)).store_fn(
        TypeKey::I64,
        |num: Value, pipe: PipeContent| {
            let v = Value::I64(as_i64(&num) + 1);
            (pipe, v)
        },
    );

    assert_eq!(pipeline.deliver(), Value::I64(1));
    assert!(pipeline.confirm());
}

#[test]
fn scenario_chain_ends_as_text() {
    let pipeline = Pipeline::pass(Value::I64(0))
        .store_fn(TypeKey::I64, |num: Value, pipe: PipeContent| {
            let v = Value::I64(as_i64(&num) + 1);
            (pipe, v)
        })
        .store_fn(TypeKey::I64, |num: Value, pipe: PipeContent| {
            let v = Value::I64(as_i64(&num) * 20);
            (pipe, v)
        })
        .store_fn(TypeKey::I64, |num: Value, pipe: PipeContent| {
            let v = Value::Str(format!("{}", as_i64(&num)));
            (pipe, v)
        });

    assert_eq!(pipeline.deliver_as(TypeKey::Str), Value::Str("20".to_string()));
    assert!(pipeline.confirm());
}

#[test]
fn scenario_next_gate_on_size() {
    let gate = |num: Value, pipe: PipeContent| {
        let keep = as_i64(&num) > 10;
        (pipe, keep)
    };

    let halted = Pipeline::pass(Value::I64(0)).next_fn(TypeKey::I64, gate);
    assert!(!halted.confirm());

    let flowing = Pipeline::pass(Value::I64(100)).next_fn(TypeKey::I64, gate);
    assert!(flowing.confirm());
}

#[test]
fn scenario_some_stores_the_absent_option() {
    let pipeline = Pipeline::pass(Value::I64(-5)).some_fn(
        TypeKey::I64,
        |num: Value, pipe: PipeContent| {
            let n = as_i64(&num);
            (pipe, Value::OptI64(if n <= 0 { None } else { Some(n) }))
        },
    );

    assert_eq!(pipeline.try_deliver_as(TypeKey::OptI64), Some(Value::OptI64(None)));
    assert!(!pipeline.confirm());
}
