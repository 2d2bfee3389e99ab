use fama::PipeContent;
use fama::Pipeline;
use fama::PipelineBuilder;
use fama::Registry;
use fama::TypeKey;
use fama::Value;

type Callback = fn(Pipeline) -> Pipeline;

fn store_changed(pipeline: Pipeline) -> Pipeline {
    pipeline.store_fn(TypeKey::Str, |_text: Value, pipe: PipeContent| {
        (pipe, Value::Str("changed".to_string()))
    })
}

fn seed_user_id(pipeline: Pipeline) -> Pipeline {
    pipeline.store_fn(TypeKey::Str, |_text: Value, pipe: PipeContent| {
        (pipe, Value::Str(format!("USR-{}", 200)))
    })
}

fn setup_with_seed(builder: PipelineBuilder<Callback>) -> PipelineBuilder<Callback> {
    let mut builder = builder;
    builder.register(seed_user_id);
    builder
}

fn add_one(pipeline: Pipeline) -> Pipeline {
    pipeline.store_fn(TypeKey::I64, |num: Value, pipe: PipeContent| {
        let v = match num {
            Value::I64(n) => Value::I64(n + 1),
            other => other,
        };
        (pipe, v)
    })
}

fn times_ten(pipeline: Pipeline) -> Pipeline {
    pipeline.store_fn(TypeKey::I64, |num: Value, pipe: PipeContent| {
        let v = match num {
            Value::I64(n) => Value::I64(n * 10),
            other => other,
        };
        (pipe, v)
    })
}

#[test]
fn test_multiple_instances() {
    let mut registry: Registry<Callback> = Registry::new();

    // one caller touches the entry first, without a setup hook
    let first = registry.initial(TypeKey::Str);
    assert!(first);

    // a second caller arrives through the builder accessor: the entry already
    // exists, so its setup hook must not run
    let first_again = registry.pipeline_builder(TypeKey::Str, setup_with_seed);
    assert!(!first_again);

    // an append through either handle is visible to both
    registry.register(TypeKey::Str, store_changed);

    let user_a = registry.build(TypeKey::Str, Value::Str(String::new())).deliver();
    let user_b = registry.build(TypeKey::Str, Value::Str(String::new())).deliver();

    assert_eq!(user_a, user_b);
    assert_eq!(user_a, Value::Str("changed".to_string()));
}

#[test]
fn test_setup_hook_runs_exactly_once() {
    let mut registry: Registry<Callback> = Registry::new();

    let first = registry.pipeline_builder(TypeKey::Str, setup_with_seed);
    assert!(first);
    assert_eq!(
        registry.build(TypeKey::Str, Value::Str(String::new())).deliver(),
        Value::Str("USR-200".to_string()),
    );

    // a second touch does not run the hook again: the entry keeps exactly one
    // seeded callback plus what is registered afterwards
    let first_again = registry.pipeline_builder(TypeKey::Str, setup_with_seed);
    assert!(!first_again);
    registry.register(TypeKey::Str, store_changed);

    assert_eq!(
        registry.build(TypeKey::Str, Value::Str(String::new())).deliver(),
        Value::Str("changed".to_string()),
    );
}

#[test]
fn test_builder_applies_callbacks_in_order() {
    let mut builder: PipelineBuilder<Callback> = PipelineBuilder::new();
    builder.register(add_one);
    builder.register(times_ten);

    // (0 + 1) * 10, not 0 * 10 + 1
    assert_eq!(builder.build(Value::I64(0)).deliver(), Value::I64(10));
    assert!(builder.build(Value::I64(0)).confirm());
}

#[test]
fn test_builds_are_independent_runs() {
    let mut registry: Registry<Callback> = Registry::new();
    registry.register(TypeKey::I64, add_one);
    registry.register(TypeKey::I64, times_ten);

    let run_a = registry.build(TypeKey::I64, Value::I64(0));
    let run_b = registry.build(TypeKey::I64, Value::I64(4));

    assert_eq!(run_a.deliver(), Value::I64(10));
    assert_eq!(run_b.deliver(), Value::I64(50));
}

#[test]
fn test_independent_kinds_do_not_contend() {
    let mut registry: Registry<Callback> = Registry::new();
    registry.register(TypeKey::I64, add_one);

    assert!(registry.initial(TypeKey::Bool));
    assert!(!registry.initial(TypeKey::I64));

    // the untouched Str entry builds a bare run
    let bare = registry.build(TypeKey::Str, Value::Str("as is".to_string()));
    assert_eq!(bare.deliver(), Value::Str("as is".to_string()));
    assert!(bare.confirm());

    // the seeded I64 entry is unaffected by the other touches
    assert_eq!(registry.build(TypeKey::I64, Value::I64(1)).deliver(), Value::I64(2));
}

#[test]
fn test_pipeline_touches_then_builds() {
    let mut registry: Registry<Callback> = Registry::new();

    // first call: the setup hook seeds the entry, then the run goes through it
    let run = registry.pipeline(TypeKey::Str, setup_with_seed, Value::Str(String::new()));
    assert_eq!(run.deliver(), Value::Str("USR-200".to_string()));

    // later calls reuse the entry without re-running the hook
    registry.register(TypeKey::Str, store_changed);
    let run = registry.pipeline(TypeKey::Str, setup_with_seed, Value::Str(String::new()));
    assert_eq!(run.deliver(), Value::Str("changed".to_string()));
}

#[test]
fn test_default_builder_is_empty() {
    let builder: PipelineBuilder<Callback> = Default::default();
    assert_eq!(builder.build(Value::I64(3)).deliver(), Value::I64(3));
}
