//! The abstract semantics of a pipeline run.
//!
//! [`RunModel`] is the state of a run as the contracts see it; the spec
//! functions here are the transition rules that every driver operation is
//! proved against: seeding a run, skipping a stage of a halted or failed run,
//! failing on an absent required argument, and applying each stage effect to
//! the content a stage handed back.

use vstd::prelude::*;

use crate::content::ContentModel;
use crate::value::is_err_value;
use crate::value::is_none_value;
use crate::value::key_of;
use crate::value::TypeKey;
use crate::value::Value;

verus! {

/// The abstract state of a pipeline run.
pub struct RunModel {
    /// The effective scope mapping.
    pub scope: Map<TypeKey, Value>,
    /// The run flag: false once a stage has halted the run.
    pub running: bool,
    /// Whether the content has gone through every attached stage so far:
    /// true until a stage halts, fails to resolve, or is skipped.
    pub went_through: bool,
    /// The first required argument kind that failed to resolve, if any.
    pub failed: Option<TypeKey>,
    /// The kind the run was seeded with: what `deliver` returns.
    pub content_key: TypeKey,
}

/// What a stage handed back, and how the driver interprets it.
pub enum StageYield {
    /// The return value is discarded; only scope changes made through the
    /// content handle count.
    Unit,
    /// The value is stored, keyed by its own kind.
    Stored(Value),
    /// A flow decision: `false` halts the run; nothing is stored.
    Flow(bool),
    /// An optional value, stored as-is; an absent optional halts the run.
    Optional(Value),
    /// A fallible value, stored as-is; an error halts the run.
    Fallible(Value),
}

/// A run is active when no stage has halted it and no required argument has
/// failed to resolve: exactly then is the next stage invoked.
pub open spec fn active(m: RunModel) -> bool {
    m.running && m.failed is None
}

/// The run that `pass(v)` creates: a fresh scope seeded with `v`, running,
/// with nothing yet halted or failed.
pub open spec fn pass_model(v: Value) -> RunModel {
    RunModel {
        scope: Map::<TypeKey, Value>::empty().insert(key_of(v), v),
        running: true,
        went_through: true,
        failed: None,
        content_key: key_of(v),
    }
}

/// The run that `pass_within(v, outer)` creates: as `pass`, but the scope
/// falls back to the outer entries.
pub open spec fn pass_within_model(v: Value, outer: Map<TypeKey, Value>) -> RunModel {
    RunModel {
        scope: outer.insert(key_of(v), v),
        running: true,
        went_through: true,
        failed: None,
        content_key: key_of(v),
    }
}

/// A stage skipped because the run is not active: nothing is resolved, the
/// handler is not called, and the content did not go through.
pub open spec fn skip_model(m: RunModel) -> RunModel {
    RunModel { went_through: false, ..m }
}

/// A stage whose required argument kind `key` was absent: the run records the
/// wiring fault and the content did not go through.
pub open spec fn fail_model(m: RunModel, key: TypeKey) -> RunModel {
    RunModel { went_through: false, failed: Some(key), ..m }
}

/// The content handle a stage of run `m` receives.
pub open spec fn content_of(m: RunModel) -> ContentModel {
    ContentModel { scope: m.scope, running: m.running }
}

/// The run after an invoked stage handed back content `c` and yield `y`, in a
/// run seeded with kind `key`. The content went through exactly when the run
/// is still flowing afterwards.
pub open spec fn finish_model(key: TypeKey, c: ContentModel, y: StageYield) -> RunModel {
    match y {
        StageYield::Unit => RunModel {
            scope: c.scope,
            running: c.running,
            went_through: c.running,
            failed: None,
            content_key: key,
        },
        StageYield::Stored(v) => RunModel {
            scope: c.scope.insert(key_of(v), v),
            running: c.running,
            went_through: c.running,
            failed: None,
            content_key: key,
        },
        StageYield::Flow(b) => RunModel {
            scope: c.scope,
            running: c.running && b,
            went_through: c.running && b,
            failed: None,
            content_key: key,
        },
        StageYield::Optional(v) => RunModel {
            scope: c.scope.insert(key_of(v), v),
            running: c.running && !is_none_value(v),
            went_through: c.running && !is_none_value(v),
            failed: None,
            content_key: key,
        },
        StageYield::Fallible(v) => RunModel {
            scope: c.scope.insert(key_of(v), v),
            running: c.running && !is_err_value(v),
            went_through: c.running && !is_err_value(v),
            failed: None,
            content_key: key,
        },
    }
}

/// One attached stage, abstractly: the required argument kind, the content
/// the handler would hand back, and its yield.
pub struct StepDesc {
    pub key: TypeKey,
    pub content: ContentModel,
    pub yielded: StageYield,
}

/// The full rule for one attach operation: a non-active run skips the stage;
/// an absent required argument fails the run; otherwise the stage's effect is
/// applied to the content it handed back.
pub open spec fn attach_step(m: RunModel, step: StepDesc) -> RunModel {
    if !active(m) {
        skip_model(m)
    } else if !m.scope.contains_key(step.key) {
        fail_model(m, step.key)
    } else {
        finish_model(m.content_key, step.content, step.yielded)
    }
}

/// A chain of attach operations, applied in order.
pub open spec fn apply_steps(m: RunModel, steps: Seq<StepDesc>) -> RunModel
    decreases steps.len(),
{
    if steps.len() == 0 {
        m
    } else {
        apply_steps(attach_step(m, steps.first()), steps.drop_first())
    }
}

/// Whether applying yield `y` writes a value under key `k`.
pub open spec fn yield_writes(y: StageYield, k: TypeKey) -> bool {
    match y {
        StageYield::Stored(v) => key_of(v) == k,
        StageYield::Optional(v) => key_of(v) == k,
        StageYield::Fallible(v) => key_of(v) == k,
        _ => false,
    }
}

/// The step leaves the value `v` in place under key `k`: the content its
/// stage hands back still maps `k` to `v`, and its yield does not write `k`.
pub open spec fn step_keeps(step: StepDesc, k: TypeKey, v: Value) -> bool {
    &&& step.content.scope.contains_key(k)
    &&& step.content.scope[k] == v
    &&& !yield_writes(step.yielded, k)
}

/// The step leaves key `k` absent: the content its stage hands back does not
/// hold `k`, and its yield does not write `k`.
pub open spec fn step_avoids(step: StepDesc, k: TypeKey) -> bool {
    &&& !step.content.scope.contains_key(k)
    &&& !yield_writes(step.yielded, k)
}

/// Whether `deliver` is owed a value: the seeded kind is present. Seeding
/// establishes it and no stage effect removes an entry, though a stage that
/// swaps the whole content handle may drop it.
pub open spec fn delivery_present(m: RunModel) -> bool {
    m.scope.contains_key(m.content_key)
}

/// What `deliver` returns: the current value of the seeded kind.
pub open spec fn delivery_of(m: RunModel) -> Value {
    m.scope[m.content_key]
}

} // verus!
