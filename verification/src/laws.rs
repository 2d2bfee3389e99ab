//! The engine's laws: what holds of every run and of every registry, proved
//! over the same spec functions the executable contracts use.

use vstd::prelude::*;

use crate::content::ContentModel;
use crate::flow::active;
use crate::flow::apply_steps;
use crate::flow::attach_step;
use crate::flow::content_of;
use crate::flow::delivery_of;
use crate::flow::delivery_present;
use crate::flow::pass_model;
use crate::flow::step_avoids;
use crate::flow::step_keeps;
use crate::flow::RunModel;
use crate::flow::StageYield;
use crate::flow::StepDesc;
use crate::pipeline::Pipeline;
use crate::pipeline_builder::entry_of;
use crate::pipeline_builder::folds;
use crate::pipeline_builder::initial_model;
use crate::pipeline_builder::register_model;
use crate::scope::scope_wf;
use crate::value::is_err_value;
use crate::value::is_none_value;
use crate::value::key_of;
use crate::value::TypeKey;
use crate::value::Value;

verus! {

/// A run with no stages delivers exactly its payload and confirms: the seeded
/// value is present under its own kind, `deliver` returns it, and the content
/// has gone through.
pub proof fn lemma_empty_run_delivers_payload(v: Value)
    ensures
        delivery_present(pass_model(v)),
        delivery_of(pass_model(v)) == v,
        pass_model(v).went_through,
        active(pass_model(v)),
{
}

/// A stage that halts the run — a false flow decision, an absent optional or
/// an error — leaves the run inactive, with the content not gone through.
pub proof fn lemma_halting_stage_stops_run(m: RunModel, step: StepDesc)
    requires
        active(m),
        m.scope.contains_key(step.key),
        match step.yielded {
            StageYield::Flow(b) => !b,
            StageYield::Optional(v) => is_none_value(v),
            StageYield::Fallible(v) => is_err_value(v),
            _ => false,
        },
    ensures
        !active(attach_step(m, step)),
        !attach_step(m, step).went_through,
{
}

/// Once a run is not active — a stage halted it or a required argument failed
/// to resolve — it is final: every later stage is skipped without resolution
/// or call, so the scope, the run flag and the recorded fault never change
/// again, and after any further attachment the content has not gone through.
pub proof fn lemma_inactive_run_is_final(m: RunModel, steps: Seq<StepDesc>)
    requires
        !active(m),
    ensures
        apply_steps(m, steps).scope == m.scope,
        apply_steps(m, steps).running == m.running,
        apply_steps(m, steps).failed == m.failed,
        apply_steps(m, steps).content_key == m.content_key,
        steps.len() > 0 ==> !apply_steps(m, steps).went_through,
        steps.len() == 0 ==> apply_steps(m, steps) == m,
    decreases steps.len(),
{
    if steps.len() > 0 {
        lemma_inactive_run_is_final(attach_step(m, steps.first()), steps.drop_first());
    }
}

/// The run flag is monotonic: no stage ever turns a stopped run back on.
pub proof fn lemma_run_state_is_monotonic(m: RunModel, step: StepDesc)
    ensures
        attach_step(m, step).running ==> m.running,
{
}

/// `confirm` tracks activity: seeding starts a run whose content has gone
/// through, and every attach step leaves the content gone through exactly
/// when the run is still active.
pub proof fn lemma_confirm_tracks_activity(m: RunModel, step: StepDesc)
    requires
        m.went_through == active(m),
    ensures
        attach_step(m, step).went_through == active(attach_step(m, step)),
{
}

/// A store stage that returns the current value of its required kind
/// unchanged changes nothing: the scope stays as it was, so every delivery is
/// unchanged, and the run keeps flowing.
pub proof fn lemma_noop_store_changes_nothing(m: RunModel, key: TypeKey)
    requires
        active(m),
        scope_wf(m.scope),
        m.scope.contains_key(key),
    ensures
        ({
            let out = attach_step(
                m,
                StepDesc { key, content: content_of(m), yielded: StageYield::Stored(m.scope[key]) },
            );
            &&& out.scope == m.scope
            &&& out.running == m.running
            &&& out.went_through
            &&& delivery_present(out) == delivery_present(m)
            &&& delivery_present(m) ==> delivery_of(out) == delivery_of(m)
        }),
{
    assert(m.scope.insert(key_of(m.scope[key]), m.scope[key]) =~= m.scope);
}

/// A stored value is immediately deliverable: right after a stage stores `v`,
/// the scope holds exactly `v` under the key of its own kind.
pub proof fn lemma_store_round_trip(m: RunModel, key: TypeKey, c: ContentModel, v: Value)
    requires
        active(m),
        m.scope.contains_key(key),
    ensures
        ({
            let out = attach_step(m, StepDesc { key, content: c, yielded: StageYield::Stored(v) });
            &&& out.scope.contains_key(key_of(v))
            &&& out.scope[key_of(v)] == v
        }),
{
}

/// A stored value survives every later stage that does not overwrite its
/// kind: delivering as that kind still returns exactly the stored value.
pub proof fn lemma_undisturbed_kind_survives(
    m: RunModel,
    k: TypeKey,
    v: Value,
    steps: Seq<StepDesc>,
)
    requires
        m.scope.contains_key(k),
        m.scope[k] == v,
        forall|i: int| 0 <= i < steps.len() ==> step_keeps(#[trigger] steps[i], k, v),
    ensures
        apply_steps(m, steps).scope.contains_key(k),
        apply_steps(m, steps).scope[k] == v,
    decreases steps.len(),
{
    if steps.len() > 0 {
        let m1 = attach_step(m, steps.first());
        assert(m1.scope.contains_key(k) && m1.scope[k] == v);
        lemma_undisturbed_kind_survives(m1, k, v, steps.drop_first());
    }
}

/// A kind that was never stored stays absent: when the seeded payload is not
/// of kind `k` and no later stage stores or reintroduces `k`, trying to
/// deliver as `k` finds nothing.
pub proof fn lemma_never_stored_is_absent(v0: Value, k: TypeKey, steps: Seq<StepDesc>)
    requires
        k != key_of(v0),
        forall|i: int| 0 <= i < steps.len() ==> step_avoids(#[trigger] steps[i], k),
    ensures
        !apply_steps(pass_model(v0), steps).scope.contains_key(k),
{
    lemma_unstored_kind_stays_absent(pass_model(v0), k, steps);
}

/// A kind absent from a run stays absent through stages that neither hold nor
/// store it.
pub proof fn lemma_unstored_kind_stays_absent(m: RunModel, k: TypeKey, steps: Seq<StepDesc>)
    requires
        !m.scope.contains_key(k),
        forall|i: int| 0 <= i < steps.len() ==> step_avoids(#[trigger] steps[i], k),
    ensures
        !apply_steps(m, steps).scope.contains_key(k),
    decreases steps.len(),
{
    if steps.len() > 0 {
        let m1 = attach_step(m, steps.first());
        assert(!m1.scope.contains_key(k));
        lemma_unstored_kind_stays_absent(m1, k, steps.drop_first());
    }
}

/// First touches are idempotent: touching a payload kind a second time leaves
/// the registry exactly as the first touch left it, so two callers hold
/// handles to the same underlying list.
pub proof fn lemma_initial_is_idempotent<F: Fn(Pipeline) -> Pipeline>(
    m: Map<TypeKey, Seq<F>>,
    key: TypeKey,
)
    ensures
        initial_model(initial_model(m, key), key) == initial_model(m, key),
        entry_of(initial_model(m, key), key) == entry_of(m, key),
{
}

/// An append through any handle to a kind is visible to every reader of that
/// kind: after registering, the entry is the old list with the callback at
/// the end, and every other kind's entry is untouched.
pub proof fn lemma_register_is_visible_to_all<F: Fn(Pipeline) -> Pipeline>(
    m: Map<TypeKey, Seq<F>>,
    key: TypeKey,
    callback: F,
)
    ensures
        entry_of(register_model(m, key, callback), key) == entry_of(m, key).push(callback),
        forall|other: TypeKey|
            other != key ==> #[trigger] entry_of(register_model(m, key, callback), other)
                == entry_of(m, other),
{
}

/// Two runs built from the same entry go through the identical callback
/// sequence, in the same order: when every callback of the entry is
/// deterministic modulo its contract — any two of its outputs for one input
/// are equal — folding the entry twice over one starting run yields one run.
pub proof fn lemma_same_entry_builds_equal_runs<F: Fn(Pipeline) -> Pipeline>(
    cbs: Seq<F>,
    p0: Pipeline,
    pa: Pipeline,
    pb: Pipeline,
)
    requires
        folds(cbs, p0, pa),
        folds(cbs, p0, pb),
        forall|i: int, q: Pipeline, r1: Pipeline, r2: Pipeline|
            0 <= i < cbs.len() && #[trigger] call_ensures(cbs[i], (q,), r1)
                && #[trigger] call_ensures(cbs[i], (q,), r2) ==> r1 == r2,
    ensures
        pa == pb,
    decreases cbs.len(),
{
    if cbs.len() == 0 {
    } else {
        let mida = choose|mid: Pipeline|
            #[trigger] call_ensures(cbs.last(), (mid,), pa) && folds(cbs.drop_last(), p0, mid);
        let midb = choose|mid: Pipeline|
            #[trigger] call_ensures(cbs.last(), (mid,), pb) && folds(cbs.drop_last(), p0, mid);
        assert forall|i: int, q: Pipeline, r1: Pipeline, r2: Pipeline|
            0 <= i < cbs.drop_last().len() && #[trigger] call_ensures(
                cbs.drop_last()[i],
                (q,),
                r1,
            ) && #[trigger] call_ensures(cbs.drop_last()[i], (q,), r2) implies r1 == r2 by {
            assert(cbs.drop_last()[i] == cbs[i]);
        }
        lemma_same_entry_builds_equal_runs(cbs.drop_last(), p0, mida, midb);
        assert(cbs.last() == cbs[cbs.len() - 1]);
    }
}

} // verus!
