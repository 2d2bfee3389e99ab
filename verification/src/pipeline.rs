//! The pipeline driver: sequences stages in attach order, applies each
//! stage's effect, and exposes the delivery and query operations.
//!
//! Every attach operation follows one rule, [`attach_step`]: a run that is no
//! longer active skips the stage outright (no resolution, no call); an absent
//! required argument records a wiring fault, distinct from a declared halt;
//! otherwise the stage runs on the resolved value and the content handle, and
//! its effect is applied to whatever content it handed back.
//!
//! A stage is either a closure (the `*_fn` operations, whose contracts tie the
//! new run state to the closure's own contract) or a type implementing
//! [`FamaPipe`] (the plain operations, whose contracts state the driver's part
//! alone, since an arbitrary implementation promises nothing).

use vstd::prelude::*;

use crate::content::ContentModel;
use crate::content::PipeContent;
use crate::flow::active;
use crate::flow::content_of;
use crate::flow::delivery_of;
use crate::flow::delivery_present;
use crate::flow::fail_model;
use crate::flow::finish_model;
use crate::flow::pass_model;
use crate::flow::pass_within_model;
use crate::flow::skip_model;
use crate::flow::RunModel;
use crate::flow::StageYield;
use crate::content::lemma_content_scope_wf;
use crate::scope::scope_wf;
use crate::scope::Scope;
use crate::value::key_of;
use crate::value::TypeKey;
use crate::value::Value;

verus! {

/// The pipes manager: one run of content through a chain of stages.
pub struct Pipeline {
    pipe_content: PipeContent,
    went_through: bool,
    failed: Option<TypeKey>,
    content_key: TypeKey,
}

impl View for Pipeline {
    type V = RunModel;

    closed spec fn view(&self) -> RunModel {
        RunModel {
            scope: self.pipe_content@.scope,
            running: self.pipe_content@.running,
            went_through: self.went_through,
            failed: self.failed,
            content_key: self.content_key,
        }
    }
}

/// A struct becomes a pipe when it implements `FamaPipe`: the stage receives
/// the resolved value of its required kind and the run's content handle, and
/// hands back the content together with its result of type `O`; how the
/// result is interpreted is chosen by the attach operation.
pub trait FamaPipe<O> {
    /// Where a pipe's logic resides.
    fn receive_pipe_content(&self, content: Value, pipe: PipeContent) -> (PipeContent, O);

    /// Wraps the pipe in a box.
    fn to_pipe(self) -> Box<Self> where Self: Sized {
        Box::new(self)
    }
}

/// The part of a run that an invoked stage does not touch, held by the driver
/// while the stage runs. Its view is the seeded content kind.
pub struct StageFrame {
    content_key: TypeKey,
}

impl View for StageFrame {
    type V = TypeKey;

    closed spec fn view(&self) -> TypeKey {
        self.content_key
    }
}

/// The driver's decision about one stage: either the stage is not run (the
/// run was skipped or a required argument was absent) and the run is already
/// final, or the stage is to be invoked on the resolved value and the content
/// handle, and the run resumes through [`StageFrame::finish_stage`].
pub enum BeginStage {
    NotRun(Pipeline),
    Run(Value, PipeContent, StageFrame),
}

impl StageFrame {
    /// Resumes the run after an invoked stage handed back `content` and
    /// `yielded`: applies the stage's effect and records whether the content
    /// went through.
    pub fn finish_stage(self, content: PipeContent, yielded: StageYield) -> (p: Pipeline)
        ensures
            p@ == finish_model(self@, content@, yielded),
    {
        let mut c = content;
        match yielded {
            StageYield::Unit => {},
            StageYield::Stored(v) => {
                c.store(v);
            },
            StageYield::Flow(b) => {
                if !b {
                    c.stop_the_flow();
                }
            },
            StageYield::Optional(v) => {
                let absent = v.is_none_value();
                c.store(v);
                if absent {
                    c.stop_the_flow();
                }
            },
            StageYield::Fallible(v) => {
                let err = v.is_err_value();
                c.store(v);
                if err {
                    c.stop_the_flow();
                }
            },
        }
        let went = c.is_running();
        Pipeline { pipe_content: c, went_through: went, failed: None, content_key: self.content_key }
    }
}

/// Contract of `through_fn`: a skipped or failed stage is final; an invoked
/// stage's handler received the resolved value and the run's content, and the
/// run adopted the content it handed back, its own result discarded.
pub open spec fn through_fn_post<F: Fn(Value, PipeContent) -> PipeContent>(
    f: F,
    m: RunModel,
    key: TypeKey,
    out: RunModel,
) -> bool {
    if !active(m) {
        out == skip_model(m)
    } else if !m.scope.contains_key(key) {
        out == fail_model(m, key)
    } else {
        exists|c_in: PipeContent, c_out: PipeContent|
            {
                &&& c_in@ == content_of(m)
                &&& #[trigger] call_ensures(f, (m.scope[key], c_in), c_out)
                &&& out == finish_model(m.content_key, c_out@, StageYield::Unit)
            }
    }
}

/// Contract of `through_content`: a stage with no required value kind — it
/// receives the content handle alone, so nothing can fail to resolve.
pub open spec fn through_content_post<F: Fn(PipeContent) -> PipeContent>(
    f: F,
    m: RunModel,
    out: RunModel,
) -> bool {
    if !active(m) {
        out == skip_model(m)
    } else {
        exists|c_in: PipeContent, c_out: PipeContent|
            {
                &&& c_in@ == content_of(m)
                &&& #[trigger] call_ensures(f, (c_in,), c_out)
                &&& out == finish_model(m.content_key, c_out@, StageYield::Unit)
            }
    }
}

/// Contract of `store_fn`: as `through_fn`, but the handler's returned value
/// is stored, keyed by its own kind.
pub open spec fn store_fn_post<F: Fn(Value, PipeContent) -> (PipeContent, Value)>(
    f: F,
    m: RunModel,
    key: TypeKey,
    out: RunModel,
) -> bool {
    if !active(m) {
        out == skip_model(m)
    } else if !m.scope.contains_key(key) {
        out == fail_model(m, key)
    } else {
        exists|c_in: PipeContent, ret: (PipeContent, Value)|
            {
                &&& c_in@ == content_of(m)
                &&& #[trigger] call_ensures(f, (m.scope[key], c_in), ret)
                &&& out == finish_model(m.content_key, ret.0@, StageYield::Stored(ret.1))
            }
    }
}

/// Contract of `next_fn`: the handler's boolean decides the flow; `false`
/// halts the run and nothing is stored.
pub open spec fn next_fn_post<F: Fn(Value, PipeContent) -> (PipeContent, bool)>(
    f: F,
    m: RunModel,
    key: TypeKey,
    out: RunModel,
) -> bool {
    if !active(m) {
        out == skip_model(m)
    } else if !m.scope.contains_key(key) {
        out == fail_model(m, key)
    } else {
        exists|c_in: PipeContent, ret: (PipeContent, bool)|
            {
                &&& c_in@ == content_of(m)
                &&& #[trigger] call_ensures(f, (m.scope[key], c_in), ret)
                &&& out == finish_model(m.content_key, ret.0@, StageYield::Flow(ret.1))
            }
    }
}

/// Contract of `some_fn`: the handler's value is stored as-is; an absent
/// optional halts the run.
pub open spec fn some_fn_post<F: Fn(Value, PipeContent) -> (PipeContent, Value)>(
    f: F,
    m: RunModel,
    key: TypeKey,
    out: RunModel,
) -> bool {
    if !active(m) {
        out == skip_model(m)
    } else if !m.scope.contains_key(key) {
        out == fail_model(m, key)
    } else {
        exists|c_in: PipeContent, ret: (PipeContent, Value)|
            {
                &&& c_in@ == content_of(m)
                &&& #[trigger] call_ensures(f, (m.scope[key], c_in), ret)
                &&& out == finish_model(m.content_key, ret.0@, StageYield::Optional(ret.1))
            }
    }
}

/// Contract of `ok_fn`: the handler's value is stored as-is; an error halts
/// the run.
pub open spec fn ok_fn_post<F: Fn(Value, PipeContent) -> (PipeContent, Value)>(
    f: F,
    m: RunModel,
    key: TypeKey,
    out: RunModel,
) -> bool {
    if !active(m) {
        out == skip_model(m)
    } else if !m.scope.contains_key(key) {
        out == fail_model(m, key)
    } else {
        exists|c_in: PipeContent, ret: (PipeContent, Value)|
            {
                &&& c_in@ == content_of(m)
                &&& #[trigger] call_ensures(f, (m.scope[key], c_in), ret)
                &&& out == finish_model(m.content_key, ret.0@, StageYield::Fallible(ret.1))
            }
    }
}

/// Contract of the `FamaPipe` attach operations: the driver's part alone,
/// since an arbitrary stage implementation promises nothing of the content it
/// hands back. The run adopted some content with the yield the operation
/// prescribes.
pub open spec fn stage_post(m: RunModel, key: TypeKey, out: RunModel, y: StageYield) -> bool {
    if !active(m) {
        out == skip_model(m)
    } else if !m.scope.contains_key(key) {
        out == fail_model(m, key)
    } else {
        exists|c: ContentModel| out == #[trigger] finish_model(m.content_key, c, y)
    }
}

/// As `stage_post`, for operations whose yield carries a handler result the
/// contract cannot name: some content and some yield of the given shape.
pub open spec fn stage_post_stored(m: RunModel, key: TypeKey, out: RunModel) -> bool {
    if !active(m) {
        out == skip_model(m)
    } else if !m.scope.contains_key(key) {
        out == fail_model(m, key)
    } else {
        exists|c: ContentModel, v: Value|
            out == #[trigger] finish_model(m.content_key, c, StageYield::Stored(v))
    }
}

/// As `stage_post_stored`, with a flow decision.
pub open spec fn stage_post_flow(m: RunModel, key: TypeKey, out: RunModel) -> bool {
    if !active(m) {
        out == skip_model(m)
    } else if !m.scope.contains_key(key) {
        out == fail_model(m, key)
    } else {
        exists|c: ContentModel, b: bool|
            out == #[trigger] finish_model(m.content_key, c, StageYield::Flow(b))
    }
}

/// As `stage_post_stored`, with an optional value.
pub open spec fn stage_post_optional(m: RunModel, key: TypeKey, out: RunModel) -> bool {
    if !active(m) {
        out == skip_model(m)
    } else if !m.scope.contains_key(key) {
        out == fail_model(m, key)
    } else {
        exists|c: ContentModel, v: Value|
            out == #[trigger] finish_model(m.content_key, c, StageYield::Optional(v))
    }
}

/// As `stage_post_stored`, with a fallible value.
pub open spec fn stage_post_fallible(m: RunModel, key: TypeKey, out: RunModel) -> bool {
    if !active(m) {
        out == skip_model(m)
    } else if !m.scope.contains_key(key) {
        out == fail_model(m, key)
    } else {
        exists|c: ContentModel, v: Value|
            out == #[trigger] finish_model(m.content_key, c, StageYield::Fallible(v))
    }
}

impl Pipeline {
    /// Accepts the pipeline content: a fresh run, its scope seeded with
    /// `content`, running, nothing halted or failed. This is the beginning of
    /// the pipeline.
    pub fn pass(content: Value) -> (p: Pipeline)
        ensures
            p@ == pass_model(content),
    {
        let key = content.key();
        Pipeline {
            pipe_content: PipeContent::new(content),
            went_through: true,
            failed: None,
            content_key: key,
        }
    }

    /// As `pass`, but the run's scope falls back to `outer`: stages see the
    /// outer entries unless the run overrides them.
    pub fn pass_within(content: Value, outer: &Scope) -> (p: Pipeline)
        ensures
            p@ == pass_within_model(content, outer@),
    {
        let key = content.key();
        let mut pipe_content = PipeContent::make_within(outer);
        pipe_content.store(content);
        Pipeline { pipe_content, went_through: true, failed: None, content_key: key }
    }

    /// Stores `content` into the running scope, keyed by its own kind; the
    /// rest of the run is untouched.
    pub fn pass_content(self, content: Value) -> (p: Pipeline)
        ensures
            p@ == (RunModel { scope: self@.scope.insert(key_of(content), content), ..self@ }),
    {
        let Pipeline { mut pipe_content, went_through, failed, content_key } = self;
        pipe_content.store(content);
        Pipeline { pipe_content, went_through, failed, content_key }
    }

    /// The driver's decision about the next stage, with required argument
    /// kind `key`: skip a non-active run, fail on an absent argument, or hand
    /// out the resolved value and the content for the stage to run on.
    pub fn begin_stage(self, key: TypeKey) -> (r: BeginStage)
        ensures
            match r {
                BeginStage::NotRun(p) => {
                    ||| (!active(self@) && p@ == skip_model(self@))
                    ||| (active(self@) && !self@.scope.contains_key(key) && p@ == fail_model(
                        self@,
                        key,
                    ))
                },
                BeginStage::Run(v, c, frame) => {
                    &&& active(self@)
                    &&& self@.scope.contains_key(key)
                    &&& v == self@.scope[key]
                    &&& c@ == content_of(self@)
                    &&& frame@ == self@.content_key
                },
            },
    {
        if !self.is_active() {
            let Pipeline { pipe_content, went_through: _, failed, content_key } = self;
            BeginStage::NotRun(
                Pipeline { pipe_content, went_through: false, failed, content_key },
            )
        } else {
            let resolved = self.pipe_content.container().get(key);
            let Pipeline { pipe_content, went_through: _, failed, content_key } = self;
            match resolved {
                None => BeginStage::NotRun(
                    Pipeline { pipe_content, went_through: false, failed: Some(key), content_key },
                ),
                Some(v) => BeginStage::Run(v, pipe_content, StageFrame { content_key }),
            }
        }
    }

    /// Attaches a closure whose result is discarded: only scope changes made
    /// through the content handle count.
    pub fn through_fn<F: Fn(Value, PipeContent) -> PipeContent>(self, key: TypeKey, f: F) -> (r:
        Self)
        requires
            forall|v: Value, c: PipeContent|
                (active(self@) && self@.scope.contains_key(key) && v == self@.scope[key] && c@
                    == content_of(self@)) ==> #[trigger] call_requires(f, (v, c)),
        ensures
            through_fn_post(f, self@, key, r@),
    {
        let ghost m = self@;
        match self.begin_stage(key) {
            BeginStage::NotRun(p) => p,
            BeginStage::Run(v, c, frame) => {
                let ghost gc = c;
                let c_out = f(v, c);
                let ghost gout = c_out;
                let p = frame.finish_stage(c_out, StageYield::Unit);
                proof {
                    assert(call_ensures(f, (m.scope[key], gc), gout));
                }
                p
            },
        }
    }

    /// Attaches a closure that takes the content handle alone: a stage with
    /// no required value kind, so attaching it never fails. Its result is
    /// discarded; only scope changes made through the handle count.
    pub fn through_content<F: Fn(PipeContent) -> PipeContent>(self, f: F) -> (r: Self)
        requires
            forall|c: PipeContent|
                (active(self@) && c@ == content_of(self@)) ==> #[trigger] call_requires(f, (c,)),
        ensures
            through_content_post(f, self@, r@),
    {
        let ghost m = self@;
        if !self.is_active() {
            let Pipeline { pipe_content, went_through: _, failed, content_key } = self;
            Pipeline { pipe_content, went_through: false, failed, content_key }
        } else {
            let Pipeline { pipe_content, went_through: _, failed: _, content_key } = self;
            let ghost gc = pipe_content;
            let c_out = f(pipe_content);
            let ghost gout = c_out;
            let p = StageFrame { content_key }.finish_stage(c_out, StageYield::Unit);
            proof {
                assert(call_ensures(f, (gc,), gout));
            }
            p
        }
    }

    /// Attaches a closure whose boolean result decides the flow: `false`
    /// halts the run; nothing is stored.
    pub fn next_fn<F: Fn(Value, PipeContent) -> (PipeContent, bool)>(self, key: TypeKey, f: F) -> (
        r: Self)
        requires
            forall|v: Value, c: PipeContent|
                (active(self@) && self@.scope.contains_key(key) && v == self@.scope[key] && c@
                    == content_of(self@)) ==> #[trigger] call_requires(f, (v, c)),
        ensures
            next_fn_post(f, self@, key, r@),
    {
        let ghost m = self@;
        match self.begin_stage(key) {
            BeginStage::NotRun(p) => p,
            BeginStage::Run(v, c, frame) => {
                let ghost gc = c;
                let ret = f(v, c);
                let ghost gret = ret;
                let (c_out, keep) = ret;
                let p = frame.finish_stage(c_out, StageYield::Flow(keep));
                proof {
                    assert(call_ensures(f, (m.scope[key], gc), gret));
                }
                p
            },
        }
    }

    /// Attaches a closure whose result is stored, keyed by its own kind.
    pub fn store_fn<F: Fn(Value, PipeContent) -> (PipeContent, Value)>(self, key: TypeKey, f: F) -> (
        r: Self)
        requires
            forall|v: Value, c: PipeContent|
                (active(self@) && self@.scope.contains_key(key) && v == self@.scope[key] && c@
                    == content_of(self@)) ==> #[trigger] call_requires(f, (v, c)),
        ensures
            store_fn_post(f, self@, key, r@),
    {
        let ghost m = self@;
        match self.begin_stage(key) {
            BeginStage::NotRun(p) => p,
            BeginStage::Run(v, c, frame) => {
                let ghost gc = c;
                let ret = f(v, c);
                let ghost gret = ret;
                let (c_out, produced) = ret;
                let p = frame.finish_stage(c_out, StageYield::Stored(produced));
                proof {
                    assert(call_ensures(f, (m.scope[key], gc), gret));
                }
                p
            },
        }
    }

    /// Attaches a closure returning an optional value, stored as-is; an
    /// absent optional halts the run.
    pub fn some_fn<F: Fn(Value, PipeContent) -> (PipeContent, Value)>(self, key: TypeKey, f: F) -> (
        r: Self)
        requires
            forall|v: Value, c: PipeContent|
                (active(self@) && self@.scope.contains_key(key) && v == self@.scope[key] && c@
                    == content_of(self@)) ==> #[trigger] call_requires(f, (v, c)),
        ensures
            some_fn_post(f, self@, key, r@),
    {
        let ghost m = self@;
        match self.begin_stage(key) {
            BeginStage::NotRun(p) => p,
            BeginStage::Run(v, c, frame) => {
                let ghost gc = c;
                let ret = f(v, c);
                let ghost gret = ret;
                let (c_out, produced) = ret;
                let p = frame.finish_stage(c_out, StageYield::Optional(produced));
                proof {
                    assert(call_ensures(f, (m.scope[key], gc), gret));
                }
                p
            },
        }
    }

    /// Attaches a closure returning a fallible value, stored as-is; an error
    /// halts the run.
    pub fn ok_fn<F: Fn(Value, PipeContent) -> (PipeContent, Value)>(self, key: TypeKey, f: F) -> (
        r: Self)
        requires
            forall|v: Value, c: PipeContent|
                (active(self@) && self@.scope.contains_key(key) && v == self@.scope[key] && c@
                    == content_of(self@)) ==> #[trigger] call_requires(f, (v, c)),
        ensures
            ok_fn_post(f, self@, key, r@),
    {
        let ghost m = self@;
        match self.begin_stage(key) {
            BeginStage::NotRun(p) => p,
            BeginStage::Run(v, c, frame) => {
                let ghost gc = c;
                let ret = f(v, c);
                let ghost gret = ret;
                let (c_out, produced) = ret;
                let p = frame.finish_stage(c_out, StageYield::Fallible(produced));
                proof {
                    assert(call_ensures(f, (m.scope[key], gc), gret));
                }
                p
            },
        }
    }

    /// Attaches a `FamaPipe` whose result is discarded: only scope changes
    /// made through the content handle count.
    pub fn through<O, H: FamaPipe<O>>(self, key: TypeKey, handler: H) -> (r: Self)
        ensures
            stage_post(self@, key, r@, StageYield::Unit),
    {
        match self.begin_stage(key) {
            BeginStage::NotRun(p) => p,
            BeginStage::Run(v, c, frame) => {
                let (c_out, _discarded) = handler.receive_pipe_content(v, c);
                frame.finish_stage(c_out, StageYield::Unit)
            },
        }
    }

    /// Attaches a `FamaPipe` whose boolean result decides the flow: `false`
    /// halts the run; nothing is stored.
    pub fn next<H: FamaPipe<bool>>(self, key: TypeKey, handler: H) -> (r: Self)
        ensures
            stage_post_flow(self@, key, r@),
    {
        match self.begin_stage(key) {
            BeginStage::NotRun(p) => p,
            BeginStage::Run(v, c, frame) => {
                let (c_out, keep) = handler.receive_pipe_content(v, c);
                frame.finish_stage(c_out, StageYield::Flow(keep))
            },
        }
    }

    /// Attaches a `FamaPipe` whose result is stored, keyed by its own kind.
    pub fn store<H: FamaPipe<Value>>(self, key: TypeKey, handler: H) -> (r: Self)
        ensures
            stage_post_stored(self@, key, r@),
    {
        match self.begin_stage(key) {
            BeginStage::NotRun(p) => p,
            BeginStage::Run(v, c, frame) => {
                let (c_out, produced) = handler.receive_pipe_content(v, c);
                frame.finish_stage(c_out, StageYield::Stored(produced))
            },
        }
    }

    /// Attaches a `FamaPipe` returning an optional value, stored as-is; an
    /// absent optional halts the run.
    pub fn some<H: FamaPipe<Value>>(self, key: TypeKey, handler: H) -> (r: Self)
        ensures
            stage_post_optional(self@, key, r@),
    {
        match self.begin_stage(key) {
            BeginStage::NotRun(p) => p,
            BeginStage::Run(v, c, frame) => {
                let (c_out, produced) = handler.receive_pipe_content(v, c);
                frame.finish_stage(c_out, StageYield::Optional(produced))
            },
        }
    }

    /// Attaches a `FamaPipe` returning a fallible value, stored as-is; an
    /// error halts the run.
    pub fn ok<H: FamaPipe<Value>>(self, key: TypeKey, handler: H) -> (r: Self)
        ensures
            stage_post_fallible(self@, key, r@),
    {
        match self.begin_stage(key) {
            BeginStage::NotRun(p) => p,
            BeginStage::Run(v, c, frame) => {
                let (c_out, produced) = handler.receive_pipe_content(v, c);
                frame.finish_stage(c_out, StageYield::Fallible(produced))
            },
        }
    }

    /// Returns the current value of the kind the run was seeded with, for
    /// callers that hold a proof of its presence. Seeding establishes
    /// presence and no stage effect removes an entry.
    pub fn deliver(&self) -> (r: Value)
        requires
            delivery_present(self@),
        ensures
            r == delivery_of(self@),
    {
        self.pipe_content.container().get_required(self.content_key)
    }

    /// The current value of the kind the run was seeded with, or `None` when
    /// a stage replaced the whole content and dropped it.
    pub fn try_to_deliver(&self) -> (r: Option<Value>)
        ensures
            match r {
                Some(v) => delivery_present(self@) && v == delivery_of(self@),
                None => !delivery_present(self@),
            },
    {
        self.pipe_content.container().get(self.content_key)
    }

    /// Returns the stored value of an arbitrary kind `key`, not necessarily
    /// the seeded one, for callers that hold a proof of its presence.
    pub fn deliver_as(&self, key: TypeKey) -> (r: Value)
        requires
            self@.scope.contains_key(key),
        ensures
            r == self@.scope[key],
    {
        self.pipe_content.container().get_required(key)
    }

    /// The stored value of an arbitrary kind `key`, or `None` when no value
    /// of that kind was ever stored.
    pub fn try_deliver_as(&self, key: TypeKey) -> (r: Option<Value>)
        ensures
            match r {
                Some(v) => self@.scope.contains_key(key) && v == self@.scope[key],
                None => !self@.scope.contains_key(key),
            },
    {
        self.pipe_content.container().get(key)
    }

    /// Whether the content went through all the attached stages: false once a
    /// stage halted the run, failed to resolve, or was skipped.
    pub fn confirm(&self) -> (r: bool)
        ensures
            r == self@.went_through,
    {
        self.went_through
    }

    /// The wiring fault, if a stage's required argument kind was absent:
    /// distinguishes a broken pipeline from a run a stage correctly halted.
    pub fn failure(&self) -> (r: Option<TypeKey>)
        ensures
            r == self@.failed,
    {
        self.failed
    }

    /// Whether the next attached stage would be invoked: the run is neither
    /// halted nor failed.
    pub fn is_active(&self) -> (r: bool)
        ensures
            r == active(self@),
    {
        self.pipe_content.is_running() && self.failed.is_none()
    }
}

/// The scope of every run is well-formed: each value sits under the key of
/// its own kind.
pub proof fn lemma_pipeline_scope_wf(p: &Pipeline)
    ensures
        scope_wf(p@.scope),
{
    lemma_content_scope_wf(&p.pipe_content);
}

} // verus!
