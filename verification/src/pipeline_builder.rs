//! The builder and registry: independently-authored callers contribute stages
//! to the canonical pipeline of a payload kind without central coordination.
//!
//! A [`PipelineBuilder`] is one ordered, append-only list of deferred
//! stage-attachment callbacks, each a function from driver to driver. A
//! [`Registry`] is an explicit table from payload kind to its builder, handed
//! to the call sites that need it: an entry is created at most once
//! ([`Registry::initial`]), optionally seeded by a one-time setup hook run
//! exactly at creation ([`Registry::pipeline_builder`]), and `build` folds the
//! entry's callbacks, in registration order, over a fresh run of the given
//! content.

use vstd::prelude::*;

use crate::flow::pass_model;
use crate::pipeline::Pipeline;
use crate::value::TypeKey;
use crate::value::Value;

verus! {

/// Every callback of `cbs` accepts any driver: what a callback list must
/// satisfy for `build` to fold it.
pub open spec fn callbacks_total<F: Fn(Pipeline) -> Pipeline>(cbs: Seq<F>) -> bool {
    forall|i: int, q: Pipeline| 0 <= i < cbs.len() ==> #[trigger] call_requires(cbs[i], (q,))
}

/// The driver `p1` is a possible result of folding the callbacks `cbs`, in
/// order, over the driver `p0`.
pub open spec fn folds<F: Fn(Pipeline) -> Pipeline>(cbs: Seq<F>, p0: Pipeline, p1: Pipeline) -> bool
    decreases cbs.len(),
{
    if cbs.len() == 0 {
        p1 == p0
    } else {
        exists|mid: Pipeline|
            #[trigger] call_ensures(cbs.last(), (mid,), p1) && folds(cbs.drop_last(), p0, mid)
    }
}

/// A fold through an empty callback list is the identity: the result is the
/// starting run itself.
pub proof fn lemma_folds_empty<F: Fn(Pipeline) -> Pipeline>(cbs: Seq<F>, p0: Pipeline, p1: Pipeline)
    requires
        cbs.len() == 0,
        folds(cbs, p0, p1),
    ensures
        p1 == p0,
{
}

/// Inverts one fold step: a run folded through a non-empty callback list came
/// through some intermediate run that the earlier callbacks produced and that
/// the last callback mapped to the result.
pub proof fn lemma_folds_inversion<F: Fn(Pipeline) -> Pipeline>(
    cbs: Seq<F>,
    p0: Pipeline,
    p1: Pipeline,
) -> (mid: Pipeline)
    requires
        cbs.len() > 0,
        folds(cbs, p0, p1),
    ensures
        call_ensures(cbs.last(), (mid,), p1),
        folds(cbs.drop_last(), p0, mid),
{
    choose|mid: Pipeline|
        #[trigger] call_ensures(cbs.last(), (mid,), p1) && folds(cbs.drop_last(), p0, mid)
}

/// The callbacks an entry holds: its sequence, or empty before first touch.
pub open spec fn seq_or_empty<F: Fn(Pipeline) -> Pipeline>(o: Option<Seq<F>>) -> Seq<F> {
    match o {
        Some(s) => s,
        None => Seq::empty(),
    }
}

/// The callback list of the entry under `key`, empty when no entry exists.
pub open spec fn entry_of<F: Fn(Pipeline) -> Pipeline>(
    m: Map<TypeKey, Seq<F>>,
    key: TypeKey,
) -> Seq<F> {
    if m.contains_key(key) {
        m[key]
    } else {
        Seq::empty()
    }
}

/// The table after an idempotent first touch of `key`: the empty entry is
/// created when absent, and an existing entry is left as it is.
pub open spec fn initial_model<F: Fn(Pipeline) -> Pipeline>(
    m: Map<TypeKey, Seq<F>>,
    key: TypeKey,
) -> Map<TypeKey, Seq<F>> {
    if m.contains_key(key) {
        m
    } else {
        m.insert(key, Seq::empty())
    }
}

/// The table after appending `callback` to the entry of `key`, the entry
/// created first when absent.
pub open spec fn register_model<F: Fn(Pipeline) -> Pipeline>(
    m: Map<TypeKey, Seq<F>>,
    key: TypeKey,
    callback: F,
) -> Map<TypeKey, Seq<F>> {
    m.insert(key, entry_of(m, key).push(callback))
}

/// One payload kind's pipeline: an ordered, append-only list of deferred
/// stage-attachment callbacks. Its view is the callback sequence.
pub struct PipelineBuilder<F> where F: Fn(Pipeline) -> Pipeline {
    pipes: Vec<F>,
}

impl<F> View for PipelineBuilder<F> where F: Fn(Pipeline) -> Pipeline {
    type V = Seq<F>;

    closed spec fn view(&self) -> Seq<F> {
        self.pipes@
    }
}

impl<F> PipelineBuilder<F> where F: Fn(Pipeline) -> Pipeline + Copy {
    /// An empty builder: no callbacks yet.
    pub fn new() -> (b: Self)
        ensures
            b@ == Seq::<F>::empty(),
    {
        PipelineBuilder { pipes: Vec::new() }
    }

    /// Appends `callback` to the pipeline; callbacks run in registration
    /// order.
    pub fn register(&mut self, callback: F)
        ensures
            final(self)@ == old(self)@.push(callback),
    {
        self.pipes.push(callback);
    }

    /// Creates a fresh run seeded with `content` and folds every registered
    /// callback over it, in registration order; the resulting driver is
    /// returned undelivered.
    pub fn build(&self, content: Value) -> (p: Pipeline)
        requires
            callbacks_total(self@),
        ensures
            exists|p0: Pipeline| #[trigger] folds(self@, p0, p) && p0@ == pass_model(content),
    {
        let mut p = Pipeline::pass(content);
        let ghost p0 = p;
        let mut i: usize = 0;
        while i < self.pipes.len()
            invariant
                callbacks_total(self@),
                i <= self@.len(),
                folds(self@.take(i as int), p0, p),
                p0@ == pass_model(content),
            decreases self@.len() - i,
        {
            let cb = self.pipes[i];
            p = cb(p);
            proof {
                assert(self@.take(i as int + 1).drop_last() =~= self@.take(i as int));
                assert(self@.take(i as int + 1).last() == self@[i as int]);
                assert(folds(self@.take(i as int + 1), p0, p));
            }
            i += 1;
        }
        proof {
            assert(self@.take(self@.len() as int) =~= self@);
        }
        p
    }
}

impl<F> Default for PipelineBuilder<F> where F: Fn(Pipeline) -> Pipeline + Copy {
    fn default() -> (b: Self)
        ensures
            b@ == Seq::<F>::empty(),
    {
        PipelineBuilder::new()
    }
}

/// One registry slot: the builder of a single payload kind, if that kind was
/// ever touched. Its view is the callback sequence, or `None` before first
/// touch.
struct Entry<F> where F: Fn(Pipeline) -> Pipeline {
    builder: Option<PipelineBuilder<F>>,
}

impl<F> View for Entry<F> where F: Fn(Pipeline) -> Pipeline {
    type V = Option<Seq<F>>;

    closed spec fn view(&self) -> Option<Seq<F>> {
        match self.builder {
            Some(b) => Some(b@),
            None => None,
        }
    }
}

impl<F> Entry<F> where F: Fn(Pipeline) -> Pipeline + Copy {
    fn empty() -> (e: Self)
        ensures
            e@ is None,
    {
        Entry { builder: None }
    }

    /// First touch creates the empty list; later touches change nothing.
    fn initial(&mut self) -> (first: bool)
        ensures
            old(self)@ is Some ==> final(self)@ == old(self)@ && !first,
            old(self)@ is None ==> final(self)@ == Some(Seq::<F>::empty()) && first,
    {
        if self.builder.is_none() {
            self.builder = Some(PipelineBuilder::new());
            true
        } else {
            false
        }
    }

    /// First touch creates the list and runs the one-time setup hook on it;
    /// later touches change nothing.
    fn initial_with<G: Fn(PipelineBuilder<F>) -> PipelineBuilder<F>>(&mut self, setup: G) -> (
        first: bool)
        requires
            forall|b: PipelineBuilder<F>|
                b@ == Seq::<F>::empty() ==> #[trigger] call_requires(setup, (b,)),
        ensures
            old(self)@ is Some ==> final(self)@ == old(self)@ && !first,
            old(self)@ is None ==> first && exists|b0: PipelineBuilder<F>, b1: PipelineBuilder<F>|
                {
                    &&& b0@ == Seq::<F>::empty()
                    &&& #[trigger] call_ensures(setup, (b0,), b1)
                    &&& final(self)@ == Some(b1@)
                },
    {
        if self.builder.is_none() {
            let fresh = PipelineBuilder::new();
            let ghost b0 = fresh;
            let seeded = setup(fresh);
            self.builder = Some(seeded);
            true
        } else {
            false
        }
    }

    /// Appends to the list, creating the entry when this kind was never
    /// touched.
    fn register(&mut self, callback: F)
        ensures
            final(self)@ == Some(seq_or_empty(old(self)@).push(callback)),
    {
        let mut b = match self.builder.take() {
            Some(b) => b,
            None => PipelineBuilder::new(),
        };
        b.register(callback);
        self.builder = Some(b);
    }

    /// Folds the entry's callbacks over a fresh run of `content`; an
    /// untouched entry applies no stage.
    fn build(&self, content: Value) -> (p: Pipeline)
        requires
            callbacks_total(seq_or_empty(self@)),
        ensures
            exists|p0: Pipeline|
                #[trigger] folds(seq_or_empty(self@), p0, p) && p0@ == pass_model(content),
    {
        match &self.builder {
            Some(b) => b.build(content),
            None => {
                let p = Pipeline::pass(content);
                proof {
                    assert(folds(Seq::<F>::empty(), p, p));
                }
                p
            },
        }
    }
}

/// The registry: an explicit, long-lived table from payload kind to that
/// kind's pipeline builder. Independent kinds never contend; the table is
/// handed to call sites rather than hidden in process-wide state. Its view
/// maps each touched kind to its callback sequence.
pub struct Registry<F> where F: Fn(Pipeline) -> Pipeline {
    num: Entry<F>,
    flag: Entry<F>,
    text: Entry<F>,
    opt_num: Entry<F>,
    opt_text: Entry<F>,
    res_num: Entry<F>,
}

impl<F> View for Registry<F> where F: Fn(Pipeline) -> Pipeline {
    type V = Map<TypeKey, Seq<F>>;

    closed spec fn view(&self) -> Map<TypeKey, Seq<F>> {
        let m = Map::<TypeKey, Seq<F>>::empty();
        let m = match self.num@ {
            Some(s) => m.insert(TypeKey::I64, s),
            None => m,
        };
        let m = match self.flag@ {
            Some(s) => m.insert(TypeKey::Bool, s),
            None => m,
        };
        let m = match self.text@ {
            Some(s) => m.insert(TypeKey::Str, s),
            None => m,
        };
        let m = match self.opt_num@ {
            Some(s) => m.insert(TypeKey::OptI64, s),
            None => m,
        };
        let m = match self.opt_text@ {
            Some(s) => m.insert(TypeKey::OptStr, s),
            None => m,
        };
        let m = match self.res_num@ {
            Some(s) => m.insert(TypeKey::ResI64, s),
            None => m,
        };
        m
    }
}

impl<F> Registry<F> where F: Fn(Pipeline) -> Pipeline + Copy {
    /// An empty registry: no kind touched yet.
    pub fn new() -> (r: Self)
        ensures
            r@ == Map::<TypeKey, Seq<F>>::empty(),
    {
        let r = Registry {
            num: Entry::empty(),
            flag: Entry::empty(),
            text: Entry::empty(),
            opt_num: Entry::empty(),
            opt_text: Entry::empty(),
            res_num: Entry::empty(),
        };
        proof {
            assert(r@ =~= Map::<TypeKey, Seq<F>>::empty());
        }
        r
    }

    /// Idempotent first touch of `key`: creates the empty entry and returns
    /// true exactly when no entry existed; a later touch changes nothing.
    pub fn initial(&mut self, key: TypeKey) -> (first: bool)
        ensures
            final(self)@ == initial_model(old(self)@, key),
            first == !old(self)@.contains_key(key),
    {
        let ghost m0 = self@;
        let first = match key {
            TypeKey::I64 => self.num.initial(),
            TypeKey::Bool => self.flag.initial(),
            TypeKey::Str => self.text.initial(),
            TypeKey::OptI64 => self.opt_num.initial(),
            TypeKey::OptStr => self.opt_text.initial(),
            TypeKey::ResI64 => self.res_num.initial(),
        };
        proof {
            if m0.contains_key(key) {
                assert(self@ =~= m0);
            } else {
                assert(self@ =~= m0.insert(key, Seq::<F>::empty()));
            }
        }
        first
    }

    /// Idempotent first touch of `key` with the kind's one-time setup hook:
    /// at entry creation, and only then, `setup` seeds the fresh builder
    /// before anything else is registered.
    pub fn pipeline_builder<G: Fn(PipelineBuilder<F>) -> PipelineBuilder<F>>(
        &mut self,
        key: TypeKey,
        setup: G,
    ) -> (first: bool)
        requires
            forall|b: PipelineBuilder<F>|
                b@ == Seq::<F>::empty() ==> #[trigger] call_requires(setup, (b,)),
        ensures
            old(self)@.contains_key(key) ==> final(self)@ == old(self)@ && !first,
            !old(self)@.contains_key(key) ==> first && exists|
                b0: PipelineBuilder<F>,
                b1: PipelineBuilder<F>,
            |
                {
                    &&& b0@ == Seq::<F>::empty()
                    &&& #[trigger] call_ensures(setup, (b0,), b1)
                    &&& final(self)@ == old(self)@.insert(key, b1@)
                },
    {
        let ghost m0 = self@;
        let first = match key {
            TypeKey::I64 => self.num.initial_with(setup),
            TypeKey::Bool => self.flag.initial_with(setup),
            TypeKey::Str => self.text.initial_with(setup),
            TypeKey::OptI64 => self.opt_num.initial_with(setup),
            TypeKey::OptStr => self.opt_text.initial_with(setup),
            TypeKey::ResI64 => self.res_num.initial_with(setup),
        };
        proof {
            if m0.contains_key(key) {
                assert(self@ =~= m0);
            } else {
                let (b0, b1) = choose|b0: PipelineBuilder<F>, b1: PipelineBuilder<F>|
                    {
                        &&& b0@ == Seq::<F>::empty()
                        &&& #[trigger] call_ensures(setup, (b0,), b1)
                        &&& (match key {
                            TypeKey::I64 => self.num@,
                            TypeKey::Bool => self.flag@,
                            TypeKey::Str => self.text@,
                            TypeKey::OptI64 => self.opt_num@,
                            TypeKey::OptStr => self.opt_text@,
                            TypeKey::ResI64 => self.res_num@,
                        }) == Some(b1@)
                    };
                assert(self@ =~= m0.insert(key, b1@));
            }
        }
        first
    }

    /// Appends `callback` to the entry of `key`, creating the entry when the
    /// kind was never touched. Appends through any handle to the same kind
    /// land on the same list and are visible to every later reader.
    pub fn register(&mut self, key: TypeKey, callback: F)
        ensures
            final(self)@ == register_model(old(self)@, key, callback),
    {
        let ghost m0 = self@;
        match key {
            TypeKey::I64 => self.num.register(callback),
            TypeKey::Bool => self.flag.register(callback),
            TypeKey::Str => self.text.register(callback),
            TypeKey::OptI64 => self.opt_num.register(callback),
            TypeKey::OptStr => self.opt_text.register(callback),
            TypeKey::ResI64 => self.res_num.register(callback),
        }
        proof {
            assert(self@ =~= m0.insert(key, entry_of(m0, key).push(callback)));
        }
    }

    /// Creates a fresh run of `content` and folds the callbacks registered
    /// under `key` over it, in registration order. Two builds from the same
    /// entry apply the identical callback sequence to independent runs.
    pub fn build(&self, key: TypeKey, content: Value) -> (p: Pipeline)
        requires
            callbacks_total(entry_of(self@, key)),
        ensures
            exists|p0: Pipeline|
                #[trigger] folds(entry_of(self@, key), p0, p) && p0@ == pass_model(content),
    {
        match key {
            TypeKey::I64 => self.num.build(content),
            TypeKey::Bool => self.flag.build(content),
            TypeKey::Str => self.text.build(content),
            TypeKey::OptI64 => self.opt_num.build(content),
            TypeKey::OptStr => self.opt_text.build(content),
            TypeKey::ResI64 => self.res_num.build(content),
        }
    }

    /// Runs `content` through the canonical pipeline of `key` in one step:
    /// touches the entry, running the one-time setup hook exactly at
    /// creation, then builds a fresh run through the entry's callbacks.
    pub fn pipeline<G: Fn(PipelineBuilder<F>) -> PipelineBuilder<F>>(
        &mut self,
        key: TypeKey,
        setup: G,
        content: Value,
    ) -> (p: Pipeline)
        requires
            forall|b: PipelineBuilder<F>|
                b@ == Seq::<F>::empty() ==> #[trigger] call_requires(setup, (b,)),
            forall|b0: PipelineBuilder<F>, b1: PipelineBuilder<F>|
                b0@ == Seq::<F>::empty() && #[trigger] call_ensures(setup, (b0,), b1)
                    ==> callbacks_total(b1@),
            callbacks_total(entry_of(old(self)@, key)),
        ensures
            old(self)@.contains_key(key) ==> final(self)@ == old(self)@,
            !old(self)@.contains_key(key) ==> exists|
                b0: PipelineBuilder<F>,
                b1: PipelineBuilder<F>,
            |
                {
                    &&& b0@ == Seq::<F>::empty()
                    &&& #[trigger] call_ensures(setup, (b0,), b1)
                    &&& final(self)@ == old(self)@.insert(key, b1@)
                },
            exists|p0: Pipeline|
                #[trigger] folds(entry_of(final(self)@, key), p0, p) && p0@ == pass_model(content),
    {
        self.pipeline_builder(key, setup);
        self.build(key, content)
    }
}

} // verus!

