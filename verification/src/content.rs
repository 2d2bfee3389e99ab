//! The content handle a stage works on: the per-run [`Scope`] together with
//! the run flag. A stage may store values into the scope and may halt the
//! remaining stages; it can never restart a halted run.

use vstd::prelude::*;

use crate::scope::lemma_scope_wf;
use crate::scope::scope_wf;
use crate::scope::Scope;
use crate::value::key_of;
use crate::value::TypeKey;
use crate::value::Value;

verus! {

/// The two-valued run flag: once `Stop`, a run never reverts to `Run`.
enum PipeState {
    Run,
    Stop,
}

/// The abstract state of a [`PipeContent`]: the effective scope mapping and
/// whether the run is still flowing.
pub struct ContentModel {
    pub scope: Map<TypeKey, Value>,
    pub running: bool,
}

/// The per-run content handle: the scope plus the run flag.
pub struct PipeContent {
    scope: Scope,
    state: PipeState,
}

impl View for PipeContent {
    type V = ContentModel;

    closed spec fn view(&self) -> ContentModel {
        ContentModel { scope: self.scope@, running: self.state is Run }
    }
}

impl PipeContent {
    /// A fresh handle with an empty scope and a running flow.
    pub fn make() -> (c: PipeContent)
        ensures
            c@.scope == Map::<TypeKey, Value>::empty(),
            c@.running,
    {
        PipeContent { scope: Scope::new(), state: PipeState::Run }
    }

    /// A fresh handle whose scope falls back to `outer`: local misses defer to
    /// the outer scope's entries, while writes stay in this run.
    pub fn make_within(outer: &Scope) -> (c: PipeContent)
        ensures
            c@.scope == outer@,
            c@.running,
    {
        PipeContent { scope: Scope::with_fallback(outer), state: PipeState::Run }
    }

    /// A fresh running handle seeded with `content`, keyed by its own kind.
    pub fn new(content: Value) -> (c: PipeContent)
        ensures
            c@.scope == Map::<TypeKey, Value>::empty().insert(key_of(content), content),
            c@.running,
    {
        let mut c = PipeContent::make();
        c.store(content);
        c
    }

    /// The run's scope.
    pub fn container(&self) -> (s: &Scope)
        ensures
            s@ == self@.scope,
    {
        &self.scope
    }

    /// Stores `data` in the scope, keyed by its own kind, overwriting any
    /// prior value of that kind. The run flag is untouched.
    pub fn store(&mut self, data: Value)
        ensures
            final(self)@.scope == old(self)@.scope.insert(key_of(data), data),
            final(self)@.running == old(self)@.running,
    {
        self.scope.set(data);
    }

    /// Halts the flow: every stage attached after this point is skipped. The
    /// scope is untouched.
    pub fn stop_the_flow(&mut self)
        ensures
            final(self)@.scope == old(self)@.scope,
            !final(self)@.running,
    {
        self.state = PipeState::Stop;
    }

    /// Alias for [`Self::stop_the_flow`].
    pub fn stop(&mut self)
        ensures
            final(self)@.scope == old(self)@.scope,
            !final(self)@.running,
    {
        self.stop_the_flow();
    }

    /// Whether the flow is still running.
    pub fn is_running(&self) -> (r: bool)
        ensures
            r == self@.running,
    {
        match self.state {
            PipeState::Run => true,
            PipeState::Stop => false,
        }
    }
}

/// The scope of every content handle is well-formed: each value sits under
/// the key of its own kind.
pub proof fn lemma_content_scope_wf(c: &PipeContent)
    ensures
        scope_wf(c@.scope),
{
    lemma_scope_wf(&c.scope);
}

} // verus!
