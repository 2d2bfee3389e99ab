//! A staged-processing engine: a value is passed through an ordered chain of
//! stages ("pipes"); each stage may read and write typed values in a shared
//! per-run scope or halt the remaining stages, and the caller finally extracts
//! any value that was stored during the run.
//!
//! The data or content is passed through the pipes; at any stage the flow can
//! be stopped. Unlike the middleware pattern, a pipe never calls the next
//! pipe: it applies its changes or stops the flow, and the pipeline initiates
//! the next call.

use vstd::prelude::*;

pub mod content;
pub mod flow;
pub mod laws;
pub mod pipeline;
pub mod pipeline_builder;
pub mod scope;
pub mod value;

pub use content::ContentModel;
pub use content::PipeContent;
pub use flow::RunModel;
pub use flow::StageYield;
pub use pipeline::BeginStage;
pub use pipeline::FamaPipe;
pub use pipeline::Pipeline;
pub use pipeline::StageFrame;
pub use pipeline_builder::PipelineBuilder;
pub use pipeline_builder::Registry;
pub use scope::Scope;
pub use value::TypeKey;
pub use value::Value;

verus! {

/// A type whose pipeline is laid out in one place: implementors attach their
/// stages in `handle_pipe`, and the provided methods pass a subject through
/// that pipeline and query the finished run.
pub trait PipelineTrait {
    /// Where the type's pipeline is laid out: receives a freshly seeded run
    /// and returns it with the stages attached.
    fn handle_pipe(&self, pipeline: Pipeline) -> Pipeline;

    /// Passes `subject` through the pipeline and returns the value stored
    /// under the subject's own kind, or `None` when a stage dropped it.
    fn try_to_deliver(&self, subject: Value) -> Option<Value> {
        let p = Pipeline::pass(subject);
        let p = self.handle_pipe(p);
        p.try_to_deliver()
    }

    /// Passes `subject` through the pipeline and returns the value stored
    /// under `key`, or `None` when nothing of that kind was stored.
    fn try_deliver_as(&self, subject: Value, key: TypeKey) -> Option<Value> {
        let p = Pipeline::pass(subject);
        let p = self.handle_pipe(p);
        p.try_deliver_as(key)
    }

    /// Passes `subject` through the pipeline and reports whether it went
    /// through every stage.
    fn confirm(&self, subject: Value) -> bool {
        let p = Pipeline::pass(subject);
        let p = self.handle_pipe(p);
        p.confirm()
    }
}

} // verus!
