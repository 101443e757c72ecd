use vstd::prelude::*;
use crate::codec::error::Exception;
use crate::engine::work_queue::{Job, JobView};

verus! {

/// Something that an operation on a codec instance wants done outside the
/// instance. Effects are to be performed in the order in which they arise.
#[derive(Debug, PartialEq, Eq)]
pub enum Effect {
    /// Deliver the error to the error callback, once.
    Report(Exception),
    /// Run the job on a worker.
    Dispatch(Job),
    /// Signal the end of the stream to the backend, and deliver what the
    /// backend still holds, before the call that asked for it returns.
    SignalEndOfStream,
    /// Empty the backend handle.
    ReleaseBackend,
}

/// What an [`Effect`] holds.
pub enum EffectView {
    Report(Exception),
    Dispatch(JobView),
    SignalEndOfStream,
    ReleaseBackend,
}

impl View for Effect {
    type V = EffectView;

    open spec fn view(&self) -> EffectView {
        match self {
            Effect::Report(error) => EffectView::Report(*error),
            Effect::Dispatch(job) => EffectView::Dispatch(job@),
            Effect::SignalEndOfStream => EffectView::SignalEndOfStream,
            Effect::ReleaseBackend => EffectView::ReleaseBackend,
        }
    }
}

/// The views of a sequence of effects, in the same order.
pub open spec fn effect_views(effects: Seq<Effect>) -> Seq<EffectView> {
    effects.map_values(|effect: Effect| effect@)
}

/// The dispatches of a sequence of jobs, in the same order.
pub open spec fn dispatches(jobs: Seq<JobView>) -> Seq<EffectView> {
    jobs.map_values(|job: JobView| EffectView::Dispatch(job))
}

} // verus!
