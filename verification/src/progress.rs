//! Stages of a job and the progress events that report them.
use vstd::prelude::*;

verus! {

/// Stages of the processing pipeline for a single job.
#[derive(Clone, Copy, Debug, PartialEq, Eq, Structural)]
pub enum PipelineStage {
    Queued,
    Downloading,
    Splitting,
    Converting,
    Mixing,
    Complete,
    Failed,
}

/// Progress update emitted by pipeline stages.
#[derive(Clone, Debug)]
pub struct ProgressEvent {
    pub stage: PipelineStage,
    /// Share of the current stage that is done, in basis points
    /// (0 to 10000).
    pub fraction_bp: u32,
    /// Human-readable status message.
    pub message: String,
}

impl Default for ProgressEvent {
    fn default() -> (e: ProgressEvent)
        ensures
            e.stage == PipelineStage::Queued,
            e.fraction_bp == 0,
            e.message@ == Seq::<char>::empty(),
    {
        ProgressEvent { stage: PipelineStage::Queued, fraction_bp: 0, message: String::new() }
    }
}

} // verus!
