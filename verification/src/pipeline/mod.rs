//! Jobs, the queue that holds them, and the stage-by-stage plan of a run.
pub mod job;
pub mod orchestrator;
pub mod queue;
