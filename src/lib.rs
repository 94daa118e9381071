//! Throttled progress reporting through a leveled log: a tracker per task,
//! nested sub-task trackers, and a depth limit below which step reports are
//! dropped.
pub mod laws;
pub mod render;
pub mod tracker;

pub use tracker::{Level, Line, Log, MessageLevel, Unit};
