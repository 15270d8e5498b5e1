//! Core logic of a terminal system monitor: a rolling time-series buffer with
//! age-based eviction, a chart projector that derives axis bounds and tick
//! labels from the buffered samples, and the view state (selected series and
//! chart viewport size) driven by user commands.
//!
//! Metric polling, terminal handling and widget drawing are external
//! collaborators; this library only computes on the plain values they supply.
//! Fractional quantities (CPU usage percentages) are carried as integers in
//! hundredths of a unit, so a value of 4275 stands for 42.75.

use vstd::prelude::*;

pub mod metrics;
pub mod project;
pub mod series;
pub mod state;

pub use series::CpuDataset;
pub use series::Sample;
pub use series::DEFAULT_WINDOW_MS;
pub use state::Graph;
pub use state::State;

verus! {

/// The ways the monitor's core can fail.
#[derive(Clone, Copy, PartialEq, Eq, Structural, Debug)]
pub enum MonitorError {
    /// A sample was appended with a timestamp older than the newest retained one.
    InvalidTimestamp,
    /// A projection or statistic was requested of a series with no samples.
    EmptySeries,
    /// The OS snapshot backing the metric source could not be read.
    MetricSourceUnavailable,
    /// The metric source reported no CPU cores, so no per-core figure exists.
    NoCoresDetected,
}

} // verus!
