//! View state: which series the chart shows, how much of the screen the
//! chart occupies, and the per-tick bookkeeping that feeds the series.

use vstd::prelude::*;

use crate::series::CpuDataset;
use crate::series::Sample;
use crate::series::evict_expired;
use crate::MonitorError;

verus! {

/// The metric series the chart can show. Switching the selection never
/// touches the buffered data of any series.
#[derive(Clone, Copy, PartialEq, Eq, Structural, Debug)]
pub enum Graph {
    CPU,
    MEMORY,
    DISK,
}

/// How many percentage points one expand or reduce step moves the viewport.
pub const GRAPH_SIZE_STEP: u16 = 2;

/// The smallest share of the screen the chart may occupy. Kept above zero so
/// the chart never vanishes and the size can never wrap.
pub const MIN_GRAPH_SIZE_PERCENTAGE: u16 = 4;

/// The whole screen: the viewport saturates here.
pub const MAX_GRAPH_SIZE_PERCENTAGE: u16 = 100;

/// The share of the screen the chart occupies at startup.
pub const INITIAL_GRAPH_SIZE_PERCENTAGE: u16 = 60;

/// The dashboard's mutable state: the selected series, its sample buffer,
/// and the viewport size. Metric polling and the wall clock live outside;
/// each tick hands in the elapsed time and the sampled value.
pub struct State {
    pub graph: Graph,
    pub cpu_dataset: CpuDataset,
    pub graph_size_percentage: u16,
}

impl State {
    /// The buffer is well-formed and the viewport stays inside its bounds.
    pub open spec fn wf(&self) -> bool {
        &&& self.cpu_dataset.wf()
        &&& MIN_GRAPH_SIZE_PERCENTAGE <= self.graph_size_percentage
        &&& self.graph_size_percentage <= MAX_GRAPH_SIZE_PERCENTAGE
    }

    /// Fresh state: CPU series selected, empty buffer, default viewport.
    pub fn new() -> (s: State)
        ensures
            s.wf(),
            s.graph == Graph::CPU,
            s.cpu_dataset@ == Seq::<Sample>::empty(),
            s.cpu_dataset.window_ms == crate::series::DEFAULT_WINDOW_MS,
            s.graph_size_percentage == INITIAL_GRAPH_SIZE_PERCENTAGE,
    {
        State {
            graph: Graph::CPU,
            cpu_dataset: CpuDataset::new(),
            graph_size_percentage: INITIAL_GRAPH_SIZE_PERCENTAGE,
        }
    }

    /// One refresh tick: record the value sampled at `elapsed_ms` in the CPU
    /// series. The caller polls the metric source and reads the clock; this
    /// call admits the sample and evicts what aged out of the window.
    pub fn refresh(&mut self, elapsed_ms: u64, value: u64) -> (r: Result<(), MonitorError>)
        requires
            old(self).wf(),
        ensures
            final(self).wf(),
            final(self).graph == old(self).graph,
            final(self).graph_size_percentage == old(self).graph_size_percentage,
            final(self).cpu_dataset.window_ms == old(self).cpu_dataset.window_ms,
            old(self).cpu_dataset.accepts(elapsed_ms) ==> {
                &&& r == Ok::<(), MonitorError>(())
                &&& final(self).cpu_dataset@ == evict_expired(
                    old(self).cpu_dataset@.push(Sample { timestamp_ms: elapsed_ms, value }),
                    elapsed_ms as int,
                    old(self).cpu_dataset.window_ms as int,
                )
                &&& final(self).cpu_dataset@.len() > 0
                &&& final(self).cpu_dataset@.last() == (Sample { timestamp_ms: elapsed_ms, value })
            },
            !old(self).cpu_dataset.accepts(elapsed_ms) ==> {
                &&& r == Err::<(), MonitorError>(MonitorError::InvalidTimestamp)
                &&& final(self).cpu_dataset@ == old(self).cpu_dataset@
            },
    {
        self.refresh_cpu_dataset(elapsed_ms, value)
    }

    /// The append itself, kept separate from any other per-tick refresh work.
    pub fn refresh_cpu_dataset(&mut self, elapsed_ms: u64, value: u64) -> (r: Result<
        (),
        MonitorError,
    >)
        requires
            old(self).wf(),
        ensures
            final(self).wf(),
            final(self).graph == old(self).graph,
            final(self).graph_size_percentage == old(self).graph_size_percentage,
            final(self).cpu_dataset.window_ms == old(self).cpu_dataset.window_ms,
            old(self).cpu_dataset.accepts(elapsed_ms) ==> {
                &&& r == Ok::<(), MonitorError>(())
                &&& final(self).cpu_dataset@ == evict_expired(
                    old(self).cpu_dataset@.push(Sample { timestamp_ms: elapsed_ms, value }),
                    elapsed_ms as int,
                    old(self).cpu_dataset.window_ms as int,
                )
                &&& final(self).cpu_dataset@.len() > 0
                &&& final(self).cpu_dataset@.last() == (Sample { timestamp_ms: elapsed_ms, value })
            },
            !old(self).cpu_dataset.accepts(elapsed_ms) ==> {
                &&& r == Err::<(), MonitorError>(MonitorError::InvalidTimestamp)
                &&& final(self).cpu_dataset@ == old(self).cpu_dataset@
            },
    {
        self.cpu_dataset.update_cpu_usage(elapsed_ms, value)
    }

    /// Show the CPU series. A pure selection change: every buffer keeps its
    /// contents.
    pub fn set_graph_cpu(&mut self)
        ensures
            final(self).graph == Graph::CPU,
            final(self).cpu_dataset == old(self).cpu_dataset,
            final(self).graph_size_percentage == old(self).graph_size_percentage,
            old(self).wf() ==> final(self).wf(),
    {
        self.graph = Graph::CPU;
    }

    /// Show the memory series; buffers untouched.
    pub fn set_graph_memory(&mut self)
        ensures
            final(self).graph == Graph::MEMORY,
            final(self).cpu_dataset == old(self).cpu_dataset,
            final(self).graph_size_percentage == old(self).graph_size_percentage,
            old(self).wf() ==> final(self).wf(),
    {
        self.graph = Graph::MEMORY;
    }

    /// Show the disk series; buffers untouched.
    pub fn set_graph_disk(&mut self)
        ensures
            final(self).graph == Graph::DISK,
            final(self).cpu_dataset == old(self).cpu_dataset,
            final(self).graph_size_percentage == old(self).graph_size_percentage,
            old(self).wf() ==> final(self).wf(),
    {
        self.graph = Graph::DISK;
    }

    /// Grow the chart viewport by one step, saturating at the full screen:
    /// however often this is called, the size never exceeds 100.
    pub fn expand_graph_size(&mut self)
        requires
            old(self).wf(),
        ensures
            final(self).wf(),
            final(self).graph == old(self).graph,
            final(self).cpu_dataset == old(self).cpu_dataset,
            final(self).graph_size_percentage == if old(self).graph_size_percentage
                + GRAPH_SIZE_STEP >= MAX_GRAPH_SIZE_PERCENTAGE {
                MAX_GRAPH_SIZE_PERCENTAGE as int
            } else {
                old(self).graph_size_percentage + GRAPH_SIZE_STEP
            },
            final(self).graph_size_percentage <= MAX_GRAPH_SIZE_PERCENTAGE,
    {
        self.graph_size_percentage = self.graph_size_percentage + GRAPH_SIZE_STEP;
        if self.graph_size_percentage >= MAX_GRAPH_SIZE_PERCENTAGE {
            self.graph_size_percentage = MAX_GRAPH_SIZE_PERCENTAGE;
        }
    }

    /// Shrink the chart viewport by one step, clamping at the explicit floor
    /// before decrementing: the size never drops below the floor and never
    /// wraps.
    pub fn reduce_graph_size(&mut self)
        requires
            old(self).wf(),
        ensures
            final(self).wf(),
            final(self).graph == old(self).graph,
            final(self).cpu_dataset == old(self).cpu_dataset,
            final(self).graph_size_percentage == if old(self).graph_size_percentage
                >= MIN_GRAPH_SIZE_PERCENTAGE + GRAPH_SIZE_STEP {
                old(self).graph_size_percentage - GRAPH_SIZE_STEP
            } else {
                MIN_GRAPH_SIZE_PERCENTAGE as int
            },
            final(self).graph_size_percentage >= MIN_GRAPH_SIZE_PERCENTAGE,
    {
        if self.graph_size_percentage >= MIN_GRAPH_SIZE_PERCENTAGE + GRAPH_SIZE_STEP {
            self.graph_size_percentage = self.graph_size_percentage - GRAPH_SIZE_STEP;
        } else {
            self.graph_size_percentage = MIN_GRAPH_SIZE_PERCENTAGE;
        }
    }
}

} // verus!
