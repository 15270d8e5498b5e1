//! Chart projection: axis bounds, tick labels and plot-ready pairs derived
//! from the current buffer and the elapsed time — no I/O, no mutation.

use vstd::prelude::*;

use crate::series::CpuDataset;
use crate::series::Sample;

verus! {

/// One whole unit of a value, since values are carried in hundredths.
pub const VALUE_SCALE: u64 = 100;

/// The top of the vertical axis for a percentage-valued series: 100 units.
pub const Y_AXIS_MAX: u64 = 10000;

/// The left edge of the time axis: the window reaches back from `elapsed_ms`,
/// but never before the session started.
pub open spec fn spec_left_bound(elapsed_ms: int, window_ms: int) -> int {
    if elapsed_ms <= window_ms {
        0
    } else {
        elapsed_ms - window_ms
    }
}

/// The samples as plain `(timestamp, value)` pairs.
pub open spec fn spec_pairs(s: Seq<Sample>) -> Seq<(u64, u64)> {
    s.map_values(|x: Sample| (x.timestamp_ms, x.value))
}

/// Everything a rendering widget needs to draw the chart for one tick:
/// time-ordered data points, both axes' bounds, and the tick labels, all in
/// the library's integer units (milliseconds; hundredths of a unit).
pub struct ChartProjection {
    pub ordered_pairs: Vec<(u64, u64)>,
    pub x_bounds: (u64, u64),
    pub x_labels: Vec<u64>,
    pub y_bounds: (u64, u64),
    pub y_labels: Vec<u64>,
}

/// Derives the chart description for the buffer as it stands at
/// `elapsed_ms`. The time axis spans the window ending now; its three labels
/// sit at the left edge, the midpoint of the bounds, and the right edge. The
/// value axis is fixed at 0 to 100 units with labels every 25, as fits a
/// percentage series. An empty series projects to an empty, well-bounded
/// chart: the bounds are always defined and ordered, with no division by the
/// sample count anywhere.
pub fn project(series: &CpuDataset, elapsed_ms: u64) -> (p: ChartProjection)
    ensures
        p.ordered_pairs@ == spec_pairs(series@),
        p.x_bounds.0 == spec_left_bound(elapsed_ms as int, series.window_ms as int),
        p.x_bounds.1 == elapsed_ms,
        p.x_bounds.0 <= p.x_bounds.1,
        p.x_labels@.len() == 3,
        p.x_labels@[0] == p.x_bounds.0,
        p.x_labels@[1] == (p.x_bounds.0 + p.x_bounds.1) as int / 2,
        p.x_labels@[2] == p.x_bounds.1,
        p.y_bounds == (0u64, Y_AXIS_MAX),
        p.y_labels@ == seq![0u64, 2500u64, 5000u64, 7500u64, 10000u64],
        series@.len() == 0 ==> p.ordered_pairs@.len() == 0,
        series.wf() && series@.len() > 0 && series@.last().timestamp_ms == elapsed_ms
            ==> forall|i: int|
            0 <= i < p.ordered_pairs@.len() ==> p.x_bounds.0 <= (#[trigger] p.ordered_pairs@[i]).0
                <= p.x_bounds.1,
{
    let ordered_pairs = series.get_cpu_usage_as_slice();
    let left: u64 = if elapsed_ms <= series.window_ms {
        0
    } else {
        elapsed_ms - series.window_ms
    };
    let right: u64 = elapsed_ms;
    let mid: u64 = left + (right - left) / 2;
    assert(mid == (left + right) as int / 2);
    let mut x_labels: Vec<u64> = Vec::new();
    x_labels.push(left);
    x_labels.push(mid);
    x_labels.push(right);
    let mut y_labels: Vec<u64> = Vec::new();
    y_labels.push(0);
    y_labels.push(2500);
    y_labels.push(5000);
    y_labels.push(7500);
    y_labels.push(10000);
    proof {
        assert(x_labels@ =~= seq![left, mid, right]);
        assert(y_labels@ =~= seq![0u64, 2500u64, 5000u64, 7500u64, 10000u64]);
        if series.wf() && series@.len() > 0 && series@.last().timestamp_ms == elapsed_ms {
            assert forall|i: int|
                0 <= i < ordered_pairs@.len() implies left <= (#[trigger] ordered_pairs@[i]).0
                <= right by {
                assert(ordered_pairs@[i].0 == series@[i].timestamp_ms);
                assert(series@[i].timestamp_ms <= series@.last().timestamp_ms);
                assert(series@.last().timestamp_ms as int - series@[i].timestamp_ms as int
                    <= series.window_ms as int);
            }
        }
    }
    ChartProjection {
        ordered_pairs,
        x_bounds: (left, right),
        x_labels,
        y_bounds: (0, Y_AXIS_MAX),
        y_labels,
    }
}

} // verus!
