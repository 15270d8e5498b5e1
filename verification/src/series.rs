//! The rolling time-series buffer: admits timestamped samples, evicts the
//! ones that have aged out of a fixed window, and hands out a time-ordered
//! view ready for plotting.

use vstd::prelude::*;
use std::collections::VecDeque;

use crate::MonitorError;

verus! {

/// One observation of a metric: milliseconds since session start, and the
/// observed value in hundredths of the metric's unit.
#[derive(Clone, Copy, PartialEq, Eq, Structural, Debug)]
pub struct Sample {
    pub timestamp_ms: u64,
    pub value: u64,
}

/// How much history a series keeps, in milliseconds, unless told otherwise.
pub const DEFAULT_WINDOW_MS: u64 = 25000;

/// Timestamps never decrease along the sequence.
pub open spec fn ts_non_decreasing(s: Seq<Sample>) -> bool {
    forall|i: int, j: int|
        0 <= i <= j < s.len() ==> s[i].timestamp_ms <= s[j].timestamp_ms
}

/// Every sample is at most `window` behind `latest`.
pub open spec fn within_window(s: Seq<Sample>, latest: int, window: int) -> bool {
    forall|i: int| 0 <= i < s.len() ==> latest - s[i].timestamp_ms <= window
}

/// The sequence after dropping, from the front, every sample that is more
/// than `window` older than `now`. Eviction stops at the first sample young
/// enough to stay: a sample exactly `window` old is retained.
pub open spec fn evict_expired(s: Seq<Sample>, now: int, window: int) -> Seq<Sample>
    decreases s.len(),
{
    if s.len() > 0 && now - s[0].timestamp_ms > window {
        evict_expired(s.skip(1), now, window)
    } else {
        s
    }
}

/// The sliding-window buffer of one metric series. Samples arrive in
/// non-decreasing timestamp order; appending evicts whatever has fallen out
/// of the window, so both ends of the deque move once per tick.
pub struct CpuDataset {
    pub cpu_usage: VecDeque<Sample>,
    pub window_ms: u64,
}

impl View for CpuDataset {
    type V = Seq<Sample>;

    open spec fn view(&self) -> Seq<Sample> {
        self.cpu_usage@
    }
}

impl CpuDataset {
    /// Retained samples are time-ordered and all lie within the window of the
    /// newest one.
    pub open spec fn wf(&self) -> bool {
        &&& ts_non_decreasing(self@)
        &&& (self@.len() > 0 ==> within_window(
            self@,
            self@.last().timestamp_ms as int,
            self.window_ms as int,
        ))
    }

    /// A timestamp is admissible when the buffer is empty or it is no older
    /// than the newest retained sample.
    pub open spec fn accepts(&self, elapsed_ms: u64) -> bool {
        self@.len() == 0 || self@.last().timestamp_ms <= elapsed_ms
    }

    /// An empty series with the default window.
    pub fn new() -> (d: CpuDataset)
        ensures
            d.wf(),
            d@ == Seq::<Sample>::empty(),
            d.window_ms == DEFAULT_WINDOW_MS,
    {
        CpuDataset { cpu_usage: VecDeque::new(), window_ms: DEFAULT_WINDOW_MS }
    }

    /// An empty series that keeps `window_ms` of history.
    pub fn new_with_window(window_ms: u64) -> (d: CpuDataset)
        ensures
            d.wf(),
            d@ == Seq::<Sample>::empty(),
            d.window_ms == window_ms,
    {
        CpuDataset { cpu_usage: VecDeque::new(), window_ms }
    }

    /// Appends one sample, then evicts from the front every sample more than
    /// `window_ms` older than `elapsed_ms`. A decreasing timestamp is a
    /// programmer error on the caller's side and is rejected: the buffer is
    /// left untouched and `InvalidTimestamp` comes back.
    pub fn update_cpu_usage(&mut self, elapsed_ms: u64, value: u64) -> (r: Result<
        (),
        MonitorError,
    >)
        requires
            old(self).wf(),
        ensures
            final(self).wf(),
            final(self).window_ms == old(self).window_ms,
            old(self).accepts(elapsed_ms) ==> {
                &&& r == Ok::<(), MonitorError>(())
                &&& final(self)@ == evict_expired(
                    old(self)@.push(Sample { timestamp_ms: elapsed_ms, value }),
                    elapsed_ms as int,
                    old(self).window_ms as int,
                )
                &&& final(self)@.len() > 0
                &&& final(self)@.last() == (Sample { timestamp_ms: elapsed_ms, value })
            },
            !old(self).accepts(elapsed_ms) ==> {
                &&& r == Err::<(), MonitorError>(MonitorError::InvalidTimestamp)
                &&& final(self)@ == old(self)@
            },
    {
        if self.cpu_usage.len() > 0 {
            let newest = self.cpu_usage[self.cpu_usage.len() - 1];
            if elapsed_ms < newest.timestamp_ms {
                return Err(MonitorError::InvalidTimestamp);
            }
        }
        self.cpu_usage.push_back(Sample { timestamp_ms: elapsed_ms, value });
        let ghost pushed = self.cpu_usage@;
        while self.cpu_usage.len() > 0 && elapsed_ms - self.cpu_usage[0].timestamp_ms
            > self.window_ms
            invariant
                self.window_ms == old(self).window_ms,
                ts_non_decreasing(self@),
                self@.len() > 0,
                self@.last() == (Sample { timestamp_ms: elapsed_ms, value }),
                forall|i: int| 0 <= i < self@.len() ==> self@[i].timestamp_ms <= elapsed_ms,
                evict_expired(self@, elapsed_ms as int, self.window_ms as int) == evict_expired(
                    pushed,
                    elapsed_ms as int,
                    old(self).window_ms as int,
                ),
            decreases self@.len(),
        {
            proof {
                // The newest sample has age zero, so the expired front cannot
                // be the only element.
                assert(self@.len() >= 2);
                assert(self@.skip(1) == self@.subrange(1, self@.len() as int));
            }
            let ghost before = self@;
            let _evicted = self.cpu_usage.pop_front();
            proof {
                assert(self@ =~= before.skip(1));
                assert(self@.last() == before.last());
                assert(ts_non_decreasing(self@)) by {
                    assert forall|i: int, j: int|
                        0 <= i <= j < self@.len() implies self@[i].timestamp_ms
                        <= self@[j].timestamp_ms by {
                        assert(before[i + 1].timestamp_ms <= before[j + 1].timestamp_ms);
                    }
                }
            }
        }
        proof {
            assert(final(self)@ == evict_expired(
                pushed,
                elapsed_ms as int,
                old(self).window_ms as int,
            ));
            assert(ts_non_decreasing(pushed)) by {
                assert forall|i: int, j: int|
                    0 <= i <= j < pushed.len() implies pushed[i].timestamp_ms
                    <= pushed[j].timestamp_ms by {
                    if j < pushed.len() - 1 {
                        assert(old(self)@[i].timestamp_ms <= old(self)@[j].timestamp_ms);
                    } else if i < pushed.len() - 1 {
                        assert(old(self)@.last().timestamp_ms <= elapsed_ms);
                        assert(old(self)@[i].timestamp_ms <= old(self)@.last().timestamp_ms);
                    }
                }
            }
            lemma_evict_expired_within_window(
                pushed,
                elapsed_ms as int,
                old(self).window_ms as int,
            );
        }
        Ok(())
    }

    /// The retained samples as contiguous, time-ordered `(timestamp, value)`
    /// pairs, linearized for a plotting widget. Empty buffer, empty result.
    pub fn get_cpu_usage_as_slice(&self) -> (pairs: Vec<(u64, u64)>)
        ensures
            pairs@ == self@.map_values(|s: Sample| (s.timestamp_ms, s.value)),
    {
        let mut pairs: Vec<(u64, u64)> = Vec::new();
        let mut i: usize = 0;
        while i < self.cpu_usage.len()
            invariant
                i <= self@.len(),
                pairs@ == self@.take(i as int).map_values(|s: Sample| (s.timestamp_ms, s.value)),
            decreases self@.len() - i,
        {
            let s = self.cpu_usage[i];
            pairs.push((s.timestamp_ms, s.value));
            proof {
                assert(self@.take(i + 1).drop_last() =~= self@.take(i as int));
                assert(pairs@ =~= self@.take(i + 1).map_values(
                    |s: Sample| (s.timestamp_ms, s.value),
                ));
            }
            i = i + 1;
        }
        proof {
            assert(self@.take(self@.len() as int) =~= self@);
        }
        pairs
    }
}

/// Window invariant: after eviction relative to `now`, every retained sample
/// is at most `window` older than `now` — provided the samples were appended
/// in non-decreasing timestamp order.
pub proof fn lemma_evict_expired_within_window(s: Seq<Sample>, now: int, window: int)
    requires
        ts_non_decreasing(s),
    ensures
        within_window(evict_expired(s, now, window), now, window),
    decreases s.len(),
{
    if s.len() > 0 && now - s[0].timestamp_ms > window {
        lemma_skip_non_decreasing(s);
        lemma_evict_expired_within_window(s.skip(1), now, window);
    } else if s.len() > 0 {
        assert forall|i: int| 0 <= i < s.len() implies now - s[i].timestamp_ms <= window by {
            assert(s[0].timestamp_ms <= s[i].timestamp_ms);
        }
    }
}

/// Monotonic retention order: eviction keeps the samples in non-decreasing
/// timestamp order, and the most recently appended sample — whose age within
/// the window is zero or at most `window` — is still the last element.
pub proof fn lemma_evict_expired_order(s: Seq<Sample>, now: int, window: int)
    requires
        ts_non_decreasing(s),
    ensures
        ts_non_decreasing(evict_expired(s, now, window)),
        s.len() > 0 && now - s.last().timestamp_ms <= window ==> {
            &&& evict_expired(s, now, window).len() > 0
            &&& evict_expired(s, now, window).last() == s.last()
        },
    decreases s.len(),
{
    if s.len() > 0 && now - s[0].timestamp_ms > window {
        lemma_skip_non_decreasing(s);
        lemma_evict_expired_order(s.skip(1), now, window);
        if s.len() > 1 {
            assert(s.skip(1).last() == s.last());
        }
    }
}

/// Eviction boundary: the front sample is retained exactly when its age is at
/// most the window. At `now - timestamp == window` nothing changes; one
/// millisecond beyond, the front sample is gone from the buffer.
pub proof fn lemma_eviction_boundary(s: Seq<Sample>, now: int, window: int)
    requires
        ts_non_decreasing(s),
        s.len() > 0,
    ensures
        now - s[0].timestamp_ms <= window ==> evict_expired(s, now, window) == s,
        now - s[0].timestamp_ms > window ==> !evict_expired(s, now, window).contains(s[0]),
{
    if now - s[0].timestamp_ms > window {
        lemma_evict_expired_within_window(s, now, window);
        let r = evict_expired(s, now, window);
        if r.contains(s[0]) {
            let i = choose|i: int| 0 <= i < r.len() && r[i] == s[0];
            assert(now - r[i].timestamp_ms <= window);
            assert(false);
        }
    }
}

/// Dropping the front sample keeps the remaining timestamps non-decreasing.
proof fn lemma_skip_non_decreasing(s: Seq<Sample>)
    requires
        ts_non_decreasing(s),
        s.len() > 0,
    ensures
        ts_non_decreasing(s.skip(1)),
{
    assert forall|i: int, j: int|
        0 <= i <= j < s.skip(1).len() implies s.skip(1)[i].timestamp_ms
        <= s.skip(1)[j].timestamp_ms by {
        assert(s[i + 1].timestamp_ms <= s[j + 1].timestamp_ms);
    }
}

} // verus!
