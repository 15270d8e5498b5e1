//! Per-core statistics computed from the plain values the metric source
//! hands over once per tick.

use vstd::prelude::*;

use crate::MonitorError;

verus! {

/// The sum of a sequence of readings.
pub open spec fn sum_of(s: Seq<u64>) -> int
    decreases s.len(),
{
    if s.len() == 0 {
        0
    } else {
        sum_of(s.drop_last()) + s.last()
    }
}

/// The average of the per-core CPU frequencies reported by the metric
/// source, rounded down. An empty list means the source reported no cores;
/// that is an explicit `NoCoresDetected` error, never a division by zero.
pub fn get_avg_cpu_frequency(freqs: &Vec<u64>) -> (r: Result<u64, MonitorError>)
    ensures
        freqs@.len() == 0 ==> r == Err::<u64, MonitorError>(MonitorError::NoCoresDetected),
        freqs@.len() > 0 ==> (r matches Ok(avg) && avg == sum_of(freqs@) / freqs@.len() as int),
{
    if freqs.len() == 0 {
        return Err(MonitorError::NoCoresDetected);
    }
    let mut total: u128 = 0;
    let mut i: usize = 0;
    while i < freqs.len()
        invariant
            i <= freqs@.len(),
            total == sum_of(freqs@.take(i as int)),
            total <= i as int * u64::MAX as int,
        decreases freqs@.len() - i,
    {
        proof {
            assert(freqs@.take(i + 1).drop_last() =~= freqs@.take(i as int));
            assert(freqs@.take(i + 1).last() == freqs@[i as int]);
            assert((i + 1) as int * u64::MAX as int == i as int * u64::MAX as int
                + u64::MAX as int) by (nonlinear_arith);
        }
        total = total + freqs[i] as u128;
        i = i + 1;
    }
    proof {
        assert(freqs@.take(freqs@.len() as int) =~= freqs@);
        lemma_avg_fits(total as int, freqs@.len() as int);
    }
    let avg: u128 = total / (freqs.len() as u128);
    Ok(avg as u64)
}

/// A sum of `n` readings, each at most `u64::MAX`, averages to at most
/// `u64::MAX`.
proof fn lemma_avg_fits(total: int, n: int)
    requires
        n >= 1,
        0 <= total <= n * u64::MAX as int,
    ensures
        0 <= total / n <= u64::MAX as int,
{
    assert(total / n <= u64::MAX as int) by (nonlinear_arith)
        requires
            n >= 1,
            0 <= total <= n * u64::MAX as int,
    ;
}

} // verus!
