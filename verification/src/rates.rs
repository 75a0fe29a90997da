use vstd::prelude::*;

use crate::config::{MIN_TIME_SPAN_US, RATE_FACTOR};
use crate::queues::sorted_u64;

verus! {

/// Saturate a mathematical value into the range of `u64`.
pub open spec fn sat_u64(x: int) -> int {
    if x > u64::MAX as int {
        u64::MAX as int
    } else {
        x
    }
}

/// The whole-window average rate, in rate units: `n - 1` inter-event
/// gaps spread over `span_us` microseconds, saturated into `u64`.
pub open spec fn spec_baseline(n: int, span_us: int) -> int
    recommends
        n >= 2,
        span_us >= 1,
{
    sat_u64((n - 1) * RATE_FACTOR / span_us)
}

/// The instantaneous rate over the last two inter-event gaps, in rate
/// units: two events over `span_us` microseconds.
pub open spec fn spec_recent_rate(span_us: int) -> int
    recommends
        span_us >= 1,
{
    2 * RATE_FACTOR / span_us
}

/// Exponential smoothing with factor 0.9: nine parts of the new
/// measurement blended with one part of the previous estimate.
pub open spec fn spec_smoothed(baseline: int, last: int) -> int {
    (9 * baseline + last) / 10
}

/// The chart ceiling hint: the peak rate padded by ten percent,
/// saturated into `u64`.
pub open spec fn spec_padded_ceiling(peak: int) -> int {
    sat_u64(peak * 11 / 10)
}

/// Computes `spec_baseline`.
pub fn baseline_rate(n: usize, span_us: u64) -> (r: u64)
    requires
        n >= 2,
        span_us >= 1,
    ensures
        r == spec_baseline(n as int, span_us as int),
{
    let k: u128 = n as u128 - 1;
    proof {
        assert(k * (RATE_FACTOR as u128) <= (u64::MAX as u128) * (RATE_FACTOR as u128))
            by (nonlinear_arith)
            requires
                k <= u64::MAX as u128,
        ;
    }
    let num: u128 = k * (RATE_FACTOR as u128);
    let q: u128 = num / (span_us as u128);
    if q > u64::MAX as u128 {
        u64::MAX
    } else {
        q as u64
    }
}

/// Computes `spec_recent_rate`; the result always fits in `u64`.
pub fn recent_rate(span_us: u64) -> (r: u64)
    requires
        span_us >= 1,
    ensures
        r == spec_recent_rate(span_us as int),
{
    (2 * RATE_FACTOR) / span_us
}

/// Computes `spec_smoothed`; the blend of two `u64` values fits in `u64`.
pub fn smoothed_rate(baseline: u64, last: u64) -> (r: u64)
    ensures
        r == spec_smoothed(baseline as int, last as int),
{
    let num: u128 = 9 * (baseline as u128) + (last as u128);
    let q: u128 = num / 10;
    assert(q <= u64::MAX);
    q as u64
}

/// Computes `spec_padded_ceiling`; always at least `peak`.
pub fn padded_ceiling(peak: u64) -> (r: u64)
    ensures
        r == spec_padded_ceiling(peak as int),
        r >= peak,
{
    let num: u128 = 11 * (peak as u128);
    let q: u128 = num / 10;
    if q > u64::MAX as u128 {
        u64::MAX
    } else {
        assert(q >= peak);
        q as u64
    }
}

/// A sorted window whose consecutive gaps are all at least
/// `MIN_TIME_SPAN_US` spans at least `MIN_TIME_SPAN_US` per gap in
/// total, so the near-zero-span guard never fires on it.
pub proof fn lemma_span_lower_bound(w: Seq<u64>)
    requires
        w.len() >= 2,
        sorted_u64(w),
        forall|i: int| 0 < i < w.len() ==> #[trigger] w[i] - w[i - 1] >= MIN_TIME_SPAN_US,
    ensures
        w.last() - w.first() >= (w.len() - 1) * MIN_TIME_SPAN_US,
        w.last() - w.first() >= MIN_TIME_SPAN_US,
    decreases w.len(),
{
    if w.len() == 2 {
        assert(w.last() - w.first() >= MIN_TIME_SPAN_US);
    } else {
        lemma_span_lower_bound(w.drop_last());
        assert(w.drop_last().last() == w[w.len() - 2]);
        assert(w.last() - w[w.len() - 2] >= MIN_TIME_SPAN_US);
    }
}

} // verus!
