use vstd::prelude::*;

use std::collections::VecDeque;

verus! {

/// One point of the rate history: elapsed time since the engine's epoch,
/// in microseconds, and the rate measured there, in rate units.
#[derive(Clone, Copy, PartialEq, Eq, Structural, Debug)]
pub struct RateSample {
    pub at_us: u64,
    pub rate: u64,
}

/// Whether a sample lies within `window` of the history's latest time
/// coordinate `latest`.
pub open spec fn in_window(s: RateSample, latest: int, window: int) -> bool {
    s.at_us + window >= latest
}

/// How many samples of `h` lie within the window.
pub open spec fn count_in_window(h: Seq<RateSample>, latest: int, window: int) -> int
    decreases h.len(),
{
    if h.len() == 0 {
        0
    } else {
        count_in_window(h.drop_last(), latest, window) + if in_window(
            h.last(),
            latest,
            window,
        ) {
            1int
        } else {
            0int
        }
    }
}

/// The sum of the rates of the samples of `h` within the window.
pub open spec fn sum_in_window(h: Seq<RateSample>, latest: int, window: int) -> int
    decreases h.len(),
{
    if h.len() == 0 {
        0
    } else {
        sum_in_window(h.drop_last(), latest, window) + if in_window(
            h.last(),
            latest,
            window,
        ) {
            h.last().rate as int
        } else {
            0int
        }
    }
}

/// The rolling average over a history: the mean (rounded down) of the
/// rates of the samples whose time coordinate is within `window` of the
/// latest sample's, and zero for an empty history.
pub open spec fn spec_avg_rate(h: Seq<RateSample>, window: int) -> int {
    if h.len() == 0 {
        0
    } else {
        let latest = h.last().at_us as int;
        let c = count_in_window(h, latest, window);
        if c == 0 {
            0
        } else {
            sum_in_window(h, latest, window) / c
        }
    }
}

proof fn lemma_window_accum_push(h: Seq<RateSample>, x: RateSample, latest: int, window: int)
    ensures
        count_in_window(h.push(x), latest, window) == count_in_window(h, latest, window) + if in_window(
            x,
            latest,
            window,
        ) {
            1int
        } else {
            0int
        },
        sum_in_window(h.push(x), latest, window) == sum_in_window(h, latest, window) + if in_window(
            x,
            latest,
            window,
        ) {
            x.rate as int
        } else {
            0int
        },
        count_in_window(h, latest, window) >= 0,
        sum_in_window(h, latest, window) >= 0,
    decreases h.len(),
{
    assert(h.push(x).drop_last() =~= h);
    assert(h.push(x).last() == x);
    if h.len() > 0 {
        lemma_window_accum_push(h.drop_last(), h.last(), latest, window);
        assert(h.drop_last().push(h.last()) =~= h);
    }
}

/// The mean over the window, computed in one pass. Returns exactly
/// `spec_avg_rate` of the queue's contents.
pub fn average_in_window(h: &VecDeque<RateSample>, window_us: u64) -> (r: u64)
    ensures
        r == spec_avg_rate(h@, window_us as int),
{
    let n = h.len();
    if n == 0 {
        return 0;
    }
    let latest: u64 = h[n - 1].at_us;
    assert(latest == h@.last().at_us);
    let mut i: usize = 0;
    let mut count: u64 = 0;
    let mut total: u128 = 0;
    while i < n
        invariant
            n == h@.len(),
            0 <= i <= n,
            latest == h@.last().at_us,
            count == count_in_window(h@.take(i as int), latest as int, window_us as int),
            total == sum_in_window(h@.take(i as int), latest as int, window_us as int),
            count <= i,
            total <= count * (u64::MAX as int),
        decreases n - i,
    {
        let s = h[i];
        proof {
            assert(h@.take(i + 1) =~= h@.take(i as int).push(h@[i as int]));
            lemma_window_accum_push(
                h@.take(i as int),
                h@[i as int],
                latest as int,
                window_us as int,
            );
        }
        let within = (s.at_us as u128) + (window_us as u128) >= latest as u128;
        if within {
            count = count + 1;
            total = total + s.rate as u128;
        }
        i = i + 1;
    }
    assert(h@.take(n as int) =~= h@);
    if count == 0 {
        0
    } else {
        let q: u128 = total / (count as u128);
        proof {
            assert(q <= u64::MAX) by (nonlinear_arith)
                requires
                    total <= count * (u64::MAX as int),
                    count >= 1,
                    q == total / (count as u128),
            ;
        }
        q as u64
    }
}

} // verus!
