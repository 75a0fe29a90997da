use vstd::prelude::*;

use std::collections::VecDeque;

verus! {

/// A sequence whose elements never decrease from front to back.
pub open spec fn sorted_u64(s: Seq<u64>) -> bool {
    forall|i: int, j: int| 0 <= i <= j < s.len() ==> s[i] <= s[j]
}

/// What is left of a count-bounded queue after evicting from the front
/// down to `cap` elements: the newest `cap` entries, oldest evicted first.
pub open spec fn evict_front<T>(s: Seq<T>, cap: int) -> Seq<T> {
    if s.len() <= cap {
        s
    } else {
        s.skip(s.len() - cap)
    }
}

/// What is left of a time-bounded queue after evicting front entries
/// older than `horizon` relative to `now`.
pub open spec fn drop_stale(s: Seq<u64>, now: int, horizon: int) -> Seq<u64>
    decreases s.len(),
{
    if s.len() == 0 {
        s
    } else if now - s[0] > horizon {
        drop_stale(s.drop_first(), now, horizon)
    } else {
        s
    }
}

/// Pop front entries until at most `cap` remain.
pub fn evict_to_cap<T>(q: &mut VecDeque<T>, cap: usize)
    ensures
        final(q)@ == evict_front(old(q)@, cap as int),
{
    while q.len() > cap
        invariant
            evict_front(q@, cap as int) == evict_front(old(q)@, cap as int),
        decreases q@.len(),
    {
        let ghost prev = q@;
        q.pop_front();
        proof {
            assert(q@ =~= prev.drop_first());
            if prev.len() - 1 > cap {
                assert(prev.drop_first().skip(prev.drop_first().len() - cap) =~= prev.skip(
                    prev.len() - cap,
                ));
            } else {
                assert(prev.drop_first() =~= prev.skip(prev.len() - cap));
            }
        }
    }
}

/// Pop front entries older than `horizon_us` relative to `now_us`.
/// The queue must be sorted; every survivor is then within the horizon.
pub fn trim_stale_front(q: &mut VecDeque<u64>, now_us: u64, horizon_us: u64)
    requires
        sorted_u64(old(q)@),
        forall|i: int| 0 <= i < old(q)@.len() ==> old(q)@[i] <= now_us,
    ensures
        final(q)@ == drop_stale(old(q)@, now_us as int, horizon_us as int),
        sorted_u64(final(q)@),
        exists|k: int|
            0 <= k <= old(q)@.len() && final(q)@ == old(q)@.skip(k),
        forall|i: int|
            0 <= i < final(q)@.len() ==> final(q)@[i] + horizon_us >= now_us,
{
    let ghost orig = q@;
    let ghost dropped: int = 0;
    while q.len() > 0 && now_us - q[0] > horizon_us
        invariant
            sorted_u64(q@),
            forall|i: int| 0 <= i < q@.len() ==> q@[i] <= now_us,
            drop_stale(q@, now_us as int, horizon_us as int) == drop_stale(
                orig,
                now_us as int,
                horizon_us as int,
            ),
            0 <= dropped <= orig.len(),
            q@ == orig.skip(dropped),
        decreases q@.len(),
    {
        let ghost prev = q@;
        q.pop_front();
        proof {
            assert(q@ =~= prev.drop_first());
            assert(q@ =~= orig.skip(dropped + 1));
            dropped = dropped + 1;
        }
    }
    proof {
        assert(drop_stale(q@, now_us as int, horizon_us as int) == q@);
        if q@.len() > 0 {
            assert forall|i: int| 0 <= i < q@.len() implies q@[i] + horizon_us >= now_us by {
                assert(q@[0] <= q@[i]);
            }
        }
    }
}

} // verus!
