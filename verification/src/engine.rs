use vstd::prelude::*;

use std::collections::VecDeque;

use crate::config::{
    EVENT_WINDOW_US, HISTORY_SIZE, IDLE_CUTOFF_US, INACTIVITY_THRESHOLD_US, INITIAL_MAX_RATE,
    INITIALIZATION_DELAY_US, MIN_TIME_SPAN_US, OUTLIER_WINDOW_US, SMALL_WINDOW_MAX,
    SMALL_WINDOW_MIN,
};
use crate::history::{average_in_window, spec_avg_rate, RateSample};
use crate::queues::{drop_stale, evict_front, evict_to_cap, sorted_u64, trim_stale_front};
use crate::rates::{
    baseline_rate, lemma_span_lower_bound, padded_ceiling, recent_rate, smoothed_rate,
    spec_baseline, spec_padded_ceiling, spec_recent_rate, spec_smoothed,
};

verus! {

/// The rate-estimation engine: ingests timestamped events, keeps a
/// time-bounded recent window and a count-bounded raw log, and retains a
/// count-bounded history of (elapsed, rate) samples.
///
/// All times are monotonic microsecond readings supplied by the caller;
/// rates are fixed point, `RATE_SCALE` units per event per second.
pub struct App {
    /// Count-bounded raw log of ingested timestamps, oldest first.
    pub event_timestamps: VecDeque<u64>,
    /// Time-bounded window of the most recent second of timestamps.
    pub recent_events_window: VecDeque<u64>,
    /// Timestamp of the last ingested event.
    pub last_event_time: u64,
    /// Last known cursor position.
    pub current_pos: (i32, i32),
    /// Count-bounded series of (elapsed, rate) samples, oldest first.
    pub rate_history: VecDeque<RateSample>,
    /// Persisted exponential-smoothing state.
    pub last_calculated_rate: u64,
    /// Lifetime high-water mark of the computed rate.
    pub max_rate: u64,
    /// Suggested chart ceiling: the peak rate plus ten percent padding.
    pub graph_max_rate: u64,
    /// Epoch for the history's elapsed-time coordinates.
    pub start_time: u64,
    /// When the engine was created; the warm-up gate measures from here.
    pub creation_time: u64,
    /// Set once the warm-up delay has elapsed, and never cleared.
    pub initialization_complete: bool,
    /// The latest time reading the engine has been handed. Callers pass
    /// non-decreasing readings of one monotonic clock, so every stored
    /// time lies at or before this mark.
    pub clock: Ghost<u64>,
}

/// The value the recent-sample override yields, if it applies: `None`
/// when the window size is outside the small range or the span of the
/// last two gaps is below the guard; the persisted rate when the fresh
/// two-gap rate is an outlier against the trailing history average;
/// the fresh two-gap rate otherwise.
pub open spec fn spec_recent_override(w: Seq<u64>, h: Seq<RateSample>, last: u64) -> Option<u64> {
    if w.len() < SMALL_WINDOW_MIN || w.len() >= SMALL_WINDOW_MAX {
        None
    } else {
        let rspan = w.last() - w[w.len() - 3];
        if rspan < MIN_TIME_SPAN_US {
            None
        } else {
            let recent = spec_recent_rate(rspan);
            let avg = spec_avg_rate(h, OUTLIER_WINDOW_US as int);
            if avg > 0 && recent > 2 * avg {
                Some(last)
            } else {
                Some(recent as u64)
            }
        }
    }
}

/// What one rate computation returns and persists, as a pair
/// (returned rate, new smoothing state), given the recent window, the
/// history and the persisted smoothing state:
/// - fewer than two events in the window: zero, nothing persisted;
/// - window span under the guard: the persisted rate, unchanged;
/// - the recent-sample override, where it applies: its value, with the
///   persisted rate unchanged;
/// - otherwise: the baseline blended into the persisted rate, which is
///   persisted.
pub open spec fn spec_rate_outcome(w: Seq<u64>, h: Seq<RateSample>, last: u64) -> (int, int) {
    if w.len() < 2 {
        (0, last as int)
    } else if w.last() - w.first() < MIN_TIME_SPAN_US {
        (last as int, last as int)
    } else {
        match spec_recent_override(w, h, last) {
            Some(r) => (r as int, last as int),
            None => {
                let sm = spec_smoothed(
                    spec_baseline(w.len() as int, w.last() - w.first()),
                    last as int,
                );
                (sm, sm)
            },
        }
    }
}

/// Law: for a window of at least two timestamps whose consecutive gaps
/// all reach `MIN_TIME_SPAN_US`, the span reaches the guard too, so the
/// near-zero-span branch never fires: the computation either yields the
/// recent-sample override or blends the whole-window baseline rate
/// `(len - 1) * RATE_FACTOR / span` into the smoothing state, where
/// `span` is the window's newest timestamp minus its oldest.
pub proof fn lemma_baseline_rate_applies(w: Seq<u64>, h: Seq<RateSample>, last: u64)
    requires
        w.len() >= 2,
        sorted_u64(w),
        forall|i: int| 0 < i < w.len() ==> #[trigger] w[i] - w[i - 1] >= MIN_TIME_SPAN_US,
    ensures
        w.last() - w.first() >= MIN_TIME_SPAN_US,
        spec_recent_override(w, h, last) is None ==> spec_rate_outcome(w, h, last) == {
            let sm = spec_smoothed(
                spec_baseline(w.len() as int, w.last() - w.first()),
                last as int,
            );
            (sm, sm)
        },
{
    lemma_span_lower_bound(w);
}

impl App {
    /// The engine's internal invariant.
    pub open spec fn wf(self) -> bool {
        &&& self.start_time == self.creation_time
        &&& self.start_time <= self.clock@
        &&& self.last_event_time <= self.clock@
        &&& self.event_timestamps@.len() <= HISTORY_SIZE
        &&& sorted_u64(self.event_timestamps@)
        &&& (forall|i: int|
            0 <= i < self.event_timestamps@.len() ==> #[trigger] self.event_timestamps@[i]
                <= self.last_event_time)
        &&& sorted_u64(self.recent_events_window@)
        &&& (forall|i: int|
            0 <= i < self.recent_events_window@.len() ==> #[trigger] self.recent_events_window@[i]
                <= self.last_event_time)
        &&& self.rate_history@.len() <= HISTORY_SIZE
        &&& (forall|i: int, j: int|
            0 <= i <= j < self.rate_history@.len() ==> #[trigger] self.rate_history@[i].at_us
                <= #[trigger] self.rate_history@[j].at_us)
        &&& (forall|i: int|
            0 <= i < self.rate_history@.len() ==> #[trigger] self.rate_history@[i].at_us
                + self.start_time <= self.clock@)
        &&& self.graph_max_rate >= self.max_rate
        &&& (!self.initialization_complete ==> self.rate_history@.len() == 0
            && self.last_calculated_rate == 0 && self.max_rate == 0 && self.graph_max_rate
            == INITIAL_MAX_RATE)
    }

    /// A fresh engine at time `now_us`: empty containers, zero rate
    /// state, the warm-up gate closed.
    pub fn new(now_us: u64) -> (app: App)
        ensures
            app.wf(),
            app.event_timestamps@ == Seq::<u64>::empty(),
            app.recent_events_window@ == Seq::<u64>::empty(),
            app.rate_history@ == Seq::<RateSample>::empty(),
            app.last_event_time == now_us,
            app.current_pos == (0i32, 0i32),
            app.last_calculated_rate == 0,
            app.max_rate == 0,
            app.graph_max_rate == INITIAL_MAX_RATE,
            app.start_time == now_us,
            app.creation_time == now_us,
            !app.initialization_complete,
            app.clock@ == now_us,
    {
        App {
            event_timestamps: VecDeque::new(),
            recent_events_window: VecDeque::new(),
            last_event_time: now_us,
            current_pos: (0, 0),
            rate_history: VecDeque::new(),
            last_calculated_rate: 0,
            max_rate: 0,
            graph_max_rate: INITIAL_MAX_RATE,
            start_time: now_us,
            creation_time: now_us,
            initialization_complete: false,
            clock: Ghost(now_us),
        }
    }

    /// Idempotent warm-up poll at time `now_us`: once the delay since
    /// creation has elapsed, marks the engine ready and seeds the
    /// history with exactly one zero sample; otherwise changes nothing.
    /// Events are still recorded during warm-up, but the history stays
    /// empty until this transition.
    pub fn check_initialization(&mut self, now_us: u64)
        requires
            old(self).wf(),
            now_us >= old(self).clock@,
        ensures
            final(self).wf(),
            final(self).clock@ == now_us,
            final(self).initialization_complete == (old(self).initialization_complete || now_us
                - old(self).creation_time >= INITIALIZATION_DELAY_US),
            (!old(self).initialization_complete && final(self).initialization_complete)
                ==> final(self).rate_history@ =~= seq![
                (RateSample { at_us: (now_us - old(self).start_time) as u64, rate: 0u64 }),
            ],
            (old(self).initialization_complete || !final(self).initialization_complete)
                ==> final(self).rate_history@ == old(self).rate_history@,
            final(self).event_timestamps == old(self).event_timestamps,
            final(self).recent_events_window == old(self).recent_events_window,
            final(self).last_event_time == old(self).last_event_time,
            final(self).current_pos == old(self).current_pos,
            final(self).last_calculated_rate == old(self).last_calculated_rate,
            final(self).max_rate == old(self).max_rate,
            final(self).graph_max_rate == old(self).graph_max_rate,
            final(self).start_time == old(self).start_time,
            final(self).creation_time == old(self).creation_time,
    {
        if !self.initialization_complete && now_us - self.creation_time
            >= INITIALIZATION_DELAY_US {
            self.initialization_complete = true;
            let current_time = now_us - self.start_time;
            self.rate_history.push_back(RateSample { at_us: current_time, rate: 0 });
        }
        self.clock = Ghost(now_us);
    }

    /// Idempotent continuity poll at time `now_us`: a no-op while the
    /// gate is closed; once open, appends a zero sample whenever the gap
    /// since the history's last sample exceeds the inactivity threshold,
    /// so a chart decays to zero instead of flat-lining.
    pub fn ensure_data_continuity(&mut self, now_us: u64)
        requires
            old(self).wf(),
            now_us >= old(self).clock@,
        ensures
            final(self).wf(),
            final(self).clock@ == now_us,
            ({
                let elapsed = now_us - old(self).start_time;
                let h = old(self).rate_history@;
                if old(self).initialization_complete && h.len() > 0 && elapsed - h.last().at_us
                    > INACTIVITY_THRESHOLD_US {
                    final(self).rate_history@ == evict_front(
                        h.push((RateSample { at_us: elapsed as u64, rate: 0u64 })),
                        HISTORY_SIZE as int,
                    )
                } else {
                    final(self).rate_history@ == h
                }
            }),
            final(self).event_timestamps == old(self).event_timestamps,
            final(self).recent_events_window == old(self).recent_events_window,
            final(self).last_event_time == old(self).last_event_time,
            final(self).current_pos == old(self).current_pos,
            final(self).last_calculated_rate == old(self).last_calculated_rate,
            final(self).max_rate == old(self).max_rate,
            final(self).graph_max_rate == old(self).graph_max_rate,
            final(self).start_time == old(self).start_time,
            final(self).creation_time == old(self).creation_time,
            final(self).initialization_complete == old(self).initialization_complete,
    {
        self.clock = Ghost(now_us);
        if !self.initialization_complete {
            return ;
        }
        let current_time = now_us - self.start_time;
        let n = self.rate_history.len();
        if n > 0 {
            let last_timestamp = self.rate_history[n - 1].at_us;
            if current_time - last_timestamp > INACTIVITY_THRESHOLD_US {
                self.rate_history.push_back(RateSample { at_us: current_time, rate: 0 });
                evict_to_cap(&mut self.rate_history, HISTORY_SIZE);
            }
        }
    }

    /// Whether the warm-up gate has opened.
    pub fn is_initialized(&self) -> (b: bool)
        ensures
            b == self.initialization_complete,
    {
        self.initialization_complete
    }

    /// The rate to display at time `now_us`: zero once no event has
    /// arrived for more than the idle cutoff, the persisted smoothed
    /// rate otherwise.
    pub fn calculate_current_rate(&self, now_us: u64) -> (r: u64)
        requires
            now_us >= self.last_event_time,
        ensures
            r == (if now_us - self.last_event_time > IDLE_CUTOFF_US {
                0u64
            } else {
                self.last_calculated_rate
            }),
    {
        if now_us - self.last_event_time > IDLE_CUTOFF_US {
            return 0;
        }
        self.last_calculated_rate
    }

    /// Whether a freshly measured rate is an outlier: the trailing
    /// history average is positive and the measurement exceeds twice it.
    fn is_rate_outlier(&self, rate: u64, window_us: u64) -> (b: bool)
        ensures
            b == ({
                let avg = spec_avg_rate(self.rate_history@, window_us as int);
                avg > 0 && rate > 2 * avg
            }),
    {
        let recent_avg = self.calculate_avg_rate(window_us);
        recent_avg > 0 && (rate as u128) > 2 * (recent_avg as u128)
    }

    /// The recent-sample override of the rate computation, exactly
    /// `spec_recent_override` of the current state.
    fn calculate_recent_rate(&self, window_size: usize, newest: u64) -> (r: Option<u64>)
        requires
            self.wf(),
            window_size == self.recent_events_window@.len(),
            window_size >= 2,
            newest == self.recent_events_window@.last(),
        ensures
            r == spec_recent_override(
                self.recent_events_window@,
                self.rate_history@,
                self.last_calculated_rate,
            ),
    {
        if window_size < SMALL_WINDOW_MIN || window_size >= SMALL_WINDOW_MAX {
            return None;
        }
        let third_newest = self.recent_events_window[window_size - 3];
        assert(third_newest <= newest);
        let time_span = newest - third_newest;
        if time_span < MIN_TIME_SPAN_US {
            return None;
        }
        let recent = recent_rate(time_span);
        if self.is_rate_outlier(recent, OUTLIER_WINDOW_US) {
            return Some(self.last_calculated_rate);
        }
        Some(recent)
    }

    /// One rate computation over the current window and history, exactly
    /// `spec_rate_outcome` of the current state: returns the new rate
    /// and persists the smoothing state on the smoothing path only.
    fn calculate_rate(&mut self) -> (r: u64)
        requires
            old(self).wf(),
            old(self).initialization_complete,
        ensures
            final(self).wf(),
            ({
                let outcome = spec_rate_outcome(
                    old(self).recent_events_window@,
                    old(self).rate_history@,
                    old(self).last_calculated_rate,
                );
                r == outcome.0 && final(self).last_calculated_rate == outcome.1
            }),
            final(self).event_timestamps == old(self).event_timestamps,
            final(self).recent_events_window == old(self).recent_events_window,
            final(self).last_event_time == old(self).last_event_time,
            final(self).current_pos == old(self).current_pos,
            final(self).rate_history == old(self).rate_history,
            final(self).max_rate == old(self).max_rate,
            final(self).graph_max_rate == old(self).graph_max_rate,
            final(self).start_time == old(self).start_time,
            final(self).creation_time == old(self).creation_time,
            final(self).initialization_complete == old(self).initialization_complete,
            final(self).clock == old(self).clock,
    {
        let window_size = self.recent_events_window.len();
        if window_size < 2 {
            return 0;
        }
        let oldest = self.recent_events_window[0];
        let newest = self.recent_events_window[window_size - 1];
        assert(oldest <= newest);
        let time_span = newest - oldest;
        if time_span < MIN_TIME_SPAN_US {
            return self.last_calculated_rate;
        }
        let new_rate = baseline_rate(window_size, time_span);
        let maybe_recent = self.calculate_recent_rate(window_size, newest);
        if let Some(recent) = maybe_recent {
            return recent;
        }
        let sm = smoothed_rate(new_rate, self.last_calculated_rate);
        self.last_calculated_rate = sm;
        sm
    }

    /// Record one rate computation at `timestamp_us`: compute the rate,
    /// raise the high-water mark and the chart ceiling if it is a new
    /// peak, and append an (elapsed, rate) sample to the history,
    /// evicting the oldest entries beyond the capacity.
    fn update_rate(&mut self, timestamp_us: u64)
        requires
            old(self).wf(),
            old(self).initialization_complete,
            timestamp_us >= old(self).clock@,
        ensures
            final(self).wf(),
            final(self).clock@ == timestamp_us,
            ({
                let outcome = spec_rate_outcome(
                    old(self).recent_events_window@,
                    old(self).rate_history@,
                    old(self).last_calculated_rate,
                );
                let rate = outcome.0;
                &&& final(self).last_calculated_rate == outcome.1
                &&& final(self).max_rate == (if rate > old(self).max_rate {
                    rate
                } else {
                    old(self).max_rate as int
                })
                &&& final(self).graph_max_rate == (if rate > old(self).max_rate {
                    spec_padded_ceiling(rate)
                } else {
                    old(self).graph_max_rate as int
                })
                &&& final(self).rate_history@ == evict_front(
                    old(self).rate_history@.push(
                        (RateSample {
                            at_us: (timestamp_us - old(self).start_time) as u64,
                            rate: rate as u64,
                        }),
                    ),
                    HISTORY_SIZE as int,
                )
            }),
            final(self).max_rate >= old(self).max_rate,
            final(self).event_timestamps == old(self).event_timestamps,
            final(self).recent_events_window == old(self).recent_events_window,
            final(self).last_event_time == old(self).last_event_time,
            final(self).current_pos == old(self).current_pos,
            final(self).start_time == old(self).start_time,
            final(self).creation_time == old(self).creation_time,
            final(self).initialization_complete == old(self).initialization_complete,
    {
        let current_time = timestamp_us - self.start_time;
        let current_rate = self.calculate_rate();
        if current_rate > self.max_rate {
            self.max_rate = current_rate;
            self.graph_max_rate = padded_ceiling(current_rate);
        }
        self.rate_history.push_back(RateSample { at_us: current_time, rate: current_rate });
        evict_to_cap(&mut self.rate_history, HISTORY_SIZE);
        self.clock = Ghost(timestamp_us);
    }

    /// Ingest one event: append its timestamp to the raw log (evicting
    /// the oldest beyond the capacity) and to the recent window (then
    /// evicting window entries older than the recency interval relative
    /// to the wall-clock reading `now_us`, not the event's own
    /// timestamp), remember the position if one came along, and, once
    /// the warm-up gate is open, record a rate computation at the
    /// event's timestamp.
    pub fn add_event(&mut self, timestamp_us: u64, pos: Option<(i32, i32)>, now_us: u64)
        requires
            old(self).wf(),
            timestamp_us >= old(self).clock@,
            now_us >= timestamp_us,
        ensures
            final(self).wf(),
            final(self).clock@ == now_us,
            final(self).last_event_time == timestamp_us,
            (match pos {
                Some(p) => final(self).current_pos == p,
                None => final(self).current_pos == old(self).current_pos,
            }),
            final(self).event_timestamps@ == evict_front(
                old(self).event_timestamps@.push(timestamp_us),
                HISTORY_SIZE as int,
            ),
            final(self).recent_events_window@ == drop_stale(
                old(self).recent_events_window@.push(timestamp_us),
                now_us as int,
                EVENT_WINDOW_US as int,
            ),
            forall|i: int|
                0 <= i < final(self).recent_events_window@.len()
                    ==> #[trigger] final(self).recent_events_window@[i] + EVENT_WINDOW_US
                    >= now_us,
            final(self).initialization_complete == (old(self).initialization_complete
                || timestamp_us - old(self).creation_time >= INITIALIZATION_DELAY_US),
            final(self).max_rate >= old(self).max_rate,
            final(self).start_time == old(self).start_time,
            final(self).creation_time == old(self).creation_time,
            ({
                let seeded = if !old(self).initialization_complete && timestamp_us - old(
                    self,
                ).creation_time >= INITIALIZATION_DELAY_US {
                    old(self).rate_history@.push(
                        (RateSample {
                            at_us: (timestamp_us - old(self).start_time) as u64,
                            rate: 0u64,
                        }),
                    )
                } else {
                    old(self).rate_history@
                };
                let win = drop_stale(
                    old(self).recent_events_window@.push(timestamp_us),
                    now_us as int,
                    EVENT_WINDOW_US as int,
                );
                if old(self).initialization_complete || timestamp_us - old(self).creation_time
                    >= INITIALIZATION_DELAY_US {
                    let outcome = spec_rate_outcome(win, seeded, old(self).last_calculated_rate);
                    &&& final(self).rate_history@ == evict_front(
                        seeded.push(
                            (RateSample {
                                at_us: (timestamp_us - old(self).start_time) as u64,
                                rate: outcome.0 as u64,
                            }),
                        ),
                        HISTORY_SIZE as int,
                    )
                    &&& final(self).last_calculated_rate == outcome.1
                    &&& final(self).max_rate == (if outcome.0 > old(self).max_rate {
                        outcome.0
                    } else {
                        old(self).max_rate as int
                    })
                    &&& final(self).graph_max_rate == (if outcome.0 > old(self).max_rate {
                        spec_padded_ceiling(outcome.0)
                    } else {
                        old(self).graph_max_rate as int
                    })
                } else {
                    &&& final(self).rate_history@ == old(self).rate_history@
                    &&& final(self).last_calculated_rate == old(self).last_calculated_rate
                    &&& final(self).max_rate == old(self).max_rate
                    &&& final(self).graph_max_rate == old(self).graph_max_rate
                }
            }),
    {
        self.check_initialization(timestamp_us);
        self.event_timestamps.push_back(timestamp_us);
        self.recent_events_window.push_back(timestamp_us);
        self.last_event_time = timestamp_us;
        if let Some(new_pos) = pos {
            self.current_pos = new_pos;
        }
        evict_to_cap(&mut self.event_timestamps, HISTORY_SIZE);
        trim_stale_front(&mut self.recent_events_window, now_us, EVENT_WINDOW_US);
        if self.initialization_complete {
            self.update_rate(timestamp_us);
        }
        self.clock = Ghost(now_us);
        proof {
            if !old(self).initialization_complete && timestamp_us - old(self).creation_time
                >= INITIALIZATION_DELAY_US {
                let seed = RateSample {
                    at_us: (timestamp_us - old(self).start_time) as u64,
                    rate: 0u64,
                };
                assert(old(self).rate_history@.len() == 0);
                assert(old(self).rate_history@.push(seed) =~= seq![seed]);
            }
        }
    }

    /// The mean of the history's rates over the trailing `window_us`,
    /// measured back from the latest sample; zero for an empty history.
    pub fn calculate_avg_rate(&self, window_us: u64) -> (r: u64)
        ensures
            r == spec_avg_rate(self.rate_history@, window_us as int),
    {
        average_in_window(&self.rate_history, window_us)
    }
}

} // verus!
