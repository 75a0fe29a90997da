use rate_monitor::config::{HISTORY_SIZE, INITIAL_MAX_RATE};
use rate_monitor::engine::App;
use rate_monitor::history::RateSample;

fn sample(at_us: u64, rate: u64) -> RateSample {
    RateSample { at_us, rate }
}

#[test]
fn warm_up_gate_seeds_one_zero_sample() {
    let mut app = App::new(0);
    assert!(!app.is_initialized());
    assert_eq!(app.rate_history.len(), 0);

    app.check_initialization(499_999);
    assert!(!app.is_initialized());
    assert_eq!(app.rate_history.len(), 0);

    app.check_initialization(500_000);
    assert!(app.is_initialized());
    assert_eq!(app.rate_history.len(), 1);
    assert_eq!(app.rate_history[0], sample(500_000, 0));

    // The poll is idempotent: no second seed.
    app.check_initialization(600_000);
    assert_eq!(app.rate_history.len(), 1);
}

#[test]
fn events_recorded_but_no_rates_while_warming() {
    let mut app = App::new(0);
    for t in 0u64..10_050 {
        app.add_event(t, None, t);
    }
    // Warm-up never finished, so no rate was computed.
    assert!(!app.is_initialized());
    assert_eq!(app.rate_history.len(), 0);
    assert_eq!(app.last_calculated_rate, 0);
    assert_eq!(app.max_rate, 0);
    assert_eq!(app.graph_max_rate, INITIAL_MAX_RATE);
    // The raw log is capped, oldest entries evicted first.
    assert_eq!(app.event_timestamps.len(), HISTORY_SIZE);
    assert_eq!(app.event_timestamps[0], 50);
    assert_eq!(app.event_timestamps[HISTORY_SIZE - 1], 10_049);
    assert_eq!(app.last_event_time, 10_049);
}

#[test]
fn five_quick_events_scenario() {
    let mut app = App::new(0);
    app.check_initialization(500_000);

    let mut prev_max = app.max_rate;
    for t in [501_000u64, 502_000, 503_000, 504_000, 505_000] {
        app.add_event(t, None, t);
        assert!(app.max_rate >= prev_max);
        prev_max = app.max_rate;
    }

    let expected = [
        sample(500_000, 0),
        sample(501_000, 0),
        sample(502_000, 900_000),
        sample(503_000, 900_000),
        sample(504_000, 900_000),
        sample(505_000, 1_000_000),
    ];
    assert_eq!(app.rate_history.len(), expected.len());
    for (i, want) in expected.iter().enumerate() {
        assert_eq!(app.rate_history[i], *want);
    }
    // The override value was returned one-shot, not persisted.
    assert_eq!(app.last_calculated_rate, 900_000);
    assert_eq!(app.max_rate, 1_000_000);
    assert_eq!(app.graph_max_rate, 1_100_000);

    // Immediately after the fifth event the rate reads positive...
    assert_eq!(app.calculate_current_rate(505_100), 900_000);
    // ...exactly at the cutoff it still does...
    assert_eq!(app.calculate_current_rate(705_000), 900_000);
    // ...and past the cutoff it reads zero despite the persisted value.
    assert_eq!(app.calculate_current_rate(705_001), 0);
}

#[test]
fn avg_rate_exact_values() {
    let mut app = App::new(0);
    assert_eq!(app.calculate_avg_rate(1_000), 0);

    app.check_initialization(500_000);
    for t in [501_000u64, 502_000, 503_000, 504_000, 505_000] {
        app.add_event(t, None, t);
    }
    // Mean over all six samples: 3_700_000 / 6, rounded down.
    assert_eq!(app.calculate_avg_rate(5_000_000), 616_666);
    // A zero window still covers the latest sample.
    assert_eq!(app.calculate_avg_rate(0), 1_000_000);
}

#[test]
fn continuity_padding_decays_to_zero() {
    let mut app = App::new(0);
    app.check_initialization(500_000);
    app.add_event(600_000, None, 600_000);
    assert_eq!(app.rate_history.len(), 2);
    assert_eq!(app.rate_history[1], sample(600_000, 0));

    // Poll every 50ms for 2 seconds with no further events.
    let mut pushes = 0usize;
    for k in 1u64..=40 {
        let now = 600_000 + 50_000 * k;
        let before = app.rate_history.len();
        app.ensure_data_continuity(now);
        if app.rate_history.len() > before {
            pushes += 1;
            let last = app.rate_history[app.rate_history.len() - 1];
            assert_eq!(last, sample(now, 0));
        }
    }
    // A padding sample appears once the gap exceeds 50ms, then the gap
    // is re-measured from the pad: one push per 100ms here.
    assert_eq!(pushes, 20);
    assert_eq!(app.rate_history.len(), 22);
    for i in 0..app.rate_history.len() {
        assert_eq!(app.rate_history[i].rate, 0);
        if i > 0 {
            assert!(app.rate_history[i - 1].at_us <= app.rate_history[i].at_us);
        }
    }
    assert_eq!(app.calculate_current_rate(2_600_000), 0);
}

#[test]
fn continuity_is_noop_while_warming() {
    let mut app = App::new(0);
    app.ensure_data_continuity(100_000);
    app.ensure_data_continuity(200_000);
    assert_eq!(app.rate_history.len(), 0);
    assert!(!app.is_initialized());
}

#[test]
fn history_capacity_evicts_oldest() {
    let mut app = App::new(0);
    app.check_initialization(500_000);
    for k in 0u64..10_100 {
        let now = 600_000 + 100_000 * k;
        app.ensure_data_continuity(now);
    }
    assert_eq!(app.rate_history.len(), HISTORY_SIZE);
    // 10101 samples were appended in all; the oldest 101 are gone.
    assert_eq!(app.rate_history[0], sample(600_000 + 100_000 * 100, 0));
    let last = app.rate_history[HISTORY_SIZE - 1];
    assert_eq!(last, sample(600_000 + 100_000 * 10_099, 0));
}

#[test]
fn min_span_guard_keeps_previous_rate() {
    let mut app = App::new(0);
    app.check_initialization(500_000);
    // Sub-millisecond bursts: every span stays under the guard, so the
    // persisted (zero) rate is returned unchanged throughout.
    for i in 0u64..21 {
        app.add_event(600_000 + i, None, 600_000 + i);
    }
    for i in 0..app.rate_history.len() {
        assert_eq!(app.rate_history[i].rate, 0);
    }
    assert_eq!(app.last_calculated_rate, 0);
    assert_eq!(app.max_rate, 0);
    assert_eq!(app.graph_max_rate, INITIAL_MAX_RATE);
}

#[test]
fn smoothing_blends_baseline() {
    let mut app = App::new(0);
    app.check_initialization(500_000);
    // Twenty events exactly 1ms apart: the small-window override covers
    // the middle of the run, and the twentieth event reaches the
    // smoothing path with baseline (20-1) * RATE_FACTOR / 19000us
    // = 1_000_000 units, blended as (9 * 1_000_000 + 900_000) / 10.
    for i in 0u64..20 {
        let t = 600_000 + 1_000 * i;
        app.add_event(t, None, t);
    }
    let last = app.rate_history[app.rate_history.len() - 1];
    assert_eq!(last, sample(619_000, 990_000));
    assert_eq!(app.last_calculated_rate, 990_000);
    assert_eq!(app.max_rate, 1_000_000);
    assert_eq!(app.graph_max_rate, 1_100_000);
}

#[test]
fn stale_window_resets_rate() {
    let mut app = App::new(0);
    app.check_initialization(500_000);
    for t in [501_000u64, 502_000, 503_000, 504_000, 505_000] {
        app.add_event(t, None, t);
    }
    // More than the recency interval later: the window holds only the
    // new event, so the computed rate drops to zero.
    app.add_event(2_000_000, Some((5, 7)), 2_000_000);
    assert_eq!(app.recent_events_window.len(), 1);
    let last = app.rate_history[app.rate_history.len() - 1];
    assert_eq!(last, sample(2_000_000, 0));
    assert_eq!(app.current_pos, (5, 7));
    // The smoothing state survives a window reset.
    assert_eq!(app.last_calculated_rate, 900_000);
}

#[test]
fn position_updates_only_when_supplied() {
    let mut app = App::new(0);
    assert_eq!(app.current_pos, (0, 0));
    app.add_event(1_000, Some((3, 4)), 1_000);
    assert_eq!(app.current_pos, (3, 4));
    app.add_event(2_000, None, 2_000);
    assert_eq!(app.current_pos, (3, 4));
}
