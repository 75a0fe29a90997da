use vstd::prelude::*;

verus! {

/// Capacity of the raw event log and of the rate history (FIFO eviction).
pub const HISTORY_SIZE: usize = 10000;

/// Warm-up delay before rate computation starts, in microseconds.
pub const INITIALIZATION_DELAY_US: u64 = 500_000;

/// Length of the recent-events window, in microseconds.
pub const EVENT_WINDOW_US: u64 = 1_000_000;

/// Smallest time span the rate math will divide by, in microseconds.
pub const MIN_TIME_SPAN_US: u64 = 1_000;

/// Gap in the history beyond which a zero padding sample is appended,
/// in microseconds.
pub const INACTIVITY_THRESHOLD_US: u64 = 50_000;

/// Idle time after which the current rate reads as zero, in microseconds.
pub const IDLE_CUTOFF_US: u64 = 200_000;

/// Trailing slice of the history consulted for outlier rejection,
/// in microseconds.
pub const OUTLIER_WINDOW_US: u64 = 250_000;

/// Rates are fixed point: this many rate units make one event per second.
pub const RATE_SCALE: u64 = 1_000;

/// Microseconds per second.
pub const MICROS_PER_SEC: u64 = 1_000_000;

/// Numerator of an event count, per microsecond of span, in rate units:
/// `k` events over `span` microseconds run at `k * RATE_FACTOR / span` units.
pub const RATE_FACTOR: u64 = RATE_SCALE * MICROS_PER_SEC;

/// Initial ceiling hint for a chart's vertical axis (1000 events/s).
pub const INITIAL_MAX_RATE: u64 = 1_000_000;

/// Smallest window size the recent-sample override applies to.
pub const SMALL_WINDOW_MIN: usize = 3;

/// Window sizes at or above this skip the recent-sample override.
pub const SMALL_WINDOW_MAX: usize = 20;

} // verus!
