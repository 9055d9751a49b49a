//! Session configuration, immutable once a session starts.

use vstd::prelude::*;

verus! {

/// Sampling period used when the caller gives none, in milliseconds.
pub const DEFAULT_INTERVAL_MS: u64 = 80;

/// Configuration of one sampling session.
pub struct PollerConfig {
    /// Fixed sampling period of the loop, in milliseconds.
    pub interval_ms: u64,
    /// Minimum L1 movement from the last published position that qualifies a
    /// sample for publishing; never negative.
    pub min_move: i32,
    /// Minimum time between two publishes, in milliseconds; zero disables
    /// throttling.
    pub throttle_ms: u64,
    /// Subscriber the events are addressed to; `None` broadcasts to all.
    pub target: Option<String>,
}

impl PollerConfig {
    /// A configuration is well formed when the movement threshold is not
    /// negative.
    pub open spec fn wf(self) -> bool {
        self.min_move >= 0
    }

    /// Resolve the optional request parameters of a start command into a
    /// configuration: the interval defaults to `DEFAULT_INTERVAL_MS`, the
    /// movement threshold defaults to zero and is clamped to be non-negative,
    /// and the throttle defaults to zero (disabled).
    pub fn from_request(
        interval_ms: Option<u64>,
        min_move: Option<i32>,
        throttle_ms: Option<u64>,
        target: Option<String>,
    ) -> (c: Self)
        ensures
            c.wf(),
            c.interval_ms == (if interval_ms is Some { interval_ms->0 } else { DEFAULT_INTERVAL_MS }),
            c.min_move == (if min_move is Some && min_move->0 > 0 { min_move->0 } else { 0i32 }),
            c.throttle_ms == (if throttle_ms is Some { throttle_ms->0 } else { 0u64 }),
            c.target == target,
    {
        let interval: u64 = match interval_ms {
            Some(ms) => ms,
            None => DEFAULT_INTERVAL_MS,
        };
        let threshold: i32 = match min_move {
            Some(m) => if m > 0 { m } else { 0 },
            None => 0,
        };
        let throttle: u64 = match throttle_ms {
            Some(t) => t,
            None => 0,
        };
        PollerConfig { interval_ms: interval, min_move: threshold, throttle_ms: throttle, target }
    }
}

} // verus!
