//! The per-iteration logic of the sampling loop.
//!
//! One iteration of the loop splits into two verified steps around the one
//! outside effect, the publish: `plan_tick` decides which position, if any,
//! this tick hands to the event sink, and `apply_tick` folds the outcome of
//! that publish attempt back into the loop state. The caller that owns the
//! real sink runs: plan, publish what was planned, apply.

use vstd::prelude::*;
use crate::config::PollerConfig;
use crate::position::MousePos;
use crate::position::moved_enough;
use crate::position::spec_moved_enough;

verus! {

/// The loop-local state of one sampling session.
#[derive(Clone, Copy, Debug, PartialEq, Eq, Structural)]
pub struct LoopState {
    /// The position most recently handed to the sink successfully; movement
    /// is measured from here.
    pub last_sent: Option<MousePos>,
    /// The most recent qualifying sample not yet published; newer samples
    /// overwrite it, they are never queued.
    pub pending: Option<MousePos>,
    /// Time of the last successful publish, in milliseconds of a monotonic
    /// clock; `None` before the first publish, so the first throttle window
    /// counts as already elapsed.
    pub last_emit: Option<u64>,
}

impl LoopState {
    /// The state a session starts in: nothing sent, nothing pending.
    pub open spec fn initial() -> LoopState {
        LoopState { last_sent: None, pending: None, last_emit: None }
    }

    /// Whether the throttle window has elapsed at time `now`: trivially true
    /// before the first publish.
    pub open spec fn spec_window_elapsed(self, throttle_ms: u64, now: u64) -> bool {
        match self.last_emit {
            Some(t) => now >= t + throttle_ms,
            None => true,
        }
    }

    /// Fresh loop state for a new session.
    pub fn new() -> (s: Self)
        ensures
            s == LoopState::initial(),
    {
        LoopState { last_sent: None, pending: None, last_emit: None }
    }
}

/// What one tick publishes, given the sample `cur` taken at time `now`:
/// - enough movement and throttling disabled: `cur`, immediately;
/// - enough movement and throttling enabled: `cur` becomes pending and is
///   published right away only if the throttle window has elapsed;
/// - not enough movement: only a pre-existing pending position whose window
///   has elapsed is published; a sub-threshold movement never publishes on
///   its own.
pub open spec fn spec_plan(cfg: PollerConfig, st: LoopState, cur: MousePos, now: u64) -> Option<MousePos> {
    if spec_moved_enough(st.last_sent, cur, cfg.min_move) {
        if cfg.throttle_ms == 0 {
            Some(cur)
        } else if st.spec_window_elapsed(cfg.throttle_ms, now) {
            Some(cur)
        } else {
            None
        }
    } else {
        if cfg.throttle_ms > 0 && st.pending is Some && st.spec_window_elapsed(cfg.throttle_ms, now) {
            Some(st.pending->0)
        } else {
            None
        }
    }
}

/// The loop state after one tick, given whether the planned publish was
/// handed to the sink successfully. A failed publish is treated as "nothing
/// happened": `last_sent`, `last_emit` and `pending` all keep the values the
/// publish would otherwise have changed, so the same position can be retried
/// on a later qualifying tick. Only the overwrite of `pending` by a sample
/// that moved enough under an enabled throttle survives a failure, since
/// that overwrite precedes the publish attempt.
pub open spec fn spec_apply(cfg: PollerConfig, st: LoopState, cur: MousePos, now: u64, publish_ok: bool) -> LoopState {
    let overwritten = if spec_moved_enough(st.last_sent, cur, cfg.min_move) && cfg.throttle_ms > 0 {
        Some(cur)
    } else {
        st.pending
    };
    match spec_plan(cfg, st, cur, now) {
        Some(p) => LoopState {
            last_sent: if publish_ok { Some(p) } else { st.last_sent },
            pending: if publish_ok { None } else { overwritten },
            last_emit: if publish_ok { Some(now) } else { st.last_emit },
        },
        None => LoopState { pending: overwritten, ..st },
    }
}

impl LoopState {
    /// Decide what this tick publishes, without changing the state.
    pub fn plan_tick(&self, cfg: &PollerConfig, cur: MousePos, now: u64) -> (r: Option<MousePos>)
        ensures
            r == spec_plan(*cfg, *self, cur, now),
    {
        let moved: bool = moved_enough(self.last_sent, cur, cfg.min_move);
        if moved {
            if cfg.throttle_ms == 0 {
                Some(cur)
            } else if self.window_elapsed(cfg.throttle_ms, now) {
                Some(cur)
            } else {
                None
            }
        } else {
            match self.pending {
                Some(p) => {
                    if cfg.throttle_ms > 0 && self.window_elapsed(cfg.throttle_ms, now) {
                        Some(p)
                    } else {
                        None
                    }
                },
                None => None,
            }
        }
    }

    /// Fold the outcome of this tick's publish attempt back into the state.
    /// `publish_ok` reports whether the position planned by `plan_tick` for
    /// the same `cur` and `now` was handed to the sink successfully; it is
    /// ignored when nothing was planned. A failed publish alters nothing: a
    /// sample that moved enough under an enabled throttle still overwrites
    /// `pending`, since that overwrite precedes the publish attempt, and the
    /// taken position otherwise stays pending for a later retry.
    pub fn apply_tick(&mut self, cfg: &PollerConfig, cur: MousePos, now: u64, publish_ok: bool)
        ensures
            *final(self) == spec_apply(*cfg, *old(self), cur, now, publish_ok),
    {
        let planned: Option<MousePos> = self.plan_tick(cfg, cur, now);
        let moved: bool = moved_enough(self.last_sent, cur, cfg.min_move);
        if moved && cfg.throttle_ms > 0 {
            self.pending = Some(cur);
        }
        match planned {
            Some(p) => {
                if publish_ok {
                    self.pending = None;
                    self.last_sent = Some(p);
                    self.last_emit = Some(now);
                }
            },
            None => {},
        }
    }

    /// Take the position the terminal flush must publish: the pending one,
    /// which stops being pending. The loop calls this exactly once, after
    /// cancellation, so the most recent unpublished sample is never silently
    /// lost on shutdown.
    pub fn take_flush(&mut self) -> (r: Option<MousePos>)
        ensures
            r == old(self).pending,
            final(self).pending is None,
            final(self).last_sent == old(self).last_sent,
            final(self).last_emit == old(self).last_emit,
    {
        let r: Option<MousePos> = self.pending;
        self.pending = None;
        r
    }

    /// Whether the throttle window has elapsed at time `now`.
    pub fn window_elapsed(&self, throttle_ms: u64, now: u64) -> (r: bool)
        ensures
            r == self.spec_window_elapsed(throttle_ms, now),
    {
        match self.last_emit {
            Some(t) => now >= t && now - t >= throttle_ms,
            None => true,
        }
    }
}

/// The movement threshold is never bypassed by the throttle: whatever one
/// tick publishes is either the current sample, which moved enough, or a
/// position that was already pending before the tick — a sub-threshold
/// movement never publishes on its own.
pub proof fn lemma_publish_origin(cfg: PollerConfig, st: LoopState, cur: MousePos, now: u64)
    ensures
        spec_plan(cfg, st, cur, now) matches Some(p) ==>
            (spec_moved_enough(st.last_sent, cur, cfg.min_move) && p == cur)
            || (st.pending matches Some(q) && p == q),
{
}

/// Fire-and-forget publishing: a failed publish is treated as if nothing had
/// happened — `last_sent`, `last_emit` and `pending` are exactly what they
/// would be had the tick planned no publish at all, so the unpublished
/// position stays pending (or is overwritten by the qualifying current
/// sample, whose overwrite precedes the publish attempt) and may be retried
/// once a later tick qualifies it again.
pub proof fn lemma_failed_publish_changes_nothing(cfg: PollerConfig, st: LoopState, cur: MousePos, now: u64)
    ensures
        spec_apply(cfg, st, cur, now, false).last_sent == st.last_sent,
        spec_apply(cfg, st, cur, now, false).last_emit == st.last_emit,
        spec_apply(cfg, st, cur, now, false).pending == (
            if spec_moved_enough(st.last_sent, cur, cfg.min_move) && cfg.throttle_ms > 0 {
                Some(cur)
            } else {
                st.pending
            }
        ),
{
}

} // verus!
