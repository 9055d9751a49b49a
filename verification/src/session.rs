//! Whole sessions over synthetic sample traces, and the laws that hold of
//! them.
//!
//! A session is modelled as a fold of the tick logic over a sequence of
//! timestamped samples, followed by the terminal flush. One model treats
//! every planned publish as accepted by the sink and has executable
//! simulators beside it; a second carries a per-tick success flag, so the
//! throttling and flush laws also hold of sessions in which some publishes
//! fail.

use vstd::prelude::*;
use crate::config::PollerConfig;
use crate::position::MousePos;
use crate::position::l1_dist;
use crate::position::spec_moved_enough;
use crate::sampler::LoopState;
use crate::sampler::spec_apply;
use crate::sampler::spec_plan;

verus! {

/// One synthetic sample: a position read at a time, in milliseconds of a
/// monotonic clock.
#[derive(Clone, Copy, Debug, PartialEq, Eq, Structural)]
pub struct Sample {
    pub pos: MousePos,
    pub at: u64,
}

/// One published event: the position handed to the sink and the tick time at
/// which that happened.
#[derive(Clone, Copy, Debug, PartialEq, Eq, Structural)]
pub struct Event {
    pub pos: MousePos,
    pub at: u64,
}

/// The loop state after ticking through `samples` from `st`, with every
/// planned publish succeeding.
pub open spec fn spec_run_state(cfg: PollerConfig, st: LoopState, samples: Seq<Sample>) -> LoopState
    decreases samples.len(),
{
    if samples.len() == 0 {
        st
    } else {
        let s0 = samples[0];
        let ok = spec_plan(cfg, st, s0.pos, s0.at) is Some;
        spec_run_state(cfg, spec_apply(cfg, st, s0.pos, s0.at, ok), samples.drop_first())
    }
}

/// The events published while ticking through `samples` from `st`, with
/// every planned publish succeeding.
pub open spec fn spec_run_events(cfg: PollerConfig, st: LoopState, samples: Seq<Sample>) -> Seq<Event>
    decreases samples.len(),
{
    if samples.len() == 0 {
        Seq::empty()
    } else {
        let s0 = samples[0];
        let head = match spec_plan(cfg, st, s0.pos, s0.at) {
            Some(p) => seq![Event { pos: p, at: s0.at }],
            None => Seq::empty(),
        };
        let ok = spec_plan(cfg, st, s0.pos, s0.at) is Some;
        head + spec_run_events(cfg, spec_apply(cfg, st, s0.pos, s0.at, ok), samples.drop_first())
    }
}

/// What the terminal flush publishes out of a final state: the pending
/// position, if any.
pub open spec fn spec_flush_events(st: LoopState) -> Seq<MousePos> {
    match st.pending {
        Some(p) => seq![p],
        None => Seq::empty(),
    }
}

/// Every position a whole session publishes, in order: the tick events,
/// then the terminal flush.
pub open spec fn spec_session_published(cfg: PollerConfig, st: LoopState, samples: Seq<Sample>) -> Seq<MousePos> {
    spec_run_events(cfg, st, samples).map_values(|e: Event| e.pos)
        + spec_flush_events(spec_run_state(cfg, st, samples))
}

impl LoopState {
    /// Tick through `samples` from the current state, treating every planned
    /// publish as successful, and return the events published on the way.
    pub fn simulate_ticks(&mut self, cfg: &PollerConfig, samples: &Vec<Sample>) -> (events: Vec<Event>)
        ensures
            events@ == spec_run_events(*cfg, *old(self), samples@),
            *final(self) == spec_run_state(*cfg, *old(self), samples@),
    {
        let ghost st0 = *self;
        let mut events: Vec<Event> = Vec::new();
        let mut i: usize = 0;
        proof {
            assert(samples@.skip(0) =~= samples@);
            assert(events@ + spec_run_events(*cfg, *self, samples@) =~= spec_run_events(*cfg, *self, samples@));
        }
        while i < samples.len()
            invariant
                i <= samples.len(),
                spec_run_events(*cfg, st0, samples@) == events@ + spec_run_events(*cfg, *self, samples@.skip(i as int)),
                spec_run_state(*cfg, st0, samples@) == spec_run_state(*cfg, *self, samples@.skip(i as int)),
            decreases samples.len() - i,
        {
            let s: Sample = samples[i];
            let ghost prev_events = events@;
            let ghost prev_st = *self;
            let planned: Option<MousePos> = self.plan_tick(cfg, s.pos, s.at);
            let ok: bool = match planned {
                Some(p) => {
                    events.push(Event { pos: p, at: s.at });
                    true
                },
                None => false,
            };
            self.apply_tick(cfg, s.pos, s.at, ok);
            proof {
                let sk = samples@.skip(i as int);
                let sk1 = samples@.skip(i as int + 1);
                assert(sk[0] == s);
                assert(sk.drop_first() =~= sk1);
                match spec_plan(*cfg, prev_st, s.pos, s.at) {
                    Some(p) => {
                        let ev = Event { pos: p, at: s.at };
                        assert(spec_run_events(*cfg, prev_st, sk) == seq![ev] + spec_run_events(*cfg, *self, sk1));
                        assert(events@ =~= prev_events + seq![ev]);
                        assert(prev_events + (seq![ev] + spec_run_events(*cfg, *self, sk1)) =~= events@ + spec_run_events(*cfg, *self, sk1));
                    },
                    None => {
                        assert(spec_run_events(*cfg, prev_st, sk) == Seq::<Event>::empty() + spec_run_events(*cfg, *self, sk1));
                        assert(prev_events + (Seq::<Event>::empty() + spec_run_events(*cfg, *self, sk1)) =~= events@ + spec_run_events(*cfg, *self, sk1));
                    },
                }
            }
            i = i + 1;
        }
        proof {
            assert(samples@.skip(samples@.len() as int) =~= Seq::<Sample>::empty());
            assert(events@ + Seq::<Event>::empty() =~= events@);
        }
        events
    }
}

/// Replay one whole session from a fresh state over `samples`, flush
/// included, and return every published position in order.
pub fn simulate_session(cfg: &PollerConfig, samples: &Vec<Sample>) -> (published: Vec<MousePos>)
    ensures
        published@ == spec_session_published(*cfg, LoopState::initial(), samples@),
{
    let mut st: LoopState = LoopState::new();
    let events: Vec<Event> = st.simulate_ticks(cfg, samples);
    let mut published: Vec<MousePos> = Vec::new();
    let mut i: usize = 0;
    while i < events.len()
        invariant
            i <= events.len(),
            published@ =~= events@.subrange(0, i as int).map_values(|e: Event| e.pos),
        decreases events.len() - i,
    {
        published.push(events[i].pos);
        proof {
            assert(events@.subrange(0, i as int + 1).drop_last() =~= events@.subrange(0, i as int));
        }
        i = i + 1;
    }
    proof {
        assert(events@.subrange(0, events@.len() as int) =~= events@);
    }
    match st.take_flush() {
        Some(p) => published.push(p),
        None => {},
    }
    proof {
        assert(published@ =~= spec_session_published(*cfg, LoopState::initial(), samples@));
    }
    published
}

/// Flush law: a session stopped while a position is pending publishes that
/// exact position exactly once more, after every tick publish; a session
/// with nothing pending publishes nothing beyond its tick publishes.
pub proof fn lemma_flush_on_exit(cfg: PollerConfig, st: LoopState, samples: Seq<Sample>)
    ensures
        ({
            let fin = spec_run_state(cfg, st, samples);
            let ticks = spec_run_events(cfg, st, samples).map_values(|e: Event| e.pos);
            let all = spec_session_published(cfg, st, samples);
            &&& fin.pending matches Some(p) ==> all == ticks.push(p)
            &&& fin.pending is None ==> all == ticks
        }),
{
    let fin = spec_run_state(cfg, st, samples);
    let ticks = spec_run_events(cfg, st, samples).map_values(|e: Event| e.pos);
    let all = spec_session_published(cfg, st, samples);
    match fin.pending {
        Some(p) => {
            assert(all =~= ticks.push(p));
        },
        None => {
            assert(all =~= ticks);
        },
    }
}

/// Threshold law: once a position has been published, a trace whose every
/// sample stays within L1 distance `min_move` of that position publishes
/// nothing at all — no tick publish, and, since nothing was pending when the
/// trace began, no terminal flush either.
pub proof fn lemma_min_move_filters(cfg: PollerConfig, st: LoopState, samples: Seq<Sample>)
    requires
        st.pending is None,
        st.last_sent is Some,
        forall|i: int| 0 <= i < samples.len() ==> l1_dist(st.last_sent->0, samples[i].pos) < cfg.min_move,
    ensures
        spec_run_events(cfg, st, samples) == Seq::<Event>::empty(),
        spec_run_state(cfg, st, samples) == st,
        spec_session_published(cfg, st, samples) == Seq::<MousePos>::empty(),
    decreases samples.len(),
{
    if samples.len() == 0 {
        assert(spec_session_published(cfg, st, samples) =~= Seq::<MousePos>::empty());
    } else {
        let s0 = samples[0];
        assert(l1_dist(st.last_sent->0, s0.pos) < cfg.min_move);
        assert(!spec_moved_enough(st.last_sent, s0.pos, cfg.min_move));
        assert(spec_plan(cfg, st, s0.pos, s0.at) is None);
        assert(spec_apply(cfg, st, s0.pos, s0.at, false) == st);
        let rest = samples.drop_first();
        assert forall|i: int| 0 <= i < rest.len() implies l1_dist(st.last_sent->0, rest[i].pos) < cfg.min_move by {
            assert(rest[i] == samples[i + 1]);
        }
        lemma_min_move_filters(cfg, st, rest);
        assert(spec_run_events(cfg, st, samples) =~= Seq::<Event>::empty());
        assert(spec_session_published(cfg, st, samples) =~= Seq::<MousePos>::empty());
    }
}

/// Threshold law for a whole fresh session: the mandatory first sample is
/// published at once — the first throttle window counts as elapsed — and a
/// trace that afterwards stays within L1 distance `min_move` of it publishes
/// nothing further, not even a terminal flush.
pub proof fn lemma_min_move_filters_whole_session(cfg: PollerConfig, samples: Seq<Sample>)
    requires
        samples.len() >= 1,
        forall|i: int| 1 <= i < samples.len() ==> l1_dist(samples[0].pos, samples[i].pos) < cfg.min_move,
    ensures
        spec_session_published(cfg, LoopState::initial(), samples) == seq![samples[0].pos],
{
    let st0 = LoopState::initial();
    let s0 = samples[0];
    assert(spec_plan(cfg, st0, s0.pos, s0.at) == Some(s0.pos));
    let st1 = spec_apply(cfg, st0, s0.pos, s0.at, true);
    assert(st1.last_sent == Some(s0.pos) && st1.pending is None);
    let rest = samples.drop_first();
    assert forall|i: int| 0 <= i < rest.len() implies l1_dist(st1.last_sent->0, rest[i].pos) < cfg.min_move by {
        assert(rest[i] == samples[i + 1]);
    }
    lemma_min_move_filters(cfg, st1, rest);
    assert(spec_run_events(cfg, st0, samples) =~= seq![Event { pos: s0.pos, at: s0.at }]);
    assert(spec_session_published(cfg, st0, samples) =~= seq![s0.pos]);
}

/// Adjacent publishes are at least `t` milliseconds apart.
pub open spec fn events_spaced(events: Seq<Event>, t: u64) -> bool {
    forall|i: int| 0 <= i && i + 1 < events.len() ==> #[trigger] events[i].at + t <= events[i + 1].at
}

/// Throttle law: with throttling enabled, no two tick publishes of one
/// session are closer together than the throttle window; moreover the first
/// publish after a successful one respects the window too.
pub proof fn lemma_throttle_spacing(cfg: PollerConfig, st: LoopState, samples: Seq<Sample>)
    requires
        cfg.throttle_ms > 0,
    ensures
        events_spaced(spec_run_events(cfg, st, samples), cfg.throttle_ms),
        ({
            let events = spec_run_events(cfg, st, samples);
            st.last_emit matches Some(e) ==> events.len() > 0 ==> e + cfg.throttle_ms <= events[0].at
        }),
    decreases samples.len(),
{
    let events = spec_run_events(cfg, st, samples);
    if samples.len() == 0 {
    } else {
        let s0 = samples[0];
        let plan = spec_plan(cfg, st, s0.pos, s0.at);
        let ok = plan is Some;
        let st1 = spec_apply(cfg, st, s0.pos, s0.at, ok);
        let rest = samples.drop_first();
        let tail = spec_run_events(cfg, st1, rest);
        lemma_throttle_spacing(cfg, st1, rest);
        match plan {
            Some(p) => {
                let e0 = Event { pos: p, at: s0.at };
                assert(events == seq![e0] + tail);
                assert(st1.last_emit == Some(s0.at));
                assert(events[0] == e0);
                assert forall|i: int| 0 <= i && i + 1 < events.len() implies #[trigger] events[i].at + cfg.throttle_ms <= events[i + 1].at by {
                    if i == 0 {
                        assert(events[1] == tail[0]);
                    } else {
                        assert(events[i] == tail[i - 1]);
                        assert(events[i + 1] == tail[i]);
                    }
                }
            },
            None => {
                assert(events =~= tail);
                assert(st1.last_emit == st.last_emit);
            },
        }
    }
}

/// Event times never decrease along the published sequence.
pub open spec fn events_time_ordered(events: Seq<Event>) -> bool {
    forall|i: int| 0 <= i && i + 1 < events.len() ==> #[trigger] events[i].at <= events[i + 1].at
}

/// Ordering law: the loop is single-threaded, so over a trace whose sample
/// times never decrease, the published events of one session are
/// time-ordered, and none predates the first sample.
pub proof fn lemma_events_time_ordered(cfg: PollerConfig, st: LoopState, samples: Seq<Sample>)
    requires
        forall|i: int, j: int| 0 <= i <= j < samples.len() ==> #[trigger] samples[i].at <= #[trigger] samples[j].at,
    ensures
        events_time_ordered(spec_run_events(cfg, st, samples)),
        ({
            let events = spec_run_events(cfg, st, samples);
            events.len() > 0 ==> samples.len() > 0 && samples[0].at <= events[0].at
        }),
    decreases samples.len(),
{
    let events = spec_run_events(cfg, st, samples);
    if samples.len() == 0 {
    } else {
        let s0 = samples[0];
        let plan = spec_plan(cfg, st, s0.pos, s0.at);
        let ok = plan is Some;
        let st1 = spec_apply(cfg, st, s0.pos, s0.at, ok);
        let rest = samples.drop_first();
        let tail = spec_run_events(cfg, st1, rest);
        assert forall|i: int, j: int| 0 <= i <= j < rest.len() implies #[trigger] rest[i].at <= #[trigger] rest[j].at by {
            assert(rest[i] == samples[i + 1]);
            assert(rest[j] == samples[j + 1]);
        }
        lemma_events_time_ordered(cfg, st1, rest);
        match plan {
            Some(p) => {
                let e0 = Event { pos: p, at: s0.at };
                assert(events == seq![e0] + tail);
                if rest.len() > 0 {
                    assert(s0.at <= rest[0].at);
                }
                assert forall|i: int| 0 <= i && i + 1 < events.len() implies #[trigger] events[i].at <= events[i + 1].at by {
                    if i == 0 {
                        assert(events[1] == tail[0]);
                    } else {
                        assert(events[i] == tail[i - 1]);
                        assert(events[i + 1] == tail[i]);
                    }
                }
            },
            None => {
                assert(events =~= tail);
                if tail.len() > 0 {
                    assert(s0.at <= rest[0].at);
                }
            },
        }
    }
}

/// The throttle law for arbitrary pairs: any later publish is at least the
/// throttle window after any earlier one.
pub proof fn lemma_throttle_all_pairs(events: Seq<Event>, t: u64, i: int, j: int)
    requires
        events_spaced(events, t),
        0 <= i < j < events.len(),
    ensures
        events[i].at + t <= events[j].at,
    decreases j - i,
{
    if j == i + 1 {
    } else {
        lemma_throttle_all_pairs(events, t, i + 1, j);
    }
}

/// One tick of a mixed trace: the sample, and whether the sink accepted the
/// publish the tick planned. The flag is ignored on ticks that plan none.
#[derive(Clone, Copy, Debug, PartialEq, Eq, Structural)]
pub struct Tick {
    pub sample: Sample,
    pub sink_ok: bool,
}

/// The loop state after ticking through a mixed trace, in which each tick's
/// publish attempt succeeds or fails as its own flag says.
pub open spec fn spec_run_state_mixed(cfg: PollerConfig, st: LoopState, ticks: Seq<Tick>) -> LoopState
    decreases ticks.len(),
{
    if ticks.len() == 0 {
        st
    } else {
        let t0 = ticks[0];
        spec_run_state_mixed(
            cfg,
            spec_apply(cfg, st, t0.sample.pos, t0.sample.at, t0.sink_ok),
            ticks.drop_first(),
        )
    }
}

/// The successful publishes of a mixed trace: a tick contributes an event
/// exactly when it planned a publish and the sink accepted it; a failed
/// attempt is no publish.
pub open spec fn spec_run_events_mixed(cfg: PollerConfig, st: LoopState, ticks: Seq<Tick>) -> Seq<Event>
    decreases ticks.len(),
{
    if ticks.len() == 0 {
        Seq::empty()
    } else {
        let t0 = ticks[0];
        let head = match spec_plan(cfg, st, t0.sample.pos, t0.sample.at) {
            Some(p) => if t0.sink_ok {
                seq![Event { pos: p, at: t0.sample.at }]
            } else {
                Seq::empty()
            },
            None => Seq::empty(),
        };
        head + spec_run_events_mixed(
            cfg,
            spec_apply(cfg, st, t0.sample.pos, t0.sample.at, t0.sink_ok),
            ticks.drop_first(),
        )
    }
}

/// Every position a whole mixed session delivers, in order: the successful
/// tick publishes, then the one terminal flush attempt of whatever is still
/// pending.
pub open spec fn spec_session_published_mixed(cfg: PollerConfig, st: LoopState, ticks: Seq<Tick>) -> Seq<MousePos> {
    spec_run_events_mixed(cfg, st, ticks).map_values(|e: Event| e.pos)
        + spec_flush_events(spec_run_state_mixed(cfg, st, ticks))
}

/// Throttle law over mixed traces: however the sink behaves, no two
/// successful publishes of one session are closer together than the throttle
/// window, since a failed publish never advances `last_emit`.
pub proof fn lemma_throttle_spacing_mixed(cfg: PollerConfig, st: LoopState, ticks: Seq<Tick>)
    requires
        cfg.throttle_ms > 0,
    ensures
        events_spaced(spec_run_events_mixed(cfg, st, ticks), cfg.throttle_ms),
        ({
            let events = spec_run_events_mixed(cfg, st, ticks);
            st.last_emit matches Some(e) ==> events.len() > 0 ==> e + cfg.throttle_ms <= events[0].at
        }),
    decreases ticks.len(),
{
    let events = spec_run_events_mixed(cfg, st, ticks);
    if ticks.len() == 0 {
    } else {
        let t0 = ticks[0];
        let plan = spec_plan(cfg, st, t0.sample.pos, t0.sample.at);
        let st1 = spec_apply(cfg, st, t0.sample.pos, t0.sample.at, t0.sink_ok);
        let rest = ticks.drop_first();
        let tail = spec_run_events_mixed(cfg, st1, rest);
        lemma_throttle_spacing_mixed(cfg, st1, rest);
        if plan is Some && t0.sink_ok {
            let e0 = Event { pos: plan->0, at: t0.sample.at };
            assert(events == seq![e0] + tail);
            assert(st1.last_emit == Some(t0.sample.at));
            assert(events[0] == e0);
            assert forall|i: int| 0 <= i && i + 1 < events.len() implies #[trigger] events[i].at + cfg.throttle_ms <= events[i + 1].at by {
                if i == 0 {
                    assert(events[1] == tail[0]);
                } else {
                    assert(events[i] == tail[i - 1]);
                    assert(events[i + 1] == tail[i]);
                }
            }
        } else {
            assert(events =~= tail);
            assert(st1.last_emit == st.last_emit);
        }
    }
}

/// Flush law over mixed traces: a session stopped while a position is
/// pending attempts exactly one publish of that exact value, after every
/// successful tick publish; with nothing pending, nothing follows them.
pub proof fn lemma_flush_on_exit_mixed(cfg: PollerConfig, st: LoopState, ticks: Seq<Tick>)
    ensures
        ({
            let fin = spec_run_state_mixed(cfg, st, ticks);
            let delivered = spec_run_events_mixed(cfg, st, ticks).map_values(|e: Event| e.pos);
            let all = spec_session_published_mixed(cfg, st, ticks);
            &&& fin.pending matches Some(p) ==> all == delivered.push(p)
            &&& fin.pending is None ==> all == delivered
        }),
{
    let fin = spec_run_state_mixed(cfg, st, ticks);
    let delivered = spec_run_events_mixed(cfg, st, ticks).map_values(|e: Event| e.pos);
    let all = spec_session_published_mixed(cfg, st, ticks);
    match fin.pending {
        Some(p) => {
            assert(all =~= delivered.push(p));
        },
        None => {
            assert(all =~= delivered);
        },
    }
}

} // verus!
