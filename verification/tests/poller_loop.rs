use mouse_poller::config::PollerConfig;
use mouse_poller::config::DEFAULT_INTERVAL_MS;
use mouse_poller::position::moved_enough;
use mouse_poller::position::MousePos;
use mouse_poller::sampler::LoopState;
use mouse_poller::session::simulate_session;
use mouse_poller::session::Event;
use mouse_poller::session::Sample;

fn cfg(min_move: i32, throttle_ms: u64) -> PollerConfig {
    PollerConfig::from_request(Some(10), Some(min_move), Some(throttle_ms), None)
}

fn pos(x: i32, y: i32) -> MousePos {
    MousePos { x, y }
}

fn sample(x: i32, y: i32, at: u64) -> Sample {
    Sample { pos: pos(x, y), at }
}

#[test]
fn config_defaults() {
    let c = PollerConfig::from_request(None, None, None, None);
    assert_eq!(c.interval_ms, 80);
    assert_eq!(c.interval_ms, DEFAULT_INTERVAL_MS);
    assert_eq!(c.min_move, 0);
    assert_eq!(c.throttle_ms, 0);
    assert!(c.target.is_none());
}

#[test]
fn config_explicit_values_and_clamp() {
    let c = PollerConfig::from_request(Some(10), Some(-5), Some(50), Some(String::from("main")));
    assert_eq!(c.interval_ms, 10);
    assert_eq!(c.min_move, 0, "a negative threshold is clamped to zero");
    assert_eq!(c.throttle_ms, 50);
    assert_eq!(c.target, Some(String::from("main")));
    let c2 = PollerConfig::from_request(None, Some(7), None, None);
    assert_eq!(c2.min_move, 7);
}

#[test]
fn movement_metric_is_l1() {
    assert!(moved_enough(Some(pos(0, 0)), pos(3, 4), 7));
    assert!(!moved_enough(Some(pos(0, 0)), pos(3, 4), 8));
    assert!(moved_enough(Some(pos(-2, 1)), pos(2, -1), 6));
    assert!(moved_enough(None, pos(0, 0), 1000), "the first sample always qualifies");
    assert!(
        moved_enough(Some(pos(i32::MIN, i32::MIN)), pos(i32::MAX, i32::MAX), i32::MAX),
        "extreme coordinates do not overflow the metric"
    );
}

#[test]
fn no_throttle_publishes_every_qualifying_sample() {
    let c = cfg(5, 0);
    let samples = vec![sample(0, 0, 0), sample(1, 1, 10), sample(10, 10, 20), sample(12, 12, 30)];
    let published = simulate_session(&c, &samples);
    // (1,1) is within L1 distance 2 < 5 of (0,0); (12,12) is within 4 < 5 of
    // (10,10); with no throttle there is never a pending value to flush.
    assert_eq!(published, vec![pos(0, 0), pos(10, 10)]);
}

#[test]
fn sub_threshold_movement_never_publishes() {
    let c = cfg(5, 0);
    let samples = vec![
        sample(0, 0, 0),
        sample(1, 0, 10),
        sample(2, 1, 20),
        sample(0, 2, 30),
        sample(-1, -2, 40),
    ];
    let published = simulate_session(&c, &samples);
    assert_eq!(published, vec![pos(0, 0)], "only the mandatory first sample is published");
}

#[test]
fn throttle_bounds_publish_spacing() {
    let c = cfg(1, 50);
    let mut st = LoopState::new();
    let mut samples = Vec::new();
    for i in 0..20u64 {
        let k = i as i32;
        samples.push(sample(10 * k, 10 * k, 10 * i));
    }
    let events: Vec<Event> = st.simulate_ticks(&c, &samples);
    assert!(events.len() >= 2);
    for w in events.windows(2) {
        assert!(w[0].at + 50 <= w[1].at, "publishes closer than the throttle window");
    }
}

#[test]
fn example_scenario_flush_carries_pending() {
    let c = cfg(5, 50);
    let samples = vec![
        sample(0, 0, 0),
        sample(1, 1, 10),
        sample(10, 10, 20),
        sample(10, 10, 30),
    ];
    // Sample one is published immediately (nothing was sent yet); sample two
    // moved only 2 < 5; sample three moved 20 >= 5 but the throttle window is
    // still open, so it becomes pending; sample four changes nothing. The
    // stop then flushes the pending position.
    let published = simulate_session(&c, &samples);
    assert_eq!(published, vec![pos(0, 0), pos(10, 10)]);
}

#[test]
fn example_scenario_window_elapses() {
    let c = cfg(5, 50);
    let samples = vec![
        sample(0, 0, 0),
        sample(1, 1, 10),
        sample(10, 10, 20),
        sample(10, 10, 30),
        sample(10, 10, 50),
    ];
    let mut st = LoopState::new();
    let events = st.simulate_ticks(&c, &samples);
    // The pending movement from time 20 is published once 50ms have elapsed
    // since the first publish; nothing is left to flush.
    assert_eq!(events, vec![Event { pos: pos(0, 0), at: 0 }, Event { pos: pos(10, 10), at: 50 }]);
    assert_eq!(st.take_flush(), None);
}

#[test]
fn failed_publish_changes_nothing() {
    let c = cfg(0, 0);
    let mut st = LoopState::new();
    let planned = st.plan_tick(&c, pos(5, 5), 0);
    assert_eq!(planned, Some(pos(5, 5)));
    st.apply_tick(&c, pos(5, 5), 0, false);
    assert_eq!(st.last_sent, None, "a failed publish does not update last_sent");
    assert_eq!(st.last_emit, None, "a failed publish does not update last_emit");
    assert_eq!(st.pending, None, "a failed publish does not alter pending");
    // Since last_sent was not updated, the same position qualifies again on
    // the next tick.
    let retried = st.plan_tick(&c, pos(5, 5), 10);
    assert_eq!(retried, Some(pos(5, 5)));
}

#[test]
fn failed_throttled_publish_keeps_pending_for_retry() {
    let c = cfg(0, 30);
    let mut st = LoopState::new();
    // The first throttle window counts as elapsed, so the pending sample is
    // handed to the sink; the publish fails.
    assert_eq!(st.plan_tick(&c, pos(1, 2), 100), Some(pos(1, 2)));
    st.apply_tick(&c, pos(1, 2), 100, false);
    assert_eq!(st.pending, Some(pos(1, 2)), "a failed publish leaves the position pending");
    assert_eq!(st.last_sent, None);
    assert_eq!(st.last_emit, None);
    // With last_emit unchanged the window is still elapsed, so the same
    // coordinate is retried on the next qualifying tick and, succeeding,
    // leaves nothing pending.
    assert_eq!(st.plan_tick(&c, pos(1, 2), 110), Some(pos(1, 2)));
    st.apply_tick(&c, pos(1, 2), 110, true);
    assert_eq!(st.last_sent, Some(pos(1, 2)));
    assert_eq!(st.last_emit, Some(110));
    assert_eq!(st.pending, None);
}

#[test]
fn failed_flush_candidate_stays_pending_until_exit() {
    let c = cfg(5, 1000);
    let mut st = LoopState::new();
    // Open a throttle window, then park a qualifying movement as pending.
    st.apply_tick(&c, pos(0, 0), 0, true);
    st.apply_tick(&c, pos(50, 0), 10, false);
    assert_eq!(st.pending, Some(pos(50, 0)));
    // A sub-threshold sample inside the window neither publishes nor touches
    // the pending value.
    assert_eq!(st.plan_tick(&c, pos(2, 0), 20), None);
    st.apply_tick(&c, pos(2, 0), 20, false);
    assert_eq!(st.pending, Some(pos(50, 0)));
    // Stopping here flushes exactly that value.
    assert_eq!(st.take_flush(), Some(pos(50, 0)));
}

#[test]
fn throttle_spacing_survives_publish_failures() {
    let c = cfg(1, 50);
    let mut st = LoopState::new();
    let mut successes: Vec<Event> = Vec::new();
    for i in 0..40u64 {
        let k = i as i32;
        let cur = pos(10 * k, 0);
        let now = 10 * i;
        // Every third sink call fails.
        let planned = st.plan_tick(&c, cur, now);
        let ok = planned.is_some() && i % 3 != 0;
        if let (Some(p), true) = (planned, ok) {
            successes.push(Event { pos: p, at: now });
        }
        st.apply_tick(&c, cur, now, ok);
    }
    assert!(successes.len() >= 2);
    for w in successes.windows(2) {
        assert!(w[0].at + 50 <= w[1].at, "successful publishes closer than the throttle window");
    }
}

#[test]
fn pending_overwrites_never_queues() {
    let c = cfg(1, 1000);
    let mut st = LoopState::new();
    // First publish opens a throttle window.
    st.apply_tick(&c, pos(0, 0), 0, true);
    assert_eq!(st.last_sent, Some(pos(0, 0)));
    // Several qualifying movements inside the window each overwrite pending.
    st.apply_tick(&c, pos(10, 0), 10, false);
    assert_eq!(st.pending, Some(pos(10, 0)));
    st.apply_tick(&c, pos(20, 0), 20, false);
    assert_eq!(st.pending, Some(pos(20, 0)));
    st.apply_tick(&c, pos(30, 0), 30, false);
    assert_eq!(st.pending, Some(pos(30, 0)), "newer samples overwrite, they are never queued");
    // Only the most recent one is flushed on exit.
    assert_eq!(st.take_flush(), Some(pos(30, 0)));
    assert_eq!(st.take_flush(), None, "the flush happens exactly once");
}

#[test]
fn empty_trace_publishes_nothing() {
    let c = cfg(0, 0);
    let samples: Vec<Sample> = Vec::new();
    assert_eq!(simulate_session(&c, &samples), Vec::<MousePos>::new());
}

#[test]
fn events_are_time_ordered() {
    let c = cfg(0, 25);
    let mut st = LoopState::new();
    let mut samples = Vec::new();
    for i in 0..30u64 {
        let k = i as i32;
        samples.push(sample(k, -k, 7 * i));
    }
    let events = st.simulate_ticks(&c, &samples);
    assert!(events.len() >= 2);
    for w in events.windows(2) {
        assert!(w[0].at <= w[1].at);
    }
}

#[test]
fn window_elapsed_cases() {
    let fresh = LoopState::new();
    assert!(fresh.window_elapsed(1000, 0), "before any publish the window counts as elapsed");
    let mut st = LoopState::new();
    st.apply_tick(&cfg(0, 0), pos(0, 0), 100, true);
    assert_eq!(st.last_emit, Some(100));
    assert!(!st.window_elapsed(50, 149));
    assert!(st.window_elapsed(50, 150));
    assert!(!st.window_elapsed(50, 99), "a clock reading before the last publish never elapses");
}
