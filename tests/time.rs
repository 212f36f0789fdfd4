use slipwave::time::{
    delta_time, fraction_of, ConfigError, Loop, State, DEFAULT_UPDATE_INTERVAL, LAPSE_ONE,
    NANOS_PER_MILLI, TIMESCALE_ONE,
};

const MS: u64 = NANOS_PER_MILLI;

#[test]
fn new_loop_delta_is_update_interval() {
    let l = Loop::new(7);
    assert_eq!(l.get_state().get_delta_time(), 40 * MS);
    assert_eq!(l.get_state().get_lapse(), 0);
    assert_eq!(l.get_state().get_last_tick(), None);
    assert!(!l.is_awake());
    assert_eq!(l.get_update_interval(), DEFAULT_UPDATE_INTERVAL);
}

#[test]
fn new_state_defaults() {
    let s = State::new(3);
    assert_eq!(s.get_timescale(), TIMESCALE_ONE);
    assert_eq!(s.get_delta_time(), 0);
    assert_eq!(s.get_irl_time(), 0);
    assert_eq!(s.get_sim_time(), 0);
    assert_eq!(s.get_last_tick(), None);
}

#[test]
fn realtime_scenario_zero_ten_forty_five() {
    let mut l = Loop::new(0);
    l.get_state_mut().set_timescale(TIMESCALE_ONE);
    l.init(0);
    let mut awake = Vec::new();
    for t in [0, 10 * MS, 45 * MS] {
        l.step(t);
        awake.push(l.is_awake());
    }
    assert_eq!(awake, vec![true, false, true]);
    assert_eq!(l.get_state().get_sim_time(), 45 * MS);
    assert_eq!(l.get_state().get_irl_time(), 45 * MS);
    assert_eq!(l.get_state().get_delta_time(), 45 * MS);
    assert_eq!(l.get_state().get_last_tick(), Some(45 * MS));
}

#[test]
fn sleeping_step_reports_lapse() {
    let mut l = Loop::new(0);
    l.step(0);
    l.step(10 * MS);
    assert!(!l.is_awake());
    assert_eq!(l.get_state().get_lapse(), LAPSE_ONE / 4);
}

#[test]
fn non_realtime_five_immediate_steps() {
    let mut l = Loop::new(0);
    l.set_realtime(false);
    l.init(0);
    for _ in 0..5 {
        l.step(0);
        assert!(l.is_awake());
        assert_eq!(l.get_state().get_delta_time(), 40 * MS);
    }
    assert_eq!(l.get_state().get_sim_time(), 200 * MS);
    assert_eq!(l.get_state().get_irl_time(), 0);
}

#[test]
fn non_realtime_ignores_timescale_and_tracks_real_time_from_start() {
    let mut l = Loop::new(0);
    l.set_realtime(false);
    l.get_state_mut().set_timescale(3 * TIMESCALE_ONE);
    l.init(100 * MS);
    l.step(101 * MS);
    l.step(250 * MS);
    assert!(l.is_awake());
    assert_eq!(l.get_state().get_sim_time(), 80 * MS);
    assert_eq!(l.get_state().get_irl_time(), 150 * MS);
    assert_eq!(l.get_state().get_delta_time(), 40 * MS);
}

#[test]
fn spaced_calls_all_tick() {
    let mut l = Loop::new(0);
    for k in 0..6u64 {
        l.step(k * 40 * MS + k * k);
        assert!(l.is_awake());
    }
}

#[test]
fn short_calls_sleep_until_interval_reached() {
    let mut l = Loop::new(0);
    l.step(0);
    for t in [5 * MS, 20 * MS, 39 * MS, 40 * MS - 1] {
        l.step(t);
        assert!(!l.is_awake());
        assert_eq!(l.get_state().get_last_tick(), Some(0));
    }
    l.step(40 * MS);
    assert!(l.is_awake());
}

#[test]
fn exactly_one_interval_gives_zero_lapse() {
    let mut l = Loop::new(0);
    l.step(0);
    l.step(20 * MS);
    assert_eq!(l.get_state().get_lapse(), LAPSE_ONE / 2);
    l.step(40 * MS);
    assert!(l.is_awake());
    assert_eq!(l.get_state().get_lapse(), 0);
    assert_eq!(fraction_of(40 * MS, 40 * MS), 0);
}

#[test]
fn fraction_values() {
    assert_eq!(fraction_of(10, 40), 250_000);
    assert_eq!(fraction_of(39, 40), 975_000);
    assert_eq!(fraction_of(41, 40), 0);
    assert_eq!(fraction_of(5, 0), 0);
    assert_eq!(fraction_of(1, 3), 333_333);
    assert!(fraction_of(u64::MAX - 1, u64::MAX) < LAPSE_ONE);
}

#[test]
fn paused_steps_change_nothing() {
    let mut l = Loop::new(0);
    l.step(0);
    l.step(50 * MS);
    l.get_state_mut().pause();
    let before = *l.get_state();
    let awake = l.is_awake();
    for t in [60 * MS, 200 * MS, 5000 * MS] {
        l.step(t);
        assert_eq!(l.is_awake(), awake);
        assert_eq!(l.get_state().get_irl_time(), before.get_irl_time());
        assert_eq!(l.get_state().get_sim_time(), before.get_sim_time());
        assert_eq!(l.get_state().get_last_tick(), before.get_last_tick());
        assert_eq!(l.get_state().get_delta_time(), before.get_delta_time());
    }
    l.get_state_mut().resume();
    l.step(5000 * MS);
    assert!(l.is_awake());
    assert_eq!(l.get_state().get_delta_time(), 4950 * MS);
}

#[test]
fn init_resets_totals_only() {
    let mut l = Loop::new(0);
    l.step(0);
    l.step(70 * MS);
    l.get_state_mut().pause();
    l.init(100 * MS);
    assert_eq!(l.get_state().get_irl_time(), 0);
    assert_eq!(l.get_state().get_sim_time(), 0);
    assert_eq!(l.get_state().get_delta_time(), 70 * MS);
    assert_eq!(l.get_state().get_last_tick(), Some(70 * MS));
    assert!(l.is_awake());
    l.step(100 * MS);
    assert!(!l.is_awake());
}

#[test]
fn timescale_scales_real_time_ticks() {
    let mut l = Loop::new(0);
    l.step(0);
    l.get_state_mut().set_timescale(TIMESCALE_ONE / 2);
    l.step(50 * MS);
    assert_eq!(l.get_state().get_sim_time(), 25 * MS);
    l.get_state_mut().set_timescale(0);
    l.step(100 * MS);
    assert_eq!(l.get_state().get_sim_time(), 25 * MS);
    assert_eq!(l.get_state().get_irl_time(), 100 * MS);
    assert_eq!(l.get_state().get_timescale(), 0);
}

#[test]
fn totals_saturate_at_largest_time() {
    let mut l = Loop::new(0);
    l.get_state_mut().set_timescale(2 * TIMESCALE_ONE);
    l.step(u64::MAX);
    assert_eq!(l.get_state().get_sim_time(), u64::MAX);
    assert_eq!(l.get_state().get_irl_time(), u64::MAX);
    assert_eq!(l.get_state().get_delta_time(), u64::MAX);
}

#[test]
fn clock_going_back_counts_as_no_time() {
    let mut l = Loop::new(0);
    l.step(100 * MS);
    l.step(10 * MS);
    assert!(!l.is_awake());
    assert_eq!(l.get_state().get_lapse(), 0);
    assert_eq!(delta_time(5, 3), 0);
    assert_eq!(delta_time(3, 5), 2);
}

#[test]
fn zero_update_interval_is_refused() {
    let mut l = Loop::new(0);
    assert_eq!(l.set_update_interval(0), Err(ConfigError::ZeroUpdateInterval));
    assert_eq!(l.set_update_interval(20 * MS), Ok(()));
    l.step(0);
    l.step(20 * MS);
    assert!(l.is_awake());
    assert_eq!(l.get_update_interval(), 20 * MS);
}

#[test]
fn non_realtime_ticks_scaled_when_asked() {
    let mut l = Loop::new(0);
    l.set_realtime(false);
    l.set_scale_fixed_ticks(true);
    l.get_state_mut().set_timescale(TIMESCALE_ONE / 2);
    l.step(0);
    l.step(0);
    assert_eq!(l.get_state().get_sim_time(), 40 * MS);
    assert_eq!(l.get_state().get_delta_time(), 40 * MS);
    l.set_scale_fixed_ticks(false);
    l.step(0);
    assert_eq!(l.get_state().get_sim_time(), 80 * MS);
}
