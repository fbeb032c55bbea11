use click_debounce::engine::{Debouncer, DEFAULT_THRESHOLD_MILLIS};
use click_debounce::state::{ClickState, Decision};

#[test]
fn fresh_engine_has_seen_nothing() {
    let engine = Debouncer::new(250);
    assert_eq!(engine.threshold(), 250);
    assert_eq!(engine.last_down_time(), None);
    assert_eq!(engine.suppressed_pending(), 0);
    assert_eq!(engine.state(), ClickState::new());
    assert_eq!(DEFAULT_THRESHOLD_MILLIS, 250);
}

#[test]
fn first_press_passes_and_becomes_reference() {
    let mut engine = Debouncer::new(250);
    assert_eq!(engine.on_button_down(42), Decision::Pass);
    assert_eq!(engine.last_down_time(), Some(42));
    assert_eq!(engine.suppressed_pending(), 0);
}

#[test]
fn single_bounce_is_paired_with_one_release() {
    let mut engine = Debouncer::new(250);
    assert_eq!(engine.on_button_down(0), Decision::Pass);
    assert_eq!(engine.on_button_down(100), Decision::Suppress);
    assert_eq!(engine.suppressed_pending(), 1);
    assert_eq!(engine.on_button_up(50), Decision::Suppress);
    assert_eq!(engine.suppressed_pending(), 0);
    assert_eq!(engine.on_button_up(150), Decision::Pass);
    assert_eq!(engine.suppressed_pending(), 0);
    assert_eq!(engine.last_down_time(), Some(0));
}

#[test]
fn release_between_press_and_bounce_passes_then_next_is_swallowed() {
    let mut engine = Debouncer::new(250);
    assert_eq!(engine.on_button_down(0), Decision::Pass);
    assert_eq!(engine.on_button_up(50), Decision::Pass);
    assert_eq!(engine.on_button_down(100), Decision::Suppress);
    assert_eq!(engine.on_button_up(150), Decision::Suppress);
    assert_eq!(engine.suppressed_pending(), 0);
}

#[test]
fn separate_clicks_all_pass() {
    let mut engine = Debouncer::new(250);
    assert_eq!(engine.on_button_down(0), Decision::Pass);
    assert_eq!(engine.on_button_up(10), Decision::Pass);
    assert_eq!(engine.on_button_down(1000), Decision::Pass);
    assert_eq!(engine.on_button_up(1010), Decision::Pass);
    assert_eq!(engine.last_down_time(), Some(1000));
    assert_eq!(engine.suppressed_pending(), 0);
}

#[test]
fn several_bounces_are_each_paired() {
    let mut engine = Debouncer::new(250);
    assert_eq!(engine.on_button_down(1000), Decision::Pass);
    assert_eq!(engine.on_button_down(1050), Decision::Suppress);
    assert_eq!(engine.on_button_down(1100), Decision::Suppress);
    assert_eq!(engine.suppressed_pending(), 2);
    assert_eq!(engine.last_down_time(), Some(1000));
    assert_eq!(engine.on_button_up(1110), Decision::Suppress);
    assert_eq!(engine.suppressed_pending(), 1);
    assert_eq!(engine.on_button_up(1120), Decision::Suppress);
    assert_eq!(engine.suppressed_pending(), 0);
    assert_eq!(engine.on_button_up(1130), Decision::Pass);
    assert_eq!(engine.suppressed_pending(), 0);
}

#[test]
fn releases_at_rest_always_pass() {
    let mut engine = Debouncer::new(250);
    let mut now: u64 = 0;
    while now < 100 {
        assert_eq!(engine.on_button_up(now), Decision::Pass);
        assert_eq!(engine.suppressed_pending(), 0);
        assert_eq!(engine.last_down_time(), None);
        now += 1;
    }
    assert_eq!(engine.on_button_down(100), Decision::Pass);
    assert_eq!(engine.on_button_up(101), Decision::Pass);
    assert_eq!(engine.on_button_up(102), Decision::Pass);
    assert_eq!(engine.suppressed_pending(), 0);
    assert_eq!(engine.last_down_time(), Some(100));
}

#[test]
fn press_exactly_at_threshold_passes() {
    let mut engine = Debouncer::new(250);
    assert_eq!(engine.on_button_down(500), Decision::Pass);
    assert_eq!(engine.on_button_down(750), Decision::Pass);
    assert_eq!(engine.last_down_time(), Some(750));
    assert_eq!(engine.suppressed_pending(), 0);
}

#[test]
fn press_one_tick_before_threshold_is_a_bounce() {
    let mut engine = Debouncer::new(250);
    assert_eq!(engine.on_button_down(500), Decision::Pass);
    assert_eq!(engine.on_button_down(749), Decision::Suppress);
    assert_eq!(engine.last_down_time(), Some(500));
    assert_eq!(engine.suppressed_pending(), 1);
}

#[test]
fn bounce_does_not_move_the_reference() {
    let mut engine = Debouncer::new(250);
    assert_eq!(engine.on_button_down(0), Decision::Pass);
    assert_eq!(engine.on_button_down(200), Decision::Suppress);
    assert_eq!(engine.last_down_time(), Some(0));
    // 100 after the bounce, but 300 after the accepted press.
    assert_eq!(engine.on_button_down(300), Decision::Pass);
    assert_eq!(engine.last_down_time(), Some(300));
    assert_eq!(engine.suppressed_pending(), 1);
}

#[test]
fn second_bounce_is_measured_from_the_accepted_press() {
    let mut engine = Debouncer::new(250);
    assert_eq!(engine.on_button_down(0), Decision::Pass);
    assert_eq!(engine.on_button_down(120), Decision::Suppress);
    assert_eq!(engine.on_button_down(240), Decision::Suppress);
    assert_eq!(engine.last_down_time(), Some(0));
    assert_eq!(engine.suppressed_pending(), 2);
    // 10 after the second bounce, exactly the threshold after the accepted press.
    assert_eq!(engine.on_button_down(250), Decision::Pass);
}

#[test]
fn clock_stepping_back_counts_as_no_time() {
    let mut engine = Debouncer::new(250);
    assert_eq!(engine.on_button_down(1000), Decision::Pass);
    assert_eq!(engine.on_button_down(900), Decision::Suppress);
    assert_eq!(engine.last_down_time(), Some(1000));
    assert_eq!(engine.suppressed_pending(), 1);
}

#[test]
fn zero_threshold_swallows_nothing() {
    let mut engine = Debouncer::new(0);
    assert_eq!(engine.on_button_down(10), Decision::Pass);
    assert_eq!(engine.on_button_down(10), Decision::Pass);
    assert_eq!(engine.on_button_down(5), Decision::Pass);
    assert_eq!(engine.last_down_time(), Some(5));
    assert_eq!(engine.suppressed_pending(), 0);
}

#[test]
fn times_at_the_end_of_the_range() {
    let mut engine = Debouncer::new(u64::MAX);
    assert_eq!(engine.on_button_down(0), Decision::Pass);
    assert_eq!(engine.on_button_down(u64::MAX - 1), Decision::Suppress);
    assert_eq!(engine.on_button_down(u64::MAX), Decision::Pass);
    assert_eq!(engine.last_down_time(), Some(u64::MAX));
}

#[test]
fn resumed_engine_goes_on_from_its_state() {
    let state = ClickState { last_down_time: Some(700), suppressed_pending: 3 };
    let mut engine = Debouncer::resume(200, state);
    assert_eq!(engine.threshold(), 200);
    assert_eq!(engine.state(), state);
    assert_eq!(engine.on_button_down(899), Decision::Suppress);
    assert_eq!(engine.suppressed_pending(), 4);
    assert_eq!(engine.on_button_up(900), Decision::Suppress);
    assert_eq!(engine.suppressed_pending(), 3);
    assert_eq!(engine.on_button_down(900), Decision::Pass);
    assert_eq!(engine.state(), ClickState { last_down_time: Some(900), suppressed_pending: 3 });
}

#[test]
fn count_at_the_top_of_its_range_stays() {
    let state = ClickState { last_down_time: Some(0), suppressed_pending: usize::MAX };
    let mut engine = Debouncer::resume(250, state);
    assert_eq!(engine.on_button_down(1), Decision::Suppress);
    assert_eq!(engine.state(), state);
    assert_eq!(engine.on_button_up(2), Decision::Suppress);
    assert_eq!(engine.suppressed_pending(), usize::MAX - 1);
}

#[test]
fn swallowed_presses_and_releases_balance() {
    let mut engine = Debouncer::new(250);
    let downs: [u64; 6] = [0, 30, 60, 400, 420, 1000];
    let mut swallowed_downs: usize = 0;
    for now in downs {
        if engine.on_button_down(now) == Decision::Suppress {
            swallowed_downs += 1;
        }
    }
    assert_eq!(swallowed_downs, 3);
    assert_eq!(engine.suppressed_pending(), 3);
    let mut swallowed_ups: usize = 0;
    let mut now: u64 = 1001;
    while now < 1007 {
        if engine.on_button_up(now) == Decision::Suppress {
            swallowed_ups += 1;
        }
        now += 1;
    }
    assert_eq!(swallowed_ups, 3);
    assert_eq!(engine.suppressed_pending(), 0);
}
