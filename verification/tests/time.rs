use procedural_gen::time::FRAME_TIME;
use procedural_gen::{Point2, State, Time};

#[test]
fn a_new_clock_has_gathered_nothing() {
    let time = Time::new();
    assert_eq!(time.dt, FRAME_TIME);
    assert_eq!(time.dt, 16_660_000);
    assert_eq!(time.t, 0);
    assert_eq!(time.acc, 0);
}

#[test]
fn gather_adds_a_frame() {
    let mut time = Time::new();
    time.gather(1_000);
    time.gather(234);
    assert_eq!(time.acc, 1_234);
    assert_eq!(time.t, 0);
    assert_eq!(time.dt, FRAME_TIME);
}

#[test]
fn gather_stops_at_the_end_of_the_range() {
    let mut time = Time::new();
    time.gather(u128::MAX - 1);
    time.gather(5);
    assert_eq!(time.acc, u128::MAX);
}

#[test]
fn diff_gathers_the_time_since_the_last_reading() {
    let mut time = Time::new();
    let before = time.now;
    time.diff();
    let first = time.acc;
    assert_eq!(first, (time.now - before).as_nanos());
    let middle = time.now;
    time.diff();
    assert!(time.acc >= first);
    assert_eq!(time.acc - first, (time.now - middle).as_nanos());
    assert!(time.now >= before);
    assert_eq!(time.t, 0);
    assert_eq!(time.dt, FRAME_TIME);
}

#[test]
fn update_makes_the_steps_that_fit() {
    let mut time = Time::new();
    let mut state = State::default();
    state.directions = [false, true, false, false];
    time.gather(3 * FRAME_TIME as u128 + 17);
    time.update(&mut state);
    assert_eq!(time.acc, 17);
    assert_eq!(time.t, 3 * FRAME_TIME as u128);
    assert_eq!(state.pos, Point2::new(0, 3 * 833_000_000));
    assert_eq!(state.galaxy.stars.len(), 82);
}

#[test]
fn update_makes_no_step_on_too_little() {
    let mut time = Time::new();
    let mut state = State::default();
    state.directions = [true, true, true, false];
    state.lmb_clicked = true;
    time.gather(FRAME_TIME as u128 - 1);
    time.update(&mut state);
    assert_eq!(time.acc, FRAME_TIME as u128 - 1);
    assert_eq!(time.t, 0);
    assert_eq!(state.pos, Point2::new(0, 0));
    assert!(state.galaxy.stars.is_empty());
    assert_eq!(state.lehmer.counter, 0);
}

#[test]
fn update_spends_an_exact_step() {
    let mut time = Time::new();
    let mut state = State::default();
    time.gather(FRAME_TIME as u128);
    time.update(&mut state);
    assert_eq!(time.acc, 0);
    assert_eq!(time.t, FRAME_TIME as u128);
    assert_eq!(state.galaxy.stars.len(), 83);
    time.update(&mut state);
    assert_eq!(time.t, FRAME_TIME as u128);
}

#[test]
fn update_holds_the_time_to_the_range() {
    let mut time = Time::new();
    let mut state = State::default();
    time.t = u128::MAX - 5;
    time.dt = 1_000;
    time.gather(2_500);
    time.update(&mut state);
    assert_eq!(time.acc, 500);
    assert_eq!(time.t, u128::MAX);
}
