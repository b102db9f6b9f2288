use procedural_gen::input::{handle_event, handle_events, key_direction, Event, Key};
use procedural_gen::state::{DOWN, LEFT, RIGHT, UP};
use procedural_gen::{Point2, State};

#[test]
fn keys_hold_their_directions() {
    assert_eq!(key_direction(Key::W), Some(UP));
    assert_eq!(key_direction(Key::S), Some(DOWN));
    assert_eq!(key_direction(Key::A), Some(LEFT));
    assert_eq!(key_direction(Key::D), Some(RIGHT));
    assert_eq!(key_direction(Key::Escape), None);
    assert_eq!(key_direction(Key::Other), None);
}

#[test]
fn a_key_down_sets_its_direction() {
    let mut state = State::default();
    assert!(handle_event(&mut state, Event::KeyDown(Key::W)));
    assert_eq!(state.directions, [true, false, false, false]);
    assert!(handle_event(&mut state, Event::KeyDown(Key::D)));
    assert_eq!(state.directions, [true, false, false, true]);
    assert!(handle_event(&mut state, Event::KeyDown(Key::S)));
    assert!(handle_event(&mut state, Event::KeyDown(Key::A)));
    assert_eq!(state.directions, [true, true, true, true]);
    assert!(handle_event(&mut state, Event::KeyDown(Key::Other)));
    assert_eq!(state.directions, [true, true, true, true]);
}

#[test]
fn a_key_up_clears_its_direction() {
    let mut state = State::default();
    state.directions = [true, true, true, true];
    assert!(handle_event(&mut state, Event::KeyUp(Key::S)));
    assert_eq!(state.directions, [true, false, true, true]);
    assert!(handle_event(&mut state, Event::KeyUp(Key::A)));
    assert_eq!(state.directions, [true, false, false, true]);
    assert!(handle_event(&mut state, Event::KeyUp(Key::W)));
    assert!(handle_event(&mut state, Event::KeyUp(Key::D)));
    assert_eq!(state.directions, [false, false, false, false]);
}

#[test]
fn quit_and_escape_let_go_end_the_run() {
    let mut state = State::default();
    assert!(!handle_event(&mut state, Event::Quit));
    assert!(!handle_event(&mut state, Event::KeyUp(Key::Escape)));
    assert!(handle_event(&mut state, Event::KeyDown(Key::Escape)));
    assert!(handle_event(&mut state, Event::Other));
    assert_eq!(state.directions, [false, false, false, false]);
    assert!(!state.lmb_clicked);
}

#[test]
fn the_left_button_sets_and_clears_the_click() {
    let mut state = State::default();
    assert!(handle_event(&mut state, Event::LeftButtonDown));
    assert!(state.lmb_clicked);
    assert!(handle_event(&mut state, Event::LeftButtonUp));
    assert!(!state.lmb_clicked);
}

#[test]
fn a_motion_moves_the_pointer() {
    let mut state = State::default();
    assert!(handle_event(&mut state, Event::MouseMotion { x: 123, y: -45 }));
    assert_eq!(state.mouse_xy, Point2::new(123, -45));
    assert!(handle_event(&mut state, Event::MouseMotion { x: i32::MIN, y: i32::MAX }));
    assert_eq!(state.mouse_xy, Point2::new(i32::MIN as i64, i32::MAX as i64));
}

#[test]
fn events_change_nothing_but_the_input() {
    let mut state = State::default();
    state.update(1_000);
    let stars = state.galaxy.stars.len();
    let counter = state.lehmer.counter;
    let pos = state.pos;
    let events = vec![
        Event::KeyDown(Key::W),
        Event::LeftButtonDown,
        Event::MouseMotion { x: 16, y: 48 },
        Event::Other,
    ];
    let mut running = true;
    handle_events(&events, &mut running, &mut state);
    assert!(running);
    assert_eq!(state.galaxy.stars.len(), stars);
    assert_eq!(state.lehmer.counter, counter);
    assert_eq!(state.pos, pos);
    assert!(state.selected_star.is_none());
}

#[test]
fn handle_events_takes_the_events_in_order() {
    let mut state = State::default();
    let mut running = true;
    let events = vec![
        Event::KeyDown(Key::A),
        Event::KeyDown(Key::S),
        Event::KeyUp(Key::A),
        Event::MouseMotion { x: 1, y: 2 },
        Event::LeftButtonDown,
        Event::MouseMotion { x: 3, y: 4 },
        Event::KeyUp(Key::W),
    ];
    handle_events(&events, &mut running, &mut state);
    assert!(running);
    assert_eq!(state.directions, [false, true, false, false]);
    assert!(state.lmb_clicked);
    assert_eq!(state.mouse_xy, Point2::new(3, 4));
}

#[test]
fn handle_events_stops_the_run_and_still_takes_the_rest() {
    let mut state = State::default();
    let mut running = true;
    let events = vec![Event::KeyDown(Key::D), Event::Quit, Event::LeftButtonDown];
    handle_events(&events, &mut running, &mut state);
    assert!(!running);
    assert_eq!(state.directions, [false, false, false, true]);
    assert!(state.lmb_clicked);
}

#[test]
fn handle_events_does_not_start_a_stopped_run() {
    let mut state = State::default();
    let mut running = false;
    handle_events(&vec![Event::KeyDown(Key::W)], &mut running, &mut state);
    assert!(!running);
    let mut still = true;
    handle_events(&vec![], &mut still, &mut state);
    assert!(still);
}
