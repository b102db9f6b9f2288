use crate::point::Point2;
use crate::state::{State, DOWN, LEFT, RIGHT, UP};
use vstd::prelude::*;

verus! {

/// A key as far as the input cares.
#[derive(Debug, Clone, Copy, PartialEq, Eq, Structural)]
pub enum Key {
    W,
    S,
    A,
    D,
    Escape,
    /// Any other key, or none.
    Other,
}

/// What the window reports.
#[derive(Debug, Clone, Copy, PartialEq, Eq, Structural)]
pub enum Event {
    Quit,
    KeyDown(Key),
    KeyUp(Key),
    LeftButtonDown,
    LeftButtonUp,
    /// The pointer has moved to a pixel.
    MouseMotion { x: i32, y: i32 },
    /// Anything else.
    Other,
}

/// The direction that a key holds, if it holds one.
pub open spec fn direction_of(key: Key) -> Option<usize> {
    match key {
        Key::W => Some(UP),
        Key::S => Some(DOWN),
        Key::A => Some(LEFT),
        Key::D => Some(RIGHT),
        _ => None,
    }
}

/// Whether an event ends the run: the window closing, or Escape let go.
pub open spec fn stops(event: Event) -> bool {
    event == Event::Quit || event == Event::KeyUp(Key::Escape)
}

/// What the input has set in a state.
pub struct Input {
    pub directions: Seq<bool>,
    pub lmb_clicked: bool,
    pub mouse_xy: Point2,
}

/// What the input has set in `state`.
pub open spec fn input_of(state: State) -> Input {
    Input {
        directions: state.directions@,
        lmb_clicked: state.lmb_clicked,
        mouse_xy: state.mouse_xy,
    }
}

/// Whether two states differ in nothing but what the input has set.
pub open spec fn same_world(before: State, after: State) -> bool {
    &&& after.pos == before.pos
    &&& after.galaxy == before.galaxy
    &&& after.lehmer == before.lehmer
    &&& after.selected_star == before.selected_star
}

/// What an event makes of the input. A key sets or clears its direction,
/// the left button sets or clears the click, and a motion moves the pointer.
pub open spec fn after_event(input: Input, event: Event) -> Input {
    match event {
        Event::KeyDown(key) => match direction_of(key) {
            Some(index) => Input { directions: input.directions.update(index as int, true), ..input },
            None => input,
        },
        Event::KeyUp(key) => match direction_of(key) {
            Some(index) => Input {
                directions: input.directions.update(index as int, false),
                ..input
            },
            None => input,
        },
        Event::LeftButtonDown => Input { lmb_clicked: true, ..input },
        Event::LeftButtonUp => Input { lmb_clicked: false, ..input },
        Event::MouseMotion { x, y } => Input {
            mouse_xy: Point2 { x: x as i64, y: y as i64 },
            ..input
        },
        _ => input,
    }
}

/// What the first `count` of `events` make of the input, one after another.
pub open spec fn after_events(input: Input, events: Seq<Event>, count: nat) -> Input
    decreases count,
{
    if count == 0 {
        input
    } else {
        after_event(after_events(input, events, (count - 1) as nat), events[count - 1])
    }
}

/// The direction that a key holds, if it holds one.
pub fn key_direction(key: Key) -> (direction: Option<usize>)
    ensures
        direction == direction_of(key),
{
    match key {
        Key::W => Some(UP),
        Key::S => Some(DOWN),
        Key::A => Some(LEFT),
        Key::D => Some(RIGHT),
        _ => None,
    }
}

/// Takes one event into the state, and says whether the run goes on.
pub fn handle_event(state: &mut State, event: Event) -> (running: bool)
    ensures
        same_world(*old(state), *final(state)),
        input_of(*final(state)) == after_event(input_of(*old(state)), event),
        running == !stops(event),
{
    match event {
        Event::Quit => {
            return false;
        },
        Event::KeyDown(key) => {
            match key_direction(key) {
                Some(index) => {
                    state.directions[index] = true;
                },
                None => {},
            }
        },
        Event::KeyUp(key) => {
            match key_direction(key) {
                Some(index) => {
                    state.directions[index] = false;
                },
                None => {},
            }
            match key {
                Key::Escape => {
                    return false;
                },
                _ => {},
            }
        },
        Event::LeftButtonDown => {
            state.lmb_clicked = true;
        },
        Event::LeftButtonUp => {
            state.lmb_clicked = false;
        },
        Event::MouseMotion { x, y } => {
            state.mouse_xy = Point2 { x: x as i64, y: y as i64 };
        },
        Event::Other => {},
    }
    true
}

/// Takes the events of one frame into the state, in their order. The run
/// goes on if it went on before and none of the events ends it.
pub fn handle_events(events: &Vec<Event>, running: &mut bool, state: &mut State)
    ensures
        same_world(*old(state), *final(state)),
        input_of(*final(state)) == after_events(input_of(*old(state)), events@, events@.len()),
        *final(running) == (*old(running) && forall|i: int|
            0 <= i < events@.len() ==> !stops(#[trigger] events@[i])),
{
    let mut i: usize = 0;
    while i < events.len()
        invariant
            i <= events.len(),
            same_world(*old(state), *state),
            input_of(*state) == after_events(input_of(*old(state)), events@, i as nat),
            *running == (*old(running) && forall|k: int|
                0 <= k < i ==> !stops(#[trigger] events@[k])),
        decreases events.len() - i,
    {
        if !handle_event(state, events[i]) {
            *running = false;
        }
        i += 1;
    }
}

} // verus!
