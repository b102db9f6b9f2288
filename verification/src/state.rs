use crate::point::Point2;
use crate::rng::LehmerRnd;
use crate::space::galaxy::{clamped, counter_past, pointed_sector, scanned, sector_at, star_of, Galaxy};
use crate::space::star::{seen, Depth};
use crate::space::{Body, SpaceObject};
use crate::{X_SECTORS, Y_SECTORS};
use vstd::prelude::*;

verus! {

/// How far the view pans in a second, in cells. A held direction moves the
/// pan offset by this many units for each nanosecond of a step.
pub const SPEED: i64 = 50;

/// The index in `State::directions` of the flag that pans up.
pub const UP: usize = 0;

/// The index in `State::directions` of the flag that pans down.
pub const DOWN: usize = 1;

/// The index in `State::directions` of the flag that pans left.
pub const LEFT: usize = 2;

/// The index in `State::directions` of the flag that pans right.
pub const RIGHT: usize = 3;

/// One axis of a pan offset after a step of `step` units: first back, if
/// that direction is held, then forth, if that one is. Each move stops at
/// the end of the range.
pub open spec fn moved(value: i64, back: bool, forth: bool, step: int) -> i64 {
    let first = if back {
        clamped(value - step)
    } else {
        value
    };
    if forth {
        clamped(first + step)
    } else {
        first
    }
}

/// The pan offset after a step of `dt` nanoseconds with the held directions.
pub open spec fn advanced_pan(pan: Point2, directions: [bool; 4], dt: u32) -> Point2 {
    Point2 {
        x: moved(pan.x, directions[LEFT as int], directions[RIGHT as int], SPEED * dt),
        y: moved(pan.y, directions[UP as int], directions[DOWN as int], SPEED * dt),
    }
}

/// The pan offset after `steps` steps of `dt` nanoseconds each.
pub open spec fn pan_after(pan: Point2, directions: [bool; 4], dt: u32, steps: nat) -> Point2
    decreases steps,
{
    if steps == 0 {
        pan
    } else {
        advanced_pan(pan_after(pan, directions, dt, (steps - 1) as nat), directions, dt)
    }
}

/// Two opposite directions held together leave their axis where it was,
/// unless the move back ran into the end of the range.
pub proof fn lemma_opposite_directions_cancel(value: i64, step: int)
    requires
        0 <= step,
        i64::MIN <= value - step,
    ensures
        moved(value, true, true, step) == value,
        moved(value, false, false, step) == value,
{
}

/// `value + delta`, held to the range of a coordinate.
fn shifted(value: i64, delta: i64) -> (sum: i64)
    ensures
        sum == clamped(value + delta),
{
    match value.checked_add(delta) {
        Some(sum) => sum,
        None => if delta > 0 {
            i64::MAX
        } else {
            i64::MIN
        },
    }
}

/// Moves a pan offset by one step of `dt` nanoseconds. Each held direction
/// moves its axis on its own account, so two opposite ones undo each other.
pub fn advance(pan_offset: Point2, directions: [bool; 4], dt: u32) -> (pan: Point2)
    ensures
        pan == advanced_pan(pan_offset, directions, dt),
{
    assert(0 <= SPEED * dt <= 50 * 0xFFFF_FFFF) by (nonlinear_arith)
        requires
            SPEED == 50,
            0 <= dt <= 0xFFFF_FFFF,
    ;
    let step: i64 = SPEED * (dt as i64);
    let mut pan = pan_offset;
    if directions[UP] {
        pan.y = shifted(pan.y, -step);
    }
    if directions[DOWN] {
        pan.y = shifted(pan.y, step);
    }
    if directions[LEFT] {
        pan.x = shifted(pan.x, -step);
    }
    if directions[RIGHT] {
        pan.x = shifted(pan.x, step);
    }
    pan
}

/// All that a frame shows and all that the input has set.
#[derive(Debug)]
pub struct State {
    /// The pan offset, in units of which `UNITS_PER_CELL` make a cell.
    pub pos: Point2,
    /// The held directions, by the indices `UP`, `DOWN`, `LEFT`, `RIGHT`.
    pub directions: [bool; 4],
    /// The pointer's position in pixels.
    pub mouse_xy: Point2,
    pub lmb_clicked: bool,
    pub galaxy: Galaxy,
    pub lehmer: LehmerRnd,
    pub selected_star: Option<SpaceObject>,
}

impl Default for State {
    fn default() -> (state: State)
        ensures
            state.pos == (Point2 { x: 0, y: 0 }),
            state.directions@ == seq![false, false, false, false],
            state.mouse_xy == (Point2 { x: 0, y: 0 }),
            !state.lmb_clicked,
            state.galaxy@ == Seq::<Body>::empty(),
            state.lehmer.counter == 0,
            state.selected_star is None,
    {
        let state = State {
            pos: Point2::new(0, 0),
            directions: [false, false, false, false],
            mouse_xy: Point2::new(0, 0),
            lmb_clicked: false,
            galaxy: Galaxy::default(),
            lehmer: LehmerRnd { counter: 0 },
            selected_star: None,
        };
        assert(state.directions@ =~= seq![false, false, false, false]);
        state
    }
}

impl State {
    /// Whether `after` is what `steps` steps of `dt` nanoseconds make of
    /// `before`. No step changes nothing. Otherwise the view has panned
    /// `steps` times, the galaxy holds the stars in view at the last offset,
    /// and with the button down the selection is the whole system under the
    /// pointer there, or nothing where there is no star.
    pub open spec fn ran(before: State, after: State, dt: u32, steps: nat) -> bool {
        if steps == 0 {
            after == before
        } else {
            &&& after.pos == pan_after(before.pos, before.directions, dt, steps)
            &&& after.directions == before.directions
            &&& after.mouse_xy == before.mouse_xy
            &&& after.lmb_clicked == before.lmb_clicked
            &&& after.galaxy@ == scanned(after.pos, (X_SECTORS * Y_SECTORS) as nat)
            &&& if before.lmb_clicked {
                &&& seen(after.selected_star) == star_of(
                    after.pos,
                    pointed_sector(before.mouse_xy),
                    Depth::Full,
                )
                &&& after.lehmer.counter == counter_past(
                    after.pos,
                    pointed_sector(before.mouse_xy),
                    Depth::Full,
                )
            } else {
                &&& after.selected_star == before.selected_star
                &&& after.lehmer.counter == counter_past(
                    after.pos,
                    sector_at(X_SECTORS * Y_SECTORS - 1),
                    Depth::Shallow,
                )
            }
        }
    }

    /// One more step after `steps` steps makes `steps + 1` steps.
    pub proof fn lemma_ran_once_more(start: State, middle: State, end: State, dt: u32, steps: nat)
        requires
            Self::ran(start, middle, dt, steps),
            Self::ran(middle, end, dt, 1),
        ensures
            Self::ran(start, end, dt, steps + 1),
    {
        reveal_with_fuel(pan_after, 2);
    }

    /// Makes one step of `dt` nanoseconds: pans, scans the view again, and
    /// with the button down resolves the selection under the pointer.
    pub fn update(&mut self, dt: u32)
        ensures
            Self::ran(*old(self), *final(self), dt, 1),
    {
        proof {
            reveal_with_fuel(pan_after, 2);
        }
        self.pos = advance(self.pos, self.directions, dt);
        self.galaxy.update(self.pos, &mut self.lehmer);
        if self.lmb_clicked {
            self.selected_star = Galaxy::resolve_selection(
                &mut self.lehmer,
                self.mouse_xy,
                self.pos,
            );
        }
    }
}

} // verus!
