use crate::point::Point2;
use crate::ratio::{saturated, scaled, Ratio};
use crate::rng::{counter_after, draw, nth_draw, LehmerRnd};
use crate::space::{drawn_colour, pick_colour, Body, SpaceObject, SpaceObjectTrait};
use vstd::prelude::*;

verus! {

/// The moon that a source at `counter` yields round a planet whose moons
/// start `orbit` away: its distance, its diameter and its colour, in the order
/// of the draws.
pub open spec fn moon_at(counter: i64, point: Point2, orbit: int) -> Body {
    Body {
        diameter: scaled(nth_draw(counter, 1), 1, 5),
        pos: point,
        colour: drawn_colour(counter_after(counter, 2)),
        orbit_radius: saturated(orbit + scaled(draw(counter), 10, 100)),
        satellites: Seq::empty(),
    }
}

/// The kind of body that has no satellites.
#[derive(Debug, Clone, Copy)]
pub struct Moon;

impl SpaceObjectTrait for Moon {
    open spec fn created(counter: i64, point: Point2, orbit_radius: int) -> Body {
        moon_at(counter, point, orbit_radius)
    }

    open spec fn draws(counter: i64) -> nat {
        3
    }

    /// Builds a moon. `orbit` is the distance at which the planet's moons
    /// start; the moon lies one drawn offset further out.
    fn create(lehmer: &mut LehmerRnd, point: Point2, orbit: Ratio) -> (object: SpaceObject) {
        proof {
            reveal_with_fuel(counter_after, 4);
        }
        let offset = lehmer.rnd_double(10, 100);
        let orbit_radius = orbit.plus(offset);
        let diameter = lehmer.rnd_double(1, 5);
        let colour = pick_colour(lehmer);
        let object = SpaceObject {
            diameter,
            pos: point,
            colour,
            orbit_radius,
            satellites: Vec::new(),
        };
        assert(object@.satellites =~= Seq::empty());
        object
    }
}

} // verus!
