use crate::point::Point2;
use crate::ratio::{scaled, Ratio};
use crate::rng::{
    between, counter_after, draw, lemma_counter_after_one, lemma_counter_after_sum, nth_draw,
    LehmerRnd,
};
use crate::space::moon::{moon_at, Moon};
use crate::space::{
    bodies, drawn_colour, lemma_view_satellites, pick_colour, Body, SpaceObject,
    SpaceObjectTrait,
};
use vstd::prelude::*;

verus! {

/// The number of moons that a source at `counter` gives a planet: 0 to 4.
pub open spec fn moon_count(counter: i64) -> nat {
    between(draw(counter), 0, 5) as nat
}

/// The number of draws that a planet's moons take: the count, and for a
/// count above zero the shared distance and three draws for each moon.
pub open spec fn moons_draws(counter: i64) -> nat {
    if moon_count(counter) == 0 {
        1
    } else {
        2 + 3 * moon_count(counter)
    }
}

/// The moons that a source at `counter` gives a planet. All of them start
/// from one shared distance, and each adds an offset of its own.
pub open spec fn moons_at(counter: i64, point: Point2) -> Seq<Body> {
    if moon_count(counter) == 0 {
        Seq::empty()
    } else {
        Seq::new(
            moon_count(counter),
            |i: int|
                moon_at(
                    counter_after(counter, (2 + 3 * i) as nat),
                    point,
                    scaled(nth_draw(counter, 1), 6, 20),
                ),
        )
    }
}

/// The planet that a source at `counter` yields at the distance `orbit`: its
/// diameter and its colour, then its moons.
pub open spec fn planet_at(counter: i64, point: Point2, orbit: int) -> Body {
    Body {
        diameter: scaled(draw(counter), 4, 20),
        pos: point,
        colour: drawn_colour(counter_after(counter, 1)),
        orbit_radius: orbit,
        satellites: moons_at(counter_after(counter, 2), point),
    }
}

/// The number of draws that a planet takes, its moons included.
pub open spec fn planet_draws(counter: i64) -> nat {
    2 + moons_draws(counter_after(counter, 2))
}

/// The kind of body whose satellites are moons.
#[derive(Debug, Clone, Copy)]
pub struct Planet;

impl Planet {
    /// Builds a planet's moons.
    pub fn gen_moons(lehmer: &mut LehmerRnd, pos: Point2) -> (moons: Vec<SpaceObject>)
        ensures
            bodies(moons@) == moons_at(old(lehmer).counter, pos),
            final(lehmer).counter == counter_after(
                old(lehmer).counter,
                moons_draws(old(lehmer).counter),
            ),
    {
        let ghost start = lehmer.counter;
        proof {
            lemma_counter_after_one(start);
        }
        let n_moons = lehmer.rnd_int(0, 5);
        if n_moons == 0 {
            let moons: Vec<SpaceObject> = Vec::new();
            assert(bodies(moons@) =~= moons_at(start, pos));
            return moons;
        }
        let orbit = lehmer.rnd_double(6, 20);
        proof {
            lemma_counter_after_sum(start, 1, 1);
        }
        let mut moons: Vec<SpaceObject> = Vec::new();
        let mut i: u32 = 0;
        while i < n_moons
            invariant
                i <= n_moons,
                n_moons == moon_count(start),
                orbit@ == scaled(nth_draw(start, 1), 6, 20),
                moons.len() == i,
                lehmer.counter == counter_after(start, (2 + 3 * i) as nat),
                forall|k: int|
                    0 <= k < i ==> (#[trigger] moons[k])@ == moon_at(
                        counter_after(start, (2 + 3 * k) as nat),
                        pos,
                        orbit@,
                    ),
            decreases n_moons - i,
        {
            let moon = Moon::create(lehmer, pos, orbit);
            proof {
                lemma_counter_after_sum(start, (2 + 3 * i) as nat, 3);
            }
            moons.push(moon);
            i += 1;
        }
        assert(bodies(moons@) =~= moons_at(start, pos));
        moons
    }
}

impl SpaceObjectTrait for Planet {
    open spec fn created(counter: i64, point: Point2, orbit_radius: int) -> Body {
        planet_at(counter, point, orbit_radius)
    }

    open spec fn draws(counter: i64) -> nat {
        planet_draws(counter)
    }

    /// Builds a planet at the distance `orbit_radius` from its star.
    fn create(lehmer: &mut LehmerRnd, pos: Point2, orbit_radius: Ratio) -> (object: SpaceObject) {
        let ghost start = lehmer.counter;
        proof {
            lemma_counter_after_one(start);
            lemma_counter_after_sum(start, 1, 1);
            lemma_counter_after_sum(start, 2, moons_draws(counter_after(start, 2)));
        }
        let diameter = lehmer.rnd_double(4, 20);
        let colour = pick_colour(lehmer);
        let satellites = Self::gen_moons(lehmer, pos);
        let object = SpaceObject { diameter, pos, colour, orbit_radius, satellites };
        proof {
            lemma_view_satellites(object);
        }
        object
    }
}

} // verus!
