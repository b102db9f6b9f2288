use crate::point::Point2;
use crate::ratio::{saturated, scaled, Ratio};
use crate::rng::{
    advanced, between, counter_after, draw, lemma_counter_after_one, lemma_counter_after_sum,
    nth_draw, LehmerRnd,
};
use crate::space::planet::{planet_at, planet_draws, Planet};
use crate::space::{
    bodies, drawn_colour, lemma_view_satellites, pick_colour, Body, SpaceObject,
    SpaceObjectTrait,
};
use vstd::prelude::*;

verus! {

/// How far a star is built out.
#[derive(Debug, Clone, Copy, PartialEq, Eq, Structural)]
pub enum Depth {
    /// The star alone.
    Shallow,
    /// The star with its planets and their moons.
    Full,
}

/// Whether a source at `counter` finds a star: one cell in twenty has one.
pub open spec fn star_present(counter: i64) -> bool {
    between(draw(counter), 0, 20) == 1
}

/// The star alone that a source at `counter` yields: its diameter, then its
/// colour.
pub open spec fn bare_star_at(counter: i64, point: Point2, orbit: int) -> Body {
    Body {
        diameter: scaled(draw(counter), 10, 40),
        pos: point,
        colour: drawn_colour(counter_after(counter, 1)),
        orbit_radius: orbit,
        satellites: Seq::empty(),
    }
}

/// The number of planets that a source at `counter` gives a star: 0 to 9.
pub open spec fn planet_count(counter: i64) -> nat {
    between(draw(counter), 0, 10) as nat
}

/// The number of draws that the first `count` planets take when the first of
/// them starts at `counter`: for each its offset, then the planet itself.
pub open spec fn planets_span(counter: i64, count: nat) -> nat
    decreases count,
{
    if count == 0 {
        0
    } else {
        let before = planets_span(counter, (count - 1) as nat);
        before + 1 + planet_draws(counter_after(counter, before + 1))
    }
}

/// The planet after `index` earlier ones, when the first starts at `counter`.
/// It lies at `base` plus an offset of its own; no planet's offset adds to
/// that of another.
pub open spec fn nth_planet(counter: i64, point: Point2, base: int, index: nat) -> Body {
    let skipped = planets_span(counter, index);
    planet_at(
        counter_after(counter, skipped + 1),
        point,
        saturated(base + scaled(nth_draw(counter, skipped), 20, 200)),
    )
}

/// The planets that a source at `counter` gives a star.
pub open spec fn planets_at(counter: i64, point: Point2) -> Seq<Body> {
    if planet_count(counter) == 0 {
        Seq::empty()
    } else {
        Seq::new(
            planet_count(counter),
            |i: int|
                nth_planet(
                    counter_after(counter, 2),
                    point,
                    scaled(nth_draw(counter, 1), 60, 200),
                    i as nat,
                ),
        )
    }
}

/// The number of draws that a star's planets take: the count, and for a count
/// above zero the shared distance and the planets.
pub open spec fn planets_draws(counter: i64) -> nat {
    if planet_count(counter) == 0 {
        1
    } else {
        2 + planets_span(counter_after(counter, 2), planet_count(counter))
    }
}

/// What a source at `counter` yields for a cell: nothing, or a star built out
/// to `depth`.
pub open spec fn system_at(counter: i64, point: Point2, depth: Depth) -> Option<Body> {
    if star_present(counter) {
        let star = bare_star_at(advanced(counter), point, 0);
        Some(
            Body {
                diameter: star.diameter,
                pos: star.pos,
                colour: star.colour,
                orbit_radius: star.orbit_radius,
                satellites: match depth {
                    Depth::Shallow => Seq::empty(),
                    Depth::Full => planets_at(counter_after(counter, 3), point),
                },
            },
        )
    } else {
        None
    }
}

/// The number of draws that `system_at` stands for.
pub open spec fn system_draws(counter: i64, depth: Depth) -> nat {
    if !star_present(counter) {
        1
    } else {
        match depth {
            Depth::Shallow => 3,
            Depth::Full => 3 + planets_draws(counter_after(counter, 3)),
        }
    }
}

/// What an object that may be missing stands for.
pub open spec fn seen(object: Option<SpaceObject>) -> Option<Body> {
    match object {
        Some(found) => Some(found@),
        None => None,
    }
}

/// The depth decides nothing but the satellites: whether there is a star,
/// and its diameter, colour, position and distance, are the same at either
/// depth, and a shallow star has no satellites.
pub proof fn lemma_depths_agree(counter: i64, point: Point2)
    ensures
        system_at(counter, point, Depth::Shallow) is Some <==> system_at(
            counter,
            point,
            Depth::Full,
        ) is Some,
        system_at(counter, point, Depth::Shallow) is Some <==> star_present(counter),
        star_present(counter) ==> ({
            let shallow = system_at(counter, point, Depth::Shallow)->0;
            let full = system_at(counter, point, Depth::Full)->0;
            &&& shallow.diameter == full.diameter
            &&& shallow.colour == full.colour
            &&& shallow.pos == full.pos
            &&& shallow.orbit_radius == full.orbit_radius
            &&& shallow.satellites == Seq::<Body>::empty()
        }),
        system_draws(counter, Depth::Shallow) <= system_draws(counter, Depth::Full),
{
}

/// A cell without a star costs exactly one draw at either depth.
pub proof fn lemma_absent_costs_one_draw(counter: i64, point: Point2, depth: Depth)
    requires
        !star_present(counter),
    ensures
        system_at(counter, point, depth) is None,
        system_draws(counter, depth) == 1,
        counter_after(counter, system_draws(counter, depth)) == advanced(counter),
{
    lemma_counter_after_one(counter);
}

/// A star whose count of planets is drawn as zero has no planets, and the
/// whole system costs exactly four draws: the star's presence, its diameter,
/// its colour and the count. No distance is drawn.
pub proof fn lemma_no_planets_costs_four_draws(counter: i64, point: Point2)
    requires
        star_present(counter),
        planet_count(counter_after(counter, 3)) == 0,
    ensures
        system_at(counter, point, Depth::Full) is Some,
        system_at(counter, point, Depth::Full)->0.satellites == Seq::<Body>::empty(),
        system_draws(counter, Depth::Full) == 4,
{
}

/// The draws of the first `count` planets: at least four and at most
/// seventeen for each.
pub proof fn lemma_planets_span_bounds(counter: i64, count: nat)
    ensures
        4 * count <= planets_span(counter, count) <= 17 * count,
    decreases count,
{
    if count > 0 {
        lemma_planets_span_bounds(counter, (count - 1) as nat);
    }
}

/// The shape of a system: a star has at most nine planets, a planet at most
/// four moons, and a moon no satellites. Every body carries the position
/// that the star was built at, and the star's own distance is zero.
pub proof fn lemma_system_shape(counter: i64, point: Point2, depth: Depth)
    requires
        star_present(counter),
    ensures
        ({
            let star = system_at(counter, point, depth)->0;
            &&& star.pos == point
            &&& star.orbit_radius == 0
            &&& star.satellites.len() <= 9
            &&& forall|p: int|
                0 <= p < star.satellites.len() ==> {
                    let planet = #[trigger] star.satellites[p];
                    &&& planet.pos == point
                    &&& planet.satellites.len() <= 4
                    &&& forall|m: int|
                        0 <= m < planet.satellites.len() ==> {
                            let moon = #[trigger] planet.satellites[m];
                            &&& moon.pos == point
                            &&& moon.satellites.len() == 0
                        }
                }
        }),
        system_draws(counter, depth) <= 158,
{
    if depth == Depth::Full {
        let start = counter_after(counter, 3);
        lemma_planets_span_bounds(counter_after(start, 2), planet_count(start));
    }
}

/// The kind of body whose satellites are planets.
#[derive(Debug, Clone, Copy)]
pub struct Star;

impl Star {
    /// Decides with one draw whether there is a star.
    pub fn present(lehmer: &mut LehmerRnd) -> (found: bool)
        ensures
            found == star_present(old(lehmer).counter),
            final(lehmer).counter == advanced(old(lehmer).counter),
    {
        lehmer.rnd_int(0, 20) == 1
    }

    /// Builds a star's planets.
    pub fn gen_planets(lehmer: &mut LehmerRnd, pos: Point2) -> (planets: Vec<SpaceObject>)
        ensures
            bodies(planets@) == planets_at(old(lehmer).counter, pos),
            final(lehmer).counter == counter_after(
                old(lehmer).counter,
                planets_draws(old(lehmer).counter),
            ),
    {
        let ghost start = lehmer.counter;
        proof {
            lemma_counter_after_one(start);
        }
        let n_planets = lehmer.rnd_int(0, 10);
        if n_planets == 0 {
            let planets: Vec<SpaceObject> = Vec::new();
            assert(bodies(planets@) =~= planets_at(start, pos));
            return planets;
        }
        let base = lehmer.rnd_double(60, 200);
        proof {
            lemma_counter_after_sum(start, 1, 1);
        }
        let ghost first = counter_after(start, 2);
        let mut planets: Vec<SpaceObject> = Vec::new();
        let mut i: u32 = 0;
        while i < n_planets
            invariant
                i <= n_planets,
                n_planets == planet_count(start),
                first == counter_after(start, 2),
                base@ == scaled(nth_draw(start, 1), 60, 200),
                planets.len() == i,
                lehmer.counter == counter_after(first, planets_span(first, i as nat)),
                forall|k: int|
                    0 <= k < i ==> (#[trigger] planets[k])@ == nth_planet(
                        first,
                        pos,
                        base@,
                        k as nat,
                    ),
            decreases n_planets - i,
        {
            let ghost skipped = planets_span(first, i as nat);
            let offset = lehmer.rnd_double(20, 200);
            let planet = Planet::create(lehmer, pos, base.plus(offset));
            proof {
                lemma_counter_after_sum(first, skipped, 1);
                lemma_counter_after_sum(
                    first,
                    skipped + 1,
                    planet_draws(counter_after(first, skipped + 1)),
                );
            }
            planets.push(planet);
            i += 1;
        }
        proof {
            lemma_counter_after_sum(start, 2, planets_span(first, n_planets as nat));
        }
        assert(bodies(planets@) =~= planets_at(start, pos));
        planets
    }

    /// Builds what a source yields for a cell. A cell without a star costs one
    /// draw, whatever the depth; the star's own draws do not depend on the
    /// depth either.
    pub fn generate(lehmer: &mut LehmerRnd, pos: Point2, depth: Depth) -> (system: Option<
        SpaceObject,
    >)
        ensures
            seen(system) == system_at(old(lehmer).counter, pos, depth),
            final(lehmer).counter == counter_after(
                old(lehmer).counter,
                system_draws(old(lehmer).counter, depth),
            ),
    {
        let ghost start = lehmer.counter;
        proof {
            lemma_counter_after_one(start);
        }
        if !Self::present(lehmer) {
            return None;
        }
        let mut star = Self::create(lehmer, pos, Ratio::zero());
        proof {
            lemma_counter_after_sum(start, 1, 2);
        }
        match depth {
            Depth::Shallow => {},
            Depth::Full => {
                star.satellites = Self::gen_planets(lehmer, pos);
                proof {
                    lemma_counter_after_sum(start, 3, planets_draws(counter_after(start, 3)));
                }
            },
        }
        proof {
            lemma_view_satellites(star);
        }
        Some(star)
    }
}

impl SpaceObjectTrait for Star {
    open spec fn created(counter: i64, point: Point2, orbit_radius: int) -> Body {
        bare_star_at(counter, point, orbit_radius)
    }

    open spec fn draws(counter: i64) -> nat {
        2
    }

    /// Builds a star without its planets.
    fn create(lehmer: &mut LehmerRnd, pos: Point2, orbit_radius: Ratio) -> (object: SpaceObject) {
        proof {
            reveal_with_fuel(counter_after, 3);
        }
        let diameter = lehmer.rnd_double(10, 40);
        let colour = pick_colour(lehmer);
        let object = SpaceObject { diameter, pos, colour, orbit_radius, satellites: Vec::new() };
        assert(object@.satellites =~= Seq::empty());
        object
    }
}

} // verus!
