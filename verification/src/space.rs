pub mod galaxy;
pub mod moon;
pub mod planet;
pub mod star;

use crate::point::Point2;
use crate::ratio::Ratio;
use crate::rng::{advanced, between, counter_after, draw, LehmerRnd};
use vstd::prelude::*;

verus! {

/// The number of colours a body can have.
pub const PALETTE_SIZE: u32 = 7;

/// A colour by its red, green and blue parts.
#[derive(Debug, Clone, Copy, PartialEq, Eq, Structural)]
pub struct Colour {
    pub r: u8,
    pub g: u8,
    pub b: u8,
}

/// The palette, from cool to warm.
pub open spec fn star_colours() -> Seq<Colour> {
    seq![
        Colour { r: 175, g: 201, b: 255 },
        Colour { r: 199, g: 216, b: 255 },
        Colour { r: 255, g: 244, b: 243 },
        Colour { r: 255, g: 229, b: 207 },
        Colour { r: 255, g: 217, b: 178 },
        Colour { r: 255, g: 199, b: 142 },
        Colour { r: 255, g: 166, b: 81 },
    ]
}

/// The colour that a source at `counter` picks next.
pub open spec fn drawn_colour(counter: i64) -> Colour {
    star_colours()[between(draw(counter), 0, PALETTE_SIZE)]
}

/// The palette's entry at `index`.
pub fn star_colour(index: u32) -> (colour: Colour)
    requires
        index < PALETTE_SIZE,
    ensures
        colour == star_colours()[index as int],
{
    if index == 0 {
        Colour { r: 175, g: 201, b: 255 }
    } else if index == 1 {
        Colour { r: 199, g: 216, b: 255 }
    } else if index == 2 {
        Colour { r: 255, g: 244, b: 243 }
    } else if index == 3 {
        Colour { r: 255, g: 229, b: 207 }
    } else if index == 4 {
        Colour { r: 255, g: 217, b: 178 }
    } else if index == 5 {
        Colour { r: 255, g: 199, b: 142 }
    } else {
        Colour { r: 255, g: 166, b: 81 }
    }
}

/// Picks a colour from the palette with one draw.
pub fn pick_colour(lehmer: &mut LehmerRnd) -> (colour: Colour)
    ensures
        final(lehmer).counter == advanced(old(lehmer).counter),
        colour == drawn_colour(old(lehmer).counter),
{
    star_colour(lehmer.rnd_int(0, PALETTE_SIZE))
}

/// A generated body: a star, a planet or a moon.
#[derive(Debug, PartialEq, Eq)]
pub struct SpaceObject {
    pub diameter: Ratio,
    /// The sector that the body hangs from. A satellite lies `orbit_radius`
    /// away from it, along one fixed bearing.
    pub pos: Point2,
    pub colour: Colour,
    /// The distance from the parent; zero for a star.
    pub orbit_radius: Ratio,
    /// A star's planets or a planet's moons, in the order of their generation.
    pub satellites: Vec<SpaceObject>,
}

/// What a `SpaceObject` stands for: its quantities as numerators over the
/// normalizer, and its satellites as a sequence.
pub struct Body {
    pub diameter: int,
    pub pos: Point2,
    pub colour: Colour,
    pub orbit_radius: int,
    pub satellites: Seq<Body>,
}

/// What an object stands for.
pub open spec fn body_of(object: SpaceObject) -> Body
    decreases object,
{
    Body {
        diameter: object.diameter@,
        pos: object.pos,
        colour: object.colour,
        orbit_radius: object.orbit_radius@,
        satellites: Seq::new(
            object.satellites.len() as nat,
            |i: int|
                if 0 <= i < object.satellites.len() {
                    body_of(object.satellites[i])
                } else {
                    arbitrary()
                },
        ),
    }
}

impl View for SpaceObject {
    type V = Body;

    open spec fn view(&self) -> Body {
        body_of(*self)
    }
}

impl Clone for SpaceObject {
    /// A copy of the body with copies of all its satellites.
    fn clone(&self) -> (copy: SpaceObject)
        ensures
            copy@ == self@,
        decreases self,
    {
        let mut satellites: Vec<SpaceObject> = Vec::new();
        let mut i: usize = 0;
        while i < self.satellites.len()
            invariant
                i <= self.satellites.len(),
                satellites.len() == i,
                forall|k: int| 0 <= k < i ==> (#[trigger] satellites[k])@ == self.satellites[k]@,
            decreases self.satellites.len() - i,
        {
            satellites.push(self.satellites[i].clone());
            i += 1;
        }
        let copy = SpaceObject {
            diameter: self.diameter,
            pos: self.pos,
            colour: self.colour,
            orbit_radius: self.orbit_radius,
            satellites,
        };
        assert(copy@.satellites =~= self@.satellites);
        copy
    }
}

/// What a sequence of objects stands for, one by one.
pub open spec fn bodies(objects: Seq<SpaceObject>) -> Seq<Body> {
    Seq::new(objects.len(), |i: int| objects[i]@)
}

/// An object's satellites stand for the satellites of what it stands for.
pub proof fn lemma_view_satellites(object: SpaceObject)
    ensures
        object@.satellites == bodies(object.satellites@),
{
    assert(object@.satellites =~= bodies(object.satellites@));
}

/// A kind of body, built from a source by a fixed sequence of draws.
pub trait SpaceObjectTrait {
    /// The body that `create` builds from a source at `counter`.
    spec fn created(counter: i64, point: Point2, orbit_radius: int) -> Body;

    /// The number of draws that `create` makes from a source at `counter`.
    spec fn draws(counter: i64) -> nat;

    fn create(lehmer: &mut LehmerRnd, point: Point2, orbit_radius: Ratio) -> (object: SpaceObject)
        ensures
            object@ == Self::created(old(lehmer).counter, point, orbit_radius@),
            final(lehmer).counter == counter_after(
                old(lehmer).counter,
                Self::draws(old(lehmer).counter),
            ),
    ;
}

} // verus!
