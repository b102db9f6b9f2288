use crate::point::Point2;
use crate::ratio::{Ratio, NORMALIZER};
use crate::space::galaxy::{pointed_sector, sector_under, truncated};
use crate::space::star::seen;
use crate::space::{bodies, lemma_view_satellites, Body, Colour, SpaceObject};
use crate::state::State;
use crate::{HEIGHT, SECTOR_SIZE, WIDTH};
use vstd::prelude::*;

verus! {

/// The radius of the ring round the star under the pointer.
pub const RING_RADIUS: i16 = 12;

/// Where the selected star is drawn, across.
pub const SELECTED_X: i16 = 50;

/// Where the selected star is drawn, down.
pub const SELECTED_Y: i16 = 450;

/// A circle to draw, in pixels: a disc in a body's colour, or a white ring.
#[derive(Debug, Clone, Copy, PartialEq, Eq, Structural)]
pub struct Circle {
    pub x: i16,
    pub y: i16,
    pub radius: i16,
    pub colour: Colour,
    pub filled: bool,
}

/// A rectangle to draw, in pixels.
#[derive(Debug, Clone, Copy, PartialEq, Eq, Structural)]
pub struct Rect {
    pub x: i32,
    pub y: i32,
    pub width: u32,
    pub height: u32,
}

/// All that a frame draws: the stars in view, and below them, where a star
/// is selected, a panel with its system.
#[derive(Debug)]
pub struct Scene {
    pub stars: Vec<Circle>,
    pub panel: Option<Rect>,
    pub selected: Vec<Circle>,
}

/// `value`, held to the range of a pixel coordinate.
pub open spec fn pixel(value: int) -> i16 {
    if value > i16::MAX {
        i16::MAX
    } else if value < i16::MIN {
        i16::MIN
    } else {
        value as i16
    }
}

/// The pixel at the middle of a sector, along one axis.
pub open spec fn sector_middle(sector: i64) -> i16 {
    pixel(pixel(sector as int) * SECTOR_SIZE + SECTOR_SIZE / 2)
}

/// The whole pixels in `times / over` of a quantity, rounded towards zero.
pub open spec fn portion_of(numerator: int, times: int, over: int) -> i16 {
    pixel(truncated(numerator * times, NORMALIZER * over))
}

/// The disc of a body at a place, half as wide in pixels as the body's
/// diameter says.
pub open spec fn disc_of(body: Body, x: i16, y: i16) -> Circle {
    Circle { x, y, radius: portion_of(body.diameter, 1, 2), colour: body.colour, filled: true }
}

/// The disc of a star in view, at the middle of its sector and an eighth of
/// its diameter in radius.
pub open spec fn star_disc(star: Body) -> Circle {
    Circle {
        x: sector_middle(star.pos.x),
        y: sector_middle(star.pos.y),
        radius: portion_of(star.diameter, 1, 8),
        colour: star.colour,
        filled: true,
    }
}

/// The ring round a star in view.
pub open spec fn star_ring(star: Body) -> Circle {
    Circle {
        x: sector_middle(star.pos.x),
        y: sector_middle(star.pos.y),
        radius: RING_RADIUS,
        colour: Colour { r: 255, g: 255, b: 255 },
        filled: false,
    }
}

/// What is drawn for one star in view: its disc, and a ring if the pointer
/// is in its sector.
pub open spec fn star_marks(star: Body, pointed: Point2) -> Seq<Circle> {
    if star.pos == pointed {
        seq![star_disc(star), star_ring(star)]
    } else {
        seq![star_disc(star)]
    }
}

/// What is drawn for the first `count` of the stars in view.
pub open spec fn stars_marks(stars: Seq<Body>, pointed: Point2, count: nat) -> Seq<Circle>
    decreases count,
{
    if count == 0 {
        Seq::empty()
    } else {
        stars_marks(stars, pointed, (count - 1) as nat) + star_marks(stars[count - 1], pointed)
    }
}

/// Where a planet of the selected star is drawn, across: half its distance
/// to the right of the star.
pub open spec fn planet_x(planet: Body) -> i16 {
    pixel(SELECTED_X + portion_of(planet.orbit_radius, 1, 2))
}

/// Where a moon is drawn, down: four fifths of its distance below its planet.
pub open spec fn moon_y(moon: Body) -> i16 {
    pixel(SELECTED_Y + portion_of(moon.orbit_radius, 4, 5))
}

/// What is drawn for a planet of the selected star: its disc, then the discs
/// of its moons below it.
pub open spec fn planet_marks(planet: Body) -> Seq<Circle> {
    seq![disc_of(planet, planet_x(planet), SELECTED_Y)] + Seq::new(
        planet.satellites.len(),
        |m: int| disc_of(planet.satellites[m], planet_x(planet), moon_y(planet.satellites[m])),
    )
}

/// What is drawn for the first `count` planets of the selected star.
pub open spec fn planets_marks(planets: Seq<Body>, count: nat) -> Seq<Circle>
    decreases count,
{
    if count == 0 {
        Seq::empty()
    } else {
        planets_marks(planets, (count - 1) as nat) + planet_marks(planets[count - 1])
    }
}

/// What is drawn for the selected star: its disc, then its planets from the
/// first to the last.
pub open spec fn system_marks(star: Body) -> Seq<Circle> {
    seq![disc_of(star, SELECTED_X, SELECTED_Y)] + planets_marks(
        star.satellites,
        star.satellites.len(),
    )
}

/// The panel behind a selected system: the lower half of the view, ten
/// pixels in from its left, right and lower edge.
pub open spec fn panel_rect() -> Rect {
    Rect { x: 10, y: (HEIGHT / 2) as i32, width: (WIDTH - 20) as u32, height: (HEIGHT / 2 - 10) as u32 }
}

/// `value`, held to the range of a pixel coordinate.
pub fn to_pixel(value: i64) -> (held: i16)
    ensures
        held == pixel(value as int),
{
    if value > i16::MAX as i64 {
        i16::MAX
    } else if value < i16::MIN as i64 {
        i16::MIN
    } else {
        value as i16
    }
}

/// The pixel at the middle of a sector, along one axis.
pub fn middle(sector: i64) -> (at: i16)
    ensures
        at == sector_middle(sector),
{
    let held = to_pixel(sector);
    assert(-0x8000 * 16 <= held * SECTOR_SIZE <= 0x7FFF * 16) by (nonlinear_arith)
        requires
            -0x8000 <= held <= 0x7FFF,
            SECTOR_SIZE == 16,
    ;
    to_pixel(held as i64 * SECTOR_SIZE as i64 + (SECTOR_SIZE / 2) as i64)
}

impl Ratio {
    /// The whole pixels in `times / over` of the quantity, rounded towards
    /// zero and held to the range of a pixel coordinate.
    pub fn portion(self, times: u8, over: u8) -> (pixels: i16)
        requires
            over > 0,
        ensures
            pixels == portion_of(self@, times as int, over as int),
    {
        assert(0 < NORMALIZER * over <= 0x7FFF_FFFF * 255) by (nonlinear_arith)
            requires
                NORMALIZER == 0x7FFF_FFFF,
                0 < over <= 255,
        ;
        let unit: i128 = NORMALIZER as i128 * over as i128;
        match self.numerator.checked_mul(times as i128) {
            Some(product) => {
                let whole: i128 = product / unit;
                if whole > i16::MAX as i128 {
                    i16::MAX
                } else if whole < i16::MIN as i128 {
                    i16::MIN
                } else {
                    whole as i16
                }
            },
            None => {
                proof {
                    lemma_large_portion(self@, times as int, unit as int);
                }
                if self.numerator > 0 {
                    i16::MAX
                } else {
                    i16::MIN
                }
            },
        }
    }
}

/// A product beyond the range of a numerator is far more than the pixels
/// can hold of any unit in use.
proof fn lemma_large_portion(numerator: int, times: int, unit: int)
    requires
        0 <= times <= 255,
        0 < unit <= 0x7FFF_FFFF * 255,
        numerator * times > i128::MAX || numerator * times < i128::MIN,
    ensures
        numerator > 0 ==> truncated(numerator * times, unit) > i16::MAX,
        numerator <= 0 ==> truncated(numerator * times, unit) < i16::MIN,
{
    let product = numerator * times;
    assert(numerator > 0 ==> product >= 0) by (nonlinear_arith)
        requires
            product == numerator * times,
            0 <= times,
    ;
    assert(numerator <= 0 ==> product <= 0) by (nonlinear_arith)
        requires
            product == numerator * times,
            0 <= times,
    ;
    if product > i128::MAX {
        assert(product / unit > i16::MAX) by (nonlinear_arith)
            requires
                product > 0x7FFF_FFFF_FFFF_FFFF_FFFF_FFFF_FFFF_FFFF,
                0 < unit <= 0x7FFF_FFFF * 255,
        ;
    } else {
        assert((-product) / unit > i16::MAX + 1) by (nonlinear_arith)
            requires
                -product > 0x7FFF_FFFF_FFFF_FFFF_FFFF_FFFF_FFFF_FFFF,
                0 < unit <= 0x7FFF_FFFF * 255,
        ;
    }
}

/// The disc of a body at a place.
pub fn disc(body: &SpaceObject, x: i16, y: i16) -> (circle: Circle)
    ensures
        circle == disc_of(body@, x, y),
{
    Circle { x, y, radius: body.diameter.portion(1, 2), colour: body.colour, filled: true }
}

impl State {
    /// What to draw for the stars in view: for each its disc, and a ring
    /// round the one under the pointer.
    pub fn render_stars(&self) -> (marks: Vec<Circle>)
        ensures
            marks@ == stars_marks(
                self.galaxy@,
                pointed_sector(self.mouse_xy),
                self.galaxy@.len(),
            ),
    {
        let pointed = sector_under(self.mouse_xy);
        let mut marks: Vec<Circle> = Vec::new();
        let mut i: usize = 0;
        while i < self.galaxy.stars.len()
            invariant
                i <= self.galaxy.stars.len(),
                pointed == pointed_sector(self.mouse_xy),
                marks@ == stars_marks(self.galaxy@, pointed, i as nat),
            decreases self.galaxy.stars.len() - i,
        {
            let star = &self.galaxy.stars[i];
            let ghost before = marks@;
            let x = middle(star.pos.x);
            let y = middle(star.pos.y);
            marks.push(
                Circle { x, y, radius: star.diameter.portion(1, 8), colour: star.colour, filled: true },
            );
            if star.pos.x == pointed.x && star.pos.y == pointed.y {
                marks.push(
                    Circle {
                        x,
                        y,
                        radius: RING_RADIUS,
                        colour: Colour { r: 255, g: 255, b: 255 },
                        filled: false,
                    },
                );
            }
            assert(marks@ =~= before + star_marks(self.galaxy@[i as int], pointed));
            i += 1;
        }
        marks
    }

    /// What to draw for a planet of the selected star.
    pub fn render_planet(planet: &SpaceObject) -> (marks: Vec<Circle>)
        ensures
            marks@ == planet_marks(planet@),
    {
        proof {
            lemma_view_satellites(*planet);
        }
        let x = to_pixel(SELECTED_X as i64 + planet.orbit_radius.portion(1, 2) as i64);
        let mut marks: Vec<Circle> = Vec::new();
        marks.push(disc(planet, x, SELECTED_Y));
        let mut m: usize = 0;
        while m < planet.satellites.len()
            invariant
                m <= planet.satellites.len(),
                x == planet_x(planet@),
                planet@.satellites == bodies(planet.satellites@),
                marks@.len() == 1 + m,
                marks@[0] == disc_of(planet@, x, SELECTED_Y),
                forall|k: int|
                    1 <= k <= m ==> #[trigger] marks@[k] == disc_of(
                        planet@.satellites[k - 1],
                        x,
                        moon_y(planet@.satellites[k - 1]),
                    ),
            decreases planet.satellites.len() - m,
        {
            let moon = &planet.satellites[m];
            let y = to_pixel(SELECTED_Y as i64 + moon.orbit_radius.portion(4, 5) as i64);
            marks.push(disc(moon, x, y));
            m += 1;
        }
        assert(marks@ =~= planet_marks(planet@));
        marks
    }

    /// What to draw for the selected star, if there is one.
    pub fn render_selected_star(&self) -> (marks: Vec<Circle>)
        ensures
            marks@ == match seen(self.selected_star) {
                Some(star) => system_marks(star),
                None => Seq::empty(),
            },
    {
        let mut marks: Vec<Circle> = Vec::new();
        match &self.selected_star {
            Some(star) => {
                proof {
                    lemma_view_satellites(*star);
                }
                marks.push(disc(star, SELECTED_X, SELECTED_Y));
                let mut p: usize = 0;
                while p < star.satellites.len()
                    invariant
                        p <= star.satellites.len(),
                        star@.satellites == bodies(star.satellites@),
                        marks@ == seq![disc_of(star@, SELECTED_X, SELECTED_Y)] + planets_marks(
                            star@.satellites,
                            p as nat,
                        ),
                    decreases star.satellites.len() - p,
                {
                    let ghost before = marks@;
                    let mut planet = Self::render_planet(&star.satellites[p]);
                    marks.append(&mut planet);
                    assert(marks@ =~= seq![disc_of(star@, SELECTED_X, SELECTED_Y)]
                        + planets_marks(star@.satellites, (p + 1) as nat));
                    p += 1;
                }
            },
            None => {},
        }
        marks
    }

    /// All that a frame draws.
    pub fn render(&self) -> (scene: Scene)
        ensures
            scene.stars@ == stars_marks(
                self.galaxy@,
                pointed_sector(self.mouse_xy),
                self.galaxy@.len(),
            ),
            scene.panel == if self.selected_star is Some {
                Some(panel_rect())
            } else {
                None
            },
            scene.selected@ == match seen(self.selected_star) {
                Some(star) => system_marks(star),
                None => Seq::empty(),
            },
    {
        let panel = match &self.selected_star {
            Some(_) => Some(
                Rect { x: 10, y: (HEIGHT / 2) as i32, width: WIDTH - 20, height: HEIGHT / 2 - 10 },
            ),
            None => None,
        };
        Scene { stars: self.render_stars(), panel, selected: self.render_selected_star() }
    }
}

} // verus!
