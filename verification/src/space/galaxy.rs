use crate::point::Point2;
use crate::rng::{counter_after, lemma_seed_alias, low_bits, seed_of, LehmerRnd};
use crate::space::star::{seen, system_at, system_draws, Depth, Star};
use crate::space::{bodies, Body, SpaceObject};
use crate::{SECTOR_SIZE, X_SECTORS, Y_SECTORS};
use vstd::prelude::*;

verus! {

/// The number of pan units in the side of one cell.
pub const UNITS_PER_CELL: i64 = 1_000_000_000;

/// `value / unit`, rounded towards zero.
pub open spec fn truncated(value: int, unit: int) -> int {
    if value >= 0 {
        value / unit
    } else {
        -((-value) / unit)
    }
}

/// `value`, held to the range of a coordinate.
pub open spec fn clamped(value: int) -> i64 {
    if value > i64::MAX {
        i64::MAX
    } else if value < i64::MIN {
        i64::MIN
    } else {
        value as i64
    }
}

/// The cell along one axis that lies under `sector` when the view is panned
/// by `pan` units: their sum in cells, rounded towards zero.
pub open spec fn cell_of(pan: i64, sector: i64) -> i64 {
    clamped(truncated(sector * UNITS_PER_CELL + pan, UNITS_PER_CELL as int))
}

/// The cell that lies under `sector` when the view is panned by `pan`.
pub open spec fn coordinate_of(pan: Point2, sector: Point2) -> Point2 {
    Point2 { x: cell_of(pan.x, sector.x), y: cell_of(pan.y, sector.y) }
}

/// The sector along one axis that holds the pixel `pixel`.
pub open spec fn sector_of(pixel: i64) -> i64 {
    (pixel as int / SECTOR_SIZE as int) as i64
}

/// The sector under a pointer.
pub open spec fn pointed_sector(pointer: Point2) -> Point2 {
    Point2 { x: sector_of(pointer.x), y: sector_of(pointer.y) }
}

/// What the universe holds under `sector` of a view panned by `pan`. It
/// depends on nothing but the cell there; the body carries the sector as its
/// position.
pub open spec fn star_of(pan: Point2, sector: Point2, depth: Depth) -> Option<Body> {
    system_at(seed_of(coordinate_of(pan, sector)), sector, depth)
}

/// The counter that a source is left with by a look at `sector`.
pub open spec fn counter_past(pan: Point2, sector: Point2, depth: Depth) -> i64 {
    counter_after(
        seed_of(coordinate_of(pan, sector)),
        system_draws(seed_of(coordinate_of(pan, sector)), depth),
    )
}

/// The sector with the number `index` in the order of a scan: column by
/// column, and down each column.
pub open spec fn sector_at(index: int) -> Point2 {
    Point2 { x: (index / Y_SECTORS as int) as i64, y: (index % Y_SECTORS as int) as i64 }
}

/// The stars under the first `sectors` sectors of a scan, in its order.
pub open spec fn scanned(pan: Point2, sectors: nat) -> Seq<Body>
    decreases sectors,
{
    if sectors == 0 {
        Seq::empty()
    } else {
        let before = scanned(pan, (sectors - 1) as nat);
        match star_of(pan, sector_at(sectors - 1), Depth::Shallow) {
            Some(star) => before.push(star),
            None => before,
        }
    }
}

/// A view panned by a whole number of cells shows under each sector the
/// cell that many cells further on.
pub proof fn lemma_whole_pan(cells: i64, sector: i64)
    requires
        i64::MIN <= cells * UNITS_PER_CELL <= i64::MAX,
        i64::MIN <= sector + cells <= i64::MAX,
    ensures
        cell_of((cells * UNITS_PER_CELL) as i64, sector) == sector + cells,
{
    let unit = UNITS_PER_CELL as int;
    let sum = sector + cells;
    assert(sector * unit + cells * unit == sum * unit) by (nonlinear_arith)
        requires
            sum == sector + cells,
    ;
    if sum >= 0 {
        vstd::arithmetic::div_mod::lemma_div_multiples_vanish(sum, unit);
    } else {
        vstd::arithmetic::div_mod::lemma_div_multiples_vanish(-sum, unit);
        assert(-(sum * unit) == (-sum) * unit) by (nonlinear_arith);
        assert(sum * unit < 0) by (nonlinear_arith)
            requires
                sum < 0,
                unit > 0,
        ;
    }
}

/// A pan of less than a cell forwards shows under each sector from zero on
/// the cell of the same number; one of less than a cell backwards shows the
/// cell before, but under sector zero still cell zero.
pub proof fn lemma_part_pan(pan: i64, sector: i64)
    requires
        -UNITS_PER_CELL < pan < UNITS_PER_CELL,
        0 <= sector <= 0x7FFF_FFFF,
    ensures
        pan >= 0 ==> cell_of(pan, sector) == sector,
        pan < 0 && sector > 0 ==> cell_of(pan, sector) == sector - 1,
        sector == 0 ==> cell_of(pan, sector) == 0,
{
    let unit = UNITS_PER_CELL as int;
    let sum = sector * unit + pan;
    if pan >= 0 {
        assert(sum == sector * unit + pan);
        vstd::arithmetic::div_mod::lemma_fundamental_div_mod_converse(
            sum,
            unit,
            sector as int,
            pan as int,
        );
    } else if sector > 0 {
        assert(sum == (sector - 1) * unit + (unit + pan)) by (nonlinear_arith)
            requires
                sum == sector * unit + pan,
        ;
        vstd::arithmetic::div_mod::lemma_fundamental_div_mod_converse(
            sum,
            unit,
            sector - 1,
            unit + pan,
        );
        assert(sum >= 0) by (nonlinear_arith)
            requires
                sum == sector * unit + pan,
                sector >= 1,
                -unit < pan,
                unit > 0,
        ;
    } else {
        assert(sum == pan);
        vstd::arithmetic::div_mod::lemma_small_mod((-pan) as nat, unit as nat);
        vstd::arithmetic::div_mod::lemma_fundamental_div_mod(-pan as int, unit);
        assert((-pan) / unit == 0) by (nonlinear_arith)
            requires
                0 < -pan < unit,
        ;
    }
}

/// What a source yields at a cell is decided by the low 16 bits of the
/// cell's coordinates: two cells that agree in them hold the same, at either
/// depth and at the same cost, whatever their higher bits are.
pub proof fn lemma_aliased_cells_hold_the_same(
    first: Point2,
    second: Point2,
    point: Point2,
    depth: Depth,
)
    requires
        low_bits(first.x) == low_bits(second.x),
        low_bits(first.y) == low_bits(second.y),
    ensures
        seed_of(first) == seed_of(second),
        system_at(seed_of(first), point, depth) == system_at(seed_of(second), point, depth),
        system_draws(seed_of(first), depth) == system_draws(seed_of(second), depth),
{
    lemma_seed_alias(first, second);
}

/// Two looks at one sector of views that show the same cell there find the
/// same, whatever either source held before: what a look finds is decided by
/// the cell.
pub proof fn lemma_looks_agree(
    first: Option<SpaceObject>,
    first_pan: Point2,
    second: Option<SpaceObject>,
    second_pan: Point2,
    sector: Point2,
    depth: Depth,
)
    requires
        seen(first) == star_of(first_pan, sector, depth),
        seen(second) == star_of(second_pan, sector, depth),
        coordinate_of(first_pan, sector) == coordinate_of(second_pan, sector),
    ensures
        seen(first) == seen(second),
        first is Some <==> second is Some,
        counter_past(first_pan, sector, depth) == counter_past(second_pan, sector, depth),
{
}

/// A scan finds at most one star under each sector.
pub proof fn lemma_scanned_len(pan: Point2, sectors: nat)
    ensures
        scanned(pan, sectors).len() <= sectors,
    decreases sectors,
{
    if sectors > 0 {
        lemma_scanned_len(pan, (sectors - 1) as nat);
    }
}

/// Every star under one of the first `sectors` sectors is among the stars
/// scanned.
pub proof fn lemma_scanned_holds_every_star(pan: Point2, sectors: nat, index: int)
    requires
        0 <= index < sectors,
        star_of(pan, sector_at(index), Depth::Shallow) is Some,
    ensures
        scanned(pan, sectors).contains(star_of(pan, sector_at(index), Depth::Shallow)->0),
    decreases sectors,
{
    let before = scanned(pan, (sectors - 1) as nat);
    let last = star_of(pan, sector_at(sectors - 1), Depth::Shallow);
    if index == sectors - 1 {
        assert(before.push(last->0)[before.len() as int] == last->0);
    } else {
        lemma_scanned_holds_every_star(pan, (sectors - 1) as nat, index);
        let star = star_of(pan, sector_at(index), Depth::Shallow)->0;
        let at = choose|i: int| 0 <= i < before.len() && before[i] == star;
        if last is Some {
            assert(before.push(last->0)[at] == star);
        }
    }
}

/// Every star scanned is the star under one of the sectors scanned, and
/// stars come in the order of their sectors.
pub proof fn lemma_scanned_holds_only_stars(pan: Point2, sectors: nat, place: int) -> (index: int)
    requires
        0 <= place < scanned(pan, sectors).len(),
    ensures
        0 <= index < sectors,
        star_of(pan, sector_at(index), Depth::Shallow) == Some(scanned(pan, sectors)[place]),
        scanned(pan, sectors)[place].pos == sector_at(index),
        scanned(pan, index as nat).len() == place,
    decreases sectors,
{
    let before = scanned(pan, (sectors - 1) as nat);
    if place < before.len() {
        lemma_scanned_holds_only_stars(pan, (sectors - 1) as nat, place)
    } else {
        sectors - 1
    }
}

/// The cell along one axis under `sector` of a view panned by `pan` units.
pub fn cell(pan: i64, sector: i64) -> (cell: i64)
    ensures
        cell == cell_of(pan, sector),
{
    assert(-0x8000_0000_0000_0000 * 1_000_000_000 <= sector * UNITS_PER_CELL
        <= 0x8000_0000_0000_0000 * 1_000_000_000) by (nonlinear_arith)
        requires
            -0x8000_0000_0000_0000 <= sector < 0x8000_0000_0000_0000,
            UNITS_PER_CELL == 1_000_000_000,
    ;
    let shifted: i128 = sector as i128 * UNITS_PER_CELL as i128;
    let whole: i128 = (shifted + pan as i128) / UNITS_PER_CELL as i128;
    if whole > i64::MAX as i128 {
        i64::MAX
    } else if whole < i64::MIN as i128 {
        i64::MIN
    } else {
        whole as i64
    }
}

/// The sector under a pointer, from its position in pixels.
pub fn sector_under(pointer: Point2) -> (sector: Point2)
    ensures
        sector == pointed_sector(pointer),
{
    let x: i64 = pointer.x >> 4u32;
    let y: i64 = pointer.y >> 4u32;
    proof {
        let px = pointer.x;
        let py = pointer.y;
        assert(px >> 4u32 == px as int / 16) by (bit_vector);
        assert(py >> 4u32 == py as int / 16) by (bit_vector);
    }
    Point2 { x, y }
}

/// The stars in view.
#[derive(Debug)]
pub struct Galaxy {
    pub stars: Vec<SpaceObject>,
}

impl View for Galaxy {
    type V = Seq<Body>;

    open spec fn view(&self) -> Seq<Body> {
        bodies(self.stars@)
    }
}

impl Default for Galaxy {
    fn default() -> (galaxy: Galaxy)
        ensures
            galaxy@ == Seq::<Body>::empty(),
    {
        let galaxy = Galaxy { stars: Vec::new() };
        assert(galaxy@ =~= Seq::<Body>::empty());
        galaxy
    }
}

impl Galaxy {
    /// Looks at one sector of a view panned by `pan`: restarts the source at
    /// the cell there and builds what it yields. The counter that the source
    /// had before plays no part.
    pub fn locate(lehmer: &mut LehmerRnd, pan: Point2, sector: Point2, depth: Depth) -> (system:
        Option<SpaceObject>)
        ensures
            seen(system) == star_of(pan, sector, depth),
            final(lehmer).counter == counter_past(pan, sector, depth),
    {
        let coordinate = Point2 { x: cell(pan.x, sector.x), y: cell(pan.y, sector.y) };
        lehmer.reseed(coordinate);
        Star::generate(lehmer, sector, depth)
    }

    /// Replaces the stars by those under the sectors of a view panned by
    /// `state_pos`, each without its planets, in the order of the scan.
    pub fn update(&mut self, state_pos: Point2, lehmer: &mut LehmerRnd)
        ensures
            final(self)@ == scanned(state_pos, (X_SECTORS * Y_SECTORS) as nat),
            final(lehmer).counter == counter_past(
                state_pos,
                sector_at(X_SECTORS * Y_SECTORS - 1),
                Depth::Shallow,
            ),
    {
        self.stars.clear();
        assert(self@ =~= scanned(state_pos, 0));
        let mut x: u32 = 0;
        while x < X_SECTORS
            invariant
                x <= X_SECTORS,
                X_SECTORS == 50,
                Y_SECTORS == 37,
                self@ == scanned(state_pos, (x * Y_SECTORS) as nat),
                x > 0 ==> lehmer.counter == counter_past(
                    state_pos,
                    sector_at(x * Y_SECTORS - 1),
                    Depth::Shallow,
                ),
            decreases X_SECTORS - x,
        {
            let mut y: u32 = 0;
            while y < Y_SECTORS
                invariant
                    x < X_SECTORS,
                    y <= Y_SECTORS,
                    X_SECTORS == 50,
                    Y_SECTORS == 37,
                    self@ == scanned(state_pos, (x * Y_SECTORS + y) as nat),
                    x * Y_SECTORS + y > 0 ==> lehmer.counter == counter_past(
                        state_pos,
                        sector_at(x * Y_SECTORS + y - 1),
                        Depth::Shallow,
                    ),
                decreases Y_SECTORS - y,
            {
                let ghost index = x * Y_SECTORS + y;
                let ghost before = self@;
                let sector = Point2 { x: x as i64, y: y as i64 };
                assert(sector == sector_at(index));
                match Self::locate(lehmer, state_pos, sector, Depth::Shallow) {
                    Some(star) => {
                        self.stars.push(star);
                        assert(self@ =~= before.push(star@));
                    },
                    None => {},
                }
                y += 1;
            }
            x += 1;
        }
    }

    /// Builds the whole system under a pointer, or finds that no star is
    /// there.
    pub fn resolve_selection(lehmer: &mut LehmerRnd, pointer: Point2, pan: Point2) -> (system:
        Option<SpaceObject>)
        ensures
            seen(system) == star_of(pan, pointed_sector(pointer), Depth::Full),
            final(lehmer).counter == counter_past(pan, pointed_sector(pointer), Depth::Full),
    {
        Self::locate(lehmer, pan, sector_under(pointer), Depth::Full)
    }
}

} // verus!
