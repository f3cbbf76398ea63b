//! The map as the sector specials see it: sectors, their lines and the
//! sides of those lines, held by index; and the searches over the sectors
//! that surround a sector.

use vstd::prelude::*;

use crate::fixed::{FRACUNIT, fixed_t};

verus! {

/// Line flag: the line has a sector on both sides.
pub const ML_TWOSIDED: i16 = 4;

/// Line flag: the line is drawn as one-sided on the automap and monsters
/// never open it.
pub const ML_SECRET: i16 = 32;

/// A sector: a region of the map with one floor and one ceiling height.
#[derive(Debug, Clone, Copy)]
pub struct Sector {
    pub floorheight: fixed_t,
    pub ceilingheight: fixed_t,
    pub floorpic: i16,
    pub ceilingpic: i16,
    pub lightlevel: i16,
    pub special: i16,
    pub tag: i16,
    /// A mover (floor, ceiling, door or platform) is working on the sector.
    pub busy: bool,
}

/// One side of a line: its texture offsets, its three wall textures and the
/// sector it faces.
#[derive(Debug, Clone, Copy)]
pub struct Side {
    /// Added to the texture column (scrolling walls move it).
    pub textureoffset: i32,
    /// Added to the texture row.
    pub rowoffset: i32,
    pub toptexture: i16,
    pub bottomtexture: i16,
    pub midtexture: i16,
    pub sector: usize,
}

/// A line of the map, with the sectors on its two sides.
#[derive(Debug, Clone, Copy)]
pub struct Line {
    pub flags: i16,
    pub special: i16,
    pub tag: i16,
    /// Side numbers; the second is -1 on a one-sided line.
    pub sidenum: [i16; 2],
    pub frontsector: usize,
    pub backsector: Option<usize>,
}

/// The sectors, lines and sides of a map. `sector_lines[s]` lists the
/// lines that bound sector `s`, as indices into `lines`.
pub struct Level {
    pub sectors: Vec<Sector>,
    pub sector_lines: Vec<Vec<usize>>,
    pub lines: Vec<Line>,
    pub sides: Vec<Side>,
}

/// Every index held in the level points at an existing element, and every
/// two-sided line has a back sector.
pub open spec fn level_wf(lv: &Level) -> bool {
    &&& lv.sectors.len() < isize::MAX
    &&& lv.sector_lines.len() == lv.sectors.len()
    &&& forall|s: int, i: int|
        0 <= s < lv.sectors.len() && 0 <= i < lv.sector_lines@[s].len() ==> #[trigger] lv.sector_lines@[s]@[i]
            < lv.lines.len()
    &&& forall|l: int|
        0 <= l < lv.lines.len() ==> #[trigger] lv.lines@[l].frontsector < lv.sectors.len() && (
        lv.lines@[l].backsector matches Some(b) ==> b < lv.sectors.len()) && (two_sided(lv.lines@[l])
            ==> lv.lines@[l].backsector is Some)
    &&& forall|l: int|
        0 <= l < lv.lines.len() ==> 0 <= #[trigger] lv.lines@[l].sidenum[0] < lv.sides.len() && (
        two_sided(lv.lines@[l]) ==> 0 <= lv.lines@[l].sidenum[1] < lv.sides.len())
    &&& forall|d: int| 0 <= d < lv.sides.len() ==> #[trigger] lv.sides@[d].sector < lv.sectors.len()
}

/// The line has a sector on both sides.
pub open spec fn two_sided(l: Line) -> bool {
    l.flags & ML_TWOSIDED != 0
}

/// The sector across line `l` from sector `sec`: none for a one-sided line.
pub open spec fn next_sector(l: Line, sec: int) -> Option<usize> {
    if !two_sided(l) {
        None
    } else if l.frontsector == sec {
        l.backsector
    } else {
        Some(l.frontsector)
    }
}

/// The `i`-th line of sector `s`.
pub open spec fn sector_line(lv: &Level, s: int, i: int) -> Line {
    lv.lines@[lv.sector_lines@[s]@[i] as int]
}

/// The sector across the `i`-th line of sector `s`, if any.
pub open spec fn neighbour(lv: &Level, s: int, i: int) -> Option<usize> {
    next_sector(sector_line(lv, s, i), s)
}

/// Number of lines of sector `s`.
pub open spec fn line_count(lv: &Level, s: int) -> int {
    lv.sector_lines@[s].len() as int
}

/// Floor height of the sector across the `i`-th line of `s` (meaningful
/// where that neighbour exists).
pub open spec fn nb_floor(lv: &Level, s: int, i: int) -> fixed_t {
    lv.sectors@[neighbour(lv, s, i).unwrap() as int].floorheight
}

/// Ceiling height of the sector across the `i`-th line of `s`.
pub open spec fn nb_ceiling(lv: &Level, s: int, i: int) -> fixed_t {
    lv.sectors@[neighbour(lv, s, i).unwrap() as int].ceilingheight
}

/// Light level of the sector across the `i`-th line of `s`.
pub open spec fn nb_light(lv: &Level, s: int, i: int) -> i16 {
    lv.sectors@[neighbour(lv, s, i).unwrap() as int].lightlevel
}

/// `r` is the lowest floor among sector `s` and the sectors around it.
pub open spec fn lowest_floor_is(lv: &Level, s: int, r: int) -> bool {
    &&& r <= lv.sectors@[s].floorheight
    &&& forall|i: int|
        0 <= i < line_count(lv, s) && (#[trigger] neighbour(lv, s, i)) is Some ==> r <= nb_floor(lv, s, i)
    &&& r == lv.sectors@[s].floorheight || exists|i: int|
        0 <= i < line_count(lv, s) && (#[trigger] neighbour(lv, s, i)) is Some && nb_floor(lv, s, i) == r
}

/// `r` is the highest floor among the sectors around `s`, or -500 map units
/// where all of them are lower.
pub open spec fn highest_floor_is(lv: &Level, s: int, r: int) -> bool {
    &&& r >= -500 * FRACUNIT
    &&& forall|i: int|
        0 <= i < line_count(lv, s) && (#[trigger] neighbour(lv, s, i)) is Some ==> r >= nb_floor(lv, s, i)
    &&& r == -500 * FRACUNIT || exists|i: int|
        0 <= i < line_count(lv, s) && (#[trigger] neighbour(lv, s, i)) is Some && nb_floor(lv, s, i) == r
}

/// `r` is the lowest ceiling among the sectors around `s`, or the largest
/// fixed-point value where there is none.
pub open spec fn lowest_ceiling_is(lv: &Level, s: int, r: int) -> bool {
    &&& forall|i: int|
        0 <= i < line_count(lv, s) && (#[trigger] neighbour(lv, s, i)) is Some ==> r <= nb_ceiling(lv, s, i)
    &&& r == i32::MAX || exists|i: int|
        0 <= i < line_count(lv, s) && (#[trigger] neighbour(lv, s, i)) is Some && nb_ceiling(lv, s, i) == r
}

/// `r` is the highest ceiling among the sectors around `s`, or 0 where all
/// of them are lower.
pub open spec fn highest_ceiling_is(lv: &Level, s: int, r: int) -> bool {
    &&& r >= 0
    &&& forall|i: int|
        0 <= i < line_count(lv, s) && (#[trigger] neighbour(lv, s, i)) is Some ==> r >= nb_ceiling(lv, s, i)
    &&& r == 0 || exists|i: int|
        0 <= i < line_count(lv, s) && (#[trigger] neighbour(lv, s, i)) is Some && nb_ceiling(lv, s, i) == r
}

/// `r` is the lowest light level among `max` and the sectors around `s`.
pub open spec fn min_light_is(lv: &Level, s: int, max: int, r: int) -> bool {
    &&& r <= max
    &&& forall|i: int|
        0 <= i < line_count(lv, s) && (#[trigger] neighbour(lv, s, i)) is Some ==> r <= nb_light(lv, s, i)
    &&& r == max || exists|i: int|
        0 <= i < line_count(lv, s) && (#[trigger] neighbour(lv, s, i)) is Some && nb_light(lv, s, i) == r
}

/// Two levels with the same lines and the same light levels.
pub open spec fn same_lights(a: &Level, b: &Level) -> bool {
    &&& a.lines@ == b.lines@
    &&& a.sector_lines@ == b.sector_lines@
    &&& a.sectors.len() == b.sectors.len()
    &&& forall|k: int| 0 <= k < a.sectors.len() ==> #[trigger] a.sectors@[k].lightlevel == b.sectors@[k].lightlevel
}

/// Two levels with the same lines and the same ceiling heights.
pub open spec fn same_ceilings(a: &Level, b: &Level) -> bool {
    &&& a.lines@ == b.lines@
    &&& a.sector_lines@ == b.sector_lines@
    &&& a.sectors.len() == b.sectors.len()
    &&& forall|k: int|
        0 <= k < a.sectors.len() ==> #[trigger] a.sectors@[k].ceilingheight == b.sectors@[k].ceilingheight
}

/// The darkest light around a sector depends only on the lines and the
/// light levels.
pub proof fn lemma_min_light_frame(a: &Level, b: &Level, s: int, max: int, r: int)
    requires
        level_wf(a),
        same_lights(a, b),
        0 <= s < a.sectors.len(),
    ensures
        min_light_is(a, s, max, r) == min_light_is(b, s, max, r),
{
    assert forall|i: int| 0 <= i < line_count(a, s) implies #[trigger] neighbour(a, s, i) == neighbour(b, s, i) && (
    neighbour(a, s, i) is Some ==> nb_light(a, s, i) == nb_light(b, s, i)) by {
        assert(a.sector_lines@[s]@[i] < a.lines.len());
        assert(sector_line(a, s, i) == sector_line(b, s, i));
        if neighbour(a, s, i) is Some {
            let o = neighbour(a, s, i).unwrap();
            let l = a.sector_lines@[s]@[i] as int;
            assert(a.lines@[l].frontsector < a.sectors.len());
            assert(o < a.sectors.len());
            assert(a.sectors@[o as int].lightlevel == b.sectors@[o as int].lightlevel);
        }
    }
    assert(line_count(a, s) == line_count(b, s));
    if min_light_is(a, s, max, r) {
        assert forall|i: int| 0 <= i < line_count(b, s) && (#[trigger] neighbour(b, s, i)) is Some implies r <= nb_light(b, s, i) by {
            assert(neighbour(a, s, i) == neighbour(b, s, i));
        }
        if !(r == max) {
            let i = choose|i: int| 0 <= i < line_count(a, s) && (#[trigger] neighbour(a, s, i)) is Some && nb_light(a, s, i) == r;
            assert(neighbour(b, s, i) is Some && nb_light(b, s, i) == r);
        }
    }
    if min_light_is(b, s, max, r) {
        assert forall|i: int| 0 <= i < line_count(a, s) && (#[trigger] neighbour(a, s, i)) is Some implies r <= nb_light(a, s, i) by {
            assert(neighbour(b, s, i) == neighbour(a, s, i));
        }
        if !(r == max) {
            let i = choose|i: int| 0 <= i < line_count(b, s) && (#[trigger] neighbour(b, s, i)) is Some && nb_light(b, s, i) == r;
            assert(neighbour(a, s, i) == neighbour(b, s, i));
            assert(neighbour(a, s, i) is Some && nb_light(a, s, i) == r);
        }
    }
}

/// The lowest ceiling around a sector depends only on the lines and the
/// ceiling heights.
pub proof fn lemma_lowest_ceiling_frame(a: &Level, b: &Level, s: int, r: int)
    requires
        level_wf(a),
        same_ceilings(a, b),
        0 <= s < a.sectors.len(),
    ensures
        lowest_ceiling_is(a, s, r) == lowest_ceiling_is(b, s, r),
{
    assert forall|i: int| 0 <= i < line_count(a, s) implies #[trigger] neighbour(a, s, i) == neighbour(b, s, i) && (
    neighbour(a, s, i) is Some ==> nb_ceiling(a, s, i) == nb_ceiling(b, s, i)) by {
        assert(a.sector_lines@[s]@[i] < a.lines.len());
        assert(sector_line(a, s, i) == sector_line(b, s, i));
        if neighbour(a, s, i) is Some {
            let o = neighbour(a, s, i).unwrap();
            let l = a.sector_lines@[s]@[i] as int;
            assert(a.lines@[l].frontsector < a.sectors.len());
            assert(o < a.sectors.len());
            assert(a.sectors@[o as int].ceilingheight == b.sectors@[o as int].ceilingheight);
        }
    }
    assert(line_count(a, s) == line_count(b, s));
    if lowest_ceiling_is(a, s, r) {
        assert forall|i: int| 0 <= i < line_count(b, s) && (#[trigger] neighbour(b, s, i)) is Some implies r <= nb_ceiling(b, s, i) by {
            assert(neighbour(a, s, i) == neighbour(b, s, i));
        }
        if !(r == i32::MAX) {
            let i = choose|i: int| 0 <= i < line_count(a, s) && (#[trigger] neighbour(a, s, i)) is Some && nb_ceiling(a, s, i) == r;
            assert(neighbour(b, s, i) is Some && nb_ceiling(b, s, i) == r);
        }
    }
    if lowest_ceiling_is(b, s, r) {
        assert forall|i: int| 0 <= i < line_count(a, s) && (#[trigger] neighbour(a, s, i)) is Some implies r <= nb_ceiling(a, s, i) by {
            assert(neighbour(b, s, i) == neighbour(a, s, i));
        }
        if !(r == i32::MAX) {
            let i = choose|i: int| 0 <= i < line_count(b, s) && (#[trigger] neighbour(b, s, i)) is Some && nb_ceiling(b, s, i) == r;
            assert(neighbour(a, s, i) == neighbour(b, s, i));
            assert(neighbour(a, s, i) is Some && nb_ceiling(a, s, i) == r);
        }
    }
}

/// Whether the line is two-sided.
pub fn line_is_two_sided(l: &Line) -> (r: bool)
    ensures
        r == two_sided(*l),
{
    l.flags & ML_TWOSIDED != 0
}

/// The side numbered `side` (0 front, 1 back) of the `line`-th line of
/// sector `sector`; the line must have that side.
pub fn getSide(lv: &Level, sector: usize, line: usize, side: usize) -> (r: &Side)
    requires
        sector < lv.sector_lines.len(),
        line < lv.sector_lines@[sector as int].len(),
        lv.sector_lines@[sector as int]@[line as int] < lv.lines.len(),
        side < 2,
        0 <= sector_line(lv, sector as int, line as int).sidenum[side as int] < lv.sides.len(),
    ensures
        *r == lv.sides@[sector_line(lv, sector as int, line as int).sidenum[side as int] as int],
{
    let l = lv.sector_lines[sector][line];
    let d = lv.lines[l].sidenum[side] as usize;
    &lv.sides[d]
}

/// The sector that side `side` of the `line`-th line of sector `sector`
/// faces (see `getSide`).
pub fn getSector(lv: &Level, sector: usize, line: usize, side: usize) -> (r: usize)
    requires
        sector < lv.sector_lines.len(),
        line < lv.sector_lines@[sector as int].len(),
        lv.sector_lines@[sector as int]@[line as int] < lv.lines.len(),
        side < 2,
        0 <= sector_line(lv, sector as int, line as int).sidenum[side as int] < lv.sides.len(),
    ensures
        r == lv.sides@[sector_line(lv, sector as int, line as int).sidenum[side as int] as int].sector,
{
    getSide(lv, sector, line, side).sector
}

/// Whether the `line`-th line of sector `sector` is two-sided.
pub fn twoSided(lv: &Level, sector: usize, line: usize) -> (r: bool)
    requires
        level_wf(lv),
        sector < lv.sectors.len(),
        line < lv.sector_lines@[sector as int].len(),
    ensures
        r == two_sided(sector_line(lv, sector as int, line as int)),
{
    let l = lv.sector_lines[sector][line];
    line_is_two_sided(&lv.lines[l])
}

/// The sector on the other side of line `line` from sector `sec`; none if
/// the line is one-sided.
pub fn getNextSector(lv: &Level, line: usize, sec: usize) -> (r: Option<usize>)
    requires
        level_wf(lv),
        line < lv.lines.len(),
    ensures
        r == next_sector(lv.lines@[line as int], sec as int),
        r matches Some(o) ==> o < lv.sectors.len(),
{
    let l = &lv.lines[line];
    if !line_is_two_sided(l) {
        return None;
    }
    if l.frontsector == sec {
        l.backsector
    } else {
        Some(l.frontsector)
    }
}

/// The sector across the `i`-th line of sector `s`.
fn neighbour_of(lv: &Level, s: usize, i: usize) -> (r: Option<usize>)
    requires
        level_wf(lv),
        s < lv.sectors.len(),
        i < lv.sector_lines@[s as int].len(),
    ensures
        r == neighbour(lv, s as int, i as int),
        r matches Some(o) ==> o < lv.sectors.len(),
{
    let l = lv.sector_lines[s][i];
    getNextSector(lv, l, s)
}

/// The lowest floor among the sector and the sectors around it.
pub fn P_FindLowestFloorSurrounding(lv: &Level, sec: usize) -> (r: fixed_t)
    requires
        level_wf(lv),
        sec < lv.sectors.len(),
    ensures
        lowest_floor_is(lv, sec as int, r as int),
{
    let mut floor = lv.sectors[sec].floorheight;
    let n = lv.sector_lines[sec].len();
    let mut i: usize = 0;
    while i < n
        invariant
            level_wf(lv),
            sec < lv.sectors.len(),
            n == line_count(lv, sec as int),
            i <= n,
            floor <= lv.sectors@[sec as int].floorheight,
            forall|j: int|
                0 <= j < i && (#[trigger] neighbour(lv, sec as int, j)) is Some ==> floor <= nb_floor(
                    lv,
                    sec as int,
                    j,
                ),
            floor == lv.sectors@[sec as int].floorheight || exists|j: int|
                0 <= j < i && (#[trigger] neighbour(lv, sec as int, j)) is Some && nb_floor(
                    lv,
                    sec as int,
                    j,
                ) == floor,
        decreases n - i,
    {
        match neighbour_of(lv, sec, i) {
            Some(o) => {
                if lv.sectors[o].floorheight < floor {
                    floor = lv.sectors[o].floorheight;
                }
            },
            None => {},
        }
        i += 1;
    }
    floor
}

/// The highest floor among the sectors around the sector, starting from
/// -500 map units.
pub fn P_FindHighestFloorSurrounding(lv: &Level, sec: usize) -> (r: fixed_t)
    requires
        level_wf(lv),
        sec < lv.sectors.len(),
    ensures
        highest_floor_is(lv, sec as int, r as int),
{
    let mut floor: fixed_t = -500 * FRACUNIT;
    let n = lv.sector_lines[sec].len();
    let mut i: usize = 0;
    while i < n
        invariant
            level_wf(lv),
            sec < lv.sectors.len(),
            n == line_count(lv, sec as int),
            i <= n,
            floor >= -500 * FRACUNIT,
            forall|j: int|
                0 <= j < i && (#[trigger] neighbour(lv, sec as int, j)) is Some ==> floor >= nb_floor(
                    lv,
                    sec as int,
                    j,
                ),
            floor == -500 * FRACUNIT || exists|j: int|
                0 <= j < i && (#[trigger] neighbour(lv, sec as int, j)) is Some && nb_floor(
                    lv,
                    sec as int,
                    j,
                ) == floor,
        decreases n - i,
    {
        match neighbour_of(lv, sec, i) {
            Some(o) => {
                if lv.sectors[o].floorheight > floor {
                    floor = lv.sectors[o].floorheight;
                }
            },
            None => {},
        }
        i += 1;
    }
    floor
}

/// The lowest ceiling among the sectors around the sector, starting from
/// the largest fixed-point value.
pub fn P_FindLowestCeilingSurrounding(lv: &Level, sec: usize) -> (r: fixed_t)
    requires
        level_wf(lv),
        sec < lv.sectors.len(),
    ensures
        lowest_ceiling_is(lv, sec as int, r as int),
{
    let mut height: fixed_t = i32::MAX;
    let n = lv.sector_lines[sec].len();
    let mut i: usize = 0;
    while i < n
        invariant
            level_wf(lv),
            sec < lv.sectors.len(),
            n == line_count(lv, sec as int),
            i <= n,
            forall|j: int|
                0 <= j < i && (#[trigger] neighbour(lv, sec as int, j)) is Some ==> height
                    <= nb_ceiling(lv, sec as int, j),
            height == i32::MAX || exists|j: int|
                0 <= j < i && (#[trigger] neighbour(lv, sec as int, j)) is Some && nb_ceiling(
                    lv,
                    sec as int,
                    j,
                ) == height,
        decreases n - i,
    {
        match neighbour_of(lv, sec, i) {
            Some(o) => {
                if lv.sectors[o].ceilingheight < height {
                    height = lv.sectors[o].ceilingheight;
                }
            },
            None => {},
        }
        i += 1;
    }
    height
}

/// The highest ceiling among the sectors around the sector, starting from 0.
pub fn P_FindHighestCeilingSurrounding(lv: &Level, sec: usize) -> (r: fixed_t)
    requires
        level_wf(lv),
        sec < lv.sectors.len(),
    ensures
        highest_ceiling_is(lv, sec as int, r as int),
{
    let mut height: fixed_t = 0;
    let n = lv.sector_lines[sec].len();
    let mut i: usize = 0;
    while i < n
        invariant
            level_wf(lv),
            sec < lv.sectors.len(),
            n == line_count(lv, sec as int),
            i <= n,
            height >= 0,
            forall|j: int|
                0 <= j < i && (#[trigger] neighbour(lv, sec as int, j)) is Some ==> height
                    >= nb_ceiling(lv, sec as int, j),
            height == 0 || exists|j: int|
                0 <= j < i && (#[trigger] neighbour(lv, sec as int, j)) is Some && nb_ceiling(
                    lv,
                    sec as int,
                    j,
                ) == height,
        decreases n - i,
    {
        match neighbour_of(lv, sec, i) {
            Some(o) => {
                if lv.sectors[o].ceilingheight > height {
                    height = lv.sectors[o].ceilingheight;
                }
            },
            None => {},
        }
        i += 1;
    }
    height
}

/// The lowest light level among `max` and the sectors around the sector.
pub fn P_FindMinSurroundingLight(lv: &Level, sec: usize, max: i32) -> (r: i32)
    requires
        level_wf(lv),
        sec < lv.sectors.len(),
    ensures
        min_light_is(lv, sec as int, max as int, r as int),
{
    let mut min: i32 = max;
    let n = lv.sector_lines[sec].len();
    let mut i: usize = 0;
    while i < n
        invariant
            level_wf(lv),
            sec < lv.sectors.len(),
            n == line_count(lv, sec as int),
            i <= n,
            min <= max,
            forall|j: int|
                0 <= j < i && (#[trigger] neighbour(lv, sec as int, j)) is Some ==> min <= nb_light(
                    lv,
                    sec as int,
                    j,
                ),
            min == max || exists|j: int|
                0 <= j < i && (#[trigger] neighbour(lv, sec as int, j)) is Some && nb_light(
                    lv,
                    sec as int,
                    j,
                ) == min,
        decreases n - i,
    {
        match neighbour_of(lv, sec, i) {
            Some(o) => {
                let light = lv.sectors[o].lightlevel as i32;
                if light < min {
                    min = light;
                }
            },
            None => {},
        }
        i += 1;
    }
    min
}

/// Sector `j` gets a mover from a line action with tag `tag`: it carries
/// the tag and no mover is working on it yet.
pub open spec fn claims(lv: &Level, tag: i16, j: int) -> bool {
    0 <= j < lv.sectors.len() && lv.sectors@[j].tag == tag && !lv.sectors@[j].busy
}

/// How many of the first `n` sectors a line action with tag `tag` takes.
pub open spec fn claim_count(lv: &Level, tag: i16, n: int) -> nat
    decreases n,
{
    if n <= 0 {
        0
    } else {
        claim_count(lv, tag, n - 1) + if claims(lv, tag, n - 1) {
            1nat
        } else {
            0nat
        }
    }
}

proof fn lemma_claim_count_skip(lv: &Level, tag: i16, a: int, b: int)
    requires
        0 <= a <= b,
        forall|j: int| a <= j < b ==> !#[trigger] claims(lv, tag, j),
    ensures
        claim_count(lv, tag, b) == claim_count(lv, tag, a),
    decreases b - a,
{
    if a < b {
        lemma_claim_count_skip(lv, tag, a, b - 1);
    }
}

/// The sectors that a line action with the line's tag takes: those that
/// carry the tag and have no mover yet, in index order.
pub fn find_free_tagged(lv: &Level, line: &Line) -> (r: Vec<usize>)
    requires
        level_wf(lv),
    ensures
        forall|k: int| 0 <= k < r.len() ==> claims(lv, line.tag, #[trigger] r@[k] as int),
        forall|k1: int, k2: int| 0 <= k1 < k2 < r.len() ==> r@[k1] < r@[k2],
        forall|j: int| claims(lv, line.tag, j) ==> #[trigger] r@.contains(j as usize),
        r.len() == claim_count(lv, line.tag, lv.sectors.len() as int),
{
    let mut found: Vec<usize> = Vec::new();
    let mut secnum: isize = -1;
    loop
        invariant
            level_wf(lv),
            -1 <= secnum < lv.sectors.len(),
            forall|k: int|
                0 <= k < found.len() ==> claims(lv, line.tag, #[trigger] found@[k] as int) && found@[k]
                    <= secnum,
            forall|k1: int, k2: int| 0 <= k1 < k2 < found.len() ==> found@[k1] < found@[k2],
            forall|j: int| 0 <= j <= secnum && claims(lv, line.tag, j) ==> #[trigger] found@.contains(j as usize),
            found.len() == claim_count(lv, line.tag, secnum + 1),
        ensures
            found.len() == claim_count(lv, line.tag, lv.sectors.len() as int),
            forall|k: int| 0 <= k < found.len() ==> claims(lv, line.tag, #[trigger] found@[k] as int),
            forall|k1: int, k2: int| 0 <= k1 < k2 < found.len() ==> found@[k1] < found@[k2],
            forall|j: int| claims(lv, line.tag, j) ==> #[trigger] found@.contains(j as usize),
        decreases lv.sectors.len() - secnum,
    {
        let next = P_FindSectorFromLineTag(lv, line, secnum);
        if next == -1 {
            assert forall|j: int| claims(lv, line.tag, j) implies #[trigger] found@.contains(j as usize) by {
                if j > secnum {
                    assert(lv.sectors@[j].tag != line.tag);
                }
            }
            proof {
                assert forall|j: int| secnum + 1 <= j < lv.sectors.len() implies !#[trigger] claims(lv, line.tag, j) by {
                    assert(lv.sectors@[j].tag != line.tag);
                }
                lemma_claim_count_skip(lv, line.tag, secnum + 1, lv.sectors.len() as int);
            }
            break;
        }
        let s = next as usize;
        let ghost before = found@;
        proof {
            assert forall|j: int| secnum + 1 <= j < next implies !#[trigger] claims(lv, line.tag, j) by {
                assert(lv.sectors@[j].tag != line.tag);
            }
            lemma_claim_count_skip(lv, line.tag, secnum + 1, next as int);
        }
        if !lv.sectors[s].busy {
            found.push(s);
            proof {
                assert(found@[found.len() - 1] == s);
                assert forall|j: int| 0 <= j <= next && claims(lv, line.tag, j) implies #[trigger] found@.contains(j as usize) by {
                    if j < next {
                        if j <= secnum {
                            assert(before.contains(j as usize));
                            let kk = choose|kk: int| 0 <= kk < before.len() && #[trigger] before[kk] == j as usize;
                            assert(found@[kk] == j as usize);
                        } else {
                            assert(lv.sectors@[j].tag != line.tag);
                        }
                    } else {
                        assert(found@[found.len() - 1] == j as usize);
                    }
                }
            }
        } else {
            assert forall|j: int| 0 <= j <= next && claims(lv, line.tag, j) implies #[trigger] found@.contains(j as usize) by {
                if j > secnum && j < next {
                    assert(lv.sectors@[j].tag != line.tag);
                }
            }
        }
        secnum = next;
    }
    found
}

/// Marks the listed sectors as having a mover.
pub fn mark_busy(lv: &mut Level, idx: &Vec<usize>)
    requires
        forall|k: int| 0 <= k < idx.len() ==> #[trigger] idx@[k] < old(lv).sectors.len(),
    ensures
        final(lv).lines@ == old(lv).lines@,
        final(lv).sides@ == old(lv).sides@,
        final(lv).sector_lines@ == old(lv).sector_lines@,
        final(lv).sectors.len() == old(lv).sectors.len(),
        forall|j: int|
            0 <= j < old(lv).sectors.len() ==> #[trigger] final(lv).sectors@[j] == if idx@.contains(
                j as usize,
            ) {
                Sector { busy: true, ..old(lv).sectors@[j] }
            } else {
                old(lv).sectors@[j]
            },
{
    let n = idx.len();
    let mut k: usize = 0;
    while k < n
        invariant
            n == idx.len(),
            k <= n,
            forall|kk: int| 0 <= kk < idx.len() ==> #[trigger] idx@[kk] < old(lv).sectors.len(),
            lv.lines@ == old(lv).lines@,
            lv.sides@ == old(lv).sides@,
            lv.sector_lines@ == old(lv).sector_lines@,
            lv.sectors.len() == old(lv).sectors.len(),
            forall|j: int|
                0 <= j < old(lv).sectors.len() ==> #[trigger] lv.sectors@[j] == if idx@.take(
                    k as int,
                ).contains(j as usize) {
                    Sector { busy: true, ..old(lv).sectors@[j] }
                } else {
                    old(lv).sectors@[j]
                },
        decreases n - k,
    {
        let s = idx[k];
        let mut sec = lv.sectors[s];
        sec.busy = true;
        lv.sectors.set(s, sec);
        proof {
            assert forall|j: int| 0 <= j < old(lv).sectors.len() implies #[trigger] lv.sectors@[j] == if idx@.take(
                k + 1,
            ).contains(j as usize) {
                Sector { busy: true, ..old(lv).sectors@[j] }
            } else {
                old(lv).sectors@[j]
            } by {
                if j == s as int {
                    assert(idx@.take(k + 1)[k as int] == s);
                } else {
                    if idx@.take(k + 1).contains(j as usize) {
                        let i = choose|i: int| 0 <= i < k + 1 && #[trigger] idx@.take(k + 1)[i] == j as usize;
                        assert(idx@.take(k as int)[i] == j as usize);
                    }
                    if idx@.take(k as int).contains(j as usize) {
                        let i = choose|i: int| 0 <= i < k && #[trigger] idx@.take(k as int)[i] == j as usize;
                        assert(idx@.take(k + 1)[i] == j as usize);
                    }
                }
            }
        }
        k += 1;
    }
    assert(idx@.take(n as int) =~= idx@);
}

/// At most this many heights are gathered by the next-highest-floor search.
pub const MAX_ADJOINING_SECTORS: usize = 20;

/// The neighbour across the `i`-th line of `s` exists and has a floor above
/// `cur`.
pub open spec fn higher_neighbour(lv: &Level, s: int, i: int, cur: int) -> bool {
    neighbour(lv, s, i) is Some && nb_floor(lv, s, i) > cur
}

/// How many of the first `n` lines of `s` lead to a floor above `cur`.
pub open spec fn higher_count(lv: &Level, s: int, cur: int, n: int) -> int
    decreases n,
{
    if n <= 0 {
        0
    } else {
        higher_count(lv, s, cur, n - 1) + if higher_neighbour(lv, s, n - 1, cur) {
            1int
        } else {
            0int
        }
    }
}

/// The `i`-th line of `s` is among those the search looks at: it leads to a
/// floor above `cur`, and fewer than the limit of such lines come before it.
pub open spec fn gathered(lv: &Level, s: int, i: int, cur: int) -> bool {
    0 <= i < line_count(lv, s) && higher_neighbour(lv, s, i, cur) && higher_count(lv, s, cur, i)
        < MAX_ADJOINING_SECTORS
}

/// `r` is the lowest floor above `cur` among the gathered neighbours of
/// `s`, or `cur` where none is gathered.
pub open spec fn next_highest_floor_is(lv: &Level, s: int, cur: int, r: int) -> bool {
    &&& (forall|i: int| !#[trigger] gathered(lv, s, i, cur)) ==> r == cur
    &&& (exists|i: int| #[trigger] gathered(lv, s, i, cur)) ==> {
        &&& exists|i: int| #[trigger] gathered(lv, s, i, cur) && nb_floor(lv, s, i) == r
        &&& forall|i: int| #[trigger] gathered(lv, s, i, cur) ==> r <= nb_floor(lv, s, i)
    }
}

proof fn lemma_higher_count_step(lv: &Level, s: int, cur: int, n: int)
    requires
        n >= 0,
    ensures
        higher_count(lv, s, cur, n + 1) == higher_count(lv, s, cur, n) + if higher_neighbour(
            lv,
            s,
            n,
            cur,
        ) {
            1int
        } else {
            0int
        },
        higher_count(lv, s, cur, n) >= 0,
    decreases n,
{
    if n > 0 {
        lemma_higher_count_step(lv, s, cur, n - 1);
    }
}

proof fn lemma_higher_count_mono(lv: &Level, s: int, cur: int, a: int, b: int)
    requires
        0 <= a <= b,
    ensures
        higher_count(lv, s, cur, a) <= higher_count(lv, s, cur, b),
    decreases b - a,
{
    if a < b {
        lemma_higher_count_step(lv, s, cur, b - 1);
        lemma_higher_count_mono(lv, s, cur, a, b - 1);
    }
}

/// The lowest floor above `currentheight` among the sectors around the
/// sector, looking at no more than the first twenty such neighbours in line
/// order; `currentheight` itself where there is none.
pub fn P_FindNextHighestFloor(lv: &Level, sec: usize, currentheight: fixed_t) -> (r: fixed_t)
    requires
        level_wf(lv),
        sec < lv.sectors.len(),
    ensures
        next_highest_floor_is(lv, sec as int, currentheight as int, r as int),
        r >= currentheight,
{
    let ghost s = sec as int;
    let ghost cur = currentheight as int;
    let n = lv.sector_lines[sec].len();
    let mut h: usize = 0;
    let mut min: fixed_t = 0;
    let mut i: usize = 0;
    while i < n
        invariant_except_break
            i <= n,
            h == higher_count(lv, s, cur, i as int),
            h < MAX_ADJOINING_SECTORS,
        invariant
            level_wf(lv),
            sec < lv.sectors.len(),
            s == sec,
            cur == currentheight,
            n == line_count(lv, s),
            h <= MAX_ADJOINING_SECTORS,
            h == 0 <==> forall|j: int|
                0 <= j < i && #[trigger] gathered(lv, s, j, cur) ==> false,
            h > 0 ==> exists|j: int|
                0 <= j < i && #[trigger] gathered(lv, s, j, cur) && nb_floor(lv, s, j) == min,
            forall|j: int| 0 <= j < i && #[trigger] gathered(lv, s, j, cur) ==> min <= nb_floor(lv, s, j),
        ensures
            h == 0 <==> forall|j: int| #[trigger] gathered(lv, s, j, cur) ==> false,
            h > 0 ==> exists|j: int|
                #[trigger] gathered(lv, s, j, cur) && nb_floor(lv, s, j) == min,
            forall|j: int| #[trigger] gathered(lv, s, j, cur) ==> min <= nb_floor(lv, s, j),
        decreases n - i,
    {
        proof {
            lemma_higher_count_step(lv, s, cur, i as int);
        }
        match neighbour_of(lv, sec, i) {
            Some(o) => {
                let f = lv.sectors[o].floorheight;
                if f > currentheight {
                    assert(gathered(lv, s, i as int, cur));
                    if h == 0 || f < min {
                        min = f;
                    }
                    h += 1;
                }
            },
            None => {},
        }
        i += 1;
        if h >= MAX_ADJOINING_SECTORS {
            proof {
                assert forall|j: int| #[trigger] gathered(lv, s, j, cur) implies j < i by {
                    if j >= i {
                        lemma_higher_count_mono(lv, s, cur, i as int, j);
                    }
                }
            }
            break;
        }
    }
    if h == 0 {
        return currentheight;
    }
    min
}

/// The first sector after `start` (in index order) whose tag is the line's
/// tag, or -1.
pub fn P_FindSectorFromLineTag(lv: &Level, line: &Line, start: isize) -> (r: isize)
    requires
        level_wf(lv),
        start < isize::MAX,
    ensures
        r == -1 || (((start + 1) as usize) <= r < lv.sectors.len() && lv.sectors@[r as int].tag
            == line.tag),
        forall|j: int|
            ((start + 1) as usize) <= j < lv.sectors.len() && (r == -1 || j < r) ==> #[trigger] lv.sectors@[j].tag
                != line.tag,
{
    let n = lv.sectors.len();
    let mut i: usize = (start + 1) as usize;
    while i < n
        invariant
            level_wf(lv),
            n == lv.sectors.len(),
            ((start + 1) as usize) <= i,
            forall|j: int| ((start + 1) as usize) <= j < i ==> #[trigger] lv.sectors@[j].tag != line.tag,
        decreases n - i,
    {
        if lv.sectors[i].tag == line.tag {
            return i as isize;
        }
        i += 1;
    }
    -1
}

} // verus!
