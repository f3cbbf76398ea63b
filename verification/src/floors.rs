//! Moving floors: one tic of a moving plane, the floor mover that drives
//! it, and the line action that sets floor movers going in tagged sectors.

use vstd::prelude::*;

use crate::fixed::{FRACUNIT, fixed_t};
use crate::level::{
    Level, Line, P_FindHighestFloorSurrounding, claims, P_FindLowestCeilingSurrounding,
    P_FindLowestFloorSurrounding, P_FindNextHighestFloor, P_FindSectorFromLineTag, Sector,
    highest_floor_is, level_wf, line_count, line_is_two_sided, lowest_ceiling_is, lowest_floor_is,
    neighbour, next_highest_floor_is, sector_line, two_sided,
};

verus! {

/// Kinds of floor movement.
#[derive(Debug, Clone, Copy, PartialEq, Eq, Structural)]
pub enum floor_e {
    /// Lower floor to highest surrounding floor.
    lowerFloor,
    /// Lower floor to lowest surrounding floor.
    lowerFloorToLowest,
    /// Lower floor to highest surrounding floor, very fast.
    turboLower,
    /// Raise floor to lowest surrounding ceiling.
    raiseFloor,
    /// Raise floor to next highest surrounding floor.
    raiseFloorToNearest,
    /// Raise floor to shortest height texture around it.
    raiseToTexture,
    /// Lower floor to lowest surrounding floor and change floorpic.
    lowerAndChange,
    raiseFloor24,
    raiseFloor24AndChange,
    raiseFloorCrush,
    /// Raise to next highest floor, turbo speed.
    raiseFloorTurbo,
    donutRaise,
    raiseFloor512,
}

/// Kinds of staircase.
#[derive(Debug, Clone, Copy, PartialEq, Eq, Structural)]
pub enum stair_e {
    /// Slowly build by 8.
    build8,
    /// Quickly build by 16.
    turbo16,
}

/// What one tic of a moving plane came to.
#[derive(Debug, Clone, Copy, PartialEq, Eq, Structural)]
pub enum result_e {
    ok,
    crushed,
    pastdest,
}

/// Normal floor speed: one map unit per tic.
pub const FLOORSPEED: fixed_t = 65536;

/// A floor mover working on one sector.
#[derive(Debug, Clone, Copy)]
pub struct floormove_t {
    pub ty: floor_e,
    pub crush: bool,
    pub sector: usize,
    /// 1 = up, -1 = down.
    pub direction: i32,
    /// Special the sector takes on arrival (donut and change movers).
    pub newspecial: i16,
    /// Floor texture the sector takes on arrival (donut and change movers).
    pub texture: i16,
    pub floordestheight: fixed_t,
    pub speed: fixed_t,
}

/// The plane a mover drives: 0 for the floor, 1 for the ceiling.
pub open spec fn plane_height(s: Sector, plane: int) -> int {
    if plane == 0 {
        s.floorheight as int
    } else {
        s.ceilingheight as int
    }
}

/// This tic's step would carry the plane past its destination.
pub open spec fn reaches_dest(s: Sector, speed: int, dest: int, plane: int, direction: int) -> bool {
    (direction == -1 && plane_height(s, plane) - speed < dest) || (direction == 1 && plane_height(
        s,
        plane,
    ) + speed > dest)
}

/// Where the plane is put this tic before anything is checked: the
/// destination if the step would pass it, else one step further.
pub open spec fn plane_target(s: Sector, speed: int, dest: int, plane: int, direction: int) -> int {
    if reaches_dest(s, speed, dest, plane, direction) {
        dest
    } else {
        plane_height(s, plane) + direction * speed
    }
}

/// A crushing floor going up, or a crushing ceiling going down, stays where
/// it moved to even when things are in the way.
pub open spec fn keeps_crushing(crush: bool, plane: int, direction: int) -> bool {
    crush && ((plane == 0 && direction == 1) || (plane == 1 && direction == -1))
}

/// A ceiling rising short of its destination ignores what is in its way.
pub open spec fn ignores_block(plane: int, direction: int) -> bool {
    plane == 1 && direction == 1
}

/// Whether the plane goes back to where it was this tic, given that the
/// things in the sector did (`crunched`) or did not fit at the target.
pub open spec fn plane_restored(
    s: Sector,
    speed: int,
    dest: int,
    crush: bool,
    plane: int,
    direction: int,
    crunched: bool,
) -> bool {
    if direction != 1 && direction != -1 {
        false
    } else if reaches_dest(s, speed, dest, plane, direction) {
        crunched
    } else {
        crunched && !ignores_block(plane, direction) && !keeps_crushing(crush, plane, direction)
    }
}

/// The outcome of one tic of a moving plane.
pub open spec fn plane_result(
    s: Sector,
    speed: int,
    dest: int,
    plane: int,
    direction: int,
    crunched: bool,
) -> result_e {
    if direction != 1 && direction != -1 {
        result_e::ok
    } else if reaches_dest(s, speed, dest, plane, direction) {
        result_e::pastdest
    } else if crunched && !ignores_block(plane, direction) {
        result_e::crushed
    } else {
        result_e::ok
    }
}

/// The step and the target fit in a fixed-point value.
pub open spec fn plane_step_fits(s: Sector, speed: int, dest: int, plane: int) -> bool {
    &&& i32::MIN <= plane_height(s, plane) - speed <= i32::MAX
    &&& i32::MIN <= plane_height(s, plane) + speed <= i32::MAX
}

/// What a tic of a moving plane tells its mover.
#[derive(Debug, Clone, Copy, PartialEq, Eq, Structural)]
pub struct PlaneMove {
    pub result: result_e,
    /// The plane went back to where it was, so the things in the sector
    /// must be fitted to it again.
    pub recheck: bool,
}

/// Where a moving plane goes this tic if nothing is in the way, for a
/// direction of 1 (up) or -1 (down).
pub fn plane_goal(sector: &Sector, speed: fixed_t, dest: fixed_t, plane: i32, direction: i32) -> (r:
    fixed_t)
    requires
        plane == 0 || plane == 1,
        direction == 1 || direction == -1,
        plane_step_fits(*sector, speed as int, dest as int, plane as int),
    ensures
        r == plane_target(*sector, speed as int, dest as int, plane as int, direction as int),
{
    let h = if plane == 0 {
        sector.floorheight
    } else {
        sector.ceilingheight
    };
    if direction == -1 {
        if h - speed < dest {
            dest
        } else {
            h - speed
        }
    } else {
        if h + speed > dest {
            dest
        } else {
            h + speed
        }
    }
}

/// Sets the driven plane of a sector to `h`.
fn set_plane(sector: &mut Sector, plane: i32, h: fixed_t)
    ensures
        plane == 0 ==> *final(sector) == (Sector { floorheight: h, ..*old(sector) }),
        plane != 0 ==> *final(sector) == (Sector { ceilingheight: h, ..*old(sector) }),
{
    if plane == 0 {
        sector.floorheight = h;
    } else {
        sector.ceilingheight = h;
    }
}

/// One tic of a moving floor (`plane` 0) or ceiling (`plane` 1), going up
/// (`direction` 1) or down (-1) at `speed` towards `dest`.
///
/// `crunched` is what fitting the sector's things to the plane at its
/// target height (`plane_goal`) reported: that something did not fit. The
/// plane goes back when a thing is in the way, unless it is crushing
/// upwards (floor) or downwards (ceiling), or a ceiling rising short of its
/// destination; `recheck` asks to fit the things again after it went back.
pub fn T_MovePlane(
    sector: &mut Sector,
    speed: fixed_t,
    dest: fixed_t,
    crush: bool,
    floorOrCeiling: i32,
    direction: i32,
    crunched: bool,
) -> (r: PlaneMove)
    requires
        floorOrCeiling == 0 || floorOrCeiling == 1,
        floorOrCeiling == 1 ==> direction == 1 || direction == -1,
        plane_step_fits(*old(sector), speed as int, dest as int, floorOrCeiling as int),
    ensures
        r.result == plane_result(
            *old(sector),
            speed as int,
            dest as int,
            floorOrCeiling as int,
            direction as int,
            crunched,
        ),
        r.recheck == plane_restored(
            *old(sector),
            speed as int,
            dest as int,
            crush,
            floorOrCeiling as int,
            direction as int,
            crunched,
        ),
        (direction != 1 && direction != -1) || r.recheck ==> *final(sector) == *old(sector),
        (direction == 1 || direction == -1) && !r.recheck ==> {
            let t = plane_target(
                *old(sector),
                speed as int,
                dest as int,
                floorOrCeiling as int,
                direction as int,
            );
            &&& floorOrCeiling == 0 ==> *final(sector) == (Sector {
                floorheight: t as i32,
                ..*old(sector)
            })
            &&& floorOrCeiling == 1 ==> *final(sector) == (Sector {
                ceilingheight: t as i32,
                ..*old(sector)
            })
        },
{
    if direction != 1 && direction != -1 {
        return PlaneMove { result: result_e::ok, recheck: false };
    }
    let target = plane_goal(sector, speed, dest, floorOrCeiling, direction);
    let reached = if direction == -1 {
        let h = if floorOrCeiling == 0 {
            sector.floorheight
        } else {
            sector.ceilingheight
        };
        h - speed < dest
    } else {
        let h = if floorOrCeiling == 0 {
            sector.floorheight
        } else {
            sector.ceilingheight
        };
        h + speed > dest
    };
    if reached {
        if crunched {
            return PlaneMove { result: result_e::pastdest, recheck: true };
        }
        set_plane(sector, floorOrCeiling, target);
        return PlaneMove { result: result_e::pastdest, recheck: false };
    }
    if floorOrCeiling == 1 && direction == 1 {
        set_plane(sector, floorOrCeiling, target);
        return PlaneMove { result: result_e::ok, recheck: false };
    }
    if !crunched {
        set_plane(sector, floorOrCeiling, target);
        return PlaneMove { result: result_e::ok, recheck: false };
    }
    let keeps = crush && ((floorOrCeiling == 0 && direction == 1) || (floorOrCeiling == 1
        && direction == -1));
    if keeps {
        set_plane(sector, floorOrCeiling, target);
        PlaneMove { result: result_e::crushed, recheck: false }
    } else {
        PlaneMove { result: result_e::crushed, recheck: true }
    }
}

/// A moving plane never passes its destination: going towards `dest`, the
/// plane ends the tic between where it was and `dest`, whatever is in the
/// way.
pub proof fn lemma_plane_never_overshoots(
    s: Sector,
    speed: int,
    dest: int,
    crush: bool,
    plane: int,
    direction: int,
    crunched: bool,
)
    requires
        speed >= 0,
        direction == 1 ==> plane_height(s, plane) <= dest,
        direction == -1 ==> plane_height(s, plane) >= dest,
    ensures
        ({
            let h = plane_height(s, plane);
            let after = if (direction != 1 && direction != -1) || plane_restored(
                s,
                speed,
                dest,
                crush,
                plane,
                direction,
                crunched,
            ) {
                h
            } else {
                plane_target(s, speed, dest, plane, direction)
            };
            &&& direction == 1 ==> h <= after <= dest
            &&& direction == -1 ==> dest <= after <= h
        }),
{
}

/// A plane that reports arrival stands at its destination, unless the
/// things in the sector did not fit there and it went back.
pub proof fn lemma_pastdest_means_arrived(
    s: Sector,
    speed: int,
    dest: int,
    crush: bool,
    plane: int,
    direction: int,
    crunched: bool,
)
    requires
        plane_result(s, speed, dest, plane, direction, crunched) == result_e::pastdest,
        !plane_restored(s, speed, dest, crush, plane, direction, crunched),
    ensures
        plane_target(s, speed, dest, plane, direction) == dest,
{
}

/// One tic of a moving plane, in heights: it arrives exactly when a full
/// step would reach or pass its destination, and then stands at the
/// destination unless something did not fit; with nothing in the way it
/// moves freely (a full step, or onto the destination) and reports no
/// crushing; a plain step moves it by exactly its speed; a floor going
/// down, or a floor going up that does not crush, goes back where it was
/// when something is in the way; a crushing ceiling coming down keeps
/// coming down; a ceiling going up is never held back short of its
/// destination.
pub proof fn lemma_plane_step(s: Sector, speed: int, dest: int, crush: bool, plane: int, direction: int, crunched: bool)
    requires
        plane == 0 || plane == 1,
        direction == 1 || direction == -1,
    ensures
        ({
            let h = plane_height(s, plane);
            let result = plane_result(s, speed, dest, plane, direction, crunched);
            let back = plane_restored(s, speed, dest, crush, plane, direction, crunched);
            let after = if back { h } else { plane_target(s, speed, dest, plane, direction) };
            &&& (result == result_e::pastdest) == (if direction == 1 { h + speed > dest } else { h - speed < dest })
            &&& result == result_e::pastdest && !crunched ==> after == dest
            &&& result == result_e::ok ==> after == h + direction * speed
            &&& !crunched ==> result != result_e::crushed && !back
            &&& crunched && result != result_e::pastdest && plane == 0 && (direction == -1 || !crush) ==> {
                &&& result == result_e::crushed
                &&& after == h
            }
            &&& crunched && result != result_e::pastdest && plane == 1 && direction == -1 && crush ==> {
                &&& result == result_e::crushed
                &&& after == h - speed
            }
            &&& plane == 1 && direction == 1 ==> result != result_e::crushed
        }),
{
}

/// What a floor mover did in one tic.
#[derive(Debug, Clone, Copy, PartialEq, Eq, Structural)]
pub struct FloorTick {
    pub plane: PlaneMove,
    /// The grinding sound of a moving floor plays this tic.
    pub move_sound: bool,
    /// The floor arrived: the mover is done and the stop sound plays.
    pub done: bool,
}

/// The sector once the floor mover `f` has arrived: free again, and for a
/// donut rising or a floor lowering with a change, with the mover's texture
/// and special.
pub open spec fn arrived_sector(f: floormove_t, s: Sector) -> Sector {
    if (f.direction == 1 && f.ty == floor_e::donutRaise) || (f.direction == -1 && f.ty
        == floor_e::lowerAndChange) {
        Sector { busy: false, special: f.newspecial, floorpic: f.texture, ..s }
    } else {
        Sector { busy: false, ..s }
    }
}

/// One tic of a floor mover: moves the floor (see `T_MovePlane`, whose
/// `crunched` argument this passes on), plays the moving sound every eighth
/// tic, and on arrival frees the sector and applies the mover's texture and
/// special where its kind calls for it.
pub fn T_MoveFloor(floor: &floormove_t, sector: &mut Sector, crunched: bool, leveltime: i32) -> (r:
    FloorTick)
    requires
        plane_step_fits(*old(sector), floor.speed as int, floor.floordestheight as int, 0),
    ensures
        r.plane.result == plane_result(
            *old(sector),
            floor.speed as int,
            floor.floordestheight as int,
            0,
            floor.direction as int,
            crunched,
        ),
        r.plane.recheck == plane_restored(
            *old(sector),
            floor.speed as int,
            floor.floordestheight as int,
            floor.crush,
            0,
            floor.direction as int,
            crunched,
        ),
        r.move_sound == (leveltime & 7 == 0),
        r.done == (r.plane.result == result_e::pastdest),
        ({
            let moved = if (floor.direction != 1 && floor.direction != -1) || r.plane.recheck {
                *old(sector)
            } else {
                Sector {
                    floorheight: plane_target(
                        *old(sector),
                        floor.speed as int,
                        floor.floordestheight as int,
                        0,
                        floor.direction as int,
                    ) as i32,
                    ..*old(sector)
                }
            };
            *final(sector) == if r.done {
                arrived_sector(*floor, moved)
            } else {
                moved
            }
        }),
{
    let plane = T_MovePlane(
        sector,
        floor.speed,
        floor.floordestheight,
        floor.crush,
        0,
        floor.direction,
        crunched,
    );
    let move_sound = leveltime & 7 == 0;
    if plane.result == result_e::pastdest {
        sector.busy = false;
        if (floor.direction == 1 && floor.ty == floor_e::donutRaise) || (floor.direction == -1
            && floor.ty == floor_e::lowerAndChange) {
            sector.special = floor.newspecial;
            sector.floorpic = floor.texture;
        }
        return FloorTick { plane, move_sound, done: true };
    }
    FloorTick { plane, move_sound, done: false }
}

/// The smallest of `m` and the height of the bottom texture of side `d`,
/// where that side has one.
pub open spec fn side_tex_min(lv: &Level, th: Seq<i32>, d: int, m: int) -> int {
    let b = lv.sides@[d].bottomtexture;
    if b >= 0 && th[b as int] < m {
        th[b as int] as int
    } else {
        m
    }
}

/// The smallest bottom texture height on both sides of the two-sided lines
/// among the first `n` lines of sector `s`; the largest fixed-point value
/// where there is none.
pub open spec fn tex_min(lv: &Level, th: Seq<i32>, s: int, n: int) -> int
    decreases n,
{
    if n <= 0 {
        i32::MAX as int
    } else {
        let m = tex_min(lv, th, s, n - 1);
        let l = sector_line(lv, s, n - 1);
        if two_sided(l) {
            side_tex_min(lv, th, l.sidenum[1] as int, side_tex_min(lv, th, l.sidenum[0] as int, m))
        } else {
            m
        }
    }
}

/// Every bottom texture of the level has a height in `th`.
pub open spec fn textures_wf(lv: &Level, th: Seq<i32>) -> bool {
    forall|d: int| 0 <= d < lv.sides.len() ==> #[trigger] lv.sides@[d].bottomtexture < th.len()
}

/// The sector on the far side of the `i`-th line of `s`, found through the
/// line's sides: the back side's sector when the front side faces `s`.
pub open spec fn change_source(lv: &Level, s: int, i: int) -> int {
    let l = sector_line(lv, s, i);
    if lv.sides@[l.sidenum[0] as int].sector == s {
        lv.sides@[l.sidenum[1] as int].sector as int
    } else {
        lv.sides@[l.sidenum[0] as int].sector as int
    }
}

/// The `i`-th line of `s` is two-sided and its far sector's floor is at
/// `dest`.
pub open spec fn change_match(lv: &Level, s: int, i: int, dest: int) -> bool {
    0 <= i < line_count(lv, s) && two_sided(sector_line(lv, s, i))
        && lv.sectors@[change_source(lv, s, i)].floorheight == dest
}

/// `(texture, special)` that a floor lowering to `dest` with a change takes
/// on: those of the far sector of the first matching line, else the
/// sector's own floor texture and no special.
pub open spec fn change_is(lv: &Level, s: int, dest: int, texture: i16, special: i16) -> bool {
    if exists|i: int| #[trigger] change_match(lv, s, i, dest) {
        exists|i: int|
            #[trigger] change_match(lv, s, i, dest) && (forall|j: int|
                0 <= j < i ==> !#[trigger] change_match(lv, s, j, dest)) && texture
                == lv.sectors@[change_source(lv, s, i)].floorpic && special
                == lv.sectors@[change_source(lv, s, i)].special
    } else {
        texture == lv.sectors@[s].floorpic && special == 0
    }
}

/// The arithmetic of a floor mover of kind `ty` in sector `s` stays within
/// fixed-point range.
pub open spec fn floor_fits(lv: &Level, s: int, ty: floor_e, th: Seq<i32>) -> bool {
    let sec = lv.sectors@[s];
    match ty {
        floor_e::turboLower => forall|i: int|
            0 <= i < line_count(lv, s) && (#[trigger] crate::level::neighbour(lv, s, i)) is Some
                ==> crate::level::nb_floor(lv, s, i) <= i32::MAX - 8 * FRACUNIT,
        floor_e::raiseFloorCrush => sec.ceilingheight >= i32::MIN + 8 * FRACUNIT && forall|i: int|
            0 <= i < line_count(lv, s) && (#[trigger] crate::level::neighbour(lv, s, i)) is Some
                ==> crate::level::nb_ceiling(lv, s, i) >= i32::MIN + 8 * FRACUNIT,
        floor_e::raiseFloor24 | floor_e::raiseFloor24AndChange => sec.floorheight <= i32::MAX - 24
            * FRACUNIT,
        floor_e::raiseFloor512 => sec.floorheight <= i32::MAX - 512 * FRACUNIT,
        floor_e::raiseToTexture => i32::MIN <= sec.floorheight + tex_min(
            lv,
            th,
            s,
            line_count(lv, s),
        ) <= i32::MAX,
        _ => true,
    }
}

/// `m` is the floor mover that a line action of kind `ty` starts in sector
/// `s`.
pub open spec fn floor_move_is(lv: &Level, s: int, ty: floor_e, th: Seq<i32>, m: floormove_t) -> bool {
    let sec = lv.sectors@[s];
    let d = m.floordestheight as int;
    &&& m.ty == ty
    &&& m.sector == s
    &&& m.crush == (ty == floor_e::raiseFloorCrush)
    &&& ty != floor_e::lowerAndChange ==> m.texture == 0 && m.newspecial == 0
    &&& match ty {
        floor_e::lowerFloor => m.direction == -1 && m.speed == FLOORSPEED && highest_floor_is(
            lv,
            s,
            d,
        ),
        floor_e::lowerFloorToLowest => m.direction == -1 && m.speed == FLOORSPEED
            && lowest_floor_is(lv, s, d),
        floor_e::turboLower => m.direction == -1 && m.speed == 4 * FLOORSPEED && exists|h: int|
            #[trigger] highest_floor_is(lv, s, h) && d == if h != sec.floorheight {
                h + 8 * FRACUNIT
            } else {
                h
            },
        floor_e::raiseFloor | floor_e::raiseFloorCrush => m.direction == 1 && m.speed == FLOORSPEED
            && exists|c: int|
            #[trigger] lowest_ceiling_is(lv, s, c) && d == (if c > sec.ceilingheight {
                sec.ceilingheight as int
            } else {
                c
            }) - if ty == floor_e::raiseFloorCrush {
                8 * FRACUNIT
            } else {
                0
            },
        floor_e::raiseFloorTurbo => m.direction == 1 && m.speed == 4 * FLOORSPEED
            && next_highest_floor_is(lv, s, sec.floorheight as int, d),
        floor_e::raiseFloorToNearest => m.direction == 1 && m.speed == FLOORSPEED
            && next_highest_floor_is(lv, s, sec.floorheight as int, d),
        floor_e::raiseFloor24 | floor_e::raiseFloor24AndChange => m.direction == 1 && m.speed
            == FLOORSPEED && d == sec.floorheight + 24 * FRACUNIT,
        floor_e::raiseFloor512 => m.direction == 1 && m.speed == FLOORSPEED && d == sec.floorheight
            + 512 * FRACUNIT,
        floor_e::raiseToTexture => m.direction == 1 && m.speed == FLOORSPEED && d == sec.floorheight
            + tex_min(lv, th, s, line_count(lv, s)),
        floor_e::lowerAndChange => m.direction == -1 && m.speed == FLOORSPEED && lowest_floor_is(
            lv,
            s,
            d,
        ) && change_is(lv, s, d, m.texture, m.newspecial),
        floor_e::donutRaise => false,
    }
}

/// The smallest bottom texture height on the two-sided lines around the
/// sector (see `tex_min`).
fn min_bottom_texture(lv: &Level, sec: usize, textureheight: &Vec<i32>) -> (r: i32)
    requires
        level_wf(lv),
        sec < lv.sectors.len(),
        textures_wf(lv, textureheight@),
    ensures
        r == tex_min(lv, textureheight@, sec as int, line_count(lv, sec as int)),
{
    let n = lv.sector_lines[sec].len();
    let mut minsize: i32 = i32::MAX;
    let mut i: usize = 0;
    while i < n
        invariant
            level_wf(lv),
            sec < lv.sectors.len(),
            textures_wf(lv, textureheight@),
            n == line_count(lv, sec as int),
            i <= n,
            minsize == tex_min(lv, textureheight@, sec as int, i as int),
        decreases n - i,
    {
        let l = lv.sector_lines[sec][i];
        let line = &lv.lines[l];
        if line_is_two_sided(line) {
            let d0 = line.sidenum[0] as usize;
            let b0 = lv.sides[d0].bottomtexture;
            if b0 >= 0 && textureheight[b0 as usize] < minsize {
                minsize = textureheight[b0 as usize];
            }
            let d1 = line.sidenum[1] as usize;
            let b1 = lv.sides[d1].bottomtexture;
            if b1 >= 0 && textureheight[b1 as usize] < minsize {
                minsize = textureheight[b1 as usize];
            }
        }
        i += 1;
    }
    minsize
}

/// The texture and special a floor lowering to `dest` with a change takes
/// on (see `change_is`).
fn change_texture(lv: &Level, sec: usize, dest: fixed_t) -> (r: (i16, i16))
    requires
        level_wf(lv),
        sec < lv.sectors.len(),
    ensures
        change_is(lv, sec as int, dest as int, r.0, r.1),
{
    let n = lv.sector_lines[sec].len();
    let mut i: usize = 0;
    while i < n
        invariant
            level_wf(lv),
            sec < lv.sectors.len(),
            n == line_count(lv, sec as int),
            i <= n,
            forall|j: int| 0 <= j < i ==> !#[trigger] change_match(lv, sec as int, j, dest as int),
        decreases n - i,
    {
        let l = lv.sector_lines[sec][i];
        let line = &lv.lines[l];
        if line_is_two_sided(line) {
            let d0 = line.sidenum[0] as usize;
            let other = if lv.sides[d0].sector == sec {
                lv.sides[line.sidenum[1] as usize].sector
            } else {
                lv.sides[d0].sector
            };
            if lv.sectors[other].floorheight == dest {
                assert(change_match(lv, sec as int, i as int, dest as int));
                return (lv.sectors[other].floorpic, lv.sectors[other].special);
            }
        }
        assert(!change_match(lv, sec as int, i as int, dest as int));
        i += 1;
    }
    (lv.sectors[sec].floorpic, 0)
}

/// The floor mover that a line action of kind `floortype` starts in sector
/// `sec`.
pub fn floor_move_for(lv: &Level, sec: usize, floortype: floor_e, textureheight: &Vec<i32>) -> (r:
    floormove_t)
    requires
        level_wf(lv),
        sec < lv.sectors.len(),
        textures_wf(lv, textureheight@),
        floortype != floor_e::donutRaise,
        floor_fits(lv, sec as int, floortype, textureheight@),
    ensures
        floor_move_is(lv, sec as int, floortype, textureheight@, r),
{
    let s = lv.sectors[sec];
    let mut m = floormove_t {
        ty: floortype,
        crush: false,
        sector: sec,
        direction: 1,
        newspecial: 0,
        texture: 0,
        floordestheight: s.floorheight,
        speed: FLOORSPEED,
    };
    match floortype {
        floor_e::lowerFloor => {
            m.direction = -1;
            m.floordestheight = P_FindHighestFloorSurrounding(lv, sec);
        },
        floor_e::lowerFloorToLowest => {
            m.direction = -1;
            m.floordestheight = P_FindLowestFloorSurrounding(lv, sec);
        },
        floor_e::turboLower => {
            m.direction = -1;
            m.speed = FLOORSPEED * 4;
            let h = P_FindHighestFloorSurrounding(lv, sec);
            if h != s.floorheight {
                proof {
                    if h != -500 * FRACUNIT {
                        let i = choose|i: int|
                            0 <= i < line_count(lv, sec as int) && (#[trigger] crate::level::neighbour(
                                lv,
                                sec as int,
                                i,
                            )) is Some && crate::level::nb_floor(lv, sec as int, i) == h;
                        assert(crate::level::neighbour(lv, sec as int, i) is Some);
                    }
                }
                m.floordestheight = h + 8 * FRACUNIT;
            } else {
                m.floordestheight = h;
            }
        },
        floor_e::raiseFloorCrush | floor_e::raiseFloor => {
            if floortype == floor_e::raiseFloorCrush {
                m.crush = true;
            }
            let c = P_FindLowestCeilingSurrounding(lv, sec);
            let top = if c > s.ceilingheight {
                s.ceilingheight
            } else {
                c
            };
            if floortype == floor_e::raiseFloorCrush {
                proof {
                    if c != i32::MAX && c <= s.ceilingheight {
                        let i = choose|i: int|
                            0 <= i < line_count(lv, sec as int) && (#[trigger] crate::level::neighbour(
                                lv,
                                sec as int,
                                i,
                            )) is Some && crate::level::nb_ceiling(lv, sec as int, i) == c;
                        assert(crate::level::neighbour(lv, sec as int, i) is Some);
                    }
                }
                m.floordestheight = top - 8 * FRACUNIT;
            } else {
                m.floordestheight = top;
            }
        },
        floor_e::raiseFloorTurbo => {
            m.speed = FLOORSPEED * 4;
            m.floordestheight = P_FindNextHighestFloor(lv, sec, s.floorheight);
        },
        floor_e::raiseFloorToNearest => {
            m.floordestheight = P_FindNextHighestFloor(lv, sec, s.floorheight);
        },
        floor_e::raiseFloor24 | floor_e::raiseFloor24AndChange => {
            m.floordestheight = s.floorheight + 24 * FRACUNIT;
        },
        floor_e::raiseFloor512 => {
            m.floordestheight = s.floorheight + 512 * FRACUNIT;
        },
        floor_e::raiseToTexture => {
            let minsize = min_bottom_texture(lv, sec, textureheight);
            m.floordestheight = s.floorheight + minsize;
        },
        floor_e::lowerAndChange => {
            m.direction = -1;
            let d = P_FindLowestFloorSurrounding(lv, sec);
            m.floordestheight = d;
            let (t, sp) = change_texture(lv, sec, d);
            m.texture = t;
            m.newspecial = sp;
        },
        floor_e::donutRaise => {},
    }
    m
}

/// A sector once a floor mover of kind `ty`, started from a line whose
/// front sector is `front`, has taken it: busy, and for a raise by 24 with
/// a change, with the front sector's floor texture and special.
pub open spec fn floor_claimed(s: Sector, ty: floor_e, front: Sector) -> Sector {
    if ty == floor_e::raiseFloor24AndChange {
        Sector { busy: true, floorpic: front.floorpic, special: front.special, ..s }
    } else {
        Sector { busy: true, ..s }
    }
}

/// The first `k` movers of `ms` include one for sector `j`.
pub open spec fn covered(ms: Seq<floormove_t>, k: int, j: int) -> bool {
    exists|kk: int| 0 <= kk < k && #[trigger] ms[kk].sector == j
}

/// What `EV_DoFloor` does: `lv0` becomes `lv1`, and `r` are the floors it starts.
pub open spec fn floor_done(lv0: &Level, lv1: &Level, line: Line, floortype: floor_e, textureheight: Seq<i32>, r: Seq<floormove_t>) -> bool {
    &&& (lv1.lines@ == lv0.lines@)
    &&& (lv1.sides@ == lv0.sides@)
    &&& (lv1.sector_lines@ == lv0.sector_lines@)
    &&& (lv1.sectors.len() == lv0.sectors.len())
    &&& (forall|j: int|
            0 <= j < lv0.sectors.len() ==> #[trigger] lv1.sectors@[j] == if claims(
                lv0,
                line.tag,
                j,
            ) {
                floor_claimed(
                    lv0.sectors@[j],
                    floortype,
                    lv0.sectors@[line.frontsector as int],
                )
            } else {
                lv0.sectors@[j]
            })
    &&& (forall|k: int|
            0 <= k < r.len() ==> claims(lv0, line.tag, #[trigger] r[k].sector as int)
                && floor_move_is(lv0, r[k].sector as int, floortype, textureheight, r[k]))
    &&& (forall|k1: int, k2: int| 0 <= k1 < k2 < r.len() ==> r[k1].sector < r[k2].sector)
    &&& (forall|j: int| claims(lv0, line.tag, j) ==> #[trigger] covered(r, r.len() as int, j))
    &&& (forall|j: int| !#[trigger] claims(lv1, line.tag, j))
}

/// Starts a floor mover of kind `floortype` in every sector that carries
/// the line's tag and has no mover yet, and returns the movers in sector
/// order. A line action succeeded if and only if the list is not empty.
pub fn EV_DoFloor(lv: &mut Level, line: &Line, floortype: floor_e, textureheight: &Vec<i32>) -> (r:
    Vec<floormove_t>)
    requires
        level_wf(old(lv)),
        line.frontsector < old(lv).sectors.len(),
        textures_wf(old(lv), textureheight@),
        floortype != floor_e::donutRaise,
        forall|j: int|
            0 <= j < old(lv).sectors.len() && #[trigger] old(lv).sectors@[j].tag == line.tag
                ==> floor_fits(old(lv), j, floortype, textureheight@),
    ensures
        floor_done(old(lv), final(lv), *line, floortype, textureheight@, r@),

{
    let mut moves: Vec<floormove_t> = Vec::new();
    let mut secnum: isize = -1;
    loop
        invariant
            level_wf(lv),
            *lv == *old(lv),
            line.frontsector < lv.sectors.len(),
            textures_wf(lv, textureheight@),
            floortype != floor_e::donutRaise,
            forall|j: int|
                0 <= j < lv.sectors.len() && #[trigger] lv.sectors@[j].tag == line.tag
                    ==> floor_fits(lv, j, floortype, textureheight@),
            -1 <= secnum < lv.sectors.len(),
            forall|k: int|
                0 <= k < moves.len() ==> claims(lv, line.tag, #[trigger] moves@[k].sector as int)
                    && moves@[k].sector <= secnum && floor_move_is(
                    lv,
                    moves@[k].sector as int,
                    floortype,
                    textureheight@,
                    moves@[k],
                ),
            forall|k1: int, k2: int|
                0 <= k1 < k2 < moves.len() ==> moves@[k1].sector < moves@[k2].sector,
            forall|j: int|
                0 <= j <= secnum && claims(lv, line.tag, j) ==> #[trigger] covered(
                    moves@,
                    moves.len() as int,
                    j,
                ),
        ensures
            forall|k: int|
                0 <= k < moves.len() ==> claims(lv, line.tag, #[trigger] moves@[k].sector as int)
                    && floor_move_is(
                    lv,
                    moves@[k].sector as int,
                    floortype,
                    textureheight@,
                    moves@[k],
                ),
            forall|k1: int, k2: int|
                0 <= k1 < k2 < moves.len() ==> moves@[k1].sector < moves@[k2].sector,
            forall|j: int| claims(lv, line.tag, j) ==> #[trigger] covered(moves@, moves.len() as int, j),
        decreases lv.sectors.len() - secnum,
    {
        let found = P_FindSectorFromLineTag(lv, line, secnum);
        if found == -1 {
            assert forall|j: int| claims(lv, line.tag, j) implies #[trigger] covered(
                moves@,
                moves.len() as int,
                j,
            ) by {
                if j > secnum {
                    assert(lv.sectors@[j].tag != line.tag);
                }
            }
            break;
        }
        let s = found as usize;
        let ghost before = moves@;
        let ghost before_len = moves.len() as int;
        if !lv.sectors[s].busy {
            let m = floor_move_for(lv, s, floortype, textureheight);
            moves.push(m);
            proof {
                assert(moves@[moves.len() - 1].sector == s);
                assert forall|j: int| 0 <= j <= found && claims(lv, line.tag, j) implies #[trigger] covered(
                    moves@,
                    moves.len() as int,
                    j,
                ) by {
                    if j < found {
                        if j <= secnum {
                            assert(covered(before, before_len, j));
                            let kk = choose|kk: int|
                                0 <= kk < before.len() && #[trigger] before[kk].sector == j;
                            assert(moves@[kk].sector == j);
                        } else {
                            assert(lv.sectors@[j].tag != line.tag);
                        }
                    } else {
                        assert(moves@[moves.len() - 1].sector == j);
                    }
                }
            }
        } else {
            assert forall|j: int| 0 <= j <= found && claims(lv, line.tag, j) implies #[trigger] covered(
                moves@,
                moves.len() as int,
                j,
            ) by {
                if j > secnum && j < found {
                    assert(lv.sectors@[j].tag != line.tag);
                }
            }
        }
        secnum = found;
    }
    let front = lv.sectors[line.frontsector];
    let ghost old_sectors = lv.sectors@;
    let n = moves.len();
    let mut k: usize = 0;
    while k < n
        invariant
            n == moves.len(),
            k <= n,
            lv.lines@ == old(lv).lines@,
            lv.sides@ == old(lv).sides@,
            lv.sector_lines@ == old(lv).sector_lines@,
            old_sectors == old(lv).sectors@,
            front == old_sectors[line.frontsector as int],
            lv.sectors.len() == old_sectors.len(),
            forall|kk: int|
                0 <= kk < moves.len() ==> claims(old(lv), line.tag, #[trigger] moves@[kk].sector as int),
            forall|k1: int, k2: int|
                0 <= k1 < k2 < moves.len() ==> moves@[k1].sector < moves@[k2].sector,
            forall|j: int|
                0 <= j < old_sectors.len() ==> #[trigger] lv.sectors@[j] == if covered(
                    moves@,
                    k as int,
                    j,
                ) {
                    floor_claimed(old_sectors[j], floortype, front)
                } else {
                    old_sectors[j]
                },
        decreases n - k,
    {
        let s = moves[k].sector;
        proof {
            assert(!covered(moves@, k as int, s as int));
        }
        let mut sec = lv.sectors[s];
        sec.busy = true;
        if floortype == floor_e::raiseFloor24AndChange {
            sec.floorpic = front.floorpic;
            sec.special = front.special;
        }
        lv.sectors.set(s, sec);
        proof {
            assert forall|j: int| 0 <= j < old_sectors.len() implies #[trigger] lv.sectors@[j] == if covered(
                moves@,
                k + 1,
                j,
            ) {
                floor_claimed(old_sectors[j], floortype, front)
            } else {
                old_sectors[j]
            } by {
                if j == s {
                    assert(moves@[k as int].sector == j);
                } else {
                    if covered(moves@, k + 1, j) {
                        let kk = choose|kk: int| 0 <= kk < k + 1 && #[trigger] moves@[kk].sector == j;
                        assert(kk != k);
                        assert(covered(moves@, k as int, j));
                    }
                    if covered(moves@, k as int, j) {
                        let kk = choose|kk: int| 0 <= kk < k && #[trigger] moves@[kk].sector == j;
                        assert(covered(moves@, k + 1, j));
                    }
                }
            }
        }
        k += 1;
    }
    proof {
        assert forall|j: int| 0 <= j < old_sectors.len() implies covered(moves@, n as int, j) == claims(
            old(lv),
            line.tag,
            j,
        ) by {
            if covered(moves@, n as int, j) {
                let kk = choose|kk: int| 0 <= kk < n && #[trigger] moves@[kk].sector == j;
            }
        }
    }
    moves
}

/// The `i`-th line of the ring `s2` around the donut hole `s1` leads out of
/// the ring: it is two-sided and its back is not the hole.
pub open spec fn donut_outer_line(lv: &Level, s1: int, s2: int, i: int) -> bool {
    0 <= i < line_count(lv, s2) && two_sided(sector_line(lv, s2, i)) && sector_line(lv, s2, i).backsector
        != Some(s1 as usize)
}

/// The sector outside the ring `s2`: the back of its first line (from the
/// `i`-th on) that leads out of the ring.
pub open spec fn donut_outer(lv: &Level, s1: int, s2: int, i: int) -> Option<usize>
    decreases line_count(lv, s2) - i,
{
    if i < 0 || i >= line_count(lv, s2) {
        None
    } else if donut_outer_line(lv, s1, s2, i) {
        sector_line(lv, s2, i).backsector
    } else {
        donut_outer(lv, s1, s2, i + 1)
    }
}

/// The two floor movers of a donut: the ring `s2` rises to the outer
/// sector `s3`'s floor and takes its texture, the hole `s1` lowers to it,
/// both at half speed.
pub open spec fn donut_moves(lv: &Level, s1: int, s2: int, s3: int) -> Seq<floormove_t> {
    seq![
        floormove_t {
            ty: floor_e::donutRaise,
            crush: false,
            sector: s2 as usize,
            direction: 1,
            newspecial: 0,
            texture: lv.sectors@[s3].floorpic,
            floordestheight: lv.sectors@[s3].floorheight,
            speed: 32768i32,
        },
        floormove_t {
            ty: floor_e::lowerFloor,
            crush: false,
            sector: s1 as usize,
            direction: -1i32,
            newspecial: 0,
            texture: 0,
            floordestheight: lv.sectors@[s3].floorheight,
            speed: 32768i32,
        },
    ]
}

/// The sectors, the movers started and whether anything was tried, once
/// the donut action of a line tagged `tag` has handled the first `j`
/// sectors in order: a free tagged sector is a hole; the sector across its
/// first line is the ring; where the ring leads out to another sector the
/// two movers start and both sectors become busy.
pub open spec fn donut_upto(lv: &Level, tag: i16, j: int) -> (Seq<Sector>, Seq<floormove_t>, bool)
    decreases j,
{
    if j <= 0 {
        (lv.sectors@, Seq::empty(), false)
    } else {
        let (secs, ms, rtn) = donut_upto(lv, tag, j - 1);
        let s1 = j - 1;
        if secs[s1].tag == tag && !secs[s1].busy {
            let s2 = neighbour(lv, s1, 0).unwrap() as int;
            match donut_outer(lv, s1, s2, 0) {
                Some(s3) => (
                    secs.update(s2, Sector { busy: true, ..secs[s2] }).update(
                        s1,
                        Sector { busy: true, ..secs[s1] },
                    ),
                    ms + donut_moves(lv, s1, s2, s3 as int),
                    true,
                ),
                None => (secs, ms, true),
            }
        } else {
            (secs, ms, rtn)
        }
    }
}

/// Every free sector with the tag has a ring across its first line.
pub open spec fn donut_ok(lv: &Level, tag: i16) -> bool {
    forall|j: int|
        0 <= j < lv.sectors.len() && #[trigger] lv.sectors@[j].tag == tag && !lv.sectors@[j].busy
            ==> line_count(lv, j) >= 1 && neighbour(lv, j, 0) is Some
}

proof fn lemma_donut_shape(lv: &Level, tag: i16, j: int)
    requires
        level_wf(lv),
        donut_ok(lv, tag),
        0 <= j <= lv.sectors.len(),
    ensures
        donut_upto(lv, tag, j).0.len() == lv.sectors.len(),
        forall|k: int|
            0 <= k < lv.sectors.len() ==> {
                let s = #[trigger] donut_upto(lv, tag, j).0[k];
                &&& s == Sector { busy: s.busy, ..lv.sectors@[k] }
                &&& lv.sectors@[k].busy ==> s.busy
            },
    decreases j,
{
    if j > 0 {
        lemma_donut_shape(lv, tag, j - 1);
        let (secs, ms, rtn) = donut_upto(lv, tag, j - 1);
        let s1 = j - 1;
        if secs[s1].tag == tag && !secs[s1].busy {
            assert(lv.sectors@[s1].tag == tag && !lv.sectors@[s1].busy);
            let s2 = neighbour(lv, s1, 0).unwrap() as int;
            assert(lv.sector_lines@[s1]@[0] < lv.lines.len());
            lemma_donut_outer_valid(lv, s1, s2, 0);
        }
    }
}

proof fn lemma_donut_outer_valid(lv: &Level, s1: int, s2: int, i: int)
    requires
        level_wf(lv),
        0 <= s2 < lv.sectors.len(),
    ensures
        donut_outer(lv, s1, s2, i) matches Some(s3) ==> s3 < lv.sectors.len(),
    decreases line_count(lv, s2) - i,
{
    if 0 <= i < line_count(lv, s2) {
        assert(lv.sector_lines@[s2]@[i] < lv.lines.len());
        let l = lv.sector_lines@[s2]@[i] as int;
        assert(lv.lines@[l].frontsector < lv.sectors.len());
        if !donut_outer_line(lv, s1, s2, i) {
            lemma_donut_outer_valid(lv, s1, s2, i + 1);
        }
    }
}

proof fn lemma_donut_skip(lv: &Level, tag: i16, a: int, b: int)
    requires
        0 <= a <= b,
        forall|k: int| a <= k < b ==> #[trigger] lv.sectors@[k].tag != tag,
        level_wf(lv),
        donut_ok(lv, tag),
        b <= lv.sectors.len(),
    ensures
        donut_upto(lv, tag, b) == donut_upto(lv, tag, a),
    decreases b - a,
{
    if a < b {
        lemma_donut_skip(lv, tag, a, b - 1);
        lemma_donut_shape(lv, tag, b - 1);
        assert(donut_upto(lv, tag, b - 1).0[b - 1].tag == lv.sectors@[b - 1].tag);
    }
}

/// The donut action (a raising ring of slime around a lowering pillar):
/// for each free sector carrying the line's tag, in order (see
/// `donut_upto`). Returns whether a tagged free sector was found, and the
/// movers started, two per donut.
#[verifier::spinoff_prover]
#[verifier::rlimit(60)]
pub fn EV_DoDonut(lv: &mut Level, line: &Line) -> (r: (bool, Vec<floormove_t>))
    requires
        level_wf(old(lv)),
        donut_ok(old(lv), line.tag),
    ensures
        final(lv).lines@ == old(lv).lines@,
        final(lv).sides@ == old(lv).sides@,
        final(lv).sector_lines@ == old(lv).sector_lines@,
        final(lv).sectors@ == donut_upto(old(lv), line.tag, old(lv).sectors.len() as int).0,
        r.1@ == donut_upto(old(lv), line.tag, old(lv).sectors.len() as int).1,
        r.0 == donut_upto(old(lv), line.tag, old(lv).sectors.len() as int).2,
{
    let ghost g = old(lv);
    let n = lv.sectors.len();
    let mut moves: Vec<floormove_t> = Vec::new();
    let mut rtn = false;
    let mut secnum: isize = -1;
    loop
        invariant
            level_wf(old(lv)),
            donut_ok(old(lv), line.tag),
            n == old(lv).sectors.len(),
            -1 <= secnum < n,
            lv.lines@ == old(lv).lines@,
            lv.sides@ == old(lv).sides@,
            lv.sector_lines@ == old(lv).sector_lines@,
            lv.sectors@ == donut_upto(old(lv), line.tag, secnum + 1).0,
            moves@ == donut_upto(old(lv), line.tag, secnum + 1).1,
            rtn == donut_upto(old(lv), line.tag, secnum + 1).2,
        ensures
            lv.lines@ == old(lv).lines@,
            lv.sides@ == old(lv).sides@,
            lv.sector_lines@ == old(lv).sector_lines@,
            lv.sectors@ == donut_upto(old(lv), line.tag, n as int).0,
            moves@ == donut_upto(old(lv), line.tag, n as int).1,
            rtn == donut_upto(old(lv), line.tag, n as int).2,
        decreases n - secnum,
    {
        proof {
            lemma_donut_shape(old(lv), line.tag, secnum + 1);
            assert forall|k: int| 0 <= k < n implies #[trigger] lv.sectors@[k].tag == old(lv).sectors@[k].tag by {
                assert(donut_upto(old(lv), line.tag, secnum + 1).0[k] == Sector {
                    busy: donut_upto(old(lv), line.tag, secnum + 1).0[k].busy,
                    ..old(lv).sectors@[k]
                });
            }
        }
        let found = P_FindSectorFromLineTag(lv, line, secnum);
        if found == -1 {
            proof {
                assert forall|k: int| secnum + 1 <= k < n implies #[trigger] old(lv).sectors@[k].tag != line.tag by {
                    assert(lv.sectors@[k].tag != line.tag);
                }
                lemma_donut_skip(old(lv), line.tag, secnum + 1, n as int);
            }
            break;
        }
        proof {
            assert forall|k: int| secnum + 1 <= k < found implies #[trigger] old(lv).sectors@[k].tag != line.tag by {
                assert(lv.sectors@[k].tag != line.tag);
            }
            lemma_donut_skip(old(lv), line.tag, secnum + 1, found as int);
            lemma_donut_shape(old(lv), line.tag, found as int);
        }
        let s1 = found as usize;
        if !lv.sectors[s1].busy {
            rtn = true;
            proof {
                assert(old(lv).sectors@[s1 as int].tag == line.tag);
                assert(!old(lv).sectors@[s1 as int].busy);
                assert(old(lv).sector_lines@[s1 as int]@[0] < old(lv).lines.len());
            }
            let first = lv.sector_lines[s1][0];
            let s2 = match crate::level::getNextSector(lv, first, s1) {
                Some(o) => o,
                None => {
                    proof {
                        assert(false);
                    }
                    0
                },
            };
            assert(s2 as int == neighbour(old(lv), s1 as int, 0).unwrap());
            let m = lv.sector_lines[s2].len();
            let mut i: usize = 0;
            let mut outer: Option<usize> = None;
            while i < m
                invariant_except_break
                    outer is None,
                invariant
                    level_wf(old(lv)),
                    lv.lines@ == old(lv).lines@,
                    lv.sector_lines@ == old(lv).sector_lines@,
                    lv.sectors.len() == n,
                    n == old(lv).sectors.len(),
                    s1 < n,
                    s2 < n,
                    m == line_count(old(lv), s2 as int),
                    i <= m,
                    donut_outer(old(lv), s1 as int, s2 as int, 0) == donut_outer(old(lv), s1 as int, s2 as int, i as int),
                ensures
                    outer == donut_outer(old(lv), s1 as int, s2 as int, 0),
                decreases m - i,
            {
                proof {
                    assert(old(lv).sector_lines@[s2 as int]@[i as int] < old(lv).lines.len());
                }
                let l = lv.sector_lines[s2][i];
                let ln = lv.lines[l];
                if line_is_two_sided(&ln) && ln.backsector != Some(s1) {
                    outer = ln.backsector;
                    break;
                }
                i += 1;
            }
            proof {
                lemma_donut_outer_valid(old(lv), s1 as int, s2 as int, 0);
            }
            match outer {
                Some(s3) => {
                    let t = lv.sectors[s3];
                    moves.push(
                        floormove_t {
                            ty: floor_e::donutRaise,
                            crush: false,
                            sector: s2,
                            direction: 1,
                            newspecial: 0,
                            texture: t.floorpic,
                            floordestheight: t.floorheight,
                            speed: FLOORSPEED / 2,
                        },
                    );
                    moves.push(
                        floormove_t {
                            ty: floor_e::lowerFloor,
                            crush: false,
                            sector: s1,
                            direction: -1,
                            newspecial: 0,
                            texture: 0,
                            floordestheight: t.floorheight,
                            speed: FLOORSPEED / 2,
                        },
                    );
                    let mut a = lv.sectors[s2];
                    a.busy = true;
                    lv.sectors.set(s2, a);
                    let mut b = lv.sectors[s1];
                    b.busy = true;
                    lv.sectors.set(s1, b);
                    proof {
                        assert(moves@ =~= donut_upto(old(lv), line.tag, found + 1).1);
                        assert(lv.sectors@ =~= donut_upto(old(lv), line.tag, found + 1).0);
                    }
                },
                None => {},
            }
        }
        secnum = found;
    }
    (rtn, moves)
}

/// Speed and step height of a staircase kind.
pub open spec fn stair_params(ty: stair_e) -> (int, int) {
    match ty {
        stair_e::build8 => (FLOORSPEED / 4, 8 * FRACUNIT),
        stair_e::turbo16 => (FLOORSPEED * 4, 16 * FRACUNIT),
    }
}

/// How many of the first `n` flags are clear.
pub open spec fn free_count(busy: Seq<bool>, n: int) -> nat
    decreases n,
{
    if n <= 0 {
        0
    } else {
        free_count(busy, n - 1) + if !busy[n - 1] {
            1nat
        } else {
            0nat
        }
    }
}

/// Taking a free sector leaves one fewer free.
pub proof fn lemma_free_count_take(busy: Seq<bool>, t: int, n: int)
    requires
        0 <= t < busy.len(),
        !busy[t],
        0 <= n <= busy.len(),
    ensures
        free_count(busy.update(t, true), n) + (if t < n {
            1nat
        } else {
            0nat
        }) == free_count(busy, n),
    decreases n,
{
    if n > 0 {
        lemma_free_count_take(busy, t, n - 1);
    }
}

/// The first sector from `i` on that carries `tag`, or -1.
pub open spec fn next_tagged(lv: &Level, tag: i16, i: int) -> int
    decreases lv.sectors.len() - i,
{
    if i < 0 || i >= lv.sectors.len() {
        -1
    } else if lv.sectors@[i].tag == tag {
        i
    } else {
        next_tagged(lv, tag, i + 1)
    }
}

/// Scanning the lines of stair `s` from the `i`-th: the first line whose
/// front is `s` and whose back has the staircase's floor texture and is
/// free gives the next stair; every such line (free or not) raises the
/// height by a step. Returns the next stair, if any, and the height.
pub open spec fn stair_scan(lv: &Level, busy: Seq<bool>, s: int, texture: i16, height: int, step: int, i: int) -> (Option<int>, int)
    decreases line_count(lv, s) - i,
{
    if i < 0 || i >= line_count(lv, s) {
        (None, height)
    } else {
        let l = sector_line(lv, s, i);
        if !two_sided(l) || l.frontsector != s {
            stair_scan(lv, busy, s, texture, height, step, i + 1)
        } else {
            let t = l.backsector.unwrap() as int;
            if lv.sectors@[t].floorpic != texture {
                stair_scan(lv, busy, s, texture, height, step, i + 1)
            } else if busy[t] {
                stair_scan(lv, busy, s, texture, height + step, step, i + 1)
            } else {
                (Some(t), height + step)
            }
        }
    }
}

/// The mover of one stair.
pub open spec fn stair_mover(t: int, height: int, speed: int) -> floormove_t {
    floormove_t {
        ty: floor_e::raiseFloor,
        crush: false,
        sector: t as usize,
        direction: 1,
        newspecial: 0,
        texture: 0,
        floordestheight: height as i32,
        speed: speed as i32,
    }
}

/// The next stair a scan finds exists and is free, and the height never
/// goes down.
pub proof fn lemma_scan_valid(lv: &Level, busy: Seq<bool>, s: int, texture: i16, height: int, step: int, i: int)
    requires
        level_wf(lv),
        0 <= s < lv.sectors.len(),
        step > 0,
    ensures
        stair_scan(lv, busy, s, texture, height, step, i).0 matches Some(t) ==> 0 <= t < lv.sectors.len()
            && !busy[t],
        stair_scan(lv, busy, s, texture, height, step, i).1 >= height,
        stair_scan(lv, busy, s, texture, height, step, i).0 is Some ==> stair_scan(lv, busy, s, texture, height, step, i).1 >= height + step,
    decreases line_count(lv, s) - i,
{
    if 0 <= i < line_count(lv, s) {
        assert(lv.sector_lines@[s]@[i] < lv.lines.len());
        let l = lv.sector_lines@[s]@[i] as int;
        assert(lv.lines@[l].frontsector < lv.sectors.len());
        let ln = sector_line(lv, s, i);
        if !two_sided(ln) || ln.frontsector != s {
            lemma_scan_valid(lv, busy, s, texture, height, step, i + 1);
        } else {
            let t = ln.backsector.unwrap() as int;
            if lv.sectors@[t].floorpic != texture {
                lemma_scan_valid(lv, busy, s, texture, height, step, i + 1);
            } else if busy[t] {
                lemma_scan_valid(lv, busy, s, texture, height + step, step, i + 1);
            }
        }
    }
}

/// Building the staircase on from stair `s` (already taken) whose lines
/// are scanned from `height`: the flags of the taken sectors, the movers
/// of the further stairs, the last stair and the last height reached.
pub open spec fn stair_chain(lv: &Level, busy: Seq<bool>, s: int, texture: i16, height: int, speed: int, step: int) -> (Seq<bool>, Seq<floormove_t>, int, int)
    decreases free_count(busy, busy.len() as int),
{
    let (next, h) = stair_scan(lv, busy, s, texture, height, step, 0);
    match next {
        Some(t) => if 0 <= t < busy.len() && !busy[t] {
            proof {
                lemma_free_count_take(busy, t, busy.len() as int);
            }
            let (b2, ms, last, top) = stair_chain(lv, busy.update(t, true), t, texture, h, speed, step);
            (b2, seq![stair_mover(t, h, speed)] + ms, last, top)
        } else {
            (busy, Seq::empty(), s, h)
        },
        None => (busy, Seq::empty(), s, h),
    }
}

/// Building on a staircase keeps the flags' length, takes no sector back,
/// ends at an existing sector and never lowers the height.
pub proof fn lemma_chain_shape(lv: &Level, busy: Seq<bool>, s: int, texture: i16, height: int, speed: int, step: int)
    requires
        level_wf(lv),
        busy.len() == lv.sectors.len(),
        0 <= s < lv.sectors.len(),
        step > 0,
    ensures
        ({
            let (b2, ms, last, top) = stair_chain(lv, busy, s, texture, height, speed, step);
            &&& b2.len() == busy.len()
            &&& free_count(b2, b2.len() as int) <= free_count(busy, busy.len() as int)
            &&& 0 <= last < lv.sectors.len()
            &&& top >= height
            &&& top >= stair_scan(lv, busy, s, texture, height, step, 0).1
            &&& forall|k: int| 0 <= k < busy.len() && busy[k] ==> #[trigger] b2[k]
        }),
    decreases free_count(busy, busy.len() as int),
{
    lemma_scan_valid(lv, busy, s, texture, height, step, 0);
    let (next, h) = stair_scan(lv, busy, s, texture, height, step, 0);
    match next {
        Some(t) => {
            lemma_free_count_take(busy, t, busy.len() as int);
            lemma_chain_shape(lv, busy.update(t, true), t, texture, h, speed, step);
        },
        None => {},
    }
}

/// The first tagged sector from `i` on is one, or there is none.
pub proof fn lemma_next_tagged_range(lv: &Level, tag: i16, i: int)
    requires
        i >= 0,
    ensures
        next_tagged(lv, tag, i) == -1 || (i <= next_tagged(lv, tag, i) < lv.sectors.len()
            && lv.sectors@[next_tagged(lv, tag, i)].tag == tag),
    decreases lv.sectors.len() - i,
{
    if i < lv.sectors.len() && lv.sectors@[i].tag != tag {
        lemma_next_tagged_range(lv, tag, i + 1);
    }
}

proof fn lemma_next_tagged_is(lv: &Level, tag: i16, i: int, r: int)
    requires
        0 <= i,
        r == -1 || (i <= r < lv.sectors.len() && lv.sectors@[r].tag == tag),
        forall|j: int| i <= j < lv.sectors.len() && (r == -1 || j < r) ==> #[trigger] lv.sectors@[j].tag != tag,
    ensures
        next_tagged(lv, tag, i) == r,
    decreases lv.sectors.len() - i,
{
    if i < lv.sectors.len() && lv.sectors@[i].tag != tag {
        lemma_next_tagged_is(lv, tag, i + 1, r);
    }
}

/// The staircase action of a line tagged `tag`, from scan position
/// `secnum` on, as the sectors are taken (`busy`): each free tagged sector
/// found in index order starts a staircase (its first stair one step above
/// its floor, then `stair_chain`), and the scan resumes after the last
/// stair of that staircase. Returns the taken flags, the movers, whether a
/// free tagged sector was found, and whether every height stayed within
/// fixed-point range.
pub open spec fn stairs_from(lv: &Level, tag: i16, busy: Seq<bool>, secnum: int, speed: int, step: int) -> (Seq<bool>, Seq<floormove_t>, bool, bool)
    decreases free_count(busy, busy.len() as int), lv.sectors.len() - secnum
    when level_wf(lv) && busy.len() == lv.sectors.len() && secnum >= -1 && step > 0
{
    proof {
        lemma_next_tagged_range(lv, tag, secnum + 1);
    }
    let f = next_tagged(lv, tag, secnum + 1);
    if f < 0 {
        (busy, Seq::empty(), false, true)
    } else if busy[f] {
        stairs_from(lv, tag, busy, f, speed, step)
    } else {
        let h = lv.sectors@[f].floorheight + step;
        proof {
            lemma_free_count_take(busy, f, busy.len() as int);
            lemma_chain_shape(lv, busy.update(f, true), f, lv.sectors@[f].floorpic, h, speed, step);
        }
        let (b2, ms, last, top) = stair_chain(lv, busy.update(f, true), f, lv.sectors@[f].floorpic, h, speed, step);
        let (b3, ms2, _r, fits) = stairs_from(lv, tag, b2, last, speed, step);
        (b3, seq![stair_mover(f, h, speed)] + ms + ms2, true, top <= i32::MAX && fits)
    }
}

/// The taken flags of the sectors.
pub open spec fn busy_of(secs: Seq<Sector>) -> Seq<bool> {
    Seq::new(secs.len(), |k: int| secs[k].busy)
}

/// Builds staircases (see `stairs_from`, started at -1 with the sectors'
/// own flags): returns whether a free tagged sector was found and the
/// movers of all stairs; the stairs become busy. Every height must stay in
/// fixed-point range (the game stops otherwise).
#[verifier::spinoff_prover]
#[verifier::rlimit(80)]
pub fn EV_BuildStairs(lv: &mut Level, line: &Line, ty: stair_e) -> (r: (bool, Vec<floormove_t>))
    requires
        level_wf(old(lv)),
        stairs_from(old(lv), line.tag, busy_of(old(lv).sectors@), -1, stair_params(ty).0, stair_params(ty).1).3,
    ensures
        ({
            let (b, ms, rtn, _fits) = stairs_from(old(lv), line.tag, busy_of(old(lv).sectors@), -1, stair_params(ty).0, stair_params(ty).1);
            &&& final(lv).lines@ == old(lv).lines@
            &&& final(lv).sides@ == old(lv).sides@
            &&& final(lv).sector_lines@ == old(lv).sector_lines@
            &&& final(lv).sectors.len() == old(lv).sectors.len()
            &&& forall|k: int| 0 <= k < old(lv).sectors.len() ==> #[trigger] final(lv).sectors@[k] == (Sector { busy: b[k], ..old(lv).sectors@[k] })
            &&& r.1@ == ms
            &&& r.0 == rtn
        }),
{
    let (speed, step): (i32, i32) = match ty {
        stair_e::build8 => (FLOORSPEED / 4, 8 * FRACUNIT),
        stair_e::turbo16 => (FLOORSPEED * 4, 16 * FRACUNIT),
    };
    let ghost g = stairs_from(old(lv), line.tag, busy_of(old(lv).sectors@), -1, speed as int, step as int);
    let n = lv.sectors.len();
    let mut moves: Vec<floormove_t> = Vec::new();
    let mut rtn = false;
    let mut secnum: isize = -1;
    assert(busy_of(lv.sectors@).len() == n);
    loop
        invariant
            level_wf(old(lv)),
            n == old(lv).sectors.len(),
            (speed as int, step as int) == stair_params(ty),
            step > 0,
            g == stairs_from(old(lv), line.tag, busy_of(old(lv).sectors@), -1, speed as int, step as int),
            -1 <= secnum < n,
            lv.lines@ == old(lv).lines@,
            lv.sides@ == old(lv).sides@,
            lv.sector_lines@ == old(lv).sector_lines@,
            lv.sectors.len() == n,
            forall|k: int| 0 <= k < n ==> #[trigger] lv.sectors@[k] == (Sector { busy: lv.sectors@[k].busy, ..old(lv).sectors@[k] }),
            ({
                let rest = stairs_from(old(lv), line.tag, busy_of(lv.sectors@), secnum as int, speed as int, step as int);
                &&& g.0 == rest.0
                &&& g.1 == moves@ + rest.1
                &&& g.2 == (rtn || rest.2)
                &&& rest.3
            }),
        ensures
            lv.lines@ == old(lv).lines@,
            lv.sides@ == old(lv).sides@,
            lv.sector_lines@ == old(lv).sector_lines@,
            lv.sectors.len() == n,
            forall|k: int| 0 <= k < n ==> #[trigger] lv.sectors@[k] == (Sector { busy: g.0[k], ..old(lv).sectors@[k] }),
            g.1 == moves@,
            g.2 == rtn,
        decreases free_count(busy_of(lv.sectors@), n as int), n - secnum,
    {
        let ghost busy = busy_of(lv.sectors@);
        proof {
            assert forall|k: int| 0 <= k < n implies #[trigger] lv.sectors@[k].tag == old(lv).sectors@[k].tag by {
                assert(lv.sectors@[k] == (Sector { busy: lv.sectors@[k].busy, ..old(lv).sectors@[k] }));
            }
            assert(level_wf(lv));
        }
        let found = P_FindSectorFromLineTag(lv, line, secnum);
        proof {
            assert forall|j: int| secnum + 1 <= j < n && (found == -1 || j < found) implies #[trigger] old(lv).sectors@[j].tag != line.tag by {
                assert(lv.sectors@[j].tag != line.tag);
            }
            if found != -1 {
                assert(lv.sectors@[found as int].tag == line.tag);
            }
            lemma_next_tagged_is(old(lv), line.tag, secnum + 1, found as int);
            lemma_next_tagged_range(old(lv), line.tag, secnum + 1);
        }
        if found == -1 {
            proof {
                assert forall|k: int| 0 <= k < n implies #[trigger] lv.sectors@[k] == (Sector { busy: g.0[k], ..old(lv).sectors@[k] }) by {
                    assert(lv.sectors@[k] == (Sector { busy: lv.sectors@[k].busy, ..old(lv).sectors@[k] }));
                    assert(busy[k] == lv.sectors@[k].busy);
                }
            }
            break;
        }
        let f = found as usize;
        if lv.sectors[f].busy {
            secnum = found;
            continue;
        }
        rtn = true;
        let sec = lv.sectors[f];
        let texture = sec.floorpic;
        let ghost h0 = old(lv).sectors@[f as int].floorheight + step;
        let ghost chain = stair_chain(old(lv), busy.update(f as int, true), f as int, texture, h0, speed as int, step as int);
        proof {
            assert(sec == (Sector { busy: false, ..old(lv).sectors@[f as int] }));
            lemma_free_count_take(busy, f as int, busy.len() as int);
            lemma_chain_shape(old(lv), busy.update(f as int, true), f as int, texture, h0, speed as int, step as int);
            assert(chain.3 <= i32::MAX);
        }
        let mut height: i32 = sec.floorheight + step;
        moves.push(floormove_t {
            ty: floor_e::raiseFloor,
            crush: false,
            sector: f,
            direction: 1,
            newspecial: 0,
            texture: 0,
            floordestheight: height,
            speed,
        });
        let mut taken = sec;
        taken.busy = true;
        lv.sectors.set(f, taken);
        proof {
            assert(busy_of(lv.sectors@) =~= busy.update(f as int, true));
        }
        let mut cur: usize = f;
        loop
            invariant_except_break
                ({
                    let c = stair_chain(old(lv), busy_of(lv.sectors@), cur as int, texture, height as int, speed as int, step as int);
                    let rest = stairs_from(old(lv), line.tag, c.0, c.2, speed as int, step as int);
                    &&& g.0 == rest.0
                    &&& g.1 == moves@ + c.1 + rest.1
                    &&& rest.3
                    &&& c.3 <= i32::MAX
                }),
            invariant
                level_wf(old(lv)),
                n == old(lv).sectors.len(),
                (speed as int, step as int) == stair_params(ty),
                step > 0,
                g == stairs_from(old(lv), line.tag, busy_of(old(lv).sectors@), -1, speed as int, step as int),
                lv.lines@ == old(lv).lines@,
                lv.sides@ == old(lv).sides@,
                lv.sector_lines@ == old(lv).sector_lines@,
                lv.sectors.len() == n,
                cur < n,
                forall|k: int| 0 <= k < n ==> #[trigger] lv.sectors@[k] == (Sector { busy: lv.sectors@[k].busy, ..old(lv).sectors@[k] }),
                texture == old(lv).sectors@[f as int].floorpic,
                free_count(busy_of(lv.sectors@), n as int) < free_count(busy, n as int),
                busy.len() == n,
                rtn,
                g.2 == true,
            ensures
                free_count(busy_of(lv.sectors@), n as int) < free_count(busy, n as int),
                lv.lines@ == old(lv).lines@,
                lv.sides@ == old(lv).sides@,
                lv.sector_lines@ == old(lv).sector_lines@,
                lv.sectors.len() == n,
                cur < n,
                forall|k: int| 0 <= k < n ==> #[trigger] lv.sectors@[k] == (Sector { busy: lv.sectors@[k].busy, ..old(lv).sectors@[k] }),
                ({
                    let rest = stairs_from(old(lv), line.tag, busy_of(lv.sectors@), cur as int, speed as int, step as int);
                    &&& g.0 == rest.0
                    &&& g.1 == moves@ + rest.1
                    &&& g.2 == (rtn || rest.2)
                    &&& rest.3
                }),
            decreases free_count(busy_of(lv.sectors@), n as int),
        {
            let ghost busy2 = busy_of(lv.sectors@);
            let ghost h_start = height as int;
            proof {
                lemma_scan_valid(old(lv), busy2, cur as int, texture, h_start, step as int, 0);
                lemma_chain_shape(old(lv), busy2, cur as int, texture, h_start, speed as int, step as int);
            }
            let m = lv.sector_lines[cur].len();
            let mut i: usize = 0;
            let mut next: Option<usize> = None;
            while i < m
                invariant_except_break
                    next is None,
                    stair_scan(old(lv), busy2, cur as int, texture, h_start, step as int, 0) == stair_scan(old(lv), busy2, cur as int, texture, height as int, step as int, i as int),
                invariant
                    level_wf(old(lv)),
                    n == old(lv).sectors.len(),
                    step > 0,
                    lv.lines@ == old(lv).lines@,
                    lv.sector_lines@ == old(lv).sector_lines@,
                    lv.sectors.len() == n,
                    cur < n,
                    busy2 == busy_of(lv.sectors@),
                    forall|k: int| 0 <= k < n ==> #[trigger] lv.sectors@[k] == (Sector { busy: lv.sectors@[k].busy, ..old(lv).sectors@[k] }),
                    m == line_count(old(lv), cur as int),
                    i <= m,
                    height as int <= stair_scan(old(lv), busy2, cur as int, texture, h_start, step as int, 0).1,
                    stair_scan(old(lv), busy2, cur as int, texture, h_start, step as int, 0).1 <= i32::MAX,
                ensures
                    next matches Some(t) ==> stair_scan(old(lv), busy2, cur as int, texture, h_start, step as int, 0) == (Some(t as int), height as int),
                    next is None ==> stair_scan(old(lv), busy2, cur as int, texture, h_start, step as int, 0).0 is None,
                decreases m - i,
            {
                proof {
                    assert(old(lv).sector_lines@[cur as int]@[i as int] < old(lv).lines.len());
                    lemma_scan_valid(old(lv), busy2, cur as int, texture, height as int, step as int, i as int);
                }
                let l = lv.sector_lines[cur][i];
                let ln = lv.lines[l];
                if line_is_two_sided(&ln) && ln.frontsector == cur {
                    let t = match ln.backsector {
                        Some(b) => b,
                        None => {
                            proof {
                                assert(old(lv).lines@[l as int].frontsector < n);
                            }
                            0
                        },
                    };
                    proof {
                        assert(old(lv).lines@[l as int].frontsector < n);
                    }
                    if lv.sectors[t].floorpic == texture {
                        proof {
                            lemma_scan_valid(old(lv), busy2, cur as int, texture, height + step, step as int, i as int + 1);
                        }
                        height = height + step;
                        if !lv.sectors[t].busy {
                            next = Some(t);
                            break;
                        }
                    }
                }
                i += 1;
            }
            match next {
                Some(t) => {
                    proof {
                        lemma_free_count_take(busy2, t as int, busy2.len() as int);
                    }
                    moves.push(floormove_t {
                        ty: floor_e::raiseFloor,
                        crush: false,
                        sector: t,
                        direction: 1,
                        newspecial: 0,
                        texture: 0,
                        floordestheight: height,
                        speed,
                    });
                    let mut st = lv.sectors[t];
                    st.busy = true;
                    lv.sectors.set(t, st);
                    proof {
                        assert(busy_of(lv.sectors@) =~= busy2.update(t as int, true));
                        assert(moves@ =~= moves@.drop_last().push(stair_mover(t as int, height as int, speed as int)));
                    }
                    cur = t;
                },
                None => {
                    break;
                },
            }
        }
        secnum = cur as isize;
    }
    (rtn, moves)
}

} // verus!

