//! Moving ceilings and crushers: the ceiling mover's tic, the line action
//! that starts ceilings in tagged sectors, and the table of active
//! ceilings through which crushers are stopped and restarted.

use vstd::prelude::*;

use crate::fixed::{FRACUNIT, fixed_t};
use crate::floors::{PlaneMove, T_MovePlane, plane_restored, plane_result, plane_step_fits, plane_target, result_e};
use crate::level::{
    Level, Line, P_FindHighestCeilingSurrounding, Sector, claims, find_free_tagged,
    highest_ceiling_is, level_wf, mark_busy,
};
use crate::movers::{CEILSPEED, MAXCEILINGS, ceiling_e};
use crate::sounds::sfxenum_t;

verus! {

/// A ceiling mover working on one sector.
#[derive(Debug, Clone, Copy, PartialEq, Eq, Structural)]
pub struct ceiling_t {
    pub ty: ceiling_e,
    pub sector: usize,
    pub bottomheight: fixed_t,
    pub topheight: fixed_t,
    pub speed: fixed_t,
    pub crush: bool,
    /// 1 = up, 0 = in stasis, -1 = down.
    pub direction: i32,
    /// The tag of its sector, by which line actions find it.
    pub tag: i32,
    /// The direction it had when it was put in stasis.
    pub olddirection: i32,
}

/// What a ceiling did in one tic.
#[derive(Debug, Clone, Copy, PartialEq, Eq, Structural)]
pub struct CeilingTick {
    pub plane: Option<PlaneMove>,
    /// The grinding sound of a moving ceiling plays this tic.
    pub move_sound: bool,
    /// The stop sound of a silent crusher plays this tic.
    pub stop_sound: bool,
    /// The ceiling is done: it leaves the active table and frees its sector.
    pub done: bool,
}

/// The sector after the ceiling moved towards `dest` this tic.
pub open spec fn ceiling_after(s: Sector, speed: int, dest: int, crush: bool, direction: int, crunched: bool) -> Sector {
    if plane_restored(s, speed, dest, crush, 1, direction, crunched) {
        s
    } else {
        Sector { ceilingheight: plane_target(s, speed, dest, 1, direction) as i32, ..s }
    }
}

/// One tic of a ceiling, as a value: the ceiling after it, its sector after
/// it, and what it reports. `crunched` is what fitting the sector's things
/// to the ceiling's target height reported.
pub open spec fn ceiling_step(c: ceiling_t, s: Sector, crunched: bool, leveltime: i32) -> (ceiling_t, Sector, CeilingTick) {
    let idle = CeilingTick { plane: None, move_sound: false, stop_sound: false, done: false };
    if c.direction == 0 {
        (c, s, idle)
    } else {
        let up = c.direction == 1;
        let dest = if up {
            c.topheight as int
        } else {
            c.bottomheight as int
        };
        let crush = if up {
            false
        } else {
            c.crush
        };
        let pm = PlaneMove {
            result: plane_result(s, c.speed as int, dest, 1, c.direction as int, crunched),
            recheck: plane_restored(s, c.speed as int, dest, crush, 1, c.direction as int, crunched),
        };
        let s1 = ceiling_after(s, c.speed as int, dest, crush, c.direction as int, crunched);
        let t = CeilingTick {
            plane: Some(pm),
            move_sound: leveltime & 7 == 0 && c.ty != ceiling_e::silentCrushAndRaise,
            ..idle
        };
        if up {
            if pm.result == result_e::pastdest {
                match c.ty {
                    ceiling_e::raiseToHighest => (c, s1, CeilingTick { done: true, ..t }),
                    ceiling_e::silentCrushAndRaise => (
                        ceiling_t { direction: -1i32, ..c },
                        s1,
                        CeilingTick { stop_sound: true, ..t },
                    ),
                    ceiling_e::fastCrushAndRaise | ceiling_e::crushAndRaise => (
                        ceiling_t { direction: -1i32, ..c },
                        s1,
                        t,
                    ),
                    _ => (c, s1, t),
                }
            } else {
                (c, s1, t)
            }
        } else {
            if pm.result == result_e::pastdest {
                match c.ty {
                    ceiling_e::silentCrushAndRaise => (
                        ceiling_t { speed: CEILSPEED, direction: 1i32, ..c },
                        s1,
                        CeilingTick { stop_sound: true, ..t },
                    ),
                    ceiling_e::crushAndRaise => (ceiling_t { speed: CEILSPEED, direction: 1i32, ..c }, s1, t),
                    ceiling_e::fastCrushAndRaise => (ceiling_t { direction: 1i32, ..c }, s1, t),
                    ceiling_e::lowerAndCrush | ceiling_e::lowerToFloor => (
                        c,
                        s1,
                        CeilingTick { done: true, ..t },
                    ),
                    ceiling_e::raiseToHighest => (c, s1, t),
                }
            } else if pm.result == result_e::crushed && (c.ty == ceiling_e::silentCrushAndRaise
                || c.ty == ceiling_e::crushAndRaise || c.ty == ceiling_e::lowerAndCrush) {
                (ceiling_t { speed: 8192i32, ..c }, s1, t)
            } else {
                (c, s1, t)
            }
        }
    }
}

/// The ceiling can run a tic: a known direction and steps within
/// fixed-point range.
pub open spec fn ceiling_can_step(c: ceiling_t, s: Sector) -> bool {
    &&& c.direction == 0 || c.direction == 1 || c.direction == -1
    &&& c.direction == 1 ==> plane_step_fits(s, c.speed as int, c.topheight as int, 1)
    &&& c.direction == -1 ==> plane_step_fits(s, c.speed as int, c.bottomheight as int, 1)
}

/// One tic of a ceiling (see `ceiling_step`): in stasis it does nothing;
/// going up it stops at its top (a raise is done; crushers turn back
/// down); going down it stops at its bottom (lowering ceilings are done;
/// every crusher turns back up, a slow one taking back its normal speed) and
/// a slow crusher that hits something slows to an eighth.
pub fn T_MoveCeiling(ceiling: &mut ceiling_t, sector: &mut Sector, crunched: bool, leveltime: i32) -> (r: CeilingTick)
    requires
        ceiling_can_step(*old(ceiling), *old(sector)),
    ensures
        (*final(ceiling), *final(sector), r) == ceiling_step(*old(ceiling), *old(sector), crunched, leveltime),
{
    let idle = CeilingTick { plane: None, move_sound: false, stop_sound: false, done: false };
    if ceiling.direction == 0 {
        return idle;
    }
    let move_sound = leveltime & 7 == 0 && ceiling.ty != ceiling_e::silentCrushAndRaise;
    if ceiling.direction == 1 {
        let pm = T_MovePlane(sector, ceiling.speed, ceiling.topheight, false, 1, 1, crunched);
        let t = CeilingTick { plane: Some(pm), move_sound, ..idle };
        if pm.result == result_e::pastdest {
            match ceiling.ty {
                ceiling_e::raiseToHighest => {
                    return CeilingTick { done: true, ..t };
                },
                ceiling_e::silentCrushAndRaise => {
                    ceiling.direction = -1;
                    return CeilingTick { stop_sound: true, ..t };
                },
                ceiling_e::fastCrushAndRaise | ceiling_e::crushAndRaise => {
                    ceiling.direction = -1;
                },
                _ => {},
            }
        }
        return t;
    }
    let pm = T_MovePlane(sector, ceiling.speed, ceiling.bottomheight, ceiling.crush, 1, -1, crunched);
    let t = CeilingTick { plane: Some(pm), move_sound, ..idle };
    if pm.result == result_e::pastdest {
        match ceiling.ty {
            ceiling_e::silentCrushAndRaise => {
                ceiling.speed = CEILSPEED;
                ceiling.direction = 1;
                return CeilingTick { stop_sound: true, ..t };
            },
            ceiling_e::crushAndRaise => {
                ceiling.speed = CEILSPEED;
                ceiling.direction = 1;
            },
            ceiling_e::fastCrushAndRaise => {
                ceiling.direction = 1;
            },
            ceiling_e::lowerAndCrush | ceiling_e::lowerToFloor => {
                return CeilingTick { done: true, ..t };
            },
            ceiling_e::raiseToHighest => {},
        }
    } else if pm.result == result_e::crushed {
        match ceiling.ty {
            ceiling_e::silentCrushAndRaise | ceiling_e::crushAndRaise | ceiling_e::lowerAndCrush => {
                ceiling.speed = CEILSPEED / 8;
            },
            _ => {},
        }
    }
    t
}

/// The kinds of ceiling that crush and raise again, over and over.
pub open spec fn is_crusher(ty: ceiling_e) -> bool {
    ty == ceiling_e::crushAndRaise || ty == ceiling_e::fastCrushAndRaise || ty == ceiling_e::silentCrushAndRaise
}

/// A ceiling finishes only on arriving where its kind ends: a raising
/// ceiling at its top, a lowering one at its bottom; a crusher never
/// finishes but turns back at either end, going down after its top and
/// up after its bottom (a slow crusher taking back its normal speed); a
/// slow crusher or a lowering crusher that meets something slows to an
/// eighth; a ceiling in stasis stays as it is.
pub proof fn lemma_ceiling_turns_and_finishes(c: ceiling_t, s: Sector, crunched: bool, leveltime: i32)
    requires
        c.direction == 0 || c.direction == 1 || c.direction == -1,
    ensures
        ({
            let (c1, s1, t) = ceiling_step(c, s, crunched, leveltime);
            let dest: int = if c.direction == 1 { c.topheight as int } else { c.bottomheight as int };
            let result = plane_result(s, c.speed as int, dest, 1, c.direction as int, crunched);
            &&& c.direction == 0 ==> c1 == c && s1 == s && !t.done && t.plane is None
            &&& t.done <==> c.direction != 0 && result == result_e::pastdest && ((c.direction == 1 && c.ty
                == ceiling_e::raiseToHighest) || (c.direction == -1 && (c.ty == ceiling_e::lowerAndCrush || c.ty
                == ceiling_e::lowerToFloor)))
            &&& is_crusher(c.ty) && c.direction != 0 && result == result_e::pastdest ==> c1.direction == -c.direction
            &&& is_crusher(c.ty) && c.direction == -1 && result == result_e::pastdest && c.ty != ceiling_e::fastCrushAndRaise
                ==> c1.speed == CEILSPEED
            &&& c.direction == -1 && result == result_e::crushed && (c.ty == ceiling_e::crushAndRaise || c.ty
                == ceiling_e::silentCrushAndRaise || c.ty == ceiling_e::lowerAndCrush) ==> c1.speed == CEILSPEED / 8
            &&& result != result_e::pastdest ==> c1.direction == c.direction
        }),
{
}

/// The arithmetic of a ceiling of kind `ty` in sector `s` stays within
/// fixed-point range.
pub open spec fn ceiling_fits(lv: &Level, s: int, ty: ceiling_e) -> bool {
    ty != ceiling_e::lowerToFloor && ty != ceiling_e::raiseToHighest ==> lv.sectors@[s].floorheight
        <= i32::MAX - 8 * FRACUNIT
}

/// `c` is the ceiling that a line action of kind `ty` starts in sector `s`:
/// crushers go from the ceiling down to 8 units above the floor (the fast
/// one at twice the speed), a lowering ceiling goes down to the floor (8
/// above it for the crushing kind), a raise goes up to the highest ceiling
/// around.
pub open spec fn ceiling_start_is(lv: &Level, s: int, ty: ceiling_e, c: ceiling_t) -> bool {
    let sec = lv.sectors@[s];
    &&& c.ty == ty
    &&& c.sector == s
    &&& c.tag == sec.tag
    &&& c.olddirection == 0
    &&& c.crush == (ty == ceiling_e::fastCrushAndRaise || ty == ceiling_e::silentCrushAndRaise || ty
        == ceiling_e::crushAndRaise)
    &&& match ty {
        ceiling_e::fastCrushAndRaise => c.topheight == sec.ceilingheight && c.bottomheight
            == sec.floorheight + 8 * FRACUNIT && c.direction == -1 && c.speed == 2 * CEILSPEED,
        ceiling_e::silentCrushAndRaise | ceiling_e::crushAndRaise | ceiling_e::lowerAndCrush => c.topheight
            == (if ty == ceiling_e::lowerAndCrush {
            0
        } else {
            sec.ceilingheight
        }) && c.bottomheight == sec.floorheight + 8 * FRACUNIT && c.direction == -1 && c.speed
            == CEILSPEED,
        ceiling_e::lowerToFloor => c.topheight == 0 && c.bottomheight == sec.floorheight && c.direction
            == -1 && c.speed == CEILSPEED,
        ceiling_e::raiseToHighest => c.bottomheight == 0 && highest_ceiling_is(lv, s, c.topheight as int)
            && c.direction == 1 && c.speed == CEILSPEED,
    }
}

/// The ceiling that a line action of kind `ty` starts in sector `sec` (see
/// `ceiling_start_is`). Heights a kind does not use are 0.
pub fn ceiling_for(lv: &Level, sec: usize, ty: ceiling_e) -> (r: ceiling_t)
    requires
        level_wf(lv),
        sec < lv.sectors.len(),
        ceiling_fits(lv, sec as int, ty),
    ensures
        ceiling_start_is(lv, sec as int, ty, r),
{
    let s = lv.sectors[sec];
    let mut c = ceiling_t {
        ty,
        sector: sec,
        bottomheight: 0,
        topheight: 0,
        speed: CEILSPEED,
        crush: false,
        direction: -1,
        tag: s.tag as i32,
        olddirection: 0,
    };
    match ty {
        ceiling_e::fastCrushAndRaise => {
            c.crush = true;
            c.topheight = s.ceilingheight;
            c.bottomheight = s.floorheight + 8 * FRACUNIT;
            c.speed = CEILSPEED * 2;
        },
        ceiling_e::silentCrushAndRaise | ceiling_e::crushAndRaise => {
            c.crush = true;
            c.topheight = s.ceilingheight;
            c.bottomheight = s.floorheight + 8 * FRACUNIT;
        },
        ceiling_e::lowerAndCrush => {
            c.bottomheight = s.floorheight + 8 * FRACUNIT;
        },
        ceiling_e::lowerToFloor => {
            c.bottomheight = s.floorheight;
        },
        ceiling_e::raiseToHighest => {
            c.topheight = P_FindHighestCeilingSurrounding(lv, sec);
            c.direction = 1;
        },
    }
    c
}

/// `k` is the first free slot of the active table.
pub open spec fn first_free(t: Seq<Option<ceiling_t>>, k: int) -> bool {
    0 <= k < t.len() && t[k] is None && forall|j: int| 0 <= j < k ==> #[trigger] t[j] is Some
}

/// The active table once ceiling `c` is put in its first free slot; the
/// same table where it is full.
pub open spec fn add_active(t: Seq<Option<ceiling_t>>, c: ceiling_t) -> Seq<Option<ceiling_t>> {
    if exists|k: int| #[trigger] first_free(t, k) {
        t.update(choose|k: int| #[trigger] first_free(t, k), Some(c))
    } else {
        t
    }
}

/// Puts a ceiling in the first free slot of the active table; a full table
/// stays as it is (the ceiling still runs, but line actions cannot find it).
pub fn P_AddActiveCeiling(table: &mut Vec<Option<ceiling_t>>, c: ceiling_t)
    ensures
        final(table)@ == add_active(old(table)@, c),
{
    let n = table.len();
    let mut i: usize = 0;
    while i < n
        invariant
            n == table.len(),
            table@ == old(table)@,
            i <= n,
            forall|j: int| 0 <= j < i ==> #[trigger] table@[j] is Some,
        decreases n - i,
    {
        if table[i].is_none() {
            proof {
                assert(first_free(table@, i as int));
                assert forall|k: int| #[trigger] first_free(table@, k) implies k == i by {
                    if k < i {
                        assert(table@[k] is Some);
                    } else if k > i {
                        assert(table@[i as int] is Some);
                    }
                }
            }
            table.set(i, Some(c));
            return;
        }
        i += 1;
    }
}

/// The slot holds the ceiling of sector `sector`.
pub open spec fn holds_sector(o: Option<ceiling_t>, sector: usize) -> bool {
    o matches Some(c) && c.sector == sector
}

/// The slot holds a moving ceiling that carries `tag`.
pub open spec fn moving_with_tag(o: Option<ceiling_t>, tag: i32) -> bool {
    o matches Some(c) && c.tag == tag && c.direction != 0
}

/// Takes the ceiling of sector `sector` out of the active table; says
/// whether it was there (its sector is then free again).
pub fn P_RemoveActiveCeiling(table: &mut Vec<Option<ceiling_t>>, sector: usize) -> (r: bool)
    ensures
        r == exists|i: int| 0 <= i < old(table).len() && holds_sector(#[trigger] old(table)@[i], sector),
        r ==> exists|i: int|
            0 <= i < old(table).len() && holds_sector(#[trigger] old(table)@[i], sector) && (forall|j: int|
                0 <= j < i ==> !holds_sector(#[trigger] old(table)@[j], sector)) && final(table)@
                == old(table)@.update(i, None),
        !r ==> final(table)@ == old(table)@,
{
    let n = table.len();
    let mut i: usize = 0;
    while i < n
        invariant
            n == table.len(),
            table@ == old(table)@,
            i <= n,
            forall|j: int| 0 <= j < i ==> !holds_sector(#[trigger] table@[j], sector),
        decreases n - i,
    {
        let hit = match table[i] {
            Some(c) => c.sector == sector,
            None => false,
        };
        if hit {
            table.set(i, None);
            return true;
        }
        i += 1;
    }
    false
}

/// The active table once the ceilings of `cs` are put in it, in order.
pub open spec fn add_all(t: Seq<Option<ceiling_t>>, cs: Seq<ceiling_t>) -> Seq<Option<ceiling_t>>
    decreases cs.len(),
{
    if cs.len() == 0 {
        t
    } else {
        add_active(add_all(t, cs.drop_last()), cs.last())
    }
}

/// The active table with every crusher in stasis that carries `tag` set
/// going again in the direction it had.
pub open spec fn activated(t: Seq<Option<ceiling_t>>, tag: i32) -> Seq<Option<ceiling_t>> {
    Seq::new(
        t.len(),
        |i: int|
            match t[i] {
                Some(c) => if c.tag == tag && c.direction == 0 {
                    Some(ceiling_t { direction: c.olddirection, ..c })
                } else {
                    Some(c)
                },
                None => None,
            },
    )
}

/// Sets every ceiling in stasis that carries the line's tag going again.
pub fn P_ActivateInStasisCeiling(table: &mut Vec<Option<ceiling_t>>, line: &Line)
    ensures
        final(table)@ == activated(old(table)@, line.tag as i32),
{
    let n = table.len();
    let tag = line.tag as i32;
    let mut i: usize = 0;
    while i < n
        invariant
            n == table.len(),
            n == old(table).len(),
            i <= n,
            tag == line.tag as i32,
            forall|j: int| 0 <= j < i ==> #[trigger] table@[j] == activated(old(table)@, tag)[j],
            forall|j: int| i <= j < n ==> #[trigger] table@[j] == old(table)@[j],
        decreases n - i,
    {
        match table[i] {
            Some(c) => {
                if c.tag == tag && c.direction == 0 {
                    table.set(i, Some(ceiling_t { direction: c.olddirection, ..c }));
                }
            },
            None => {},
        }
        i += 1;
    }
    assert(table@ =~= activated(old(table)@, tag));
}

/// The active table with every moving ceiling that carries `tag` put in
/// stasis, remembering its direction.
pub open spec fn stopped(t: Seq<Option<ceiling_t>>, tag: i32) -> Seq<Option<ceiling_t>> {
    Seq::new(
        t.len(),
        |i: int|
            match t[i] {
                Some(c) => if c.tag == tag && c.direction != 0 {
                    Some(ceiling_t { olddirection: c.direction, direction: 0, ..c })
                } else {
                    Some(c)
                },
                None => None,
            },
    )
}

/// Puts every moving ceiling that carries the line's tag in stasis; says
/// whether there was one.
pub fn EV_CeilingCrushStop(table: &mut Vec<Option<ceiling_t>>, line: &Line) -> (r: bool)
    ensures
        final(table)@ == stopped(old(table)@, line.tag as i32),
        r == exists|i: int|
            0 <= i < old(table).len() && moving_with_tag(#[trigger] old(table)@[i], line.tag as i32),
{
    let n = table.len();
    let tag = line.tag as i32;
    let mut rtn = false;
    let mut i: usize = 0;
    while i < n
        invariant
            n == table.len(),
            n == old(table).len(),
            i <= n,
            tag == line.tag as i32,
            forall|j: int| 0 <= j < i ==> #[trigger] table@[j] == stopped(old(table)@, tag)[j],
            forall|j: int| i <= j < n ==> #[trigger] table@[j] == old(table)@[j],
            rtn == exists|j: int| 0 <= j < i && moving_with_tag(#[trigger] old(table)@[j], tag),
        decreases n - i,
    {
        match table[i] {
            Some(c) => {
                if c.tag == tag && c.direction != 0 {
                    table.set(i, Some(ceiling_t { olddirection: c.direction, direction: 0, ..c }));
                    rtn = true;
                }
            },
            None => {},
        }
        proof {
            if !rtn {
                assert(!moving_with_tag(old(table)@[i as int], tag));
            }
        }
        i += 1;
    }
    assert(table@ =~= stopped(old(table)@, tag));
    rtn
}

/// Stopping the crushers of a tag and then starting them again leaves every
/// ceiling of that tag moving: those that were moving keep their direction
/// (and remember it), those that were in stasis take their remembered one.
/// Ceilings of other tags are untouched.
pub proof fn lemma_stop_then_activate(t: Seq<Option<ceiling_t>>, tag: i32)
    ensures
        activated(stopped(t, tag), tag).len() == t.len(),
        forall|i: int|
            0 <= i < t.len() ==> #[trigger] activated(stopped(t, tag), tag)[i] == match t[i] {
                Some(c) => if c.tag == tag && c.direction != 0 {
                    Some(ceiling_t { olddirection: c.direction, ..c })
                } else if c.tag == tag {
                    Some(ceiling_t { direction: c.olddirection, ..c })
                } else {
                    Some(c)
                },
                None => None,
            },
{
}

/// What `EV_DoCeiling` does: `lv0` and the active table `t0` become `lv1`
/// and `t1`, and `r` are the ceilings it starts.
pub open spec fn ceiling_done(lv0: &Level, lv1: &Level, t0: Seq<Option<ceiling_t>>, t1: Seq<Option<ceiling_t>>, line: Line, ty: ceiling_e, r: Seq<ceiling_t>) -> bool {
    &&& (lv1.lines@ == lv0.lines@)
    &&& (lv1.sides@ == lv0.sides@)
    &&& (lv1.sector_lines@ == lv0.sector_lines@)
    &&& (lv1.sectors.len() == lv0.sectors.len())
    &&& (forall|j: int|
            0 <= j < lv0.sectors.len() ==> #[trigger] lv1.sectors@[j] == if claims(
                lv0,
                line.tag,
                j,
            ) {
                Sector { busy: true, ..lv0.sectors@[j] }
            } else {
                lv0.sectors@[j]
            })
    &&& (forall|k: int|
            0 <= k < r.len() ==> claims(lv0, line.tag, #[trigger] r[k].sector as int)
                && ceiling_start_is(lv0, r[k].sector as int, ty, r[k]))
    &&& (forall|k1: int, k2: int| 0 <= k1 < k2 < r.len() ==> r[k1].sector < r[k2].sector)
    &&& (forall|j: int|
            claims(lv0, line.tag, j) ==> exists|k: int| 0 <= k < r.len() && #[trigger] r[k].sector == j)
    &&& (t1 == add_all(
            if ty == ceiling_e::fastCrushAndRaise || ty == ceiling_e::silentCrushAndRaise || ty
                == ceiling_e::crushAndRaise {
                activated(t0, line.tag as i32)
            } else {
                t0
            },
            r,
        ))
}

/// Starts a ceiling of kind `ty` in every sector that carries the line's
/// tag and has no mover yet, in sector order, and puts each in the active
/// table (while it has room); those sectors become busy. Crusher actions
/// first set going again the crushers of that tag that were stopped. The
/// action succeeded if and only if the list is not empty.
pub fn EV_DoCeiling(
    lv: &mut Level,
    table: &mut Vec<Option<ceiling_t>>,
    line: &Line,
    ty: ceiling_e,
) -> (r: Vec<ceiling_t>)
    requires
        level_wf(old(lv)),
        forall|j: int|
            0 <= j < old(lv).sectors.len() && #[trigger] old(lv).sectors@[j].tag == line.tag
                ==> ceiling_fits(old(lv), j, ty),
    ensures
        ceiling_done(old(lv), final(lv), old(table)@, final(table)@, *line, ty, r@),

{
    if ty == ceiling_e::fastCrushAndRaise || ty == ceiling_e::silentCrushAndRaise || ty
        == ceiling_e::crushAndRaise {
        P_ActivateInStasisCeiling(table, line);
    }
    let ghost start = table@;
    let idx = find_free_tagged(lv, line);
    let mut cs: Vec<ceiling_t> = Vec::new();
    let n = idx.len();
    let mut k: usize = 0;
    while k < n
        invariant
            level_wf(lv),
            *lv == *old(lv),
            forall|j: int|
                0 <= j < lv.sectors.len() && #[trigger] lv.sectors@[j].tag == line.tag
                    ==> ceiling_fits(lv, j, ty),
            n == idx.len(),
            k <= n,
            cs.len() == k,
            forall|kk: int| 0 <= kk < idx.len() ==> claims(lv, line.tag, #[trigger] idx@[kk] as int),
            forall|kk: int|
                0 <= kk < k ==> #[trigger] cs@[kk].sector == idx@[kk] && ceiling_start_is(
                    lv,
                    idx@[kk] as int,
                    ty,
                    cs@[kk],
                ),
            table@ == add_all(start, cs@),
        decreases n - k,
    {
        let s = idx[k];
        assert(claims(lv, line.tag, s as int));
        let c = ceiling_for(lv, s, ty);
        P_AddActiveCeiling(table, c);
        let ghost before = cs@;
        cs.push(c);
        assert(cs@.drop_last() =~= before);
        k += 1;
    }
    proof {
        assert forall|j: int| claims(old(lv), line.tag, j) implies exists|k: int|
            0 <= k < cs.len() && #[trigger] cs@[k].sector == j by {
            assert(idx@.contains(j as usize));
            let kk = choose|kk: int| 0 <= kk < idx.len() && idx@[kk] == j as usize;
            assert(cs@[kk].sector == j);
        }
    }
    mark_busy(lv, &idx);
    proof {
        assert forall|j: int| 0 <= j < old(lv).sectors.len() implies idx@.contains(j as usize) == claims(
            old(lv),
            line.tag,
            j,
        ) by {
            if idx@.contains(j as usize) {
                let kk = choose|kk: int| 0 <= kk < idx.len() && idx@[kk] == j as usize;
                assert(claims(old(lv), line.tag, idx@[kk] as int));
            }
        }
    }
    cs
}

proof fn lemma_add_all_keeps(t: Seq<Option<ceiling_t>>, cs: Seq<ceiling_t>, i: int)
    requires
        0 <= i < t.len(),
        t[i] is Some,
    ensures
        add_all(t, cs).len() == t.len(),
        add_all(t, cs)[i] == t[i],
    decreases cs.len(),
{
    if cs.len() > 0 {
        lemma_add_all_keeps(t, cs.drop_last(), i);
        let u = add_all(t, cs.drop_last());
        if exists|k: int| #[trigger] first_free(u, k) {
            let k = choose|k: int| #[trigger] first_free(u, k);
            assert(k != i);
        }
    }
}

/// A moving crusher that a crush-stop line put in stasis keeps its place in
/// the active table, with its direction saved, and a crusher action of the
/// same tag sets it going in that direction again, whatever new ceilings
/// the action adds.
pub proof fn lemma_stopped_crusher_restarts(t: Seq<Option<ceiling_t>>, tag: i32, i: int, c: ceiling_t, cs: Seq<ceiling_t>)
    requires
        0 <= i < t.len(),
        t[i] == Some(c),
        c.tag == tag,
        c.direction != 0,
    ensures
        stopped(t, tag)[i] == Some(ceiling_t { olddirection: c.direction, direction: 0, ..c }),
        add_all(activated(stopped(t, tag), tag), cs)[i] == Some(ceiling_t { olddirection: c.direction, ..c }),
{
    lemma_stop_then_activate(t, tag);
    lemma_add_all_keeps(activated(stopped(t, tag), tag), cs, i);
}

/// Runs the ceiling held in slot `k` of the active table for a tic on its
/// sector (see `ceiling_step`): the table holds the mover itself, so a
/// stop or restart by a line action acts on the ceiling that runs. A
/// ceiling that is done leaves the table and frees its sector; an empty
/// slot does nothing.
pub fn P_RunActiveCeiling(
    table: &mut Vec<Option<ceiling_t>>,
    k: usize,
    sectors: &mut Vec<Sector>,
    crunched: bool,
    leveltime: i32,
) -> (r: Option<CeilingTick>)
    requires
        k < old(table).len(),
        old(table)@[k as int] matches Some(c) ==> c.sector < old(sectors).len() && ceiling_can_step(
            c,
            old(sectors)@[c.sector as int],
        ),
    ensures
        match old(table)@[k as int] {
            None => r is None && final(table)@ == old(table)@ && final(sectors)@ == old(sectors)@,
            Some(c) => {
                let (c1, s1, t) = ceiling_step(c, old(sectors)@[c.sector as int], crunched, leveltime);
                &&& r == Some(t)
                &&& final(table)@ == old(table)@.update(k as int, if t.done { None } else { Some(c1) })
                &&& final(sectors)@ == old(sectors)@.update(
                    c.sector as int,
                    if t.done { Sector { busy: false, ..s1 } } else { s1 },
                )
            },
        },
{
    let mut c = match table[k] {
        Some(c) => c,
        None => {
            return None;
        },
    };
    let mut s = sectors[c.sector];
    let t = T_MoveCeiling(&mut c, &mut s, crunched, leveltime);
    if t.done {
        s.busy = false;
        table.set(k, None);
    } else {
        table.set(k, Some(c));
    }
    sectors.set(c.sector, s);
    Some(t)
}

/// A crusher stopped by a line action stands still: running its slot of
/// the active table leaves it and its sector as they are, and it reports
/// nothing.
pub proof fn lemma_stopped_crusher_stands_still(t: Seq<Option<ceiling_t>>, tag: i32, k: int, s: Sector, crunched: bool, leveltime: i32)
    requires
        0 <= k < t.len(),
        t[k] matches Some(c) && c.tag == tag,
    ensures
        ({
            let c = stopped(t, tag)[k]->0;
            let (c1, s1, tick) = ceiling_step(c, s, crunched, leveltime);
            &&& c.direction == 0
            &&& c1 == c && s1 == s
            &&& tick.plane is None && !tick.done && !tick.move_sound && !tick.stop_sound
        }),
{
}

} // verus!
