//! Platforms (lifts): the platform's tic, the line action that starts
//! platforms in tagged sectors, and the table of active platforms through
//! which they are stopped and restarted.

use vstd::prelude::*;

use crate::fixed::{FRACUNIT, fixed_t};
use crate::floors::{PlaneMove, T_MovePlane, plane_restored, plane_result, plane_step_fits, plane_target, result_e};
use crate::level::{
    Level, Line, P_FindHighestFloorSurrounding, P_FindLowestFloorSurrounding,
    P_FindNextHighestFloor, Sector, claim_count, claims, find_free_tagged, highest_floor_is,
    level_wf, lowest_floor_is, next_highest_floor_is,
};
use crate::movers::{PLATSPEED, PLATWAIT, plat_e, plattype_e};
use crate::sounds::sfxenum_t;

verus! {

/// A platform working on the floor of one sector.
#[derive(Debug, Clone, Copy, PartialEq, Eq, Structural)]
pub struct plat_t {
    pub ty: plattype_e,
    pub sector: usize,
    pub speed: fixed_t,
    pub low: fixed_t,
    pub high: fixed_t,
    /// Tics it waits at each end.
    pub wait: i32,
    /// Tics left of the current wait.
    pub count: i32,
    pub status: plat_e,
    /// The status it had when it was stopped.
    pub oldstatus: plat_e,
    pub crush: bool,
    pub tag: i32,
}

/// What a platform did in one tic.
#[derive(Debug, Clone, Copy, PartialEq, Eq, Structural)]
pub struct PlatTick {
    pub plane: Option<PlaneMove>,
    /// The grinding sound of a rising floor that changes texture.
    pub move_sound: bool,
    /// The start or stop sound, if one plays.
    pub sound: Option<sfxenum_t>,
    /// The platform is done: it leaves the active table and frees its
    /// sector.
    pub done: bool,
}

/// The sector after the platform's floor moved towards `dest`.
pub open spec fn floor_after(s: Sector, speed: int, dest: int, crush: bool, direction: int, crunched: bool) -> Sector {
    if plane_restored(s, speed, dest, crush, 0, direction, crunched) {
        s
    } else {
        Sector { floorheight: plane_target(s, speed, dest, 0, direction) as i32, ..s }
    }
}

/// One tic of a platform, as a value: the platform after it, its sector
/// after it, and what it reports. `crunched` is what fitting the sector's
/// things to the floor's target height reported.
pub open spec fn plat_step(p: plat_t, s: Sector, crunched: bool, leveltime: i32) -> (plat_t, Sector, PlatTick) {
    let idle = PlatTick { plane: None, move_sound: false, sound: None, done: false };
    match p.status {
        plat_e::up => {
            let pm = PlaneMove {
                result: plane_result(s, p.speed as int, p.high as int, 0, 1, crunched),
                recheck: plane_restored(s, p.speed as int, p.high as int, p.crush, 0, 1, crunched),
            };
            let s1 = floor_after(s, p.speed as int, p.high as int, p.crush, 1, crunched);
            let t = PlatTick {
                plane: Some(pm),
                move_sound: (p.ty == plattype_e::raiseAndChange || p.ty
                    == plattype_e::raiseToNearestAndChange) && leveltime & 7 == 0,
                ..idle
            };
            if pm.result == result_e::crushed && !p.crush {
                (plat_t { count: p.wait, status: plat_e::down, ..p }, s1, PlatTick { sound: Some(sfxenum_t::sfx_pstart), ..t })
            } else if pm.result == result_e::pastdest {
                (
                    plat_t { count: p.wait, status: plat_e::waiting, ..p },
                    s1,
                    PlatTick {
                        sound: Some(sfxenum_t::sfx_pstop),
                        done: p.ty != plattype_e::perpetualRaise,
                        ..t
                    },
                )
            } else {
                (p, s1, t)
            }
        },
        plat_e::down => {
            let pm = PlaneMove {
                result: plane_result(s, p.speed as int, p.low as int, 0, -1, crunched),
                recheck: plane_restored(s, p.speed as int, p.low as int, false, 0, -1, crunched),
            };
            let s1 = floor_after(s, p.speed as int, p.low as int, false, -1, crunched);
            let t = PlatTick { plane: Some(pm), ..idle };
            if pm.result == result_e::pastdest {
                (plat_t { count: p.wait, status: plat_e::waiting, ..p }, s1, PlatTick { sound: Some(sfxenum_t::sfx_pstop), ..t })
            } else {
                (p, s1, t)
            }
        },
        plat_e::waiting => {
            let c = (p.count - 1) as i32;
            if c == 0 {
                (
                    plat_t {
                        count: c,
                        status: if s.floorheight == p.low {
                            plat_e::up
                        } else {
                            plat_e::down
                        },
                        ..p
                    },
                    s,
                    PlatTick { sound: Some(sfxenum_t::sfx_pstart), ..idle },
                )
            } else {
                (plat_t { count: c, ..p }, s, idle)
            }
        },
        plat_e::in_stasis => (p, s, idle),
    }
}

/// A platform waits at each end it reaches, for its full wait: after
/// rising to its top (where all but a perpetual platform finish), and
/// after lowering to its bottom (where none finishes); a rising platform
/// that meets something and does not crush goes back down; a waiting
/// platform counts down and, when its wait is out, moves towards the other
/// end (up from its bottom, else down); a stopped platform stays as it is.
pub proof fn lemma_plat_waits_at_each_end(p: plat_t, s: Sector, crunched: bool, leveltime: i32)
    requires
        p.status == plat_e::waiting ==> p.count > i32::MIN,
    ensures
        ({
            let (p1, s1, t) = plat_step(p, s, crunched, leveltime);
            &&& p.status == plat_e::up && plane_result(s, p.speed as int, p.high as int, 0, 1, crunched)
                == result_e::pastdest ==> {
                &&& p1.status == plat_e::waiting && p1.count == p.wait
                &&& t.done == (p.ty != plattype_e::perpetualRaise)
            }
            &&& p.status == plat_e::up && plane_result(s, p.speed as int, p.high as int, 0, 1, crunched)
                == result_e::crushed && !p.crush ==> p1.status == plat_e::down && !t.done
            &&& p.status == plat_e::down && plane_result(s, p.speed as int, p.low as int, 0, -1, crunched)
                == result_e::pastdest ==> p1.status == plat_e::waiting && p1.count == p.wait && !t.done
            &&& p.status == plat_e::waiting ==> {
                &&& p1.count == p.count - 1 && s1 == s && !t.done
                &&& p1.status == (if p.count != 1 {
                    plat_e::waiting
                } else if s.floorheight == p.low {
                    plat_e::up
                } else {
                    plat_e::down
                })
            }
            &&& p.status == plat_e::in_stasis ==> p1 == p && s1 == s && !t.done
            &&& t.done ==> p.status == plat_e::up
        }),
{
}

/// The platform can run a tic: steps within fixed-point range and a wait
/// count that can go down.
pub open spec fn plat_can_step(p: plat_t, s: Sector) -> bool {
    &&& p.status == plat_e::up ==> plane_step_fits(s, p.speed as int, p.high as int, 0)
    &&& p.status == plat_e::down ==> plane_step_fits(s, p.speed as int, p.low as int, 0)
    &&& p.status == plat_e::waiting ==> p.count > i32::MIN
}

/// One tic of a platform (see `plat_step`): rising to its top, where it
/// waits (and all but perpetual platforms are done), or goes back down when
/// something is in its way; lowering to its bottom, where it waits; waiting
/// out its count and then moving towards the other end; or stopped.
pub fn T_PlatRaise(plat: &mut plat_t, sector: &mut Sector, crunched: bool, leveltime: i32) -> (r: PlatTick)
    requires
        plat_can_step(*old(plat), *old(sector)),
    ensures
        (*final(plat), *final(sector), r) == plat_step(*old(plat), *old(sector), crunched, leveltime),
{
    let idle = PlatTick { plane: None, move_sound: false, sound: None, done: false };
    match plat.status {
        plat_e::up => {
            let pm = T_MovePlane(sector, plat.speed, plat.high, plat.crush, 0, 1, crunched);
            let t = PlatTick {
                plane: Some(pm),
                move_sound: (plat.ty == plattype_e::raiseAndChange || plat.ty
                    == plattype_e::raiseToNearestAndChange) && leveltime & 7 == 0,
                ..idle
            };
            if pm.result == result_e::crushed && !plat.crush {
                plat.count = plat.wait;
                plat.status = plat_e::down;
                return PlatTick { sound: Some(sfxenum_t::sfx_pstart), ..t };
            } else if pm.result == result_e::pastdest {
                plat.count = plat.wait;
                plat.status = plat_e::waiting;
                let done = match plat.ty {
                    plattype_e::perpetualRaise => false,
                    _ => true,
                };
                return PlatTick { sound: Some(sfxenum_t::sfx_pstop), done, ..t };
            }
            t
        },
        plat_e::down => {
            let pm = T_MovePlane(sector, plat.speed, plat.low, false, 0, -1, crunched);
            let t = PlatTick { plane: Some(pm), ..idle };
            if pm.result == result_e::pastdest {
                plat.count = plat.wait;
                plat.status = plat_e::waiting;
                return PlatTick { sound: Some(sfxenum_t::sfx_pstop), ..t };
            }
            t
        },
        plat_e::waiting => {
            plat.count = plat.count - 1;
            if plat.count == 0 {
                if sector.floorheight == plat.low {
                    plat.status = plat_e::up;
                } else {
                    plat.status = plat_e::down;
                }
                return PlatTick { sound: Some(sfxenum_t::sfx_pstart), ..idle };
            }
            idle
        },
        plat_e::in_stasis => idle,
    }
}

/// `k` is the first free slot of the active table.
pub open spec fn first_free_plat(t: Seq<Option<plat_t>>, k: int) -> bool {
    0 <= k < t.len() && t[k] is None && forall|j: int| 0 <= j < k ==> #[trigger] t[j] is Some
}

/// Number of free slots in the table.
pub open spec fn free_slots(t: Seq<Option<plat_t>>) -> nat
    decreases t.len(),
{
    if t.len() == 0 {
        0
    } else {
        free_slots(t.drop_last()) + if t.last() is None {
            1nat
        } else {
            0nat
        }
    }
}

proof fn lemma_free_slots_fill(t: Seq<Option<plat_t>>, k: int, p: plat_t)
    requires
        0 <= k < t.len(),
        t[k] is None,
    ensures
        free_slots(t.update(k, Some(p))) + 1 == free_slots(t),
    decreases t.len(),
{
    let u = t.update(k, Some(p));
    if k < t.len() - 1 {
        assert(u.drop_last() =~= t.drop_last().update(k, Some(p)));
        lemma_free_slots_fill(t.drop_last(), k, p);
    } else {
        assert(u.drop_last() =~= t.drop_last());
    }
}

proof fn lemma_free_slots_some(t: Seq<Option<plat_t>>)
    requires
        forall|j: int| 0 <= j < t.len() ==> #[trigger] t[j] is Some,
    ensures
        free_slots(t) == 0,
    decreases t.len(),
{
    if t.len() > 0 {
        lemma_free_slots_some(t.drop_last());
    }
}

/// The active table once platform `p` is put in its first free slot.
pub open spec fn add_plat(t: Seq<Option<plat_t>>, p: plat_t) -> Seq<Option<plat_t>> {
    t.update(choose|k: int| #[trigger] first_free_plat(t, k), Some(p))
}

/// The active table once the platforms of `ps` are put in it, in order.
pub open spec fn add_plats(t: Seq<Option<plat_t>>, ps: Seq<plat_t>) -> Seq<Option<plat_t>>
    decreases ps.len(),
{
    if ps.len() == 0 {
        t
    } else {
        add_plat(add_plats(t, ps.drop_last()), ps.last())
    }
}

/// Puts a platform in the first free slot of the active table; the table
/// must have one (the game stops with "no more plats" otherwise).
pub fn P_AddActivePlat(table: &mut Vec<Option<plat_t>>, p: plat_t)
    requires
        free_slots(old(table)@) > 0,
    ensures
        final(table)@ == add_plat(old(table)@, p),
        free_slots(final(table)@) + 1 == free_slots(old(table)@),
{
    let n = table.len();
    let mut i: usize = 0;
    while i < n
        invariant
            n == table.len(),
            table@ == old(table)@,
            free_slots(old(table)@) > 0,
            i <= n,
            forall|j: int| 0 <= j < i ==> #[trigger] table@[j] is Some,
        decreases n - i,
    {
        if table[i].is_none() {
            proof {
                assert(first_free_plat(table@, i as int));
                assert forall|k: int| #[trigger] first_free_plat(table@, k) implies k == i by {
                    if k < i {
                        assert(table@[k] is Some);
                    } else if k > i {
                        assert(table@[i as int] is Some);
                    }
                }
                lemma_free_slots_fill(table@, i as int, p);
            }
            table.set(i, Some(p));
            return;
        }
        i += 1;
    }
    proof {
        lemma_free_slots_some(table@);
    }
}

/// The slot holds the platform of sector `sector`.
pub open spec fn holds_plat(o: Option<plat_t>, sector: usize) -> bool {
    o matches Some(p) && p.sector == sector
}

/// Takes the platform of sector `sector` out of the active table; says
/// whether it was there (the game stops with "can't find plat" otherwise).
pub fn P_RemoveActivePlat(table: &mut Vec<Option<plat_t>>, sector: usize) -> (r: bool)
    ensures
        r == exists|i: int| 0 <= i < old(table).len() && holds_plat(#[trigger] old(table)@[i], sector),
        r ==> exists|i: int|
            0 <= i < old(table).len() && holds_plat(#[trigger] old(table)@[i], sector) && (forall|j: int|
                0 <= j < i ==> !holds_plat(#[trigger] old(table)@[j], sector)) && final(table)@
                == old(table)@.update(i, None),
        !r ==> final(table)@ == old(table)@,
{
    let n = table.len();
    let mut i: usize = 0;
    while i < n
        invariant
            n == table.len(),
            table@ == old(table)@,
            i <= n,
            forall|j: int| 0 <= j < i ==> !holds_plat(#[trigger] table@[j], sector),
        decreases n - i,
    {
        let hit = match table[i] {
            Some(p) => p.sector == sector,
            None => false,
        };
        if hit {
            table.set(i, None);
            return true;
        }
        i += 1;
    }
    false
}

/// The table with every stopped platform that carries `tag` going again in
/// the state it had.
pub open spec fn plats_activated(t: Seq<Option<plat_t>>, tag: i32) -> Seq<Option<plat_t>> {
    Seq::new(
        t.len(),
        |i: int|
            match t[i] {
                Some(p) => if p.tag == tag && p.status == plat_e::in_stasis {
                    Some(plat_t { status: p.oldstatus, ..p })
                } else {
                    Some(p)
                },
                None => None,
            },
    )
}

/// Sets every stopped platform that carries `tag` going again.
pub fn P_ActivateInStasis(table: &mut Vec<Option<plat_t>>, tag: i32)
    ensures
        final(table)@ == plats_activated(old(table)@, tag),
{
    let n = table.len();
    let mut i: usize = 0;
    while i < n
        invariant
            n == table.len(),
            n == old(table).len(),
            i <= n,
            forall|j: int| 0 <= j < i ==> #[trigger] table@[j] == plats_activated(old(table)@, tag)[j],
            forall|j: int| i <= j < n ==> #[trigger] table@[j] == old(table)@[j],
        decreases n - i,
    {
        match table[i] {
            Some(p) => {
                if p.tag == tag && p.status == plat_e::in_stasis {
                    table.set(i, Some(plat_t { status: p.oldstatus, ..p }));
                }
            },
            None => {},
        }
        i += 1;
    }
    assert(table@ =~= plats_activated(old(table)@, tag));
}

/// The table with every running platform that carries `tag` stopped,
/// remembering its state.
pub open spec fn plats_stopped(t: Seq<Option<plat_t>>, tag: i32) -> Seq<Option<plat_t>> {
    Seq::new(
        t.len(),
        |i: int|
            match t[i] {
                Some(p) => if p.tag == tag && p.status != plat_e::in_stasis {
                    Some(plat_t { oldstatus: p.status, status: plat_e::in_stasis, ..p })
                } else {
                    Some(p)
                },
                None => None,
            },
    )
}

/// Stops every running platform that carries the line's tag.
pub fn EV_StopPlat(table: &mut Vec<Option<plat_t>>, line: &Line)
    ensures
        final(table)@ == plats_stopped(old(table)@, line.tag as i32),
{
    let n = table.len();
    let tag = line.tag as i32;
    let mut i: usize = 0;
    while i < n
        invariant
            n == table.len(),
            n == old(table).len(),
            i <= n,
            tag == line.tag as i32,
            forall|j: int| 0 <= j < i ==> #[trigger] table@[j] == plats_stopped(old(table)@, tag)[j],
            forall|j: int| i <= j < n ==> #[trigger] table@[j] == old(table)@[j],
        decreases n - i,
    {
        match table[i] {
            Some(p) => {
                if p.tag == tag && p.status != plat_e::in_stasis {
                    table.set(i, Some(plat_t { oldstatus: p.status, status: plat_e::in_stasis, ..p }));
                }
            },
            None => {},
        }
        i += 1;
    }
    assert(table@ =~= plats_stopped(old(table)@, tag));
}

/// Stopping the platforms of a tag and starting them again puts each
/// running one back in the state it was in (remembering that state); a
/// stopped one starts in the state it remembered. Others are untouched.
pub proof fn lemma_stop_then_activate_plats(t: Seq<Option<plat_t>>, tag: i32)
    ensures
        plats_activated(plats_stopped(t, tag), tag).len() == t.len(),
        forall|i: int|
            0 <= i < t.len() ==> #[trigger] plats_activated(plats_stopped(t, tag), tag)[i] == match t[i] {
                Some(p) => if p.tag == tag && p.status != plat_e::in_stasis {
                    Some(plat_t { oldstatus: p.status, ..p })
                } else if p.tag == tag {
                    Some(plat_t { status: p.oldstatus, ..p })
                } else {
                    Some(p)
                },
                None => None,
            },
{
}

proof fn lemma_free_slots_activated(t: Seq<Option<plat_t>>, tag: i32)
    ensures
        free_slots(plats_activated(t, tag)) == free_slots(t),
    decreases t.len(),
{
    if t.len() > 0 {
        assert(plats_activated(t, tag).drop_last() =~= plats_activated(t.drop_last(), tag));
        lemma_free_slots_activated(t.drop_last(), tag);
    }
}

/// A platform started by a line action, with the sound it starts with.
#[derive(Debug, Clone, Copy, PartialEq, Eq, Structural)]
pub struct PlatStart {
    pub plat: plat_t,
    pub sound: sfxenum_t,
}

/// The sector whose floor texture a raise-and-change platform copies: that
/// of the line's front side.
pub open spec fn front_of(lv: &Level, line: Line) -> Sector {
    lv.sectors@[lv.sides@[line.sidenum[0] as int].sector as int]
}

/// The arithmetic of a platform of kind `ty` in sector `s` stays within
/// fixed-point range.
pub open spec fn plat_fits(lv: &Level, s: int, ty: plattype_e, amount: i32) -> bool {
    ty == plattype_e::raiseAndChange ==> i32::MIN <= amount * FRACUNIT <= i32::MAX && i32::MIN
        <= lv.sectors@[s].floorheight + amount * FRACUNIT <= i32::MAX
}

/// `st` is the platform that a line action of kind `ty` starts in sector
/// `s` (`random` decides whether a perpetual platform starts up or down).
/// Values a kind does not use are 0 (heights, counts) or up (remembered
/// state).
pub open spec fn plat_start_is(lv: &Level, line: Line, s: int, ty: plattype_e, amount: i32, random: u8, st: PlatStart) -> bool {
    let sec = lv.sectors@[s];
    let p = st.plat;
    &&& p.ty == ty
    &&& p.sector == s
    &&& !p.crush
    &&& p.tag == line.tag
    &&& p.count == 0
    &&& p.oldstatus == plat_e::up
    &&& match ty {
        plattype_e::raiseToNearestAndChange => p.speed == PLATSPEED / 2 && next_highest_floor_is(
            lv,
            s,
            sec.floorheight as int,
            p.high as int,
        ) && p.low == 0 && p.wait == 0 && p.status == plat_e::up && st.sound == sfxenum_t::sfx_stnmov,
        plattype_e::raiseAndChange => p.speed == PLATSPEED / 2 && p.high == sec.floorheight + amount
            * FRACUNIT && p.low == 0 && p.wait == 0 && p.status == plat_e::up && st.sound
            == sfxenum_t::sfx_stnmov,
        plattype_e::downWaitUpStay | plattype_e::blazeDWUS => p.speed == (if ty
            == plattype_e::blazeDWUS {
            8 * PLATSPEED
        } else {
            4 * PLATSPEED
        }) && lowest_floor_is(lv, s, p.low as int) && p.high == sec.floorheight && p.wait == 35
            * PLATWAIT && p.status == plat_e::down && st.sound == sfxenum_t::sfx_pstart,
        plattype_e::perpetualRaise => p.speed == PLATSPEED && lowest_floor_is(lv, s, p.low as int)
            && (exists|h: int| #[trigger] highest_floor_is(lv, s, h) && p.high == if h < sec.floorheight {
            sec.floorheight as int
        } else {
            h
        }) && p.wait == 35 * PLATWAIT && p.status == if random & 1 == 0 {
            plat_e::up
        } else {
            plat_e::down
        } && st.sound == sfxenum_t::sfx_pstart,
    }
}

/// The platform that a line action of kind `ty` starts in sector `sec` (see
/// `plat_start_is`).
pub fn plat_for(lv: &Level, line: &Line, sec: usize, ty: plattype_e, amount: i32, random: u8) -> (r: PlatStart)
    requires
        level_wf(lv),
        sec < lv.sectors.len(),
        plat_fits(lv, sec as int, ty, amount),
    ensures
        plat_start_is(lv, *line, sec as int, ty, amount, random, r),
{
    let s = lv.sectors[sec];
    let mut p = plat_t {
        ty,
        sector: sec,
        speed: PLATSPEED,
        low: 0,
        high: 0,
        wait: 35 * PLATWAIT,
        count: 0,
        status: plat_e::down,
        oldstatus: plat_e::up,
        crush: false,
        tag: line.tag as i32,
    };
    let mut sound = sfxenum_t::sfx_pstart;
    match ty {
        plattype_e::raiseToNearestAndChange => {
            p.speed = PLATSPEED / 2;
            p.high = P_FindNextHighestFloor(lv, sec, s.floorheight);
            p.wait = 0;
            p.status = plat_e::up;
            sound = sfxenum_t::sfx_stnmov;
        },
        plattype_e::raiseAndChange => {
            p.speed = PLATSPEED / 2;
            p.high = s.floorheight + amount * FRACUNIT;
            p.wait = 0;
            p.status = plat_e::up;
            sound = sfxenum_t::sfx_stnmov;
        },
        plattype_e::downWaitUpStay | plattype_e::blazeDWUS => {
            p.speed = if ty == plattype_e::blazeDWUS {
                PLATSPEED * 8
            } else {
                PLATSPEED * 4
            };
            let low = P_FindLowestFloorSurrounding(lv, sec);
            p.low = if low > s.floorheight {
                s.floorheight
            } else {
                low
            };
            p.high = s.floorheight;
        },
        plattype_e::perpetualRaise => {
            let low = P_FindLowestFloorSurrounding(lv, sec);
            p.low = if low > s.floorheight {
                s.floorheight
            } else {
                low
            };
            let high = P_FindHighestFloorSurrounding(lv, sec);
            p.high = if high < s.floorheight {
                s.floorheight
            } else {
                high
            };
            p.status = if random & 1 == 0 {
                plat_e::up
            } else {
                plat_e::down
            };
        },
    }
    PlatStart { plat: p, sound }
}

/// The `kk`-th platform started is the one for the `kk`-th sector taken.
pub open spec fn started_ok(
    lv: &Level,
    line: Line,
    ty: plattype_e,
    amount: i32,
    randoms: Seq<u8>,
    idx: Seq<usize>,
    ps: Seq<PlatStart>,
    kk: int,
) -> bool {
    ps[kk].plat.sector == idx[kk] && plat_start_is(
        lv,
        line,
        idx[kk] as int,
        ty,
        amount,
        if ty == plattype_e::perpetualRaise {
            randoms[kk]
        } else {
            0u8
        },
        ps[kk],
    )
}

/// A sector once a platform of kind `ty` has taken it: busy, and for the
/// raise-and-change kinds with the floor texture of `front` (the nearest
/// one also loses its special).
pub open spec fn plat_claimed(s: Sector, ty: plattype_e, front: Sector) -> Sector {
    if ty == plattype_e::raiseToNearestAndChange {
        Sector { busy: true, floorpic: front.floorpic, special: 0, ..s }
    } else if ty == plattype_e::raiseAndChange {
        Sector { busy: true, floorpic: front.floorpic, ..s }
    } else {
        Sector { busy: true, ..s }
    }
}

/// What `EV_DoPlat` does: `lv0` and the active table `t0` become `lv1`
/// and `t1`, and `r` are the platforms it starts.
pub open spec fn plat_done(lv0: &Level, lv1: &Level, t0: Seq<Option<plat_t>>, t1: Seq<Option<plat_t>>, line: Line, ty: plattype_e, amount: i32, randoms: Seq<u8>, r: Seq<PlatStart>) -> bool {
    &&& (lv1.lines@ == lv0.lines@)
    &&& (lv1.sides@ == lv0.sides@)
    &&& (lv1.sector_lines@ == lv0.sector_lines@)
    &&& (lv1.sectors.len() == lv0.sectors.len())
    &&& (forall|j: int|
            0 <= j < lv0.sectors.len() ==> #[trigger] lv1.sectors@[j] == if claims(
                lv0,
                line.tag,
                j,
            ) {
                plat_claimed(lv0.sectors@[j], ty, front_of(lv0, line))
            } else {
                lv0.sectors@[j]
            })
    &&& (forall|k: int|
            0 <= k < r.len() ==> claims(lv0, line.tag, #[trigger] r[k].plat.sector as int)
                && plat_start_is(
                lv0,
                line,
                r[k].plat.sector as int,
                ty,
                amount,
                if ty == plattype_e::perpetualRaise {
                    randoms[k]
                } else {
                    0u8
                },
                r[k],
            ))
    &&& (forall|k1: int, k2: int| 0 <= k1 < k2 < r.len() ==> r[k1].plat.sector < r[k2].plat.sector)
    &&& (forall|j: int|
            claims(lv0, line.tag, j) ==> exists|k: int| 0 <= k < r.len() && #[trigger] r[k].plat.sector == j)
    &&& (t1 == add_plats(
            if ty == plattype_e::perpetualRaise {
                plats_activated(t0, line.tag as i32)
            } else {
                t0
            },
            Seq::new(r.len() as nat, |k: int| r[k].plat),
        ))
}

/// Starts a platform of kind `ty` in every sector that carries the line's
/// tag and has no mover yet, in sector order, and puts each in the active
/// table. A perpetual platform action first sets going again the stopped
/// platforms of that tag, and the `k`-th new one starts up or down by
/// `randoms[k]`. The action succeeded if and only if the list is not empty.
#[verifier::spinoff_prover]
#[verifier::rlimit(40)]
pub fn EV_DoPlat(
    lv: &mut Level,
    table: &mut Vec<Option<plat_t>>,
    line: &Line,
    ty: plattype_e,
    amount: i32,
    randoms: &Vec<u8>,
) -> (r: Vec<PlatStart>)
    requires
        level_wf(old(lv)),
        0 <= line.sidenum[0] < old(lv).sides.len(),
        forall|j: int|
            0 <= j < old(lv).sectors.len() && #[trigger] old(lv).sectors@[j].tag == line.tag
                ==> plat_fits(old(lv), j, ty, amount),
        claim_count(old(lv), line.tag, old(lv).sectors.len() as int) <= free_slots(old(table)@),
        ty == plattype_e::perpetualRaise ==> claim_count(old(lv), line.tag, old(lv).sectors.len() as int)
            <= randoms.len(),
    ensures
        plat_done(old(lv), final(lv), old(table)@, final(table)@, *line, ty, amount, randoms@, r@),

{
    if ty == plattype_e::perpetualRaise {
        P_ActivateInStasis(table, line.tag as i32);
    }
    proof {
        lemma_free_slots_activated(old(table)@, line.tag as i32);
    }
    let ghost start = table@;
    let idx = find_free_tagged(lv, line);
    let mut ps: Vec<PlatStart> = Vec::new();
    let n = idx.len();
    let mut k: usize = 0;
    while k < n
        invariant
            level_wf(lv),
            *lv == *old(lv),
            forall|j: int|
                0 <= j < lv.sectors.len() && #[trigger] lv.sectors@[j].tag == line.tag
                    ==> plat_fits(lv, j, ty, amount),
            n == idx.len(),
            n == claim_count(lv, line.tag, lv.sectors.len() as int),
            ty == plattype_e::perpetualRaise ==> n <= randoms.len(),
            k <= n,
            ps.len() == k,
            free_slots(table@) + k == free_slots(start),
            n <= free_slots(start),
            forall|kk: int| 0 <= kk < idx.len() ==> claims(lv, line.tag, #[trigger] idx@[kk] as int),
            forall|kk: int| 0 <= kk < k ==> #[trigger] started_ok(lv, *line, ty, amount, randoms@, idx@, ps@, kk),
            table@ == add_plats(start, Seq::new(ps.len() as nat, |kk: int| ps@[kk].plat)),
        decreases n - k,
    {
        let s = idx[k];
        assert(claims(lv, line.tag, s as int));
        let random = if ty == plattype_e::perpetualRaise {
            randoms[k]
        } else {
            0u8
        };
        let st = plat_for(lv, line, s, ty, amount, random);
        P_AddActivePlat(table, st.plat);
        let ghost before = ps@;
        ps.push(st);
        proof {
            assert(ps@[k as int] == st);
            assert(started_ok(lv, *line, ty, amount, randoms@, idx@, ps@, k as int));
            assert forall|kk: int| 0 <= kk < k + 1 implies #[trigger] started_ok(lv, *line, ty, amount, randoms@, idx@, ps@, kk) by {
                if kk < k {
                    assert(started_ok(lv, *line, ty, amount, randoms@, idx@, before, kk));
                    assert(ps@[kk] == before[kk]);
                }
            }
        }
        assert(Seq::new(ps.len() as nat, |kk: int| ps@[kk].plat).drop_last() =~= Seq::new(
            before.len() as nat,
            |kk: int| before[kk].plat,
        ));
        k += 1;
    }
    proof {
        assert forall|j: int| claims(old(lv), line.tag, j) implies exists|k: int|
            0 <= k < ps.len() && #[trigger] ps@[k].plat.sector == j by {
            assert(idx@.contains(j as usize));
            let kk = choose|kk: int| 0 <= kk < idx.len() && idx@[kk] == j as usize;
            assert(started_ok(lv, *line, ty, amount, randoms@, idx@, ps@, kk));
            assert(ps@[kk].plat.sector == j);
        }
        assert forall|kk: int| 0 <= kk < ps.len() implies claims(old(lv), line.tag, #[trigger] ps@[kk].plat.sector as int)
            && plat_start_is(
            old(lv),
            *line,
            ps@[kk].plat.sector as int,
            ty,
            amount,
            if ty == plattype_e::perpetualRaise {
                randoms@[kk]
            } else {
                0u8
            },
            ps@[kk],
        ) by {
            assert(started_ok(lv, *line, ty, amount, randoms@, idx@, ps@, kk));
        }
        assert forall|k1: int, k2: int| 0 <= k1 < k2 < ps.len() implies ps@[k1].plat.sector < ps@[k2].plat.sector by {
            assert(started_ok(lv, *line, ty, amount, randoms@, idx@, ps@, k1));
            assert(started_ok(lv, *line, ty, amount, randoms@, idx@, ps@, k2));
        }
    }
    let front = lv.sectors[lv.sides[line.sidenum[0] as usize].sector];
    let ghost old_sectors = lv.sectors@;
    let mut k: usize = 0;
    while k < n
        invariant
            n == idx.len(),
            k <= n,
            lv.lines@ == old(lv).lines@,
            lv.sides@ == old(lv).sides@,
            lv.sector_lines@ == old(lv).sector_lines@,
            old_sectors == old(lv).sectors@,
            front == front_of(old(lv), *line),
            lv.sectors.len() == old_sectors.len(),
            forall|kk: int| 0 <= kk < idx.len() ==> claims(old(lv), line.tag, #[trigger] idx@[kk] as int),
            forall|j: int|
                0 <= j < old_sectors.len() ==> #[trigger] lv.sectors@[j] == if idx@.take(k as int).contains(
                    j as usize,
                ) {
                    plat_claimed(old_sectors[j], ty, front)
                } else {
                    old_sectors[j]
                },
        decreases n - k,
    {
        let s = idx[k];
        let mut sec = lv.sectors[s];
        sec.busy = true;
        if ty == plattype_e::raiseToNearestAndChange {
            sec.floorpic = front.floorpic;
            sec.special = 0;
        } else if ty == plattype_e::raiseAndChange {
            sec.floorpic = front.floorpic;
        }
        proof {
            if idx@.take(k as int).contains(s) {
                let i = choose|i: int| 0 <= i < k && #[trigger] idx@.take(k as int)[i] == s;
                assert(idx@[i] == s);
            }
        }
        lv.sectors.set(s, sec);
        proof {
            assert forall|j: int| 0 <= j < old_sectors.len() implies #[trigger] lv.sectors@[j] == if idx@.take(
                k + 1,
            ).contains(j as usize) {
                plat_claimed(old_sectors[j], ty, front)
            } else {
                old_sectors[j]
            } by {
                if j == s as int {
                    assert(idx@.take(k + 1)[k as int] == s);
                } else {
                    if idx@.take(k + 1).contains(j as usize) {
                        let i = choose|i: int| 0 <= i < k + 1 && #[trigger] idx@.take(k + 1)[i] == j as usize;
                        assert(idx@.take(k as int)[i] == j as usize);
                    }
                    if idx@.take(k as int).contains(j as usize) {
                        let i = choose|i: int| 0 <= i < k && #[trigger] idx@.take(k as int)[i] == j as usize;
                        assert(idx@.take(k + 1)[i] == j as usize);
                    }
                }
            }
        }
        k += 1;
    }
    proof {
        assert(idx@.take(n as int) =~= idx@);
        assert forall|j: int| 0 <= j < old(lv).sectors.len() implies idx@.contains(j as usize) == claims(
            old(lv),
            line.tag,
            j,
        ) by {
            if idx@.contains(j as usize) {
                let kk = choose|kk: int| 0 <= kk < idx.len() && idx@[kk] == j as usize;
                assert(claims(old(lv), line.tag, idx@[kk] as int));
            }
        }
    }
    ps
}


proof fn lemma_first_free(t: Seq<Option<plat_t>>, i: int)
    requires
        0 <= i <= t.len(),
        forall|j: int| 0 <= j < i ==> #[trigger] t[j] is Some,
        exists|j: int| i <= j < t.len() && #[trigger] t[j] is None,
    ensures
        exists|k: int| #[trigger] first_free_plat(t, k),
    decreases t.len() - i,
{
    if t[i] is None {
        assert(first_free_plat(t, i));
    } else {
        let j = choose|j: int| i <= j < t.len() && #[trigger] t[j] is None;
        assert(j != i);
        assert(t[j] is None);
        lemma_first_free(t, i + 1);
    }
}

proof fn lemma_free_exists(t: Seq<Option<plat_t>>)
    requires
        free_slots(t) > 0,
    ensures
        exists|k: int| #[trigger] first_free_plat(t, k),
{
    if forall|j: int| 0 <= j < t.len() ==> #[trigger] t[j] is Some {
        lemma_free_slots_some(t);
    }
    lemma_first_free(t, 0);
}

proof fn lemma_add_plats_keeps(t: Seq<Option<plat_t>>, ps: Seq<plat_t>, i: int)
    requires
        0 <= i < t.len(),
        t[i] is Some,
        ps.len() <= free_slots(t),
    ensures
        add_plats(t, ps).len() == t.len(),
        add_plats(t, ps)[i] == t[i],
        free_slots(add_plats(t, ps)) + ps.len() == free_slots(t),
    decreases ps.len(),
{
    if ps.len() > 0 {
        lemma_add_plats_keeps(t, ps.drop_last(), i);
        let u = add_plats(t, ps.drop_last());
        lemma_free_exists(u);
        let k = choose|k: int| #[trigger] first_free_plat(u, k);
        assert(k != i);
        lemma_free_slots_fill(u, k, ps.last());
    }
}

/// A platform that stopping put in stasis is set going again, in the state
/// it was in, by a perpetual-raise action of the same tag: new platforms
/// only take free slots of the active table.
pub proof fn lemma_stopped_plat_restarts(t: Seq<Option<plat_t>>, tag: i32, i: int, p: plat_t, ps: Seq<plat_t>)
    requires
        0 <= i < t.len(),
        t[i] == Some(p),
        p.tag == tag,
        p.status != plat_e::in_stasis,
        ps.len() <= free_slots(plats_stopped(t, tag)),
    ensures
        plats_stopped(t, tag)[i] == Some(plat_t { oldstatus: p.status, status: plat_e::in_stasis, ..p }),
        add_plats(plats_activated(plats_stopped(t, tag), tag), ps)[i] == Some(plat_t { oldstatus: p.status, ..p }),
{
    lemma_stop_then_activate_plats(t, tag);
    lemma_free_slots_activated(plats_stopped(t, tag), tag);
    lemma_add_plats_keeps(plats_activated(plats_stopped(t, tag), tag), ps, i);
}

/// Runs the platform held in slot `k` of the active table for a tic on
/// its sector (see `plat_step`): the table holds the mover itself, so a
/// stop or restart by a line action acts on the platform that runs. A
/// platform that is done leaves the table and frees its sector; an empty
/// slot does nothing.
pub fn P_RunActivePlat(
    table: &mut Vec<Option<plat_t>>,
    k: usize,
    sectors: &mut Vec<Sector>,
    crunched: bool,
    leveltime: i32,
) -> (r: Option<PlatTick>)
    requires
        k < old(table).len(),
        old(table)@[k as int] matches Some(p) ==> p.sector < old(sectors).len() && plat_can_step(
            p,
            old(sectors)@[p.sector as int],
        ),
    ensures
        match old(table)@[k as int] {
            None => r is None && final(table)@ == old(table)@ && final(sectors)@ == old(sectors)@,
            Some(p) => {
                let (p1, s1, t) = plat_step(p, old(sectors)@[p.sector as int], crunched, leveltime);
                &&& r == Some(t)
                &&& final(table)@ == old(table)@.update(k as int, if t.done { None } else { Some(p1) })
                &&& final(sectors)@ == old(sectors)@.update(
                    p.sector as int,
                    if t.done { Sector { busy: false, ..s1 } } else { s1 },
                )
            },
        },
{
    let mut p = match table[k] {
        Some(p) => p,
        None => {
            return None;
        },
    };
    let mut s = sectors[p.sector];
    let t = T_PlatRaise(&mut p, &mut s, crunched, leveltime);
    if t.done {
        s.busy = false;
        table.set(k, None);
    } else {
        table.set(k, Some(p));
    }
    sectors.set(p.sector, s);
    Some(t)
}

/// A platform stopped by a line action stands still: running its slot of
/// the active table leaves it and its sector as they are, and it reports
/// nothing.
pub proof fn lemma_stopped_plat_stands_still(t: Seq<Option<plat_t>>, tag: i32, k: int, s: Sector, crunched: bool, leveltime: i32)
    requires
        0 <= k < t.len(),
        t[k] matches Some(p) && p.tag == tag,
    ensures
        ({
            let p = plats_stopped(t, tag)[k]->0;
            let (p1, s1, tick) = plat_step(p, s, crunched, leveltime);
            &&& p.status == plat_e::in_stasis
            &&& p1 == p && s1 == s
            &&& tick.plane is None && !tick.done && tick.sound is None && !tick.move_sound
        }),
{
}

} // verus!
