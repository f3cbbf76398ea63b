//! Doors: the door mover's tic, the line actions that open and close doors
//! in tagged sectors, locked doors, manual doors, and the doors that sector
//! specials start at level load.

use vstd::prelude::*;

use crate::fixed::{FRACUNIT, fixed_t};
use crate::floors::{PlaneMove, T_MovePlane, plane_restored, plane_result, plane_step_fits, plane_target, result_e};
use crate::level::{
    Level, Line, P_FindLowestCeilingSurrounding, Sector, claims, find_free_tagged, level_wf,
    line_count, lowest_ceiling_is, mark_busy, nb_ceiling, neighbour,
};
use crate::movers::{VDOORSPEED, VDOORWAIT, vldoor_e};
use crate::sounds::{Message, sfxenum_t};

verus! {

/// A door mover working on the ceiling of one sector.
#[derive(Debug, Clone, Copy, PartialEq, Eq, Structural)]
pub struct vldoor_t {
    pub ty: vldoor_e,
    pub sector: usize,
    pub topheight: fixed_t,
    pub speed: fixed_t,
    /// 1 = up, 0 = waiting at top, -1 = down, 2 = waiting to raise.
    pub direction: i32,
    /// Tics to wait at the top.
    pub topwait: u32,
    /// Tics left before the waiting door moves again.
    pub topcountdown: u32,
}

/// What a door did in one tic.
#[derive(Debug, Clone, Copy, PartialEq, Eq, Structural)]
pub struct DoorTick {
    /// The tic of its moving ceiling, if it moved.
    pub plane: Option<PlaneMove>,
    /// The sound the door starts this tic.
    pub sound: Option<sfxenum_t>,
    /// The door is finished: its sector is free again.
    pub done: bool,
}

/// The sector after the door's ceiling moved towards `dest` this tic.
pub open spec fn ceiling_moved(s: Sector, speed: int, dest: int, direction: int, crunched: bool) -> Sector {
    if plane_restored(s, speed, dest, false, 1, direction, crunched) {
        s
    } else {
        Sector { ceilingheight: plane_target(s, speed, dest, 1, direction) as i32, ..s }
    }
}

/// One tic of a door, as a value: the door after it, the sector after it,
/// and what it reports. `crunched` is what fitting the sector's things to
/// the ceiling's target height reported (see `T_MovePlane`).
pub open spec fn door_step(d: vldoor_t, s: Sector, crunched: bool) -> (vldoor_t, Sector, DoorTick) {
    let none = DoorTick { plane: None, sound: None, done: false };
    if d.direction == 0 {
        let d1 = vldoor_t { topcountdown: (d.topcountdown - 1) as u32, ..d };
        if d1.topcountdown == 0 && d.ty == vldoor_e::blazeRaise {
            (vldoor_t { direction: -1i32, ..d1 }, s, DoorTick { sound: Some(sfxenum_t::sfx_bdcls), ..none })
        } else if d1.topcountdown == 0 && d.ty == vldoor_e::normal {
            (vldoor_t { direction: -1i32, ..d1 }, s, DoorTick { sound: Some(sfxenum_t::sfx_dorcls), ..none })
        } else if d1.topcountdown == 0 && d.ty == vldoor_e::close30ThenOpen {
            (vldoor_t { direction: 1, ..d1 }, s, DoorTick { sound: Some(sfxenum_t::sfx_doropn), ..none })
        } else {
            (d1, s, none)
        }
    } else if d.direction == 2 {
        let d1 = vldoor_t { topcountdown: (d.topcountdown - 1) as u32, ..d };
        if d1.topcountdown == 0 && d.ty == vldoor_e::raiseIn5Mins {
            (
                vldoor_t { direction: 1, ty: vldoor_e::normal, ..d1 },
                s,
                DoorTick { sound: Some(sfxenum_t::sfx_doropn), ..none },
            )
        } else {
            (d1, s, none)
        }
    } else if d.direction == -1 {
        let dest = s.floorheight as int;
        let pm = PlaneMove {
            result: plane_result(s, d.speed as int, dest, 1, -1, crunched),
            recheck: plane_restored(s, d.speed as int, dest, false, 1, -1, crunched),
        };
        let s1 = ceiling_moved(s, d.speed as int, dest, -1, crunched);
        let moved = DoorTick { plane: Some(pm), ..none };
        if pm.result == result_e::pastdest {
            if d.ty == vldoor_e::blazeRaise || d.ty == vldoor_e::blazeClose {
                (d, Sector { busy: false, ..s1 }, DoorTick { sound: Some(sfxenum_t::sfx_bdcls), done: true, ..moved })
            } else if d.ty == vldoor_e::normal || d.ty == vldoor_e::close {
                (d, Sector { busy: false, ..s1 }, DoorTick { done: true, ..moved })
            } else if d.ty == vldoor_e::close30ThenOpen {
                (vldoor_t { direction: 0i32, topcountdown: 1050u32, ..d }, s1, moved)
            } else {
                (d, s1, moved)
            }
        } else if pm.result == result_e::crushed && d.ty != vldoor_e::blazeClose && d.ty
            != vldoor_e::close {
            (vldoor_t { direction: 1, ..d }, s1, DoorTick { sound: Some(sfxenum_t::sfx_doropn), ..moved })
        } else {
            (d, s1, moved)
        }
    } else {
        let dest = d.topheight as int;
        let pm = PlaneMove {
            result: plane_result(s, d.speed as int, dest, 1, 1, crunched),
            recheck: plane_restored(s, d.speed as int, dest, false, 1, 1, crunched),
        };
        let s1 = ceiling_moved(s, d.speed as int, dest, 1, crunched);
        let moved = DoorTick { plane: Some(pm), ..none };
        if pm.result == result_e::pastdest {
            if d.ty == vldoor_e::blazeRaise || d.ty == vldoor_e::normal {
                (vldoor_t { direction: 0, topcountdown: d.topwait, ..d }, s1, moved)
            } else if d.ty == vldoor_e::close30ThenOpen || d.ty == vldoor_e::blazeOpen || d.ty
                == vldoor_e::open {
                (d, Sector { busy: false, ..s1 }, DoorTick { done: true, ..moved })
            } else {
                (d, s1, moved)
            }
        } else {
            (d, s1, moved)
        }
    }
}

/// A rising door that arrives at its top height: one that closes again
/// (normal or blazing) waits there for its full wait, still holding its
/// sector; only doors that stay open (open, blazing open, and the door that
/// opens after thirty seconds) finish there and free their sector. A
/// rising door that has not arrived keeps rising and is not done.
pub proof fn lemma_raised_door_waits(d: vldoor_t, s: Sector, crunched: bool)
    requires
        d.direction == 1,
    ensures
        ({
            let (d1, s1, t) = door_step(d, s, crunched);
            let arrived = plane_result(s, d.speed as int, d.topheight as int, 1, 1, crunched) == result_e::pastdest;
            &&& arrived && (d.ty == vldoor_e::normal || d.ty == vldoor_e::blazeRaise) ==> {
                &&& d1.direction == 0
                &&& d1.topcountdown == d.topwait
                &&& !t.done
                &&& s1.busy == s.busy
            }
            &&& t.done <==> arrived && (d.ty == vldoor_e::open || d.ty == vldoor_e::blazeOpen || d.ty
                == vldoor_e::close30ThenOpen)
            &&& t.done ==> !s1.busy
            &&& !arrived ==> d1 == d
        }),
{
}

/// A door waiting to rise (the one that opens after five minutes) counts
/// down and, when its wait is out, starts rising as a normal door.
pub proof fn lemma_delayed_door_rises(d: vldoor_t, s: Sector, crunched: bool)
    requires
        d.direction == 2,
        d.topcountdown > 0,
        d.ty == vldoor_e::raiseIn5Mins,
    ensures
        ({
            let (d1, s1, t) = door_step(d, s, crunched);
            &&& d1.topcountdown == d.topcountdown - 1
            &&& d.topcountdown == 1 ==> d1.direction == 1 && d1.ty == vldoor_e::normal
            &&& d.topcountdown > 1 ==> d1.direction == 2 && d1.ty == d.ty
            &&& s1 == s && !t.done
        }),
{
}

/// A closing door that reaches the floor: one that closes for good
/// (normal, close, blazing) finishes and frees its sector, the door that
/// opens again after thirty seconds waits 1050 tics instead; a closing
/// door (but the close-only kinds) that meets something goes back up.
pub proof fn lemma_closing_door(d: vldoor_t, s: Sector, crunched: bool)
    requires
        d.direction == -1,
    ensures
        ({
            let (d1, s1, t) = door_step(d, s, crunched);
            let result = plane_result(s, d.speed as int, s.floorheight as int, 1, -1, crunched);
            &&& result == result_e::pastdest && (d.ty == vldoor_e::normal || d.ty == vldoor_e::close || d.ty
                == vldoor_e::blazeRaise || d.ty == vldoor_e::blazeClose) ==> t.done && !s1.busy
            &&& result == result_e::pastdest && d.ty == vldoor_e::close30ThenOpen ==> !t.done && d1.direction == 0
                && d1.topcountdown == 1050
            &&& result == result_e::crushed && d.ty != vldoor_e::close && d.ty != vldoor_e::blazeClose ==> d1.direction
                == 1 && !t.done
            &&& t.done ==> result == result_e::pastdest
        }),
{
}

/// A door waiting at its top counts its wait down; one that closes again
/// (normal or blazing) starts closing when the wait runs out, and not
/// before.
pub proof fn lemma_waiting_door_closes(d: vldoor_t, s: Sector, crunched: bool)
    requires
        d.direction == 0,
        d.topcountdown > 0,
        d.ty == vldoor_e::normal || d.ty == vldoor_e::blazeRaise,
    ensures
        ({
            let (d1, s1, t) = door_step(d, s, crunched);
            &&& d1.topcountdown == d.topcountdown - 1
            &&& d1.direction == (if d.topcountdown == 1 { -1int } else { 0int })
            &&& s1 == s
            &&& !t.done
        }),
{
}

/// The door can run a tic: a known direction, a countdown that has not run
/// out while waiting, and ceiling steps within fixed-point range.
pub open spec fn door_can_step(d: vldoor_t, s: Sector) -> bool {
    &&& d.direction == 0 || d.direction == 2 || d.direction == 1 || d.direction == -1
    &&& (d.direction == 0 || d.direction == 2) ==> d.topcountdown > 0
    &&& d.direction == -1 ==> plane_step_fits(s, d.speed as int, s.floorheight as int, 1)
    &&& d.direction == 1 ==> plane_step_fits(s, d.speed as int, d.topheight as int, 1)
}

/// One tic of a door (see `door_step`): waiting at the top (direction 0)
/// until the countdown runs out and then closing (or, for a door that
/// closed for thirty seconds, opening); waiting to rise (2); going down to
/// the floor (-1), back up when something is in the way unless it is a
/// closing door; going up to its top height (1), then waiting or done.
pub fn T_VerticalDoor(door: &mut vldoor_t, sector: &mut Sector, crunched: bool) -> (r: DoorTick)
    requires
        door_can_step(*old(door), *old(sector)),
    ensures
        (*final(door), *final(sector), r) == door_step(*old(door), *old(sector), crunched),
{
    let none = DoorTick { plane: None, sound: None, done: false };
    if door.direction == 0 {
        door.topcountdown = door.topcountdown - 1;
        if door.topcountdown == 0 {
            match door.ty {
                vldoor_e::blazeRaise => {
                    door.direction = -1;
                    return DoorTick { sound: Some(sfxenum_t::sfx_bdcls), ..none };
                },
                vldoor_e::normal => {
                    door.direction = -1;
                    return DoorTick { sound: Some(sfxenum_t::sfx_dorcls), ..none };
                },
                vldoor_e::close30ThenOpen => {
                    door.direction = 1;
                    return DoorTick { sound: Some(sfxenum_t::sfx_doropn), ..none };
                },
                _ => {},
            }
        }
        return none;
    }
    if door.direction == 2 {
        door.topcountdown = door.topcountdown - 1;
        if door.topcountdown == 0 && door.ty == vldoor_e::raiseIn5Mins {
            door.direction = 1;
            door.ty = vldoor_e::normal;
            return DoorTick { sound: Some(sfxenum_t::sfx_doropn), ..none };
        }
        return none;
    }
    if door.direction == -1 {
        let dest = sector.floorheight;
        let pm = T_MovePlane(sector, door.speed, dest, false, 1, -1, crunched);
        let moved = DoorTick { plane: Some(pm), ..none };
        if pm.result == result_e::pastdest {
            match door.ty {
                vldoor_e::blazeRaise | vldoor_e::blazeClose => {
                    sector.busy = false;
                    return DoorTick { sound: Some(sfxenum_t::sfx_bdcls), done: true, ..moved };
                },
                vldoor_e::normal | vldoor_e::close => {
                    sector.busy = false;
                    return DoorTick { done: true, ..moved };
                },
                vldoor_e::close30ThenOpen => {
                    door.direction = 0;
                    door.topcountdown = 35 * 30;
                    return moved;
                },
                _ => {
                    return moved;
                },
            }
        } else if pm.result == result_e::crushed {
            match door.ty {
                vldoor_e::blazeClose | vldoor_e::close => {
                    return moved;
                },
                _ => {
                    door.direction = 1;
                    return DoorTick { sound: Some(sfxenum_t::sfx_doropn), ..moved };
                },
            }
        }
        return moved;
    }
    let dest = door.topheight;
    let pm = T_MovePlane(sector, door.speed, dest, false, 1, 1, crunched);
    let moved = DoorTick { plane: Some(pm), ..none };
    if pm.result == result_e::pastdest {
        match door.ty {
            vldoor_e::blazeRaise | vldoor_e::normal => {
                door.direction = 0;
                door.topcountdown = door.topwait;
            },
            vldoor_e::close30ThenOpen | vldoor_e::blazeOpen | vldoor_e::open => {
                sector.busy = false;
                return DoorTick { done: true, ..moved };
            },
            _ => {},
        }
    }
    moved
}

/// A door started by a line action, with the sound it starts with.
#[derive(Debug, Clone, Copy, PartialEq, Eq, Structural)]
pub struct DoorStart {
    pub door: vldoor_t,
    pub sound: Option<sfxenum_t>,
}

/// The lowest ceiling around the sector stays 4 map units above the
/// smallest fixed-point value.
pub open spec fn door_fits(lv: &Level, s: int) -> bool {
    forall|i: int|
        0 <= i < line_count(lv, s) && (#[trigger] neighbour(lv, s, i)) is Some ==> nb_ceiling(lv, s, i)
            >= i32::MIN + 4 * FRACUNIT
}

/// `st` is the door that a line action of kind `ty` starts in sector `s`:
/// closing doors go down to the floor (blazing ones four times as fast),
/// the thirty-second close keeps the ceiling as its top, opening doors go
/// up to 4 units below the lowest ceiling around; opening sounds only where
/// the door has somewhere to go.
pub open spec fn door_start_is(lv: &Level, s: int, ty: vldoor_e, st: DoorStart) -> bool {
    let sec = lv.sectors@[s];
    let d = st.door;
    let top = d.topheight as int;
    let lowest_top = exists|c: int| #[trigger] lowest_ceiling_is(lv, s, c) && top == c - 4 * FRACUNIT;
    &&& d.ty == ty
    &&& d.sector == s
    &&& d.topwait == VDOORWAIT
    &&& d.topcountdown == 0
    &&& match ty {
        vldoor_e::blazeClose => lowest_top && d.direction == -1 && d.speed == 4 * VDOORSPEED
            && st.sound == Some(sfxenum_t::sfx_bdcls),
        vldoor_e::close => lowest_top && d.direction == -1 && d.speed == VDOORSPEED && st.sound
            == Some(sfxenum_t::sfx_dorcls),
        vldoor_e::close30ThenOpen => top == sec.ceilingheight && d.direction == -1 && d.speed
            == VDOORSPEED && st.sound == Some(sfxenum_t::sfx_dorcls),
        vldoor_e::blazeRaise | vldoor_e::blazeOpen => lowest_top && d.direction == 1 && d.speed == 4
            * VDOORSPEED && st.sound == if top != sec.ceilingheight {
            Some(sfxenum_t::sfx_bdopn)
        } else {
            None
        },
        vldoor_e::normal | vldoor_e::open => lowest_top && d.direction == 1 && d.speed == VDOORSPEED
            && st.sound == if top != sec.ceilingheight {
            Some(sfxenum_t::sfx_doropn)
        } else {
            None
        },
        vldoor_e::raiseIn5Mins => false,
    }
}

/// The top height of an opening door: 4 map units below the lowest ceiling
/// around the sector.
fn door_top(lv: &Level, sec: usize) -> (r: fixed_t)
    requires
        level_wf(lv),
        sec < lv.sectors.len(),
        door_fits(lv, sec as int),
    ensures
        exists|c: int| #[trigger] lowest_ceiling_is(lv, sec as int, c) && r == c - 4 * FRACUNIT,
{
    let c = P_FindLowestCeilingSurrounding(lv, sec);
    proof {
        if c != i32::MAX {
            let i = choose|i: int|
                0 <= i < line_count(lv, sec as int) && (#[trigger] neighbour(lv, sec as int, i)) is Some
                    && nb_ceiling(lv, sec as int, i) == c;
            assert(neighbour(lv, sec as int, i) is Some);
        }
        assert(lowest_ceiling_is(lv, sec as int, c as int));
    }
    c - 4 * FRACUNIT
}

/// The door that a line action of kind `ty` starts in sector `sec` (see
/// `door_start_is`).
pub fn door_for(lv: &Level, sec: usize, ty: vldoor_e) -> (r: DoorStart)
    requires
        level_wf(lv),
        sec < lv.sectors.len(),
        ty != vldoor_e::raiseIn5Mins,
        door_fits(lv, sec as int),
    ensures
        door_start_is(lv, sec as int, ty, r),
{
    let s = lv.sectors[sec];
    let mut d = vldoor_t {
        ty,
        sector: sec,
        topheight: s.ceilingheight,
        speed: VDOORSPEED,
        direction: 1,
        topwait: VDOORWAIT,
        topcountdown: 0,
    };
    let mut sound: Option<sfxenum_t> = None;
    match ty {
        vldoor_e::blazeClose => {
            d.topheight = door_top(lv, sec);
            d.direction = -1;
            d.speed = VDOORSPEED * 4;
            sound = Some(sfxenum_t::sfx_bdcls);
        },
        vldoor_e::close => {
            d.topheight = door_top(lv, sec);
            d.direction = -1;
            sound = Some(sfxenum_t::sfx_dorcls);
        },
        vldoor_e::close30ThenOpen => {
            d.direction = -1;
            sound = Some(sfxenum_t::sfx_dorcls);
        },
        vldoor_e::blazeRaise | vldoor_e::blazeOpen => {
            d.topheight = door_top(lv, sec);
            d.speed = VDOORSPEED * 4;
            if d.topheight != s.ceilingheight {
                sound = Some(sfxenum_t::sfx_bdopn);
            }
        },
        vldoor_e::normal | vldoor_e::open => {
            d.topheight = door_top(lv, sec);
            if d.topheight != s.ceilingheight {
                sound = Some(sfxenum_t::sfx_doropn);
            }
        },
        vldoor_e::raiseIn5Mins => {},
    }
    DoorStart { door: d, sound }
}

/// What `EV_DoDoor` does: `lv0` becomes `lv1`, and `r` are the doors it starts.
pub open spec fn door_done(lv0: &Level, lv1: &Level, line: Line, ty: vldoor_e, r: Seq<DoorStart>) -> bool {
    &&& (lv1.lines@ == lv0.lines@)
    &&& (lv1.sides@ == lv0.sides@)
    &&& (lv1.sector_lines@ == lv0.sector_lines@)
    &&& (lv1.sectors.len() == lv0.sectors.len())
    &&& (forall|j: int|
            0 <= j < lv0.sectors.len() ==> #[trigger] lv1.sectors@[j] == if claims(
                lv0,
                line.tag,
                j,
            ) {
                Sector { busy: true, ..lv0.sectors@[j] }
            } else {
                lv0.sectors@[j]
            })
    &&& (forall|k: int|
            0 <= k < r.len() ==> claims(lv0, line.tag, #[trigger] r[k].door.sector as int)
                && door_start_is(lv0, r[k].door.sector as int, ty, r[k]))
    &&& (forall|k1: int, k2: int| 0 <= k1 < k2 < r.len() ==> r[k1].door.sector < r[k2].door.sector)
    &&& (forall|j: int|
            claims(lv0, line.tag, j) ==> exists|k: int|
                0 <= k < r.len() && #[trigger] r[k].door.sector == j)
}

/// Starts a door of kind `ty` in every sector that carries the line's tag
/// and has no mover yet, in sector order; those sectors become busy. The
/// action succeeded if and only if the list is not empty.
pub fn EV_DoDoor(lv: &mut Level, line: &Line, ty: vldoor_e) -> (r: Vec<DoorStart>)
    requires
        level_wf(old(lv)),
        ty != vldoor_e::raiseIn5Mins,
        forall|j: int|
            0 <= j < old(lv).sectors.len() && #[trigger] old(lv).sectors@[j].tag == line.tag
                ==> door_fits(old(lv), j),
    ensures
        door_done(old(lv), final(lv), *line, ty, r@),

{
    let idx = find_free_tagged(lv, line);
    let mut doors: Vec<DoorStart> = Vec::new();
    let n = idx.len();
    let mut k: usize = 0;
    while k < n
        invariant
            level_wf(lv),
            *lv == *old(lv),
            ty != vldoor_e::raiseIn5Mins,
            forall|j: int|
                0 <= j < lv.sectors.len() && #[trigger] lv.sectors@[j].tag == line.tag
                    ==> door_fits(lv, j),
            n == idx.len(),
            k <= n,
            doors.len() == k,
            forall|kk: int| 0 <= kk < idx.len() ==> claims(lv, line.tag, #[trigger] idx@[kk] as int),
            forall|kk: int|
                0 <= kk < k ==> #[trigger] doors@[kk].door.sector == idx@[kk] && door_start_is(
                    lv,
                    idx@[kk] as int,
                    ty,
                    doors@[kk],
                ),
        decreases n - k,
    {
        let s = idx[k];
        assert(claims(lv, line.tag, s as int));
        let st = door_for(lv, s, ty);
        doors.push(st);
        k += 1;
    }
    proof {
        assert forall|j: int| claims(old(lv), line.tag, j) implies exists|k: int|
            0 <= k < doors.len() && #[trigger] doors@[k].door.sector == j by {
            assert(idx@.contains(j as usize));
            let kk = choose|kk: int| 0 <= kk < idx.len() && idx@[kk] == j as usize;
            assert(doors@[kk].door.sector == j);
        }
    }
    mark_busy(lv, &idx);
    proof {
        assert forall|j: int| 0 <= j < old(lv).sectors.len() implies idx@.contains(j as usize) == claims(
            old(lv),
            line.tag,
            j,
        ) by {
            if idx@.contains(j as usize) {
                let kk = choose|kk: int| 0 <= kk < idx.len() && idx@[kk] == j as usize;
                assert(claims(old(lv), line.tag, idx@[kk] as int));
            }
        }
    }
    doors
}

/// The player has a key (card or skull) of the colour whose card is at
/// `card` and whose skull is at `card + 3`.
pub open spec fn has_key(cards: Seq<bool>, card: int) -> bool {
    cards[card] || cards[card + 3]
}

/// The key colour a locked line asks for (0 blue, 1 yellow, 2 red), if it
/// is one of the locked door lines that only open doors.
pub open spec fn locked_object_key(special: i16) -> Option<int> {
    if special == 99 || special == 133 {
        Some(0)
    } else if special == 134 || special == 135 {
        Some(2)
    } else if special == 136 || special == 137 {
        Some(1)
    } else {
        None
    }
}

/// The message for a missing key of colour `k` at a locked object.
pub open spec fn object_message(k: int) -> Message {
    if k == 0 {
        Message::PD_BLUEO
    } else if k == 2 {
        Message::PD_REDO
    } else {
        Message::PD_YELLOWO
    }
}

/// What trying a locked door came to.
#[derive(Debug, Clone, Copy, PartialEq, Eq, Structural)]
pub enum LockedDoor {
    /// A monster tried it: nothing happens.
    NotPlayer,
    /// The player lacks the key: show the message and grunt.
    NeedKey(Message),
    /// The key fits: the doors are those started, as `EV_DoDoor` would.
    Open,
}

/// Decides whether a locked door line (99, 133 to 137) opens for a thing:
/// only for a player holding a card or skull key of the line's colour.
/// Where it opens, the caller starts the doors with `EV_DoDoor`.
pub fn EV_DoLockedDoor(line: &Line, cards: &[bool; 6], is_player: bool) -> (r: LockedDoor)
    ensures
        !is_player ==> r == LockedDoor::NotPlayer,
        is_player ==> r == match locked_object_key(line.special) {
            Some(k) => if has_key(cards@, k) {
                LockedDoor::Open
            } else {
                LockedDoor::NeedKey(object_message(k))
            },
            None => LockedDoor::Open,
        },
{
    if !is_player {
        return LockedDoor::NotPlayer;
    }
    match line.special {
        99 | 133 => {
            if !cards[0] && !cards[3] {
                return LockedDoor::NeedKey(Message::PD_BLUEO);
            }
        },
        134 | 135 => {
            if !cards[2] && !cards[5] {
                return LockedDoor::NeedKey(Message::PD_REDO);
            }
        },
        136 | 137 => {
            if !cards[1] && !cards[4] {
                return LockedDoor::NeedKey(Message::PD_YELLOWO);
            }
        },
        _ => {},
    }
    LockedDoor::Open
}

/// The key colour a manual door line asks for (0 blue, 1 yellow, 2 red).
pub open spec fn door_key(special: i16) -> Option<int> {
    if special == 26 || special == 32 {
        Some(0)
    } else if special == 27 || special == 34 {
        Some(1)
    } else if special == 28 || special == 33 {
        Some(2)
    } else {
        None
    }
}

/// The message for a missing key of colour `k` at a door.
pub open spec fn door_message(k: int) -> Message {
    if k == 0 {
        Message::PD_BLUEK
    } else if k == 1 {
        Message::PD_YELLOWK
    } else {
        Message::PD_REDK
    }
}

/// The manual door lines.
pub open spec fn manual_door(special: i16) -> bool {
    special == 1 || special == 26 || special == 27 || special == 28 || special == 31 || special == 32
        || special == 33 || special == 34 || special == 117 || special == 118
}

/// Manual doors that a second use turns around while they move.
pub open spec fn reversible_door(special: i16) -> bool {
    special == 1 || special == 26 || special == 27 || special == 28 || special == 117
}

/// What using a manual door came to.
#[derive(Debug, Clone, Copy, PartialEq, Eq, Structural)]
pub enum ManualDoor {
    /// The player lacks the key: show the message and grunt.
    NeedKey(Message),
    /// Nothing happens (a monster at a key door, or at a moving door that
    /// it would have to close).
    Ignored,
    /// The door already moving in the sector turned around.
    Reversed,
    /// A new door started, with its sound.
    Started(vldoor_t, sfxenum_t),
}

/// The kind and speed of the door a manual door line starts.
pub open spec fn manual_kind(special: i16) -> (vldoor_e, i32) {
    if special == 117 {
        (vldoor_e::blazeRaise, 524288i32)
    } else if special == 118 {
        (vldoor_e::blazeOpen, 524288i32)
    } else if 31 <= special <= 34 {
        (vldoor_e::open, VDOORSPEED)
    } else {
        (vldoor_e::normal, VDOORSPEED)
    }
}

/// The sector behind a line: the sector of its second side.
pub open spec fn back_sector(lv: &Level, line: Line) -> int {
    lv.sides@[line.sidenum[1] as int].sector as int
}

/// A player or monster uses a manual door line (1, 26 to 28, 31 to 34, 117,
/// 118). Key doors ask the player for the key; monsters never open them.
/// Where the sector behind the line already has a door (`active`) and the
/// line is a door that closes again, the door turns around: a closing door
/// opens, and an opening or waiting one closes when a player asks. Else a
/// new door starts opening to 4 units below the lowest ceiling around; the
/// one-time lines (31 to 34, 118) lose their special.
pub fn EV_VerticalDoor(
    lv: &mut Level,
    line: &mut Line,
    is_player: bool,
    cards: &[bool; 6],
    active: &mut Option<vldoor_t>,
) -> (r: ManualDoor)
    requires
        level_wf(old(lv)),
        manual_door(old(line).special),
        0 <= old(line).sidenum[1] < old(lv).sides.len(),
        door_fits(old(lv), back_sector(old(lv), *old(line))),
        old(lv).sectors@[back_sector(old(lv), *old(line))].busy && reversible_door(old(line).special)
            ==> (*old(active)) is Some,
    ensures
        final(lv).lines@ == old(lv).lines@,
        final(lv).sides@ == old(lv).sides@,
        final(lv).sector_lines@ == old(lv).sector_lines@,
        ({
            let sec = back_sector(old(lv), *old(line));
            let special = old(line).special;
            match door_key(special) {
                Some(k) if !is_player || !has_key(cards@, k) => {
                    &&& r == if !is_player {
                        ManualDoor::Ignored
                    } else {
                        ManualDoor::NeedKey(door_message(k))
                    }
                    &&& final(lv).sectors@ == old(lv).sectors@
                    &&& *final(line) == *old(line)
                    &&& *final(active) == *old(active)
                },
                _ => if old(lv).sectors@[sec].busy && reversible_door(special) {
                    let d = old(active).unwrap();
                    &&& final(lv).sectors@ == old(lv).sectors@
                    &&& *final(line) == *old(line)
                    &&& if d.direction == -1 {
                        r == ManualDoor::Reversed && *final(active) == Some(vldoor_t { direction: 1, ..d })
                    } else if !is_player {
                        r == ManualDoor::Ignored && *final(active) == *old(active)
                    } else {
                        r == ManualDoor::Reversed && *final(active) == Some(vldoor_t { direction: -1i32, ..d })
                    }
                } else {
                    let (ty, speed) = manual_kind(special);
                    &&& *final(active) == *old(active)
                    &&& final(lv).sectors@ == old(lv).sectors@.update(
                        sec,
                        Sector { busy: true, ..old(lv).sectors@[sec] },
                    )
                    &&& *final(line) == if (31 <= special <= 34) || special == 118 {
                        Line { special: 0, ..*old(line) }
                    } else {
                        *old(line)
                    }
                    &&& r matches ManualDoor::Started(d, snd)
                    &&& snd == if special == 117 || special == 118 {
                        sfxenum_t::sfx_bdopn
                    } else {
                        sfxenum_t::sfx_doropn
                    }
                    &&& d.ty == ty && d.speed == speed && d.sector == sec && d.direction == 1
                    &&& d.topwait == VDOORWAIT && d.topcountdown == 0
                    &&& exists|c: int|
                        #[trigger] lowest_ceiling_is(old(lv), sec, c) && d.topheight == c - 4 * FRACUNIT
                },
            }
        }),
{
    let special = line.special;
    if special == 26 || special == 32 {
        if !is_player {
            return ManualDoor::Ignored;
        }
        if !cards[0] && !cards[3] {
            return ManualDoor::NeedKey(Message::PD_BLUEK);
        }
    } else if special == 27 || special == 34 {
        if !is_player {
            return ManualDoor::Ignored;
        }
        if !cards[1] && !cards[4] {
            return ManualDoor::NeedKey(Message::PD_YELLOWK);
        }
    } else if special == 28 || special == 33 {
        if !is_player {
            return ManualDoor::Ignored;
        }
        if !cards[2] && !cards[5] {
            return ManualDoor::NeedKey(Message::PD_REDK);
        }
    }
    let sec = lv.sides[line.sidenum[1] as usize].sector;
    if lv.sectors[sec].busy && (special == 1 || special == 26 || special == 27 || special == 28
        || special == 117) {
        let mut d = active.unwrap();
        if d.direction == -1 {
            d.direction = 1;
        } else {
            if !is_player {
                return ManualDoor::Ignored;
            }
            d.direction = -1;
        }
        *active = Some(d);
        return ManualDoor::Reversed;
    }
    let snd = if special == 117 || special == 118 {
        sfxenum_t::sfx_bdopn
    } else {
        sfxenum_t::sfx_doropn
    };
    let mut d = vldoor_t {
        ty: vldoor_e::normal,
        sector: sec,
        topheight: 0,
        speed: VDOORSPEED,
        direction: 1,
        topwait: VDOORWAIT,
        topcountdown: 0,
    };
    if special >= 31 && special <= 34 {
        d.ty = vldoor_e::open;
        line.special = 0;
    } else if special == 117 {
        d.ty = vldoor_e::blazeRaise;
        d.speed = VDOORSPEED * 4;
    } else if special == 118 {
        d.ty = vldoor_e::blazeOpen;
        line.special = 0;
        d.speed = VDOORSPEED * 4;
    }
    d.topheight = door_top(lv, sec);
    let mut s = lv.sectors[sec];
    s.busy = true;
    lv.sectors.set(sec, s);
    ManualDoor::Started(d, snd)
}

/// Sets up the door of a sector special that closes after thirty seconds:
/// the door waits, then closes; the sector is busy and loses its special.
/// The door's top height and wait, which it never uses, are the sector's
/// ceiling and 0.
pub fn P_SpawnDoorCloseIn30(lv: &mut Level, sec: usize) -> (r: vldoor_t)
    requires
        sec < old(lv).sectors.len(),
    ensures
        final(lv).lines@ == old(lv).lines@,
        final(lv).sides@ == old(lv).sides@,
        final(lv).sector_lines@ == old(lv).sector_lines@,
        final(lv).sectors@ == old(lv).sectors@.update(
            sec as int,
            Sector { busy: true, special: 0, ..old(lv).sectors@[sec as int] },
        ),
        r == (vldoor_t {
            ty: vldoor_e::normal,
            sector: sec,
            topheight: old(lv).sectors@[sec as int].ceilingheight,
            speed: VDOORSPEED,
            direction: 0,
            topwait: 0,
            topcountdown: 1050u32,
        }),
{
    let mut s = lv.sectors[sec];
    let top = s.ceilingheight;
    s.busy = true;
    s.special = 0;
    lv.sectors.set(sec, s);
    vldoor_t {
        ty: vldoor_e::normal,
        sector: sec,
        topheight: top,
        speed: VDOORSPEED,
        direction: 0,
        topwait: 0,
        topcountdown: 30 * 35,
    }
}

/// Sets up the door of a sector special that opens after five minutes, to
/// 4 units below the lowest ceiling around; the sector is busy and loses
/// its special.
pub fn P_SpawnDoorRaiseIn5Mins(lv: &mut Level, sec: usize) -> (r: vldoor_t)
    requires
        level_wf(old(lv)),
        sec < old(lv).sectors.len(),
        door_fits(old(lv), sec as int),
    ensures
        final(lv).lines@ == old(lv).lines@,
        final(lv).sides@ == old(lv).sides@,
        final(lv).sector_lines@ == old(lv).sector_lines@,
        final(lv).sectors@ == old(lv).sectors@.update(
            sec as int,
            Sector { busy: true, special: 0, ..old(lv).sectors@[sec as int] },
        ),
        r.ty == vldoor_e::raiseIn5Mins,
        r.sector == sec,
        r.speed == VDOORSPEED,
        r.direction == 2,
        r.topwait == VDOORWAIT,
        r.topcountdown == 5 * 60 * 35,
        exists|c: int|
            #[trigger] lowest_ceiling_is(old(lv), sec as int, c) && r.topheight == c - 4 * FRACUNIT,
{
    let top = door_top(lv, sec);
    let mut s = lv.sectors[sec];
    s.busy = true;
    s.special = 0;
    lv.sectors.set(sec, s);
    vldoor_t {
        ty: vldoor_e::raiseIn5Mins,
        sector: sec,
        topheight: top,
        speed: VDOORSPEED,
        direction: 2,
        topwait: VDOORWAIT,
        topcountdown: 5 * 60 * 35,
    }
}

} // verus!
