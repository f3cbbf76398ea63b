//! Carrying out the action of a line special (see `switches`) on the
//! tagged sectors of the level: doors, floors, ceilings, platforms, stairs,
//! donuts and lights, through their own functions. Teleporting, leaving
//! the level and manual doors, which need the things of the level or the
//! player's door, are handed back to the caller.

use vstd::prelude::*;

use crate::ceilings::{EV_CeilingCrushStop, EV_DoCeiling, ceiling_done, ceiling_fits, ceiling_t, stopped};
use crate::doors::{DoorStart, EV_DoDoor, EV_DoLockedDoor, LockedDoor, door_done, door_fits, has_key, locked_object_key};
use crate::floors::{
    EV_BuildStairs, EV_DoDonut, EV_DoFloor, busy_of, donut_ok, donut_upto, floor_done, floor_e, floor_fits,
    floormove_t, stair_params, stairs_from, textures_wf,
};
use crate::level::{Level, Line, claim_count, level_wf};
use crate::lights::{EV_LightTurnOn, EV_StartLightStrobing, EV_TurnTagLightsOff, lights_off_upto, lights_on_upto, strobe_t, strobes_before};
use crate::movers::vldoor_e;
use crate::plats::{EV_DoPlat, EV_StopPlat, PlatStart, free_slots, plat_done, plat_fits, plat_t, plats_stopped};
use crate::movers::plattype_e;
use crate::level::Side;
use crate::switches::{
    Crosser, LineAction, MAXSWITCHES, P_CrossSpecialLine, P_ShootSpecialLine, P_UseSpecialLine, SwitchFlip,
    UseEffect, UseOutcome, cross_effect, effect_switched, shoot_effect, use_effect, use_lookup,
};

verus! {

/// What carrying out a line's action did.
pub enum ActionResult {
    Doors(Vec<DoorStart>),
    /// A locked door that did not open: a monster tried it, or the player
    /// lacks the key.
    Locked(LockedDoor),
    Floors(Vec<floormove_t>),
    Ceilings(Vec<ceiling_t>),
    CeilingsAndFloors(Vec<ceiling_t>, Vec<floormove_t>),
    /// Whether stairs were started, and their steps.
    Stairs(bool, Vec<floormove_t>),
    Plats(Vec<PlatStart>),
    /// Whether a donut was started, and its two floors per sector.
    Donut(bool, Vec<floormove_t>),
    /// The strobe each sector got.
    Strobes(Vec<Option<strobe_t>>),
    PlatsStopped,
    /// Whether a moving crusher was stopped.
    CrushersStopped(bool),
    Lights,
    /// The caller opens the door behind the line with `EV_VerticalDoor`.
    ManualDoor,
    /// The caller teleports the thing that crossed the line.
    Teleport,
    /// The caller ends the level (to the secret level where the flag says
    /// so).
    Exit(bool),
}

/// The lines, sides and sector lists of the level stay as they are.
pub open spec fn frame_kept(lv0: &Level, lv1: &Level) -> bool {
    &&& lv1.lines@ == lv0.lines@
    &&& lv1.sides@ == lv0.sides@
    &&& lv1.sector_lines@ == lv0.sector_lines@
}

/// Floor kinds whose arithmetic cannot leave fixed-point range.
pub open spec fn floor_always_fits(ft: floor_e) -> bool {
    ft != floor_e::turboLower && ft != floor_e::raiseFloorCrush && ft != floor_e::raiseFloor24
        && ft != floor_e::raiseFloor24AndChange && ft != floor_e::raiseFloor512 && ft != floor_e::raiseToTexture
        && ft != floor_e::donutRaise
}

/// The action can be carried out on the level: each mover's arithmetic
/// stays in range for every tagged sector, the platform table has room,
/// and there are enough random bytes.
pub open spec fn action_fits(
    lv: &Level,
    plats: Seq<Option<plat_t>>,
    line: Line,
    action: LineAction,
    th: Seq<i32>,
    randoms: Seq<u8>,
) -> bool {
    &&& level_wf(lv)
    &&& match action {
        LineAction::Door(ty) | LineAction::LockedDoor(ty) => ty != vldoor_e::raiseIn5Mins && forall|j: int|
            0 <= j < lv.sectors.len() && #[trigger] lv.sectors@[j].tag == line.tag ==> door_fits(lv, j),
        LineAction::Floor(ft) => line.frontsector < lv.sectors.len() && textures_wf(lv, th) && ft
            != floor_e::donutRaise && forall|j: int| 0 <= j < lv.sectors.len() && #[trigger] lv.sectors@[j].tag == line.tag ==> floor_fits(lv, j, ft, th),
        LineAction::Ceiling(ct) => forall|j: int| 0 <= j < lv.sectors.len() && #[trigger] lv.sectors@[j].tag == line.tag ==> ceiling_fits(lv, j, ct),
        LineAction::CeilingAndFloor(ct, ft) => line.frontsector < lv.sectors.len() && textures_wf(lv, th)
            && floor_always_fits(ft) && forall|j: int| 0 <= j < lv.sectors.len() && #[trigger] lv.sectors@[j].tag == line.tag ==> ceiling_fits(lv, j, ct),
        LineAction::Stairs(st) => stairs_from(
            lv,
            line.tag,
            busy_of(lv.sectors@),
            -1,
            stair_params(st).0,
            stair_params(st).1,
        ).3,
        LineAction::Plat(pt, amount) => {
            &&& 0 <= line.sidenum[0] < lv.sides.len()
            &&& forall|j: int| 0 <= j < lv.sectors.len() && #[trigger] lv.sectors@[j].tag == line.tag ==> plat_fits(lv, j, pt, amount)
            &&& claim_count(lv, line.tag, lv.sectors.len() as int) <= free_slots(plats)
            &&& pt == plattype_e::perpetualRaise ==> claim_count(lv, line.tag, lv.sectors.len() as int)
                <= randoms.len()
        },
        LineAction::Donut => donut_ok(lv, line.tag),
        LineAction::StartLightStrobing => strobes_before(lv, line.tag, lv.sectors.len() as int) <= randoms.len(),
        _ => true,
    }
}

/// What carrying out `action` from `line` does: the level `lv0`, the
/// active ceilings `c0` and platforms `p0` become `lv1`, `c1` and `p1`, and
/// the result is `r` (see each action's function).
pub open spec fn action_done(
    lv0: &Level,
    lv1: &Level,
    c0: Seq<Option<ceiling_t>>,
    c1: Seq<Option<ceiling_t>>,
    p0: Seq<Option<plat_t>>,
    p1: Seq<Option<plat_t>>,
    line: Line,
    action: LineAction,
    is_player: bool,
    cards: Seq<bool>,
    th: Seq<i32>,
    randoms: Seq<u8>,
    r: ActionResult,
) -> bool {
    let unchanged = *lv1 == *lv0 && c1 == c0 && p1 == p0;
    match action {
        LineAction::Door(ty) => c1 == c0 && p1 == p0 && r is Doors && door_done(lv0, lv1, line, ty, r->Doors_0@),
        LineAction::LockedDoor(ty) => {
            let opens = is_player && match locked_object_key(line.special) {
                Some(k) => has_key(cards, k),
                None => true,
            };
            if opens {
                c1 == c0 && p1 == p0 && r is Doors && door_done(lv0, lv1, line, ty, r->Doors_0@)
            } else {
                unchanged && r is Locked && r->Locked_0 != LockedDoor::Open
            }
        },
        LineAction::VerticalDoor => unchanged && r is ManualDoor,
        LineAction::Floor(ft) => c1 == c0 && p1 == p0 && r is Floors && floor_done(lv0, lv1, line, ft, th, r->Floors_0@),
        LineAction::Ceiling(ct) => p1 == p0 && r is Ceilings && ceiling_done(lv0, lv1, c0, c1, line, ct, r->Ceilings_0@),
        LineAction::CeilingAndFloor(ct, ft) => p1 == p0 && r is CeilingsAndFloors && exists|mid: Level|
            #[trigger] ceiling_done(lv0, &mid, c0, c1, line, ct, r->CeilingsAndFloors_0@) && floor_done(
            &mid,
            lv1,
            line,
            ft,
            th,
            r->CeilingsAndFloors_1@,
        ),
        LineAction::Stairs(st) => {
            let (b, ms, rtn, _fits) = stairs_from(
                lv0,
                line.tag,
                busy_of(lv0.sectors@),
                -1,
                stair_params(st).0,
                stair_params(st).1,
            );
            &&& c1 == c0 && p1 == p0 && frame_kept(lv0, lv1)
            &&& lv1.sectors.len() == lv0.sectors.len()
            &&& forall|k: int|
                0 <= k < lv0.sectors.len() ==> #[trigger] lv1.sectors@[k] == (crate::level::Sector {
                    busy: b[k],
                    ..lv0.sectors@[k]
                })
            &&& r is Stairs
            &&& r->Stairs_0 == rtn
            &&& r->Stairs_1@ == ms
        },
        LineAction::Plat(pt, amount) => c1 == c0 && r is Plats && plat_done(lv0, lv1, p0, p1, line, pt, amount, randoms, r->Plats_0@),
        LineAction::StopPlat => *lv1 == *lv0 && c1 == c0 && p1 == plats_stopped(p0, line.tag as i32)
            && r is PlatsStopped,
        LineAction::CeilingCrushStop => *lv1 == *lv0 && p1 == p0 && c1 == stopped(c0, line.tag as i32)
            && r is CrushersStopped && r->CrushersStopped_0 == exists|i: int|
            0 <= i < c0.len() && crate::ceilings::moving_with_tag(#[trigger] c0[i], line.tag as i32),
        LineAction::LightTurnOn(bright) => c1 == c0 && p1 == p0 && frame_kept(lv0, lv1) && lv1.sectors@
            == lights_on_upto(lv0, line.tag, bright as int, lv0.sectors.len() as int).0 && r is Lights,
        LineAction::TurnTagLightsOff => c1 == c0 && p1 == p0 && frame_kept(lv0, lv1) && lv1.sectors@
            == lights_off_upto(lv0, line.tag, lv0.sectors.len() as int) && r is Lights,
        LineAction::StartLightStrobing => {
            &&& c1 == c0 && p1 == p0 && frame_kept(lv0, lv1)
            &&& lv1.sectors.len() == lv0.sectors.len()
            &&& forall|j: int|
                0 <= j < lv0.sectors.len() ==> #[trigger] lv1.sectors@[j] == if crate::lights::strobe_claims(
                    lv0,
                    line.tag,
                    j,
                ) {
                    crate::level::Sector { special: 0, ..lv0.sectors@[j] }
                } else {
                    lv0.sectors@[j]
                }
            &&& r is Strobes
            &&& r->Strobes_0.len() == lv0.sectors.len()
            &&& forall|j: int|
                0 <= j < r->Strobes_0.len() ==> (#[trigger] r->Strobes_0@[j] is Some <==> crate::lights::strobe_claims(lv0, line.tag, j))
                    && (r->Strobes_0@[j] is Some ==> crate::lights::strobe_is(
                    lv0,
                    j,
                    randoms[strobes_before(lv0, line.tag, j) as int],
                    r->Strobes_0@[j]->0,
                ))
        },
        LineAction::Donut => {
            let (secs, ms, ok) = donut_upto(lv0, line.tag, lv0.sectors.len() as int);
            c1 == c0 && p1 == p0 && frame_kept(lv0, lv1) && lv1.sectors@ == secs && r is Donut && r->Donut_0 == ok
                && r->Donut_1@ == ms
        },
        LineAction::Teleport => unchanged && r is Teleport,
        LineAction::ExitLevel => unchanged && r == ActionResult::Exit(false),
        LineAction::SecretExitLevel => unchanged && r == ActionResult::Exit(true),
    }
}

/// Whether the action started anything: some mover, a stopped crusher,
/// stairs or a donut; the other actions always count as done.
pub open spec fn action_started(r: ActionResult) -> bool {
    match r {
        ActionResult::Doors(v) => v.len() > 0,
        ActionResult::Locked(_) => false,
        ActionResult::Floors(v) => v.len() > 0,
        ActionResult::Ceilings(v) => v.len() > 0,
        ActionResult::CeilingsAndFloors(c, f) => c.len() > 0 || f.len() > 0,
        ActionResult::Stairs(b, _) => b,
        ActionResult::Plats(v) => v.len() > 0,
        ActionResult::Donut(b, _) => b,
        ActionResult::CrushersStopped(b) => b,
        _ => true,
    }
}

impl ActionResult {
    /// Whether the action started anything (see `action_started`); what a
    /// switch that flips on success is told.
    pub fn started(&self) -> (r: bool)
        ensures
            r == action_started(*self),
    {
        match self {
            ActionResult::Doors(v) => v.len() > 0,
            ActionResult::Locked(_) => false,
            ActionResult::Floors(v) => v.len() > 0,
            ActionResult::Ceilings(v) => v.len() > 0,
            ActionResult::CeilingsAndFloors(c, f) => c.len() > 0 || f.len() > 0,
            ActionResult::Stairs(b, _) => *b,
            ActionResult::Plats(v) => v.len() > 0,
            ActionResult::Donut(b, _) => *b,
            ActionResult::CrushersStopped(b) => *b,
            _ => true,
        }
    }
}

/// Carries out the action of a line special (see `action_done`): `cards`
/// are the keys of the thing that set it off, `textureheight` the heights
/// of the wall textures, `randoms` the random bytes that new platforms and
/// strobes draw in turn.
pub fn P_DoLineAction(
    lv: &mut Level,
    ceilings: &mut Vec<Option<ceiling_t>>,
    plats: &mut Vec<Option<plat_t>>,
    line: &Line,
    action: LineAction,
    is_player: bool,
    cards: &[bool; 6],
    textureheight: &Vec<i32>,
    randoms: &Vec<u8>,
) -> (r: ActionResult)
    requires
        action_fits(old(lv), old(plats)@, *line, action, textureheight@, randoms@),
    ensures
        action_done(
            old(lv),
            final(lv),
            old(ceilings)@,
            final(ceilings)@,
            old(plats)@,
            final(plats)@,
            *line,
            action,
            is_player,
            cards@,
            textureheight@,
            randoms@,
            r,
        ),
{
    match action {
        LineAction::Door(ty) => ActionResult::Doors(EV_DoDoor(lv, line, ty)),
        LineAction::LockedDoor(ty) => match EV_DoLockedDoor(line, cards, is_player) {
            LockedDoor::Open => ActionResult::Doors(EV_DoDoor(lv, line, ty)),
            l => ActionResult::Locked(l),
        },
        LineAction::VerticalDoor => ActionResult::ManualDoor,
        LineAction::Floor(ft) => ActionResult::Floors(EV_DoFloor(lv, line, ft, textureheight)),
        LineAction::Ceiling(ct) => ActionResult::Ceilings(EV_DoCeiling(lv, ceilings, line, ct)),
        LineAction::CeilingAndFloor(ct, ft) => {
            let cs = EV_DoCeiling(lv, ceilings, line, ct);
            let ghost mid = *lv;
            let fs = EV_DoFloor(lv, line, ft, textureheight);
            let r = ActionResult::CeilingsAndFloors(cs, fs);
            proof {
                assert(ceiling_done(old(lv), &mid, old(ceilings)@, ceilings@, *line, ct, cs@));
                assert(floor_done(&mid, lv, *line, ft, textureheight@, fs@));
                assert(r->CeilingsAndFloors_0@ == cs@ && r->CeilingsAndFloors_1@ == fs@);
                assert(exists|m: Level|
                    #[trigger] ceiling_done(old(lv), &m, old(ceilings)@, ceilings@, *line, ct, r->CeilingsAndFloors_0@)
                        && floor_done(&m, lv, *line, ft, textureheight@, r->CeilingsAndFloors_1@));
            }
            r
        },
        LineAction::Stairs(st) => {
            let (b, v) = EV_BuildStairs(lv, line, st);
            ActionResult::Stairs(b, v)
        },
        LineAction::Plat(pt, amount) => ActionResult::Plats(EV_DoPlat(lv, plats, line, pt, amount, randoms)),
        LineAction::StopPlat => {
            EV_StopPlat(plats, line);
            ActionResult::PlatsStopped
        },
        LineAction::CeilingCrushStop => ActionResult::CrushersStopped(EV_CeilingCrushStop(ceilings, line)),
        LineAction::LightTurnOn(bright) => {
            EV_LightTurnOn(lv, line, bright);
            ActionResult::Lights
        },
        LineAction::TurnTagLightsOff => {
            EV_TurnTagLightsOff(lv, line);
            ActionResult::Lights
        },
        LineAction::StartLightStrobing => ActionResult::Strobes(EV_StartLightStrobing(lv, line, randoms)),
        LineAction::Donut => {
            let (b, v) = EV_DoDonut(lv, line);
            ActionResult::Donut(b, v)
        },
        LineAction::Teleport => ActionResult::Teleport,
        LineAction::ExitLevel => ActionResult::Exit(false),
        LineAction::SecretExitLevel => ActionResult::Exit(true),
    }
}

/// The outcome of an action that may not have run.
pub open spec fn started_opt(r: Option<ActionResult>) -> bool {
    match r {
        Some(a) => action_started(a),
        None => false,
    }
}

/// A thing crosses a line: the line's walk-over action (see
/// `P_CrossSpecialLine`, which also takes a one-time special off the line)
/// is carried out (see `P_DoLineAction`).
pub fn P_CrossLineAction(
    lv: &mut Level,
    ceilings: &mut Vec<Option<ceiling_t>>,
    plats: &mut Vec<Option<plat_t>>,
    line: &mut Line,
    crosser: Crosser,
    cards: &[bool; 6],
    textureheight: &Vec<i32>,
    randoms: &Vec<u8>,
) -> (r: Option<ActionResult>)
    requires
        cross_effect(old(line).special, crosser) matches Some(e) ==> action_fits(
            old(lv),
            old(plats)@,
            *old(line),
            e.action,
            textureheight@,
            randoms@,
        ),
    ensures
        *final(line) == if (cross_effect(old(line).special, crosser) matches Some(e) && e.once) {
            Line { special: 0, ..*old(line) }
        } else {
            *old(line)
        },
        match cross_effect(old(line).special, crosser) {
            Some(e) => r is Some && action_done(
                old(lv),
                final(lv),
                old(ceilings)@,
                final(ceilings)@,
                old(plats)@,
                final(plats)@,
                *old(line),
                e.action,
                crosser == Crosser::Player,
                cards@,
                textureheight@,
                randoms@,
                r->0,
            ),
            None => r is None && *final(lv) == *old(lv) && final(ceilings)@ == old(ceilings)@ && final(plats)@
                == old(plats)@,
        },
{
    let l0 = *line;
    match P_CrossSpecialLine(line, crosser) {
        Some(a) => Some(
            P_DoLineAction(lv, ceilings, plats, &l0, a, crosser == Crosser::Player, cards, textureheight, randoms),
        ),
        None => None,
    }
}

/// A thing uses a line from `side` (0 = front), whose front side is
/// `front`: where the use is taken and the special has an action, the
/// action is carried out (see `P_DoLineAction`), then the switch flips as
/// the special's timing says, told whether the action started anything
/// (see `P_UseSpecialLine`).
pub fn P_UseLineAction(
    lv: &mut Level,
    ceilings: &mut Vec<Option<ceiling_t>>,
    plats: &mut Vec<Option<plat_t>>,
    line: &mut Line,
    front: &mut Side,
    switchlist: &Vec<i16>,
    numswitches: usize,
    side: i32,
    is_player: bool,
    cards: &[bool; 6],
    textureheight: &Vec<i32>,
    randoms: &Vec<u8>,
) -> (r: (UseOutcome, Option<ActionResult>))
    requires
        numswitches <= MAXSWITCHES,
        2 * numswitches <= switchlist.len(),
        use_effect(*old(line), side, is_player) matches Some(e) ==> action_fits(
            old(lv),
            old(plats)@,
            *old(line),
            e.action,
            textureheight@,
            randoms@,
        ),
    ensures
        r.0.effect == use_effect(*old(line), side, is_player),
        r.0.used == !crate::switches::use_refused(*old(line), side, is_player),
        match use_effect(*old(line), side, is_player) {
            Some(e) => r.1 is Some && action_done(
                old(lv),
                final(lv),
                old(ceilings)@,
                final(ceilings)@,
                old(plats)@,
                final(plats)@,
                *old(line),
                e.action,
                is_player,
                cards@,
                textureheight@,
                randoms@,
                r.1->0,
            ),
            None => r.1 is None && *final(lv) == *old(lv) && final(ceilings)@ == old(ceilings)@
                && final(plats)@ == old(plats)@,
        },
        effect_switched(
            r.0.effect,
            started_opt(r.1),
            *old(line),
            *old(front),
            switchlist@,
            numswitches as int,
            *final(line),
            *final(front),
            r.0.flip,
        ),
{
    let l0 = *line;
    let refused = (side != 0 && l0.special != 124) || (!is_player && (l0.flags & crate::level::ML_SECRET != 0
        || !(l0.special == 1 || l0.special == 32 || l0.special == 33 || l0.special == 34)));
    let effect = if refused {
        None
    } else {
        use_lookup(l0.special)
    };
    let done = match effect {
        Some(e) => Some(P_DoLineAction(lv, ceilings, plats, &l0, e.action, is_player, cards, textureheight, randoms)),
        None => None,
    };
    let started = match &done {
        Some(a) => a.started(),
        None => false,
    };
    let o = P_UseSpecialLine(line, front, switchlist, numswitches, side, is_player, started);
    (o, done)
}

/// A shot hits a line whose front side is `front`: the shoot action is
/// carried out (see `P_DoLineAction`), then the switch flips (see
/// `P_ShootSpecialLine`).
pub fn P_ShootLineAction(
    lv: &mut Level,
    ceilings: &mut Vec<Option<ceiling_t>>,
    plats: &mut Vec<Option<plat_t>>,
    line: &mut Line,
    front: &mut Side,
    switchlist: &Vec<i16>,
    numswitches: usize,
    is_player: bool,
    cards: &[bool; 6],
    textureheight: &Vec<i32>,
    randoms: &Vec<u8>,
) -> (r: (Option<SwitchFlip>, Option<ActionResult>))
    requires
        numswitches <= MAXSWITCHES,
        2 * numswitches <= switchlist.len(),
        shoot_effect(old(line).special, is_player) matches Some(e) ==> action_fits(
            old(lv),
            old(plats)@,
            *old(line),
            e.action,
            textureheight@,
            randoms@,
        ),
    ensures
        match shoot_effect(old(line).special, is_player) {
            Some(e) => r.1 is Some && action_done(
                old(lv),
                final(lv),
                old(ceilings)@,
                final(ceilings)@,
                old(plats)@,
                final(plats)@,
                *old(line),
                e.action,
                is_player,
                cards@,
                textureheight@,
                randoms@,
                r.1->0,
            ),
            None => r.1 is None && *final(lv) == *old(lv) && final(ceilings)@ == old(ceilings)@
                && final(plats)@ == old(plats)@,
        },
        effect_switched(
            shoot_effect(old(line).special, is_player),
            true,
            *old(line),
            *old(front),
            switchlist@,
            numswitches as int,
            *final(line),
            *final(front),
            r.0,
        ),
{
    let l0 = *line;
    let (effect, flip) = P_ShootSpecialLine(line, front, switchlist, numswitches, is_player);
    let done = match effect {
        Some(e) => Some(P_DoLineAction(lv, ceilings, plats, &l0, e.action, is_player, cards, textureheight, randoms)),
        None => None,
    };
    (flip, done)
}

} // verus!
