use lib::ceilings::P_RunActiveCeiling;
use lib::plats::P_RunActivePlat;
use lib::ceilings::{
    EV_CeilingCrushStop, EV_DoCeiling, P_ActivateInStasisCeiling, P_AddActiveCeiling,
    P_RemoveActiveCeiling, T_MoveCeiling, ceiling_t,
};
use lib::doors::{
    DoorTick, EV_DoDoor, EV_DoLockedDoor, EV_VerticalDoor, LockedDoor, ManualDoor,
    P_SpawnDoorCloseIn30, P_SpawnDoorRaiseIn5Mins, T_VerticalDoor, vldoor_t,
};
use lib::fixed::FRACUNIT;
use lib::floors::{T_MoveFloor, floor_e, floormove_t, result_e};
use lib::level::{Level, Line, ML_TWOSIDED, Sector, Side};
use lib::movers::{ceiling_e, plat_e, plattype_e, vldoor_e};
use lib::plats::{EV_DoPlat, EV_StopPlat, P_ActivateInStasis, P_RemoveActivePlat, T_PlatRaise, plat_t};
use lib::sounds::{Message, sfxenum_t};

fn sector(floor: i32, ceiling: i32, tag: i16) -> Sector {
    Sector {
        floorheight: floor * FRACUNIT,
        ceilingheight: ceiling * FRACUNIT,
        floorpic: 3,
        ceilingpic: 4,
        lightlevel: 160,
        special: 0,
        tag,
        busy: false,
    }
}

/// A door sector 1 (tag 5) between two rooms, 0 and 2.
fn corridor() -> Level {
    let mut door = sector(0, 0, 5);
    door.floorpic = 9;
    let sectors = vec![sector(0, 128, 0), door, sector(-8, 96, 0)];
    let sides = vec![
        Side { textureoffset: 0, rowoffset: 0, toptexture: 1, bottomtexture: 0, midtexture: 0, sector: 0 },
        Side { textureoffset: 0, rowoffset: 0, toptexture: 2, bottomtexture: 0, midtexture: 0, sector: 1 },
        Side { textureoffset: 0, rowoffset: 0, toptexture: 1, bottomtexture: 0, midtexture: 0, sector: 2 },
        Side { textureoffset: 0, rowoffset: 0, toptexture: 2, bottomtexture: 0, midtexture: 0, sector: 1 },
    ];
    let lines = vec![
        Line { flags: ML_TWOSIDED, special: 1, tag: 0, sidenum: [0, 1], frontsector: 0, backsector: Some(1) },
        Line { flags: ML_TWOSIDED, special: 0, tag: 0, sidenum: [2, 3], frontsector: 2, backsector: Some(1) },
    ];
    let sector_lines = vec![vec![0], vec![0, 1], vec![1]];
    Level { sectors, sector_lines, lines, sides }
}

fn tag_line(special: i16, tag: i16) -> Line {
    Line { flags: 0, special, tag, sidenum: [0, -1], frontsector: 0, backsector: None }
}

#[test]
fn door_opens_to_below_lowest_ceiling() {
    let mut lv = corridor();
    let doors = EV_DoDoor(&mut lv, &tag_line(29, 5), vldoor_e::normal);
    assert_eq!(doors.len(), 1);
    let d = doors[0].door;
    assert_eq!(d.sector, 1);
    assert_eq!(d.topheight, 92 * FRACUNIT);
    assert_eq!(d.direction, 1);
    assert_eq!(d.speed, 2 * FRACUNIT);
    assert_eq!(doors[0].sound, Some(sfxenum_t::sfx_doropn));
    assert!(lv.sectors[1].busy);
    assert!(EV_DoDoor(&mut lv, &tag_line(29, 5), vldoor_e::normal).is_empty());
}

#[test]
fn door_cycle_up_wait_down() {
    let mut lv = corridor();
    let mut d = EV_DoDoor(&mut lv, &tag_line(29, 5), vldoor_e::normal)[0].door;
    let mut s = lv.sectors[1];
    // rises two units per tic until it reaches its top
    let t = T_VerticalDoor(&mut d, &mut s, false);
    assert_eq!(s.ceilingheight, 2 * FRACUNIT);
    assert_eq!(t.plane.unwrap().result, result_e::ok);
    s.ceilingheight = 91 * FRACUNIT;
    let t = T_VerticalDoor(&mut d, &mut s, false);
    assert_eq!(t.plane.unwrap().result, result_e::pastdest);
    assert_eq!(s.ceilingheight, 92 * FRACUNIT);
    assert_eq!(d.direction, 0);
    assert_eq!(d.topcountdown, 150);
    d.topcountdown = 1;
    let t = T_VerticalDoor(&mut d, &mut s, false);
    assert_eq!(t, DoorTick { plane: None, sound: Some(sfxenum_t::sfx_dorcls), done: false });
    assert_eq!(d.direction, -1);
    // something in the way: it goes back up
    let t = T_VerticalDoor(&mut d, &mut s, true);
    assert_eq!(t.plane.unwrap().result, result_e::crushed);
    assert_eq!(t.sound, Some(sfxenum_t::sfx_doropn));
    assert_eq!(d.direction, 1);
    assert_eq!(s.ceilingheight, 92 * FRACUNIT);
    d.direction = -1;
    s.ceilingheight = FRACUNIT;
    let t = T_VerticalDoor(&mut d, &mut s, false);
    assert!(t.done);
    assert_eq!(s.ceilingheight, 0);
    assert!(!s.busy);
}

#[test]
fn locked_doors_need_keys() {
    let line = tag_line(133, 5);
    let none = [false; 6];
    let mut skull = [false; 6];
    skull[3] = true;
    assert_eq!(EV_DoLockedDoor(&line, &none, true), LockedDoor::NeedKey(Message::PD_BLUEO));
    assert_eq!(EV_DoLockedDoor(&line, &skull, true), LockedDoor::Open);
    assert_eq!(EV_DoLockedDoor(&line, &skull, false), LockedDoor::NotPlayer);
    assert_eq!(EV_DoLockedDoor(&tag_line(135, 5), &skull, true), LockedDoor::NeedKey(Message::PD_REDO));
}

#[test]
fn manual_door_opens_and_reverses() {
    let mut lv = corridor();
    let mut line = lv.lines[0];
    let mut active: Option<vldoor_t> = None;
    let r = EV_VerticalDoor(&mut lv, &mut line, true, &[false; 6], &mut active);
    let d = match r {
        ManualDoor::Started(d, snd) => {
            assert_eq!(snd, sfxenum_t::sfx_doropn);
            d
        }
        other => panic!("{:?}", other),
    };
    assert_eq!(d.ty, vldoor_e::normal);
    assert_eq!(d.topheight, 92 * FRACUNIT);
    assert!(lv.sectors[1].busy);
    // pressed again while opening: it closes
    let mut active = Some(d);
    let r = EV_VerticalDoor(&mut lv, &mut line, true, &[false; 6], &mut active);
    assert_eq!(r, ManualDoor::Reversed);
    assert_eq!(active.unwrap().direction, -1);
    // a monster never closes it, but reopens a closing one
    let r = EV_VerticalDoor(&mut lv, &mut line, false, &[false; 6], &mut active);
    assert_eq!(r, ManualDoor::Reversed);
    assert_eq!(active.unwrap().direction, 1);
    let r = EV_VerticalDoor(&mut lv, &mut line, false, &[false; 6], &mut active);
    assert_eq!(r, ManualDoor::Ignored);
}

#[test]
fn blue_manual_door_needs_key() {
    let mut lv = corridor();
    let mut line = lv.lines[0];
    line.special = 26;
    let mut active = None;
    let r = EV_VerticalDoor(&mut lv, &mut line, true, &[false; 6], &mut active);
    assert_eq!(r, ManualDoor::NeedKey(Message::PD_BLUEK));
    assert!(!lv.sectors[1].busy);
    line.special = 32;
    let mut keys = [false; 6];
    keys[0] = true;
    let r = EV_VerticalDoor(&mut lv, &mut line, true, &keys, &mut active);
    assert!(matches!(r, ManualDoor::Started(d, _) if d.ty == vldoor_e::open));
    assert_eq!(line.special, 0);
}

#[test]
fn timed_doors_from_sector_specials() {
    let mut lv = corridor();
    lv.sectors[1].special = 10;
    let d = P_SpawnDoorCloseIn30(&mut lv, 1);
    assert_eq!(d.direction, 0);
    assert_eq!(d.topcountdown, 1050);
    assert_eq!(lv.sectors[1].special, 0);
    assert!(lv.sectors[1].busy);
    let mut lv = corridor();
    let d = P_SpawnDoorRaiseIn5Mins(&mut lv, 1);
    assert_eq!(d.direction, 2);
    assert_eq!(d.topcountdown, 5 * 60 * 35);
    assert_eq!(d.topheight, 92 * FRACUNIT);
    let mut d2 = vldoor_t { topcountdown: 1, ..d };
    let mut s = lv.sectors[1];
    let t = T_VerticalDoor(&mut d2, &mut s, false);
    assert_eq!(t.sound, Some(sfxenum_t::sfx_doropn));
    assert_eq!(d2.direction, 1);
    assert_eq!(d2.ty, vldoor_e::normal);
}

#[test]
fn crusher_stops_and_restarts() {
    let mut lv = corridor();
    lv.sectors[0].tag = 5;
    lv.sectors[1].ceilingheight = 64 * FRACUNIT;
    let mut table: Vec<Option<ceiling_t>> = vec![None; 30];
    let cs = EV_DoCeiling(&mut lv, &mut table, &tag_line(25, 5), ceiling_e::crushAndRaise);
    assert_eq!(cs.len(), 2);
    assert_eq!(cs[0].sector, 0);
    assert_eq!(cs[1].bottomheight, 8 * FRACUNIT);
    assert_eq!(cs[1].topheight, 64 * FRACUNIT);
    assert!(cs[1].crush);
    assert_eq!(table[0], Some(cs[0]));
    assert_eq!(table[1], Some(cs[1]));
    assert!(EV_CeilingCrushStop(&mut table, &tag_line(57, 5)));
    assert_eq!(table[1].unwrap().direction, 0);
    assert_eq!(table[1].unwrap().olddirection, -1);
    assert!(!EV_CeilingCrushStop(&mut table, &tag_line(57, 5)));
    P_ActivateInStasisCeiling(&mut table, &tag_line(73, 5));
    assert_eq!(table[1].unwrap().direction, -1);
    assert!(P_RemoveActiveCeiling(&mut table, 1));
    assert_eq!(table[1], None);
    assert!(!P_RemoveActiveCeiling(&mut table, 1));
    P_AddActiveCeiling(&mut table, cs[1]);
    assert_eq!(table[1], Some(cs[1]));
}

#[test]
fn crusher_slows_when_it_hits() {
    let mut c = ceiling_t {
        ty: ceiling_e::crushAndRaise,
        sector: 0,
        bottomheight: 8 * FRACUNIT,
        topheight: 64 * FRACUNIT,
        speed: FRACUNIT,
        crush: true,
        direction: -1,
        tag: 5,
        olddirection: 0,
    };
    let mut s = sector(0, 64, 5);
    let t = T_MoveCeiling(&mut c, &mut s, true, 8);
    assert_eq!(t.plane.unwrap().result, result_e::crushed);
    assert!(t.move_sound);
    assert_eq!(c.speed, FRACUNIT / 8);
    assert_eq!(s.ceilingheight, 63 * FRACUNIT);
    s.ceilingheight = 8 * FRACUNIT;
    let t = T_MoveCeiling(&mut c, &mut s, false, 1);
    assert_eq!(t.plane.unwrap().result, result_e::pastdest);
    assert!(!t.move_sound);
    assert_eq!(c.speed, FRACUNIT);
    assert_eq!(c.direction, 1);
}

#[test]
fn silent_crusher_cycles() {
    let mut c = ceiling_t {
        ty: ceiling_e::silentCrushAndRaise,
        sector: 0,
        bottomheight: 8 * FRACUNIT,
        topheight: 64 * FRACUNIT,
        speed: FRACUNIT / 8,
        crush: true,
        direction: -1,
        tag: 5,
        olddirection: 0,
    };
    let mut s = sector(0, 9, 5);
    s.ceilingheight = 8 * FRACUNIT + FRACUNIT / 16;
    let t = T_MoveCeiling(&mut c, &mut s, false, 8);
    assert_eq!(t.plane.unwrap().result, result_e::pastdest);
    assert!(t.stop_sound);
    assert!(!t.move_sound);
    assert_eq!(s.ceilingheight, 8 * FRACUNIT);
    assert_eq!(c.direction, 1);
    assert_eq!(c.speed, FRACUNIT);
    s.ceilingheight = 63 * FRACUNIT + FRACUNIT / 2;
    let t = T_MoveCeiling(&mut c, &mut s, false, 8);
    assert_eq!(t.plane.unwrap().result, result_e::pastdest);
    assert!(t.stop_sound);
    assert_eq!(s.ceilingheight, 64 * FRACUNIT);
    assert_eq!(c.direction, -1);
}

#[test]
fn lift_goes_down_waits_and_returns() {
    let mut lv = corridor();
    lv.sectors[1].floorheight = 64 * FRACUNIT;
    lv.sectors[1].ceilingheight = 128 * FRACUNIT;
    let mut table: Vec<Option<plat_t>> = vec![None; 30];
    let ps = EV_DoPlat(&mut lv, &mut table, &tag_line(62, 5), plattype_e::downWaitUpStay, 0, &vec![]);
    assert_eq!(ps.len(), 1);
    let mut p = ps[0].plat;
    assert_eq!(p.low, -8 * FRACUNIT);
    assert_eq!(p.high, 64 * FRACUNIT);
    assert_eq!(p.status, plat_e::down);
    assert_eq!(p.wait, 105);
    assert_eq!(ps[0].sound, sfxenum_t::sfx_pstart);
    assert_eq!(table[0], Some(p));
    let mut s = lv.sectors[1];
    s.floorheight = -6 * FRACUNIT;
    let t = T_PlatRaise(&mut p, &mut s, false, 3);
    assert_eq!(t.sound, Some(sfxenum_t::sfx_pstop));
    assert_eq!(s.floorheight, -8 * FRACUNIT);
    assert_eq!(p.status, plat_e::waiting);
    p.count = 1;
    let t = T_PlatRaise(&mut p, &mut s, false, 3);
    assert_eq!(t.sound, Some(sfxenum_t::sfx_pstart));
    assert_eq!(p.status, plat_e::up);
    s.floorheight = 62 * FRACUNIT;
    let t = T_PlatRaise(&mut p, &mut s, false, 3);
    assert!(t.done);
    assert!(P_RemoveActivePlat(&mut table, 1));
}

#[test]
fn perpetual_lift_stops_and_restarts() {
    let mut lv = corridor();
    let mut table: Vec<Option<plat_t>> = vec![None; 30];
    let ps = EV_DoPlat(&mut lv, &mut table, &tag_line(53, 5), plattype_e::perpetualRaise, 0, &vec![1]);
    assert_eq!(ps[0].plat.status, plat_e::down);
    assert_eq!(ps[0].plat.low, -8 * FRACUNIT);
    assert_eq!(ps[0].plat.high, 0);
    EV_StopPlat(&mut table, &tag_line(54, 5));
    assert_eq!(table[0].unwrap().status, plat_e::in_stasis);
    assert_eq!(table[0].unwrap().oldstatus, plat_e::down);
    P_ActivateInStasis(&mut table, 5);
    assert_eq!(table[0].unwrap().status, plat_e::down);
}

#[test]
fn raise_and_change_takes_front_texture() {
    let mut lv = corridor();
    let mut table: Vec<Option<plat_t>> = vec![None; 30];
    let ps = EV_DoPlat(&mut lv, &mut table, &tag_line(14, 5), plattype_e::raiseAndChange, 32, &vec![]);
    assert_eq!(ps[0].plat.high, 32 * FRACUNIT);
    assert_eq!(ps[0].sound, sfxenum_t::sfx_stnmov);
    assert_eq!(lv.sectors[1].floorpic, 3);
}

#[test]
fn floor_mover_changes_on_arrival() {
    let m = floormove_t {
        ty: floor_e::lowerAndChange,
        crush: false,
        sector: 0,
        direction: -1,
        newspecial: 7,
        texture: 11,
        floordestheight: -16 * FRACUNIT,
        speed: FRACUNIT,
    };
    let mut s = sector(0, 128, 0);
    s.busy = true;
    let t = T_MoveFloor(&m, &mut s, false, 8);
    assert!(t.move_sound && !t.done);
    assert_eq!(s.floorheight, -FRACUNIT);
    s.floorheight = -16 * FRACUNIT + 10;
    let t = T_MoveFloor(&m, &mut s, false, 9);
    assert!(t.done && !t.move_sound);
    assert_eq!(s.floorheight, -16 * FRACUNIT);
    assert_eq!((s.special, s.floorpic, s.busy), (7, 11, false));
}

use lib::actions::{ActionResult, P_CrossLineAction, P_DoLineAction, P_UseLineAction};
use lib::lights::EV_StartLightStrobing;
use lib::switches::{Crosser, LineAction};

fn switch_front() -> Side {
    Side { textureoffset: 0, rowoffset: 0, toptexture: 0, bottomtexture: 0, midtexture: 10, sector: 0 }
}

#[test]
fn a_used_switch_opens_the_door_and_stays_on() {
    let mut lv = corridor();
    let mut ceilings: Vec<Option<ceiling_t>> = vec![None; 30];
    let mut plats: Vec<Option<plat_t>> = vec![None; 30];
    let mut line = tag_line(103, 5);
    let mut front = switch_front();
    let switches = vec![10i16, 11];
    let (o, done) = P_UseLineAction(
        &mut lv, &mut ceilings, &mut plats, &mut line, &mut front, &switches, 1, 0, true, &[false; 6], &vec![0; 4], &vec![],
    );
    assert!(o.used);
    match done.unwrap() {
        ActionResult::Doors(v) => assert_eq!(v.len(), 1),
        _ => panic!("doors expected"),
    }
    assert!(lv.sectors[1].busy);
    assert_eq!(line.special, 0);
    assert_eq!(front.midtexture, 11);
    // used again: the door is busy, nothing starts and the switch does not flip
    let mut line = tag_line(103, 5);
    let mut front = switch_front();
    let (o, done) = P_UseLineAction(
        &mut lv, &mut ceilings, &mut plats, &mut line, &mut front, &switches, 1, 0, true, &[false; 6], &vec![0; 4], &vec![],
    );
    assert!(o.flip.is_none());
    assert!(!done.unwrap().started());
    assert_eq!(line.special, 103);
}

#[test]
fn crossing_and_direct_actions() {
    let mut lv = corridor();
    let mut ceilings: Vec<Option<ceiling_t>> = vec![None; 30];
    let mut plats: Vec<Option<plat_t>> = vec![None; 30];
    let mut line = tag_line(2, 5);
    let r = P_CrossLineAction(&mut lv, &mut ceilings, &mut plats, &mut line, Crosser::Player, &[false; 6], &vec![0; 4], &vec![]);
    assert!(r.unwrap().started());
    assert_eq!(line.special, 0);
    let mut line = tag_line(52, 5);
    let r = P_CrossLineAction(&mut lv, &mut ceilings, &mut plats, &mut line, Crosser::Player, &[false; 6], &vec![0; 4], &vec![]);
    assert!(matches!(r, Some(ActionResult::Exit(false))));
    let r = P_DoLineAction(&mut lv, &mut ceilings, &mut plats, &tag_line(0, 5), LineAction::StopPlat, true, &[false; 6], &vec![0; 4], &vec![]);
    assert!(matches!(r, ActionResult::PlatsStopped));
}

#[test]
fn strobes_start_in_free_tagged_sectors() {
    let mut lv = corridor();
    let r = EV_StartLightStrobing(&mut lv, &tag_line(0, 5), &vec![3]);
    assert!(r[0].is_none() && r[2].is_none());
    let s = r[1].unwrap();
    assert_eq!((s.sector, s.darktime, s.brighttime, s.count), (1, 35, 5, 4));
    assert_eq!(lv.sectors[1].special, 0);
    lv.sectors[1].busy = true;
    let r = EV_StartLightStrobing(&mut lv, &tag_line(0, 5), &vec![]);
    assert!(r.iter().all(|x| x.is_none()));
}

#[test]
fn a_stopped_crusher_in_the_table_stands_still_until_restarted() {
    let mut lv = corridor();
    lv.sectors[1].ceilingheight = 64 * FRACUNIT;
    let mut table: Vec<Option<ceiling_t>> = vec![None; 30];
    EV_DoCeiling(&mut lv, &mut table, &tag_line(25, 5), ceiling_e::crushAndRaise);
    let mut sectors = lv.sectors.clone();
    let t = P_RunActiveCeiling(&mut table, 0, &mut sectors, false, 1).unwrap();
    assert_eq!(t.plane.unwrap().result, result_e::ok);
    assert_eq!(sectors[1].ceilingheight, 63 * FRACUNIT);
    EV_CeilingCrushStop(&mut table, &tag_line(57, 5));
    let t = P_RunActiveCeiling(&mut table, 0, &mut sectors, false, 2).unwrap();
    assert!(t.plane.is_none());
    assert_eq!(sectors[1].ceilingheight, 63 * FRACUNIT);
    P_ActivateInStasisCeiling(&mut table, &tag_line(73, 5));
    P_RunActiveCeiling(&mut table, 0, &mut sectors, false, 3);
    assert_eq!(sectors[1].ceilingheight, 62 * FRACUNIT);
    // An empty slot runs nothing.
    assert!(P_RunActiveCeiling(&mut table, 5, &mut sectors, false, 4).is_none());
}

#[test]
fn a_finished_lift_leaves_the_table_and_frees_its_sector() {
    let mut lv = corridor();
    lv.sectors[1].floorheight = 64 * FRACUNIT;
    lv.sectors[1].ceilingheight = 128 * FRACUNIT;
    let mut table: Vec<Option<plat_t>> = vec![None; 30];
    EV_DoPlat(&mut lv, &mut table, &tag_line(62, 5), plattype_e::downWaitUpStay, 0, &vec![]);
    assert!(lv.sectors[1].busy);
    let mut sectors = lv.sectors.clone();
    sectors[1].floorheight = 62 * FRACUNIT;
    let mut p = table[0].unwrap();
    p.status = plat_e::up;
    table[0] = Some(p);
    let t = P_RunActivePlat(&mut table, 0, &mut sectors, false, 3).unwrap();
    assert!(t.done);
    assert_eq!(table[0], None);
    assert!(!sectors[1].busy);
    assert_eq!(sectors[1].floorheight, 64 * FRACUNIT);
}
