use lib::collide::{
    P_TryMove, ThingPos, P_CheckPosition, CheckLine, Checker, MoveSpace, Mover, PIT_CheckLine, PIT_CheckThing, Shooter, ThingHit, Touchable, ML_BLOCKING,
    ML_BLOCKMONSTERS, MF_PICKUP, MF_SPECIAL,
};
use lib::crush::{MF_SHOOTABLE, MF_SOLID};
use lib::enemy::mobjtype_t;
use lib::zmove::{MF_MISSILE, MF_NOCLIP, MF_SKULLFLY};
use lib::level::Sector;
use lib::teleport::TeleMap;
use lib::fixed::FRACUNIT;
use lib::geom::{slopetype_t, LineGeom, Vertex};

const F: i32 = FRACUNIT;

/// A line across x = 0 from y = -64 to 64.
fn wall(flags: i16, special: i16, back: Option<(i32, i32)>) -> CheckLine {
    CheckLine {
        id: 4,
        geom: LineGeom { v1: Vertex { x: 0, y: -64 * F }, dx: 0, dy: 128 * F, slopetype: slopetype_t::ST_VERTICAL },
        bbox: [64 * F, -64 * F, 0, 0],
        flags,
        special,
        front: (0, 128 * F),
        back,
    }
}

fn mover_at(x: i32, missile: bool, is_player: bool) -> Mover {
    Mover { tmbbox: [16 * F, -16 * F, (x - 16) * F, (x + 16) * F], missile, is_player }
}

fn space() -> MoveSpace {
    MoveSpace { floorz: 0, ceilingz: 128 * F, dropoffz: 8 * F, ceilingline: None }
}

#[test]
fn a_one_sided_line_blocks() {
    let mut s = space();
    let mut hits = vec![];
    assert!(!PIT_CheckLine(&mover_at(0, false, true), &wall(0, 0, None), &mut s, &mut hits));
    assert_eq!(s, space());
    assert!(hits.is_empty());
}

#[test]
fn a_line_out_of_reach_is_ignored() {
    let mut s = space();
    let mut hits = vec![];
    assert!(PIT_CheckLine(&mover_at(100, false, true), &wall(0, 0, None), &mut s, &mut hits));
    assert!(PIT_CheckLine(&mover_at(20, false, true), &wall(0, 0, None), &mut s, &mut hits));
    assert_eq!(s, space());
}

#[test]
fn a_two_sided_line_narrows_the_gap_and_notes_specials() {
    let mut s = space();
    let mut hits = vec![];
    assert!(PIT_CheckLine(&mover_at(0, false, true), &wall(0, 97, Some((24 * F, 96 * F))), &mut s, &mut hits));
    assert_eq!(s.ceilingz, 96 * F);
    assert_eq!(s.ceilingline, Some(4));
    assert_eq!(s.floorz, 24 * F);
    assert_eq!(s.dropoffz, 0);
    assert_eq!(hits.len(), 1);
    assert_eq!(hits[0].id, 4);
}

#[test]
fn blocking_flags_stop_walkers_but_not_missiles() {
    let open = Some((0, 128 * F));
    let mut s = space();
    let mut hits = vec![];
    assert!(!PIT_CheckLine(&mover_at(0, false, false), &wall(ML_BLOCKMONSTERS, 0, open), &mut s, &mut hits));
    assert!(PIT_CheckLine(&mover_at(0, false, true), &wall(ML_BLOCKMONSTERS, 0, open), &mut s, &mut hits));
    assert!(!PIT_CheckLine(&mover_at(0, false, true), &wall(ML_BLOCKING, 0, open), &mut s, &mut hits));
    assert!(PIT_CheckLine(&mover_at(0, true, false), &wall(ML_BLOCKING, 0, open), &mut s, &mut hits));
}

fn imp(id: usize) -> Touchable {
    Touchable {
        id,
        flags: MF_SOLID | MF_SHOOTABLE,
        x: 10 * F,
        y: 0,
        z: 0,
        height: 56 * F,
        radius: 20 * F,
        kind: mobjtype_t::MT_OTHER(11),
    }
}

fn ball(shooter: Option<Shooter>) -> Checker {
    Checker {
        id: 50,
        flags: MF_MISSILE,
        z: 32 * F,
        height: 8 * F,
        radius: 6 * F,
        momx: 10 * F,
        momy: 0,
        momz: 0,
        damage: 3,
        target: shooter,
    }
}

#[test]
fn a_flying_skull_slams_and_stops() {
    let mut skull = Checker { flags: MF_SKULLFLY, damage: 3, ..ball(None) };
    let r = PIT_CheckThing(&imp(1), &mut skull, 0, 0, 5);
    assert_eq!(r, (false, ThingHit::Slam(18)));
    assert_eq!(skull.flags & MF_SKULLFLY, 0);
    assert_eq!((skull.momx, skull.momy, skull.momz), (0, 0, 0));
}

#[test]
fn missiles_hit_spare_and_explode() {
    let imp_kind = mobjtype_t::MT_OTHER(11);
    // A stray shot hits with one to eight times its damage.
    let mut b = ball(None);
    assert_eq!(PIT_CheckThing(&imp(1), &mut b, 0, 0, 7), (false, ThingHit::Missile(24)));
    // It spares its shooter and explodes harmlessly on its kin.
    let mut b = ball(Some(Shooter { id: 1, kind: imp_kind }));
    assert_eq!(PIT_CheckThing(&imp(1), &mut b, 0, 0, 7), (true, ThingHit::Nothing));
    assert_eq!(PIT_CheckThing(&imp(2), &mut b, 0, 0, 7), (false, ThingHit::Explode));
    // Barons and knights are kin.
    let knight = Touchable { kind: mobjtype_t::MT_KNIGHT, ..imp(3) };
    let mut b = ball(Some(Shooter { id: 9, kind: mobjtype_t::MT_BRUISER }));
    assert_eq!(PIT_CheckThing(&knight, &mut b, 0, 0, 0), (false, ThingHit::Explode));
    // Players shoot players.
    let marine = Touchable { kind: mobjtype_t::MT_PLAYER, ..imp(4) };
    let mut b = ball(Some(Shooter { id: 8, kind: mobjtype_t::MT_PLAYER }));
    assert_eq!(PIT_CheckThing(&marine, &mut b, 0, 0, 0), (false, ThingHit::Missile(3)));
    // Over its head, the shot flies on.
    let mut b = Checker { z: 60 * F, ..ball(None) };
    assert_eq!(PIT_CheckThing(&imp(1), &mut b, 0, 0, 0), (true, ThingHit::Nothing));
    // A column stops it without damage.
    let column = Touchable { flags: MF_SOLID, ..imp(5) };
    let mut b = ball(None);
    assert_eq!(PIT_CheckThing(&column, &mut b, 0, 0, 0), (false, ThingHit::Nothing));
}

#[test]
fn items_are_picked_up_and_scenery_blocks() {
    let medkit = Touchable { flags: MF_SPECIAL, ..imp(6) };
    let mut walker = Checker { flags: MF_PICKUP, target: None, ..ball(None) };
    assert_eq!(PIT_CheckThing(&medkit, &mut walker, 0, 0, 0), (true, ThingHit::Pickup));
    let mut monster = Checker { flags: 0, ..walker };
    assert_eq!(PIT_CheckThing(&medkit, &mut monster, 0, 0, 0), (true, ThingHit::Nothing));
    assert_eq!(PIT_CheckThing(&imp(1), &mut monster, 0, 0, 0), (false, ThingHit::Nothing));
    // Out of reach, or itself, it passes.
    assert_eq!(PIT_CheckThing(&imp(1), &mut monster, 40 * F, 0, 0), (true, ThingHit::Nothing));
    let me = Touchable { id: 50, ..imp(1) };
    assert_eq!(PIT_CheckThing(&me, &mut monster, 0, 0, 0), (true, ThingHit::Nothing));
}

fn room() -> TeleMap {
    let s = Sector {
        floorheight: 0,
        ceilingheight: 128 * F,
        floorpic: 0,
        ceilingpic: 0,
        lightlevel: 160,
        special: 0,
        tag: 0,
        busy: false,
    };
    TeleMap { nodes: vec![], subsector_sector: vec![0], sectors: vec![s] }
}

fn walker(flags: u32) -> Checker {
    Checker { id: 50, flags, z: 0, height: 56 * F, radius: 16 * F, momx: 0, momy: 0, momz: 0, damage: 0, target: None }
}

#[test]
fn a_position_is_checked_against_things_then_lines() {
    let medkit = Touchable { flags: MF_SPECIAL, ..imp(6) };
    let step = wall(0, 97, Some((24 * F, 96 * F)));
    // The medkit is picked up on the way; the imp is in the way.
    let mut w = walker(MF_PICKUP);
    let r = P_CheckPosition(&room(), &mut w, true, 0, 0, &vec![medkit, imp(1)], &vec![step], 0);
    assert!(!r.ok);
    assert_eq!(r.hits, vec![(6, ThingHit::Pickup)]);
    assert_eq!(r.space.ceilingz, 128 * F);
    assert!(r.spechit.is_empty());
    // Without the imp, the step narrows the space and its special is noted.
    let r = P_CheckPosition(&room(), &mut w, true, 0, 0, &vec![medkit], &vec![step], 0);
    assert!(r.ok);
    assert_eq!((r.space.floorz, r.space.ceilingz, r.space.dropoffz), (24 * F, 96 * F, 0));
    assert_eq!(r.spechit.len(), 1);
    assert_eq!(r.spechit[0].id, 4);
    // What passes through walls fits anywhere.
    let mut ghost = walker(MF_NOCLIP);
    let r = P_CheckPosition(&room(), &mut ghost, false, 0, 0, &vec![imp(1)], &vec![wall(0, 0, None)], 0);
    assert!(r.ok && r.hits.is_empty());
    assert_eq!(r.space.floorz, 0);
}

#[test]
fn a_move_over_a_low_step_crosses_its_line() {
    let mut w = walker(MF_PICKUP);
    let mut pos = ThingPos { x: -32 * F, y: 0, floorz: 0, ceilingz: 128 * F };
    let r = P_TryMove(&room(), &mut w, &mut pos, true, 4 * F, 0, &vec![], &vec![wall(0, 97, Some((24 * F, 96 * F)))], 0);
    assert!(r.ok && r.floatok);
    assert_eq!(pos, ThingPos { x: 4 * F, y: 0, floorz: 24 * F, ceilingz: 96 * F });
    assert_eq!(r.crossed, vec![(4, true)]);
}

#[test]
fn too_high_a_step_or_too_low_a_gap_stops_a_move() {
    let start = ThingPos { x: -32 * F, y: 0, floorz: 0, ceilingz: 128 * F };
    let mut w = walker(MF_PICKUP);
    let mut pos = start;
    let r = P_TryMove(&room(), &mut w, &mut pos, true, 4 * F, 0, &vec![], &vec![wall(0, 0, Some((32 * F, 128 * F)))], 0);
    assert!(!r.ok && r.floatok);
    assert_eq!(pos, start);
    let r = P_TryMove(&room(), &mut w, &mut pos, true, 4 * F, 0, &vec![], &vec![wall(0, 0, Some((0, 40 * F)))], 0);
    assert!(!r.ok && !r.floatok);
    assert!(r.crossed.is_empty());
}
