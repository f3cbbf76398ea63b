use lib::level::{getSector, getSide};
use lib::animate::{AnimLookup, LevelTimer, P_InitPicAnims, P_UpdateSpecials, anim_t};
use lib::ceilings::ceiling_t;
use lib::fixed::FRACUNIT;
use lib::floors::{EV_DoDonut, floor_e};
use lib::level::{Level, Line, ML_TWOSIDED, Sector, Side};
use lib::plats::plat_t;
use lib::player::{Player, playerstate_t, pspdef_t, weapontype_t};
use lib::sectors::{P_PlayerInSpecialSector, P_SpawnSpecials, Spawned};
use lib::switches::{bwhere_e, button_t};

fn sector(floor: i32, light: i16, special: i16, tag: i16) -> Sector {
    Sector {
        floorheight: floor * FRACUNIT,
        ceilingheight: 128 * FRACUNIT,
        floorpic: floor as i16,
        ceilingpic: 0,
        lightlevel: light,
        special,
        tag,
        busy: false,
    }
}

fn side(sector: usize) -> Side {
    Side { textureoffset: 0, rowoffset: 0, toptexture: 0, bottomtexture: 0, midtexture: 0, sector }
}

/// Pillar 0 inside ring 1 inside room 2.
fn donut() -> Level {
    let sectors = vec![sector(64, 160, 0, 9), sector(0, 160, 0, 0), sector(-24, 160, 0, 0)];
    let sides = vec![side(1), side(0), side(2), side(1)];
    let lines = vec![
        Line { flags: ML_TWOSIDED, special: 0, tag: 0, sidenum: [0, 1], frontsector: 1, backsector: Some(0) },
        Line { flags: ML_TWOSIDED, special: 0, tag: 0, sidenum: [3, 2], frontsector: 1, backsector: Some(2) },
    ];
    Level { sectors, sector_lines: vec![vec![0], vec![0, 1], vec![1]], lines, sides }
}

#[test]
fn donut_raises_ring_and_lowers_pillar() {
    let mut lv = donut();
    let line = Line { flags: 0, special: 9, tag: 9, sidenum: [0, -1], frontsector: 1, backsector: None };
    let (rtn, moves) = EV_DoDonut(&mut lv, &line);
    assert!(rtn);
    assert_eq!(moves.len(), 2);
    assert_eq!((moves[0].ty, moves[0].sector, moves[0].direction), (floor_e::donutRaise, 1, 1));
    assert_eq!(moves[0].floordestheight, -24 * FRACUNIT);
    assert_eq!(moves[0].texture, -24);
    assert_eq!(moves[0].speed, FRACUNIT / 2);
    assert_eq!((moves[1].ty, moves[1].sector, moves[1].direction), (floor_e::lowerFloor, 0, -1));
    assert!(lv.sectors[0].busy && lv.sectors[1].busy && !lv.sectors[2].busy);
    let (rtn, moves) = EV_DoDonut(&mut lv, &line);
    assert!(!rtn && moves.is_empty());
}

fn player() -> Player {
    Player {
        playerstate: playerstate_t::PST_LIVE,
        health: 100,
        mo_health: 100,
        mo_shadow: false,
        armorpoints: 0,
        armortype: 0,
        powers: [0; 6],
        cards: [false; 6],
        backpack: false,
        readyweapon: weapontype_t::wp_pistol,
        pendingweapon: weapontype_t::wp_nochange,
        weaponowned: [true, true, false, false, false, false, false, false, false],
        ammo: [50, 0, 0, 0],
        maxammo: [200, 50, 300, 50],
        bonuscount: 0,
        damagecount: 0,
        itemcount: 0,
        cheats: 2,
        refire: 0,
        attackdown: false,
        message: None,
        psprites: [pspdef_t { state: None, tics: 0, sx: 0, sy: 0 }; 2],
        extralight: 0,
        usedown: false,
        fixedcolormap: 0,
    }
}

#[test]
fn standing_in_special_sectors() {
    let mut p = player();
    let mut nukage = sector(0, 160, 7, 0);
    assert_eq!(P_PlayerInSpecialSector(&mut p, &mut nukage, true, 32, 0).damage, 5);
    assert_eq!(P_PlayerInSpecialSector(&mut p, &mut nukage, true, 33, 0).damage, 0);
    assert_eq!(P_PlayerInSpecialSector(&mut p, &mut nukage, false, 32, 0).damage, 0);
    p.powers[3] = 100;
    assert_eq!(P_PlayerInSpecialSector(&mut p, &mut nukage, true, 32, 0).damage, 0);
    let mut strobe = sector(0, 160, 4, 0);
    assert_eq!(P_PlayerInSpecialSector(&mut p, &mut strobe, true, 64, 3).damage, 20);
    assert_eq!(P_PlayerInSpecialSector(&mut p, &mut strobe, true, 64, 200).damage, 0);
    let mut secret = sector(0, 160, 9, 0);
    assert!(P_PlayerInSpecialSector(&mut p, &mut secret, true, 1, 0).secret);
    assert_eq!(secret.special, 0);
    let mut exit = sector(0, 160, 11, 0);
    let e = P_PlayerInSpecialSector(&mut p, &mut exit, true, 0, 0);
    assert!(e.exit_when_weak && e.damage == 20);
    assert_eq!(p.cheats, 0);
    let mut odd = sector(0, 160, 99, 0);
    assert!(P_PlayerInSpecialSector(&mut p, &mut odd, true, 0, 0).unknown);
}

#[test]
fn level_load_starts_effects() {
    let mut lv = donut();
    lv.sectors[0].special = 1;
    lv.sectors[1].special = 12;
    lv.sectors[2].special = 9;
    lv.sectors[0].lightlevel = 200;
    lv.sectors[1].lightlevel = 100;
    lv.lines[1].special = 48;
    let mut ceilings: Vec<Option<ceiling_t>> = vec![None; 2];
    let mut plats: Vec<Option<plat_t>> = vec![None; 6];
    let mut buttons = vec![button_t { line: 3, where_: bwhere_e::middle, btexture: 2, btimer: 7 }; 2];
    let r = P_SpawnSpecials(&mut lv, &vec![5], 1, true, Some(2), &mut ceilings, &mut plats, &mut buttons);
    match r.effects[0] {
        Some(Spawned::Flash(f)) => {
            assert_eq!((f.maxlight, f.minlight, f.count), (200, 100, 1));
        }
        other => panic!("{:?}", other),
    }
    match r.effects[1] {
        Some(Spawned::Strobe(s)) => {
            assert_eq!((s.maxlight, s.minlight, s.darktime, s.count), (100, 0, 35, 1));
        }
        other => panic!("{:?}", other),
    }
    assert_eq!(r.effects[2], Some(Spawned::Secret));
    assert_eq!(r.secrets, 1);
    assert_eq!(r.level_timer, Some(2 * 60 * 35));
    assert_eq!(r.scrollers, vec![1]);
    assert_eq!(lv.sectors[0].special, 0);
    assert_eq!(lv.sectors[2].special, 9);
    assert_eq!(buttons[0], button_t { line: 0, where_: bwhere_e::top, btexture: 0, btimer: 0 });
}

#[test]
fn animations_scrolling_and_buttons() {
    let defs = vec![
        AnimLookup { istexture: false, start: Some(2), end: 4, speed: 8 },
        AnimLookup { istexture: true, start: None, end: 0, speed: 8 },
        AnimLookup { istexture: true, start: Some(0), end: 1, speed: 8 },
    ];
    let anims = P_InitPicAnims(&defs).unwrap();
    assert_eq!(anims.len(), 2);
    assert_eq!(anims[0], anim_t { istexture: false, picnum: 4, basepic: 2, numpics: 3, speed: 8 });
    let bad = vec![AnimLookup { istexture: false, start: Some(3), end: 3, speed: 8 }];
    assert_eq!(P_InitPicAnims(&bad), Err(0));
    let mut lv = donut();
    let mut timer = LevelTimer { running: true, count: 1 };
    let mut tex: Vec<usize> = (0..4).collect();
    let mut flats: Vec<usize> = (0..6).collect();
    let mut buttons = vec![
        button_t { line: 1, where_: bwhere_e::middle, btexture: 7, btimer: 1 },
        button_t { line: 0, where_: bwhere_e::top, btexture: 9, btimer: 5 },
    ];
    let r = P_UpdateSpecials(&mut lv, &mut timer, &anims, 16, &mut tex, &mut flats, &vec![1], &mut buttons);
    assert!(r.exit_level);
    assert_eq!(r.popped, vec![1]);
    // leveltime 16 / speed 8 = 2: picture i shows basepic + (2 + i) % numpics
    assert_eq!(flats, vec![0, 1, 3, 4, 2, 5]);
    assert_eq!(tex, vec![0, 1, 2, 3]);
    assert_eq!(lv.sides[3].textureoffset, FRACUNIT);
    assert_eq!(lv.sides[3].midtexture, 7);
    assert_eq!(buttons[0].btimer, 0);
    assert_eq!(buttons[1].btimer, 4);
}

/// Three steps in a row, 0 -> 1 -> 2, all with floor texture 5; step 0 is
/// tagged 3.
fn steps() -> Level {
    let mut sectors = vec![sector(0, 160, 0, 3), sector(0, 160, 0, 0), sector(0, 160, 0, 0)];
    for s in sectors.iter_mut() {
        s.floorpic = 5;
    }
    let sides = vec![side(0), side(1), side(1), side(2)];
    let lines = vec![
        Line { flags: ML_TWOSIDED, special: 0, tag: 0, sidenum: [0, 1], frontsector: 0, backsector: Some(1) },
        Line { flags: ML_TWOSIDED, special: 0, tag: 0, sidenum: [2, 3], frontsector: 1, backsector: Some(2) },
    ];
    Level { sectors, sector_lines: vec![vec![0], vec![0, 1], vec![1]], lines, sides }
}

#[test]
fn staircase_rises_step_by_step() {
    let mut lv = steps();
    let line = Line { flags: 0, special: 7, tag: 3, sidenum: [0, -1], frontsector: 0, backsector: None };
    let (rtn, moves) = lib::floors::EV_BuildStairs(&mut lv, &line, lib::floors::stair_e::build8);
    assert!(rtn);
    assert_eq!(moves.len(), 3);
    assert_eq!(moves.iter().map(|m| m.sector).collect::<Vec<_>>(), vec![0, 1, 2]);
    assert_eq!(
        moves.iter().map(|m| m.floordestheight).collect::<Vec<_>>(),
        vec![8 * FRACUNIT, 16 * FRACUNIT, 24 * FRACUNIT]
    );
    assert!(moves.iter().all(|m| m.speed == FRACUNIT / 4 && m.direction == 1));
    assert!(lv.sectors.iter().all(|s| s.busy));
    let (rtn, moves) = lib::floors::EV_BuildStairs(&mut lv, &line, lib::floors::stair_e::turbo16);
    assert!(!rtn && moves.is_empty());
}

#[test]
fn staircase_stops_at_other_texture() {
    let mut lv = steps();
    lv.sectors[2].floorpic = 6;
    let line = Line { flags: 0, special: 127, tag: 3, sidenum: [0, -1], frontsector: 0, backsector: None };
    let (_, moves) = lib::floors::EV_BuildStairs(&mut lv, &line, lib::floors::stair_e::turbo16);
    assert_eq!(moves.len(), 2);
    assert_eq!(moves[1].floordestheight, 32 * FRACUNIT);
    assert_eq!(moves[1].speed, 4 * FRACUNIT);
    assert!(!lv.sectors[2].busy);
}

#[test]
fn sides_and_sectors_of_a_sector_line() {
    let lv = donut();
    assert_eq!(getSide(&lv, 1, 0, 1).sector, 0);
    assert_eq!(getSide(&lv, 1, 1, 0).sector, 1);
    assert_eq!(getSector(&lv, 1, 1, 1), 2);
    assert_eq!(getSector(&lv, 0, 0, 0), 1);
}
