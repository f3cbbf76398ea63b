use lib::weapons::{P_SetPspriteState, WeaponState};
use lib::geom::R_PointToDist;
use lib::geom::R_PointInSubsector;
use lib::geom::R_ScaleFromGlobalAngle;
use lib::fixed::{FRACUNIT, FixedDiv, FixedMul};
use lib::geom::{
    LineGeom, Opening, P_AproxDistance, P_BoxOnLineSide, P_DivlineSide, P_InterceptVector,
    P_LineOpening, P_MakeDivline, P_PointOnDivlineSide, P_PointOnLineSide, R_PointOnSegSide,
    R_PointOnSide, Side, Vertex, divline_t, node_t, slopetype_t,
};
use lib::inter::{
    P_GiveAmmo, P_GiveArmor, P_GiveBody, P_GiveCard, P_GivePower, P_GiveWeapon,
    P_TouchSpecialThing, Pickup, SpecialThing, Toucher, TouchResult,
};
use lib::player::{
    GameEnv, GameMode_t, Player, ammotype_t, card_t, playerstate_t, powertype_t, psprnum_t, pspdef_t, WeaponFrame,
    skill_t, weapontype_t,
};
use lib::sounds::{Message, sfxenum_t};
use lib::weapons::{
    A_Light2, FrameInfo, LOWERSPEED, P_BringUpWeapon, P_CheckAmmo, P_DropWeapon, P_MovePsprites, P_SetPsprite,
    RAISESPEED, WEAPONBOTTOM, WEAPONTOP,
};

fn player() -> Player {
    Player {
        playerstate: playerstate_t::PST_LIVE,
        health: 100,
        mo_health: 100,
        mo_shadow: false,
        armorpoints: 0,
        armortype: 0,
        powers: [0; 6],
        cards: [false; 6],
        backpack: false,
        readyweapon: weapontype_t::wp_pistol,
        pendingweapon: weapontype_t::wp_nochange,
        weaponowned: [true, true, false, false, false, false, false, false, false],
        ammo: [50, 0, 0, 0],
        maxammo: [200, 50, 300, 50],
        bonuscount: 0,
        damagecount: 0,
        itemcount: 0,
        cheats: 0,
        refire: 0,
        attackdown: false,
        message: None,
        psprites: [pspdef_t { state: None, tics: 0, sx: 0, sy: 0 }; 2],
        extralight: 0,
        usedown: false,
        fixedcolormap: 0,
    }
}

fn env() -> GameEnv {
    GameEnv { gameskill: skill_t::sk_medium, gamemode: GameMode_t::registered, netgame: false, deathmatch: 0 }
}

#[test]
fn fixed_point_arithmetic() {
    assert_eq!(FixedMul(3 * FRACUNIT, FRACUNIT / 2), 3 * FRACUNIT / 2);
    assert_eq!(FixedMul(-FRACUNIT, FRACUNIT), -FRACUNIT);
    assert_eq!(FixedMul(7, FRACUNIT), 7);
    assert_eq!(FixedDiv(3 * FRACUNIT, 2 * FRACUNIT), 3 * FRACUNIT / 2);
    // overflowing quotients saturate, with the sign of the result
    assert_eq!(FixedDiv(i32::MAX, 1), i32::MAX);
    assert_eq!(FixedDiv(-i32::MAX, 1), i32::MIN);
}

#[test]
fn sides_of_partition_lines() {
    assert_eq!(Side::Front.flip(), Side::Back);
    assert_eq!(Side::Back.flip().flip(), Side::Back);
    let node = node_t { x: 0, y: 0, dx: FRACUNIT, dy: 0, bbox: [[0; 4]; 2], children: [0, 1] };
    assert_eq!(R_PointOnSide(5 * FRACUNIT, 2 * FRACUNIT, &node), Side::Back);
    assert_eq!(R_PointOnSide(5 * FRACUNIT, -2 * FRACUNIT, &node), Side::Front);
    let a = Vertex { x: 0, y: 0 };
    let b = Vertex { x: 0, y: 10 * FRACUNIT };
    assert_eq!(R_PointOnSegSide(FRACUNIT, FRACUNIT, &a, &b), 0);
    assert_eq!(R_PointOnSegSide(-FRACUNIT, FRACUNIT, &a, &b), 1);
}

#[test]
fn distance_estimate() {
    assert_eq!(P_AproxDistance(3 * FRACUNIT, 4 * FRACUNIT), 3 * FRACUNIT + 4 * FRACUNIT - 3 * FRACUNIT / 2);
    assert_eq!(P_AproxDistance(-10, 0), 10);
}

#[test]
fn lines_and_boxes() {
    let line = LineGeom { v1: Vertex { x: 0, y: 0 }, dx: 0, dy: 64 * FRACUNIT, slopetype: slopetype_t::ST_VERTICAL };
    assert!(!P_PointOnLineSide(FRACUNIT, 0, &line));
    assert!(P_PointOnLineSide(-FRACUNIT, 0, &line));
    let right_box = [10 * FRACUNIT, 0, FRACUNIT, 5 * FRACUNIT];
    assert_eq!(P_BoxOnLineSide(&right_box, &line), Some(false));
    let straddle = [10 * FRACUNIT, 0, -FRACUNIT, 5 * FRACUNIT];
    assert_eq!(P_BoxOnLineSide(&straddle, &line), None);
    let dl = P_MakeDivline(&line);
    assert_eq!(dl, divline_t { x: 0, y: 0, dx: 0, dy: 64 * FRACUNIT });
    assert!(!P_PointOnDivlineSide(FRACUNIT, 0, &dl));
    let across = divline_t { x: -32 * FRACUNIT, y: 32 * FRACUNIT, dx: 64 * FRACUNIT, dy: 0 };
    assert_eq!(P_InterceptVector(&across, &dl), FRACUNIT / 2);
    assert_eq!(P_DivlineSide(FRACUNIT, 0, &dl), 0);
}

#[test]
fn divline_side_horizontal() {
    let flat = divline_t { x: 0, y: 0, dx: FRACUNIT, dy: 0 };
    assert_eq!(P_DivlineSide(5 * FRACUNIT, 0, &flat), 2);
    assert_eq!(P_DivlineSide(5 * FRACUNIT, FRACUNIT, &flat), 1);
    assert_eq!(P_DivlineSide(5 * FRACUNIT, -FRACUNIT, &flat), 0);
}

#[test]
fn line_opening() {
    let prev = Opening { opentop: 1, openbottom: 2, openrange: 3, lowfloor: 4 };
    let o = P_LineOpening(prev, Some(((0, 128 * FRACUNIT), (16 * FRACUNIT, 96 * FRACUNIT))));
    assert_eq!(o.opentop, 96 * FRACUNIT);
    assert_eq!(o.openbottom, 16 * FRACUNIT);
    assert_eq!(o.openrange, 80 * FRACUNIT);
    assert_eq!(o.lowfloor, 0);
    assert_eq!(P_LineOpening(prev, None), Opening { openrange: 0, ..prev });
}

#[test]
fn health_and_armor() {
    let mut p = player();
    assert!(!P_GiveBody(&mut p, 10));
    p.health = 95;
    assert!(P_GiveBody(&mut p, 10));
    assert_eq!(p.health, 100);
    assert!(P_GiveArmor(&mut p, 1));
    assert_eq!((p.armortype, p.armorpoints), (1, 100));
    assert!(!P_GiveArmor(&mut p, 1));
    assert!(P_GiveArmor(&mut p, 2));
    assert_eq!(p.armorpoints, 200);
}

#[test]
fn ammo_and_weapons() {
    let mut p = player();
    assert!(P_GiveAmmo(&mut p, ammotype_t::am_shell, 1, skill_t::sk_medium));
    assert_eq!(p.ammo[1], 4);
    let mut q = player();
    assert!(P_GiveAmmo(&mut q, ammotype_t::am_shell, 1, skill_t::sk_baby));
    assert_eq!(q.ammo[1], 8);
    p.ammo[0] = 200;
    assert!(!P_GiveAmmo(&mut p, ammotype_t::am_clip, 1, skill_t::sk_medium));
    // a large amount is capped at the maximum
    let mut r = player();
    r.ammo[3] = 0;
    assert!(P_GiveAmmo(&mut r, ammotype_t::am_misl, 5000, skill_t::sk_nightmare));
    assert_eq!(r.ammo[3], r.maxammo[3]);
    let mut p = player();
    let (got, _) = P_GiveWeapon(&mut p, weapontype_t::wp_shotgun, false, env());
    assert!(got);
    assert!(p.weaponowned[2]);
    assert_eq!(p.ammo[1], 8);
    assert_eq!(p.pendingweapon, weapontype_t::wp_shotgun);
}

#[test]
fn cards_and_powers() {
    let mut p = player();
    P_GiveCard(&mut p, card_t::it_redcard);
    assert!(p.cards[2]);
    assert_eq!(p.bonuscount, 6);
    P_GiveCard(&mut p, card_t::it_redcard);
    assert_eq!(p.bonuscount, 6);
    assert!(P_GivePower(&mut p, powertype_t::pw_invisibility));
    assert!(p.mo_shadow);
    p.health = 40;
    assert!(P_GivePower(&mut p, powertype_t::pw_strength));
    assert_eq!(p.health, 100);
    assert_eq!(p.powers[1], 1);
    assert!(P_GivePower(&mut p, powertype_t::pw_allmap));
    assert!(!P_GivePower(&mut p, powertype_t::pw_allmap));
}

#[test]
fn touching_items() {
    let mut p = player();
    p.health = 150;
    let toucher = Toucher { z: 0, height: 56 * FRACUNIT, health: 150 };
    let soul = SpecialThing { sprite: Pickup::SPR_SOUL, z: 0, dropped: false, countitem: true };
    let r = P_TouchSpecialThing(&soul, &toucher, &mut p, env());
    assert_eq!(r, TouchResult::Taken(sfxenum_t::sfx_getpow));
    assert_eq!(p.health, 200);
    assert_eq!(p.message, Some(Message::GOTSUPER));
    assert_eq!(p.itemcount, 1);
    // out of reach: above the toucher's head
    let high = SpecialThing { sprite: Pickup::SPR_STIM, z: 100 * FRACUNIT, dropped: false, countitem: false };
    assert_eq!(P_TouchSpecialThing(&high, &toucher, &mut p, env()), TouchResult::Ignored);
}

#[test]
fn weapon_handling() {
    let mut p = player();
    p.ammo[0] = 0;
    p.psprites[0].sy = WEAPONTOP;
    assert_eq!(P_CheckAmmo(&mut p, GameMode_t::registered), (false, None));
    assert_eq!(p.pendingweapon, weapontype_t::wp_fist);
    // the down frame's first step already lowers the weapon
    assert_eq!(p.psprites[0].sy, WEAPONTOP + LOWERSPEED);
    assert_eq!(p.psprites[0].tics, 1);
    let mut p = player();
    p.pendingweapon = weapontype_t::wp_pistol;
    P_BringUpWeapon(&mut p);
    assert_eq!(p.pendingweapon, weapontype_t::wp_nochange);
    assert_eq!(p.psprites[0].state, Some(WeaponFrame::Up(weapontype_t::wp_pistol)));
    assert_eq!(p.psprites[0].sy, WEAPONBOTTOM - RAISESPEED);
    P_DropWeapon(&mut p);
    A_Light2(&mut p);
    assert_eq!(p.extralight, 2);
}

#[test]
fn a_dead_players_weapon_goes_down() {
    let mut p = player();
    p.playerstate = playerstate_t::PST_DEAD;
    p.readyweapon = weapontype_t::wp_shotgun;
    p.psprites[0].sy = WEAPONTOP;
    assert_eq!(P_DropWeapon(&mut p), None);
    assert_eq!(p.psprites[0].state, Some(WeaponFrame::Down(weapontype_t::wp_shotgun)));
    assert_eq!(p.psprites[0].tics, 1);
    assert_eq!(p.psprites[0].sy, WEAPONTOP + LOWERSPEED);
    assert_eq!(p.readyweapon, weapontype_t::wp_shotgun);
    p.psprites[0].sy = WEAPONBOTTOM - FRACUNIT;
    P_DropWeapon(&mut p);
    assert_eq!(p.psprites[0].sy, WEAPONBOTTOM);
}

#[test]
fn overlays_count_down_and_change_frames() {
    let mut p = player();
    p.psprites[0].sy = WEAPONBOTTOM;
    let attack = FrameInfo { tics: 4, misc1: 0, misc2: 0 };
    assert_eq!(P_SetPsprite(&mut p, psprnum_t::ps_weapon, Some(WeaponFrame::Attack(weapontype_t::wp_pistol)), attack), None);
    assert_eq!(p.psprites[0].tics, 4);
    let flash = FrameInfo { tics: 7, misc1: 1, misc2: 32 };
    P_SetPsprite(&mut p, psprnum_t::ps_flash, Some(WeaponFrame::Flash(weapontype_t::wp_pistol)), flash);
    assert_eq!(p.psprites[1].sx, FRACUNIT);
    assert_eq!(p.psprites[1].sy, 32 * FRACUNIT);
    let ready = FrameInfo { tics: 1, misc1: 0, misc2: 0 };
    P_MovePsprites(&mut p, Some(WeaponFrame::Ready(weapontype_t::wp_pistol)), ready, None, ready);
    assert_eq!(p.psprites[0].tics, 3);
    assert_eq!(p.psprites[0].state, Some(WeaponFrame::Attack(weapontype_t::wp_pistol)));
    assert_eq!(p.psprites[1].tics, 6);
    // the flash follows the weapon
    assert_eq!(p.psprites[1].sy, WEAPONBOTTOM);
    p.psprites[0].tics = 1;
    P_MovePsprites(&mut p, Some(WeaponFrame::Ready(weapontype_t::wp_pistol)), ready, None, ready);
    assert_eq!(p.psprites[0].state, Some(WeaponFrame::Ready(weapontype_t::wp_pistol)));
    assert_eq!(p.psprites[0].tics, 1);
}

#[test]
fn wall_scale_by_distance() {
    let f = FRACUNIT;
    let ones = vec![f; 8192];
    assert_eq!(R_ScaleFromGlobalAngle(0, 0, 0, 160 * f, 80 * f, 0, &ones), 2 * f);
    assert_eq!(R_ScaleFromGlobalAngle(0, 0, 0, 160 * f, 80 * f, 1, &ones), 4 * f);
    assert_eq!(R_ScaleFromGlobalAngle(0, 0, 0, 160 * f, 1, 0, &ones), 64 * f);
    assert_eq!(R_ScaleFromGlobalAngle(0, 0, 0, f, 30000 * f, 0, &ones), 256);
    let mut ramp: Vec<i32> = (0..8192).map(|i| i * 8).collect();
    ramp[2048] = f / 2;
    ramp[4096] = f;
    // the wall's normal a quarter turn round: its sine comes from step 4096
    assert_eq!(R_ScaleFromGlobalAngle(0, 0, 0xC0000000, 160 * f, 80 * f, 0, &ramp), 4 * f);
}

#[test]
fn points_find_their_subsector() {
    let f = FRACUNIT;
    let vertical = node_t { x: 0, y: 0, dx: 0, dy: f, bbox: [[0; 4]; 2], children: [0x8001, 0x8002] };
    let horizontal = node_t { x: 0, y: 0, dx: f, dy: 0, bbox: [[0; 4]; 2], children: [0x8005, 0] };
    assert_eq!(R_PointInSubsector(10 * f, 0, &vec![vertical]), 1);
    assert_eq!(R_PointInSubsector(-10 * f, 0, &vec![vertical]), 2);
    let tree = vec![vertical, horizontal];
    assert_eq!(R_PointInSubsector(10 * f, 10 * f, &tree), 1);
    assert_eq!(R_PointInSubsector(-10 * f, 10 * f, &tree), 2);
    assert_eq!(R_PointInSubsector(10 * f, -10 * f, &tree), 5);
    assert_eq!(R_PointInSubsector(3, 4, &Vec::new()), 0);
}

#[test]
fn distance_from_the_viewpoint() {
    let f = FRACUNIT;
    let mut tan = vec![0u32; 2049];
    tan[2048] = 0x20000000;
    let mut sine = vec![0; 8192];
    sine[2048] = f;
    sine[3072] = 46341;
    assert_eq!(R_PointToDist(10 * f, 3 * f, 0, 0, &tan, &sine), 10 * f);
    assert_eq!(R_PointToDist(3 * f, -10 * f, 0, 0, &tan, &sine), 10 * f);
    assert_eq!(R_PointToDist(15 * f, 15 * f, 5 * f, 5 * f, &tan, &sine), 926818);
}

#[test]
fn reversed_partition_swaps_sides() {
    let up = node_t { x: 0, y: 0, dx: 0, dy: 64 * FRACUNIT, bbox: [[0; 4]; 2], children: [0, 1] };
    let down = node_t { dy: -64 * FRACUNIT, ..up };
    assert_eq!(R_PointOnSide(-FRACUNIT, 5 * FRACUNIT, &up), Side::Back);
    assert_eq!(R_PointOnSide(-FRACUNIT, 5 * FRACUNIT, &down), Side::Front);
    let east = node_t { x: 0, y: 0, dx: 64 * FRACUNIT, dy: 0, bbox: [[0; 4]; 2], children: [0, 1] };
    let west = node_t { dx: -64 * FRACUNIT, ..east };
    assert_eq!(R_PointOnSide(0, FRACUNIT, &east).flip(), R_PointOnSide(0, FRACUNIT, &west));
}

#[test]
fn frames_that_last_no_tic_are_followed() {
    let pistol = weapontype_t::wp_pistol;
    let states = vec![
        // a flash frame with no tic of its own, then a lasting one
        WeaponState { frame: WeaponFrame::Flash(pistol), info: FrameInfo { tics: 0, misc1: 0, misc2: 0 }, next: Some(1) },
        WeaponState { frame: WeaponFrame::Flash(pistol), info: FrameInfo { tics: 5, misc1: 2, misc2: 40 }, next: None },
        // a frame with no tic that ends the overlay
        WeaponState { frame: WeaponFrame::Attack(pistol), info: FrameInfo { tics: 0, misc1: 0, misc2: 0 }, next: None },
    ];
    let mut p = player();
    let s = P_SetPspriteState(&mut p, psprnum_t::ps_flash, Some(0), &states);
    assert!(s.is_empty());
    assert_eq!(p.psprites[1].state, Some(WeaponFrame::Flash(pistol)));
    assert_eq!((p.psprites[1].tics, p.psprites[1].sx, p.psprites[1].sy), (5, 2 * FRACUNIT, 40 * FRACUNIT));
    // a frame that lasts no tic and is followed by none removes the overlay
    P_SetPspriteState(&mut p, psprnum_t::ps_flash, Some(2), &states);
    assert_eq!(p.psprites[1].state, None);
    P_SetPspriteState(&mut p, psprnum_t::ps_flash, Some(1), &states);
    assert_eq!(p.psprites[1].state, Some(WeaponFrame::Flash(pistol)));
    P_SetPspriteState(&mut p, psprnum_t::ps_flash, None, &states);
    assert_eq!(p.psprites[1].state, None);
}
