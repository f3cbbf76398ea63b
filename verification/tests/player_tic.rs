use lib::bytes::{ExtractFileBase, PADSAVEP, SwapLONG, SwapSHORT};
use lib::enemy::{chase_axes, chase_direct, chase_search, dirtype_t, opposite};
use lib::fixed::FRACUNIT;
use lib::player::{GameMode_t, Player, pspdef_t, playerstate_t, weapontype_t};
use lib::user::{
    BT_CHANGE, BT_SPECIAL, BT_USE, INVERSECOLORMAP, PlayerBody, ThinkStart, player_think_end,
    player_think_start, ticcmd_t,
};

fn player() -> Player {
    Player {
        playerstate: playerstate_t::PST_LIVE,
        health: 100,
        mo_health: 100,
        mo_shadow: false,
        armorpoints: 0,
        armortype: 0,
        powers: [0; 6],
        cards: [false; 6],
        backpack: false,
        readyweapon: weapontype_t::wp_pistol,
        pendingweapon: weapontype_t::wp_nochange,
        weaponowned: [true, true, false, false, false, false, false, false, false],
        ammo: [50, 0, 0, 0],
        maxammo: [200, 50, 300, 50],
        bonuscount: 0,
        damagecount: 0,
        itemcount: 0,
        cheats: 0,
        refire: 0,
        attackdown: false,
        message: None,
        psprites: [pspdef_t { state: None, tics: 0, sx: 0, sy: 0 }; 2],
        extralight: 0,
        usedown: false,
        fixedcolormap: 0,
    }
}

fn cmd(buttons: u8) -> ticcmd_t {
    ticcmd_t { forwardmove: 0, sidemove: 0, angleturn: 0, buttons }
}

#[test]
fn chainsaw_attack_runs_forward() {
    let p = player();
    let mut c = cmd(0);
    let mut body = PlayerBody { noclip: false, justattacked: true, reactiontime: 0 };
    assert_eq!(player_think_start(&p, &mut c, &mut body), ThinkStart::Moves);
    assert_eq!(c.forwardmove, 100);
    assert!(!body.justattacked);
    let mut body = PlayerBody { noclip: false, justattacked: false, reactiontime: 3 };
    assert_eq!(player_think_start(&p, &mut c, &mut body), ThinkStart::Frozen);
    assert_eq!(body.reactiontime, 2);
}

#[test]
fn weapon_change_rules() {
    let mut p = player();
    p.weaponowned[7] = true;
    let mut c = cmd(BT_CHANGE);
    player_think_end(&mut p, &mut c, GameMode_t::registered);
    assert_eq!(p.pendingweapon, weapontype_t::wp_chainsaw);
    let mut p = player();
    p.weaponowned[5] = true;
    let mut c = cmd(BT_CHANGE | (5 << 3));
    player_think_end(&mut p, &mut c, GameMode_t::shareware);
    assert_eq!(p.pendingweapon, weapontype_t::wp_nochange);
    let mut c = cmd(BT_CHANGE | (5 << 3));
    player_think_end(&mut p, &mut c, GameMode_t::registered);
    assert_eq!(p.pendingweapon, weapontype_t::wp_plasma);
    let mut c = cmd(BT_SPECIAL | BT_CHANGE);
    let mut q = player();
    player_think_end(&mut q, &mut c, GameMode_t::registered);
    assert_eq!(c.buttons, 0);
}

#[test]
fn use_once_per_press_and_powers_tick() {
    let mut p = player();
    p.powers = [200, 1, 1, 5, 0, 0];
    p.mo_shadow = true;
    p.damagecount = 2;
    let mut c = cmd(BT_USE);
    assert!(player_think_end(&mut p, &mut c, GameMode_t::registered));
    assert_eq!(p.powers, [199, 2, 0, 4, 0, 0]);
    assert!(!p.mo_shadow);
    assert_eq!(p.damagecount, 1);
    assert_eq!(p.fixedcolormap, INVERSECOLORMAP);
    let mut c = cmd(BT_USE);
    assert!(!player_think_end(&mut p, &mut c, GameMode_t::registered));
    let mut c = cmd(0);
    assert!(!player_think_end(&mut p, &mut c, GameMode_t::registered));
    assert!(!p.usedown);
}

#[test]
fn chase_directions() {
    assert_eq!(opposite(dirtype_t::DI_NORTHEAST), dirtype_t::DI_SOUTHWEST);
    let far = 100 * FRACUNIT;
    assert_eq!(chase_direct(dirtype_t::DI_EAST, far, far), Some(dirtype_t::DI_NORTHEAST));
    assert_eq!(chase_direct(dirtype_t::DI_SOUTHWEST, far, far), None);
    assert_eq!(chase_direct(dirtype_t::DI_EAST, far, 0), None);
    assert_eq!(
        chase_axes(dirtype_t::DI_WEST, far, -2 * far, 0),
        vec![dirtype_t::DI_SOUTH, dirtype_t::DI_WEST]
    );
    assert_eq!(
        chase_axes(dirtype_t::DI_NODIR, far, 0, 0),
        vec![dirtype_t::DI_EAST]
    );
    let s = chase_search(dirtype_t::DI_EAST, 1);
    assert_eq!(s.len(), 8);
    assert_eq!(s[0], dirtype_t::DI_EAST);
    assert_eq!(s[7], dirtype_t::DI_WEST);
    let s = chase_search(dirtype_t::DI_NODIR, 0);
    assert_eq!(s[0], dirtype_t::DI_SOUTHEAST);
    assert_eq!(s.len(), 8);
}

#[test]
fn byte_helpers() {
    assert_eq!(SwapSHORT(0x1234), 0x3412);
    assert_eq!(SwapLONG(0x1234_5678), 0x7856_3412);
    assert_eq!(PADSAVEP(0), 0);
    assert_eq!(PADSAVEP(5), 8);
    assert_eq!(PADSAVEP(8), 8);
    assert_eq!(ExtractFileBase(b"doom1"), Some(*b"DOOM1\0\0\0"));
    assert_eq!(ExtractFileBase(b"map01.bak"), Some(*b"MAP01\0\0\0"));
    assert_eq!(ExtractFileBase(b"abcdefgh"), Some(*b"ABCDEFGH"));
    assert_eq!(ExtractFileBase(b"abcdefghi"), None);
    assert_eq!(ExtractFileBase(b"/usr/games/doom/e1m1.wad"), Some(*b"E1M1\0\0\0\0"));
    assert_eq!(ExtractFileBase(b"C:\\DOOM\\Map01.lmp"), Some(*b"MAP01\0\0\0"));
    assert_eq!(ExtractFileBase(b"maps/e1m1/"), Some(*b"E1M1\0\0\0\0"));
    assert_eq!(ExtractFileBase(b"long/abcdefghi.wad"), None);
}


use lib::user::{BodyMotion, CF_NOMOMENTUM, MAXBOB, P_CalcHeight, PlayerView, VIEWHEIGHT};

const FU: i32 = 65536;

fn sines() -> Vec<i32> {
    (0..8192).map(|i| i * 8).collect()
}

fn standing() -> PlayerView {
    PlayerView { bob: 0, viewz: 0, viewheight: VIEWHEIGHT, deltaviewheight: 0 }
}

#[test]
fn view_bobs_with_speed_and_time() {
    let t = sines();
    let mo = BodyMotion { momx: 2 * FU, momy: 0, z: 8 * FU, ceilingz: 128 * FU };
    let mut v = standing();
    P_CalcHeight(&mut v, &mo, 0, true, playerstate_t::PST_LIVE, 0, &t);
    assert_eq!((v.bob, v.viewz, v.viewheight, v.deltaviewheight), (FU, 49 * FU, VIEWHEIGHT, 0));
    P_CalcHeight(&mut v, &mo, 0, true, playerstate_t::PST_LIVE, 1, &t);
    assert_eq!(v.viewz, 49 * FU + 1636);
    let fast = BodyMotion { momx: 10 * FU, ..mo };
    P_CalcHeight(&mut v, &fast, 0, true, playerstate_t::PST_LIVE, 0, &t);
    assert_eq!(v.bob, MAXBOB);
}

#[test]
fn view_squats_after_landing() {
    let t = sines();
    let mo = BodyMotion { momx: 0, momy: 0, z: 0, ceilingz: 128 * FU };
    let mut v = PlayerView { bob: 0, viewz: 0, viewheight: 30 * FU, deltaviewheight: -2 * FU };
    P_CalcHeight(&mut v, &mo, 0, true, playerstate_t::PST_LIVE, 0, &t);
    assert_eq!((v.viewheight, v.deltaviewheight, v.viewz), (28 * FU, -2 * FU + FU / 4, 28 * FU));
    let mut v = PlayerView { bob: 0, viewz: 0, viewheight: 21 * FU, deltaviewheight: -2 * FU };
    P_CalcHeight(&mut v, &mo, 0, true, playerstate_t::PST_LIVE, 0, &t);
    assert_eq!((v.viewheight, v.deltaviewheight), (VIEWHEIGHT / 2, 1 + FU / 4));
    let mut v = PlayerView { bob: 0, viewz: 0, viewheight: 21 * FU, deltaviewheight: -2 * FU };
    P_CalcHeight(&mut v, &mo, 0, true, playerstate_t::PST_DEAD, 0, &t);
    assert_eq!((v.viewheight, v.deltaviewheight, v.viewz), (21 * FU, -2 * FU, 21 * FU));
}

#[test]
fn view_stays_below_the_ceiling_and_off_the_ground() {
    let t = sines();
    let low = BodyMotion { momx: 0, momy: 0, z: 0, ceilingz: 44 * FU };
    let mut v = standing();
    P_CalcHeight(&mut v, &low, 0, true, playerstate_t::PST_LIVE, 0, &t);
    assert_eq!(v.viewz, 40 * FU);
    let mut v = PlayerView { bob: 0, viewz: 0, viewheight: 30 * FU, deltaviewheight: -FU };
    P_CalcHeight(&mut v, &low, 0, false, playerstate_t::PST_LIVE, 0, &t);
    assert_eq!((v.viewz, v.viewheight, v.deltaviewheight), (30 * FU, 30 * FU, -FU));
    P_CalcHeight(&mut v, &low, CF_NOMOMENTUM, true, playerstate_t::PST_LIVE, 0, &t);
    assert_eq!(v.viewz, 30 * FU);
}

use lib::player::WeaponFrame;
use lib::sounds::sfxenum_t;
use lib::weapons::{A_WeaponReady, FrameInfo, ReadyOutcome};

const ATK: FrameInfo = FrameInfo { tics: 4, misc1: 0, misc2: 0 };

fn full_sines() -> Vec<i32> {
    (0..10240).map(|i| i * 8).collect()
}

#[test]
fn ready_weapon_goes_down_for_a_change_or_death() {
    let t = full_sines();
    let mut p = player();
    p.pendingweapon = weapontype_t::wp_shotgun;
    let r = A_WeaponReady(&mut p, true, GameMode_t::shareware, ATK, true, false, FU, 1, &t);
    assert_eq!(r, ReadyOutcome { body_to_stand: true, sound: None, fired: false, raise_sound: None });
    assert_eq!(p.psprites[0].state, Some(WeaponFrame::Down(weapontype_t::wp_pistol)));
    let mut p = player();
    p.health = 0;
    A_WeaponReady(&mut p, false, GameMode_t::shareware, ATK, false, false, FU, 1, &t);
    assert_eq!(p.psprites[0].state, Some(WeaponFrame::Down(weapontype_t::wp_pistol)));
}

#[test]
fn ready_weapon_fires_on_the_trigger() {
    let t = full_sines();
    let mut p = player();
    let r = A_WeaponReady(&mut p, true, GameMode_t::shareware, ATK, false, false, FU, 1, &t);
    assert!(r.fired);
    assert!(p.attackdown);
    assert_eq!(p.psprites[0].state, Some(WeaponFrame::Attack(weapontype_t::wp_pistol)));
    assert_eq!(p.psprites[0].tics, 4);
    // the pistol fires again while the trigger stays held
    let r = A_WeaponReady(&mut p, true, GameMode_t::shareware, ATK, false, false, FU, 1, &t);
    assert!(r.fired);
}

#[test]
fn rocket_launcher_needs_a_new_press_and_the_weapon_swings() {
    let t = full_sines();
    let mut p = player();
    p.readyweapon = weapontype_t::wp_missile;
    p.weaponowned[4] = true;
    p.ammo[3] = 10;
    p.attackdown = true;
    let r = A_WeaponReady(&mut p, true, GameMode_t::shareware, ATK, false, false, FU, 1, &t);
    assert!(!r.fired);
    assert!(p.attackdown);
    assert_eq!((p.psprites[0].sx, p.psprites[0].sy), (FU + 17408, 32 * FU + 1024));
    let r = A_WeaponReady(&mut p, false, GameMode_t::shareware, ATK, false, false, FU, 0, &t);
    assert!(!r.fired && !p.attackdown);
    assert_eq!((p.psprites[0].sx, p.psprites[0].sy), (FU + 16384, 32 * FU));
}

#[test]
fn chainsaw_idles_with_a_sound() {
    let t = full_sines();
    let mut p = player();
    p.readyweapon = weapontype_t::wp_chainsaw;
    p.weaponowned[7] = true;
    let r = A_WeaponReady(&mut p, false, GameMode_t::shareware, ATK, false, true, 0, 0, &t);
    assert_eq!(r.sound, Some(sfxenum_t::sfx_sawidl));
    let r = A_WeaponReady(&mut p, false, GameMode_t::shareware, ATK, false, false, 0, 0, &t);
    assert_eq!(r.sound, None);
}

use lib::user::{ANG5, Killer, P_DeathThink};

#[test]
fn dead_view_sinks_to_the_floor() {
    let t = sines();
    let mo = BodyMotion { momx: 0, momy: 0, z: 0, ceilingz: 128 * FU };
    let mut p = player();
    p.playerstate = playerstate_t::PST_DEAD;
    let mut v = PlayerView { bob: 0, viewz: 0, viewheight: VIEWHEIGHT, deltaviewheight: FU };
    let mut angle = 0u32;
    P_DeathThink(&mut p, &mut v, &mo, 0, &mut angle, Killer::Itself, 0, 0, &t);
    assert_eq!((v.viewheight, v.deltaviewheight, v.viewz), (40 * FU, 0, 40 * FU));
    let mut v = PlayerView { bob: 0, viewz: 0, viewheight: 6 * FU + FU / 2, deltaviewheight: 0 };
    P_DeathThink(&mut p, &mut v, &mo, 0, &mut angle, Killer::Itself, 0, 0, &t);
    assert_eq!(v.viewheight, 6 * FU);
    assert_eq!(p.playerstate, playerstate_t::PST_DEAD);
    P_DeathThink(&mut p, &mut v, &mo, 0, &mut angle, Killer::Itself, BT_USE, 0, &t);
    assert_eq!(p.playerstate, playerstate_t::PST_REBORN);
}

#[test]
fn dead_player_turns_towards_the_killer() {
    let t = sines();
    let mo = BodyMotion { momx: 0, momy: 0, z: 0, ceilingz: 128 * FU };
    let mut p = player();
    p.playerstate = playerstate_t::PST_DEAD;
    p.damagecount = 10;
    let mut v = standing();
    let mut angle = 0u32;
    P_DeathThink(&mut p, &mut v, &mo, 0, &mut angle, Killer::At(10 * ANG5), 0, 0, &t);
    assert_eq!((angle, p.damagecount), (ANG5, 10));
    let mut angle = 0u32;
    P_DeathThink(&mut p, &mut v, &mo, 0, &mut angle, Killer::At(ANG5 - 1), 0, 0, &t);
    assert_eq!((angle, p.damagecount), (ANG5 - 1, 9));
    let mut angle = 0x40000000u32;
    P_DeathThink(&mut p, &mut v, &mo, 0, &mut angle, Killer::At(0xF0000000), 0, 0, &t);
    assert_eq!((angle, p.damagecount), (0x40000000 - ANG5, 9));
    P_DeathThink(&mut p, &mut v, &mo, 0, &mut angle, Killer::Itself, 0, 0, &t);
    assert_eq!((angle, p.damagecount), (0x40000000 - ANG5, 8));
}

use lib::user::P_MovePlayer;

#[test]
fn commands_turn_and_push_the_body() {
    let t = full_sines();
    let c = ticcmd_t { forwardmove: 25, sidemove: 0, angleturn: 1, buttons: 0 };
    let (mut angle, mut mx, mut my) = (0u32, 0, 0);
    let run = P_MovePlayer(&c, &mut angle, &mut mx, &mut my, 0, 0, true, &t);
    assert!(run);
    assert_eq!(angle, 65536);
    assert_eq!((mx, my), (12800, 0));
    let c = ticcmd_t { forwardmove: 0, sidemove: 10, angleturn: -1, buttons: 0 };
    let (mut angle, mut mx, mut my) = (65536u32, 0, 0);
    let run = P_MovePlayer(&c, &mut angle, &mut mx, &mut my, 0, 0, false, &t);
    assert!(!run);
    assert_eq!(angle, 0);
    assert_eq!((mx, my), (20480, 15360));
}

#[test]
fn no_push_in_the_air() {
    let t = full_sines();
    let c = ticcmd_t { forwardmove: 25, sidemove: 25, angleturn: -1, buttons: 0 };
    let (mut angle, mut mx, mut my) = (0u32, 7, 9);
    let run = P_MovePlayer(&c, &mut angle, &mut mx, &mut my, 10, 0, true, &t);
    assert!(run);
    assert_eq!(angle, 0xFFFF0000);
    assert_eq!((mx, my), (7, 9));
}

use lib::level::Sector;
use lib::think::{P_PlayerThink, ThinkInput};
use lib::weapons::FrameInfo as WFrameInfo;

fn think_input(mode: GameMode_t) -> ThinkInput {
    let one = WFrameInfo { tics: 1, misc1: 0, misc2: 0 };
    ThinkInput {
        gamemode: mode,
        leveltime: 0,
        random: 0,
        killer: Killer::Itself,
        standing_frame: true,
        weapon_next: None,
        weapon_info: one,
        flash_next: None,
        flash_info: one,
    }
}

fn floor_sector(special: i16) -> Sector {
    Sector { floorheight: 0, ceilingheight: 128 * FU, floorpic: 0, ceilingpic: 0, lightlevel: 160, special, tag: 0, busy: false }
}

#[test]
fn a_whole_tic_of_a_living_player() {
    let t = full_sines();
    let mut p = player();
    p.weaponowned[5] = true;
    p.ammo[2] = 40;
    // asks for the plasma rifle in the shareware game, and presses use
    let mut c = ticcmd_t { forwardmove: 0, sidemove: 0, angleturn: 0, buttons: BT_CHANGE | (5 << 3) | BT_USE };
    let mut body = PlayerBody { noclip: false, justattacked: false, reactiontime: 0 };
    let mut v = standing();
    let mut mo = BodyMotion { momx: 0, momy: 0, z: 0, ceilingz: 128 * FU };
    let mut angle = 0u32;
    let mut sec = floor_sector(9);
    let r = P_PlayerThink(&mut p, &mut c, &mut body, &mut v, &mut mo, &mut angle, 0, &mut sec, think_input(GameMode_t::shareware), &t);
    assert_eq!(r.start, ThinkStart::Moves);
    assert!(r.use_lines);
    assert!(r.effect.unwrap().secret);
    assert_eq!(sec.special, 0);
    assert_eq!(p.pendingweapon, weapontype_t::wp_nochange);
    assert!(p.usedown);
    // the same command in the registered game selects it
    let mut p = player();
    p.weaponowned[5] = true;
    let mut c = ticcmd_t { forwardmove: 0, sidemove: 0, angleturn: 0, buttons: BT_CHANGE | (5 << 3) };
    let mut body = PlayerBody { noclip: false, justattacked: false, reactiontime: 2 };
    let mut sec = floor_sector(0);
    let r = P_PlayerThink(&mut p, &mut c, &mut body, &mut v, &mut mo, &mut angle, 0, &mut sec, think_input(GameMode_t::registered), &t);
    assert_eq!(r.start, ThinkStart::Frozen);
    assert!(r.effect.is_none());
    assert_eq!(body.reactiontime, 1);
    assert_eq!(p.pendingweapon, weapontype_t::wp_plasma);
}

#[test]
fn a_whole_tic_of_a_dead_player() {
    let t = full_sines();
    let mut p = player();
    p.playerstate = playerstate_t::PST_DEAD;
    let mut c = cmd(BT_USE);
    let mut body = PlayerBody { noclip: false, justattacked: false, reactiontime: 0 };
    let mut v = standing();
    let mut mo = BodyMotion { momx: 0, momy: 0, z: 0, ceilingz: 128 * FU };
    let mut angle = 0u32;
    let mut sec = floor_sector(0);
    let r = P_PlayerThink(&mut p, &mut c, &mut body, &mut v, &mut mo, &mut angle, 0, &mut sec, think_input(GameMode_t::registered), &t);
    assert_eq!(r.start, ThinkStart::Dead);
    assert_eq!(p.playerstate, playerstate_t::PST_REBORN);
    assert_eq!(v.viewheight, VIEWHEIGHT - FU);
}
