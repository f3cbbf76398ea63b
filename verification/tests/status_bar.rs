use lib::player::{Player, playerstate_t, pspdef_t, weapontype_t};
use lib::stbar::{
    ANG45, Attacker, FaceState, ST_DEADFACE, ST_GODFACE, ST_Ticker, ST_calcPainOffset, ST_doPaletteStuff,
    ST_initData, ST_updateFaceWidget, ST_updateWidgets, StatusBar,
};

fn player() -> Player {
    Player {
        playerstate: playerstate_t::PST_LIVE,
        health: 100,
        mo_health: 100,
        mo_shadow: false,
        armorpoints: 0,
        armortype: 0,
        powers: [0; 6],
        cards: [false; 6],
        backpack: false,
        readyweapon: weapontype_t::wp_pistol,
        pendingweapon: weapontype_t::wp_nochange,
        weaponowned: [true, true, false, false, false, false, false, false, false],
        ammo: [50, 0, 0, 0],
        maxammo: [200, 50, 300, 50],
        bonuscount: 0,
        damagecount: 0,
        itemcount: 0,
        cheats: 0,
        refire: 0,
        attackdown: false,
        message: None,
        psprites: [pspdef_t { state: None, tics: 0, sx: 0, sy: 0 }; 2],
        extralight: 0,
        usedown: false,
        fixedcolormap: 0,
    }
}

fn face(pl: &Player) -> FaceState {
    FaceState { faceindex: 0, facecount: 5, priority: 0, lastattackdown: -1, oldweaponsowned: pl.weaponowned }
}

fn bar(pl: &Player) -> StatusBar {
    StatusBar {
        clock: 7,
        randomnumber: 4,
        msgcounter: 10,
        statusbaron: true,
        chat: true,
        oldchat: false,
        notdeathmatch: false,
        armson: false,
        fragson: false,
        fragscount: 0,
        keyboxes: [-1; 3],
        ready_weapon: weapontype_t::wp_fist,
        oldhealth: pl.health,
        palette: 0,
        face: face(pl),
    }
}

#[test]
fn pain_levels_follow_health() {
    assert_eq!(ST_calcPainOffset(100), 0);
    assert_eq!(ST_calcPainOffset(150), 0);
    assert_eq!(ST_calcPainOffset(80), 0);
    assert_eq!(ST_calcPainOffset(79), 8);
    assert_eq!(ST_calcPainOffset(40), 16);
    assert_eq!(ST_calcPainOffset(0), 32);
    assert_eq!(ST_calcPainOffset(-10), 40);
}

#[test]
fn dead_face_wins() {
    let mut pl = player();
    pl.health = 0;
    pl.cheats = 2;
    pl.damagecount = 5;
    let mut f = face(&pl);
    ST_updateFaceWidget(&mut f, &pl, 10, Attacker::At(0), 0, 1);
    assert_eq!((f.faceindex, f.facecount, f.priority), (ST_DEADFACE, 0, 9));
    ST_updateFaceWidget(&mut f, &pl, 0, Attacker::Nobody, 0, 1);
    assert_eq!(f.faceindex, ST_DEADFACE);
}

#[test]
fn evil_grin_for_a_new_weapon() {
    let mut pl = player();
    pl.bonuscount = 6;
    pl.health = 50;
    let mut f = face(&pl);
    pl.weaponowned[3] = true;
    ST_updateFaceWidget(&mut f, &pl, 50, Attacker::Nobody, 0, 1);
    assert_eq!((f.faceindex, f.facecount, f.priority), (16 + 6, 69, 8));
    assert!(f.oldweaponsowned[3]);
    // the same weapons again: no new grin, the face keeps counting down
    ST_updateFaceWidget(&mut f, &pl, 50, Attacker::Nobody, 0, 1);
    assert_eq!((f.faceindex, f.facecount), (22, 68));
}

#[test]
fn face_turns_towards_the_attacker() {
    let mut pl = player();
    pl.damagecount = 10;
    let mut f = face(&pl);
    ST_updateFaceWidget(&mut f, &pl, 100, Attacker::At(ANG45 / 2), 0, 1);
    assert_eq!((f.faceindex, f.facecount, f.priority), (7, 34, 7));
    let mut f = face(&pl);
    ST_updateFaceWidget(&mut f, &pl, 100, Attacker::At(2 * ANG45), 0, 1);
    assert_eq!(f.faceindex, 4);
    let mut f = face(&pl);
    ST_updateFaceWidget(&mut f, &pl, 100, Attacker::At(6 * ANG45), 0, 1);
    assert_eq!(f.faceindex, 3);
    // health gone up by more than the pain limit: the ouch face
    let mut f = face(&pl);
    ST_updateFaceWidget(&mut f, &pl, 70, Attacker::At(2 * ANG45), 0, 1);
    assert_eq!(f.faceindex, 5);
}

#[test]
fn hurt_without_attacker_and_rampage() {
    let mut pl = player();
    pl.damagecount = 10;
    let mut f = face(&pl);
    ST_updateFaceWidget(&mut f, &pl, 100, Attacker::Nobody, 0, 1);
    assert_eq!((f.faceindex, f.priority), (7, 6));

    let mut pl = player();
    pl.attackdown = true;
    let mut f = face(&pl);
    f.facecount = 200;
    ST_updateFaceWidget(&mut f, &pl, 100, Attacker::Nobody, 0, 1);
    assert_eq!(f.lastattackdown, 70);
    for _ in 0..69 {
        ST_updateFaceWidget(&mut f, &pl, 100, Attacker::Nobody, 0, 1);
    }
    assert_eq!((f.lastattackdown, f.priority), (1, 0));
    ST_updateFaceWidget(&mut f, &pl, 100, Attacker::Nobody, 0, 1);
    assert_eq!((f.faceindex, f.priority, f.lastattackdown), (7, 5, 1));
}

#[test]
fn god_face_and_looking_about() {
    let mut pl = player();
    pl.powers[0] = 30;
    let mut f = face(&pl);
    ST_updateFaceWidget(&mut f, &pl, 100, Attacker::Nobody, 0, 1);
    assert_eq!((f.faceindex, f.facecount, f.priority), (ST_GODFACE, 0, 4));
    pl.powers[0] = 0;
    pl.health = 30;
    ST_updateFaceWidget(&mut f, &pl, 100, Attacker::Nobody, 0, 5);
    assert_eq!((f.faceindex, f.facecount, f.priority), (24 + 2, 16, 0));
}

#[test]
fn palette_tints() {
    let mut pl = player();
    let mut st = bar(&pl);
    assert_eq!(ST_doPaletteStuff(&mut st, &pl), None);
    pl.damagecount = 10;
    assert_eq!(ST_doPaletteStuff(&mut st, &pl), Some(3));
    assert_eq!(st.palette, 3);
    assert_eq!(ST_doPaletteStuff(&mut st, &pl), None);
    pl.damagecount = 100;
    assert_eq!(ST_doPaletteStuff(&mut st, &pl), Some(8));
    pl.damagecount = 0;
    pl.powers[1] = 1;
    assert_eq!(ST_doPaletteStuff(&mut st, &pl), Some(3));
    pl.powers[1] = 640;
    assert_eq!(ST_doPaletteStuff(&mut st, &pl), Some(2));
    pl.powers[1] = 2000;
    pl.bonuscount = 6;
    assert_eq!(ST_doPaletteStuff(&mut st, &pl), Some(10));
    pl.bonuscount = 0;
    pl.powers[3] = 200;
    assert_eq!(ST_doPaletteStuff(&mut st, &pl), Some(13));
    pl.powers[3] = 7;
    assert_eq!(ST_doPaletteStuff(&mut st, &pl), Some(0));
    pl.powers[3] = 8;
    assert_eq!(ST_doPaletteStuff(&mut st, &pl), Some(13));
}

#[test]
fn widgets_keys_frags_and_chat() {
    let mut pl = player();
    pl.cards = [true, false, true, false, false, true];
    pl.readyweapon = weapontype_t::wp_shotgun;
    let mut st = bar(&pl);
    st.msgcounter = 1;
    ST_updateWidgets(&mut st, &pl, [1, 2, 3, 4], 1, 0, Attacker::Nobody, 0);
    assert_eq!(st.keyboxes, [0, -1, 5]);
    assert_eq!(st.fragscount, 6);
    assert_eq!(st.ready_weapon, weapontype_t::wp_shotgun);
    assert!(st.notdeathmatch && st.armson && !st.fragson);
    assert_eq!(st.msgcounter, 0);
    assert!(!st.chat);
    ST_updateWidgets(&mut st, &pl, [1, 2, 3, 4], 3, 1, Attacker::Nobody, 0);
    assert_eq!(st.fragscount, 2);
    assert!(!st.notdeathmatch && !st.armson && st.fragson);
}

#[test]
fn ticker_and_init() {
    let pl = player();
    let mut st = bar(&pl);
    ST_Ticker(&mut st, &pl, 200, [0; 4], 0, 0, Attacker::Nobody, 0);
    assert_eq!((st.clock, st.randomnumber, st.oldhealth), (8, 200, 100));
    st.palette = 5;
    st.keyboxes = [1, 2, 3];
    ST_initData(&mut st, &pl);
    assert_eq!((st.clock, st.palette, st.oldhealth, st.keyboxes), (0, -1, -1, [-1, -1, -1]));
    assert!(st.statusbaron && !st.chat && !st.oldchat);
    assert_eq!(st.face.faceindex, 0);
    assert_eq!(st.face.oldweaponsowned, pl.weaponowned);
}

use lib::stbar::STlib_drawNum;

#[test]
fn numbers_are_drawn_right_aligned() {
    let n = STlib_drawNum(100, 171, 3, 42, 14);
    assert_eq!((n.clear_x, n.clear_w), (58, 42));
    assert_eq!(n.digits, vec![(86, 2), (72, 4)]);
    assert_eq!(n.minus, None);
    assert_eq!(STlib_drawNum(100, 171, 3, 0, 14).digits, vec![(86, 0)]);
    assert_eq!(STlib_drawNum(100, 171, 3, 12345, 14).digits, vec![(86, 5), (72, 4), (58, 3)]);
}

#[test]
fn negative_numbers_and_no_number() {
    let n = STlib_drawNum(100, 171, 3, -5, 14);
    assert_eq!((n.digits, n.minus), (vec![(86, 5)], Some(78)));
    let n = STlib_drawNum(100, 171, 3, -150, 14);
    assert_eq!((n.digits, n.minus), (vec![(86, 9), (72, 9)], Some(64)));
    let n = STlib_drawNum(100, 171, 2, -150, 14);
    assert_eq!((n.digits, n.minus), (vec![(86, 9)], Some(78)));
    let n = STlib_drawNum(100, 171, 3, 1994, 14);
    assert_eq!((n.clear_x, n.clear_w, n.digits, n.minus), (58, 42, vec![], None));
}
