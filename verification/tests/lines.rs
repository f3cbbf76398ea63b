use lib::fixed::FRACUNIT;
use lib::floors::floor_e;
use lib::level::{Line, ML_SECRET, Side};
use lib::movers::{plattype_e, vldoor_e};
use lib::sounds::sfxenum_t;
use lib::switches::{
    ButtonStart, Crosser, LineAction, P_ChangeSwitchTexture, P_CrossSpecialLine,
    P_ShootSpecialLine, P_StartButton, P_UseSpecialLine, SwitchTiming, UseEffect, bwhere_e,
    button_t,
};

fn line(special: i16) -> Line {
    Line { flags: 0, special, tag: 3, sidenum: [0, -1], frontsector: 0, backsector: None }
}

#[test]
fn walk_over_triggers_once() {
    let mut l = line(2);
    assert_eq!(P_CrossSpecialLine(&mut l, Crosser::Player), Some(LineAction::Door(vldoor_e::open)));
    assert_eq!(l.special, 0);
    assert_eq!(P_CrossSpecialLine(&mut l, Crosser::Player), None);
}

#[test]
fn walk_over_retriggers() {
    let mut l = line(88);
    assert_eq!(
        P_CrossSpecialLine(&mut l, Crosser::Player),
        Some(LineAction::Plat(plattype_e::downWaitUpStay, 0))
    );
    assert_eq!(l.special, 88);
    assert_eq!(
        P_CrossSpecialLine(&mut l, Crosser::Monster),
        Some(LineAction::Plat(plattype_e::downWaitUpStay, 0))
    );
    assert_eq!(P_CrossSpecialLine(&mut l, Crosser::Missile), None);
}

#[test]
fn monsters_only_cross_some_lines() {
    let mut l = line(38);
    assert_eq!(P_CrossSpecialLine(&mut l, Crosser::Monster), None);
    assert_eq!(l.special, 38);
    let mut t = line(125);
    assert_eq!(P_CrossSpecialLine(&mut t, Crosser::Player), None);
    assert_eq!(t.special, 125);
    assert_eq!(P_CrossSpecialLine(&mut t, Crosser::Monster), Some(LineAction::Teleport));
    assert_eq!(t.special, 0);
}

#[test]
fn exits_keep_their_special() {
    let mut l = line(52);
    assert_eq!(P_CrossSpecialLine(&mut l, Crosser::Player), Some(LineAction::ExitLevel));
    assert_eq!(l.special, 52);
}

fn switch_side(mid: i16) -> Side {
    Side { textureoffset: 0, rowoffset: 0, toptexture: 5, bottomtexture: 7, midtexture: mid, sector: 0 }
}

fn use_line(special: i16, side: i32, is_player: bool, started: bool) -> (lib::switches::UseOutcome, Line, Side) {
    let switches = vec![10i16, 11, 20, 21];
    let mut l = line(special);
    let mut front = switch_side(10);
    let r = P_UseSpecialLine(&mut l, &mut front, &switches, 2, side, is_player, started);
    (r, l, front)
}

#[test]
fn use_rules() {
    let (r, l, front) = use_line(103, 0, true, true);
    assert!(r.used);
    assert_eq!(
        r.effect,
        Some(UseEffect { action: LineAction::Door(vldoor_e::open), switch: SwitchTiming::OnSuccess(false) })
    );
    // a switch that works once loses its special and shows its other texture
    assert_eq!(l.special, 0);
    assert_eq!(front.midtexture, 11);
    assert_eq!(r.flip.unwrap().button, None);
    // nothing started: the switch stays as it is
    let (r, l, front) = use_line(103, 0, true, false);
    assert!(r.used && r.flip.is_none());
    assert_eq!(l.special, 103);
    assert_eq!(front.midtexture, 10);
    assert!(!use_line(103, 1, true, true).0.used);
    assert!(!use_line(103, 0, false, true).0.used);
    let (r, l, _) = use_line(1, 0, false, true);
    assert_eq!(r.effect.unwrap().action, LineAction::VerticalDoor);
    assert!(r.flip.is_none());
    assert_eq!(l.special, 1);
    let switches = vec![10i16, 11];
    let mut secret = line(1);
    secret.flags = ML_SECRET;
    let mut front = switch_side(10);
    assert!(!P_UseSpecialLine(&mut secret, &mut front, &switches, 1, 0, false, true).used);
    let (r, l, _) = use_line(11, 0, true, false);
    assert_eq!(r.effect.unwrap().switch, SwitchTiming::Before(false));
    assert_eq!(r.flip.unwrap().sound, sfxenum_t::sfx_swtchn);
    assert_eq!(l.special, 0);
    let (r, _, _) = use_line(999, 0, true, true);
    assert!(r.used && r.effect.is_none() && r.flip.is_none());
}

#[test]
fn a_button_stays_usable() {
    let (r, l, front) = use_line(61, 0, true, true);
    assert_eq!(r.effect.unwrap().switch, SwitchTiming::OnSuccess(true));
    assert_eq!(l.special, 61);
    assert_eq!(front.midtexture, 11);
    assert_eq!(r.flip.unwrap().button, Some(10));
}

#[test]
fn shooting_lines() {
    let switches = vec![10i16, 11];
    let mut l = line(24);
    let mut front = switch_side(10);
    let r = P_ShootSpecialLine(&mut l, &mut front, &switches, 1, true);
    assert_eq!(r.0.unwrap().action, LineAction::Floor(floor_e::raiseFloor));
    assert_eq!(l.special, 0);
    assert_eq!(front.midtexture, 11);
    let mut l = line(47);
    let mut front = switch_side(10);
    P_ShootSpecialLine(&mut l, &mut front, &switches, 1, true);
    assert_eq!(l.special, 0);
    let mut l = line(24);
    let mut front = switch_side(10);
    assert_eq!(P_ShootSpecialLine(&mut l, &mut front, &switches, 1, false), (None, None));
    assert_eq!(l.special, 24);
    assert_eq!(front.midtexture, 10);
    let mut l = line(46);
    let mut front = switch_side(10);
    let r = P_ShootSpecialLine(&mut l, &mut front, &switches, 1, false);
    assert_eq!(r.0.unwrap().switch, SwitchTiming::After(true));
    assert_eq!(l.special, 46);
    assert_eq!(r.1.unwrap().button, Some(10));
}

#[test]
fn switch_flips_texture() {
    let switches = vec![10i16, 11, 20, 21];
    let mut l = line(62);
    let mut side = Side { textureoffset: 0, rowoffset: 0, toptexture: 5, bottomtexture: 21, midtexture: 6, sector: 0 };
    let r = P_ChangeSwitchTexture(&mut l, &mut side, &switches, 2, true).unwrap();
    assert_eq!(r.where_, bwhere_e::bottom);
    assert_eq!(r.sound, sfxenum_t::sfx_swtchn);
    assert_eq!(r.button, Some(21));
    assert_eq!(side.bottomtexture, 20);
    assert_eq!(l.special, 62);
    let mut l = line(11);
    let mut side = Side { textureoffset: 0, rowoffset: 0, toptexture: 10, bottomtexture: 0, midtexture: 0, sector: 0 };
    let r = P_ChangeSwitchTexture(&mut l, &mut side, &switches, 2, false).unwrap();
    assert_eq!(r.where_, bwhere_e::top);
    assert_eq!(r.button, None);
    assert_eq!(side.toptexture, 11);
    assert_eq!(l.special, 0);
    let mut side = Side { textureoffset: 0, rowoffset: 0, toptexture: 1, bottomtexture: 2, midtexture: 3, sector: 0 };
    assert_eq!(P_ChangeSwitchTexture(&mut l, &mut side, &switches, 2, true), None);
    assert_eq!(side.toptexture, 1);
}

#[test]
fn buttons_one_per_line() {
    let mut bs = vec![button_t { line: 0, where_: bwhere_e::top, btexture: 0, btimer: 0 }; 2];
    assert_eq!(P_StartButton(&mut bs, 4, bwhere_e::middle, 20, 35), ButtonStart::Started(0));
    assert_eq!(bs[0], button_t { line: 4, where_: bwhere_e::middle, btexture: 20, btimer: 35 });
    assert_eq!(P_StartButton(&mut bs, 4, bwhere_e::top, 21, 35), ButtonStart::AlreadyPressed);
    assert_eq!(P_StartButton(&mut bs, 5, bwhere_e::top, 21, 35), ButtonStart::Started(1));
    assert_eq!(P_StartButton(&mut bs, 6, bwhere_e::top, 21, 35), ButtonStart::NoSlotsLeft);
    let _ = FRACUNIT;
}
