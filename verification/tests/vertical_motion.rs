use lib::user::{PlayerView, VIEWHEIGHT};
use lib::zmove::{MF_FLOAT, MF_MISSILE, MF_NOGRAVITY, MF_SKULLFLY, P_ZMovement, TargetPos, ZBody, ZOutcome};

const F: i32 = 65536;

fn body(z: i32, momz: i32, flags: u32) -> ZBody {
    ZBody { x: 0, y: 0, z, momz, floorz: 0, ceilingz: 200 * F, height: 56 * F, flags }
}

fn view() -> PlayerView {
    PlayerView { bob: 0, viewz: 0, viewheight: VIEWHEIGHT, deltaviewheight: 0 }
}

#[test]
fn things_fall_with_gravity() {
    let mut mo = body(100 * F, 0, 0);
    let mut v = view();
    let r = P_ZMovement(&mut mo, &mut v, false, None);
    assert_eq!(r, ZOutcome { oof: false, explode: false });
    assert_eq!((mo.z, mo.momz), (100 * F, -2 * F));
    let r = P_ZMovement(&mut mo, &mut v, false, None);
    assert!(!r.oof);
    assert_eq!((mo.z, mo.momz), (98 * F, -3 * F));
}

#[test]
fn hard_landing_squats_the_view() {
    let mut mo = body(10 * F, -20 * F, 0);
    let mut v = view();
    let r = P_ZMovement(&mut mo, &mut v, true, None);
    assert!(r.oof && !r.explode);
    assert_eq!((mo.z, mo.momz), (0, 0));
    assert_eq!(v.deltaviewheight, -20 * F / 8);
    let mut mo = body(5 * F, -8 * F, 0);
    let mut v = view();
    assert!(!P_ZMovement(&mut mo, &mut v, true, None).oof);
    assert_eq!(v.deltaviewheight, 0);
}

#[test]
fn stepping_up_lowers_the_view() {
    let mut mo = ZBody { floorz: 24 * F, ..body(0, 0, 0) };
    let mut v = view();
    P_ZMovement(&mut mo, &mut v, true, None);
    assert_eq!((v.viewheight, v.deltaviewheight), (17 * F, 3 * F));
    assert_eq!((mo.z, mo.momz), (24 * F, 0));
}

#[test]
fn missiles_explode_on_surfaces() {
    let mut mo = body(5 * F, -10 * F, MF_MISSILE | MF_NOGRAVITY);
    let mut v = view();
    assert_eq!(P_ZMovement(&mut mo, &mut v, false, None), ZOutcome { oof: false, explode: true });
    assert_eq!((mo.z, mo.momz), (0, 0));
    let mut mo = body(140 * F, 10 * F, MF_MISSILE | MF_NOGRAVITY);
    assert!(P_ZMovement(&mut mo, &mut v, false, None).explode);
    assert_eq!((mo.z, mo.momz), (144 * F, 0));
}

#[test]
fn ceilings_stop_and_skulls_bounce() {
    let mut mo = body(150 * F, 10 * F, 0);
    let mut v = view();
    P_ZMovement(&mut mo, &mut v, false, None);
    assert_eq!((mo.z, mo.momz), (144 * F, 0));
    let mut mo = body(10 * F, -20 * F, MF_SKULLFLY | MF_NOGRAVITY);
    P_ZMovement(&mut mo, &mut v, false, None);
    assert_eq!((mo.z, mo.momz), (0, 20 * F));
}

#[test]
fn floaters_drift_towards_their_target() {
    let target = TargetPos { x: 10 * F, y: 0, z: 0 };
    let mut mo = body(100 * F, 0, MF_FLOAT | MF_NOGRAVITY);
    let mut v = view();
    P_ZMovement(&mut mo, &mut v, false, Some(target));
    assert_eq!(mo.z, 96 * F);
    let far = TargetPos { x: 500 * F, y: 0, z: 0 };
    P_ZMovement(&mut mo, &mut v, false, Some(far));
    assert_eq!(mo.z, 96 * F);
    let above = TargetPos { x: 10 * F, y: 0, z: 150 * F };
    P_ZMovement(&mut mo, &mut v, false, Some(above));
    assert_eq!(mo.z, 100 * F);
}

use lib::crush::{
    Clearance, CrushEffect, CrushThing, MF_DROPPED, MF_SHOOTABLE, MF_SOLID, P_ChangeSector, P_ThingHeightClip,
    PIT_ChangeSector,
};

fn thing(z: i32, health: i32, flags: u32) -> CrushThing {
    CrushThing { z, floorz: 0, ceilingz: 128 * F, height: 56 * F, radius: 20 * F, health, flags }
}

#[test]
fn things_follow_floors_and_ceilings() {
    let mut t = thing(0, 100, MF_SOLID);
    assert!(P_ThingHeightClip(&mut t, Clearance { floorz: 8 * F, ceilingz: 128 * F }));
    assert_eq!((t.z, t.floorz, t.ceilingz), (8 * F, 8 * F, 128 * F));
    let mut t = thing(60 * F, 100, MF_SOLID);
    assert!(P_ThingHeightClip(&mut t, Clearance { floorz: 0, ceilingz: 100 * F }));
    assert_eq!(t.z, 44 * F);
    let mut t = thing(0, 100, MF_SOLID);
    assert!(!P_ThingHeightClip(&mut t, Clearance { floorz: 0, ceilingz: 40 * F }));
}

#[test]
fn crushing_by_kind_of_thing() {
    let low = Clearance { floorz: 0, ceilingz: 40 * F };
    let mut t = thing(0, 0, MF_SOLID | MF_SHOOTABLE);
    assert_eq!(PIT_ChangeSector(&mut t, low, true, 8), CrushEffect::Gibbed);
    assert_eq!((t.flags, t.height, t.radius), (MF_SHOOTABLE, 0, 0));
    let mut t = thing(0, 10, MF_DROPPED);
    assert_eq!(PIT_ChangeSector(&mut t, low, true, 8), CrushEffect::Removed);
    let mut t = thing(0, 10, 0);
    assert_eq!(PIT_ChangeSector(&mut t, low, true, 8), CrushEffect::Untouched);
    let mut t = thing(0, 10, MF_SHOOTABLE);
    assert_eq!(PIT_ChangeSector(&mut t, low, true, 8), CrushEffect::Hurt);
    assert_eq!(PIT_ChangeSector(&mut t, low, true, 9), CrushEffect::Squeezed);
    assert_eq!(PIT_ChangeSector(&mut t, low, false, 8), CrushEffect::Squeezed);
    let roomy = Clearance { floorz: 0, ceilingz: 128 * F };
    assert_eq!(PIT_ChangeSector(&mut t, roomy, true, 8), CrushEffect::Fits);
}

#[test]
fn a_sector_change_reports_things_that_do_not_fit() {
    let low = Clearance { floorz: 0, ceilingz: 40 * F };
    let roomy = Clearance { floorz: 0, ceilingz: 128 * F };
    let mut things = vec![thing(0, 100, MF_SHOOTABLE), thing(0, 0, MF_SOLID)];
    let (nofit, effects) = P_ChangeSector(&mut things, &vec![roomy, low], true, 4);
    assert!(!nofit);
    assert_eq!(effects, vec![CrushEffect::Fits, CrushEffect::Gibbed]);
    assert_eq!(things[1].height, 0);
    let mut things = vec![thing(0, 100, MF_SHOOTABLE), thing(0, 50, MF_SHOOTABLE)];
    let (nofit, effects) = P_ChangeSector(&mut things, &vec![roomy, low], false, 4);
    assert!(nofit);
    assert_eq!(effects, vec![CrushEffect::Fits, CrushEffect::Squeezed]);
}
