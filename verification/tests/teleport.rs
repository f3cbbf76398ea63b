use lib::crush::MF_SHOOTABLE;
use lib::fixed::FRACUNIT;
use lib::level::Sector;
use lib::teleport::{
    EV_Teleport, NearThing, PIT_StompThing, Stomp, TeleMap, TeleThing, TeleportSpot, teleport_destination,
};
use lib::zmove::MF_MISSILE;

const F: i32 = FRACUNIT;

fn sector(floor: i32, tag: i16) -> Sector {
    Sector {
        floorheight: floor * F,
        ceilingheight: 128 * F,
        floorpic: 0,
        ceilingpic: 0,
        lightlevel: 160,
        special: 0,
        tag,
        busy: false,
    }
}

/// Two sectors; the whole (node-less) map is subsector 0, in sector 1.
fn map() -> TeleMap {
    TeleMap { nodes: vec![], subsector_sector: vec![1], sectors: vec![sector(0, 0), sector(16, 7)] }
}

fn spots() -> Vec<TeleportSpot> {
    vec![
        TeleportSpot { x: 10 * F, y: 10 * F, angle: 0, sector: 0 },
        TeleportSpot { x: 500 * F, y: 600 * F, angle: 0, sector: 1 },
    ]
}

fn traveller(is_player: bool) -> TeleThing {
    TeleThing {
        id: 1,
        flags: MF_SHOOTABLE,
        x: 0,
        y: 0,
        z: 0,
        radius: 16 * F,
        floorz: 0,
        ceilingz: 128 * F,
        angle: 0x4000_0000,
        momx: 3 * F,
        momy: 4 * F,
        momz: 0,
        reactiontime: 0,
        is_player,
        viewheight: 41 * F,
        viewz: 41 * F,
    }
}

fn finesine() -> Vec<i32> {
    let mut t = vec![0; 10240];
    t[2048] = F;
    t
}

fn waiting_imp() -> Vec<NearThing> {
    vec![
        NearThing { id: 8, flags: 0, x: 505 * F, y: 600 * F, radius: 20 * F },
        NearThing { id: 9, flags: MF_SHOOTABLE, x: 510 * F, y: 600 * F, radius: 20 * F },
        NearThing { id: 10, flags: MF_SHOOTABLE, x: 600 * F, y: 600 * F, radius: 20 * F },
    ]
}

#[test]
fn a_player_teleports_and_telefrags() {
    let mut t = traveller(true);
    let r = EV_Teleport(&map(), 7, 0, &mut t, &spots(), &waiting_imp(), 1, &finesine());
    assert!(r.teleported);
    assert_eq!(r.killed, vec![9]);
    assert_eq!((t.x, t.y, t.z), (500 * F, 600 * F, 16 * F));
    assert_eq!(t.floorz, 16 * F);
    assert_eq!(t.viewz, 57 * F);
    assert_eq!(t.reactiontime, 18);
    assert_eq!(t.angle, 0);
    assert_eq!((t.momx, t.momy, t.momz), (0, 0, 0));
    let (from, to) = r.fog.unwrap();
    assert_eq!((from.x, from.y, from.z), (0, 0, 0));
    assert_eq!((to.x, to.y, to.z), (520 * F, 600 * F, 16 * F));
}

#[test]
fn a_monster_is_blocked_where_something_stands() {
    let mut t = traveller(false);
    let before = t;
    let r = EV_Teleport(&map(), 7, 0, &mut t, &spots(), &waiting_imp(), 1, &finesine());
    assert!(!r.teleported);
    assert!(r.killed.is_empty());
    assert!(r.fog.is_none());
    assert_eq!(t, before);
    // On the boss level monsters telefrag too.
    let r = EV_Teleport(&map(), 7, 0, &mut t, &spots(), &waiting_imp(), 30, &finesine());
    assert!(r.teleported);
    assert_eq!(t.reactiontime, 0);
}

#[test]
fn missiles_and_back_sides_do_not_teleport() {
    let mut t = traveller(true);
    t.flags |= MF_MISSILE;
    let r = EV_Teleport(&map(), 7, 0, &mut t, &spots(), &vec![], 1, &finesine());
    assert!(!r.teleported);
    let mut t = traveller(true);
    let r = EV_Teleport(&map(), 7, 1, &mut t, &spots(), &vec![], 1, &finesine());
    assert!(!r.teleported);
    assert_eq!(t.x, 0);
    // No sector has the tag.
    let r = EV_Teleport(&map(), 5, 0, &mut t, &spots(), &vec![], 1, &finesine());
    assert!(!r.teleported);
}

#[test]
fn the_first_tagged_sector_with_a_spot_wins() {
    let sectors = vec![sector(0, 7), sector(0, 3), sector(0, 7), sector(0, 7)];
    let spots = vec![
        TeleportSpot { x: 0, y: 0, angle: 0, sector: 1 },
        TeleportSpot { x: 0, y: 0, angle: 0, sector: 3 },
        TeleportSpot { x: 0, y: 0, angle: 0, sector: 2 },
    ];
    assert_eq!(teleport_destination(&sectors, &spots, 7), Some(2));
    assert_eq!(teleport_destination(&sectors, &spots, 3), Some(0));
    assert_eq!(teleport_destination(&sectors, &spots, 9), None);
}

#[test]
fn stomping_needs_touching() {
    let tm = traveller(true);
    let far = NearThing { id: 9, flags: MF_SHOOTABLE, x: 36 * F, y: 0, radius: 20 * F };
    assert_eq!(PIT_StompThing(&far, &tm, 0, 0, 1), Stomp::Clear);
    let near = NearThing { x: 35 * F, ..far };
    assert_eq!(PIT_StompThing(&near, &tm, 0, 0, 1), Stomp::Killed);
    let me = NearThing { id: 1, ..near };
    assert_eq!(PIT_StompThing(&me, &tm, 0, 0, 1), Stomp::Clear);
}
