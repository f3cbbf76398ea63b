use lib::fixed::FRACUNIT;
use lib::geom::{node_t, Vertex};
use lib::level::{Sector, ML_TWOSIDED};
use lib::mapload::subsector_t;
use lib::sight::{P_CheckSight, SightLine, SightMap, SightSeg, SightThing};

fn sector(floor: i32, ceiling: i32) -> Sector {
    Sector {
        floorheight: floor * FRACUNIT,
        ceilingheight: ceiling * FRACUNIT,
        floorpic: 0,
        ceilingpic: 0,
        lightlevel: 160,
        special: 0,
        tag: 0,
        busy: false,
    }
}

fn at(x: i32, y: i32) -> Vertex {
    Vertex { x: x * FRACUNIT, y: y * FRACUNIT }
}

fn thing(x: i32, sector: usize) -> SightThing {
    SightThing { x: x * FRACUNIT, y: 0, z: 0, height: 56 * FRACUNIT, sector }
}

/// A map of two sectors split by a line across x = 0, in one subsector.
fn split(flags: i16, back: Sector) -> SightMap {
    SightMap {
        lines: vec![SightLine { v1: at(0, -64), v2: at(0, 64), flags }],
        segs: vec![SightSeg { linedef: 0, frontsector: 0, backsector: if flags & ML_TWOSIDED != 0 { Some(1) } else { None } }],
        sectors: vec![sector(0, 128), back],
        subsectors: vec![subsector_t { numlines: 1, firstline: 0 }],
        nodes: vec![],
        reject: vec![0],
    }
}

#[test]
fn a_solid_wall_blocks_sight() {
    let m = split(1, sector(0, 128));
    assert!(!P_CheckSight(&m, &thing(-32, 0), &thing(32, 0)));
}

#[test]
fn an_open_two_sided_line_lets_sight_through() {
    let m = split(ML_TWOSIDED, sector(0, 128));
    assert!(P_CheckSight(&m, &thing(-32, 0), &thing(32, 1)));
}

#[test]
fn a_closed_door_blocks_sight() {
    let m = split(ML_TWOSIDED, sector(0, 0));
    assert!(!P_CheckSight(&m, &thing(-32, 0), &thing(32, 1)));
}

#[test]
fn a_high_ledge_hides_the_target_and_a_low_step_does_not() {
    let high = split(ML_TWOSIDED, sector(100, 128));
    assert!(!P_CheckSight(&high, &thing(-32, 0), &thing(32, 0)));
    let low = split(ML_TWOSIDED, sector(8, 128));
    assert!(P_CheckSight(&low, &thing(-32, 0), &thing(32, 0)));
}

#[test]
fn a_line_the_trace_does_not_reach_is_no_obstacle() {
    let m = split(1, sector(0, 128));
    assert!(P_CheckSight(&m, &thing(-32, 0), &thing(-8, 0)));
}

#[test]
fn the_reject_table_rules_sight_out() {
    let mut m = split(ML_TWOSIDED, sector(0, 128));
    // Pair (0, 1) is bit 1.
    m.reject = vec![2];
    assert!(!P_CheckSight(&m, &thing(-32, 0), &thing(32, 1)));
    assert!(P_CheckSight(&m, &thing(-32, 1), &thing(32, 0)));
}

#[test]
fn sight_walks_both_sides_of_a_partition() {
    // One node splitting at x = 0; the wall stands in the front subsector.
    let node = node_t {
        x: 0,
        y: -64 * FRACUNIT,
        dx: 0,
        dy: 128 * FRACUNIT,
        bbox: [[0; 4]; 2],
        children: [0x8001, 0x8000],
    };
    let mut m = split(1, sector(0, 128));
    m.lines = vec![SightLine { v1: at(16, -64), v2: at(16, 64), flags: 1 }];
    m.subsectors = vec![subsector_t { numlines: 0, firstline: 0 }, subsector_t { numlines: 1, firstline: 0 }];
    m.nodes = vec![node];
    assert!(!P_CheckSight(&m, &thing(-32, 0), &thing(32, 0)));
    // A target short of the wall is seen.
    assert!(P_CheckSight(&m, &thing(-32, 0), &thing(8, 0)));
    // Looking from the target's side, the trace stays in the front.
    assert!(P_CheckSight(&m, &thing(4, 0), &thing(12, 0)));
}
