use lib::fixed::FRACUNIT;
use lib::floors::{EV_DoFloor, T_MovePlane, floor_e, result_e};
use lib::level::{
    Level, Line, ML_TWOSIDED, P_FindHighestCeilingSurrounding, P_FindHighestFloorSurrounding,
    P_FindLowestCeilingSurrounding, P_FindLowestFloorSurrounding, P_FindMinSurroundingLight,
    P_FindNextHighestFloor, P_FindSectorFromLineTag, Sector, Side,
};

fn sector(floor: i32, ceiling: i32, light: i16, tag: i16) -> Sector {
    Sector {
        floorheight: floor * FRACUNIT,
        ceilingheight: ceiling * FRACUNIT,
        floorpic: 1,
        ceilingpic: 2,
        lightlevel: light,
        special: 0,
        tag,
        busy: false,
    }
}

/// Sector 0 in the middle, joined by two-sided lines to sectors 1 and 2,
/// plus one one-sided wall.
fn hub() -> Level {
    let sectors = vec![sector(0, 128, 160, 7), sector(-16, 96, 120, 0), sector(32, 200, 200, 7)];
    let sides = vec![
        Side { textureoffset: 0, rowoffset: 0, toptexture: 0, bottomtexture: 0, midtexture: 0, sector: 0 },
        Side { textureoffset: 0, rowoffset: 0, toptexture: 0, bottomtexture: 1, midtexture: 0, sector: 1 },
        Side { textureoffset: 0, rowoffset: 0, toptexture: 0, bottomtexture: 0, midtexture: 0, sector: 0 },
        Side { textureoffset: 0, rowoffset: 0, toptexture: 0, bottomtexture: 2, midtexture: 0, sector: 2 },
        Side { textureoffset: 0, rowoffset: 0, toptexture: 0, bottomtexture: -1, midtexture: 5, sector: 0 },
    ];
    let lines = vec![
        Line { flags: ML_TWOSIDED, special: 0, tag: 0, sidenum: [0, 1], frontsector: 0, backsector: Some(1) },
        Line { flags: ML_TWOSIDED, special: 0, tag: 0, sidenum: [2, 3], frontsector: 0, backsector: Some(2) },
        Line { flags: 0, special: 0, tag: 0, sidenum: [4, -1], frontsector: 0, backsector: None },
    ];
    let sector_lines = vec![vec![0, 1, 2], vec![0], vec![1]];
    Level { sectors, sector_lines, lines, sides }
}

#[test]
fn surrounding_heights() {
    let lv = hub();
    assert_eq!(P_FindLowestFloorSurrounding(&lv, 0), -16 * FRACUNIT);
    assert_eq!(P_FindHighestFloorSurrounding(&lv, 0), 32 * FRACUNIT);
    assert_eq!(P_FindLowestCeilingSurrounding(&lv, 0), 96 * FRACUNIT);
    assert_eq!(P_FindHighestCeilingSurrounding(&lv, 0), 200 * FRACUNIT);
    assert_eq!(P_FindMinSurroundingLight(&lv, 0, 160), 120);
    assert_eq!(P_FindNextHighestFloor(&lv, 0, 0), 32 * FRACUNIT);
    assert_eq!(P_FindNextHighestFloor(&lv, 0, 40 * FRACUNIT), 40 * FRACUNIT);
    // a lone sector: the starting values come back
    assert_eq!(P_FindHighestFloorSurrounding(&lv, 1), 0);
    assert_eq!(P_FindHighestCeilingSurrounding(&lv, 1), 128 * FRACUNIT);
}

#[test]
fn tagged_sectors_in_order() {
    let lv = hub();
    let line = Line { flags: 0, special: 0, tag: 7, sidenum: [0, -1], frontsector: 0, backsector: None };
    assert_eq!(P_FindSectorFromLineTag(&lv, &line, -1), 0);
    assert_eq!(P_FindSectorFromLineTag(&lv, &line, 0), 2);
    assert_eq!(P_FindSectorFromLineTag(&lv, &line, 2), -1);
}

#[test]
fn lower_floor_starts_movers_once() {
    let mut lv = hub();
    let line = Line { flags: 0, special: 23, tag: 7, sidenum: [0, -1], frontsector: 1, backsector: None };
    let heights = vec![64 * FRACUNIT, 24 * FRACUNIT, 72 * FRACUNIT];
    let moves = EV_DoFloor(&mut lv, &line, floor_e::lowerFloorToLowest, &heights);
    assert_eq!(moves.len(), 2);
    assert_eq!(moves[0].sector, 0);
    assert_eq!(moves[0].floordestheight, -16 * FRACUNIT);
    assert_eq!(moves[0].direction, -1);
    assert_eq!(moves[1].sector, 2);
    assert_eq!(moves[1].floordestheight, 0);
    assert!(lv.sectors[0].busy && lv.sectors[2].busy && !lv.sectors[1].busy);
    // the sectors are busy now: nothing more starts
    let again = EV_DoFloor(&mut lv, &line, floor_e::lowerFloorToLowest, &heights);
    assert!(again.is_empty());
}

#[test]
fn raise_to_texture_uses_shortest_lower_texture() {
    let mut lv = hub();
    let line = Line { flags: 0, special: 30, tag: 7, sidenum: [0, -1], frontsector: 1, backsector: None };
    let heights = vec![64 * FRACUNIT, 24 * FRACUNIT, 72 * FRACUNIT];
    let moves = EV_DoFloor(&mut lv, &line, floor_e::raiseToTexture, &heights);
    assert_eq!(moves[0].floordestheight, 24 * FRACUNIT);
    assert_eq!(moves[0].direction, 1);
}

#[test]
fn plane_stops_at_destination() {
    let mut s = sector(0, 128, 160, 0);
    let r = T_MovePlane(&mut s, 8 * FRACUNIT, 4 * FRACUNIT, false, 0, 1, false);
    assert_eq!(r.result, result_e::pastdest);
    assert!(!r.recheck);
    assert_eq!(s.floorheight, 4 * FRACUNIT);
    let mut s = sector(0, 128, 160, 0);
    let r = T_MovePlane(&mut s, FRACUNIT, 64 * FRACUNIT, false, 0, 1, true);
    assert_eq!(r.result, result_e::crushed);
    assert!(r.recheck);
    assert_eq!(s.floorheight, 0);
    let mut s = sector(0, 128, 160, 0);
    let r = T_MovePlane(&mut s, FRACUNIT, 64 * FRACUNIT, true, 0, 1, true);
    assert_eq!(r.result, result_e::crushed);
    assert!(!r.recheck);
    assert_eq!(s.floorheight, FRACUNIT);
}
