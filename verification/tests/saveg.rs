use lib::fixed::FRACUNIT;
use lib::level::{Level, Line, ML_TWOSIDED, Sector, Side};
use lib::saveg::{P_ArchiveWorld, P_UnArchiveWorld};

fn room() -> Level {
    let sectors = vec![
        Sector {
            floorheight: -8 * FRACUNIT,
            ceilingheight: 128 * FRACUNIT,
            floorpic: 3,
            ceilingpic: 4,
            lightlevel: 160,
            special: 9,
            tag: 7,
            busy: true,
        },
        Sector {
            floorheight: 24 * FRACUNIT,
            ceilingheight: 96 * FRACUNIT,
            floorpic: 5,
            ceilingpic: 6,
            lightlevel: 255,
            special: 0,
            tag: 0,
            busy: false,
        },
    ];
    let sides = vec![
        Side { textureoffset: 2 * FRACUNIT, rowoffset: -FRACUNIT, toptexture: 10, bottomtexture: 11, midtexture: 12, sector: 0 },
        Side { textureoffset: 0, rowoffset: 0, toptexture: 20, bottomtexture: 21, midtexture: 22, sector: 1 },
        Side { textureoffset: 0, rowoffset: 0, toptexture: 30, bottomtexture: 31, midtexture: 32, sector: 0 },
    ];
    let lines = vec![
        Line { flags: ML_TWOSIDED, special: 1, tag: 0, sidenum: [0, 1], frontsector: 0, backsector: Some(1) },
        Line { flags: 1, special: 11, tag: 7, sidenum: [2, -1], frontsector: 0, backsector: None },
    ];
    Level { sectors, sector_lines: vec![vec![0, 1], vec![0]], lines, sides }
}

#[test]
fn world_record_layout() {
    let lv = room();
    let mut save: Vec<i16> = vec![99];
    P_ArchiveWorld(&lv, &mut save);
    let expected: Vec<i16> = vec![
        99, // what the stream held before
        -8, 128, 3, 4, 160, 9, 7, // sector 0
        24, 96, 5, 6, 255, 0, 0, // sector 1
        ML_TWOSIDED, 1, 0, 2, -1, 10, 11, 12, 0, 0, 20, 21, 22, // line 0, both sides
        1, 11, 7, 0, 0, 30, 31, 32, // line 1, front side only
    ];
    assert_eq!(save, expected);
}

#[test]
fn world_heights_round_down_to_whole_units() {
    let mut lv = room();
    lv.sectors[0].floorheight = -1;
    lv.sectors[1].ceilingheight = 96 * FRACUNIT + FRACUNIT / 2;
    let mut save: Vec<i16> = Vec::new();
    P_ArchiveWorld(&lv, &mut save);
    assert_eq!(save[0], -1);
    assert_eq!(save[8], 96);
}

#[test]
fn world_load_restores_what_was_saved() {
    let saved = room();
    let mut save: Vec<i16> = vec![5, 5];
    P_ArchiveWorld(&saved, &mut save);
    save.push(42);

    let mut into = room();
    into.sectors[0].floorheight = 0;
    into.sectors[1].lightlevel = 0;
    into.lines[1].special = 0;
    into.sides[0].toptexture = 0;
    into.sides[2].rowoffset = 3 * FRACUNIT;
    let mut pos: usize = 2;
    P_UnArchiveWorld(&mut into, &save, &mut pos);
    assert_eq!(pos, save.len() - 1);
    assert_eq!(save[pos], 42);
    for i in 0..2 {
        let (a, b) = (into.sectors[i], saved.sectors[i]);
        assert_eq!(
            (a.floorheight, a.ceilingheight, a.floorpic, a.ceilingpic, a.lightlevel, a.special, a.tag),
            (b.floorheight, b.ceilingheight, b.floorpic, b.ceilingpic, b.lightlevel, b.special, b.tag)
        );
        assert!(!a.busy);
    }
    for k in 0..2 {
        let (a, b) = (into.lines[k], saved.lines[k]);
        assert_eq!((a.flags, a.special, a.tag, a.sidenum), (b.flags, b.special, b.tag, b.sidenum));
    }
    for d in 0..3 {
        let (a, b) = (into.sides[d], saved.sides[d]);
        assert_eq!(
            (a.textureoffset, a.rowoffset, a.toptexture, a.bottomtexture, a.midtexture, a.sector),
            (b.textureoffset, b.rowoffset, b.toptexture, b.bottomtexture, b.midtexture, b.sector)
        );
    }
}

#[test]
fn world_load_reads_fixed_point_from_units() {
    let mut lv = room();
    let save: Vec<i16> = vec![
        -32768, 32767, 1, 2, 3, 4, 5, // sector 0
        0, 1, 1, 1, 1, 1, 1, // sector 1
        0, 0, 0, -3, 2, 7, 8, 9, 0, 0, 1, 1, 1, // line 0
        9, 9, 9, 1, 1, 1, 1, 1, // line 1
    ];
    let mut pos: usize = 0;
    P_UnArchiveWorld(&mut lv, &save, &mut pos);
    assert_eq!(pos, save.len());
    assert_eq!(lv.sectors[0].floorheight, i32::MIN);
    assert_eq!(lv.sectors[0].ceilingheight, 32767 * FRACUNIT);
    assert_eq!(lv.sectors[1].ceilingheight, FRACUNIT);
    assert_eq!(lv.lines[0].flags, 0);
    assert_eq!(lv.lines[1].tag, 9);
    assert_eq!(lv.sides[0].textureoffset, -3 * FRACUNIT);
    assert_eq!(lv.sides[0].rowoffset, 2 * FRACUNIT);
    assert_eq!(lv.sides[2].midtexture, 1);
    assert_eq!(lv.sides[2].rowoffset, FRACUNIT);
}
