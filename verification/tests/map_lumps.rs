use lib::fixed::FRACUNIT;
use lib::geom::{Vertex, slopetype_t};
use lib::level::{Line, Side};
use lib::mapload::{
    P_LoadBlockMap, P_LoadLineDefs, P_LoadNodes, P_LoadSegs, P_LoadSubsectors, P_LoadThings,
    P_LoadVertexes, subsector_t,
};
use lib::wad::parse_wad_directory;

fn words(ws: &[i16]) -> Vec<u8> {
    ws.iter().flat_map(|w| w.to_le_bytes()).collect()
}

fn side(sector: usize) -> Side {
    Side { textureoffset: 0, rowoffset: 0, toptexture: 0, bottomtexture: 0, midtexture: 0, sector }
}

#[test]
fn vertexes_and_subsectors() {
    let mut data = words(&[64, -32, 1, 2]);
    data.push(9); // a partial record is left out
    let v = P_LoadVertexes(&data);
    assert_eq!(v, vec![Vertex { x: 64 * FRACUNIT, y: -32 * FRACUNIT }, Vertex { x: FRACUNIT, y: 2 * FRACUNIT }]);
    let s = P_LoadSubsectors(&words(&[3, 7]));
    assert_eq!(s, vec![subsector_t { numlines: 3, firstline: 7 }]);
}

#[test]
fn nodes() {
    let ws = vec![10, 20, 0, -5, 1, 2, 3, 4, 5, 6, 7, 8];
    let mut data = words(&ws);
    data.extend_from_slice(&0x8001u16.to_le_bytes());
    data.extend_from_slice(&3u16.to_le_bytes());
    let n = P_LoadNodes(&data);
    assert_eq!(n.len(), 1);
    assert_eq!((n[0].x, n[0].y, n[0].dx, n[0].dy), (10 * FRACUNIT, 20 * FRACUNIT, 0, -5 * FRACUNIT));
    assert_eq!(n[0].bbox[1][2], 7 * FRACUNIT);
    assert_eq!(n[0].children, [0x8001, 3]);
}

#[test]
fn things_stop_at_a_commercial_monster() {
    let data = words(&[0, 0, 90, 1, 7, 5, 5, 0, 68, 7, 8, 8, 0, 3001, 7]);
    assert_eq!(P_LoadThings(&data, true).len(), 3);
    let t = P_LoadThings(&data, false);
    assert_eq!(t.len(), 1);
    assert_eq!((t[0].angle, t[0].ty, t[0].options), (90, 1, 7));
}

#[test]
fn blockmap() {
    let b = P_LoadBlockMap(&words(&[-128, 64, 2, 3, 9, 10])).unwrap();
    assert_eq!((b.orgx, b.orgy, b.width, b.height), (-128 * FRACUNIT, 64 * FRACUNIT, 2, 3));
    assert_eq!(b.words, vec![9, 10]);
    assert!(P_LoadBlockMap(&words(&[0, 0, -1, 3])).is_none());
    assert!(P_LoadBlockMap(&words(&[0, 0, 1])).is_none());
}

#[test]
fn linedefs() {
    let verts = vec![Vertex { x: 0, y: 0 }, Vertex { x: 64 * FRACUNIT, y: 32 * FRACUNIT }, Vertex { x: 0, y: 32 * FRACUNIT }];
    let sides = vec![side(4), side(5)];
    let data = words(&[0, 1, 4, 11, 7, 0, 1, 1, 2, 0, 0, 0, 0, -1]);
    let l = P_LoadLineDefs(&data, &verts, &sides).unwrap();
    assert_eq!(l.len(), 2);
    assert_eq!(l[1].geom.slopetype, slopetype_t::ST_HORIZONTAL);
    assert_eq!(l[1].line.backsector, None);
    let ln: Line = l[0].line;
    assert_eq!((ln.flags, ln.special, ln.tag, ln.sidenum), (4, 11, 7, [0, 1]));
    assert_eq!((ln.frontsector, ln.backsector), (4, Some(5)));
    assert_eq!(l[0].geom.dx, 64 * FRACUNIT);
    assert_eq!(l[0].geom.slopetype, slopetype_t::ST_POSITIVE);
    assert_eq!(l[0].bbox, [32 * FRACUNIT, 0, 0, 64 * FRACUNIT]);
    let bad = words(&[0, 3, 0, 0, 0, 0, -1]);
    assert!(P_LoadLineDefs(&bad, &verts, &sides).is_none());
}

#[test]
fn segs() {
    let lines = vec![
        Line { flags: 4, special: 0, tag: 0, sidenum: [0, 1], frontsector: 4, backsector: Some(5) },
        Line { flags: 0, special: 0, tag: 0, sidenum: [1, -1], frontsector: 5, backsector: None },
    ];
    let sides = vec![side(4), side(5)];
    let data = words(&[0, 1, 16384, 0, 1, 8, 2, 3, 0, 1, 0, 0]);
    let s = P_LoadSegs(&data, &lines, &sides).unwrap();
    assert_eq!(s[0].angle, 0x4000_0000);
    assert_eq!((s[0].sidedef, s[0].frontsector, s[0].backsector), (1, 5, Some(4)));
    assert_eq!(s[0].offset, 8 * FRACUNIT);
    assert_eq!((s[1].frontsector, s[1].backsector), (5, None));
    assert!(P_LoadSegs(&words(&[0, 1, 0, 2, 0, 0]), &lines, &sides).is_none());
}

#[test]
fn wad_directory() {
    let mut wad = b"PWAD".to_vec();
    wad.extend_from_slice(&2u32.to_le_bytes());
    wad.extend_from_slice(&12u32.to_le_bytes());
    for (pos, size, name) in [(44u32, 4u32, b"E1M1\0\0\0\0"), (48, 0, b"THINGS\0\0")] {
        wad.extend_from_slice(&pos.to_le_bytes());
        wad.extend_from_slice(&size.to_le_bytes());
        wad.extend_from_slice(name);
    }
    let d = parse_wad_directory(&wad).unwrap();
    assert_eq!(d.len(), 2);
    assert_eq!((d[0].position, d[0].size, &d[0].name), (44, 4, b"E1M1\0\0\0\0"));
    assert_eq!(&d[1].name, b"THINGS\0\0");
    let mut bad = wad.clone();
    bad[0] = b'X';
    assert!(parse_wad_directory(&bad).is_none());
    assert!(parse_wad_directory(&wad[..40]).is_none());
}
