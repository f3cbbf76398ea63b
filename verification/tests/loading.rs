use lib::fixed::FRACUNIT;
use lib::lumps::{R_CheckTextureNumForName, R_FlatNumForName, R_TextureNumForName, W_CheckNumForName};
use lib::mapload::{P_LoadSectors, P_LoadSideDefs};
use lib::player::GameMode_t;
use lib::switches::{MAXSWITCHES, P_InitSwitchList, alphSwitchList};

fn name8(s: &str) -> [u8; 8] {
    let mut n = [0u8; 8];
    for (i, b) in s.bytes().take(8).enumerate() {
        n[i] = b;
    }
    n
}

fn le(v: i16) -> [u8; 2] {
    v.to_le_bytes()
}

#[test]
fn lump_lookup_takes_the_last_match_in_upper_case() {
    let lumps = vec![name8("PLAYPAL"), name8("FLOOR0_1"), name8("NUKAGE1"), name8("FLOOR0_1")];
    assert_eq!(W_CheckNumForName(&lumps, b"floor0_1"), Some(3));
    assert_eq!(W_CheckNumForName(&lumps, b"PlayPal"), Some(0));
    assert_eq!(W_CheckNumForName(&lumps, b"NUKAGE1\0junk"), Some(2));
    assert_eq!(W_CheckNumForName(&lumps, b"NUKAGE1XYZ"), None);
    assert_eq!(W_CheckNumForName(&lumps, b"FLAT"), None);
    assert_eq!(W_CheckNumForName(&lumps, b""), None);
}

#[test]
fn texture_lookup_ignores_case_and_stops_at_zero() {
    let textures = vec![name8("AASHITTY"), name8("STARTAN3"), name8("SW1BRN1"), name8("startan3")];
    assert_eq!(R_CheckTextureNumForName(&textures, &name8("-")), 0);
    assert_eq!(R_CheckTextureNumForName(&textures, &name8("-ANYTHIN")), 0);
    assert_eq!(R_CheckTextureNumForName(&textures, &name8("StarTan3")), 1);
    assert_eq!(R_CheckTextureNumForName(&textures, &name8("SW1BRN1")), 2);
    assert_eq!(R_CheckTextureNumForName(&textures, &name8("SW1BRN")), -1);
    assert_eq!(R_CheckTextureNumForName(&textures, &name8("NOSUCH")), -1);
    assert_eq!(R_TextureNumForName(&textures, &name8("aashitty")), Some(0));
    assert_eq!(R_TextureNumForName(&textures, &name8("NOSUCH")), None);
}

#[test]
fn flat_numbers_count_from_the_first_flat() {
    let lumps = vec![name8("F_START"), name8("FLOOR4_8"), name8("CEIL3_5"), name8("F_END")];
    assert_eq!(R_FlatNumForName(&lumps, 1, b"CEIL3_5"), Some(1));
    assert_eq!(R_FlatNumForName(&lumps, 1, b"floor4_8"), Some(0));
    assert_eq!(R_FlatNumForName(&lumps, 1, b"F_START"), None);
    assert_eq!(R_FlatNumForName(&lumps, 1, b"MISSING"), None);
}

fn sector_record(floor: i16, ceiling: i16, fpic: &str, cpic: &str, light: i16, special: i16, tag: i16) -> Vec<u8> {
    let mut r = Vec::new();
    r.extend_from_slice(&le(floor));
    r.extend_from_slice(&le(ceiling));
    r.extend_from_slice(&name8(fpic));
    r.extend_from_slice(&name8(cpic));
    r.extend_from_slice(&le(light));
    r.extend_from_slice(&le(special));
    r.extend_from_slice(&le(tag));
    r
}

#[test]
fn sectors_are_read_from_their_records() {
    let lumps = vec![name8("F_START"), name8("FLOOR4_8"), name8("CEIL3_5"), name8("F_END")];
    let mut data = sector_record(-16, 128, "FLOOR4_8", "ceil3_5", 160, 9, 7);
    data.extend(sector_record(0, 72, "CEIL3_5", "FLOOR4_8", 255, 0, -2));
    data.extend_from_slice(&[1, 2, 3]);
    let sectors = P_LoadSectors(&data, &lumps, 1).unwrap();
    assert_eq!(sectors.len(), 2);
    let s = sectors[0];
    assert_eq!((s.floorheight, s.ceilingheight), (-16 * FRACUNIT, 128 * FRACUNIT));
    assert_eq!((s.floorpic, s.ceilingpic, s.lightlevel, s.special, s.tag), (0, 1, 160, 9, 7));
    assert!(!s.busy);
    let s = sectors[1];
    assert_eq!((s.floorpic, s.ceilingpic, s.lightlevel, s.tag), (1, 0, 255, -2));

    let bad = sector_record(0, 72, "CEIL3_5", "NOFLAT", 255, 0, 0);
    assert!(P_LoadSectors(&bad, &lumps, 1).is_none());
    assert_eq!(P_LoadSectors(&[], &lumps, 1).map(|v| v.len()), Some(0));
}

fn side_record(xoff: i16, yoff: i16, top: &str, bottom: &str, mid: &str, sector: i16) -> Vec<u8> {
    let mut r = Vec::new();
    r.extend_from_slice(&le(xoff));
    r.extend_from_slice(&le(yoff));
    r.extend_from_slice(&name8(top));
    r.extend_from_slice(&name8(bottom));
    r.extend_from_slice(&name8(mid));
    r.extend_from_slice(&le(sector));
    r
}

#[test]
fn sides_are_read_from_their_records() {
    let textures = vec![name8("AASHITTY"), name8("STARTAN3"), name8("BROWN1")];
    let mut data = side_record(8, -4, "-", "brown1", "STARTAN3", 3);
    data.extend(side_record(-1, 0, "STARTAN3", "-", "-", -1));
    let sides = P_LoadSideDefs(&data, &textures).unwrap();
    assert_eq!(sides.len(), 2);
    let d = sides[0];
    assert_eq!((d.textureoffset, d.rowoffset), (8 * FRACUNIT, -4 * FRACUNIT));
    assert_eq!((d.toptexture, d.bottomtexture, d.midtexture, d.sector), (0, 2, 1, 3));
    let d = sides[1];
    assert_eq!(d.textureoffset, -FRACUNIT);
    assert_eq!((d.toptexture, d.bottomtexture, d.midtexture), (1, 0, 0));
    assert_eq!(d.sector, usize::MAX);

    let bad = side_record(0, 0, "-", "-", "NOTEX", 0);
    assert!(P_LoadSideDefs(&bad, &textures).is_none());
}

fn switch_textures(episodes: i16) -> Vec<[u8; 8]> {
    let mut textures = vec![name8("AASHITTY")];
    for sw in alphSwitchList() {
        if sw.episode != 0 && sw.episode <= episodes {
            let n1: [u8; 8] = sw.name1[..8].try_into().unwrap();
            let n2: [u8; 8] = sw.name2[..8].try_into().unwrap();
            textures.push(n2);
            textures.push(n1);
        }
    }
    textures
}

#[test]
fn switch_list_of_the_shareware_game() {
    let textures = switch_textures(1);
    let (list, num) = P_InitSwitchList(&alphSwitchList(), GameMode_t::shareware, &textures).unwrap();
    assert_eq!(num, 19);
    assert_eq!(list.len(), 2 * MAXSWITCHES);
    // SW1BRCOM is texture 2, SW2BRCOM texture 1.
    assert_eq!((list[0], list[1]), (2, 1));
    assert_eq!((list[36], list[37]), (38, 37));
    assert_eq!(list[38], -1);
    assert!(list[39..].iter().all(|&t| t == 0));
}

#[test]
fn switch_list_of_the_second_game_needs_its_textures() {
    let textures = switch_textures(2);
    assert!(P_InitSwitchList(&alphSwitchList(), GameMode_t::commercial, &textures).is_none());
    let (_, num) = P_InitSwitchList(&alphSwitchList(), GameMode_t::registered, &textures).unwrap();
    assert_eq!(num, 29);
    let all = switch_textures(3);
    let (list, num) = P_InitSwitchList(&alphSwitchList(), GameMode_t::commercial, &all).unwrap();
    assert_eq!(num, 40);
    assert_eq!(list[80], -1);
    assert_eq!((list[78], list[79]), (80, 79));
}
