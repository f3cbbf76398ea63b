use lib::textures::{R_InitTextures, R_PatchLookup, texpatch_t};

fn name8(s: &[u8]) -> Vec<u8> {
    let mut v = s.to_vec();
    v.resize(8, 0);
    v
}

fn texture(name: &[u8], width: i16, height: i16, patches: &[(i16, i16, i16)]) -> Vec<u8> {
    let mut t = name8(name);
    t.extend_from_slice(&0u32.to_le_bytes());
    t.extend_from_slice(&width.to_le_bytes());
    t.extend_from_slice(&height.to_le_bytes());
    t.extend_from_slice(&0u32.to_le_bytes());
    t.extend_from_slice(&(patches.len() as i16).to_le_bytes());
    for &(x, y, p) in patches {
        for w in [x, y, p, 1, 0] {
            t.extend_from_slice(&w.to_le_bytes());
        }
    }
    t
}

fn texture_lump(textures: &[Vec<u8>]) -> Vec<u8> {
    let mut head = (textures.len() as u32).to_le_bytes().to_vec();
    let mut off = 4 + 4 * textures.len();
    for t in textures {
        head.extend_from_slice(&(off as u32).to_le_bytes());
        off += t.len();
    }
    for t in textures {
        head.extend_from_slice(t);
    }
    head
}

#[test]
fn patch_names_are_looked_up() {
    let lumps = vec![*b"WALL00_1", *b"DOOR2_1\0", *b"WALL00_1"];
    let mut pnames = 3u32.to_le_bytes().to_vec();
    pnames.extend(name8(b"wall00_1"));
    pnames.extend(name8(b"DOOR2_1"));
    pnames.extend(name8(b"NOPE"));
    assert_eq!(R_PatchLookup(&pnames, &lumps), Some(vec![Some(2), Some(1), None]));
    assert_eq!(R_PatchLookup(&pnames[..20], &lumps), None);
}

#[test]
fn textures_from_both_lumps() {
    let lookup = vec![Some(7), Some(9), None];
    let t1 = texture_lump(&[texture(b"STARTAN3", 128, 64, &[(0, 0, 0), (64, -8, 1)]), texture(b"BIG", 200, 8, &[(0, 0, 1)])]);
    let t2 = texture_lump(&[texture(b"SKY1", 256, 128, &[(0, 0, 0)])]);
    let t = R_InitTextures(&t1, Some(&t2), &lookup).unwrap();
    assert_eq!(t.len(), 3);
    assert_eq!(&t[0].name, b"STARTAN3");
    assert_eq!((t[0].width, t[0].height, t[0].widthmask), (128, 64, 127));
    assert_eq!(t[0].patches, vec![texpatch_t { originx: 0, originy: 0, patch: 7 }, texpatch_t { originx: 64, originy: -8, patch: 9 }]);
    assert_eq!(t[1].widthmask, 127);
    assert_eq!(&t[2].name[..4], b"SKY1");
    assert_eq!(R_InitTextures(&t1, None, &lookup).unwrap().len(), 2);
    // a patch that was not found, and no patches at all
    let missing = texture_lump(&[texture(b"X", 8, 8, &[(0, 0, 2)])]);
    assert!(R_InitTextures(&missing, None, &lookup).is_none());
    let empty = texture_lump(&[texture(b"X", 8, 8, &[])]);
    assert!(R_InitTextures(&t1, Some(&empty), &lookup).is_none());
}
