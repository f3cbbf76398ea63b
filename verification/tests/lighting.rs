use lib::fixed::FRACUNIT;
use lib::level::{Level, Line, ML_TWOSIDED, Sector, Side};
use lib::lights::{
    EV_LightTurnOn, EV_TurnTagLightsOff, P_SpawnFireFlicker, P_SpawnGlowingLight,
    P_SpawnLightFlash, P_SpawnStrobeFlash, T_FireFlicker, T_Glow, T_LightFlash, T_StrobeFlash,
    glow_t, FASTDARK,
};

fn sector(light: i16, tag: i16) -> Sector {
    Sector {
        floorheight: 0,
        ceilingheight: 128 * FRACUNIT,
        floorpic: 0,
        ceilingpic: 0,
        lightlevel: light,
        special: 1,
        tag,
        busy: false,
    }
}

/// Three sectors in a row, 0 - 1 - 2; sectors 1 and 2 carry tag 4.
fn row() -> Level {
    let sectors = vec![sector(96, 0), sector(200, 4), sector(144, 4)];
    let sides = vec![
        Side { textureoffset: 0, rowoffset: 0, toptexture: 0, bottomtexture: 0, midtexture: 0, sector: 0 },
        Side { textureoffset: 0, rowoffset: 0, toptexture: 0, bottomtexture: 0, midtexture: 0, sector: 1 },
        Side { textureoffset: 0, rowoffset: 0, toptexture: 0, bottomtexture: 0, midtexture: 0, sector: 1 },
        Side { textureoffset: 0, rowoffset: 0, toptexture: 0, bottomtexture: 0, midtexture: 0, sector: 2 },
    ];
    let lines = vec![
        Line { flags: ML_TWOSIDED, special: 0, tag: 0, sidenum: [0, 1], frontsector: 0, backsector: Some(1) },
        Line { flags: ML_TWOSIDED, special: 0, tag: 0, sidenum: [2, 3], frontsector: 1, backsector: Some(2) },
    ];
    Level { sectors, sector_lines: vec![vec![0], vec![0, 1], vec![1]], lines, sides }
}

fn tag4() -> Line {
    Line { flags: 0, special: 0, tag: 4, sidenum: [0, -1], frontsector: 0, backsector: None }
}

#[test]
fn fire_flicker() {
    let mut lv = row();
    let mut f = P_SpawnFireFlicker(&mut lv, 1);
    assert_eq!((f.maxlight, f.minlight, f.count), (200, 112, 4));
    assert_eq!(lv.sectors[1].special, 0);
    let mut s = lv.sectors[1];
    T_FireFlicker(&mut f, &mut s, 0);
    assert_eq!(f.count, 3);
    f.count = 1;
    T_FireFlicker(&mut f, &mut s, 3);
    assert_eq!(s.lightlevel, 152);
    assert_eq!(f.count, 4);
    s.lightlevel = 120;
    f.count = 1;
    T_FireFlicker(&mut f, &mut s, 2);
    assert_eq!(s.lightlevel, 112);
}

#[test]
fn random_flash() {
    let mut lv = row();
    let mut f = P_SpawnLightFlash(&mut lv, 1, 200);
    assert_eq!((f.maxlight, f.minlight), (200, 96));
    assert_eq!(f.count, (200 & 64) + 1);
    let mut s = lv.sectors[1];
    f.count = 1;
    T_LightFlash(&mut f, &mut s, 13);
    assert_eq!(s.lightlevel, 96);
    assert_eq!(f.count, (13 & 7) + 1);
    f.count = 1;
    T_LightFlash(&mut f, &mut s, 13);
    assert_eq!(s.lightlevel, 200);
    assert_eq!(f.count, (13 & 64) + 1);
}

#[test]
fn strobes() {
    let mut lv = row();
    let mut st = P_SpawnStrobeFlash(&mut lv, 1, FASTDARK, 0, 3);
    assert_eq!((st.minlight, st.maxlight, st.darktime, st.count), (96, 200, 15, 4));
    let st0 = P_SpawnStrobeFlash(&mut lv, 0, FASTDARK, 1, 3);
    assert_eq!((st0.minlight, st0.count), (0, 1));
    let mut s = lv.sectors[1];
    st.count = 1;
    T_StrobeFlash(&mut st, &mut s);
    assert_eq!((s.lightlevel, st.count), (96, 15));
    st.count = 1;
    T_StrobeFlash(&mut st, &mut s);
    assert_eq!((s.lightlevel, st.count), (200, 5));
}

#[test]
fn glow_turns_at_its_bounds() {
    let mut lv = row();
    let mut g = P_SpawnGlowingLight(&mut lv, 1);
    assert_eq!((g.minlight, g.maxlight, g.direction), (96, 200, -1));
    let mut s = lv.sectors[1];
    T_Glow(&mut g, &mut s);
    assert_eq!(s.lightlevel, 192);
    s.lightlevel = 100;
    T_Glow(&mut g, &mut s);
    assert_eq!((s.lightlevel, g.direction), (100, 1));
    let mut up = glow_t { sector: 1, minlight: 96, maxlight: 200, direction: 1 };
    s.lightlevel = 195;
    T_Glow(&mut up, &mut s);
    assert_eq!((s.lightlevel, up.direction), (195, -1));
}

#[test]
fn tagged_lights_off_and_on() {
    let mut lv = row();
    EV_TurnTagLightsOff(&mut lv, &tag4());
    // sector 1 takes 96 from sector 0; sector 2 then takes 96 from sector 1
    assert_eq!(lv.sectors[1].lightlevel, 96);
    assert_eq!(lv.sectors[2].lightlevel, 96);
    assert_eq!(lv.sectors[0].lightlevel, 96);
    let mut lv = row();
    EV_LightTurnOn(&mut lv, &tag4(), 35);
    assert_eq!((lv.sectors[1].lightlevel, lv.sectors[2].lightlevel), (35, 35));
    let mut lv = row();
    EV_LightTurnOn(&mut lv, &tag4(), 0);
    // brightest neighbour of sector 1 is 144; that level is kept for sector 2
    assert_eq!((lv.sectors[1].lightlevel, lv.sectors[2].lightlevel), (144, 144));
}
