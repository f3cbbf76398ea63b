use lib::fixed::FRACUNIT;
use lib::segs::{
    ClipState, ColumnLight, R_RenderSegLoop, R_WallSetup, SegCursor, SegWall, SpriteClip, ML_DONTPEGBOTTOM, SIL_BOTTOM,
    SIL_TOP,
};

fn wall(mid: usize, top: usize, bottom: usize) -> SegWall {
    SegWall {
        markceiling: true,
        markfloor: true,
        segtextured: true,
        maskedtexture: false,
        midtexture: mid,
        toptexture: top,
        bottomtexture: bottom,
        centerangle: 0,
        offset: 3 * FRACUNIT,
        distance: FRACUNIT,
        midtexturemid: 7,
        toptexturemid: 8,
        bottomtexturemid: 9,
        viewheight: 100,
        topstep: 4096,
        bottomstep: 0,
        pixhighstep: 0,
        pixlowstep: 0,
        scalestep: 0,
        stopx: 2,
    }
}

fn clip() -> ClipState {
    ClipState {
        ceilingclip: vec![-1; 4],
        floorclip: vec![100; 4],
        ceiling_top: vec![0xff; 4],
        ceiling_bottom: vec![0; 4],
        floor_top: vec![0xff; 4],
        floor_bottom: vec![0; 4],
        masked: vec![0; 4],
    }
}

fn cursor() -> SegCursor {
    SegCursor { x: 0, topfrac: 20 << 12, bottomfrac: 80 << 12, pixhigh: 40 << 12, pixlow: 60 << 12, scale: FRACUNIT }
}

#[test]
fn a_one_sided_wall_fills_its_columns() {
    let mut cur = cursor();
    let mut c = clip();
    let d = R_RenderSegLoop(&wall(5, 0, 0), &mut cur, &mut c, &vec![0; 4], &vec![0; 8192]);
    assert_eq!(d.len(), 2);
    assert_eq!((d[0].x, d[0].yl, d[0].yh, d[0].texture, d[0].column), (0, 20, 80, 5, 3));
    assert_eq!(d[0].light, Some(ColumnLight { index: 16, iscale: 65535 }));
    assert_eq!((d[1].x, d[1].yl), (1, 21));
    assert_eq!((c.ceiling_top[0], c.ceiling_bottom[0]), (0, 19));
    assert_eq!((c.floor_top[0], c.floor_bottom[0]), (81, 99));
    assert_eq!((c.ceilingclip[0], c.floorclip[0]), (100, -1));
    assert_eq!((c.ceilingclip[2], c.floorclip[2]), (-1, 100));
    assert_eq!(cur.x, 2);
}

#[test]
fn a_two_sided_wall_draws_its_upper_and_lower_parts() {
    let mut cur = cursor();
    let mut c = clip();
    let w = SegWall { stopx: 1, ..wall(0, 6, 4) };
    let d = R_RenderSegLoop(&w, &mut cur, &mut c, &vec![0; 4], &vec![0; 8192]);
    assert_eq!(d.len(), 2);
    assert_eq!((d[0].yl, d[0].yh, d[0].texture), (20, 40, 6));
    assert_eq!((d[1].yl, d[1].yh, d[1].texture), (60, 80, 4));
    assert_eq!((c.ceilingclip[0], c.floorclip[0]), (40, 60));
}

fn room(floor: i32, ceiling: i32) -> lib::level::Sector {
    lib::level::Sector {
        floorheight: floor * FRACUNIT,
        ceilingheight: ceiling * FRACUNIT,
        floorpic: 3,
        ceilingpic: 4,
        lightlevel: 160,
        special: 0,
        tag: 0,
        busy: false,
    }
}

fn side(top: i16, bottom: i16, mid: i16) -> lib::level::Side {
    lib::level::Side { textureoffset: 0, rowoffset: 0, toptexture: top, bottomtexture: bottom, midtexture: mid, sector: 0 }
}

#[test]
fn one_sided_wall_is_set_up_from_its_middle_texture() {
    let heights = vec![0, 0, 64 * FRACUNIT];
    let shows = vec![0usize, 1, 5];
    let viewz = 41 * FRACUNIT;
    let st = R_WallSetup(&room(0, 128), None, &side(0, 0, 2), 0, viewz, 9, &heights, &shows);
    assert_eq!(st.midtexture, 5);
    assert_eq!(st.toptexture, 0);
    assert_eq!(st.bottomtexture, 0);
    assert_eq!(st.midtexturemid, 87 * FRACUNIT);
    assert_eq!(st.silhouette, SIL_TOP | SIL_BOTTOM);
    assert_eq!(st.bsilheight, i32::MAX);
    assert_eq!(st.tsilheight, i32::MIN);
    assert_eq!(st.sprtopclip, SpriteClip::ScreenHeight);
    assert_eq!(st.sprbottomclip, SpriteClip::NegOne);
    assert!(st.markfloor && st.markceiling);
    assert_eq!(st.worldtop, 87 * FRACUNIT);
    assert_eq!(st.worldbottom, -41 * FRACUNIT);
    // Pegged to the floor, the texture's bottom sits on the floor.
    let low = R_WallSetup(&room(0, 128), None, &side(0, 0, 2), ML_DONTPEGBOTTOM, viewz, 9, &heights, &shows);
    assert_eq!(low.midtexturemid, 23 * FRACUNIT);
    // From above the ceiling the ceiling is not marked; from below the
    // floor the floor is not.
    let above = R_WallSetup(&room(0, 128), None, &side(0, 0, 2), 0, 200 * FRACUNIT, 9, &heights, &shows);
    assert!(!above.markceiling && above.markfloor);
    let below = R_WallSetup(&room(0, 128), None, &side(0, 0, 2), 0, -8 * FRACUNIT, 9, &heights, &shows);
    assert!(below.markceiling && !below.markfloor);
}

#[test]
fn two_sided_wall_shows_upper_and_lower_textures() {
    let heights = vec![0, 16 * FRACUNIT, 64 * FRACUNIT];
    let shows = vec![0usize, 7, 8];
    let viewz = 41 * FRACUNIT;
    let st = R_WallSetup(&room(0, 128), Some(room(24, 96)), &side(1, 2, 0), 0, viewz, 9, &heights, &shows);
    assert_eq!(st.midtexture, 0);
    assert_eq!(st.toptexture, 7);
    assert_eq!(st.bottomtexture, 8);
    assert!(!st.maskedtexture);
    assert_eq!(st.worldhigh, 55 * FRACUNIT);
    assert_eq!(st.worldlow, -17 * FRACUNIT);
    assert_eq!(st.toptexturemid, 71 * FRACUNIT);
    assert_eq!(st.bottomtexturemid, -17 * FRACUNIT);
    assert_eq!(st.silhouette, 0);
    assert_eq!(st.sprtopclip, SpriteClip::FromWall);
    assert_eq!(st.sprbottomclip, SpriteClip::FromWall);
    assert!(st.markfloor && st.markceiling);
    // A back sector shut to nothing closes the wall both ways.
    let shut = R_WallSetup(&room(0, 128), Some(room(0, 0)), &side(1, 2, 0), 0, viewz, 9, &heights, &shows);
    assert_eq!(shut.silhouette, SIL_TOP | SIL_BOTTOM);
    assert_eq!(shut.bsilheight, i32::MAX);
    assert_eq!(shut.sprbottomclip, SpriteClip::NegOne);
}
