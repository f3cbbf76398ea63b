//! Drawing the columns of a wall segment: for each screen column from the
//! segment's first to its last, the parts of the wall (a one-sided wall's
//! middle texture, a two-sided wall's upper and lower textures) between
//! the clip lines left by nearer walls, the floor and ceiling areas marked
//! for the planes, and the clip lines moved past what was drawn. Heights on
//! screen are fixed-point numbers with 12 fraction bits.

use vstd::prelude::*;

use crate::fixed::{FixedMul, fixed_t};
use crate::geom::{fits_i32, fmul, lemma_shr16, shr16};
use crate::geom::{R_PointToDist, R_ScaleFromGlobalAngle, Vertex, point_to_dist, scale_from_angle};
use crate::level::{Sector, Side};
use crate::channels::tdiv;

verus! {

/// Fraction bits of the screen heights the loop steps through.
pub const HEIGHTBITS: u32 = 12;

/// One screen row, in those units.
pub const HEIGHTUNIT: i32 = 4096;

/// Number of light levels by distance.
pub const MAXLIGHTSCALE: usize = 48;

/// What stays the same over the columns of one segment: which areas are
/// marked for the planes, whether the wall is textured, its textures (0:
/// none), the values that give each column's texture column, the texture
/// heights, the height of the view, the steps per column, and the column
/// after the last.
#[derive(Debug, Clone, Copy, PartialEq, Eq, Structural)]
pub struct SegWall {
    pub markceiling: bool,
    pub markfloor: bool,
    pub segtextured: bool,
    pub maskedtexture: bool,
    pub midtexture: usize,
    pub toptexture: usize,
    pub bottomtexture: usize,
    pub centerangle: u32,
    pub offset: fixed_t,
    pub distance: fixed_t,
    pub midtexturemid: fixed_t,
    pub toptexturemid: fixed_t,
    pub bottomtexturemid: fixed_t,
    pub viewheight: i32,
    pub topstep: fixed_t,
    pub bottomstep: fixed_t,
    pub pixhighstep: fixed_t,
    pub pixlowstep: fixed_t,
    pub scalestep: fixed_t,
    pub stopx: usize,
}

/// Where the loop is: the column, the wall's top and bottom there, the
/// upper texture's bottom and the lower texture's top, and the scale.
#[derive(Debug, Clone, Copy, PartialEq, Eq, Structural)]
pub struct SegCursor {
    pub x: usize,
    pub topfrac: fixed_t,
    pub bottomfrac: fixed_t,
    pub pixhigh: fixed_t,
    pub pixlow: fixed_t,
    pub scale: fixed_t,
}

/// A column to draw: its screen column, its first and last row, the texture
/// height at the view's middle, the texture and its column, and (for a
/// textured wall) the light index by distance and the inverse scale.
#[derive(Debug, Clone, Copy, PartialEq, Eq, Structural)]
pub struct ColumnDraw {
    pub x: usize,
    pub yl: i32,
    pub yh: i32,
    pub texturemid: fixed_t,
    pub texture: usize,
    pub column: i32,
    pub light: Option<ColumnLight>,
}

/// The light of a textured wall column: the light index by distance and
/// the inverse scale.
#[derive(Debug, Clone, Copy, PartialEq, Eq, Structural)]
pub struct ColumnLight {
    pub index: usize,
    pub iscale: i32,
}

/// The clip lines of the screen columns, the rows of the ceiling and floor
/// planes marked in each column, and the texture columns saved for a masked
/// middle texture.
pub struct ClipState {
    pub ceilingclip: Vec<i16>,
    pub floorclip: Vec<i16>,
    pub ceiling_top: Vec<u8>,
    pub ceiling_bottom: Vec<u8>,
    pub floor_top: Vec<u8>,
    pub floor_bottom: Vec<u8>,
    pub masked: Vec<i16>,
}

/// The clip state as sequences.
#[verifier::ext_equal]
pub struct ClipModel {
    pub cc: Seq<i16>,
    pub fc: Seq<i16>,
    pub ct: Seq<u8>,
    pub cb: Seq<u8>,
    pub ft: Seq<u8>,
    pub fb: Seq<u8>,
    pub masked: Seq<i16>,
}

impl View for ClipState {
    type V = ClipModel;

    open spec fn view(&self) -> ClipModel {
        ClipModel {
            cc: self.ceilingclip@,
            fc: self.floorclip@,
            ct: self.ceiling_top@,
            cb: self.ceiling_bottom@,
            ft: self.floor_top@,
            fb: self.floor_bottom@,
            masked: self.masked@,
        }
    }
}

/// Arithmetic right shift by `HEIGHTBITS`.
pub open spec fn shr12(a: int) -> int {
    a / 4096
}

fn height_of(a: i32) -> (r: i32)
    ensures
        r as int == shr12(a as int),
{
    assert(a >> 12u32 == a / 4096) by (bit_vector);
    a >> 12u32
}

/// Every clip array covers the screen columns up to `stopx`.
pub open spec fn clip_covers(c: ClipModel, n: int) -> bool {
    &&& n <= c.cc.len() && n <= c.fc.len() && n <= c.ct.len() && n <= c.cb.len()
    &&& n <= c.ft.len() && n <= c.fb.len() && n <= c.masked.len()
}

/// The texture column at screen column `x`.
pub open spec fn texture_column(w: SegWall, x: int, xtoviewangle: Seq<u32>, finetangent: Seq<i32>) -> int {
    let angle = (w.centerangle as int + xtoviewangle[x] as int) % 0x1_0000_0000 / 524288;
    shr16(w.offset - fmul(finetangent[angle] as int, w.distance as int))
}

/// The wall's top row at a column: below the ceiling clip.
pub open spec fn col_yl(cur: SegCursor, c: ClipModel) -> int {
    let yl = shr12(cur.topfrac + HEIGHTUNIT - 1);
    let x = cur.x as int;
    if yl < c.cc[x] + 1 { c.cc[x] + 1 } else { yl }
}

/// The wall's bottom row at a column: above the floor clip.
pub open spec fn col_yh(cur: SegCursor, c: ClipModel) -> int {
    let yh = shr12(cur.bottomfrac as int);
    let x = cur.x as int;
    if yh >= c.fc[x] { c.fc[x] - 1 } else { yh }
}

/// The ceiling rows marked at a column, if any.
pub open spec fn ceiling_mark(w: SegWall, cur: SegCursor, c: ClipModel) -> Option<(int, int)> {
    let x = cur.x as int;
    let top = c.cc[x] + 1;
    let b = col_yl(cur, c) - 1;
    let bottom = if b >= c.fc[x] { c.fc[x] - 1 } else { b };
    if w.markceiling && top <= bottom { Some((top, bottom)) } else { None }
}

/// The floor rows marked at a column, if any.
pub open spec fn floor_mark(w: SegWall, cur: SegCursor, c: ClipModel) -> Option<(int, int)> {
    let x = cur.x as int;
    let t = col_yh(cur, c) + 1;
    let top = if t <= c.cc[x] { c.cc[x] + 1 } else { t };
    let bottom = c.fc[x] - 1;
    if w.markfloor && top <= bottom { Some((top, bottom)) } else { None }
}

/// The light of a textured column: the light index by distance and the
/// inverse scale.
pub open spec fn column_light(w: SegWall, cur: SegCursor) -> Option<ColumnLight> {
    if w.segtextured {
        let i = cur.scale / 4096;
        Some(ColumnLight { index: if i >= 48 { 47usize } else { i as usize }, iscale: (0xffff_ffffint / cur.scale as int) as i32 })
    } else {
        None
    }
}

/// The upper texture's last row at a column (two-sided wall with an upper
/// texture): above the floor clip.
pub open spec fn top_mid(cur: SegCursor, c: ClipModel) -> int {
    let m = shr12(cur.pixhigh as int);
    let x = cur.x as int;
    if m >= c.fc[x] { c.fc[x] - 1 } else { m }
}

/// The lower texture's first row at a column, below the ceiling clip `cc`.
pub open spec fn bottom_mid(cur: SegCursor, cc: int) -> int {
    let m = shr12(cur.pixlow + HEIGHTUNIT - 1);
    if m <= cc { cc + 1 } else { m }
}

/// The ceiling clip after the column's upper part.
pub open spec fn new_cc(w: SegWall, cur: SegCursor, c: ClipModel) -> int {
    let x = cur.x as int;
    let yl = col_yl(cur, c);
    if w.midtexture != 0 {
        w.viewheight as int
    } else if w.toptexture != 0 {
        if top_mid(cur, c) >= yl { top_mid(cur, c) } else { yl - 1 }
    } else if w.markceiling {
        yl - 1
    } else {
        c.cc[x] as int
    }
}

/// The floor clip after the column's lower part.
pub open spec fn new_fc(w: SegWall, cur: SegCursor, c: ClipModel) -> int {
    let x = cur.x as int;
    let yh = col_yh(cur, c);
    let m = bottom_mid(cur, new_cc(w, cur, c));
    if w.midtexture != 0 {
        -1
    } else if w.bottomtexture != 0 {
        if m <= yh { m } else { yh + 1 }
    } else if w.markfloor {
        yh + 1
    } else {
        c.fc[x] as int
    }
}

/// The draws of a column, in order.
pub open spec fn column_draws(
    w: SegWall,
    cur: SegCursor,
    c: ClipModel,
    xtoviewangle: Seq<u32>,
    finetangent: Seq<i32>,
) -> Seq<ColumnDraw> {
    let x = cur.x as int;
    let yl = col_yl(cur, c);
    let yh = col_yh(cur, c);
    let tc = if w.segtextured { texture_column(w, x, xtoviewangle, finetangent) } else { 0 };
    let light = column_light(w, cur);
    let d = |lo: int, hi: int, mid: i32, tex: usize|
        ColumnDraw { x: cur.x, yl: lo as i32, yh: hi as i32, texturemid: mid, texture: tex, column: tc as i32, light };
    if w.midtexture != 0 {
        seq![d(yl, yh, w.midtexturemid, w.midtexture)]
    } else {
        let upper = if w.toptexture != 0 && top_mid(cur, c) >= yl {
            seq![d(yl, top_mid(cur, c), w.toptexturemid, w.toptexture)]
        } else {
            Seq::empty()
        };
        let m = bottom_mid(cur, new_cc(w, cur, c));
        let lower = if w.bottomtexture != 0 && m <= yh {
            seq![d(m, yh, w.bottomtexturemid, w.bottomtexture)]
        } else {
            Seq::empty()
        };
        upper + lower
    }
}

/// The clip state after a column.
pub open spec fn column_clip(
    w: SegWall,
    cur: SegCursor,
    c: ClipModel,
    xtoviewangle: Seq<u32>,
    finetangent: Seq<i32>,
) -> ClipModel {
    let x = cur.x as int;
    let cm = ceiling_mark(w, cur, c);
    let fm = floor_mark(w, cur, c);
    let tc = if w.segtextured { texture_column(w, x, xtoviewangle, finetangent) } else { 0 };
    ClipModel {
        cc: c.cc.update(x, new_cc(w, cur, c) as i16),
        fc: c.fc.update(x, new_fc(w, cur, c) as i16),
        ct: match cm { Some((t, _)) => c.ct.update(x, t as u8), None => c.ct },
        cb: match cm { Some((_, b)) => c.cb.update(x, b as u8), None => c.cb },
        ft: match fm { Some((t, _)) => c.ft.update(x, t as u8), None => c.ft },
        fb: match fm { Some((_, b)) => c.fb.update(x, b as u8), None => c.fb },
        masked: if w.midtexture == 0 && w.maskedtexture { c.masked.update(x, tc as i16) } else { c.masked },
    }
}

/// The cursor after a column.
pub open spec fn column_cursor(w: SegWall, cur: SegCursor) -> SegCursor {
    SegCursor {
        x: (cur.x + 1) as usize,
        topfrac: (cur.topfrac + w.topstep) as i32,
        bottomfrac: (cur.bottomfrac + w.bottomstep) as i32,
        pixhigh: if w.midtexture == 0 && w.toptexture != 0 { (cur.pixhigh + w.pixhighstep) as i32 } else { cur.pixhigh },
        pixlow: if w.midtexture == 0 && w.bottomtexture != 0 { (cur.pixlow + w.pixlowstep) as i32 } else { cur.pixlow },
        scale: (cur.scale + w.scalestep) as i32,
    }
}

/// A value fits in 16 bits.
pub open spec fn fits_i16(v: int) -> bool {
    i16::MIN <= v <= i16::MAX
}

/// A value fits in a byte.
pub open spec fn fits_u8(v: int) -> bool {
    0 <= v <= 255
}

/// The column's arithmetic stays in range: the steps, the texture column,
/// the inverse scale, and the rows and clips stored in their arrays.
pub open spec fn column_ok(
    w: SegWall,
    cur: SegCursor,
    c: ClipModel,
    xtoviewangle: Seq<u32>,
    finetangent: Seq<i32>,
) -> bool {
    let x = cur.x as int;
    let tc_raw = w.offset - fmul(
        finetangent[(w.centerangle as int + xtoviewangle[x] as int) % 0x1_0000_0000 / 524288] as int,
        w.distance as int,
    );
    &&& x < xtoviewangle.len()
    &&& finetangent.len() >= 8192
    &&& fits_i32(cur.topfrac + HEIGHTUNIT)
    &&& fits_i32(cur.topfrac + w.topstep)
    &&& fits_i32(cur.bottomfrac + w.bottomstep)
    &&& fits_i32(cur.scale + w.scalestep)
    &&& (w.segtextured ==> fits_i32(tc_raw) && cur.scale >= 2)
    &&& (w.midtexture == 0 && w.maskedtexture ==> fits_i16(if w.segtextured { shr16(tc_raw) } else { 0 }))
    &&& (ceiling_mark(w, cur, c) matches Some((t, b)) ==> fits_u8(t) && fits_u8(b))
    &&& (floor_mark(w, cur, c) matches Some((t, b)) ==> fits_u8(t) && fits_u8(b))
    &&& (w.midtexture != 0 ==> fits_i16(w.viewheight as int))
    &&& (w.midtexture == 0 && w.toptexture != 0 ==> fits_i16(shr12(cur.pixhigh as int)) && fits_i32(
        cur.pixhigh + w.pixhighstep,
    ))
    &&& (w.midtexture == 0 && w.bottomtexture != 0 ==> fits_i32(cur.pixlow + HEIGHTUNIT) && fits_i16(
        shr12(cur.pixlow + HEIGHTUNIT - 1),
    ) && fits_i32(cur.pixlow + w.pixlowstep))
    &&& fits_i16(new_cc(w, cur, c))
    &&& fits_i16(new_fc(w, cur, c))
    &&& fits_i16(c.cc[x] + 1) && fits_i16(c.fc[x] - 1)
}

/// The loop from `cur` on: the clip state, the draws and the final cursor.
pub open spec fn seg_loop(
    w: SegWall,
    cur: SegCursor,
    c: ClipModel,
    xtoviewangle: Seq<u32>,
    finetangent: Seq<i32>,
) -> (ClipModel, Seq<ColumnDraw>)
    decreases w.stopx - cur.x,
{
    if cur.x >= w.stopx {
        (c, Seq::empty())
    } else {
        let (c2, ds) = seg_loop(
            w,
            column_cursor(w, cur),
            column_clip(w, cur, c, xtoviewangle, finetangent),
            xtoviewangle,
            finetangent,
        );
        (c2, column_draws(w, cur, c, xtoviewangle, finetangent) + ds)
    }
}

/// Every column of the loop from `cur` on stays in range.
pub open spec fn seg_loop_ok(
    w: SegWall,
    cur: SegCursor,
    c: ClipModel,
    xtoviewangle: Seq<u32>,
    finetangent: Seq<i32>,
) -> bool
    decreases w.stopx - cur.x,
{
    cur.x >= w.stopx || (column_ok(w, cur, c, xtoviewangle, finetangent) && seg_loop_ok(
        w,
        column_cursor(w, cur),
        column_clip(w, cur, c, xtoviewangle, finetangent),
        xtoviewangle,
        finetangent,
    ))
}

/// The texture column at screen column `x` (see `texture_column`).
fn column_of(w: &SegWall, x: usize, xtoviewangle: &Vec<u32>, finetangent: &Vec<i32>) -> (r: i32)
    requires
        x < xtoviewangle.len(),
        finetangent.len() >= 8192,
        fits_i32(w.offset - fmul(
            finetangent@[(w.centerangle as int + xtoviewangle@[x as int] as int) % 0x1_0000_0000 / 524288] as int,
            w.distance as int,
        )),
    ensures
        r as int == texture_column(*w, x as int, xtoviewangle@, finetangent@),
{
    let a = w.centerangle.wrapping_add(xtoviewangle[x]);
    assert(a as int == (w.centerangle as int + xtoviewangle@[x as int] as int) % 0x1_0000_0000);
    let angle = (a / 524288) as usize;
    let t = w.offset - FixedMul(finetangent[angle], w.distance);
    proof {
        lemma_shr16(t);
    }
    t >> 16u32
}

/// Marks the ceiling and floor rows of a column (see `ceiling_mark`,
/// `floor_mark`); returns the wall's top and bottom rows there.
fn mark_planes(w: &SegWall, cur: &SegCursor, clip: &mut ClipState) -> (r: (i32, i32))
    requires
        cur.x < w.stopx,
        clip_covers(old(clip)@, w.stopx as int),
        fits_i32(cur.topfrac + HEIGHTUNIT),
        fits_i16(old(clip)@.cc[cur.x as int] + 1) && fits_i16(old(clip)@.fc[cur.x as int] - 1),
        ceiling_mark(*w, *cur, old(clip)@) matches Some((t, b)) ==> fits_u8(t) && fits_u8(b),
        floor_mark(*w, *cur, old(clip)@) matches Some((t, b)) ==> fits_u8(t) && fits_u8(b),
    ensures
        r.0 == col_yl(*cur, old(clip)@),
        r.1 == col_yh(*cur, old(clip)@),
        final(clip)@ == (ClipModel {
            ct: match ceiling_mark(*w, *cur, old(clip)@) { Some((t, _)) => old(clip)@.ct.update(cur.x as int, t as u8), None => old(clip)@.ct },
            cb: match ceiling_mark(*w, *cur, old(clip)@) { Some((_, b)) => old(clip)@.cb.update(cur.x as int, b as u8), None => old(clip)@.cb },
            ft: match floor_mark(*w, *cur, old(clip)@) { Some((t, _)) => old(clip)@.ft.update(cur.x as int, t as u8), None => old(clip)@.ft },
            fb: match floor_mark(*w, *cur, old(clip)@) { Some((_, b)) => old(clip)@.fb.update(cur.x as int, b as u8), None => old(clip)@.fb },
            ..old(clip)@
        }),
{
    let x = cur.x;
    let cc = clip.ceilingclip[x] as i32;
    let fc = clip.floorclip[x] as i32;
    let mut yl = height_of(cur.topfrac + HEIGHTUNIT - 1);
    if yl < cc + 1 {
        yl = cc + 1;
    }
    if w.markceiling {
        let top = cc + 1;
        let mut bottom = yl - 1;
        if bottom >= fc {
            bottom = fc - 1;
        }
        if top <= bottom {
            clip.ceiling_top.set(x, top as u8);
            clip.ceiling_bottom.set(x, bottom as u8);
        }
    }
    let mut yh = height_of(cur.bottomfrac);
    if yh >= fc {
        yh = fc - 1;
    }
    if w.markfloor {
        let mut top = yh + 1;
        let bottom = fc - 1;
        if top <= cc {
            top = cc + 1;
        }
        if top <= bottom {
            clip.floor_top.set(x, top as u8);
            clip.floor_bottom.set(x, bottom as u8);
        }
    }
    assert(clip@ =~= (ClipModel {
            ct: match ceiling_mark(*w, *cur, old(clip)@) { Some((t, _)) => old(clip)@.ct.update(cur.x as int, t as u8), None => old(clip)@.ct },
            cb: match ceiling_mark(*w, *cur, old(clip)@) { Some((_, b)) => old(clip)@.cb.update(cur.x as int, b as u8), None => old(clip)@.cb },
            ft: match floor_mark(*w, *cur, old(clip)@) { Some((t, _)) => old(clip)@.ft.update(cur.x as int, t as u8), None => old(clip)@.ft },
            fb: match floor_mark(*w, *cur, old(clip)@) { Some((_, b)) => old(clip)@.fb.update(cur.x as int, b as u8), None => old(clip)@.fb },
            ..old(clip)@
        }));
    (yl, yh)
}

/// Draws one column of the segment (see `column_draws`, `column_clip` and
/// `column_cursor`).
#[verifier::rlimit(100)]
#[verifier::spinoff_prover]
fn render_column(
    w: &SegWall,
    cur: &mut SegCursor,
    clip: &mut ClipState,
    draws: &mut Vec<ColumnDraw>,
    xtoviewangle: &Vec<u32>,
    finetangent: &Vec<i32>,
)
    requires
        old(cur).x < w.stopx,
        clip_covers(old(clip)@, w.stopx as int),
        column_ok(*w, *old(cur), old(clip)@, xtoviewangle@, finetangent@),
    ensures
        *final(cur) == column_cursor(*w, *old(cur)),
        final(clip)@ == column_clip(*w, *old(cur), old(clip)@, xtoviewangle@, finetangent@),
        final(draws)@ == old(draws)@ + column_draws(*w, *old(cur), old(clip)@, xtoviewangle@, finetangent@),
{
    let ghost c0 = clip@;
    let ghost cur0 = *cur;
    let x = cur.x;
    let cc = clip.ceilingclip[x] as i32;
    let fc = clip.floorclip[x] as i32;
    let (yl, yh) = mark_planes(w, cur, clip);
    let mut tc: i32 = 0;
    let mut light: Option<ColumnLight> = None;
    if w.segtextured {
        tc = column_of(w, x, xtoviewangle, finetangent);
        let i = cur.scale / 4096;
        let index: usize = if i >= 48 { 47 } else { i as usize };
        let iscale = (0xffff_ffffu32 / (cur.scale as u32)) as i32;
        light = Some(ColumnLight { index, iscale });
    }
    assert(light == column_light(*w, cur0));
    if w.midtexture != 0 {
        draws.push(ColumnDraw { x, yl, yh, texturemid: w.midtexturemid, texture: w.midtexture, column: tc, light });
        clip.ceilingclip.set(x, w.viewheight as i16);
        clip.floorclip.set(x, -1);
    } else {
        let mut ncc = cc;
        if w.toptexture != 0 {
            let mut mid = height_of(cur.pixhigh);
            cur.pixhigh = cur.pixhigh + w.pixhighstep;
            if mid >= fc {
                mid = fc - 1;
            }
            if mid >= yl {
                draws.push(ColumnDraw { x, yl, yh: mid, texturemid: w.toptexturemid, texture: w.toptexture, column: tc, light });
                ncc = mid;
            } else {
                ncc = yl - 1;
            }
            clip.ceilingclip.set(x, ncc as i16);
        } else if w.markceiling {
            ncc = yl - 1;
            clip.ceilingclip.set(x, ncc as i16);
        }
        assert(ncc == new_cc(*w, cur0, c0));
        if w.bottomtexture != 0 {
            let mut mid = height_of(cur.pixlow + HEIGHTUNIT - 1);
            cur.pixlow = cur.pixlow + w.pixlowstep;
            if mid <= ncc {
                mid = ncc + 1;
            }
            if mid <= yh {
                draws.push(ColumnDraw { x, yl: mid, yh, texturemid: w.bottomtexturemid, texture: w.bottomtexture, column: tc, light });
                clip.floorclip.set(x, mid as i16);
            } else {
                clip.floorclip.set(x, (yh + 1) as i16);
            }
        } else if w.markfloor {
            clip.floorclip.set(x, (yh + 1) as i16);
        }
        if w.maskedtexture {
            clip.masked.set(x, tc as i16);
        }
    }
    cur.scale = cur.scale + w.scalestep;
    cur.topfrac = cur.topfrac + w.topstep;
    cur.bottomfrac = cur.bottomfrac + w.bottomstep;
    cur.x = x + 1;
    assert(clip@ =~= column_clip(*w, cur0, c0, xtoviewangle@, finetangent@));
    assert(draws@ =~= old(draws)@ + column_draws(*w, cur0, c0, xtoviewangle@, finetangent@));
}

/// Draws the columns of a segment from `cur` to the column before
/// `w.stopx` (see `seg_loop`): returns the columns to draw, in order, and
/// moves the clip lines and plane marks.
pub fn R_RenderSegLoop(
    w: &SegWall,
    cur: &mut SegCursor,
    clip: &mut ClipState,
    xtoviewangle: &Vec<u32>,
    finetangent: &Vec<i32>,
) -> (r: Vec<ColumnDraw>)
    requires
        clip_covers(old(clip)@, w.stopx as int),
        seg_loop_ok(*w, *old(cur), old(clip)@, xtoviewangle@, finetangent@),
    ensures
        (final(clip)@, r@) == seg_loop(*w, *old(cur), old(clip)@, xtoviewangle@, finetangent@),
        clip_covers(final(clip)@, w.stopx as int),
{
    let mut draws: Vec<ColumnDraw> = Vec::new();
    while cur.x < w.stopx
        invariant
            clip_covers(clip@, w.stopx as int),
            seg_loop_ok(*w, *cur, clip@, xtoviewangle@, finetangent@),
            seg_loop(*w, *old(cur), old(clip)@, xtoviewangle@, finetangent@) == (
                seg_loop(*w, *cur, clip@, xtoviewangle@, finetangent@).0,
                draws@ + seg_loop(*w, *cur, clip@, xtoviewangle@, finetangent@).1,
            ),
        decreases w.stopx - cur.x,
    {
        let ghost c0 = clip@;
        let ghost cur0 = *cur;
        let ghost before = draws@;
        render_column(w, cur, clip, &mut draws, xtoviewangle, finetangent);
        proof {
            let ds = column_draws(*w, cur0, c0, xtoviewangle@, finetangent@);
            let rest = seg_loop(*w, *cur, clip@, xtoviewangle@, finetangent@).1;
            assert(before + (ds + rest) =~= (before + ds) + rest);
        }
    }
    assert(draws@ + Seq::<ColumnDraw>::empty() =~= draws@);
    draws
}

/// Line flag: the upper texture hangs from the ceiling.
pub const ML_DONTPEGTOP: i16 = 8;

/// Line flag: the lower (or a one-sided wall's) texture stands on the floor.
pub const ML_DONTPEGBOTTOM: i16 = 16;

/// Silhouette bits of a wall for clipping sprites: below, above.
pub const SIL_BOTTOM: i32 = 1;
pub const SIL_TOP: i32 = 2;

/// Which clip line a wall gives sprites at a silhouette, where it is fixed.
#[derive(Debug, Clone, Copy, PartialEq, Eq, Structural)]
pub enum SpriteClip {
    /// Saved from the clip lines once the wall is drawn, where needed.
    FromWall,
    /// The screen's bottom: nothing below is hidden.
    ScreenHeight,
    /// Above the screen: nothing above is hidden.
    NegOne,
}

/// How a wall segment is drawn: its textures (0: none) and their heights
/// at the view's middle, whether the floor and ceiling areas next to it
/// are marked, its silhouettes for sprites, and the heights of the front
/// and back sectors' planes above the view.
#[derive(Debug, Clone, Copy, PartialEq, Eq, Structural)]
pub struct WallSetup {
    pub midtexture: usize,
    pub toptexture: usize,
    pub bottomtexture: usize,
    pub maskedtexture: bool,
    pub markfloor: bool,
    pub markceiling: bool,
    pub midtexturemid: i32,
    pub toptexturemid: i32,
    pub bottomtexturemid: i32,
    pub silhouette: i32,
    pub bsilheight: i32,
    pub tsilheight: i32,
    pub sprtopclip: SpriteClip,
    pub sprbottomclip: SpriteClip,
    pub worldtop: i32,
    pub worldbottom: i32,
    pub worldhigh: i32,
    pub worldlow: i32,
}

/// The texture a wall texture number shows (the animation table).
pub open spec fn translated(tt: Seq<usize>, t: i16) -> usize {
    tt[t as int]
}

/// The set-up of a wall between `front` and `back` (none for a one-sided
/// wall) seen from height `viewz`.
pub open spec fn wall_setup(
    front: Sector,
    back: Option<Sector>,
    side: Side,
    flags: i16,
    viewz: i32,
    skyflatnum: i16,
    th: Seq<i32>,
    tt: Seq<usize>,
) -> WallSetup {
    let worldtop0 = front.ceilingheight - viewz;
    let worldbottom = front.floorheight - viewz;
    let base = match back {
        None => WallSetup {
            midtexture: translated(tt, side.midtexture),
            toptexture: 0,
            bottomtexture: 0,
            maskedtexture: false,
            markfloor: true,
            markceiling: true,
            midtexturemid: ((if flags & ML_DONTPEGBOTTOM != 0 {
                front.floorheight + th[side.midtexture as int] - viewz
            } else {
                worldtop0
            }) + side.rowoffset) as i32,
            toptexturemid: 0,
            bottomtexturemid: 0,
            silhouette: SIL_TOP | SIL_BOTTOM,
            bsilheight: i32::MAX,
            tsilheight: i32::MIN,
            sprtopclip: SpriteClip::ScreenHeight,
            sprbottomclip: SpriteClip::NegOne,
            worldtop: worldtop0 as i32,
            worldbottom: worldbottom as i32,
            worldhigh: 0,
            worldlow: 0,
        },
        Some(b) => {
            let (s1, bs1) = if front.floorheight > b.floorheight {
                (SIL_BOTTOM, front.floorheight)
            } else if b.floorheight > viewz {
                (SIL_BOTTOM, i32::MAX)
            } else {
                (0i32, 0i32)
            };
            let (s2, ts1) = if front.ceilingheight < b.ceilingheight {
                (s1 | SIL_TOP, front.ceilingheight)
            } else if b.ceilingheight < viewz {
                (s1 | SIL_TOP, i32::MIN)
            } else {
                (s1, 0i32)
            };
            let closed_below = b.ceilingheight <= front.floorheight;
            let closed_above = b.floorheight >= front.ceilingheight;
            let s3 = if closed_below { s2 | SIL_BOTTOM } else { s2 };
            let s4 = if closed_above { s3 | SIL_TOP } else { s3 };
            let worldhigh = b.ceilingheight - viewz;
            let worldlow = b.floorheight - viewz;
            let worldtop = if front.ceilingpic == skyflatnum && b.ceilingpic == skyflatnum {
                worldhigh
            } else {
                worldtop0
            };
            let markfloor = worldlow != worldbottom || b.floorpic != front.floorpic || b.lightlevel
                != front.lightlevel || closed_below || closed_above;
            let markceiling = worldhigh != worldtop || b.ceilingpic != front.ceilingpic || b.lightlevel
                != front.lightlevel || closed_below || closed_above;
            WallSetup {
                midtexture: 0,
                toptexture: if worldhigh < worldtop { translated(tt, side.toptexture) } else { 0 },
                bottomtexture: if worldlow > worldbottom { translated(tt, side.bottomtexture) } else { 0 },
                maskedtexture: side.midtexture != 0,
                markfloor,
                markceiling,
                midtexturemid: 0,
                toptexturemid: ((if worldhigh < worldtop {
                    if flags & ML_DONTPEGTOP != 0 {
                        worldtop
                    } else {
                        b.ceilingheight + th[side.toptexture as int] - viewz
                    }
                } else {
                    0
                }) + side.rowoffset) as i32,
                bottomtexturemid: ((if worldlow > worldbottom {
                    if flags & ML_DONTPEGBOTTOM != 0 { worldtop } else { worldlow }
                } else {
                    0
                }) + side.rowoffset) as i32,
                silhouette: s4,
                bsilheight: if closed_below { i32::MAX } else { bs1 },
                tsilheight: if closed_above { i32::MIN } else { ts1 },
                sprtopclip: if closed_above { SpriteClip::ScreenHeight } else { SpriteClip::FromWall },
                sprbottomclip: if closed_below { SpriteClip::NegOne } else { SpriteClip::FromWall },
                worldtop: worldtop as i32,
                worldbottom: worldbottom as i32,
                worldhigh: worldhigh as i32,
                worldlow: worldlow as i32,
            }
        },
    };
    WallSetup {
        markfloor: base.markfloor && front.floorheight < viewz,
        markceiling: base.markceiling && !(front.ceilingheight <= viewz && front.ceilingpic != skyflatnum),
        ..base
    }
}

/// The set-up's arithmetic stays in range and its texture numbers are in
/// the tables.
pub open spec fn wall_setup_ok(
    front: Sector,
    back: Option<Sector>,
    side: Side,
    flags: i16,
    viewz: i32,
    th: Seq<i32>,
    tt: Seq<usize>,
) -> bool {
    &&& fits_i32(front.ceilingheight - viewz)
    &&& fits_i32(front.floorheight - viewz)
    &&& match back {
        None => {
            &&& 0 <= side.midtexture < tt.len() && side.midtexture < th.len()
            &&& fits_i32(front.floorheight + th[side.midtexture as int])
            &&& fits_i32(front.floorheight + th[side.midtexture as int] - viewz)
            &&& fits_i32((if flags & ML_DONTPEGBOTTOM != 0 {
                front.floorheight + th[side.midtexture as int] - viewz
            } else {
                front.ceilingheight - viewz
            }) + side.rowoffset)
        },
        Some(b) => {
            &&& fits_i32(b.ceilingheight - viewz)
            &&& fits_i32(b.floorheight - viewz)
            &&& 0 <= side.toptexture < tt.len() && side.toptexture < th.len()
            &&& 0 <= side.bottomtexture < tt.len()
            &&& fits_i32(b.ceilingheight + th[side.toptexture as int])
            &&& fits_i32(b.ceilingheight + th[side.toptexture as int] - viewz)
            &&& fits_i32(b.ceilingheight - viewz + side.rowoffset)
            &&& fits_i32(front.ceilingheight - viewz + side.rowoffset)
            &&& fits_i32(b.ceilingheight + th[side.toptexture as int] - viewz + side.rowoffset)
            &&& fits_i32(b.floorheight - viewz + side.rowoffset)
            &&& fits_i32(side.rowoffset as int)
        },
    }
}

/// Decides how a wall segment between `front` and `back` (none for a
/// one-sided wall) is drawn from height `viewz` (see `wall_setup`):
/// `textureheight` holds the texture heights and `texturetranslation` the
/// texture each wall texture number shows.
pub fn R_WallSetup(
    front: &Sector,
    back: Option<Sector>,
    side: &Side,
    flags: i16,
    viewz: i32,
    skyflatnum: i16,
    textureheight: &Vec<i32>,
    texturetranslation: &Vec<usize>,
) -> (r: WallSetup)
    requires
        wall_setup_ok(*front, back, *side, flags, viewz, textureheight@, texturetranslation@),
    ensures
        r == wall_setup(*front, back, *side, flags, viewz, skyflatnum, textureheight@, texturetranslation@),
{
    let worldtop0 = front.ceilingheight - viewz;
    let worldbottom = front.floorheight - viewz;
    let base = match back {
        None => {
            let mid = if flags & ML_DONTPEGBOTTOM != 0 {
                front.floorheight + textureheight[side.midtexture as usize] - viewz
            } else {
                worldtop0
            };
            WallSetup {
                midtexture: texturetranslation[side.midtexture as usize],
                toptexture: 0,
                bottomtexture: 0,
                maskedtexture: false,
                markfloor: true,
                markceiling: true,
                midtexturemid: mid + side.rowoffset,
                toptexturemid: 0,
                bottomtexturemid: 0,
                silhouette: SIL_TOP | SIL_BOTTOM,
                bsilheight: i32::MAX,
                tsilheight: i32::MIN,
                sprtopclip: SpriteClip::ScreenHeight,
                sprbottomclip: SpriteClip::NegOne,
                worldtop: worldtop0,
                worldbottom,
                worldhigh: 0,
                worldlow: 0,
            }
        },
        Some(b) => {
            let (s1, bs1) = if front.floorheight > b.floorheight {
                (SIL_BOTTOM, front.floorheight)
            } else if b.floorheight > viewz {
                (SIL_BOTTOM, i32::MAX)
            } else {
                (0i32, 0i32)
            };
            let (s2, ts1) = if front.ceilingheight < b.ceilingheight {
                (s1 | SIL_TOP, front.ceilingheight)
            } else if b.ceilingheight < viewz {
                (s1 | SIL_TOP, i32::MIN)
            } else {
                (s1, 0i32)
            };
            let closed_below = b.ceilingheight <= front.floorheight;
            let closed_above = b.floorheight >= front.ceilingheight;
            let s3 = if closed_below { s2 | SIL_BOTTOM } else { s2 };
            let s4 = if closed_above { s3 | SIL_TOP } else { s3 };
            let worldhigh = b.ceilingheight - viewz;
            let worldlow = b.floorheight - viewz;
            let worldtop = if front.ceilingpic == skyflatnum && b.ceilingpic == skyflatnum {
                worldhigh
            } else {
                worldtop0
            };
            let markfloor = worldlow != worldbottom || b.floorpic != front.floorpic || b.lightlevel
                != front.lightlevel || closed_below || closed_above;
            let markceiling = worldhigh != worldtop || b.ceilingpic != front.ceilingpic || b.lightlevel
                != front.lightlevel || closed_below || closed_above;
            let top_mid = if worldhigh < worldtop {
                if flags & ML_DONTPEGTOP != 0 {
                    worldtop
                } else {
                    b.ceilingheight + textureheight[side.toptexture as usize] - viewz
                }
            } else {
                0
            };
            let bottom_mid = if worldlow > worldbottom {
                if flags & ML_DONTPEGBOTTOM != 0 { worldtop } else { worldlow }
            } else {
                0
            };
            WallSetup {
                midtexture: 0,
                toptexture: if worldhigh < worldtop { texturetranslation[side.toptexture as usize] } else { 0 },
                bottomtexture: if worldlow > worldbottom {
                    texturetranslation[side.bottomtexture as usize]
                } else {
                    0
                },
                maskedtexture: side.midtexture != 0,
                markfloor,
                markceiling,
                midtexturemid: 0,
                toptexturemid: top_mid + side.rowoffset,
                bottomtexturemid: bottom_mid + side.rowoffset,
                silhouette: s4,
                bsilheight: if closed_below { i32::MAX } else { bs1 },
                tsilheight: if closed_above { i32::MIN } else { ts1 },
                sprtopclip: if closed_above { SpriteClip::ScreenHeight } else { SpriteClip::FromWall },
                sprbottomclip: if closed_below { SpriteClip::NegOne } else { SpriteClip::FromWall },
                worldtop,
                worldbottom,
                worldhigh,
                worldlow,
            }
        },
    };
    WallSetup {
        markfloor: base.markfloor && front.floorheight < viewz,
        markceiling: base.markceiling && !(front.ceilingheight <= viewz && front.ceilingpic != skyflatnum),
        ..base
    }
}

/// A quarter turn and half a turn.
pub const ANG90: u32 = 0x4000_0000;
pub const ANG180: u32 = 0x8000_0000;

/// Line flag: the automap shows the line once it has been seen.
pub const ML_MAPPED: i16 = 256;

/// The view: where it is, which way it looks, the projection, the detail
/// shift, the screen's middle row in fixed point and the sky's flat.
#[derive(Debug, Clone, Copy, PartialEq, Eq, Structural)]
pub struct ViewState {
    pub viewx: fixed_t,
    pub viewy: fixed_t,
    pub viewz: fixed_t,
    pub viewangle: u32,
    pub projection: fixed_t,
    pub detailshift: u32,
    pub centeryfrac: fixed_t,
    pub skyflatnum: i16,
    pub viewheight: i32,
}

/// The seg being drawn: its first vertex, its angle, its offset along its
/// line, its sectors, its side and its line's flags.
#[derive(Debug, Clone, Copy)]
pub struct WallSeg {
    pub v1: Vertex,
    pub angle: u32,
    pub offset: fixed_t,
    pub front: Sector,
    pub back: Option<Sector>,
    pub side: Side,
    pub flags: i16,
}

/// The tables the drawing reads: the view angle of each screen column, the
/// sines, the arc tangents and the tangents, the texture heights and the
/// texture each texture number shows.
pub struct WallTables {
    pub xtoviewangle: Vec<u32>,
    pub finesine: Vec<i32>,
    pub tantoangle: Vec<u32>,
    pub finetangent: Vec<i32>,
    pub textureheight: Vec<i32>,
    pub texturetranslation: Vec<usize>,
}

/// What is kept of a drawn wall segment for sprites and masked textures:
/// its columns, its scale at both ends and the step, how it was set up
/// (with the silhouettes as they end), the clip lines saved for sprites,
/// its line's flags (now marked as seen), and the columns to draw.
pub struct DrawSeg {
    pub x1: usize,
    pub x2: usize,
    pub scale1: fixed_t,
    pub scale2: fixed_t,
    pub scalestep: fixed_t,
    pub setup: WallSetup,
    pub sprtopclip: Option<Vec<i16>>,
    pub sprbottomclip: Option<Vec<i16>>,
    pub flags: i16,
    pub draws: Vec<ColumnDraw>,
}

/// Arithmetic right shift by 4 bits.
pub open spec fn shr4(a: int) -> int {
    a / 16
}

fn shift4(a: i32) -> (r: i32)
    ensures
        r as int == shr4(a as int),
{
    assert(a >> 4u32 == a / 16) by (bit_vector);
    a >> 4u32
}

/// The seg's normal angle.
pub open spec fn normal_angle(seg: WallSeg) -> u32 {
    seg.angle.wrapping_add(ANG90)
}

/// The distance from the view to the seg's line along its normal.
pub open spec fn wall_distance(view: ViewState, seg: WallSeg, angle1: u32, t: WallTables) -> int {
    let d = normal_angle(seg).wrapping_sub(angle1);
    let a = if d >= ANG180 { (0x1_0000_0000int - d) as u32 } else { d };
    let off = if a > ANG90 { ANG90 } else { a };
    let hyp = point_to_dist(seg.v1.x, seg.v1.y, view.viewx, view.viewy, t.tantoangle@, t.finesine@);
    fmul(hyp as int, t.finesine@[(ANG90 - off) as int / 524288] as int)
}

/// The scale at screen column `x`.
pub open spec fn wall_scale(view: ViewState, seg: WallSeg, dist: int, x: int, t: WallTables) -> int {
    scale_from_angle(
        view.viewangle.wrapping_add(t.xtoviewangle@[x]),
        view.viewangle,
        normal_angle(seg),
        view.projection,
        dist as i32,
        view.detailshift,
        t.finesine@,
    )
}

/// The texture offset of the wall's first column.
pub open spec fn wall_offset(view: ViewState, seg: WallSeg, angle1: u32, t: WallTables) -> int {
    let d = normal_angle(seg).wrapping_sub(angle1);
    let a = if d > ANG180 { (0x1_0000_0000int - d) as u32 } else { d };
    let off = if a > ANG90 { ANG90 } else { a };
    let hyp = point_to_dist(seg.v1.x, seg.v1.y, view.viewx, view.viewy, t.tantoangle@, t.finesine@);
    let o = fmul(hyp as int, t.finesine@[off as int / 524288] as int);
    (if d < ANG180 { -o } else { o }) + seg.side.textureoffset + seg.offset
}

/// The loop's constants for the seg (see `SegWall`).
pub open spec fn seg_wall(
    view: ViewState,
    seg: WallSeg,
    st: WallSetup,
    angle1: u32,
    stop: int,
    scalestep: int,
    t: WallTables,
) -> SegWall {
    let wt = shr4(st.worldtop as int);
    let wb = shr4(st.worldbottom as int);
    let wh = shr4(st.worldhigh as int);
    let wl = shr4(st.worldlow as int);
    let textured = st.midtexture != 0 || st.toptexture != 0 || st.bottomtexture != 0 || st.maskedtexture;
    SegWall {
        markceiling: st.markceiling,
        markfloor: st.markfloor,
        segtextured: textured,
        maskedtexture: st.maskedtexture,
        midtexture: st.midtexture,
        toptexture: st.toptexture,
        bottomtexture: st.bottomtexture,
        centerangle: ANG90.wrapping_add(view.viewangle).wrapping_sub(normal_angle(seg)),
        offset: if textured { wall_offset(view, seg, angle1, t) as i32 } else { 0 },
        distance: wall_distance(view, seg, angle1, t) as i32,
        midtexturemid: st.midtexturemid,
        toptexturemid: st.toptexturemid,
        bottomtexturemid: st.bottomtexturemid,
        viewheight: view.viewheight,
        topstep: (-fmul(scalestep, wt)) as i32,
        bottomstep: (-fmul(scalestep, wb)) as i32,
        pixhighstep: (-fmul(scalestep, wh)) as i32,
        pixlowstep: (-fmul(scalestep, wl)) as i32,
        scalestep: scalestep as i32,
        stopx: (stop + 1) as usize,
    }
}

/// The loop's starting point for the seg (see `SegCursor`): the upper and
/// lower textures' edges are set where the wall has them.
pub open spec fn seg_cursor(view: ViewState, st: WallSetup, start: int, scale1: int) -> SegCursor {
    let cy = shr4(view.centeryfrac as int);
    SegCursor {
        x: start as usize,
        topfrac: (cy - fmul(shr4(st.worldtop as int), scale1)) as i32,
        bottomfrac: (cy - fmul(shr4(st.worldbottom as int), scale1)) as i32,
        pixhigh: if st.toptexture != 0 { (cy - fmul(shr4(st.worldhigh as int), scale1)) as i32 } else { 0 },
        pixlow: if st.bottomtexture != 0 { (cy - fmul(shr4(st.worldlow as int), scale1)) as i32 } else { 0 },
        scale: scale1 as i32,
    }
}

/// The scale step between the seg's first and last column.
pub open spec fn wall_scalestep(view: ViewState, seg: WallSeg, angle1: u32, start: int, stop: int, t: WallTables) -> int {
    let dist = wall_distance(view, seg, angle1, t);
    if stop > start {
        tdiv(wall_scale(view, seg, dist, stop, t) - wall_scale(view, seg, dist, start, t), stop - start)
    } else {
        0
    }
}

/// The set-up with the silhouettes a masked middle texture adds.
pub open spec fn final_setup(st: WallSetup) -> WallSetup {
    let a = if st.maskedtexture && st.silhouette & SIL_TOP == 0 {
        WallSetup { silhouette: st.silhouette | SIL_TOP, tsilheight: i32::MIN, ..st }
    } else {
        st
    };
    if a.maskedtexture && a.silhouette & SIL_BOTTOM == 0 {
        WallSetup { silhouette: a.silhouette | SIL_BOTTOM, bsilheight: i32::MAX, ..a }
    } else {
        a
    }
}

/// The set-up of the seg's wall.
pub open spec fn seg_setup(view: ViewState, seg: WallSeg, t: WallTables) -> WallSetup {
    wall_setup(seg.front, seg.back, seg.side, seg.flags, view.viewz, view.skyflatnum, t.textureheight@, t.texturetranslation@)
}

/// The drawing of the seg stays in range: the tables are long enough, the
/// view is not at the seg's first vertex, and every step fits.
pub open spec fn store_ok(view: ViewState, seg: WallSeg, angle1: u32, start: int, stop: int, t: WallTables, c: ClipModel) -> bool {
    let st = seg_setup(view, seg, t);
    let dist = wall_distance(view, seg, angle1, t);
    let scale1 = wall_scale(view, seg, dist, start, t);
    let step = wall_scalestep(view, seg, angle1, start, stop, t);
    let cy = shr4(view.centeryfrac as int);
    let d = normal_angle(seg).wrapping_sub(angle1);
    let a = if d > ANG180 { (0x1_0000_0000int - d) as u32 } else { d };
    let off = if a > ANG90 { ANG90 } else { a };
    let hyp = point_to_dist(seg.v1.x, seg.v1.y, view.viewx, view.viewy, t.tantoangle@, t.finesine@);
    let o = fmul(hyp as int, t.finesine@[off as int / 524288] as int);
    &&& start <= stop < t.xtoviewangle.len()
    &&& t.tantoangle.len() >= 2049 && t.finesine.len() >= 8192 && t.finetangent.len() >= 8192
    &&& view.detailshift < 32
    &&& fits_i32(seg.v1.x - view.viewx) && fits_i32(seg.v1.y - view.viewy)
    &&& seg.v1.x - view.viewx != i32::MIN && seg.v1.y - view.viewy != i32::MIN
    &&& (seg.v1.x != view.viewx || seg.v1.y != view.viewy)
    &&& wall_setup_ok(seg.front, seg.back, seg.side, seg.flags, view.viewz, t.textureheight@, t.texturetranslation@)
    &&& fits_i32(wall_scale(view, seg, dist, stop, t) - scale1)
    &&& o != i32::MIN
    &&& fits_i32((if d < ANG180 { -o } else { o }) + seg.side.textureoffset)
    &&& fits_i32((if d < ANG180 { -o } else { o }) + seg.side.textureoffset + seg.offset)
    &&& fmul(step, shr4(st.worldtop as int)) != i32::MIN && fmul(step, shr4(st.worldbottom as int)) != i32::MIN
    &&& fmul(step, shr4(st.worldhigh as int)) != i32::MIN && fmul(step, shr4(st.worldlow as int)) != i32::MIN
    &&& fits_i32(cy - fmul(shr4(st.worldtop as int), scale1)) && fits_i32(cy - fmul(shr4(st.worldbottom as int), scale1))
    &&& fits_i32(cy - fmul(shr4(st.worldhigh as int), scale1)) && fits_i32(cy - fmul(shr4(st.worldlow as int), scale1))
    &&& stop + 1 <= usize::MAX
    &&& stop - start <= i32::MAX
    &&& clip_covers(c, stop + 1)
    &&& seg_loop_ok(
        seg_wall(view, seg, st, angle1, stop, step, t),
        seg_cursor(view, st, start, scale1),
        c,
        t.xtoviewangle@,
        t.finetangent@,
    )
}

/// Draws the wall of `seg` between screen columns `start` and `stop`
/// (inclusive), seen at angle `angle1` to its first vertex: sets the wall
/// up (see `wall_setup`), works out its distance, its scale at both ends
/// and the steps, draws its columns (see `R_RenderSegLoop`), and keeps
/// what sprites and masked textures need. The planes next to the wall are
/// the caller's to check before (where the set-up marks them).
pub fn R_StoreWallRange(
    view: &ViewState,
    seg: &WallSeg,
    angle1: u32,
    start: usize,
    stop: usize,
    t: &WallTables,
    clip: &mut ClipState,
) -> (r: DrawSeg)
    requires
        store_ok(*view, *seg, angle1, start as int, stop as int, *t, old(clip)@),
    ensures
        ({
            let st = seg_setup(*view, *seg, *t);
            let dist = wall_distance(*view, *seg, angle1, *t);
            let scale1 = wall_scale(*view, *seg, dist, start as int, *t);
            let step = wall_scalestep(*view, *seg, angle1, start as int, stop as int, *t);
            let w = seg_wall(*view, *seg, st, angle1, stop as int, step, *t);
            let (c2, ds) = seg_loop(w, seg_cursor(*view, st, start as int, scale1), old(clip)@, t.xtoviewangle@, t.finetangent@);
            &&& r.x1 == start && r.x2 == stop
            &&& r.scale1 == scale1
            &&& r.scale2 == if stop > start { wall_scale(*view, *seg, dist, stop as int, *t) } else { scale1 }
            &&& r.scalestep == step
            &&& r.setup == final_setup(st)
            &&& r.flags == seg.flags | ML_MAPPED
            &&& final(clip)@ == c2
            &&& r.draws@ == ds
            &&& (r.sprtopclip is Some <==> top_saved(st))
            &&& (r.sprtopclip is Some ==> r.sprtopclip->0@ == c2.cc.subrange(start as int, stop + 1))
            &&& (r.sprbottomclip is Some <==> bottom_saved(st))
            &&& (r.sprbottomclip is Some ==> r.sprbottomclip->0@ == c2.fc.subrange(start as int, stop + 1))
        }),
{
    let st = R_WallSetup(
        &seg.front,
        seg.back,
        &seg.side,
        seg.flags,
        view.viewz,
        view.skyflatnum,
        &t.textureheight,
        &t.texturetranslation,
    );
    let normal = seg.angle.wrapping_add(ANG90);
    let d = normal.wrapping_sub(angle1);
    let a1 = if d >= ANG180 { 0u32.wrapping_sub(d) } else { d };
    let off1 = if a1 > ANG90 { ANG90 } else { a1 };
    let hyp = R_PointToDist(seg.v1.x, seg.v1.y, view.viewx, view.viewy, &t.tantoangle, &t.finesine);
    let dist = FixedMul(hyp, t.finesine[((ANG90 - off1) / 524288) as usize]);
    let scale1 = R_ScaleFromGlobalAngle(
        view.viewangle.wrapping_add(t.xtoviewangle[start]),
        view.viewangle,
        normal,
        view.projection,
        dist,
        view.detailshift,
        &t.finesine,
    );
    let mut scale2 = scale1;
    let mut step: i32 = 0;
    if stop > start {
        scale2 = R_ScaleFromGlobalAngle(
            view.viewangle.wrapping_add(t.xtoviewangle[stop]),
            view.viewangle,
            normal,
            view.projection,
            dist,
            view.detailshift,
            &t.finesine,
        );
        let n = (stop - start) as i32;
        step = (scale2 - scale1) / n;
        assert(step as int == tdiv(scale2 - scale1, n as int));
    }
    let textured = st.midtexture != 0 || st.toptexture != 0 || st.bottomtexture != 0 || st.maskedtexture;
    let mut offset: i32 = 0;
    if textured {
        let a2 = if d > ANG180 { 0u32.wrapping_sub(d) } else { d };
        let off2 = if a2 > ANG90 { ANG90 } else { a2 };
        let o = FixedMul(hyp, t.finesine[(off2 / 524288) as usize]);
        let o2 = if d < ANG180 { -o } else { o };
        offset = o2 + seg.side.textureoffset + seg.offset;
    }
    let wt = shift4(st.worldtop);
    let wb = shift4(st.worldbottom);
    let wh = shift4(st.worldhigh);
    let wl = shift4(st.worldlow);
    let cy = shift4(view.centeryfrac);
    let w = SegWall {
        markceiling: st.markceiling,
        markfloor: st.markfloor,
        segtextured: textured,
        maskedtexture: st.maskedtexture,
        midtexture: st.midtexture,
        toptexture: st.toptexture,
        bottomtexture: st.bottomtexture,
        centerangle: ANG90.wrapping_add(view.viewangle).wrapping_sub(normal),
        offset,
        distance: dist,
        midtexturemid: st.midtexturemid,
        toptexturemid: st.toptexturemid,
        bottomtexturemid: st.bottomtexturemid,
        viewheight: view.viewheight,
        topstep: -FixedMul(step, wt),
        bottomstep: -FixedMul(step, wb),
        pixhighstep: -FixedMul(step, wh),
        pixlowstep: -FixedMul(step, wl),
        scalestep: step,
        stopx: stop + 1,
    };
    let mut cur = SegCursor {
        x: start,
        topfrac: cy - FixedMul(wt, scale1),
        bottomfrac: cy - FixedMul(wb, scale1),
        pixhigh: if st.toptexture != 0 { cy - FixedMul(wh, scale1) } else { 0 },
        pixlow: if st.bottomtexture != 0 { cy - FixedMul(wl, scale1) } else { 0 },
        scale: scale1,
    };
    assert(w == seg_wall(*view, *seg, st, angle1, stop as int, step as int, *t));
    assert(cur == seg_cursor(*view, st, start as int, scale1 as int));
    let draws = R_RenderSegLoop(&w, &mut cur, clip, &t.xtoviewangle, &t.finetangent);
    let sprtopclip = if (st.silhouette & SIL_TOP != 0 || st.maskedtexture) && st.sprtopclip == SpriteClip::FromWall {
        Some(copy_range(&clip.ceilingclip, start, stop + 1))
    } else {
        None
    };
    let sprbottomclip = if (st.silhouette & SIL_BOTTOM != 0 || st.maskedtexture) && st.sprbottomclip
        == SpriteClip::FromWall {
        Some(copy_range(&clip.floorclip, start, stop + 1))
    } else {
        None
    };
    let mut fin = st;
    if fin.maskedtexture && fin.silhouette & SIL_TOP == 0 {
        fin.silhouette = fin.silhouette | SIL_TOP;
        fin.tsilheight = i32::MIN;
    }
    if fin.maskedtexture && fin.silhouette & SIL_BOTTOM == 0 {
        fin.silhouette = fin.silhouette | SIL_BOTTOM;
        fin.bsilheight = i32::MAX;
    }
    DrawSeg {
        x1: start,
        x2: stop,
        scale1,
        scale2,
        scalestep: step,
        setup: fin,
        sprtopclip,
        sprbottomclip,
        flags: seg.flags | ML_MAPPED,
        draws,
    }
}

/// The clip lines of columns `a` to `b` (exclusive).
fn copy_range(v: &Vec<i16>, a: usize, b: usize) -> (r: Vec<i16>)
    requires
        a <= b <= v.len(),
    ensures
        r@ == v@.subrange(a as int, b as int),
{
    let mut r: Vec<i16> = Vec::new();
    let mut i = a;
    while i < b
        invariant
            a <= i <= b <= v.len(),
            r@ == v@.subrange(a as int, i as int),
        decreases b - i,
    {
        r.push(v[i]);
        i += 1;
        assert(r@ =~= v@.subrange(a as int, i as int));
    }
    r
}

/// The clip lines above the wall are kept for sprites.
pub open spec fn top_saved(st: WallSetup) -> bool {
    (st.silhouette & SIL_TOP != 0 || st.maskedtexture) && st.sprtopclip == SpriteClip::FromWall
}

/// The clip lines below the wall are kept for sprites.
pub open spec fn bottom_saved(st: WallSetup) -> bool {
    (st.silhouette & SIL_BOTTOM != 0 || st.maskedtexture) && st.sprbottomclip == SpriteClip::FromWall
}

} // verus!
