//! Line of sight: whether a straight line between two things is
//! unobstructed, by the reject table and then by walking the BSP tree from
//! the first thing's eyes towards the second, narrowing the window of
//! slopes through which the target stays visible.

use vstd::prelude::*;

use crate::fixed::{FixedDiv, fixed_div_overflows, fixed_div_spec, fixed_t, lemma_quotient_bound, magnitude};
use crate::geom::{divline_t, divline_side, fits_i32, fmul, intercept_num, intercept_vector2, node_t, shr8, P_DivlineSide, P_InterceptVector2, Vertex};
use crate::level::{Sector, ML_TWOSIDED};
use crate::mapload::subsector_t;

verus! {

/// A line as sight sees it: its two vertices and its flags.
#[derive(Debug, Clone, Copy)]
pub struct SightLine {
    pub v1: Vertex,
    pub v2: Vertex,
    pub flags: i16,
}

/// A seg as sight sees it: its line and the sectors in front and behind
/// (none behind a one-sided line).
#[derive(Debug, Clone, Copy)]
pub struct SightSeg {
    pub linedef: usize,
    pub frontsector: usize,
    pub backsector: Option<usize>,
}

/// The parts of a map that sight reads.
pub struct SightMap {
    pub lines: Vec<SightLine>,
    pub segs: Vec<SightSeg>,
    pub sectors: Vec<Sector>,
    pub subsectors: Vec<subsector_t>,
    pub nodes: Vec<node_t>,
    /// One bit per pair of sectors: set where no sight is possible.
    pub reject: Vec<u8>,
}

/// The line being traced: from the looker along `strace` to the target at
/// (`t2x`, `t2y`), with the looker's eyes at height `zstart`.
#[derive(Debug, Clone, Copy, PartialEq, Eq, Structural)]
pub struct SightTrace {
    pub strace: divline_t,
    pub t2x: fixed_t,
    pub t2y: fixed_t,
    pub zstart: fixed_t,
}

/// The slopes from the eyes to the top and the bottom of what can still be
/// seen of the target.
#[derive(Debug, Clone, Copy, PartialEq, Eq, Structural)]
pub struct SightSlopes {
    pub top: fixed_t,
    pub bottom: fixed_t,
}

/// A thing as sight sees it: where it stands, its height and its sector.
#[derive(Debug, Clone, Copy)]
pub struct SightThing {
    pub x: fixed_t,
    pub y: fixed_t,
    pub z: fixed_t,
    pub height: fixed_t,
    pub sector: usize,
}

/// A coordinate or height well inside the 32-bit range, so that the
/// difference of two of them fits.
pub open spec fn small(v: int) -> bool {
    -0x4000_0000 <= v < 0x4000_0000
}

/// The line from `v1` to `v2`.
pub open spec fn line_divline(l: SightLine) -> divline_t {
    divline_t { x: l.v1.x, y: l.v1.y, dx: (l.v2.x - l.v1.x) as i32, dy: (l.v2.y - l.v1.y) as i32 }
}

/// The intercept of the trace along line `l` can be worked out without
/// overflow.
pub open spec fn intercept_fits(tr: SightTrace, l: SightLine) -> bool {
    let d = line_divline(l);
    &&& fits_i32(intercept_num(tr.strace, d))
    &&& fits_i32(fmul(shr8(d.dy as int), tr.strace.dx as int) - fmul(shr8(d.dx as int), tr.strace.dy as int))
}

/// The map is well formed for sight: every reference is in range, a node's
/// children are subsectors or earlier nodes, and coordinates and heights
/// are small.
pub open spec fn map_ok(m: &SightMap) -> bool {
    &&& m.nodes.len() <= 0x8000
    &&& forall|i: int| 0 <= i < m.lines.len() ==> {
        let l = #[trigger] m.lines@[i];
        small(l.v1.x as int) && small(l.v1.y as int) && small(l.v2.x as int) && small(l.v2.y as int)
    }
    &&& forall|i: int| 0 <= i < m.segs.len() ==> {
        let s = #[trigger] m.segs@[i];
        &&& s.linedef < m.lines.len()
        &&& s.frontsector < m.sectors.len()
        &&& (s.backsector matches Some(b) ==> b < m.sectors.len())
    }
    &&& forall|i: int| 0 <= i < m.sectors.len() ==> {
        let s = #[trigger] m.sectors@[i];
        small(s.floorheight as int) && small(s.ceilingheight as int)
    }
    &&& forall|i: int| 0 <= i < m.subsectors.len() ==> {
        let s = #[trigger] m.subsectors@[i];
        0 <= s.firstline && 0 <= s.numlines && s.firstline + s.numlines <= m.segs.len()
    }
    &&& forall|i: int| 0 <= i < m.nodes.len() ==> {
        let n = #[trigger] m.nodes@[i];
        &&& small(n.x as int) && small(n.y as int)
        &&& child_ok(m, n.children[0] as int, i)
        &&& child_ok(m, n.children[1] as int, i)
    }
}

/// Child `c` of node `n` is a subsector of the map or a node before `n`.
pub open spec fn child_ok(m: &SightMap, c: int, n: int) -> bool {
    if c >= 0x8000 { c - 0x8000 < m.subsectors.len() } else { c < n }
}

/// The trace is fit to follow through the map: its ends and eye height are
/// small and its intercept with every two-sided line it crosses fits.
pub open spec fn trace_ok(m: &SightMap, tr: SightTrace) -> bool {
    &&& small(tr.strace.x as int) && small(tr.strace.y as int) && small(tr.t2x as int) && small(tr.t2y as int)
    &&& small(tr.zstart as int)
    &&& tr.strace.dx == tr.t2x - tr.strace.x && tr.strace.dy == tr.t2y - tr.strace.y
    &&& forall|i: int| 0 <= i < m.lines.len() && trace_crosses(tr, #[trigger] m.lines@[i]) && m.lines@[i].flags
        & ML_TWOSIDED != 0 ==> intercept_fits(tr, m.lines@[i])
}

/// The trace crosses line `l`: the line's ends lie on two sides of the
/// trace, and the trace's ends on two sides of the line.
pub open spec fn trace_crosses(tr: SightTrace, l: SightLine) -> bool {
    let d = line_divline(l);
    &&& divline_side(l.v1.x as int, l.v1.y as int, tr.strace) != divline_side(l.v2.x as int, l.v2.y as int, tr.strace)
    &&& divline_side(tr.strace.x as int, tr.strace.y as int, d) != divline_side(tr.t2x as int, tr.t2y as int, d)
}

/// What sight makes of seg `s`: the lines looked at so far (the seg's line
/// is marked), the slopes after it, and whether sight goes on past it.
/// A line already looked at, one the trace does not cross, and an opening
/// with no step in floor or ceiling let sight through unchanged; a
/// one-sided line or a closed opening blocks it; otherwise the slopes are
/// narrowed to the opening, and sight is blocked once nothing is left.
pub open spec fn seg_sight(m: &SightMap, tr: SightTrace, seen: Seq<bool>, sl: SightSlopes, s: int) -> (Seq<bool>, SightSlopes, bool) {
    let seg = m.segs@[s];
    let li = seg.linedef as int;
    let line = m.lines@[li];
    if seen[li] {
        (seen, sl, true)
    } else {
        let seen1 = seen.update(li, true);
        let d = line_divline(line);
        if divline_side(line.v1.x as int, line.v1.y as int, tr.strace) == divline_side(line.v2.x as int, line.v2.y as int, tr.strace) {
            (seen1, sl, true)
        } else if divline_side(tr.strace.x as int, tr.strace.y as int, d) == divline_side(tr.t2x as int, tr.t2y as int, d) {
            (seen1, sl, true)
        } else if line.flags & ML_TWOSIDED == 0 || seg.backsector is None {
            (seen1, sl, false)
        } else {
            let front = m.sectors@[seg.frontsector as int];
            let back = m.sectors@[seg.backsector->0 as int];
            if front.floorheight == back.floorheight && front.ceilingheight == back.ceilingheight {
                (seen1, sl, true)
            } else {
                let opentop = if front.ceilingheight < back.ceilingheight { front.ceilingheight } else { back.ceilingheight };
                let openbottom = if front.floorheight > back.floorheight { front.floorheight } else { back.floorheight };
                if openbottom >= opentop {
                    (seen1, sl, false)
                } else {
                    let frac = intercept_vector2(tr.strace, d);
                    let b = fixed_div_spec(openbottom - tr.zstart, frac);
                    let t = fixed_div_spec(opentop - tr.zstart, frac);
                    let bottom = if front.floorheight != back.floorheight && b > sl.bottom { b as i32 } else { sl.bottom };
                    let top = if front.ceilingheight != back.ceilingheight && t < sl.top { t as i32 } else { sl.top };
                    (seen1, SightSlopes { top, bottom }, top > bottom)
                }
            }
        }
    }
}

/// Sight through `n` segs from seg `first` on: it stops at the first seg
/// that blocks it.
pub open spec fn segs_sight(m: &SightMap, tr: SightTrace, seen: Seq<bool>, sl: SightSlopes, first: int, n: nat) -> (Seq<bool>, SightSlopes, bool)
    decreases n,
{
    if n == 0 {
        (seen, sl, true)
    } else {
        let (seen1, sl1, go) = seg_sight(m, tr, seen, sl, first);
        if go { segs_sight(m, tr, seen1, sl1, first + 1, (n - 1) as nat) } else { (seen1, sl1, false) }
    }
}

/// Sight through subsector `num`: through its segs.
pub open spec fn subsector_sight(m: &SightMap, tr: SightTrace, seen: Seq<bool>, sl: SightSlopes, num: int) -> (Seq<bool>, SightSlopes, bool) {
    let ss = m.subsectors@[num];
    segs_sight(m, tr, seen, sl, ss.firstline as int, ss.numlines as nat)
}

/// The side of node `n`'s partition a point is on (0 front, 1 back, 2 on).
pub open spec fn node_side(m: &SightMap, n: int, x: int, y: int) -> int {
    let node = m.nodes@[n];
    divline_side(x, y, divline_t { x: node.x, y: node.y, dx: node.dx, dy: node.dy })
}

/// Sight through BSP child `b` (a subsector where the high bit is set,
/// else a node): through the side of the partition the trace starts on,
/// then, where the target lies beyond the partition, through the other.
pub open spec fn bsp_sight(m: &SightMap, tr: SightTrace, seen: Seq<bool>, sl: SightSlopes, b: int) -> (Seq<bool>, SightSlopes, bool)
    decreases (if b >= 0x8000 { 0int } else { b + 1 }),
{
    if b >= 0x8000 {
        subsector_sight(m, tr, seen, sl, b - 0x8000)
    } else if b < 0 || b >= m.nodes.len() {
        (seen, sl, false)
    } else {
        let node = m.nodes@[b];
        let s0 = node_side(m, b, tr.strace.x as int, tr.strace.y as int);
        let side = if s0 == 2 { 0int } else { s0 };
        let c1 = node.children[side] as int;
        let c2 = node.children[1 - side] as int;
        if c1 < 0x8000 && c1 >= b || c2 < 0x8000 && c2 >= b {
            (seen, sl, false)
        } else {
            let (seen1, sl1, go) = bsp_sight(m, tr, seen, sl, c1);
            if !go {
                (seen1, sl1, false)
            } else if side == node_side(m, b, tr.t2x as int, tr.t2y as int) {
                (seen1, sl1, true)
            } else {
                bsp_sight(m, tr, seen1, sl1, c2)
            }
        }
    }
}

proof fn lemma_fixed_div_fits(a: int, b: int)
    ensures
        fits_i32(fixed_div_spec(a, b)),
{
    if !fixed_div_overflows(a, b) {
        lemma_quotient_bound(magnitude(a) as int, magnitude(b) as int);
    }
}

/// Sight only narrows at a seg: the slope to the top of what can still be
/// seen never rises and the slope to the bottom never falls. Where the
/// trace crosses a two-sided line (not looked at before) whose ceilings
/// differ, the top slope comes down to at most the slope from the eyes to
/// the lower ceiling at the crossing; and where that slope lies at or
/// below the bottom slope, sight is blocked there.
pub proof fn lemma_sight_only_narrows(m: &SightMap, tr: SightTrace, seen: Seq<bool>, sl: SightSlopes, s: int)
    ensures
        ({
            let (seen1, sl1, go) = seg_sight(m, tr, seen, sl, s);
            sl1.top <= sl.top && sl1.bottom >= sl.bottom
        }),
        ({
            let seg = m.segs@[s];
            let line = m.lines@[seg.linedef as int];
            let (seen1, sl1, go) = seg_sight(m, tr, seen, sl, s);
            !seen[seg.linedef as int] && trace_crosses(tr, line) && line.flags & ML_TWOSIDED != 0 && seg.backsector
                is Some ==> {
                let front = m.sectors@[seg.frontsector as int];
                let back = m.sectors@[seg.backsector->0 as int];
                let opentop: int = if front.ceilingheight < back.ceilingheight {
                    front.ceilingheight as int
                } else {
                    back.ceilingheight as int
                };
                let openbottom: int = if front.floorheight > back.floorheight {
                    front.floorheight as int
                } else {
                    back.floorheight as int
                };
                let top_slope = fixed_div_spec(opentop - tr.zstart, intercept_vector2(tr.strace, line_divline(line)));
                &&& front.ceilingheight != back.ceilingheight && openbottom < opentop ==> sl1.top <= top_slope
                &&& front.ceilingheight != back.ceilingheight && top_slope <= sl.bottom ==> !go
            }
        }),
{
    let seg = m.segs@[s];
    let line = m.lines@[seg.linedef as int];
    let d = line_divline(line);
    let frac = intercept_vector2(tr.strace, d);
    if seg.backsector is Some {
        let front = m.sectors@[seg.frontsector as int];
        let back = m.sectors@[seg.backsector->0 as int];
        let opentop = if front.ceilingheight < back.ceilingheight { front.ceilingheight } else { back.ceilingheight };
        let openbottom = if front.floorheight > back.floorheight { front.floorheight } else { back.floorheight };
        lemma_fixed_div_fits(openbottom - tr.zstart, frac);
        lemma_fixed_div_fits(opentop - tr.zstart, frac);
    }
}

/// A one-sided line the trace crosses (not looked at before) blocks
/// sight, and so does a crossed opening with no gap between its highest
/// floor and lowest ceiling; a line the trace does not cross lets it
/// through unchanged.
pub proof fn lemma_walls_block_sight(m: &SightMap, tr: SightTrace, seen: Seq<bool>, sl: SightSlopes, s: int)
    ensures
        ({
            let seg = m.segs@[s];
            let line = m.lines@[seg.linedef as int];
            let (seen1, sl1, go) = seg_sight(m, tr, seen, sl, s);
            &&& !seen[seg.linedef as int] && trace_crosses(tr, line) && (line.flags & ML_TWOSIDED == 0
                || seg.backsector is None) ==> !go
            &&& !trace_crosses(tr, line) ==> go && sl1 == sl
            &&& !seen[seg.linedef as int] && trace_crosses(tr, line) && seg.backsector is Some && ({
                let front = m.sectors@[seg.frontsector as int];
                let back = m.sectors@[seg.backsector->0 as int];
                &&& !(front.floorheight == back.floorheight && front.ceilingheight == back.ceilingheight)
                &&& (if front.floorheight > back.floorheight { front.floorheight } else { back.floorheight }) >= (
                if front.ceilingheight < back.ceilingheight { front.ceilingheight } else { back.ceilingheight })
            }) ==> !go
        }),
{
}

/// Where the reject table rules the pair of sectors out, nothing is seen.
pub proof fn lemma_rejected_not_seen(m: &SightMap, t1: SightThing, t2: SightThing)
    ensures
        rejected(m, t1.sector as int, t2.sector as int) ==> !sight(m, t1, t2),
{
}

/// Sight only narrows through a run of segs: the top slope never rises and
/// the bottom slope never falls.
pub proof fn lemma_segs_sight_narrows(m: &SightMap, tr: SightTrace, seen: Seq<bool>, sl: SightSlopes, first: int, n: nat)
    ensures
        ({
            let (seen1, sl1, go) = segs_sight(m, tr, seen, sl, first, n);
            sl1.top <= sl.top && sl1.bottom >= sl.bottom
        }),
    decreases n,
{
    if n > 0 {
        lemma_sight_only_narrows(m, tr, seen, sl, first);
        let (seen1, sl1, go) = seg_sight(m, tr, seen, sl, first);
        if go {
            lemma_segs_sight_narrows(m, tr, seen1, sl1, first + 1, (n - 1) as nat);
        }
    }
}

/// Sight only narrows through the BSP tree: whatever part of the tree the
/// trace crosses, the top slope never rises and the bottom slope never
/// falls.
pub proof fn lemma_bsp_sight_narrows(m: &SightMap, tr: SightTrace, seen: Seq<bool>, sl: SightSlopes, b: int)
    ensures
        ({
            let (seen1, sl1, go) = bsp_sight(m, tr, seen, sl, b);
            sl1.top <= sl.top && sl1.bottom >= sl.bottom
        }),
    decreases (if b >= 0x8000 { 0int } else { b + 1 }),
{
    if b >= 0x8000 {
        let ss = m.subsectors@[b - 0x8000];
        lemma_segs_sight_narrows(m, tr, seen, sl, ss.firstline as int, ss.numlines as nat);
    } else if 0 <= b < m.nodes.len() {
        let node = m.nodes@[b];
        let s0 = node_side(m, b, tr.strace.x as int, tr.strace.y as int);
        let side = if s0 == 2 { 0int } else { s0 };
        let c1 = node.children[side] as int;
        let c2 = node.children[1 - side] as int;
        if !(c1 < 0x8000 && c1 >= b || c2 < 0x8000 && c2 >= b) {
            lemma_bsp_sight_narrows(m, tr, seen, sl, c1);
            let (seen1, sl1, go) = bsp_sight(m, tr, seen, sl, c1);
            if go {
                lemma_bsp_sight_narrows(m, tr, seen1, sl1, c2);
            }
        }
    }
}

proof fn lemma_small_diff(a: int, b: int)
    requires
        small(a),
        small(b),
    ensures
        fits_i32(a - b),
{
}

fn cross_seg(m: &SightMap, tr: &SightTrace, seen: &mut Vec<bool>, sl: &mut SightSlopes, s: usize) -> (go: bool)
    requires
        map_ok(m),
        trace_ok(m, *tr),
        s < m.segs.len(),
        old(seen).len() == m.lines.len(),
    ensures
        (final(seen)@, *final(sl), go) == seg_sight(m, *tr, old(seen)@, *old(sl), s as int),
{
    let seg = m.segs[s];
    let li = seg.linedef;
    let line = m.lines[li];
    assert(m.lines@[li as int] == line);
    if seen[li] {
        return true;
    }
    seen.set(li, true);
    proof {
        lemma_small_diff(line.v1.x as int, tr.strace.x as int);
        lemma_small_diff(line.v1.y as int, tr.strace.y as int);
        lemma_small_diff(line.v2.x as int, tr.strace.x as int);
        lemma_small_diff(line.v2.y as int, tr.strace.y as int);
        lemma_small_diff(line.v2.x as int, line.v1.x as int);
        lemma_small_diff(line.v2.y as int, line.v1.y as int);
        lemma_small_diff(tr.strace.x as int, line.v1.x as int);
        lemma_small_diff(tr.strace.y as int, line.v1.y as int);
        lemma_small_diff(tr.t2x as int, line.v1.x as int);
        lemma_small_diff(tr.t2y as int, line.v1.y as int);
        lemma_small_diff(line.v1.x as int, tr.strace.x as int);
        lemma_small_diff(tr.strace.y as int, line.v1.y as int);
    }
    let s1 = P_DivlineSide(line.v1.x, line.v1.y, &tr.strace);
    let s2 = P_DivlineSide(line.v2.x, line.v2.y, &tr.strace);
    if s1 == s2 {
        return true;
    }
    let divl = divline_t { x: line.v1.x, y: line.v1.y, dx: line.v2.x - line.v1.x, dy: line.v2.y - line.v1.y };
    assert(divl == line_divline(line));
    let s1 = P_DivlineSide(tr.strace.x, tr.strace.y, &divl);
    let s2 = P_DivlineSide(tr.t2x, tr.t2y, &divl);
    if s1 == s2 {
        return true;
    }
    if line.flags & ML_TWOSIDED == 0 {
        return false;
    }
    let back_num = match seg.backsector {
        Some(b) => b,
        None => {
            return false;
        },
    };
    let front = m.sectors[seg.frontsector];
    let back = m.sectors[back_num];
    assert(m.sectors@[seg.frontsector as int] == front);
    assert(m.sectors@[back_num as int] == back);
    if front.floorheight == back.floorheight && front.ceilingheight == back.ceilingheight {
        return true;
    }
    let opentop = if front.ceilingheight < back.ceilingheight { front.ceilingheight } else { back.ceilingheight };
    let openbottom = if front.floorheight > back.floorheight { front.floorheight } else { back.floorheight };
    if openbottom >= opentop {
        return false;
    }
    assert(trace_crosses(*tr, line));
    assert(intercept_fits(*tr, line));
    let frac = P_InterceptVector2(&tr.strace, &divl);
    proof {
        lemma_small_diff(openbottom as int, tr.zstart as int);
        lemma_small_diff(opentop as int, tr.zstart as int);
    }
    if front.floorheight != back.floorheight {
        let slope = FixedDiv(openbottom - tr.zstart, frac);
        if slope > sl.bottom {
            sl.bottom = slope;
        }
    }
    if front.ceilingheight != back.ceilingheight {
        let slope = FixedDiv(opentop - tr.zstart, frac);
        if slope < sl.top {
            sl.top = slope;
        }
    }
    sl.top > sl.bottom
}

/// Follows the trace through subsector `num`: whether sight passes it,
/// marking the lines it looks at in `seen` and narrowing the slopes (see
/// `subsector_sight`).
pub fn P_CrossSubsector(m: &SightMap, tr: &SightTrace, seen: &mut Vec<bool>, sl: &mut SightSlopes, num: usize) -> (r: bool)
    requires
        map_ok(m),
        trace_ok(m, *tr),
        num < m.subsectors.len(),
        old(seen).len() == m.lines.len(),
    ensures
        (final(seen)@, *final(sl), r) == subsector_sight(m, *tr, old(seen)@, *old(sl), num as int),
        final(seen).len() == m.lines.len(),
{
    let ss = m.subsectors[num];
    assert(m.subsectors@[num as int] == ss);
    let first = ss.firstline as usize;
    let count = ss.numlines as usize;
    let mut i: usize = 0;
    while i < count
        invariant
            map_ok(m),
            trace_ok(m, *tr),
            i <= count,
            first + count <= m.segs.len(),
            num < m.subsectors.len(),
            first as int == m.subsectors@[num as int].firstline,
            count as int == m.subsectors@[num as int].numlines,
            seen.len() == m.lines.len(),
            segs_sight(m, *tr, old(seen)@, *old(sl), first as int, count as nat) == segs_sight(
                m,
                *tr,
                seen@,
                *sl,
                first + i,
                (count - i) as nat,
            ),
        decreases count - i,
    {
        let ghost seen0 = seen@;
        let ghost sl0 = *sl;
        let go = cross_seg(m, tr, seen, sl, first + i);
        if !go {
            assert(segs_sight(m, *tr, seen0, sl0, first + i, (count - i) as nat) == (seen@, *sl, false));
            return false;
        }
        i = i + 1;
    }
    true
}

/// Follows the trace through BSP child `bspnum` (a subsector where the
/// high bit is set, else a node): whether sight passes it (see
/// `bsp_sight`).
pub fn P_CrossBSPNode(m: &SightMap, tr: &SightTrace, seen: &mut Vec<bool>, sl: &mut SightSlopes, bspnum: u16) -> (r: bool)
    requires
        map_ok(m),
        trace_ok(m, *tr),
        bspnum >= 0x8000 ==> bspnum - 0x8000 < m.subsectors.len(),
        bspnum < 0x8000 ==> bspnum < m.nodes.len(),
        old(seen).len() == m.lines.len(),
    ensures
        (final(seen)@, *final(sl), r) == bsp_sight(m, *tr, old(seen)@, *old(sl), bspnum as int),
        final(seen).len() == m.lines.len(),
    decreases (if bspnum >= 0x8000 { 0int } else { bspnum + 1 }),
{
    if bspnum >= 0x8000 {
        return P_CrossSubsector(m, tr, seen, sl, (bspnum - 0x8000) as usize);
    }
    let n = bspnum as usize;
    let node = m.nodes[n];
    assert(m.nodes@[n as int] == node);
    let dl = divline_t { x: node.x, y: node.y, dx: node.dx, dy: node.dy };
    proof {
        lemma_small_diff(tr.strace.x as int, node.x as int);
        lemma_small_diff(tr.strace.y as int, node.y as int);
        lemma_small_diff(tr.t2x as int, node.x as int);
        lemma_small_diff(tr.t2y as int, node.y as int);
    }
    let mut side = P_DivlineSide(tr.strace.x, tr.strace.y, &dl);
    if side == 2 {
        side = 0;
    }
    let c1 = node.children[side as usize];
    let c2 = node.children[1 - side as usize];
    if !P_CrossBSPNode(m, tr, seen, sl, c1) {
        return false;
    }
    if side == P_DivlineSide(tr.t2x, tr.t2y, &dl) {
        return true;
    }
    P_CrossBSPNode(m, tr, seen, sl, c2)
}

/// Whether the reject table rules out sight from sector `s1` to `s2`.
pub open spec fn rejected(m: &SightMap, s1: int, s2: int) -> bool {
    let pnum = s1 * m.sectors.len() + s2;
    m.reject@[pnum / 8] & (1u8 << ((pnum % 8) as u8)) != 0
}

/// The trace from the eyes of `t1` (three quarters of its height up) to
/// `t2`.
pub open spec fn trace_of(t1: SightThing, t2: SightThing) -> SightTrace {
    SightTrace {
        strace: divline_t { x: t1.x, y: t1.y, dx: (t2.x - t1.x) as i32, dy: (t2.y - t1.y) as i32 },
        t2x: t2.x,
        t2y: t2.y,
        zstart: (t1.z + t1.height - t1.height / 4) as i32,
    }
}

/// The slopes at the start: from the eyes to the top and the foot of `t2`.
pub open spec fn slopes_of(t1: SightThing, t2: SightThing) -> SightSlopes {
    let z = t1.z + t1.height - t1.height / 4;
    SightSlopes { top: (t2.z + t2.height - z) as i32, bottom: (t2.z - z) as i32 }
}

/// Whether `t2` can be seen from `t1`: not where the reject table rules it
/// out, else where the trace passes the BSP tree from its root (the last
/// node; subsector 0 on a map with no nodes).
pub open spec fn sight(m: &SightMap, t1: SightThing, t2: SightThing) -> bool {
    if rejected(m, t1.sector as int, t2.sector as int) {
        false
    } else {
        let seen = Seq::new(m.lines.len() as nat, |i: int| false);
        let tr = trace_of(t1, t2);
        let sl = slopes_of(t1, t2);
        if m.nodes.len() == 0 {
            subsector_sight(m, tr, seen, sl, 0).2
        } else {
            bsp_sight(m, tr, seen, sl, m.nodes.len() - 1).2
        }
    }
}

/// What checking sight from `t1` to `t2` asks: the things stand in the
/// map's sectors, the reject table covers their pair, the map has a
/// subsector, the heights fit and the trace is fit to follow.
pub open spec fn sight_ok(m: &SightMap, t1: SightThing, t2: SightThing) -> bool {
    &&& map_ok(m)
    &&& t1.sector < m.sectors.len() && t2.sector < m.sectors.len()
    &&& (t1.sector * m.sectors.len() + t2.sector) / 8 < m.reject.len()
    &&& m.sectors.len() * m.sectors.len() <= usize::MAX
    &&& m.subsectors.len() > 0
    &&& small(t1.height as int) && t1.height >= 0 && small(t1.z as int) && small(t2.z as int) && small(t2.height as int)
    &&& small(t1.z + t1.height - t1.height / 4)
    &&& fits_i32(t2.z + t2.height - (t1.z + t1.height - t1.height / 4))
    &&& trace_ok(m, trace_of(t1, t2))
}

/// Whether a straight line between `t1` and `t2` is unobstructed (see
/// `sight`): the reject table first, then the walk of the BSP tree.
pub fn P_CheckSight(m: &SightMap, t1: &SightThing, t2: &SightThing) -> (r: bool)
    requires
        sight_ok(m, *t1, *t2),
    ensures
        r == sight(m, *t1, *t2),
{
    let ns = m.sectors.len();
    proof {
        assert(t1.sector * ns + t2.sector < ns * ns) by (nonlinear_arith)
            requires
                t1.sector < ns,
                t2.sector < ns,
        ;
    }
    let pnum = t1.sector * ns + t2.sector;
    let bytenum = pnum / 8;
    let bitnum = (pnum % 8) as u8;
    if m.reject[bytenum] & (1u8 << bitnum) != 0 {
        return false;
    }
    let mut seen: Vec<bool> = Vec::new();
    while seen.len() < m.lines.len()
        invariant
            seen.len() <= m.lines.len(),
            forall|i: int| 0 <= i < seen.len() ==> !seen@[i],
        decreases m.lines.len() - seen.len(),
    {
        seen.push(false);
    }
    assert(seen@ == Seq::new(m.lines.len() as nat, |i: int| false));
    let zstart = t1.z + t1.height - t1.height / 4;
    let tr = SightTrace {
        strace: divline_t { x: t1.x, y: t1.y, dx: t2.x - t1.x, dy: t2.y - t1.y },
        t2x: t2.x,
        t2y: t2.y,
        zstart,
    };
    let mut sl = SightSlopes { top: (t2.z + t2.height) - zstart, bottom: t2.z - zstart };
    assert(tr == trace_of(*t1, *t2));
    if m.nodes.len() == 0 {
        P_CrossSubsector(m, &tr, &mut seen, &mut sl, 0)
    } else {
        P_CrossBSPNode(m, &tr, &mut seen, &mut sl, (m.nodes.len() - 1) as u16)
    }
}

} // verus!
