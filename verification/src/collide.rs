//! Checking a move against the lines near the destination: which lines
//! block it, how they narrow the gap between floor and ceiling, and which
//! special lines it crosses.

use vstd::prelude::*;

use crate::crush::{MF_SHOOTABLE, MF_SOLID};
use crate::damage::MF_DROPOFF;
use crate::enemy::mobjtype_t;
use crate::fixed::fixed_t;
use crate::geom::{
    box_corner_sides, box_fits_line, fits_i32, point_on_line_side, reaches_subsector, LineGeom, Opening,
    P_BoxOnLineSide, P_LineOpening, P_PointOnLineSide, R_PointInSubsector, BOXBOTTOM, BOXLEFT, BOXRIGHT, BOXTOP,
};
use crate::teleport::{point_in_map, point_sector, point_subsector, TeleMap};
use crate::zmove::{MF_FLOAT, MF_MISSILE, MF_NOCLIP, MF_SKULLFLY};

verus! {

/// Line flag: the line blocks everything that walks.
pub const ML_BLOCKING: i16 = 1;

/// Line flag: the line blocks monsters.
pub const ML_BLOCKMONSTERS: i16 = 2;

/// How many special lines one move can cross.
pub const MAXSPECIALCROSS: usize = 8;

/// A line as the move check sees it: its geometry and bounding box, its
/// flags and special, and the floor and ceiling heights of its front and
/// (on a two-sided line) back sector.
#[derive(Debug, Clone, Copy)]
pub struct CheckLine {
    pub id: usize,
    pub geom: LineGeom,
    pub bbox: [fixed_t; 4],
    pub flags: i16,
    pub special: i16,
    pub front: (fixed_t, fixed_t),
    pub back: Option<(fixed_t, fixed_t)>,
}

/// The moving thing: the box it would occupy, and whether it is a missile
/// or a player.
#[derive(Debug, Clone, Copy)]
pub struct Mover {
    pub tmbbox: [fixed_t; 4],
    pub missile: bool,
    pub is_player: bool,
}

/// What the lines met so far give: the lowest ceiling (and the line that
/// gave it), the highest floor, the lowest floor below a drop-off.
#[derive(Debug, Clone, Copy, PartialEq, Eq, Structural)]
pub struct MoveSpace {
    pub floorz: fixed_t,
    pub ceilingz: fixed_t,
    pub dropoffz: fixed_t,
    pub ceilingline: Option<usize>,
}

/// The mover's box touches the line's box.
pub open spec fn boxes_touch(tm: Seq<fixed_t>, lb: Seq<fixed_t>) -> bool {
    !(tm[BOXRIGHT as int] <= lb[BOXLEFT as int] || tm[BOXLEFT as int] >= lb[BOXRIGHT as int] || tm[BOXTOP as int]
        <= lb[BOXBOTTOM as int] || tm[BOXBOTTOM as int] >= lb[BOXTOP as int])
}

/// The mover's box crosses the line: the boxes touch and the line passes
/// between the box's corners.
pub open spec fn line_hit(m: Mover, ld: CheckLine) -> bool {
    boxes_touch(m.tmbbox@, ld.bbox@) && ({
        let (p1, p2) = box_corner_sides(m.tmbbox@, ld.geom);
        p1 != p2
    })
}

/// A line the mover crosses stops it: a one-sided line, and for what is not
/// a missile a line that blocks everything, or monsters where it is not a
/// player.
pub open spec fn line_blocks(m: Mover, ld: CheckLine) -> bool {
    ld.back is None || (!m.missile && (ld.flags & ML_BLOCKING != 0 || (!m.is_player && ld.flags & ML_BLOCKMONSTERS
        != 0)))
}

/// The space after crossing the two-sided line `ld`: its opening lowers
/// the ceiling (and names the line), raises the floor and lowers the
/// drop-off.
pub open spec fn narrowed(s: MoveSpace, ld: CheckLine) -> MoveSpace {
    let (ff, fc) = ld.front;
    let (bf, bc) = ld.back->0;
    let opentop = if fc < bc { fc } else { bc };
    let openbottom = if ff > bf { ff } else { bf };
    let lowfloor = if ff > bf { bf } else { ff };
    MoveSpace {
        ceilingz: if opentop < s.ceilingz { opentop } else { s.ceilingz },
        ceilingline: if opentop < s.ceilingz { Some(ld.id) } else { s.ceilingline },
        floorz: if openbottom > s.floorz { openbottom } else { s.floorz },
        dropoffz: if lowfloor < s.dropoffz { lowfloor } else { s.dropoffz },
    }
}

/// The line can be checked: the box corners can be measured against it,
/// its opening fits, and there is room to note one more special line.
pub open spec fn check_ok(m: Mover, ld: CheckLine, spechit: Seq<CheckLine>) -> bool {
    &&& boxes_touch(m.tmbbox@, ld.bbox@) ==> box_fits_line(m.tmbbox@, ld.geom)
    &&& (ld.back matches Some((bf, bc)) ==> {
        let (ff, fc) = ld.front;
        fits_i32((if fc < bc { fc } else { bc }) - (if ff > bf { ff } else { bf }))
    })
    &&& (line_hit(m, ld) && !line_blocks(m, ld) && ld.special != 0 ==> spechit.len() < MAXSPECIALCROSS)
}

/// Checks the move against line `ld`: a line the mover's box does not cross
/// lets it pass unchanged; a blocking line stops it (`false`); any other
/// narrows the space (see `narrowed`) and, where it is special, is noted in
/// `spechit` to be crossed once the move is made.
pub fn PIT_CheckLine(m: &Mover, ld: &CheckLine, space: &mut MoveSpace, spechit: &mut Vec<CheckLine>) -> (r: bool)
    requires
        check_ok(*m, *ld, old(spechit)@),
    ensures
        r == !(line_hit(*m, *ld) && line_blocks(*m, *ld)),
        *final(space) == (if line_hit(*m, *ld) && !line_blocks(*m, *ld) {
            narrowed(*old(space), *ld)
        } else {
            *old(space)
        }),
        final(spechit)@ == (if line_hit(*m, *ld) && !line_blocks(*m, *ld) && ld.special != 0 {
            old(spechit)@.push(*ld)
        } else {
            old(spechit)@
        }),
{
    let tm = m.tmbbox;
    let lb = ld.bbox;
    if tm[BOXRIGHT] <= lb[BOXLEFT] || tm[BOXLEFT] >= lb[BOXRIGHT] || tm[BOXTOP] <= lb[BOXBOTTOM] || tm[BOXBOTTOM]
        >= lb[BOXTOP] {
        return true;
    }
    if P_BoxOnLineSide(&tm, &ld.geom).is_some() {
        return true;
    }
    let back = match ld.back {
        Some(b) => b,
        None => {
            return false;
        },
    };
    if !m.missile {
        if ld.flags & ML_BLOCKING != 0 {
            return false;
        }
        if !m.is_player && ld.flags & ML_BLOCKMONSTERS != 0 {
            return false;
        }
    }
    let prev = Opening { opentop: 0, openbottom: 0, openrange: 0, lowfloor: 0 };
    let o = P_LineOpening(prev, Some((ld.front, back)));
    if o.opentop < space.ceilingz {
        space.ceilingz = o.opentop;
        space.ceilingline = Some(ld.id);
    }
    if o.openbottom > space.floorz {
        space.floorz = o.openbottom;
    }
    if o.lowfloor < space.dropoffz {
        space.dropoffz = o.lowfloor;
    }
    if ld.special != 0 {
        spechit.push(*ld);
    }
    true
}

/// Thing flag: the thing can be picked up.
pub const MF_SPECIAL: u32 = 1;

/// Thing flag: the thing picks things up.
pub const MF_PICKUP: u32 = 0x800;

/// A thing near the destination of a move: its number, flags, place,
/// size and kind.
#[derive(Debug, Clone, Copy, PartialEq, Eq, Structural)]
pub struct Touchable {
    pub id: usize,
    pub flags: u32,
    pub x: fixed_t,
    pub y: fixed_t,
    pub z: fixed_t,
    pub height: fixed_t,
    pub radius: fixed_t,
    pub kind: mobjtype_t,
}

/// The thing that moves: its number and flags, its height and size, how
/// it moves, the damage its kind deals on impact, and the thing that
/// fired it (with that thing's kind) where it is a missile.
#[derive(Debug, Clone, Copy, PartialEq, Eq, Structural)]
pub struct Checker {
    pub id: usize,
    pub flags: u32,
    pub z: fixed_t,
    pub height: fixed_t,
    pub radius: fixed_t,
    pub momx: fixed_t,
    pub momy: fixed_t,
    pub momz: fixed_t,
    pub damage: i32,
    pub target: Option<Shooter>,
}

/// The thing that fired a missile: its number and kind.
#[derive(Debug, Clone, Copy, PartialEq, Eq, Structural)]
pub struct Shooter {
    pub id: usize,
    pub kind: mobjtype_t,
}

/// What meeting a thing sets off, for the caller to carry out.
#[derive(Debug, Clone, Copy, PartialEq, Eq, Structural)]
pub enum ThingHit {
    /// Nothing.
    Nothing,
    /// A flying skull slams into the thing with this damage; the skull
    /// stops and goes back to its spawn frame.
    Slam(i32),
    /// A missile hits the thing with this damage (blamed on its shooter).
    Missile(i32),
    /// A missile explodes on a thing of its shooter's kind, doing no damage.
    Explode,
    /// The mover picks the thing up.
    Pickup,
}

/// The two kinds are of one species for missiles: the same kind, or a
/// hell knight and a baron.
pub open spec fn kin(a: mobjtype_t, b: mobjtype_t) -> bool {
    a == b || (a == mobjtype_t::MT_KNIGHT && b == mobjtype_t::MT_BRUISER) || (a == mobjtype_t::MT_BRUISER && b
        == mobjtype_t::MT_KNIGHT)
}

/// The number of the thing that fired the missile.
pub open spec fn shooter(tm: Checker) -> usize {
    match tm.target {
        Some(s) => s.id,
        None => 0,
    }
}

/// The kind of the thing that fired the missile.
pub open spec fn shooter_kind(tm: Checker) -> mobjtype_t {
    match tm.target {
        Some(s) => s.kind,
        None => mobjtype_t::MT_PLAYER,
    }
}

/// Meeting `t` on a move of `tm` to (x, y), with the random number
/// `roll`: the mover after it, whether the move may go on, and what is set
/// off. Things that neither block, nor can be picked up or shot, and
/// things not touched (or the mover itself) let it pass; a flying skull
/// slams into what it meets and stops; a missile passes over or under,
/// spares its shooter, explodes on its shooter's kin (players excepted),
/// passes what cannot be shot unless it blocks, and else hits; a mover
/// that picks things up takes what can be picked up; and a solid thing
/// blocks.
pub open spec fn check_thing(t: Touchable, tm: Checker, x: int, y: int, roll: u8) -> (Checker, bool, ThingHit) {
    let blockdist = t.radius + tm.radius;
    let dx = if t.x - x < 0 { x - t.x } else { t.x - x };
    let dy = if t.y - y < 0 { y - t.y } else { t.y - y };
    let damage = ((roll % 8) + 1) * tm.damage;
    if t.flags & (MF_SOLID | MF_SPECIAL | MF_SHOOTABLE) == 0 || dx >= blockdist || dy >= blockdist || t.id == tm.id {
        (tm, true, ThingHit::Nothing)
    } else if tm.flags & MF_SKULLFLY != 0 {
        (Checker { flags: tm.flags & !MF_SKULLFLY, momx: 0, momy: 0, momz: 0, ..tm }, false, ThingHit::Slam(damage as i32))
    } else if tm.flags & MF_MISSILE != 0 {
        if tm.z > t.z + t.height || tm.z + tm.height < t.z {
            (tm, true, ThingHit::Nothing)
        } else if tm.target is Some && kin(shooter_kind(tm), t.kind) && (t.id == shooter(tm) || t.kind
            != mobjtype_t::MT_PLAYER) {
            if t.id == shooter(tm) { (tm, true, ThingHit::Nothing) } else { (tm, false, ThingHit::Explode) }
        } else if t.flags & MF_SHOOTABLE == 0 {
            (tm, t.flags & MF_SOLID == 0, ThingHit::Nothing)
        } else {
            (tm, false, ThingHit::Missile(damage as i32))
        }
    } else if t.flags & MF_SPECIAL != 0 {
        (tm, t.flags & MF_SOLID == 0, if tm.flags & MF_PICKUP != 0 { ThingHit::Pickup } else { ThingHit::Nothing })
    } else {
        (tm, t.flags & MF_SOLID == 0, ThingHit::Nothing)
    }
}

/// The sums of meeting a thing fit: small places, sizes and heights, and
/// an impact damage that eight times over still fits.
pub open spec fn thing_check_ok(t: Touchable, tm: Checker, x: int, y: int) -> bool {
    let small = |v: int| -0x4000_0000 <= v < 0x4000_0000;
    &&& small(t.x as int) && small(t.y as int) && small(x) && small(y)
    &&& small(t.radius as int) && small(tm.radius as int)
    &&& small(t.z as int) && small(t.height as int) && small(tm.z as int) && small(tm.height as int)
    &&& -0x0fff_ffff <= tm.damage <= 0x0fff_ffff
}

/// Checks a move of `tm` to (x, y) against thing `t` (see `check_thing`);
/// `roll` is the random number a hit draws for its damage.
pub fn PIT_CheckThing(t: &Touchable, tm: &mut Checker, x: fixed_t, y: fixed_t, roll: u8) -> (r: (bool, ThingHit))
    requires
        thing_check_ok(*t, *old(tm), x as int, y as int),
    ensures
        (*final(tm), r.0, r.1) == check_thing(*t, *old(tm), x as int, y as int, roll),
{
    if t.flags & (MF_SOLID | MF_SPECIAL | MF_SHOOTABLE) == 0 {
        return (true, ThingHit::Nothing);
    }
    let blockdist = t.radius + tm.radius;
    let ddx = t.x - x;
    let ddy = t.y - y;
    let dx = if ddx < 0 { -ddx } else { ddx };
    let dy = if ddy < 0 { -ddy } else { ddy };
    if dx >= blockdist || dy >= blockdist {
        return (true, ThingHit::Nothing);
    }
    if t.id == tm.id {
        return (true, ThingHit::Nothing);
    }
    let r8 = (roll % 8) as i32;
    assert(-0x7fff_fff8 <= (r8 + 1) * tm.damage <= 0x7fff_fff8) by (nonlinear_arith)
        requires
            -0x0fff_ffff <= tm.damage <= 0x0fff_ffff,
            0 <= r8 < 8,
    ;
    if tm.flags & MF_SKULLFLY != 0 {
        let damage = (r8 + 1) * tm.damage;
        tm.flags = tm.flags & !MF_SKULLFLY;
        tm.momx = 0;
        tm.momy = 0;
        tm.momz = 0;
        return (false, ThingHit::Slam(damage));
    }
    if tm.flags & MF_MISSILE != 0 {
        if tm.z > t.z + t.height {
            return (true, ThingHit::Nothing);
        }
        if tm.z + tm.height < t.z {
            return (true, ThingHit::Nothing);
        }
        if let Some(sh) = tm.target {
            let sid = sh.id;
            let skind = sh.kind;
            let kin = skind == t.kind || (skind == mobjtype_t::MT_KNIGHT && t.kind == mobjtype_t::MT_BRUISER) || (
            skind == mobjtype_t::MT_BRUISER && t.kind == mobjtype_t::MT_KNIGHT);
            if kin {
                if t.id == sid {
                    return (true, ThingHit::Nothing);
                }
                if t.kind != mobjtype_t::MT_PLAYER {
                    return (false, ThingHit::Explode);
                }
            }
        }
        if t.flags & MF_SHOOTABLE == 0 {
            return (t.flags & MF_SOLID == 0, ThingHit::Nothing);
        }
        let damage = (r8 + 1) * tm.damage;
        return (false, ThingHit::Missile(damage));
    }
    if t.flags & MF_SPECIAL != 0 {
        let hit = if tm.flags & MF_PICKUP != 0 { ThingHit::Pickup } else { ThingHit::Nothing };
        return (t.flags & MF_SOLID == 0, hit);
    }
    (t.flags & MF_SOLID == 0, ThingHit::Nothing)
}

/// Meeting the first `n` things on a move of `tm` to (x, y): the mover
/// after them, whether the move may go on, and what each met thing set off
/// (by its number). The first thing that stops the move ends the list;
/// `roll` is the random number its hit draws.
pub open spec fn things_met(things: Seq<Touchable>, tm: Checker, x: int, y: int, roll: u8, n: nat) -> (Checker, bool, Seq<(usize, ThingHit)>)
    decreases n,
{
    if n == 0 {
        (tm, true, Seq::empty())
    } else {
        let (tm1, ok, hits) = things_met(things, tm, x, y, roll, (n - 1) as nat);
        if !ok {
            (tm1, ok, hits)
        } else {
            let (tm2, go, h) = check_thing(things[n - 1], tm1, x, y, roll);
            (tm2, go, if h == ThingHit::Nothing { hits } else { hits.push((things[n - 1].id, h)) })
        }
    }
}

/// Checking the first `n` lines: whether none blocked, the space left and
/// the special lines crossed.
pub open spec fn lines_met(m: Mover, lines: Seq<CheckLine>, space: MoveSpace, n: nat) -> (bool, MoveSpace, Seq<CheckLine>)
    decreases n,
{
    if n == 0 {
        (true, space, Seq::empty())
    } else {
        let (ok, s1, hit) = lines_met(m, lines, space, (n - 1) as nat);
        let ld = lines[n - 1];
        if !ok {
            (ok, s1, hit)
        } else if line_hit(m, ld) && line_blocks(m, ld) {
            (false, s1, hit)
        } else if line_hit(m, ld) {
            (true, narrowed(s1, ld), if ld.special != 0 { hit.push(ld) } else { hit })
        } else {
            (true, s1, hit)
        }
    }
}

/// How many of the first `n` lines are special.
pub open spec fn special_count(lines: Seq<CheckLine>, n: nat) -> nat
    decreases n,
{
    if n == 0 {
        0
    } else {
        special_count(lines, (n - 1) as nat) + if lines[n - 1].special != 0 { 1nat } else { 0nat }
    }
}

proof fn lemma_special_count_grows(lines: Seq<CheckLine>, i: nat, n: nat)
    requires
        i <= n,
    ensures
        special_count(lines, i) <= special_count(lines, n),
    decreases n - i,
{
    if i < n {
        lemma_special_count_grows(lines, i, (n - 1) as nat);
    }
}

proof fn lemma_lines_met_specials(m: Mover, lines: Seq<CheckLine>, space: MoveSpace, n: nat)
    ensures
        lines_met(m, lines, space, n).2.len() <= special_count(lines, n),
    decreases n,
{
    if n > 0 {
        lemma_lines_met_specials(m, lines, space, (n - 1) as nat);
    }
}

/// The box the mover would occupy at (x, y).
pub open spec fn box_at(x: int, y: int, r: int) -> Seq<fixed_t> {
    seq![(y + r) as i32, (y - r) as i32, (x - r) as i32, (x + r) as i32]
}

/// The space at (x, y) before any line: the floor and ceiling of its
/// sector, the drop-off at the floor.
pub open spec fn start_space(map: &TeleMap, x: int, y: int) -> MoveSpace {
    let sec = point_sector(map, x, y);
    MoveSpace { floorz: sec.floorheight, ceilingz: sec.ceilingheight, dropoffz: sec.floorheight, ceilingline: None }
}

/// The mover as the line checks see it.
pub open spec fn line_mover(tm: Checker, is_player: bool, x: int, y: int) -> Mover {
    Mover { tmbbox: [box_at(x, y, tm.radius as int)[0], box_at(x, y, tm.radius as int)[1], box_at(x, y, tm.radius as int)[2], box_at(x, y, tm.radius as int)[3]], missile: tm.flags & MF_MISSILE != 0, is_player }
}

/// What checking a position asks: small coordinates, a place in the map,
/// things and lines whose sums fit, and room for the special lines.
pub open spec fn position_ok(map: &TeleMap, tm: Checker, is_player: bool, x: int, y: int, things: Seq<Touchable>, lines: Seq<CheckLine>) -> bool {
    &&& -0x4000_0000 <= x < 0x4000_0000 && -0x4000_0000 <= y < 0x4000_0000
    &&& 0 <= tm.radius < 0x4000_0000
    &&& point_in_map(map, x, y)
    &&& forall|i: int| 0 <= i < things.len() ==> #[trigger] thing_check_ok(things[i], tm, x, y)
    &&& forall|i: int| 0 <= i < lines.len() ==> #[trigger] check_ok(line_mover(tm, is_player, x, y), lines[i], Seq::empty())
    &&& special_count(lines, lines.len() as nat) <= MAXSPECIALCROSS
}

/// What checking a position found: whether the thing fits there, what the
/// things it met set off, the space between floor and ceiling, and the
/// special lines it would cross.
pub struct PositionResult {
    pub ok: bool,
    pub hits: Vec<(usize, ThingHit)>,
    pub space: MoveSpace,
    pub spechit: Vec<CheckLine>,
}

/// Checks whether `tm` (a player's body where `is_player`) fits at
/// (x, y): the space starts as its sector's; a thing that passes through
/// walls fits anywhere; else the things near (in blockmap order) are met
/// (see `things_met`), and, where none stopped it, the lines near (each
/// once, in blockmap order; see `lines_met`). Nothing of the map is
/// changed; the mover changes only where a flying skull slams.
pub fn P_CheckPosition(
    map: &TeleMap,
    tm: &mut Checker,
    is_player: bool,
    x: fixed_t,
    y: fixed_t,
    things: &Vec<Touchable>,
    lines: &Vec<CheckLine>,
    roll: u8,
) -> (r: PositionResult)
    requires
        position_ok(map, *old(tm), is_player, x as int, y as int, things@, lines@),
    ensures
        old(tm).flags & MF_NOCLIP != 0 ==> *final(tm) == *old(tm) && r.ok && r.hits@.len() == 0 && r.space == start_space(
            map,
            x as int,
            y as int,
        ) && r.spechit@.len() == 0,
        old(tm).flags & MF_NOCLIP == 0 ==> {
            let (tm1, ok, hits) = things_met(things@, *old(tm), x as int, y as int, roll, things.len() as nat);
            let (lok, sp, sh) = lines_met(line_mover(*old(tm), is_player, x as int, y as int), lines@, start_space(map, x as int, y as int), lines.len() as nat);
            &&& *final(tm) == tm1
            &&& r.hits@ == hits
            &&& r.ok == (ok && lok)
            &&& ok ==> r.space == sp && r.spechit@ == sh
            &&& !ok ==> r.space == start_space(map, x as int, y as int) && r.spechit@.len() == 0
        },
{
    let ss = R_PointInSubsector(x, y, &map.nodes);
    proof {
        if map.nodes.len() > 0 {
            let root = (map.nodes.len() - 1) as usize;
            let f = choose|f: nat| reaches_subsector(map.nodes@, x as int, y as int, root, f);
            assert(reaches_subsector(map.nodes@, x as int, y as int, root, f));
        }
    }
    let sec = map.sectors[map.subsector_sector[ss]];
    let start = MoveSpace { floorz: sec.floorheight, ceilingz: sec.ceilingheight, dropoffz: sec.floorheight, ceilingline: None };
    assert(start == start_space(map, x as int, y as int));
    let mut hits: Vec<(usize, ThingHit)> = Vec::new();
    let mut spechit: Vec<CheckLine> = Vec::new();
    if tm.flags & MF_NOCLIP != 0 {
        return PositionResult { ok: true, hits, space: start, spechit };
    }
    let tm0 = *tm;
    let mut i: usize = 0;
    while i < things.len()
        invariant
            i <= things.len(),
            tm0 == *old(tm),
            start == start_space(map, x as int, y as int),
            spechit@.len() == 0,
            tm0.flags & MF_NOCLIP == 0,
            forall|k: int| 0 <= k < things.len() ==> #[trigger] thing_check_ok(things@[k], tm0, x as int, y as int),
            (*tm, true, hits@) == things_met(things@, tm0, x as int, y as int, roll, i as nat),
            tm.radius == tm0.radius && tm.z == tm0.z && tm.height == tm0.height && tm.damage == tm0.damage,
        decreases things.len() - i,
    {
        let t = things[i];
        assert(thing_check_ok(things@[i as int], tm0, x as int, y as int));
        let (go, h) = PIT_CheckThing(&t, tm, x, y, roll);
        if !(h == ThingHit::Nothing) {
            hits.push((t.id, h));
        }
        if !go {
            proof {
                lemma_stopped_stays(things@, tm0, x as int, y as int, roll, (i + 1) as nat, things.len() as nat);
            }
            return PositionResult { ok: false, hits, space: start, spechit };
        }
        i = i + 1;
    }
    let r = tm0.radius;
    let m = Mover { tmbbox: [y + r, y - r, x - r, x + r], missile: tm0.flags & MF_MISSILE != 0, is_player };
    assert(m == line_mover(tm0, is_player, x as int, y as int));
    let mut space = start;
    let mut j: usize = 0;
    while j < lines.len()
        invariant
            j <= lines.len(),
            tm0 == *old(tm),
            tm0.flags & MF_NOCLIP == 0,
            start == start_space(map, x as int, y as int),
            (*tm, true, hits@) == things_met(things@, tm0, x as int, y as int, roll, things.len() as nat),
            m == line_mover(tm0, is_player, x as int, y as int),
            forall|k: int| 0 <= k < lines.len() ==> #[trigger] check_ok(m, lines@[k], Seq::empty()),
            special_count(lines@, lines.len() as nat) <= MAXSPECIALCROSS,
            (true, space, spechit@) == lines_met(m, lines@, start, j as nat),
        decreases lines.len() - j,
    {
        let ld = lines[j];
        proof {
            assert(check_ok(m, lines@[j as int], Seq::empty()));
            lemma_lines_met_specials(m, lines@, start, j as nat);
            lemma_special_count_grows(lines@, (j + 1) as nat, lines.len() as nat);
        }
        if !PIT_CheckLine(&m, &ld, &mut space, &mut spechit) {
            proof {
                lemma_lines_stopped_stays(m, lines@, start, (j + 1) as nat, lines.len() as nat);
            }
            return PositionResult { ok: false, hits, space, spechit };
        }
        j = j + 1;
    }
    PositionResult { ok: true, hits, space, spechit }
}

proof fn lemma_stopped_stays(things: Seq<Touchable>, tm: Checker, x: int, y: int, roll: u8, i: nat, n: nat)
    requires
        i <= n,
        !things_met(things, tm, x, y, roll, i).1,
    ensures
        things_met(things, tm, x, y, roll, n) == things_met(things, tm, x, y, roll, i),
    decreases n - i,
{
    if i < n {
        lemma_stopped_stays(things, tm, x, y, roll, i, (n - 1) as nat);
    }
}

proof fn lemma_lines_stopped_stays(m: Mover, lines: Seq<CheckLine>, space: MoveSpace, i: nat, n: nat)
    requires
        i <= n,
        !lines_met(m, lines, space, i).0,
    ensures
        lines_met(m, lines, space, n) == lines_met(m, lines, space, i),
    decreases n - i,
{
    if i < n {
        lemma_lines_stopped_stays(m, lines, space, i, (n - 1) as nat);
    }
}

/// Thing flag: the thing is being teleported.
pub const MF_TELEPORT: u32 = 0x8000;

/// Where a thing stands and between which floor and ceiling.
#[derive(Debug, Clone, Copy, PartialEq, Eq, Structural)]
pub struct ThingPos {
    pub x: fixed_t,
    pub y: fixed_t,
    pub floorz: fixed_t,
    pub ceilingz: fixed_t,
}

/// The thing fits the space found: it passes through walls, or the gap is
/// tall enough, it need not duck (unless teleporting), the step up is at
/// most 24 units (unless teleporting), and it does not stand over a drop
/// of more than 24 units (unless it may drop off or floats).
pub open spec fn fits_space(tm: Checker, sp: MoveSpace) -> bool {
    tm.flags & MF_NOCLIP != 0 || {
        &&& sp.ceilingz - sp.floorz >= tm.height
        &&& (tm.flags & MF_TELEPORT != 0 || sp.ceilingz - tm.z >= tm.height)
        &&& (tm.flags & MF_TELEPORT != 0 || sp.floorz - tm.z <= 24 * 65536)
        &&& (tm.flags & (MF_DROPOFF | MF_FLOAT) != 0 || sp.floorz - sp.dropoffz <= 24 * 65536)
    }
}

/// The special lines of `sh` crossed between `from` and (x, y), latest
/// noted first, each with the side it was crossed from.
pub open spec fn crossed_lines(sh: Seq<CheckLine>, from: ThingPos, x: int, y: int) -> Seq<(usize, bool)>
    decreases sh.len(),
{
    if sh.len() == 0 {
        Seq::empty()
    } else {
        let ld = sh.last();
        let side = point_on_line_side(x, y, ld.geom);
        let oldside = point_on_line_side(from.x as int, from.y as int, ld.geom);
        let rest = crossed_lines(sh.drop_last(), from, x, y);
        if side != oldside && ld.special != 0 { seq![(ld.id, oldside)].add(rest) } else { rest }
    }
}

/// What trying a move gave: whether the thing moved, whether it would fit
/// by floating, what the things it met set off, and the special lines it
/// crossed (for the caller to carry out, in this order).
pub struct TryMoveResult {
    pub ok: bool,
    pub floatok: bool,
    pub hits: Vec<(usize, ThingHit)>,
    pub crossed: Vec<(usize, bool)>,
}

/// A height or coordinate well inside the 32-bit range.
pub open spec fn smallv(v: int) -> bool {
    -0x4000_0000 <= v < 0x4000_0000
}

/// The line's first vertex and its sectors' heights are small.
pub open spec fn line_small(ld: CheckLine) -> bool {
    &&& smallv(ld.geom.v1.x as int) && smallv(ld.geom.v1.y as int)
    &&& smallv(ld.front.0 as int) && smallv(ld.front.1 as int)
    &&& (ld.back matches Some((a, b)) ==> smallv(a as int) && smallv(b as int))
}

/// The heights of a space are small.
pub open spec fn space_small(s: MoveSpace) -> bool {
    smallv(s.floorz as int) && smallv(s.ceilingz as int) && smallv(s.dropoffz as int)
}

proof fn lemma_lines_met_small(m: Mover, lines: Seq<CheckLine>, space: MoveSpace, n: nat)
    requires
        space_small(space),
        n <= lines.len(),
        forall|i: int| 0 <= i < lines.len() ==> #[trigger] line_small(lines[i]),
    ensures
        space_small(lines_met(m, lines, space, n).1),
        forall|i: int| 0 <= i < lines_met(m, lines, space, n).2.len() ==> #[trigger] line_small(lines_met(m, lines, space, n).2[i]),
    decreases n,
{
    if n > 0 {
        lemma_lines_met_small(m, lines, space, (n - 1) as nat);
        assert(line_small(lines[n - 1]));
    }
}

/// What trying a move asks: the position can be checked, and the thing's
/// place and heights, the lines' first vertices and heights, and the
/// sectors' heights are small.
pub open spec fn try_ok(map: &TeleMap, tm: Checker, pos: ThingPos, is_player: bool, x: int, y: int, things: Seq<Touchable>, lines: Seq<CheckLine>) -> bool {
    &&& position_ok(map, tm, is_player, x, y, things, lines)
    &&& smallv(pos.x as int) && smallv(pos.y as int) && smallv(tm.z as int) && smallv(tm.height as int)
    &&& forall|i: int| 0 <= i < lines.len() ==> #[trigger] line_small(lines[i])
    &&& forall|i: int| 0 <= i < map.sectors.len() ==> smallv(#[trigger] map.sectors@[i].floorheight as int) && smallv(map.sectors@[i].ceilingheight as int)
}

/// Tries to move `tm`, standing at `pos`, to (x, y): where the position
/// is free (see `P_CheckPosition`) and the thing fits the space there (see
/// `fits_space`), it moves there between the new floor and ceiling, and
/// the special lines it crossed are listed (not for a thing that passes
/// through walls or teleports).
pub fn P_TryMove(
    map: &TeleMap,
    tm: &mut Checker,
    pos: &mut ThingPos,
    is_player: bool,
    x: fixed_t,
    y: fixed_t,
    things: &Vec<Touchable>,
    lines: &Vec<CheckLine>,
    roll: u8,
) -> (r: TryMoveResult)
    requires
        try_ok(map, *old(tm), *old(pos), is_player, x as int, y as int, things@, lines@),
    ensures
        ({
            let noclip = old(tm).flags & MF_NOCLIP != 0;
            let (tm1, tok, hits) = things_met(things@, *old(tm), x as int, y as int, roll, things.len() as nat);
            let (lok, sp0, sh0) = lines_met(line_mover(*old(tm), is_player, x as int, y as int), lines@, start_space(map, x as int, y as int), lines.len() as nat);
            let free = noclip || (tok && lok);
            let sp = if noclip { start_space(map, x as int, y as int) } else { sp0 };
            let sh = if noclip { Seq::empty() } else { sh0 };
            &&& *final(tm) == (if noclip { *old(tm) } else { tm1 })
            &&& r.hits@ == (if noclip { Seq::empty() } else { hits })
            &&& r.floatok == (free && !noclip && sp.ceilingz - sp.floorz >= old(tm).height)
            &&& r.ok == (free && fits_space(*old(tm), sp))
            &&& *final(pos) == (if r.ok { ThingPos { x, y, floorz: sp.floorz, ceilingz: sp.ceilingz } } else { *old(pos) })
            &&& r.crossed@ == (if r.ok && old(tm).flags & (MF_TELEPORT | MF_NOCLIP) == 0 {
                crossed_lines(sh, *old(pos), x as int, y as int)
            } else {
                Seq::empty()
            })
        }),
{
    let tm0 = *tm;
    let p = P_CheckPosition(map, tm, is_player, x, y, things, lines, roll);
    proof {
        let ss = point_subsector(map.nodes@, x as int, y as int);
        assert(smallv(map.sectors@[map.subsector_sector@[ss] as int].floorheight as int));
        lemma_lines_met_small(line_mover(tm0, is_player, x as int, y as int), lines@, start_space(map, x as int, y as int), lines.len() as nat);
    }
    let sp = p.space;
    if !p.ok {
        return TryMoveResult { ok: false, floatok: false, hits: p.hits, crossed: Vec::new() };
    }
    let mut floatok = false;
    if tm0.flags & MF_NOCLIP == 0 {
        if sp.ceilingz - sp.floorz < tm0.height {
            return TryMoveResult { ok: false, floatok, hits: p.hits, crossed: Vec::new() };
        }
        floatok = true;
        if tm0.flags & MF_TELEPORT == 0 && sp.ceilingz - tm0.z < tm0.height {
            return TryMoveResult { ok: false, floatok, hits: p.hits, crossed: Vec::new() };
        }
        if tm0.flags & MF_TELEPORT == 0 && sp.floorz - tm0.z > 24 * 65536 {
            return TryMoveResult { ok: false, floatok, hits: p.hits, crossed: Vec::new() };
        }
        if tm0.flags & (MF_DROPOFF | MF_FLOAT) == 0 && sp.floorz - sp.dropoffz > 24 * 65536 {
            return TryMoveResult { ok: false, floatok, hits: p.hits, crossed: Vec::new() };
        }
    }
    let from = *pos;
    pos.floorz = sp.floorz;
    pos.ceilingz = sp.ceilingz;
    pos.x = x;
    pos.y = y;
    let mut crossed: Vec<(usize, bool)> = Vec::new();
    if tm0.flags & (MF_TELEPORT | MF_NOCLIP) == 0 {
        let sh = &p.spechit;
        let mut k: usize = sh.len();
        assert(sh@.subrange(0, sh@.len() as int) =~= sh@);
        assert(crossed@.add(crossed_lines(sh@, from, x as int, y as int)) =~= crossed_lines(sh@, from, x as int, y as int));
        while k > 0
            invariant
                k <= sh.len(),
                forall|i: int| 0 <= i < sh.len() ==> #[trigger] line_small(sh@[i]),
                -0x4000_0000 <= from.x < 0x4000_0000 && -0x4000_0000 <= from.y < 0x4000_0000,
                -0x4000_0000 <= x < 0x4000_0000 && -0x4000_0000 <= y < 0x4000_0000,
                crossed_lines(sh@, from, x as int, y as int) == crossed@.add(crossed_lines(sh@.subrange(0, k as int), from, x as int, y as int)),
            decreases k,
        {
            let ld = sh[k - 1];
            assert(line_small(sh@[k - 1]));
            assert(sh@.subrange(0, k as int).last() == ld);
            assert(sh@.subrange(0, k as int).drop_last() == sh@.subrange(0, k - 1));
            let side = P_PointOnLineSide(x, y, &ld.geom);
            let oldside = P_PointOnLineSide(from.x, from.y, &ld.geom);
            if side != oldside && ld.special != 0 {
                crossed.push((ld.id, oldside));
                assert(crossed@.add(crossed_lines(sh@.subrange(0, k - 1), from, x as int, y as int)) =~= crossed@.drop_last().add(seq![(ld.id, oldside)].add(crossed_lines(sh@.subrange(0, k - 1), from, x as int, y as int))));
            }
            k = k - 1;
        }
        assert(sh@.subrange(0, 0) =~= Seq::<CheckLine>::empty());
        assert(crossed@.add(Seq::<(usize, bool)>::empty()) =~= crossed@);
    }
    TryMoveResult { ok: true, floatok, hits: p.hits, crossed }
}

} // verus!
