//! Teleporters: a thing that crosses a teleporter line from its front goes
//! to the teleport spot in a sector tagged like the line, killing what
//! stands there.

use vstd::prelude::*;

use crate::crush::MF_SHOOTABLE;
use crate::fixed::fixed_t;
use crate::geom::{node_t, reaches_subsector, subsector_reached, R_PointInSubsector};
use crate::level::Sector;
use crate::zmove::MF_MISSILE;

verus! {

/// The thing that teleports: its number, flags and place, its size, the
/// floor and ceiling it stands between, where it faces and how it moves,
/// how long it waits, and, for a player's body, the player's view height
/// and eye height.
#[derive(Debug, Clone, Copy, PartialEq, Eq, Structural)]
pub struct TeleThing {
    pub id: usize,
    pub flags: u32,
    pub x: fixed_t,
    pub y: fixed_t,
    pub z: fixed_t,
    pub radius: fixed_t,
    pub floorz: fixed_t,
    pub ceilingz: fixed_t,
    pub angle: u32,
    pub momx: fixed_t,
    pub momy: fixed_t,
    pub momz: fixed_t,
    pub reactiontime: i32,
    pub is_player: bool,
    pub viewheight: fixed_t,
    pub viewz: fixed_t,
}

/// A thing near the destination: its number, flags, place and radius.
#[derive(Debug, Clone, Copy, PartialEq, Eq, Structural)]
pub struct NearThing {
    pub id: usize,
    pub flags: u32,
    pub x: fixed_t,
    pub y: fixed_t,
    pub radius: fixed_t,
}

/// A teleport destination spot: where it is, where it faces and its sector.
#[derive(Debug, Clone, Copy, PartialEq, Eq, Structural)]
pub struct TeleportSpot {
    pub x: fixed_t,
    pub y: fixed_t,
    pub angle: u32,
    pub sector: usize,
}

/// The map as teleporting reads it: the BSP nodes, the sector of each
/// subsector, and the sectors.
pub struct TeleMap {
    pub nodes: Vec<node_t>,
    pub subsector_sector: Vec<usize>,
    pub sectors: Vec<Sector>,
}

/// What a thing near the destination means for a thing arriving at
/// (x, y).
#[derive(Debug, Clone, Copy, PartialEq, Eq, Structural)]
pub enum Stomp {
    /// Not in the way (not shootable, not touching, or the arriving thing
    /// itself).
    Clear,
    /// Killed to make room.
    Killed,
    /// Blocks the move: only players telefrag, but on the map 30 boss
    /// level anything does.
    Blocked,
}

/// A coordinate or radius well inside the 32-bit range.
pub open spec fn small(v: int) -> bool {
    -0x4000_0000 <= v < 0x4000_0000
}

/// What thing `t` means for `tm` arriving at (x, y) on map number
/// `gamemap`.
pub open spec fn stomp_of(t: NearThing, tm: TeleThing, x: int, y: int, gamemap: i32) -> Stomp {
    let blockdist = t.radius + tm.radius;
    let dx = if t.x - x < 0 { x - t.x } else { t.x - x };
    let dy = if t.y - y < 0 { y - t.y } else { t.y - y };
    if t.flags & MF_SHOOTABLE == 0 || dx >= blockdist || dy >= blockdist || t.id == tm.id {
        Stomp::Clear
    } else if !tm.is_player && gamemap != 30 {
        Stomp::Blocked
    } else {
        Stomp::Killed
    }
}

/// Decides what thing `t` means for `tm` arriving at (x, y) (see
/// `stomp_of`).
pub fn PIT_StompThing(t: &NearThing, tm: &TeleThing, x: fixed_t, y: fixed_t, gamemap: i32) -> (r: Stomp)
    requires
        small(t.x as int) && small(t.y as int) && small(x as int) && small(y as int),
        small(t.radius as int) && small(tm.radius as int),
    ensures
        r == stomp_of(*t, *tm, x as int, y as int, gamemap),
{
    if t.flags & MF_SHOOTABLE == 0 {
        return Stomp::Clear;
    }
    let blockdist = t.radius + tm.radius;
    let ddx = t.x - x;
    let ddy = t.y - y;
    let dx = if ddx < 0 { -ddx } else { ddx };
    let dy = if ddy < 0 { -ddy } else { ddy };
    if dx >= blockdist || dy >= blockdist {
        return Stomp::Clear;
    }
    if t.id == tm.id {
        return Stomp::Clear;
    }
    if !tm.is_player && gamemap != 30 {
        return Stomp::Blocked;
    }
    Stomp::Killed
}

/// Going through the first `n` things near (x, y): whether none blocked,
/// and the things killed (up to the one that blocked).
pub open spec fn stomps(near: Seq<NearThing>, tm: TeleThing, x: int, y: int, gamemap: i32, n: nat) -> (bool, Seq<usize>)
    decreases n,
{
    if n == 0 {
        (true, Seq::empty())
    } else {
        let (ok, ids) = stomps(near, tm, x, y, gamemap, (n - 1) as nat);
        if !ok {
            (false, ids)
        } else {
            match stomp_of(near[n - 1], tm, x, y, gamemap) {
                Stomp::Clear => (true, ids),
                Stomp::Killed => (true, ids.push(near[n - 1].id)),
                Stomp::Blocked => (false, ids),
            }
        }
    }
}

/// The subsector that (x, y) lies in (subsector 0 on a map without nodes).
pub open spec fn point_subsector(nodes: Seq<node_t>, x: int, y: int) -> int {
    if nodes.len() == 0 {
        0
    } else {
        let root = (nodes.len() - 1) as usize;
        subsector_reached(nodes, x, y, root, choose|f: nat| reaches_subsector(nodes, x, y, root, f)) as int
    }
}

/// The sector that (x, y) lies in.
pub open spec fn point_sector(m: &TeleMap, x: int, y: int) -> Sector {
    m.sectors@[m.subsector_sector@[point_subsector(m.nodes@, x, y)] as int]
}

/// (x, y) can be found in the map: the descent through the tree ends, and
/// the subsector and its sector exist.
pub open spec fn point_in_map(m: &TeleMap, x: int, y: int) -> bool {
    &&& m.nodes.len() > 0 ==> exists|f: nat| #[trigger] reaches_subsector(m.nodes@, x, y, (m.nodes.len() - 1) as usize, f)
    &&& 0 <= point_subsector(m.nodes@, x, y) < m.subsector_sector.len()
    &&& m.subsector_sector@[point_subsector(m.nodes@, x, y)] < m.sectors.len()
}

/// What a teleport move needs: small coordinates and radii, and the
/// destination in the map.
pub open spec fn move_ok(m: &TeleMap, near: Seq<NearThing>, tm: TeleThing, x: int, y: int) -> bool {
    &&& small(x) && small(y) && small(tm.radius as int)
    &&& forall|i: int| 0 <= i < near.len() ==> {
        let t = #[trigger] near[i];
        small(t.x as int) && small(t.y as int) && small(t.radius as int)
    }
    &&& point_in_map(m, x, y)
}

/// Moves `thing` to (x, y), killing what stands in the way among the
/// things `near` the destination (see `stomps`): where one of them
/// blocks, the thing stays and `false` comes back; else it stands at
/// (x, y) between the floor and ceiling of the sector there. The things
/// killed are listed in order (each takes 10000 damage from the thing;
/// linking the thing into its new place is the caller's).
pub fn P_TeleportMove(
    m: &TeleMap,
    thing: &mut TeleThing,
    x: fixed_t,
    y: fixed_t,
    near: &Vec<NearThing>,
    gamemap: i32,
) -> (r: (bool, Vec<usize>))
    requires
        move_ok(m, near@, *old(thing), x as int, y as int),
    ensures
        (r.0, r.1@) == stomps(near@, *old(thing), x as int, y as int, gamemap, near.len() as nat),
        *final(thing) == (if r.0 {
            TeleThing {
                x,
                y,
                floorz: point_sector(m, x as int, y as int).floorheight,
                ceilingz: point_sector(m, x as int, y as int).ceilingheight,
                ..*old(thing)
            }
        } else {
            *old(thing)
        }),
{
    let mut killed: Vec<usize> = Vec::new();
    let mut i: usize = 0;
    while i < near.len()
        invariant
            i <= near.len(),
            move_ok(m, near@, *thing, x as int, y as int),
            stomps(near@, *thing, x as int, y as int, gamemap, i as nat) == (true, killed@),
        decreases near.len() - i,
    {
        let t = near[i];
        assert(near@[i as int] == t);
        match PIT_StompThing(&t, thing, x, y, gamemap) {
            Stomp::Clear => {},
            Stomp::Killed => {
                killed.push(t.id);
            },
            Stomp::Blocked => {
                proof {
                    lemma_blocked_stays_blocked(near@, *thing, x as int, y as int, gamemap, (i + 1) as nat, near.len() as nat);
                }
                return (false, killed);
            },
        }
        i = i + 1;
    }
    let ss = R_PointInSubsector(x, y, &m.nodes);
    proof {
        if m.nodes.len() > 0 {
            let root = (m.nodes.len() - 1) as usize;
            let f = choose|f: nat| reaches_subsector(m.nodes@, x as int, y as int, root, f);
            assert(reaches_subsector(m.nodes@, x as int, y as int, root, f));
        }
    }
    let sec = m.sectors[m.subsector_sector[ss]];
    thing.floorz = sec.floorheight;
    thing.ceilingz = sec.ceilingheight;
    thing.x = x;
    thing.y = y;
    (true, killed)
}

proof fn lemma_blocked_stays_blocked(near: Seq<NearThing>, tm: TeleThing, x: int, y: int, gamemap: i32, i: nat, n: nat)
    requires
        i <= n,
        !stomps(near, tm, x, y, gamemap, i).0,
    ensures
        stomps(near, tm, x, y, gamemap, n) == stomps(near, tm, x, y, gamemap, i),
    decreases n - i,
{
    if i < n {
        lemma_blocked_stays_blocked(near, tm, x, y, gamemap, i, (n - 1) as nat);
    }
}

/// The first spot, from number `j` on, that stands in sector `s`.
pub open spec fn spot_in(spots: Seq<TeleportSpot>, s: int, j: int) -> Option<int>
    decreases spots.len() - j,
{
    if j < 0 || j >= spots.len() {
        None
    } else if spots[j].sector == s {
        Some(j)
    } else {
        spot_in(spots, s, j + 1)
    }
}

/// The destination of a teleporter with tag `tag`: the first spot of the
/// first sector, from number `i` on, that has the tag and a spot.
pub open spec fn destination(sectors: Seq<Sector>, spots: Seq<TeleportSpot>, tag: i16, i: int) -> Option<int>
    decreases sectors.len() - i,
{
    if i < 0 || i >= sectors.len() {
        None
    } else if sectors[i].tag == tag && spot_in(spots, i, 0) is Some {
        spot_in(spots, i, 0)
    } else {
        destination(sectors, spots, tag, i + 1)
    }
}

fn find_spot(spots: &Vec<TeleportSpot>, s: usize) -> (r: Option<usize>)
    ensures
        match r {
            Some(j) => spot_in(spots@, s as int, 0) == Some(j as int),
            None => spot_in(spots@, s as int, 0) is None,
        },
{
    let mut j: usize = 0;
    while j < spots.len()
        invariant
            j <= spots.len(),
            spot_in(spots@, s as int, 0) == spot_in(spots@, s as int, j as int),
        decreases spots.len() - j,
    {
        if spots[j].sector == s {
            return Some(j);
        }
        j = j + 1;
    }
    None
}

/// Finds where a teleporter with tag `tag` leads: the number of the spot
/// (see `destination`), none where no tagged sector has one.
pub fn teleport_destination(sectors: &Vec<Sector>, spots: &Vec<TeleportSpot>, tag: i16) -> (r: Option<usize>)
    ensures
        match r {
            Some(j) => destination(sectors@, spots@, tag, 0) == Some(j as int),
            None => destination(sectors@, spots@, tag, 0) is None,
        },
{
    let mut i: usize = 0;
    while i < sectors.len()
        invariant
            i <= sectors.len(),
            destination(sectors@, spots@, tag, 0) == destination(sectors@, spots@, tag, i as int),
        decreases sectors.len() - i,
    {
        if sectors[i].tag == tag {
            if let Some(j) = find_spot(spots, i) {
                return Some(j);
            }
        }
        i = i + 1;
    }
    None
}

/// Where teleport fog appears.
#[derive(Debug, Clone, Copy, PartialEq, Eq, Structural)]
pub struct FogAt {
    pub x: fixed_t,
    pub y: fixed_t,
    pub z: fixed_t,
}

/// What came of a teleport: whether the thing went, the things it killed
/// at the destination (in order), and where fog appears (where it left,
/// and 20 units in front of the spot), each with the teleport sound.
pub struct TeleportResult {
    pub teleported: bool,
    pub killed: Vec<usize>,
    pub fog: Option<(FogAt, FogAt)>,
}

/// The thing and what came of it when `t` crosses a teleporter line with
/// tag `tag` from side `side`: missiles and things coming from the back
/// stay; else the thing goes to the destination spot (see `destination`)
/// unless something there blocks it (see `stomps`), landing on the floor
/// there, facing where the spot faces, at rest, and a player waits 18 tics
/// with the view at its height.
pub open spec fn teleported(
    m: &TeleMap,
    tag: i16,
    side: i32,
    t: TeleThing,
    spots: Seq<TeleportSpot>,
    near: Seq<NearThing>,
    gamemap: i32,
    finesine: Seq<i32>,
) -> (TeleThing, bool, Seq<usize>, Option<(FogAt, FogAt)>) {
    if t.flags & MF_MISSILE != 0 || side == 1 {
        (t, false, Seq::empty(), None)
    } else {
        match destination(m.sectors@, spots, tag, 0) {
            None => (t, false, Seq::empty(), None),
            Some(j) => {
                let sp = spots[j];
                let (ok, ids) = stomps(near, t, sp.x as int, sp.y as int, gamemap, near.len() as nat);
                if !ok {
                    (t, false, ids, None)
                } else {
                    let sec = point_sector(m, sp.x as int, sp.y as int);
                    let z = sec.floorheight;
                    let an = sp.angle as int / 524288;
                    let t1 = TeleThing {
                        x: sp.x,
                        y: sp.y,
                        z,
                        floorz: sec.floorheight,
                        ceilingz: sec.ceilingheight,
                        angle: sp.angle,
                        momx: 0,
                        momy: 0,
                        momz: 0,
                        viewz: if t.is_player { (z + t.viewheight) as i32 } else { t.viewz },
                        reactiontime: if t.is_player { 18 } else { t.reactiontime },
                        ..t
                    };
                    let fog1 = FogAt { x: t.x, y: t.y, z: t.z };
                    let fog2 = FogAt {
                        x: (sp.x + 20 * finesine[an + 2048]) as i32,
                        y: (sp.y + 20 * finesine[an]) as i32,
                        z,
                    };
                    (t1, true, ids, Some((fog1, fog2)))
                }
            },
        }
    }
}

/// What teleporting `t` asks: the sine table is long enough, and the
/// destination, where there is one, can be reached and its sums fit.
pub open spec fn teleport_ok(m: &TeleMap, tag: i16, t: TeleThing, spots: Seq<TeleportSpot>, near: Seq<NearThing>, finesine: Seq<i32>) -> bool {
    &&& finesine.len() >= 10240
    &&& forall|i: int| 0 <= i < finesine.len() ==> -65536 <= #[trigger] finesine[i] <= 65536
    &&& (destination(m.sectors@, spots, tag, 0) matches Some(j) ==> {
        let sp = spots[j];
        &&& move_ok(m, near, t, sp.x as int, sp.y as int)
        &&& (t.is_player ==> i32::MIN <= point_sector(m, sp.x as int, sp.y as int).floorheight + t.viewheight <= i32::MAX)
    })
}

/// Teleports `thing`, which crossed a teleporter line with tag `tag` from
/// side `side` (0 front, 1 back), to the teleport spot of the first sector
/// with that tag that has one (`spots` lists the teleport spots in the
/// order the thinkers hold them; `near` lists the things that may stand at
/// the destination, in the order the blockmap gives them). See
/// `teleported`.
pub fn EV_Teleport(
    m: &TeleMap,
    tag: i16,
    side: i32,
    thing: &mut TeleThing,
    spots: &Vec<TeleportSpot>,
    near: &Vec<NearThing>,
    gamemap: i32,
    finesine: &Vec<i32>,
) -> (r: TeleportResult)
    requires
        teleport_ok(m, tag, *old(thing), spots@, near@, finesine@),
    ensures
        (*final(thing), r.teleported, r.killed@, r.fog) == teleported(m, tag, side, *old(thing), spots@, near@, gamemap, finesine@),
{
    if thing.flags & MF_MISSILE != 0 || side == 1 {
        return TeleportResult { teleported: false, killed: Vec::new(), fog: None };
    }
    let j = match teleport_destination(&m.sectors, spots, tag) {
        Some(j) => j,
        None => {
            return TeleportResult { teleported: false, killed: Vec::new(), fog: None };
        },
    };
    proof {
        assert(destination(m.sectors@, spots@, tag, 0) == Some(j as int));
        lemma_destination_in_range(m.sectors@, spots@, tag, 0);
    }
    let sp = spots[j];
    let old_x = thing.x;
    let old_y = thing.y;
    let old_z = thing.z;
    let (ok, killed) = P_TeleportMove(m, thing, sp.x, sp.y, near, gamemap);
    if !ok {
        return TeleportResult { teleported: false, killed, fog: None };
    }
    thing.z = thing.floorz;
    if thing.is_player {
        thing.viewz = thing.z + thing.viewheight;
        thing.reactiontime = 18;
    }
    let an = (sp.angle / 524288) as usize;
    let c = finesine[an + 2048];
    let sn = finesine[an];
    let fog1 = FogAt { x: old_x, y: old_y, z: old_z };
    let fog2 = FogAt { x: sp.x + 20 * c, y: sp.y + 20 * sn, z: thing.z };
    thing.angle = sp.angle;
    thing.momx = 0;
    thing.momy = 0;
    thing.momz = 0;
    TeleportResult { teleported: true, killed, fog: Some((fog1, fog2)) }
}

proof fn lemma_destination_in_range(sectors: Seq<Sector>, spots: Seq<TeleportSpot>, tag: i16, i: int)
    ensures
        destination(sectors, spots, tag, i) matches Some(j) ==> 0 <= j < spots.len(),
    decreases sectors.len() - i,
{
    if 0 <= i < sectors.len() {
        lemma_spot_in_range(spots, i, 0);
        lemma_destination_in_range(sectors, spots, tag, i + 1);
    }
}

proof fn lemma_spot_in_range(spots: Seq<TeleportSpot>, s: int, j: int)
    ensures
        spot_in(spots, s, j) matches Some(k) ==> 0 <= k < spots.len(),
    decreases spots.len() - j,
{
    if 0 <= j < spots.len() {
        lemma_spot_in_range(spots, s, j + 1);
    }
}

} // verus!
