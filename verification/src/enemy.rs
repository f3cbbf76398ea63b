//! Monster movement directions, the order in which a chasing monster
//! tries them, and when a monster is in reach for an attack.

use vstd::prelude::*;

use crate::fixed::{FRACUNIT, fixed_t};
use crate::geom::{P_AproxDistance, aprox_distance, fits_i32};

verus! {

/// The eight compass directions a monster walks in, and no direction.
#[derive(Debug, Clone, Copy, PartialEq, Eq, Structural)]
pub enum dirtype_t {
    DI_EAST,
    DI_NORTHEAST,
    DI_NORTH,
    DI_NORTHWEST,
    DI_WEST,
    DI_SOUTHWEST,
    DI_SOUTH,
    DI_SOUTHEAST,
    DI_NODIR,
    NUMDIRS,
}

/// The direction opposite `d` (no direction stays no direction).
pub open spec fn opposite_of(d: dirtype_t) -> dirtype_t {
    match d {
        dirtype_t::DI_EAST => dirtype_t::DI_WEST,
        dirtype_t::DI_NORTHEAST => dirtype_t::DI_SOUTHWEST,
        dirtype_t::DI_NORTH => dirtype_t::DI_SOUTH,
        dirtype_t::DI_NORTHWEST => dirtype_t::DI_SOUTHEAST,
        dirtype_t::DI_WEST => dirtype_t::DI_EAST,
        dirtype_t::DI_SOUTHWEST => dirtype_t::DI_NORTHEAST,
        dirtype_t::DI_SOUTH => dirtype_t::DI_NORTH,
        dirtype_t::DI_SOUTHEAST => dirtype_t::DI_NORTHWEST,
        _ => dirtype_t::DI_NODIR,
    }
}

/// The direction opposite `d`.
pub fn opposite(d: dirtype_t) -> (r: dirtype_t)
    requires
        d != dirtype_t::NUMDIRS,
    ensures
        r == opposite_of(d),
{
    match d {
        dirtype_t::DI_EAST => dirtype_t::DI_WEST,
        dirtype_t::DI_NORTHEAST => dirtype_t::DI_SOUTHWEST,
        dirtype_t::DI_NORTH => dirtype_t::DI_SOUTH,
        dirtype_t::DI_NORTHWEST => dirtype_t::DI_SOUTHEAST,
        dirtype_t::DI_WEST => dirtype_t::DI_EAST,
        dirtype_t::DI_SOUTHWEST => dirtype_t::DI_NORTHEAST,
        dirtype_t::DI_SOUTH => dirtype_t::DI_NORTH,
        dirtype_t::DI_SOUTHEAST => dirtype_t::DI_NORTHWEST,
        _ => dirtype_t::DI_NODIR,
    }
}

/// Turning around twice faces the first way again.
pub proof fn lemma_opposite_involutive(d: dirtype_t)
    requires
        d != dirtype_t::NUMDIRS,
    ensures
        opposite_of(opposite_of(d)) == d,
{
}

/// The east-west part of the way to the target: east or west when it is
/// more than ten map units off, else none.
pub open spec fn x_dir(deltax: int) -> dirtype_t {
    if deltax > 10 * FRACUNIT {
        dirtype_t::DI_EAST
    } else if deltax < -10 * FRACUNIT {
        dirtype_t::DI_WEST
    } else {
        dirtype_t::DI_NODIR
    }
}

/// The north-south part of the way to the target.
pub open spec fn y_dir(deltay: int) -> dirtype_t {
    if deltay < -10 * FRACUNIT {
        dirtype_t::DI_SOUTH
    } else if deltay > 10 * FRACUNIT {
        dirtype_t::DI_NORTH
    } else {
        dirtype_t::DI_NODIR
    }
}

/// The diagonal towards the target.
pub open spec fn diagonal(deltax: int, deltay: int) -> dirtype_t {
    if deltay < 0 {
        if deltax > 0 {
            dirtype_t::DI_SOUTHEAST
        } else {
            dirtype_t::DI_SOUTHWEST
        }
    } else {
        if deltax > 0 {
            dirtype_t::DI_NORTHEAST
        } else {
            dirtype_t::DI_NORTHWEST
        }
    }
}

/// The direct route a chasing monster tries first: the diagonal towards a
/// target that is off in both axes, unless that means turning around.
pub open spec fn direct_route(olddir: dirtype_t, deltax: int, deltay: int) -> Option<dirtype_t> {
    if x_dir(deltax) != dirtype_t::DI_NODIR && y_dir(deltay) != dirtype_t::DI_NODIR
        && diagonal(deltax, deltay) != opposite_of(olddir) {
        Some(diagonal(deltax, deltay))
    } else {
        None
    }
}

/// The east-west part of a direction: 1 east, -1 west, 0 neither.
pub open spec fn east_part(d: dirtype_t) -> int {
    match d {
        dirtype_t::DI_EAST | dirtype_t::DI_NORTHEAST | dirtype_t::DI_SOUTHEAST => 1,
        dirtype_t::DI_WEST | dirtype_t::DI_NORTHWEST | dirtype_t::DI_SOUTHWEST => -1,
        _ => 0,
    }
}

/// The north-south part of a direction: 1 north, -1 south, 0 neither.
pub open spec fn north_part(d: dirtype_t) -> int {
    match d {
        dirtype_t::DI_NORTH | dirtype_t::DI_NORTHEAST | dirtype_t::DI_NORTHWEST => 1,
        dirtype_t::DI_SOUTH | dirtype_t::DI_SOUTHEAST | dirtype_t::DI_SOUTHWEST => -1,
        _ => 0,
    }
}

/// The sign of `v` beyond ten map units: 1, -1, or 0 within ten units.
pub open spec fn far_sign(v: int) -> int {
    if v > 10 * FRACUNIT {
        1
    } else if v < -10 * FRACUNIT {
        -1
    } else {
        0
    }
}

/// The direct route heads towards the target: it is taken only where the
/// target is more than ten units off in both axes, it then goes towards it
/// in each axis, and it never turns the monster around. Where the target
/// is that far off in both axes and turning around would not head towards
/// it, the direct route is taken.
pub proof fn lemma_direct_route_heads_to_target(olddir: dirtype_t, deltax: int, deltay: int)
    ensures
        direct_route(olddir, deltax, deltay) matches Some(d) ==> {
            &&& far_sign(deltax) != 0 && far_sign(deltay) != 0
            &&& east_part(d) == far_sign(deltax)
            &&& north_part(d) == far_sign(deltay)
            &&& d != opposite_of(olddir)
        },
        far_sign(deltax) != 0 && far_sign(deltay) != 0 && !(east_part(opposite_of(olddir)) == far_sign(deltax)
            && north_part(opposite_of(olddir)) == far_sign(deltay)) ==> direct_route(olddir, deltax, deltay) is Some,
{
}

/// Each way tried after the direct route, but the old direction, heads
/// towards the target along one axis only (where it is more than ten units
/// off that way) and does not turn the monster around.
pub proof fn lemma_axis_routes_head_to_target(olddir: dirtype_t, deltax: int, deltay: int, random: u8)
    ensures
        forall|i: int|
            0 <= i < axis_routes(olddir, deltax, deltay, random).len() ==> {
                let d = #[trigger] axis_routes(olddir, deltax, deltay, random)[i];
                d == olddir || {
                    &&& d != opposite_of(olddir)
                    &&& (east_part(d) != 0 && north_part(d) == 0 && east_part(d) == far_sign(deltax)) || (north_part(d)
                        != 0 && east_part(d) == 0 && north_part(d) == far_sign(deltay))
                }
            },
{
}

fn x_dir_of(deltax: fixed_t) -> (r: dirtype_t)
    ensures
        r == x_dir(deltax as int),
{
    if deltax > 10 * FRACUNIT {
        dirtype_t::DI_EAST
    } else if deltax < -10 * FRACUNIT {
        dirtype_t::DI_WEST
    } else {
        dirtype_t::DI_NODIR
    }
}

fn y_dir_of(deltay: fixed_t) -> (r: dirtype_t)
    ensures
        r == y_dir(deltay as int),
{
    if deltay < -10 * FRACUNIT {
        dirtype_t::DI_SOUTH
    } else if deltay > 10 * FRACUNIT {
        dirtype_t::DI_NORTH
    } else {
        dirtype_t::DI_NODIR
    }
}

/// First step of choosing a chase direction: the direct route, if any
/// (see `direct_route`). The monster at `deltax`, `deltay` from its target
/// last walked `olddir`.
pub fn chase_direct(olddir: dirtype_t, deltax: fixed_t, deltay: fixed_t) -> (r: Option<dirtype_t>)
    requires
        olddir != dirtype_t::NUMDIRS,
    ensures
        r == direct_route(olddir, deltax as int, deltay as int),
{
    let turnaround = opposite(olddir);
    if x_dir_of(deltax) != dirtype_t::DI_NODIR && y_dir_of(deltay) != dirtype_t::DI_NODIR {
        let d = if deltay < 0 {
            if deltax > 0 {
                dirtype_t::DI_SOUTHEAST
            } else {
                dirtype_t::DI_SOUTHWEST
            }
        } else {
            if deltax > 0 {
                dirtype_t::DI_NORTHEAST
            } else {
                dirtype_t::DI_NORTHWEST
            }
        };
        if d != turnaround {
            return Some(d);
        }
    }
    None
}

/// Absolute value of a fixed-point number, as an integer.
pub open spec fn abs_int(v: int) -> int {
    if v < 0 {
        -v
    } else {
        v
    }
}

fn abs_of(v: fixed_t) -> (r: fixed_t)
    requires
        v != i32::MIN,
    ensures
        r == abs_int(v as int),
{
    if v < 0 {
        -v
    } else {
        v
    }
}

/// `s` followed by `d`, unless `d` is no direction.
pub open spec fn push_dir(s: Seq<dirtype_t>, d: dirtype_t) -> Seq<dirtype_t> {
    if d == dirtype_t::DI_NODIR {
        s
    } else {
        s.push(d)
    }
}

/// Second step: the axis directions towards the target, the larger axis
/// first (or, when `random` is over 200, the north-south one first), each
/// left out where it would turn the monster around; then the old direction.
pub open spec fn axis_routes(olddir: dirtype_t, deltax: int, deltay: int, random: u8) -> Seq<dirtype_t> {
    let t = opposite_of(olddir);
    let swap = random > 200 || abs_int(deltay) > abs_int(deltax);
    let a = if swap {
        y_dir(deltay)
    } else {
        x_dir(deltax)
    };
    let b = if swap {
        x_dir(deltax)
    } else {
        y_dir(deltay)
    };
    let a1 = if a == t {
        dirtype_t::DI_NODIR
    } else {
        a
    };
    let b1 = if b == t {
        dirtype_t::DI_NODIR
    } else {
        b
    };
    push_dir(push_dir(push_dir(Seq::empty(), a1), b1), olddir)
}

fn push_unless_none(v: &mut Vec<dirtype_t>, d: dirtype_t)
    ensures
        final(v)@ == push_dir(old(v)@, d),
{
    if d != dirtype_t::DI_NODIR {
        v.push(d);
    }
}

/// Second step of choosing a chase direction (see `axis_routes`), once the
/// direct route failed; `random` is the next value of the game's random
/// sequence.
pub fn chase_axes(olddir: dirtype_t, deltax: fixed_t, deltay: fixed_t, random: u8) -> (r: Vec<
    dirtype_t,
>)
    requires
        olddir != dirtype_t::NUMDIRS,
        random <= 200 ==> deltax != i32::MIN && deltay != i32::MIN,
    ensures
        r@ == axis_routes(olddir, deltax as int, deltay as int, random),
{
    let turnaround = opposite(olddir);
    let dx = x_dir_of(deltax);
    let dy = y_dir_of(deltay);
    let swap = random > 200 || abs_of(deltay) > abs_of(deltax);
    let (a, b) = if swap {
        (dy, dx)
    } else {
        (dx, dy)
    };
    let mut v: Vec<dirtype_t> = Vec::new();
    push_unless_none(
        &mut v,
        if a == turnaround {
            dirtype_t::DI_NODIR
        } else {
            a
        },
    );
    push_unless_none(
        &mut v,
        if b == turnaround {
            dirtype_t::DI_NODIR
        } else {
            b
        },
    );
    push_unless_none(&mut v, olddir);
    v
}

/// The eight directions from east round to south-east.
pub open spec fn compass() -> Seq<dirtype_t> {
    seq![
        dirtype_t::DI_EAST,
        dirtype_t::DI_NORTHEAST,
        dirtype_t::DI_NORTH,
        dirtype_t::DI_NORTHWEST,
        dirtype_t::DI_WEST,
        dirtype_t::DI_SOUTHWEST,
        dirtype_t::DI_SOUTH,
        dirtype_t::DI_SOUTHEAST,
    ]
}

/// The directions of `s`, in order, without `t`.
pub open spec fn without(s: Seq<dirtype_t>, t: dirtype_t) -> Seq<dirtype_t>
    decreases s.len(),
{
    if s.len() == 0 {
        s
    } else {
        let rest = without(s.drop_last(), t);
        if s.last() == t {
            rest
        } else {
            rest.push(s.last())
        }
    }
}

/// Last step: every compass direction but turning around, from east round
/// (odd `random`) or from south-east back (even), and then turning around.
pub open spec fn search_routes(olddir: dirtype_t, random: u8) -> Seq<dirtype_t> {
    let t = opposite_of(olddir);
    let order = if random & 1 != 0 {
        compass()
    } else {
        compass().reverse()
    };
    push_dir(without(order, t), t)
}

fn compass_at(i: usize) -> (r: dirtype_t)
    requires
        i < 8,
    ensures
        r == compass()[i as int],
{
    match i {
        0 => dirtype_t::DI_EAST,
        1 => dirtype_t::DI_NORTHEAST,
        2 => dirtype_t::DI_NORTH,
        3 => dirtype_t::DI_NORTHWEST,
        4 => dirtype_t::DI_WEST,
        5 => dirtype_t::DI_SOUTHWEST,
        6 => dirtype_t::DI_SOUTH,
        _ => dirtype_t::DI_SOUTHEAST,
    }
}

/// Last step of choosing a chase direction (see `search_routes`), once the
/// others failed; `random` is the next value of the game's random
/// sequence. Where all of these fail too, the monster stands still.
pub fn chase_search(olddir: dirtype_t, random: u8) -> (r: Vec<dirtype_t>)
    requires
        olddir != dirtype_t::NUMDIRS,
    ensures
        r@ == search_routes(olddir, random),
{
    let turnaround = opposite(olddir);
    let forward = random & 1 != 0;
    let ghost order = if forward {
        compass()
    } else {
        compass().reverse()
    };
    let mut v: Vec<dirtype_t> = Vec::new();
    let mut i: usize = 0;
    while i < 8
        invariant
            i <= 8,
            order.len() == 8,
            order == if forward {
                compass()
            } else {
                compass().reverse()
            },
            v@ == without(order.take(i as int), turnaround),
        decreases 8 - i,
    {
        let d = if forward {
            compass_at(i)
        } else {
            compass_at(7 - i)
        };
        assert(d == order[i as int]);
        assert(order.take(i as int + 1).drop_last() =~= order.take(i as int));
        if d != turnaround {
            v.push(d);
        }
        i += 1;
    }
    assert(order.take(8) =~= order);
    push_unless_none(&mut v, turnaround);
    v
}

/// The kind of a monster, as far as the attack and boss rules tell kinds
/// apart.
#[derive(Debug, Clone, Copy, PartialEq, Eq, Structural)]
pub enum mobjtype_t {
    /// Arch-vile.
    MT_VILE,
    /// Revenant.
    MT_UNDEAD,
    /// Mancubus.
    MT_FATSO,
    /// Arachnotron.
    MT_BABY,
    /// Baron of Hell.
    MT_BRUISER,
    /// Lost soul.
    MT_SKULL,
    /// Cyberdemon.
    MT_CYBORG,
    /// Spider Mastermind.
    MT_SPIDER,
    /// Hell knight.
    MT_KNIGHT,
    /// A player's body.
    MT_PLAYER,
    /// Any other kind of thing, by its number.
    MT_OTHER(u16),
}

/// Thing flag: the thing was just hit, and fights back.
pub const MF_JUSTHIT: u32 = 64;

/// Reach of a melee attack.
pub const MELEERANGE: i32 = 64 * FRACUNIT;

/// The distance between two points can be estimated without overflow.
pub open spec fn distance_fits(dx: int, dy: int) -> bool {
    &&& fits_i32(dx)
    &&& fits_i32(dy)
    &&& dx != i32::MIN
    &&& dy != i32::MIN
    &&& fits_i32((if dx < 0 { -dx } else { dx }) + (if dy < 0 { -dy } else { dy }))
}

/// Whether a monster at (x, y) can hit its target at (tx, ty), whose radius
/// is `radius`, in melee: it has a target, the target is closer than the
/// melee range less 20 units plus the target's radius, and it sees the
/// target (`sight`).
pub fn P_CheckMeleeRange(
    has_target: bool,
    x: fixed_t,
    y: fixed_t,
    tx: fixed_t,
    ty: fixed_t,
    radius: fixed_t,
    sight: bool,
) -> (r: bool)
    requires
        has_target ==> distance_fits(tx - x, ty - y),
        has_target ==> radius <= i32::MAX - (MELEERANGE - 20 * FRACUNIT),
    ensures
        r == (has_target && aprox_distance(tx - x, ty - y) < MELEERANGE - 20 * FRACUNIT + radius
            && sight),
{
    if !has_target {
        return false;
    }
    let dist = P_AproxDistance(tx - x, ty - y);
    if dist >= MELEERANGE - 20 * FRACUNIT + radius {
        return false;
    }
    sight
}

/// Whether a monster attacks with a missile.
#[derive(Debug, Clone, Copy, PartialEq, Eq, Structural)]
pub enum MissileChance {
    Never,
    Always,
    /// It attacks when the next random number (0 to 255) is at least this.
    Roll(i32),
}

/// The chance number of a monster of kind `kind` with its target `dx`, `dy`
/// away: the distance estimate less 64 units (less 128 more without a melee
/// attack) in whole units, rounded down; a revenant halves it, and so do a
/// cyberdemon, a spider mastermind and a lost soul; at most 200, and at most
/// 160 for a cyberdemon. `None` where the monster never fires: an arch-vile
/// farther than 896 units, a revenant closer than 196.
pub open spec fn missile_roll(kind: mobjtype_t, has_melee: bool, dx: int, dy: int) -> Option<int> {
    let d0 = aprox_distance(dx, dy) - 64 * FRACUNIT - if has_melee {
        0
    } else {
        128 * FRACUNIT
    };
    let d1 = d0 / 65536;
    if kind == mobjtype_t::MT_VILE && d1 > 14 * 64 {
        None
    } else if kind == mobjtype_t::MT_UNDEAD && d1 < 196 {
        None
    } else {
        let d2 = if kind == mobjtype_t::MT_UNDEAD || kind == mobjtype_t::MT_CYBORG || kind
            == mobjtype_t::MT_SPIDER || kind == mobjtype_t::MT_SKULL {
            d1 / 2
        } else {
            d1
        };
        let d3 = if d2 > 200 {
            200
        } else {
            d2
        };
        Some(
            if kind == mobjtype_t::MT_CYBORG && d3 > 160 {
                160
            } else {
                d3
            },
        )
    }
}

/// The farther the target, the less readily a monster fires: the number
/// the random roll must reach never falls as the estimated distance grows;
/// it is never over 200 (160 for a cyberdemon); and a monster without a
/// melee attack needs no higher a roll than one with (it fires more
/// readily).
pub proof fn lemma_missile_roll_grows_with_distance(kind: mobjtype_t, has_melee: bool, dx1: int, dy1: int, dx2: int, dy2: int)
    requires
        aprox_distance(dx1, dy1) <= aprox_distance(dx2, dy2),
    ensures
        missile_roll(kind, has_melee, dx1, dy1) matches Some(r1) ==> r1 <= 200 && (kind == mobjtype_t::MT_CYBORG ==> r1 <= 160),
        missile_roll(kind, has_melee, dx1, dy1) is Some && missile_roll(kind, has_melee, dx2, dy2) is Some ==> missile_roll(
            kind,
            has_melee,
            dx1,
            dy1,
        )->0 <= missile_roll(kind, has_melee, dx2, dy2)->0,
        missile_roll(kind, true, dx1, dy1) is Some && missile_roll(kind, false, dx1, dy1) is Some ==> missile_roll(
            kind,
            true,
            dx1,
            dy1,
        )->0 >= missile_roll(kind, false, dx1, dy1)->0,
{
    let a = aprox_distance(dx1, dy1);
    let b = aprox_distance(dx2, dy2);
    let k = if has_melee { 0int } else { 128 * FRACUNIT as int };
    assert((a - 64 * FRACUNIT - k) / 65536 <= (b - 64 * FRACUNIT - k) / 65536) by (nonlinear_arith)
        requires
            a <= b,
    ;
    assert((a - 64 * FRACUNIT) / 65536 >= (a - 64 * FRACUNIT - 128 * FRACUNIT) / 65536) by (nonlinear_arith);
}

/// Whether a monster at (x, y) of kind `kind` fires a missile at its target
/// at (tx, ty): never when it cannot see the target (`sight`); always when
/// it was just hit, which clears that flag; never while its reaction time
/// runs; otherwise by the chance of `missile_roll`.
pub fn P_CheckMissileRange(
    flags: &mut u32,
    reactiontime: i32,
    kind: mobjtype_t,
    has_melee: bool,
    x: fixed_t,
    y: fixed_t,
    tx: fixed_t,
    ty: fixed_t,
    sight: bool,
) -> (r: MissileChance)
    requires
        sight && *old(flags) & MF_JUSTHIT == 0 && reactiontime == 0 ==> distance_fits(
            x - tx,
            y - ty,
        ),
    ensures
        !sight ==> r == MissileChance::Never && *final(flags) == *old(flags),
        sight && *old(flags) & MF_JUSTHIT != 0 ==> r == MissileChance::Always && *final(flags)
            == *old(flags) & !MF_JUSTHIT,
        sight && *old(flags) & MF_JUSTHIT == 0 ==> *final(flags) == *old(flags),
        sight && *old(flags) & MF_JUSTHIT == 0 && reactiontime != 0 ==> r == MissileChance::Never,
        sight && *old(flags) & MF_JUSTHIT == 0 && reactiontime == 0 ==> r == match missile_roll(
            kind,
            has_melee,
            x - tx,
            y - ty,
        ) {
            Some(d) => MissileChance::Roll(d as i32),
            None => MissileChance::Never,
        },
{
    if !sight {
        return MissileChance::Never;
    }
    if *flags & MF_JUSTHIT != 0 {
        *flags = *flags & !MF_JUSTHIT;
        return MissileChance::Always;
    }
    if reactiontime != 0 {
        return MissileChance::Never;
    }
    let mut dist = P_AproxDistance(x - tx, y - ty) - 64 * FRACUNIT;
    if !has_melee {
        dist = dist - 128 * FRACUNIT;
    }
    assert(dist >> 16u32 == dist / 65536) by (bit_vector);
    dist = dist >> 16u32;
    if kind == mobjtype_t::MT_VILE && dist > 14 * 64 {
        return MissileChance::Never;
    }
    if kind == mobjtype_t::MT_UNDEAD {
        if dist < 196 {
            return MissileChance::Never;
        }
        assert(dist >> 1u32 == dist / 2) by (bit_vector);
        dist = dist >> 1u32;
    }
    if kind == mobjtype_t::MT_CYBORG || kind == mobjtype_t::MT_SPIDER || kind
        == mobjtype_t::MT_SKULL {
        assert(dist >> 1u32 == dist / 2) by (bit_vector);
        dist = dist >> 1u32;
    }
    if dist > 200 {
        dist = 200;
    }
    if kind == mobjtype_t::MT_CYBORG && dist > 160 {
        dist = 160;
    }
    MissileChance::Roll(dist)
}

} // verus!
