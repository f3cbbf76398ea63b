//! The vertical movement of a thing in a tic: rising and falling with its
//! speed, floating towards its target, gravity, and stopping at the floor
//! and the ceiling; a player's view steps up and squats on hard landings.

use vstd::prelude::*;

use crate::fixed::{FRACUNIT, fixed_t};
use crate::geom::{P_AproxDistance, aprox_distance, fits_i32};
use crate::enemy::distance_fits;
use crate::user::{PlayerView, VIEWHEIGHT};

verus! {

/// Thing flags that the vertical movement reads.
pub const MF_NOGRAVITY: u32 = 512;
pub const MF_NOCLIP: u32 = 0x1000;
pub const MF_FLOAT: u32 = 0x4000;
pub const MF_MISSILE: u32 = 0x10000;
pub const MF_INFLOAT: u32 = 0x200000;
pub const MF_SKULLFLY: u32 = 0x1000000;

/// How fast a floating thing rises or sinks.
pub const FLOATSPEED: i32 = 4 * FRACUNIT;

/// How much a falling thing speeds up each tic.
pub const GRAVITY: i32 = FRACUNIT;

/// What the vertical movement reads and sets of a thing.
#[derive(Debug, Clone, Copy, PartialEq, Eq, Structural)]
pub struct ZBody {
    pub x: fixed_t,
    pub y: fixed_t,
    pub z: fixed_t,
    pub momz: fixed_t,
    pub floorz: fixed_t,
    pub ceilingz: fixed_t,
    pub height: fixed_t,
    pub flags: u32,
}

/// Where a thing's target is.
#[derive(Debug, Clone, Copy, PartialEq, Eq, Structural)]
pub struct TargetPos {
    pub x: fixed_t,
    pub y: fixed_t,
    pub z: fixed_t,
}

/// What the vertical movement leaves to its caller: the player says "oof"
/// after a hard landing; a missile that hit the floor or the ceiling
/// explodes.
#[derive(Debug, Clone, Copy, PartialEq, Eq, Structural)]
pub struct ZOutcome {
    pub oof: bool,
    pub explode: bool,
}

/// A player below the floor (after a step up) sees the view sink by the
/// step and then come back up in eighths.
pub open spec fn step_up(v: PlayerView, mo: ZBody, is_player: bool) -> PlayerView {
    if is_player && mo.z < mo.floorz {
        let h = v.viewheight - (mo.floorz - mo.z);
        PlayerView { viewheight: h as i32, deltaviewheight: ((VIEWHEIGHT - h) / 8) as i32, ..v }
    } else {
        v
    }
}

/// The height after floating: a floating thing with a target, not
/// charging and not already floating, sinks or rises by `FLOATSPEED`
/// towards the target's middle height when it is closer than three times
/// the height difference.
pub open spec fn floated(mo: ZBody, z: int, target: Option<TargetPos>) -> int {
    match target {
        Some(t) => if mo.flags & MF_FLOAT != 0 && mo.flags & MF_SKULLFLY == 0 && mo.flags & MF_INFLOAT
            == 0 {
            let dist = aprox_distance(mo.x - t.x, mo.y - t.y);
            let delta = (t.z + mo.height / 2) - z;
            if delta < 0 && dist < -delta * 3 {
                z - FLOATSPEED
            } else if delta > 0 && dist < delta * 3 {
                z + FLOATSPEED
            } else {
                z
            }
        } else {
            z
        },
        None => z,
    }
}

/// The height the thing reaches before meeting the floor or ceiling.
pub open spec fn raw_z(mo: ZBody, target: Option<TargetPos>) -> int {
    floated(mo, mo.z + mo.momz, target)
}

/// The thing is a missile that explodes on hitting a surface.
pub open spec fn explodes(mo: ZBody) -> bool {
    mo.flags & MF_MISSILE != 0 && mo.flags & MF_NOCLIP == 0
}

/// The vertical speed after meeting the floor: a charging skull bounces;
/// a falling thing stops.
pub open spec fn floor_momz(mo: ZBody) -> int {
    let m = if mo.flags & MF_SKULLFLY != 0 {
        -mo.momz
    } else {
        mo.momz as int
    };
    if m < 0 {
        0
    } else {
        m
    }
}

/// The speed after meeting the floor before it stops: a player landing
/// faster than eight gravities squats by an eighth of it.
pub open spec fn hard_landing(mo: ZBody, is_player: bool) -> bool {
    let m = if mo.flags & MF_SKULLFLY != 0 {
        -mo.momz
    } else {
        mo.momz as int
    };
    is_player && m < -GRAVITY * 8
}

/// The speed of a thing in the air after gravity: twice gravity from rest,
/// else one more.
pub open spec fn fallen_momz(mo: ZBody) -> int {
    if mo.flags & MF_NOGRAVITY != 0 {
        mo.momz as int
    } else if mo.momz == 0 {
        -GRAVITY * 2
    } else {
        mo.momz - GRAVITY
    }
}

/// The arithmetic of the vertical movement fits in 32 bits.
pub open spec fn zmove_fits(mo: ZBody, v: PlayerView, target: Option<TargetPos>, is_player: bool) -> bool {
    &&& (is_player && mo.z < mo.floorz ==> fits_i32(mo.floorz - mo.z) && fits_i32(
        v.viewheight - (mo.floorz - mo.z),
    ) && fits_i32(VIEWHEIGHT - (v.viewheight - (mo.floorz - mo.z))))
    &&& fits_i32(mo.z + mo.momz)
    &&& match target {
        Some(t) => mo.flags & MF_FLOAT != 0 && mo.flags & MF_SKULLFLY == 0 && mo.flags & MF_INFLOAT
            == 0 ==> {
            let z = mo.z + mo.momz;
            &&& distance_fits(mo.x - t.x, mo.y - t.y)
            &&& fits_i32(t.z + mo.height / 2)
            &&& fits_i32((t.z + mo.height / 2) - z)
            &&& fits_i32(((t.z + mo.height / 2) - z) * 3)
            &&& fits_i32(z - FLOATSPEED)
            &&& fits_i32(z + FLOATSPEED)
        },
        None => true,
    }
    &&& mo.momz != i32::MIN
    &&& (raw_z(mo, target) > mo.floorz ==> fallen_momz(mo) > i32::MIN)
    &&& (raw_z(mo, target) > mo.floorz && mo.flags & MF_NOGRAVITY == 0 ==> fits_i32(mo.momz
        - GRAVITY))
    &&& fits_i32(raw_z(mo, target) + mo.height)
    &&& fits_i32(mo.floorz + mo.height)
    &&& fits_i32(mo.ceilingz - mo.height)
}

/// One tic of a thing's vertical movement (see the spec functions above,
/// in order): the player's view steps up; the thing moves by its speed and
/// floats; at or below the floor it stops there (a missile then explodes
/// and nothing else happens); in the air gravity pulls it; above the
/// ceiling it stops there, a charging skull bouncing back, and a missile
/// explodes.
pub fn P_ZMovement(
    mo: &mut ZBody,
    view: &mut PlayerView,
    is_player: bool,
    target: Option<TargetPos>,
) -> (r: ZOutcome)
    requires
        zmove_fits(*old(mo), *old(view), target, is_player),
    ensures
        ({
            let m = *old(mo);
            let z1 = raw_z(m, target);
            let v1 = step_up(*old(view), m, is_player);
            if z1 <= m.floorz {
                let landed = hard_landing(m, is_player);
                let m2 = ZBody { z: m.floorz, momz: floor_momz(m) as i32, ..m };
                &&& r.oof == landed
                &&& *final(view) == if landed {
                    PlayerView {
                        deltaviewheight: ((if m.flags & MF_SKULLFLY != 0 {
                            -m.momz
                        } else {
                            m.momz as int
                        }) / 8) as i32,
                        ..v1
                    }
                } else {
                    v1
                }
                &&& if explodes(m) {
                    r.explode && *final(mo) == m2
                } else {
                    r.explode == (m2.z + m.height > m.ceilingz && explodes(m))
                        && *final(mo) == ceiling_clip(m2)
                }
            } else {
                let m2 = ZBody { z: z1 as i32, momz: fallen_momz(m) as i32, ..m };
                &&& !r.oof
                &&& *final(view) == v1
                &&& r.explode == (m2.z + m.height > m.ceilingz && explodes(m))
                &&& *final(mo) == ceiling_clip(m2)
            }
        }),
{
    let ghost m0 = *mo;
    if is_player && mo.z < mo.floorz {
        view.viewheight = view.viewheight - (mo.floorz - mo.z);
        let d = VIEWHEIGHT - view.viewheight;
        assert(d >> 3u32 == d / 8) by (bit_vector);
        view.deltaviewheight = d >> 3u32;
    }
    mo.z = mo.z + mo.momz;
    if mo.flags & MF_FLOAT != 0 {
        if let Some(t) = target {
            if mo.flags & MF_SKULLFLY == 0 && mo.flags & MF_INFLOAT == 0 {
                let dist = P_AproxDistance(mo.x - t.x, mo.y - t.y);
                let h = mo.height;
                assert(h >> 1u32 == h / 2) by (bit_vector);
                let delta = (t.z + (h >> 1u32)) - mo.z;
                if delta < 0 && dist < -delta * 3 {
                    mo.z = mo.z - FLOATSPEED;
                } else if delta > 0 && dist < delta * 3 {
                    mo.z = mo.z + FLOATSPEED;
                }
            }
        }
    }
    assert(mo.z == raw_z(m0, target));
    let mut oof = false;
    if mo.z <= mo.floorz {
        if mo.flags & MF_SKULLFLY != 0 {
            mo.momz = -mo.momz;
        }
        if mo.momz < 0 {
            if is_player && mo.momz < -GRAVITY * 8 {
                let m = mo.momz;
                assert(m >> 3u32 == m / 8) by (bit_vector);
                view.deltaviewheight = m >> 3u32;
                oof = true;
            }
            mo.momz = 0;
        }
        mo.z = mo.floorz;
        if mo.flags & MF_MISSILE != 0 && mo.flags & MF_NOCLIP == 0 {
            return ZOutcome { oof, explode: true };
        }
    } else if mo.flags & MF_NOGRAVITY == 0 {
        if mo.momz == 0 {
            mo.momz = -GRAVITY * 2;
        } else {
            mo.momz = mo.momz - GRAVITY;
        }
    }
    let mut explode = false;
    if mo.z + mo.height > mo.ceilingz {
        if mo.momz > 0 {
            mo.momz = 0;
        }
        mo.z = mo.ceilingz - mo.height;
        if mo.flags & MF_SKULLFLY != 0 {
            mo.momz = -mo.momz;
        }
        if mo.flags & MF_MISSILE != 0 && mo.flags & MF_NOCLIP == 0 {
            explode = true;
        }
    }
    ZOutcome { oof, explode }
}

/// A thing reaching above the ceiling stops there: an upward speed stops
/// (a charging skull bounces back).
pub open spec fn ceiling_clip(m: ZBody) -> ZBody {
    if m.z + m.height > m.ceilingz {
        let s = if m.momz > 0 {
            0
        } else {
            m.momz as int
        };
        ZBody {
            z: (m.ceilingz - m.height) as i32,
            momz: (if m.flags & MF_SKULLFLY != 0 {
                -s
            } else {
                s
            }) as i32,
            ..m
        }
    } else {
        m
    }
}

} // verus!
