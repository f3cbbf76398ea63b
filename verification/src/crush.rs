//! What a moving floor or ceiling does to the things near it: each is
//! fitted between its new floor and ceiling; bodies that no longer fit are
//! crushed to gibs, dropped items vanish, and living things are squeezed
//! (and hurt every fourth tic when the mover crushes).

use vstd::prelude::*;

use crate::fixed::fixed_t;
use crate::geom::fits_i32;

verus! {

/// Thing flags that crushing reads.
pub const MF_SOLID: u32 = 2;
pub const MF_SHOOTABLE: u32 = 4;
pub const MF_DROPPED: u32 = 0x20000;

/// What crushing reads and sets of a thing.
#[derive(Debug, Clone, Copy, PartialEq, Eq, Structural)]
pub struct CrushThing {
    pub z: fixed_t,
    pub floorz: fixed_t,
    pub ceilingz: fixed_t,
    pub height: fixed_t,
    pub radius: fixed_t,
    pub health: i32,
    pub flags: u32,
}

/// The floor and ceiling heights at a thing's position after the move (as
/// the position check finds them).
#[derive(Debug, Clone, Copy, PartialEq, Eq, Structural)]
pub struct Clearance {
    pub floorz: fixed_t,
    pub ceilingz: fixed_t,
}

/// A thing fitted to new floor and ceiling heights: a thing standing on
/// its floor moves with it; another keeps its height unless the ceiling
/// pushes it down.
pub open spec fn height_clipped(t: CrushThing, c: Clearance) -> CrushThing {
    let z = if t.z == t.floorz {
        c.floorz as int
    } else if t.z + t.height > c.ceilingz {
        c.ceilingz - t.height
    } else {
        t.z as int
    };
    CrushThing { z: z as i32, floorz: c.floorz, ceilingz: c.ceilingz, ..t }
}

/// The thing still fits between its floor and ceiling.
pub open spec fn fits_between(c: Clearance, height: i32) -> bool {
    c.ceilingz - c.floorz >= height
}

/// Fits a thing to the floor and ceiling heights at its position (see
/// `height_clipped`); returns whether it fits between them.
pub fn P_ThingHeightClip(thing: &mut CrushThing, c: Clearance) -> (r: bool)
    requires
        fits_i32(c.ceilingz - old(thing).height),
        fits_i32(old(thing).z + old(thing).height),
        fits_i32(c.ceilingz - c.floorz),
    ensures
        *final(thing) == height_clipped(*old(thing), c),
        r == fits_between(c, old(thing).height),
{
    let onfloor = thing.z == thing.floorz;
    thing.floorz = c.floorz;
    thing.ceilingz = c.ceilingz;
    if onfloor {
        thing.z = thing.floorz;
    } else if thing.z + thing.height > thing.ceilingz {
        thing.z = thing.ceilingz - thing.height;
    }
    thing.ceilingz - thing.floorz >= thing.height
}

/// What crushing did to a thing; the caller carries out the effects on
/// the thing's state: gibbing sets the gibs frame, removing takes the thing
/// out of the level, hurting deals 10 damage and sprays blood.
#[derive(Debug, Clone, Copy, PartialEq, Eq, Structural)]
pub enum CrushEffect {
    /// It fits.
    Fits,
    /// A body crushed to gibs: no longer solid, of no height or radius.
    Gibbed,
    /// A dropped item crushed away.
    Removed,
    /// Something that cannot be hurt stays as it is.
    Untouched,
    /// A living thing that does not fit.
    Squeezed,
    /// A living thing that does not fit, hurt by the crushing mover.
    Hurt,
}

/// What crushing does to a thing with clearance `c` (see `CrushEffect`);
/// `crunch` tells whether the mover crushes, and hurting happens on tics
/// divisible by four.
pub open spec fn crush_effect(t: CrushThing, c: Clearance, crunch: bool, leveltime: u32) -> CrushEffect {
    if fits_between(c, t.height) {
        CrushEffect::Fits
    } else if t.health <= 0 {
        CrushEffect::Gibbed
    } else if t.flags & MF_DROPPED != 0 {
        CrushEffect::Removed
    } else if t.flags & MF_SHOOTABLE == 0 {
        CrushEffect::Untouched
    } else if crunch && leveltime & 3 == 0 {
        CrushEffect::Hurt
    } else {
        CrushEffect::Squeezed
    }
}

/// The thing after crushing: fitted to its clearance, and a gibbed body no
/// longer solid and flat.
pub open spec fn crushed(t: CrushThing, c: Clearance, crunch: bool, leveltime: u32) -> CrushThing {
    let h = height_clipped(t, c);
    if crush_effect(t, c, crunch, leveltime) == CrushEffect::Gibbed {
        CrushThing { flags: h.flags & !MF_SOLID, height: 0, radius: 0, ..h }
    } else {
        h
    }
}

/// The thing can be fitted to its clearance in 32 bits.
pub open spec fn clip_fits(t: CrushThing, c: Clearance) -> bool {
    &&& fits_i32(c.ceilingz - t.height)
    &&& fits_i32(t.z + t.height)
    &&& fits_i32(c.ceilingz - c.floorz)
}

/// Crushes one thing (see `crush_effect` and `crushed`).
pub fn PIT_ChangeSector(thing: &mut CrushThing, c: Clearance, crunch: bool, leveltime: u32) -> (r:
    CrushEffect)
    requires
        clip_fits(*old(thing), c),
    ensures
        r == crush_effect(*old(thing), c, crunch, leveltime),
        *final(thing) == crushed(*old(thing), c, crunch, leveltime),
{
    if P_ThingHeightClip(thing, c) {
        return CrushEffect::Fits;
    }
    if thing.health <= 0 {
        thing.flags = thing.flags & !MF_SOLID;
        thing.height = 0;
        thing.radius = 0;
        return CrushEffect::Gibbed;
    }
    if thing.flags & MF_DROPPED != 0 {
        return CrushEffect::Removed;
    }
    if thing.flags & MF_SHOOTABLE == 0 {
        return CrushEffect::Untouched;
    }
    if crunch && leveltime & 3 == 0 {
        CrushEffect::Hurt
    } else {
        CrushEffect::Squeezed
    }
}

/// Some thing among the first `n` does not fit.
pub open spec fn any_nofit(things: Seq<CrushThing>, cs: Seq<Clearance>, crunch: bool, leveltime: u32, n: int) -> bool {
    exists|i: int|
        0 <= i < n && {
            let e = #[trigger] crush_effect(things[i], cs[i], crunch, leveltime);
            e == CrushEffect::Squeezed || e == CrushEffect::Hurt
        }
}

/// Re-fits the things near a moved floor or ceiling, in the order the
/// blocks around the sector list them, each to its clearance `cs[i]` (see
/// `PIT_ChangeSector`). Returns whether some living thing does not fit
/// (which stops or slows the mover), and what happened to each thing.
pub fn P_ChangeSector(
    things: &mut Vec<CrushThing>,
    cs: &Vec<Clearance>,
    crunch: bool,
    leveltime: u32,
) -> (r: (bool, Vec<CrushEffect>))
    requires
        cs.len() == old(things).len(),
        forall|i: int| 0 <= i < cs.len() ==> #[trigger] clip_fits(old(things)@[i], cs@[i]),
    ensures
        final(things).len() == old(things).len(),
        forall|i: int|
            0 <= i < cs.len() ==> #[trigger] final(things)@[i] == crushed(
                old(things)@[i],
                cs@[i],
                crunch,
                leveltime,
            ),
        r.1.len() == cs.len(),
        forall|i: int|
            0 <= i < cs.len() ==> #[trigger] r.1@[i] == crush_effect(
                old(things)@[i],
                cs@[i],
                crunch,
                leveltime,
            ),
        r.0 == any_nofit(old(things)@, cs@, crunch, leveltime, cs.len() as int),
{
    let n = things.len();
    let mut nofit = false;
    let mut effects: Vec<CrushEffect> = Vec::new();
    let mut i: usize = 0;
    while i < n
        invariant
            i <= n,
            n == things.len(),
            n == cs.len(),
            n == old(things).len(),
            effects.len() == i,
            forall|j: int| 0 <= j < n ==> #[trigger] clip_fits(old(things)@[j], cs@[j]),
            forall|j: int|
                0 <= j < n ==> #[trigger] things@[j] == if j < i {
                    crushed(old(things)@[j], cs@[j], crunch, leveltime)
                } else {
                    old(things)@[j]
                },
            forall|j: int|
                0 <= j < i ==> #[trigger] effects@[j] == crush_effect(
                    old(things)@[j],
                    cs@[j],
                    crunch,
                    leveltime,
                ),
            nofit == any_nofit(old(things)@, cs@, crunch, leveltime, i as int),
        decreases n - i,
    {
        let mut t = things[i];
        let e = PIT_ChangeSector(&mut t, cs[i], crunch, leveltime);
        things.set(i, t);
        if e == CrushEffect::Squeezed || e == CrushEffect::Hurt {
            nofit = true;
        }
        effects.push(e);
        proof {
            if nofit && !any_nofit(old(things)@, cs@, crunch, leveltime, i as int) {
                assert(crush_effect(old(things)@[i as int], cs@[i as int], crunch, leveltime) == e);
            }
            if any_nofit(old(things)@, cs@, crunch, leveltime, i + 1) && !(e == CrushEffect::Squeezed || e
                == CrushEffect::Hurt) {
                let k = choose|k: int|
                    0 <= k < i + 1 && {
                        let e2 = #[trigger] crush_effect(old(things)@[k], cs@[k], crunch, leveltime);
                        e2 == CrushEffect::Squeezed || e2 == CrushEffect::Hurt
                    };
                assert(k != i);
            }
        }
        i += 1;
    }
    (nofit, effects)
}

} // verus!
