//! Kinds and timings of the other sector movers: platforms, doors and
//! ceilings.

use vstd::prelude::*;

use crate::fixed::fixed_t;

verus! {

/// State of a platform.
#[derive(Debug, Clone, Copy, PartialEq, Eq, Structural)]
pub enum plat_e {
    up,
    down,
    waiting,
    in_stasis,
}

/// Kinds of platform.
#[derive(Debug, Clone, Copy, PartialEq, Eq, Structural)]
pub enum plattype_e {
    perpetualRaise,
    downWaitUpStay,
    raiseAndChange,
    raiseToNearestAndChange,
    blazeDWUS,
}

/// Seconds a platform waits at each end.
pub const PLATWAIT: i32 = 3;

/// Normal platform speed: one map unit per tic.
pub const PLATSPEED: fixed_t = 65536;

/// At most this many platforms can be stopped and restarted.
pub const MAXPLATS: usize = 30;

/// Kinds of door action.
#[derive(Debug, Clone, Copy, PartialEq, Eq, Structural)]
pub enum vldoor_e {
    normal,
    close30ThenOpen,
    close,
    open,
    raiseIn5Mins,
    blazeRaise,
    blazeOpen,
    blazeClose,
}

/// Normal door speed: two map units per tic.
pub const VDOORSPEED: fixed_t = 131072;

/// Tics a door waits at the top.
pub const VDOORWAIT: u32 = 150;

/// Kinds of ceiling movement.
#[derive(Debug, Clone, Copy, PartialEq, Eq, Structural)]
pub enum ceiling_e {
    lowerToFloor,
    raiseToHighest,
    lowerAndCrush,
    crushAndRaise,
    fastCrushAndRaise,
    silentCrushAndRaise,
}

/// Normal ceiling speed: one map unit per tic.
pub const CEILSPEED: fixed_t = 65536;

/// Tics a ceiling waits.
pub const CEILWAIT: u32 = 150;

/// At most this many ceilings can be stopped and restarted.
pub const MAXCEILINGS: usize = 30;

} // verus!
