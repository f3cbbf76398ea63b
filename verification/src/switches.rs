//! What happens when a line with a special is crossed, shot or used, and
//! the wall switches that show it.

use vstd::prelude::*;

use crate::floors::{floor_e, stair_e};
use crate::level::{Line, ML_SECRET, Side};
use crate::lumps::{R_TextureNumForName, texture_num};
use crate::movers::{ceiling_e, plattype_e, vldoor_e};
use crate::player::GameMode_t;
use crate::sounds::sfxenum_t;

verus! {

/// A pair of switch textures (off and on) and the first game episode that
/// has them.
#[derive(Debug, Clone, Copy)]
pub struct switchlist_t {
    pub name1: [u8; 9],
    pub name2: [u8; 9],
    pub episode: i16,
}

/// Which wall texture of a side a switch is on.
#[derive(Debug, Clone, Copy, PartialEq, Eq, Structural)]
pub enum bwhere_e {
    top,
    middle,
    bottom,
}

/// A pressed button, counting down until it pops back out.
#[derive(Debug, Clone, Copy, PartialEq, Eq, Structural)]
pub struct button_t {
    pub line: usize,
    pub where_: bwhere_e,
    pub btexture: i32,
    pub btimer: u32,
}

/// At most this many switch pairs.
pub const MAXSWITCHES: usize = 50;

/// Four players, four buttons each at once, at most.
pub const MAXBUTTONS: usize = 16;

/// One second, in tics.
pub const BUTTONTIME: u32 = 35;

/// An action that a line special sets off in the sectors carrying the
/// line's tag (or, for a few, in the level as a whole).
#[derive(Debug, Clone, Copy, PartialEq, Eq, Structural)]
pub enum LineAction {
    Door(vldoor_e),
    LockedDoor(vldoor_e),
    /// The door on the line's back side (manual doors).
    VerticalDoor,
    Floor(floor_e),
    Ceiling(ceiling_e),
    /// Ceiling up to the highest around, and floor down to the lowest.
    CeilingAndFloor(ceiling_e, floor_e),
    Stairs(stair_e),
    /// A platform of the given kind, and the height in map units by which
    /// a raise-and-change platform rises.
    Plat(plattype_e, i32),
    StopPlat,
    CeilingCrushStop,
    /// Light up the tagged sectors: to the given level, or to the brightest
    /// neighbour where it is 0.
    LightTurnOn(i32),
    StartLightStrobing,
    TurnTagLightsOff,
    Donut,
    Teleport,
    ExitLevel,
    SecretExitLevel,
}

/// What kind of thing crosses a line.
#[derive(Debug, Clone, Copy, PartialEq, Eq, Structural)]
pub enum Crosser {
    Player,
    /// Any other thing that is not a missile.
    Monster,
    /// Rockets, plasma, BFG balls and the imp, cacodemon and baron shots.
    Missile,
}

/// The action a crossed line sets off, and whether the line loses its
/// special (a one-time trigger).
#[derive(Debug, Clone, Copy, PartialEq, Eq, Structural)]
pub struct CrossEffect {
    pub action: LineAction,
    pub once: bool,
}

/// The walk-over actions, by line special, for a player.
pub open spec fn cross_table(special: i16) -> Option<CrossEffect> {
    match special {
        2 => Some(CrossEffect { action: LineAction::Door(vldoor_e::open), once: true }),
        3 => Some(CrossEffect { action: LineAction::Door(vldoor_e::close), once: true }),
        4 => Some(CrossEffect { action: LineAction::Door(vldoor_e::normal), once: true }),
        5 => Some(CrossEffect { action: LineAction::Floor(floor_e::raiseFloor), once: true }),
        6 => Some(CrossEffect { action: LineAction::Ceiling(ceiling_e::fastCrushAndRaise), once: true }),
        8 => Some(CrossEffect { action: LineAction::Stairs(stair_e::build8), once: true }),
        10 => Some(CrossEffect { action: LineAction::Plat(plattype_e::downWaitUpStay, 0), once: true }),
        12 => Some(CrossEffect { action: LineAction::LightTurnOn(0), once: true }),
        13 => Some(CrossEffect { action: LineAction::LightTurnOn(255), once: true }),
        16 => Some(CrossEffect { action: LineAction::Door(vldoor_e::close30ThenOpen), once: true }),
        17 => Some(CrossEffect { action: LineAction::StartLightStrobing, once: true }),
        19 => Some(CrossEffect { action: LineAction::Floor(floor_e::lowerFloor), once: true }),
        22 => Some(CrossEffect { action: LineAction::Plat(plattype_e::raiseToNearestAndChange, 0), once: true }),
        25 => Some(CrossEffect { action: LineAction::Ceiling(ceiling_e::crushAndRaise), once: true }),
        30 => Some(CrossEffect { action: LineAction::Floor(floor_e::raiseToTexture), once: true }),
        35 => Some(CrossEffect { action: LineAction::LightTurnOn(35), once: true }),
        36 => Some(CrossEffect { action: LineAction::Floor(floor_e::turboLower), once: true }),
        37 => Some(CrossEffect { action: LineAction::Floor(floor_e::lowerAndChange), once: true }),
        38 => Some(CrossEffect { action: LineAction::Floor(floor_e::lowerFloorToLowest), once: true }),
        39 => Some(CrossEffect { action: LineAction::Teleport, once: true }),
        40 => Some(CrossEffect { action: LineAction::CeilingAndFloor(ceiling_e::raiseToHighest, floor_e::lowerFloorToLowest), once: true }),
        44 => Some(CrossEffect { action: LineAction::Ceiling(ceiling_e::lowerAndCrush), once: true }),
        53 => Some(CrossEffect { action: LineAction::Plat(plattype_e::perpetualRaise, 0), once: true }),
        54 => Some(CrossEffect { action: LineAction::StopPlat, once: true }),
        56 => Some(CrossEffect { action: LineAction::Floor(floor_e::raiseFloorCrush), once: true }),
        57 => Some(CrossEffect { action: LineAction::CeilingCrushStop, once: true }),
        58 => Some(CrossEffect { action: LineAction::Floor(floor_e::raiseFloor24), once: true }),
        59 => Some(CrossEffect { action: LineAction::Floor(floor_e::raiseFloor24AndChange), once: true }),
        104 => Some(CrossEffect { action: LineAction::TurnTagLightsOff, once: true }),
        108 => Some(CrossEffect { action: LineAction::Door(vldoor_e::blazeRaise), once: true }),
        109 => Some(CrossEffect { action: LineAction::Door(vldoor_e::blazeOpen), once: true }),
        100 => Some(CrossEffect { action: LineAction::Stairs(stair_e::turbo16), once: true }),
        110 => Some(CrossEffect { action: LineAction::Door(vldoor_e::blazeClose), once: true }),
        119 => Some(CrossEffect { action: LineAction::Floor(floor_e::raiseFloorToNearest), once: true }),
        121 => Some(CrossEffect { action: LineAction::Plat(plattype_e::blazeDWUS, 0), once: true }),
        130 => Some(CrossEffect { action: LineAction::Floor(floor_e::raiseFloorTurbo), once: true }),
        141 => Some(CrossEffect { action: LineAction::Ceiling(ceiling_e::silentCrushAndRaise), once: true }),
        52 => Some(CrossEffect { action: LineAction::ExitLevel, once: false }),
        124 => Some(CrossEffect { action: LineAction::SecretExitLevel, once: false }),
        72 => Some(CrossEffect { action: LineAction::Ceiling(ceiling_e::lowerAndCrush), once: false }),
        73 => Some(CrossEffect { action: LineAction::Ceiling(ceiling_e::crushAndRaise), once: false }),
        74 => Some(CrossEffect { action: LineAction::CeilingCrushStop, once: false }),
        75 => Some(CrossEffect { action: LineAction::Door(vldoor_e::close), once: false }),
        76 => Some(CrossEffect { action: LineAction::Door(vldoor_e::close30ThenOpen), once: false }),
        77 => Some(CrossEffect { action: LineAction::Ceiling(ceiling_e::fastCrushAndRaise), once: false }),
        79 => Some(CrossEffect { action: LineAction::LightTurnOn(35), once: false }),
        80 => Some(CrossEffect { action: LineAction::LightTurnOn(0), once: false }),
        81 => Some(CrossEffect { action: LineAction::LightTurnOn(255), once: false }),
        82 => Some(CrossEffect { action: LineAction::Floor(floor_e::lowerFloorToLowest), once: false }),
        83 => Some(CrossEffect { action: LineAction::Floor(floor_e::lowerFloor), once: false }),
        84 => Some(CrossEffect { action: LineAction::Floor(floor_e::lowerAndChange), once: false }),
        86 => Some(CrossEffect { action: LineAction::Door(vldoor_e::open), once: false }),
        87 => Some(CrossEffect { action: LineAction::Plat(plattype_e::perpetualRaise, 0), once: false }),
        88 => Some(CrossEffect { action: LineAction::Plat(plattype_e::downWaitUpStay, 0), once: false }),
        89 => Some(CrossEffect { action: LineAction::StopPlat, once: false }),
        90 => Some(CrossEffect { action: LineAction::Door(vldoor_e::normal), once: false }),
        91 => Some(CrossEffect { action: LineAction::Floor(floor_e::raiseFloor), once: false }),
        92 => Some(CrossEffect { action: LineAction::Floor(floor_e::raiseFloor24), once: false }),
        93 => Some(CrossEffect { action: LineAction::Floor(floor_e::raiseFloor24AndChange), once: false }),
        94 => Some(CrossEffect { action: LineAction::Floor(floor_e::raiseFloorCrush), once: false }),
        95 => Some(CrossEffect { action: LineAction::Plat(plattype_e::raiseToNearestAndChange, 0), once: false }),
        96 => Some(CrossEffect { action: LineAction::Floor(floor_e::raiseToTexture), once: false }),
        97 => Some(CrossEffect { action: LineAction::Teleport, once: false }),
        98 => Some(CrossEffect { action: LineAction::Floor(floor_e::turboLower), once: false }),
        105 => Some(CrossEffect { action: LineAction::Door(vldoor_e::blazeRaise), once: false }),
        106 => Some(CrossEffect { action: LineAction::Door(vldoor_e::blazeOpen), once: false }),
        107 => Some(CrossEffect { action: LineAction::Door(vldoor_e::blazeClose), once: false }),
        120 => Some(CrossEffect { action: LineAction::Plat(plattype_e::blazeDWUS, 0), once: false }),
        128 => Some(CrossEffect { action: LineAction::Floor(floor_e::raiseFloorToNearest), once: false }),
        129 => Some(CrossEffect { action: LineAction::Floor(floor_e::raiseFloorTurbo), once: false }),
        _ => None,
    }
}

/// Specials that monsters set off by walking over them.
pub open spec fn monster_crossable(special: i16) -> bool {
    special == 39 || special == 97 || special == 125 || special == 126 || special == 4 || special
        == 10 || special == 88
}

/// What crossing a line with `special` does for a given crosser: missiles
/// set off nothing; monsters only teleporters, raise doors and lifts; the
/// monster-only teleporters (125 once, 126 again and again) nothing for a
/// player.
pub open spec fn cross_effect(special: i16, crosser: Crosser) -> Option<CrossEffect> {
    match crosser {
        Crosser::Missile => None,
        Crosser::Monster => if !monster_crossable(special) {
            None
        } else if special == 125 {
            Some(CrossEffect { action: LineAction::Teleport, once: true })
        } else if special == 126 {
            Some(CrossEffect { action: LineAction::Teleport, once: false })
        } else {
            cross_table(special)
        },
        Crosser::Player => cross_table(special),
    }
}

fn cross_lookup(special: i16) -> (r: Option<CrossEffect>)
    ensures
        r == cross_table(special),
{
    match special {
        2 => Some(CrossEffect { action: LineAction::Door(vldoor_e::open), once: true }),
        3 => Some(CrossEffect { action: LineAction::Door(vldoor_e::close), once: true }),
        4 => Some(CrossEffect { action: LineAction::Door(vldoor_e::normal), once: true }),
        5 => Some(CrossEffect { action: LineAction::Floor(floor_e::raiseFloor), once: true }),
        6 => Some(CrossEffect { action: LineAction::Ceiling(ceiling_e::fastCrushAndRaise), once: true }),
        8 => Some(CrossEffect { action: LineAction::Stairs(stair_e::build8), once: true }),
        10 => Some(CrossEffect { action: LineAction::Plat(plattype_e::downWaitUpStay, 0), once: true }),
        12 => Some(CrossEffect { action: LineAction::LightTurnOn(0), once: true }),
        13 => Some(CrossEffect { action: LineAction::LightTurnOn(255), once: true }),
        16 => Some(CrossEffect { action: LineAction::Door(vldoor_e::close30ThenOpen), once: true }),
        17 => Some(CrossEffect { action: LineAction::StartLightStrobing, once: true }),
        19 => Some(CrossEffect { action: LineAction::Floor(floor_e::lowerFloor), once: true }),
        22 => Some(CrossEffect { action: LineAction::Plat(plattype_e::raiseToNearestAndChange, 0), once: true }),
        25 => Some(CrossEffect { action: LineAction::Ceiling(ceiling_e::crushAndRaise), once: true }),
        30 => Some(CrossEffect { action: LineAction::Floor(floor_e::raiseToTexture), once: true }),
        35 => Some(CrossEffect { action: LineAction::LightTurnOn(35), once: true }),
        36 => Some(CrossEffect { action: LineAction::Floor(floor_e::turboLower), once: true }),
        37 => Some(CrossEffect { action: LineAction::Floor(floor_e::lowerAndChange), once: true }),
        38 => Some(CrossEffect { action: LineAction::Floor(floor_e::lowerFloorToLowest), once: true }),
        39 => Some(CrossEffect { action: LineAction::Teleport, once: true }),
        40 => Some(CrossEffect { action: LineAction::CeilingAndFloor(ceiling_e::raiseToHighest, floor_e::lowerFloorToLowest), once: true }),
        44 => Some(CrossEffect { action: LineAction::Ceiling(ceiling_e::lowerAndCrush), once: true }),
        53 => Some(CrossEffect { action: LineAction::Plat(plattype_e::perpetualRaise, 0), once: true }),
        54 => Some(CrossEffect { action: LineAction::StopPlat, once: true }),
        56 => Some(CrossEffect { action: LineAction::Floor(floor_e::raiseFloorCrush), once: true }),
        57 => Some(CrossEffect { action: LineAction::CeilingCrushStop, once: true }),
        58 => Some(CrossEffect { action: LineAction::Floor(floor_e::raiseFloor24), once: true }),
        59 => Some(CrossEffect { action: LineAction::Floor(floor_e::raiseFloor24AndChange), once: true }),
        104 => Some(CrossEffect { action: LineAction::TurnTagLightsOff, once: true }),
        108 => Some(CrossEffect { action: LineAction::Door(vldoor_e::blazeRaise), once: true }),
        109 => Some(CrossEffect { action: LineAction::Door(vldoor_e::blazeOpen), once: true }),
        100 => Some(CrossEffect { action: LineAction::Stairs(stair_e::turbo16), once: true }),
        110 => Some(CrossEffect { action: LineAction::Door(vldoor_e::blazeClose), once: true }),
        119 => Some(CrossEffect { action: LineAction::Floor(floor_e::raiseFloorToNearest), once: true }),
        121 => Some(CrossEffect { action: LineAction::Plat(plattype_e::blazeDWUS, 0), once: true }),
        130 => Some(CrossEffect { action: LineAction::Floor(floor_e::raiseFloorTurbo), once: true }),
        141 => Some(CrossEffect { action: LineAction::Ceiling(ceiling_e::silentCrushAndRaise), once: true }),
        52 => Some(CrossEffect { action: LineAction::ExitLevel, once: false }),
        124 => Some(CrossEffect { action: LineAction::SecretExitLevel, once: false }),
        72 => Some(CrossEffect { action: LineAction::Ceiling(ceiling_e::lowerAndCrush), once: false }),
        73 => Some(CrossEffect { action: LineAction::Ceiling(ceiling_e::crushAndRaise), once: false }),
        74 => Some(CrossEffect { action: LineAction::CeilingCrushStop, once: false }),
        75 => Some(CrossEffect { action: LineAction::Door(vldoor_e::close), once: false }),
        76 => Some(CrossEffect { action: LineAction::Door(vldoor_e::close30ThenOpen), once: false }),
        77 => Some(CrossEffect { action: LineAction::Ceiling(ceiling_e::fastCrushAndRaise), once: false }),
        79 => Some(CrossEffect { action: LineAction::LightTurnOn(35), once: false }),
        80 => Some(CrossEffect { action: LineAction::LightTurnOn(0), once: false }),
        81 => Some(CrossEffect { action: LineAction::LightTurnOn(255), once: false }),
        82 => Some(CrossEffect { action: LineAction::Floor(floor_e::lowerFloorToLowest), once: false }),
        83 => Some(CrossEffect { action: LineAction::Floor(floor_e::lowerFloor), once: false }),
        84 => Some(CrossEffect { action: LineAction::Floor(floor_e::lowerAndChange), once: false }),
        86 => Some(CrossEffect { action: LineAction::Door(vldoor_e::open), once: false }),
        87 => Some(CrossEffect { action: LineAction::Plat(plattype_e::perpetualRaise, 0), once: false }),
        88 => Some(CrossEffect { action: LineAction::Plat(plattype_e::downWaitUpStay, 0), once: false }),
        89 => Some(CrossEffect { action: LineAction::StopPlat, once: false }),
        90 => Some(CrossEffect { action: LineAction::Door(vldoor_e::normal), once: false }),
        91 => Some(CrossEffect { action: LineAction::Floor(floor_e::raiseFloor), once: false }),
        92 => Some(CrossEffect { action: LineAction::Floor(floor_e::raiseFloor24), once: false }),
        93 => Some(CrossEffect { action: LineAction::Floor(floor_e::raiseFloor24AndChange), once: false }),
        94 => Some(CrossEffect { action: LineAction::Floor(floor_e::raiseFloorCrush), once: false }),
        95 => Some(CrossEffect { action: LineAction::Plat(plattype_e::raiseToNearestAndChange, 0), once: false }),
        96 => Some(CrossEffect { action: LineAction::Floor(floor_e::raiseToTexture), once: false }),
        97 => Some(CrossEffect { action: LineAction::Teleport, once: false }),
        98 => Some(CrossEffect { action: LineAction::Floor(floor_e::turboLower), once: false }),
        105 => Some(CrossEffect { action: LineAction::Door(vldoor_e::blazeRaise), once: false }),
        106 => Some(CrossEffect { action: LineAction::Door(vldoor_e::blazeOpen), once: false }),
        107 => Some(CrossEffect { action: LineAction::Door(vldoor_e::blazeClose), once: false }),
        120 => Some(CrossEffect { action: LineAction::Plat(plattype_e::blazeDWUS, 0), once: false }),
        128 => Some(CrossEffect { action: LineAction::Floor(floor_e::raiseFloorToNearest), once: false }),
        129 => Some(CrossEffect { action: LineAction::Floor(floor_e::raiseFloorTurbo), once: false }),
        _ => None,
    }
}

/// A thing crosses line `line`: returns the action that
/// sets off, for the caller to carry out, and clears the special of a
/// one-time trigger.
pub fn P_CrossSpecialLine(line: &mut Line, crosser: Crosser) -> (r: Option<LineAction>)
    ensures
        r == (match cross_effect(old(line).special, crosser) {
            Some(e) => Some(e.action),
            None => None,
        }),
        *final(line) == if (cross_effect(old(line).special, crosser) matches Some(e) && e.once) {
            Line { special: 0, ..*old(line) }
        } else {
            *old(line)
        },
{
    let special = line.special;
    let effect = match crosser {
        Crosser::Missile => None,
        Crosser::Monster => {
            if !(special == 39 || special == 97 || special == 125 || special == 126 || special
                == 4 || special == 10 || special == 88) {
                None
            } else if special == 125 {
                Some(CrossEffect { action: LineAction::Teleport, once: true })
            } else if special == 126 {
                Some(CrossEffect { action: LineAction::Teleport, once: false })
            } else {
                cross_lookup(special)
            }
        },
        Crosser::Player => cross_lookup(special),
    };
    match effect {
        Some(e) => {
            if e.once {
                line.special = 0;
            }
            Some(e.action)
        },
        None => None,
    }
}

/// When a used or shot line flips its switch texture.
#[derive(Debug, Clone, Copy, PartialEq, Eq, Structural)]
pub enum SwitchTiming {
    /// Not at all (manual doors).
    Never,
    /// If the action started anything; the flag says the switch can be used
    /// again (a button) rather than staying on.
    OnSuccess(bool),
    /// Before the action, whatever it does.
    Before(bool),
    /// After the action, whatever it does.
    After(bool),
}

/// The action a line sets off when used or shot, and what becomes of its
/// switch.
#[derive(Debug, Clone, Copy, PartialEq, Eq, Structural)]
pub struct UseEffect {
    pub action: LineAction,
    pub switch: SwitchTiming,
}

/// The use actions, by line special, for a player.
pub open spec fn use_table(special: i16) -> Option<UseEffect> {
    match special {
        1 | 26 | 27 | 28 | 31 | 32 | 33 | 34 | 117 | 118 => Some(UseEffect { action: LineAction::VerticalDoor, switch: SwitchTiming::Never }),
        7 => Some(UseEffect { action: LineAction::Stairs(stair_e::build8), switch: SwitchTiming::OnSuccess(false) }),
        9 => Some(UseEffect { action: LineAction::Donut, switch: SwitchTiming::OnSuccess(false) }),
        11 => Some(UseEffect { action: LineAction::ExitLevel, switch: SwitchTiming::Before(false) }),
        14 => Some(UseEffect { action: LineAction::Plat(plattype_e::raiseAndChange, 32), switch: SwitchTiming::OnSuccess(false) }),
        15 => Some(UseEffect { action: LineAction::Plat(plattype_e::raiseAndChange, 24), switch: SwitchTiming::OnSuccess(false) }),
        18 => Some(UseEffect { action: LineAction::Floor(floor_e::raiseFloorToNearest), switch: SwitchTiming::OnSuccess(false) }),
        20 => Some(UseEffect { action: LineAction::Plat(plattype_e::raiseToNearestAndChange, 0), switch: SwitchTiming::OnSuccess(false) }),
        21 => Some(UseEffect { action: LineAction::Plat(plattype_e::downWaitUpStay, 0), switch: SwitchTiming::OnSuccess(false) }),
        23 => Some(UseEffect { action: LineAction::Floor(floor_e::lowerFloorToLowest), switch: SwitchTiming::OnSuccess(false) }),
        29 => Some(UseEffect { action: LineAction::Door(vldoor_e::normal), switch: SwitchTiming::OnSuccess(false) }),
        41 => Some(UseEffect { action: LineAction::Ceiling(ceiling_e::lowerToFloor), switch: SwitchTiming::OnSuccess(false) }),
        71 => Some(UseEffect { action: LineAction::Floor(floor_e::turboLower), switch: SwitchTiming::OnSuccess(false) }),
        49 => Some(UseEffect { action: LineAction::Ceiling(ceiling_e::crushAndRaise), switch: SwitchTiming::OnSuccess(false) }),
        50 => Some(UseEffect { action: LineAction::Door(vldoor_e::close), switch: SwitchTiming::OnSuccess(false) }),
        51 => Some(UseEffect { action: LineAction::SecretExitLevel, switch: SwitchTiming::Before(false) }),
        55 => Some(UseEffect { action: LineAction::Floor(floor_e::raiseFloorCrush), switch: SwitchTiming::OnSuccess(false) }),
        101 => Some(UseEffect { action: LineAction::Floor(floor_e::raiseFloor), switch: SwitchTiming::OnSuccess(false) }),
        102 => Some(UseEffect { action: LineAction::Floor(floor_e::lowerFloor), switch: SwitchTiming::OnSuccess(false) }),
        103 => Some(UseEffect { action: LineAction::Door(vldoor_e::open), switch: SwitchTiming::OnSuccess(false) }),
        111 => Some(UseEffect { action: LineAction::Door(vldoor_e::blazeRaise), switch: SwitchTiming::OnSuccess(false) }),
        112 => Some(UseEffect { action: LineAction::Door(vldoor_e::blazeOpen), switch: SwitchTiming::OnSuccess(false) }),
        113 => Some(UseEffect { action: LineAction::Door(vldoor_e::blazeClose), switch: SwitchTiming::OnSuccess(false) }),
        122 => Some(UseEffect { action: LineAction::Plat(plattype_e::blazeDWUS, 0), switch: SwitchTiming::OnSuccess(false) }),
        127 => Some(UseEffect { action: LineAction::Stairs(stair_e::turbo16), switch: SwitchTiming::OnSuccess(false) }),
        131 => Some(UseEffect { action: LineAction::Floor(floor_e::raiseFloorTurbo), switch: SwitchTiming::OnSuccess(false) }),
        133 | 135 | 137 => Some(UseEffect { action: LineAction::LockedDoor(vldoor_e::blazeOpen), switch: SwitchTiming::OnSuccess(false) }),
        140 => Some(UseEffect { action: LineAction::Floor(floor_e::raiseFloor512), switch: SwitchTiming::OnSuccess(false) }),
        42 => Some(UseEffect { action: LineAction::Door(vldoor_e::close), switch: SwitchTiming::OnSuccess(true) }),
        43 => Some(UseEffect { action: LineAction::Ceiling(ceiling_e::lowerToFloor), switch: SwitchTiming::OnSuccess(true) }),
        45 => Some(UseEffect { action: LineAction::Floor(floor_e::lowerFloor), switch: SwitchTiming::OnSuccess(true) }),
        60 => Some(UseEffect { action: LineAction::Floor(floor_e::lowerFloorToLowest), switch: SwitchTiming::OnSuccess(true) }),
        61 => Some(UseEffect { action: LineAction::Door(vldoor_e::open), switch: SwitchTiming::OnSuccess(true) }),
        62 => Some(UseEffect { action: LineAction::Plat(plattype_e::downWaitUpStay, 1), switch: SwitchTiming::OnSuccess(true) }),
        63 => Some(UseEffect { action: LineAction::Door(vldoor_e::normal), switch: SwitchTiming::OnSuccess(true) }),
        64 => Some(UseEffect { action: LineAction::Floor(floor_e::raiseFloor), switch: SwitchTiming::OnSuccess(true) }),
        66 => Some(UseEffect { action: LineAction::Plat(plattype_e::raiseAndChange, 24), switch: SwitchTiming::OnSuccess(true) }),
        67 => Some(UseEffect { action: LineAction::Plat(plattype_e::raiseAndChange, 32), switch: SwitchTiming::OnSuccess(true) }),
        65 => Some(UseEffect { action: LineAction::Floor(floor_e::raiseFloorCrush), switch: SwitchTiming::OnSuccess(true) }),
        68 => Some(UseEffect { action: LineAction::Plat(plattype_e::raiseToNearestAndChange, 0), switch: SwitchTiming::OnSuccess(true) }),
        69 => Some(UseEffect { action: LineAction::Floor(floor_e::raiseFloorToNearest), switch: SwitchTiming::OnSuccess(true) }),
        70 => Some(UseEffect { action: LineAction::Floor(floor_e::turboLower), switch: SwitchTiming::OnSuccess(true) }),
        114 => Some(UseEffect { action: LineAction::Door(vldoor_e::blazeRaise), switch: SwitchTiming::OnSuccess(true) }),
        115 => Some(UseEffect { action: LineAction::Door(vldoor_e::blazeOpen), switch: SwitchTiming::OnSuccess(true) }),
        116 => Some(UseEffect { action: LineAction::Door(vldoor_e::blazeClose), switch: SwitchTiming::OnSuccess(true) }),
        123 => Some(UseEffect { action: LineAction::Plat(plattype_e::blazeDWUS, 0), switch: SwitchTiming::OnSuccess(true) }),
        132 => Some(UseEffect { action: LineAction::Floor(floor_e::raiseFloorTurbo), switch: SwitchTiming::OnSuccess(true) }),
        99 | 134 | 136 => Some(UseEffect { action: LineAction::LockedDoor(vldoor_e::blazeOpen), switch: SwitchTiming::OnSuccess(true) }),
        138 => Some(UseEffect { action: LineAction::LightTurnOn(255), switch: SwitchTiming::After(true) }),
        139 => Some(UseEffect { action: LineAction::LightTurnOn(35), switch: SwitchTiming::After(true) }),
        _ => None,
    }
}

pub(crate) fn use_lookup(special: i16) -> (r: Option<UseEffect>)
    ensures
        r == use_table(special),
{
    match special {
        1 | 26 | 27 | 28 | 31 | 32 | 33 | 34 | 117 | 118 => Some(UseEffect { action: LineAction::VerticalDoor, switch: SwitchTiming::Never }),
        7 => Some(UseEffect { action: LineAction::Stairs(stair_e::build8), switch: SwitchTiming::OnSuccess(false) }),
        9 => Some(UseEffect { action: LineAction::Donut, switch: SwitchTiming::OnSuccess(false) }),
        11 => Some(UseEffect { action: LineAction::ExitLevel, switch: SwitchTiming::Before(false) }),
        14 => Some(UseEffect { action: LineAction::Plat(plattype_e::raiseAndChange, 32), switch: SwitchTiming::OnSuccess(false) }),
        15 => Some(UseEffect { action: LineAction::Plat(plattype_e::raiseAndChange, 24), switch: SwitchTiming::OnSuccess(false) }),
        18 => Some(UseEffect { action: LineAction::Floor(floor_e::raiseFloorToNearest), switch: SwitchTiming::OnSuccess(false) }),
        20 => Some(UseEffect { action: LineAction::Plat(plattype_e::raiseToNearestAndChange, 0), switch: SwitchTiming::OnSuccess(false) }),
        21 => Some(UseEffect { action: LineAction::Plat(plattype_e::downWaitUpStay, 0), switch: SwitchTiming::OnSuccess(false) }),
        23 => Some(UseEffect { action: LineAction::Floor(floor_e::lowerFloorToLowest), switch: SwitchTiming::OnSuccess(false) }),
        29 => Some(UseEffect { action: LineAction::Door(vldoor_e::normal), switch: SwitchTiming::OnSuccess(false) }),
        41 => Some(UseEffect { action: LineAction::Ceiling(ceiling_e::lowerToFloor), switch: SwitchTiming::OnSuccess(false) }),
        71 => Some(UseEffect { action: LineAction::Floor(floor_e::turboLower), switch: SwitchTiming::OnSuccess(false) }),
        49 => Some(UseEffect { action: LineAction::Ceiling(ceiling_e::crushAndRaise), switch: SwitchTiming::OnSuccess(false) }),
        50 => Some(UseEffect { action: LineAction::Door(vldoor_e::close), switch: SwitchTiming::OnSuccess(false) }),
        51 => Some(UseEffect { action: LineAction::SecretExitLevel, switch: SwitchTiming::Before(false) }),
        55 => Some(UseEffect { action: LineAction::Floor(floor_e::raiseFloorCrush), switch: SwitchTiming::OnSuccess(false) }),
        101 => Some(UseEffect { action: LineAction::Floor(floor_e::raiseFloor), switch: SwitchTiming::OnSuccess(false) }),
        102 => Some(UseEffect { action: LineAction::Floor(floor_e::lowerFloor), switch: SwitchTiming::OnSuccess(false) }),
        103 => Some(UseEffect { action: LineAction::Door(vldoor_e::open), switch: SwitchTiming::OnSuccess(false) }),
        111 => Some(UseEffect { action: LineAction::Door(vldoor_e::blazeRaise), switch: SwitchTiming::OnSuccess(false) }),
        112 => Some(UseEffect { action: LineAction::Door(vldoor_e::blazeOpen), switch: SwitchTiming::OnSuccess(false) }),
        113 => Some(UseEffect { action: LineAction::Door(vldoor_e::blazeClose), switch: SwitchTiming::OnSuccess(false) }),
        122 => Some(UseEffect { action: LineAction::Plat(plattype_e::blazeDWUS, 0), switch: SwitchTiming::OnSuccess(false) }),
        127 => Some(UseEffect { action: LineAction::Stairs(stair_e::turbo16), switch: SwitchTiming::OnSuccess(false) }),
        131 => Some(UseEffect { action: LineAction::Floor(floor_e::raiseFloorTurbo), switch: SwitchTiming::OnSuccess(false) }),
        133 | 135 | 137 => Some(UseEffect { action: LineAction::LockedDoor(vldoor_e::blazeOpen), switch: SwitchTiming::OnSuccess(false) }),
        140 => Some(UseEffect { action: LineAction::Floor(floor_e::raiseFloor512), switch: SwitchTiming::OnSuccess(false) }),
        42 => Some(UseEffect { action: LineAction::Door(vldoor_e::close), switch: SwitchTiming::OnSuccess(true) }),
        43 => Some(UseEffect { action: LineAction::Ceiling(ceiling_e::lowerToFloor), switch: SwitchTiming::OnSuccess(true) }),
        45 => Some(UseEffect { action: LineAction::Floor(floor_e::lowerFloor), switch: SwitchTiming::OnSuccess(true) }),
        60 => Some(UseEffect { action: LineAction::Floor(floor_e::lowerFloorToLowest), switch: SwitchTiming::OnSuccess(true) }),
        61 => Some(UseEffect { action: LineAction::Door(vldoor_e::open), switch: SwitchTiming::OnSuccess(true) }),
        62 => Some(UseEffect { action: LineAction::Plat(plattype_e::downWaitUpStay, 1), switch: SwitchTiming::OnSuccess(true) }),
        63 => Some(UseEffect { action: LineAction::Door(vldoor_e::normal), switch: SwitchTiming::OnSuccess(true) }),
        64 => Some(UseEffect { action: LineAction::Floor(floor_e::raiseFloor), switch: SwitchTiming::OnSuccess(true) }),
        66 => Some(UseEffect { action: LineAction::Plat(plattype_e::raiseAndChange, 24), switch: SwitchTiming::OnSuccess(true) }),
        67 => Some(UseEffect { action: LineAction::Plat(plattype_e::raiseAndChange, 32), switch: SwitchTiming::OnSuccess(true) }),
        65 => Some(UseEffect { action: LineAction::Floor(floor_e::raiseFloorCrush), switch: SwitchTiming::OnSuccess(true) }),
        68 => Some(UseEffect { action: LineAction::Plat(plattype_e::raiseToNearestAndChange, 0), switch: SwitchTiming::OnSuccess(true) }),
        69 => Some(UseEffect { action: LineAction::Floor(floor_e::raiseFloorToNearest), switch: SwitchTiming::OnSuccess(true) }),
        70 => Some(UseEffect { action: LineAction::Floor(floor_e::turboLower), switch: SwitchTiming::OnSuccess(true) }),
        114 => Some(UseEffect { action: LineAction::Door(vldoor_e::blazeRaise), switch: SwitchTiming::OnSuccess(true) }),
        115 => Some(UseEffect { action: LineAction::Door(vldoor_e::blazeOpen), switch: SwitchTiming::OnSuccess(true) }),
        116 => Some(UseEffect { action: LineAction::Door(vldoor_e::blazeClose), switch: SwitchTiming::OnSuccess(true) }),
        123 => Some(UseEffect { action: LineAction::Plat(plattype_e::blazeDWUS, 0), switch: SwitchTiming::OnSuccess(true) }),
        132 => Some(UseEffect { action: LineAction::Floor(floor_e::raiseFloorTurbo), switch: SwitchTiming::OnSuccess(true) }),
        99 | 134 | 136 => Some(UseEffect { action: LineAction::LockedDoor(vldoor_e::blazeOpen), switch: SwitchTiming::OnSuccess(true) }),
        138 => Some(UseEffect { action: LineAction::LightTurnOn(255), switch: SwitchTiming::After(true) }),
        139 => Some(UseEffect { action: LineAction::LightTurnOn(35), switch: SwitchTiming::After(true) }),
        _ => None,
    }
}

/// Manual doors, which monsters may open.
pub open spec fn monster_usable(special: i16) -> bool {
    special == 1 || special == 32 || special == 33 || special == 34
}

/// Whether a switch with timing `timing` flips, given whether the action
/// started anything; where it flips, whether it can be used again.
pub open spec fn switch_use_again(timing: SwitchTiming, started: bool) -> Option<bool> {
    match timing {
        SwitchTiming::Never => None,
        SwitchTiming::OnSuccess(u) => if started {
            Some(u)
        } else {
            None
        },
        SwitchTiming::Before(u) => Some(u),
        SwitchTiming::After(u) => Some(u),
    }
}

/// The switch change that follows an effect: none where there is no effect
/// or its switch does not flip; else the change `switch_changed` describes.
pub open spec fn effect_switched(
    effect: Option<UseEffect>,
    started: bool,
    l0: Line,
    s0: Side,
    sl: Seq<i16>,
    n: int,
    l1: Line,
    s1: Side,
    flip: Option<SwitchFlip>,
) -> bool {
    match effect {
        Some(e) => match switch_use_again(e.switch, started) {
            Some(u) => switch_changed(l0, s0, sl, n, u, l1, s1, flip),
            None => l1 == l0 && s1 == s0 && flip is None,
        },
        None => l1 == l0 && s1 == s0 && flip is None,
    }
}

/// Flips the switch for `effect` where its timing says so.
fn apply_switch(
    line: &mut Line,
    side: &mut Side,
    switchlist: &Vec<i16>,
    numswitches: usize,
    effect: Option<UseEffect>,
    started: bool,
) -> (r: Option<SwitchFlip>)
    requires
        numswitches <= MAXSWITCHES,
        2 * numswitches <= switchlist.len(),
    ensures
        effect_switched(
            effect,
            started,
            *old(line),
            *old(side),
            switchlist@,
            numswitches as int,
            *final(line),
            *final(side),
            r,
        ),
{
    match effect {
        Some(e) => {
            let again = match e.switch {
                SwitchTiming::Never => None,
                SwitchTiming::OnSuccess(u) => if started {
                    Some(u)
                } else {
                    None
                },
                SwitchTiming::Before(u) => Some(u),
                SwitchTiming::After(u) => Some(u),
            };
            match again {
                Some(u) => P_ChangeSwitchTexture(line, side, switchlist, numswitches, u),
                None => None,
            }
        },
        None => None,
    }
}

/// What using a line does: `used` is false where the use is refused
/// (the back side of any line but 124, a monster at a secret line or at a
/// line other than a manual door); the effect is the action to carry out,
/// if the special has one; and `flip` is the switch that flipped.
#[derive(Debug, Clone, Copy, PartialEq, Eq, Structural)]
pub struct UseOutcome {
    pub used: bool,
    pub effect: Option<UseEffect>,
    pub flip: Option<SwitchFlip>,
}

/// Whether using `line` from `side` is refused.
pub open spec fn use_refused(line: Line, side: i32, is_player: bool) -> bool {
    (side != 0 && line.special != 124) || (!is_player && (line.flags & ML_SECRET != 0
        || !monster_usable(line.special)))
}

/// The action that using `line` from `side` sets off, if any.
pub open spec fn use_effect(line: Line, side: i32, is_player: bool) -> Option<UseEffect> {
    if use_refused(line, side, is_player) {
        None
    } else {
        use_table(line.special)
    }
}

/// A thing uses (presses) a line from `side` (0 = front), whose front side
/// is `front`: says whether the use was taken and which action it sets off,
/// and flips the line's switch as that action's timing says, through
/// `P_ChangeSwitchTexture` (a switch that cannot be used again loses the
/// line's special). `started` says whether the action, carried out on the
/// tagged sectors, started anything; only switches that flip on success
/// look at it.
pub fn P_UseSpecialLine(
    line: &mut Line,
    front: &mut Side,
    switchlist: &Vec<i16>,
    numswitches: usize,
    side: i32,
    is_player: bool,
    started: bool,
) -> (r: UseOutcome)
    requires
        numswitches <= MAXSWITCHES,
        2 * numswitches <= switchlist.len(),
    ensures
        r.used == !use_refused(*old(line), side, is_player),
        r.effect == use_effect(*old(line), side, is_player),
        effect_switched(
            r.effect,
            started,
            *old(line),
            *old(front),
            switchlist@,
            numswitches as int,
            *final(line),
            *final(front),
            r.flip,
        ),
{
    let special = line.special;
    if side != 0 && special != 124 {
        return UseOutcome { used: false, effect: None, flip: None };
    }
    if !is_player {
        if line.flags & ML_SECRET != 0 {
            return UseOutcome { used: false, effect: None, flip: None };
        }
        if !(special == 1 || special == 32 || special == 33 || special == 34) {
            return UseOutcome { used: false, effect: None, flip: None };
        }
    }
    let effect = use_lookup(special);
    let flip = apply_switch(line, front, switchlist, numswitches, effect, started);
    UseOutcome { used: true, effect, flip }
}

/// A switch that cannot be used again takes the special off its line, and
/// any other use or shot leaves the line as it was: a once-only switch
/// works once, a button works again and again.
pub proof fn lemma_switch_keeps_or_clears_special(
    effect: Option<UseEffect>,
    started: bool,
    l0: Line,
    s0: Side,
    sl: Seq<i16>,
    n: int,
    l1: Line,
    s1: Side,
    flip: Option<SwitchFlip>,
)
    requires
        effect_switched(effect, started, l0, s0, sl, n, l1, s1, flip),
    ensures
        once_switch(effect, started) ==> l1 == (Line { special: 0, ..l0 }),
        !once_switch(effect, started) ==> l1 == l0,
{
}

/// The effect flips a switch that cannot be used again.
pub open spec fn once_switch(effect: Option<UseEffect>, started: bool) -> bool {
    match effect {
        Some(e) => switch_use_again(e.switch, started) == Some(false),
        None => false,
    }
}

/// The shoot actions: what a line with `special` does when hit by a shot
/// from a player (a monster's shot only opens doors, special 46).
pub open spec fn shoot_effect(special: i16, is_player: bool) -> Option<UseEffect> {
    if !is_player && special != 46 {
        None
    } else if special == 24 {
        Some(UseEffect { action: LineAction::Floor(floor_e::raiseFloor), switch: SwitchTiming::After(false) })
    } else if special == 46 {
        Some(UseEffect { action: LineAction::Door(vldoor_e::open), switch: SwitchTiming::After(true) })
    } else if special == 47 {
        Some(UseEffect {
            action: LineAction::Plat(plattype_e::raiseToNearestAndChange, 0),
            switch: SwitchTiming::After(false),
        })
    } else {
        None
    }
}

/// A shot hits a line whose front side is `front`: the action it sets off,
/// and the switch that flips after it (specials 24 and 47 then lose the
/// line's special; 46 keeps it).
pub fn P_ShootSpecialLine(
    line: &mut Line,
    front: &mut Side,
    switchlist: &Vec<i16>,
    numswitches: usize,
    is_player: bool,
) -> (r: (Option<UseEffect>, Option<SwitchFlip>))
    requires
        numswitches <= MAXSWITCHES,
        2 * numswitches <= switchlist.len(),
    ensures
        r.0 == shoot_effect(old(line).special, is_player),
        effect_switched(
            r.0,
            true,
            *old(line),
            *old(front),
            switchlist@,
            numswitches as int,
            *final(line),
            *final(front),
            r.1,
        ),
{
    if !is_player && line.special != 46 {
        return (None, None);
    }
    let effect = match line.special {
        24 => Some(
            UseEffect {
                action: LineAction::Floor(floor_e::raiseFloor),
                switch: SwitchTiming::After(false),
            },
        ),
        46 => Some(
            UseEffect { action: LineAction::Door(vldoor_e::open), switch: SwitchTiming::After(true) },
        ),
        47 => Some(
            UseEffect {
                action: LineAction::Plat(plattype_e::raiseToNearestAndChange, 0),
                switch: SwitchTiming::After(false),
            },
        ),
        _ => None,
    };
    let flip = apply_switch(line, front, switchlist, numswitches, effect, true);
    (effect, flip)
}

/// Switch entry `i` shows one of the three wall textures of the side.
pub open spec fn switch_hit(sl: Seq<i16>, i: int, side: Side) -> bool {
    sl[i] == side.toptexture || sl[i] == side.midtexture || sl[i] == side.bottomtexture
}

/// The first of the `m` switch entries that the side shows, if any.
pub open spec fn first_switch_hit(sl: Seq<i16>, m: int, side: Side, i: int) -> bool {
    0 <= i < m && switch_hit(sl, i, side) && forall|j: int| 0 <= j < i ==> !#[trigger] switch_hit(sl, j, side)
}

/// The other texture of the pair that entry `i` belongs to.
pub open spec fn partner(i: usize) -> usize {
    i ^ 1usize
}

/// Which texture of the side entry `i` is on: top first, then middle, then
/// bottom.
pub open spec fn switch_part(sl: Seq<i16>, i: int, side: Side) -> bwhere_e {
    if sl[i] == side.toptexture {
        bwhere_e::top
    } else if sl[i] == side.midtexture {
        bwhere_e::middle
    } else {
        bwhere_e::bottom
    }
}

/// The side with the texture `w` replaced by `t`.
pub open spec fn with_texture(side: Side, w: bwhere_e, t: i16) -> Side {
    match w {
        bwhere_e::top => Side { toptexture: t, ..side },
        bwhere_e::middle => Side { midtexture: t, ..side },
        bwhere_e::bottom => Side { bottomtexture: t, ..side },
    }
}

/// A switch texture that flipped: where, the sound it makes, and for a
/// button the texture to put back when it pops out.
#[derive(Debug, Clone, Copy, PartialEq, Eq, Structural)]
pub struct SwitchFlip {
    pub where_: bwhere_e,
    pub sound: sfxenum_t,
    pub button: Option<i32>,
}

proof fn lemma_partner_in_range(i: usize, m: usize)
    requires
        i < m,
        m % 2 == 0,
    ensures
        partner(i) < m,
{
    assert(i < m && m % 2 == 0 ==> (i ^ 1usize) < m) by (bit_vector);
}

/// What flipping a switch does (see `P_ChangeSwitchTexture`): the line
/// `l0` with front side `s0` becomes `l1` with side `s1`, with result `r`,
/// looking through the first `2 * n` entries of `sl`.
pub open spec fn switch_changed(
    l0: Line,
    s0: Side,
    sl: Seq<i16>,
    n: int,
    useAgain: bool,
    l1: Line,
    s1: Side,
    r: Option<SwitchFlip>,
) -> bool {
    &&& (l1 == if useAgain {
            l0
        } else {
            Line { special: 0, ..l0 }
        })
    &&& ((forall|i: int| !#[trigger] first_switch_hit(sl, 2 * n, s0, i))
            ==> r is None && s1 == s0)
    &&& (forall|i: int|
            #[trigger] first_switch_hit(sl, 2 * n, s0, i) ==> {
                let w = switch_part(sl, i, s0);
                &&& s1 == with_texture(s0, w, sl[partner(i as usize) as int])
                &&& r == Some(
                    SwitchFlip {
                        where_: w,
                        sound: if l1.special == 11 {
                            sfxenum_t::sfx_swtchx
                        } else {
                            sfxenum_t::sfx_swtchn
                        },
                        button: if useAgain {
                            Some(sl[i] as i32)
                        } else {
                            None
                        },
                    },
                )
            })
}

/// Flips the switch texture on the front side `side` of `line` to the other
/// texture of its pair, looking through the first `2 * numswitches`
/// entries of `switchlist`. A switch that cannot be used again loses the
/// line's special. The sound is the exit sound for a line whose special
/// (after that) is 11. Nothing flips, and no sound plays, where no entry
/// matches.
pub fn P_ChangeSwitchTexture(
    line: &mut Line,
    side: &mut Side,
    switchlist: &Vec<i16>,
    numswitches: usize,
    useAgain: bool,
) -> (r: Option<SwitchFlip>)
    requires
        numswitches <= MAXSWITCHES,
        2 * numswitches <= switchlist.len(),
    ensures
        switch_changed(
            *old(line),
            *old(side),
            switchlist@,
            numswitches as int,
            useAgain,
            *final(line),
            *final(side),
            r,
        ),
{
    if !useAgain {
        line.special = 0;
    }
    let sound = if line.special == 11 {
        sfxenum_t::sfx_swtchx
    } else {
        sfxenum_t::sfx_swtchn
    };
    let m = numswitches * 2;
    let mut i: usize = 0;
    while i < m
        invariant
            m == 2 * numswitches,
            m <= switchlist.len(),
            i <= m,
            *side == *old(side),
            *line == if useAgain {
                *old(line)
            } else {
                Line { special: 0, ..*old(line) }
            },
            sound == if line.special == 11 {
                sfxenum_t::sfx_swtchx
            } else {
                sfxenum_t::sfx_swtchn
            },
            forall|j: int| 0 <= j < i ==> !#[trigger] switch_hit(switchlist@, j, *old(side)),
        decreases m - i,
    {
        let t = switchlist[i];
        if t == side.toptexture || t == side.midtexture || t == side.bottomtexture {
            proof {
                lemma_partner_in_range(i, m);
                assert(first_switch_hit(switchlist@, m as int, *old(side), i as int));
                assert forall|k: int| #[trigger] first_switch_hit(switchlist@, m as int, *old(side), k)
                    implies k == i by {
                    if k < i {
                        assert(!switch_hit(switchlist@, k, *old(side)));
                    } else if k > i {
                        assert(!switch_hit(switchlist@, i as int, *old(side)));
                    }
                }
            }
            let other = switchlist[i ^ 1];
            let w = if t == side.toptexture {
                side.toptexture = other;
                bwhere_e::top
            } else if t == side.midtexture {
                side.midtexture = other;
                bwhere_e::middle
            } else {
                side.bottomtexture = other;
                bwhere_e::bottom
            };
            let button = if useAgain {
                Some(t as i32)
            } else {
                None
            };
            return Some(SwitchFlip { where_: w, sound, button });
        }
        i += 1;
    }
    None
}

/// No two buttons that are counting down belong to the same line.
pub open spec fn one_button_per_line(bs: Seq<button_t>) -> bool {
    forall|i: int, j: int|
        0 <= i < bs.len() && 0 <= j < bs.len() && i != j && #[trigger] bs[i].btimer != 0
            && #[trigger] bs[j].btimer != 0 ==> bs[i].line != bs[j].line
}

/// What pressing a button came to.
#[derive(Debug, Clone, Copy, PartialEq, Eq, Structural)]
pub enum ButtonStart {
    /// A button on that line is already counting down; nothing changed.
    AlreadyPressed,
    /// The button was put in this slot.
    Started(usize),
    /// Every slot is taken.
    NoSlotsLeft,
}

/// Starts a button on `line` counting down `time` tics, after which texture
/// `texture` goes back on its `w` wall: in the first free slot, unless a
/// button on that line is already counting down.
pub fn P_StartButton(buttons: &mut Vec<button_t>, line: usize, w: bwhere_e, texture: i32, time: u32) -> (r:
    ButtonStart)
    ensures
        (exists|i: int|
            0 <= i < old(buttons).len() && #[trigger] old(buttons)@[i].btimer != 0 && old(
                buttons,
            )@[i].line == line) ==> r == ButtonStart::AlreadyPressed && final(buttons)@ == old(
            buttons,
        )@,
        r == ButtonStart::NoSlotsLeft ==> final(buttons)@ == old(buttons)@ && forall|i: int|
            0 <= i < old(buttons).len() ==> #[trigger] old(buttons)@[i].btimer != 0,
        r matches ButtonStart::Started(k) ==> {
            &&& k < old(buttons).len()
            &&& old(buttons)@[k as int].btimer == 0
            &&& forall|i: int| 0 <= i < k ==> #[trigger] old(buttons)@[i].btimer != 0
            &&& forall|i: int|
                0 <= i < old(buttons).len() ==> !(#[trigger] old(buttons)@[i].btimer != 0 && old(
                    buttons,
                )@[i].line == line)
            &&& final(buttons)@ == old(buttons)@.update(
                k as int,
                button_t { line, where_: w, btexture: texture, btimer: time },
            )
        },
        r == ButtonStart::AlreadyPressed ==> exists|i: int|
            0 <= i < old(buttons).len() && #[trigger] old(buttons)@[i].btimer != 0 && old(
                buttons,
            )@[i].line == line,
        (forall|i: int|
            0 <= i < old(buttons).len() ==> !(#[trigger] old(buttons)@[i].btimer != 0 && old(
                buttons,
            )@[i].line == line)) && (exists|i: int|
            0 <= i < old(buttons).len() && #[trigger] old(buttons)@[i].btimer == 0)
            ==> r is Started,
        one_button_per_line(old(buttons)@) ==> one_button_per_line(final(buttons)@),
{
    let n = buttons.len();
    let mut i: usize = 0;
    while i < n
        invariant
            n == buttons.len(),
            buttons@ == old(buttons)@,
            i <= n,
            forall|j: int| 0 <= j < i ==> !(#[trigger] buttons@[j].btimer != 0 && buttons@[j].line == line),
        decreases n - i,
    {
        if buttons[i].btimer != 0 && buttons[i].line == line {
            return ButtonStart::AlreadyPressed;
        }
        i += 1;
    }
    let mut i: usize = 0;
    while i < n
        invariant
            n == buttons.len(),
            buttons@ == old(buttons)@,
            i <= n,
            forall|j: int| 0 <= j < n ==> !(#[trigger] buttons@[j].btimer != 0 && buttons@[j].line == line),
            forall|j: int| 0 <= j < i ==> #[trigger] buttons@[j].btimer != 0,
        decreases n - i,
    {
        if buttons[i].btimer == 0 {
            buttons.set(i, button_t { line, where_: w, btexture: texture, btimer: time });
            return ButtonStart::Started(i);
        }
        i += 1;
    }
    ButtonStart::NoSlotsLeft
}

/// A switch pair named `SW1` and `SW2` followed by `suffix` (padded with
/// zeros), first found in `episode`.
fn switch_pair(suffix: [u8; 5], episode: i16) -> (r: switchlist_t)
    ensures
        r.name1@ == seq![83u8, 87u8, 49u8] + suffix@ + seq![0u8],
        r.name2@ == seq![83u8, 87u8, 50u8] + suffix@ + seq![0u8],
        r.episode == episode,
{
    let r = switchlist_t {
        name1: [83, 87, 49, suffix[0], suffix[1], suffix[2], suffix[3], suffix[4], 0],
        name2: [83, 87, 50, suffix[0], suffix[1], suffix[2], suffix[3], suffix[4], 0],
        episode,
    };
    assert(r.name1@ =~= seq![83u8, 87u8, 49u8] + suffix@ + seq![0u8]);
    assert(r.name2@ =~= seq![83u8, 87u8, 50u8] + suffix@ + seq![0u8]);
    r
}

/// The wall switches of the games, by texture name pairs: those of the
/// first episode, those of the second and third, and those of the second
/// game; an entry of episode 0 ends the table.
pub fn alphSwitchList() -> (r: Vec<switchlist_t>)
    ensures
        r.len() == 41,
        r@[40].episode == 0,
        forall|i: int| 0 <= i < 40 ==> 1 <= #[trigger] r@[i].episode <= 3,
        table_end(r@, 0) == 40,
{
    let mut r: Vec<switchlist_t> = Vec::new();
    r.push(switch_pair([66, 82, 67, 79, 77], 1));  // BRCOM
    r.push(switch_pair([66, 82, 78, 49, 0], 1));  // BRN1
    r.push(switch_pair([66, 82, 78, 50, 0], 1));  // BRN2
    r.push(switch_pair([66, 82, 78, 71, 78], 1));  // BRNGN
    r.push(switch_pair([66, 82, 79, 87, 78], 1));  // BROWN
    r.push(switch_pair([67, 79, 77, 77, 0], 1));  // COMM
    r.push(switch_pair([67, 79, 77, 80, 0], 1));  // COMP
    r.push(switch_pair([68, 73, 82, 84, 0], 1));  // DIRT
    r.push(switch_pair([69, 88, 73, 84, 0], 1));  // EXIT
    r.push(switch_pair([71, 82, 65, 89, 0], 1));  // GRAY
    r.push(switch_pair([71, 82, 65, 89, 49], 1));  // GRAY1
    r.push(switch_pair([77, 69, 84, 65, 76], 1));  // METAL
    r.push(switch_pair([80, 73, 80, 69, 0], 1));  // PIPE
    r.push(switch_pair([83, 76, 65, 68, 0], 1));  // SLAD
    r.push(switch_pair([83, 84, 65, 82, 71], 1));  // STARG
    r.push(switch_pair([83, 84, 79, 78, 49], 1));  // STON1
    r.push(switch_pair([83, 84, 79, 78, 50], 1));  // STON2
    r.push(switch_pair([83, 84, 79, 78, 69], 1));  // STONE
    r.push(switch_pair([83, 84, 82, 84, 78], 1));  // STRTN
    r.push(switch_pair([66, 76, 85, 69, 0], 2));  // BLUE
    r.push(switch_pair([67, 77, 84, 0, 0], 2));  // CMT
    r.push(switch_pair([71, 65, 82, 71, 0], 2));  // GARG
    r.push(switch_pair([71, 83, 84, 79, 78], 2));  // GSTON
    r.push(switch_pair([72, 79, 84, 0, 0], 2));  // HOT
    r.push(switch_pair([76, 73, 79, 78, 0], 2));  // LION
    r.push(switch_pair([83, 65, 84, 89, 82], 2));  // SATYR
    r.push(switch_pair([83, 75, 73, 78, 0], 2));  // SKIN
    r.push(switch_pair([86, 73, 78, 69, 0], 2));  // VINE
    r.push(switch_pair([87, 79, 79, 68, 0], 2));  // WOOD
    r.push(switch_pair([80, 65, 78, 69, 76], 3));  // PANEL
    r.push(switch_pair([82, 79, 67, 75, 0], 3));  // ROCK
    r.push(switch_pair([77, 69, 84, 50, 0], 3));  // MET2
    r.push(switch_pair([87, 68, 77, 69, 84], 3));  // WDMET
    r.push(switch_pair([66, 82, 73, 75, 0], 3));  // BRIK
    r.push(switch_pair([77, 79, 68, 49, 0], 3));  // MOD1
    r.push(switch_pair([90, 73, 77, 0, 0], 3));  // ZIM
    r.push(switch_pair([83, 84, 79, 78, 54], 3));  // STON6
    r.push(switch_pair([84, 69, 75, 0, 0], 3));  // TEK
    r.push(switch_pair([77, 65, 82, 66, 0], 3));  // MARB
    r.push(switch_pair([83, 75, 85, 76, 76], 3));  // SKULL
    r.push(switchlist_t { name1: [0; 9], name2: [0; 9], episode: 0 });
    proof {
        lemma_table_end_at(r@, 40, 0);
    }
    r
}

/// The last episode whose switches a game mode has.
pub open spec fn switch_episode(mode: GameMode_t) -> i16 {
    match mode {
        GameMode_t::registered => 2,
        GameMode_t::commercial => 3,
        _ => 1,
    }
}

/// The index of the first entry from `i` on whose episode is 0 (the end of
/// the table); the table's length where there is none.
pub open spec fn table_end(alph: Seq<switchlist_t>, i: int) -> int
    decreases alph.len() - i,
{
    if i < 0 || i >= alph.len() {
        alph.len() as int
    } else if alph[i].episode == 0 {
        i
    } else {
        table_end(alph, i + 1)
    }
}

/// The entries among the first `n` that a game with switches up to episode
/// `ep` uses, in order.
pub open spec fn used_switches(alph: Seq<switchlist_t>, n: int, ep: i16) -> Seq<switchlist_t>
    decreases n,
{
    if n <= 0 {
        Seq::empty()
    } else if alph[n - 1].episode <= ep {
        used_switches(alph, n - 1, ep).push(alph[n - 1])
    } else {
        used_switches(alph, n - 1, ep)
    }
}

/// The eight bytes of a switch texture name that are looked up.
pub open spec fn switch_name(n: [u8; 9]) -> Seq<u8> {
    n@.subrange(0, 8)
}

/// Both textures of a switch pair are found.
pub open spec fn switch_found(textures: Seq<[u8; 8]>, sw: switchlist_t) -> bool {
    texture_num(textures, switch_name(sw.name1)) >= 0 && texture_num(
        textures,
        switch_name(sw.name2),
    ) >= 0
}

/// The texture numbers of the switch pairs, in order, off before on, each
/// kept as a 16-bit value.
pub open spec fn switch_entry(textures: Seq<[u8; 8]>, used: Seq<switchlist_t>, j: int) -> i16 {
    let sw = used[j / 2];
    (if j % 2 == 0 {
        texture_num(textures, switch_name(sw.name1))
    } else {
        texture_num(textures, switch_name(sw.name2))
    }) as i16
}

fn name_of_switch(n: &[u8; 9]) -> (r: [u8; 8])
    ensures
        r@ == switch_name(*n),
{
    let r: [u8; 8] = [n[0], n[1], n[2], n[3], n[4], n[5], n[6], n[7]];
    assert(r@ =~= switch_name(*n));
    r
}

proof fn lemma_used_prefix(alph: Seq<switchlist_t>, m: int, n: int, ep: i16)
    requires
        0 <= m <= n,
    ensures
        used_switches(alph, m, ep).len() <= used_switches(alph, n, ep).len(),
        forall|k: int|
            0 <= k < used_switches(alph, m, ep).len() ==> #[trigger] used_switches(alph, n, ep)[k]
                == used_switches(alph, m, ep)[k],
    decreases n - m,
{
    if m < n {
        lemma_used_prefix(alph, m, n - 1, ep);
    }
}

proof fn lemma_table_end_at(alph: Seq<switchlist_t>, e: int, i: int)
    requires
        0 <= i <= e < alph.len(),
        alph[e].episode == 0,
        forall|j: int| i <= j < e ==> #[trigger] alph[j].episode != 0,
    ensures
        table_end(alph, i) == e,
    decreases e - i,
{
    if i < e {
        lemma_table_end_at(alph, e, i + 1);
    }
}

proof fn lemma_table_end_is_end(alph: Seq<switchlist_t>, i: int)
    requires
        0 <= i,
    ensures
        table_end(alph, i) >= i || table_end(alph, i) == alph.len(),
        table_end(alph, i) < alph.len() ==> alph[table_end(alph, i)].episode == 0,
        forall|j: int| i <= j < table_end(alph, i) && j < alph.len() ==> #[trigger] alph[j].episode != 0,
    decreases alph.len() - i,
{
    if i < alph.len() && alph[i].episode != 0 {
        lemma_table_end_is_end(alph, i + 1);
    }
}

/// Looks up the textures of the switches that the game mode has, from the
/// start of the table `alph` up to its end entry (see `table_end`): the
/// list holds, for each switch used (see `used_switches`), its off and its
/// on texture number, then -1; the rest of its `2 * MAXSWITCHES` entries are
/// 0. Also gives the number of switches. `None`, which stops the game,
/// where a texture is not found.
pub fn P_InitSwitchList(alph: &Vec<switchlist_t>, gamemode: GameMode_t, textures: &Vec<
    [u8; 8],
>) -> (r: Option<(Vec<i16>, usize)>)
    requires
        textures.len() <= i32::MAX,
        table_end(alph@, 0) < MAXSWITCHES,
        table_end(alph@, 0) < alph.len(),
    ensures
        ({
            let used = used_switches(alph@, table_end(alph@, 0), switch_episode(gamemode));
            &&& r is Some <==> forall|k: int|
                0 <= k < used.len() ==> #[trigger] switch_found(textures@, used[k])
            &&& r matches Some((list, num)) ==> {
                &&& num == used.len()
                &&& list.len() == 2 * MAXSWITCHES
                &&& forall|j: int|
                    0 <= j < 2 * num ==> #[trigger] list@[j] == switch_entry(textures@, used, j)
                &&& list@[2 * num as int] == -1
                &&& forall|j: int| 2 * num < j < list.len() ==> #[trigger] list@[j] == 0
            }
        }),
{
    let episode: i16 = match gamemode {
        GameMode_t::registered => 2,
        GameMode_t::commercial => 3,
        _ => 1,
    };
    let ghost end = table_end(alph@, 0);
    proof {
        lemma_table_end_is_end(alph@, 0);
    }
    let mut list: Vec<i16> = Vec::new();
    while list.len() < 2 * MAXSWITCHES
        invariant
            list.len() <= 2 * MAXSWITCHES,
            forall|j: int| 0 <= j < list.len() ==> #[trigger] list@[j] == 0,
        decreases 2 * MAXSWITCHES - list.len(),
    {
        list.push(0);
    }
    let mut index: usize = 0;
    let mut i: usize = 0;
    while i < MAXSWITCHES
        invariant
            i <= end,
            end == table_end(alph@, 0),
            end < MAXSWITCHES,
            end < alph.len(),
            alph@[end].episode == 0,
            forall|j: int| 0 <= j < end ==> #[trigger] alph@[j].episode != 0,
            episode == switch_episode(gamemode),
            textures.len() <= i32::MAX,
            list.len() == 2 * MAXSWITCHES,
            index == 2 * used_switches(alph@, i as int, episode).len(),
            used_switches(alph@, i as int, episode).len() <= i,
            forall|k: int|
                0 <= k < used_switches(alph@, i as int, episode).len() ==> #[trigger] switch_found(
                    textures@,
                    used_switches(alph@, i as int, episode)[k],
                ),
            forall|j: int|
                0 <= j < index ==> #[trigger] list@[j] == switch_entry(
                    textures@,
                    used_switches(alph@, i as int, episode),
                    j,
                ),
            forall|j: int| index <= j < list.len() ==> #[trigger] list@[j] == 0,
        decreases MAXSWITCHES - i,
    {
        let ghost used = used_switches(alph@, i as int, episode);
        let sw = alph[i];
        if sw.episode == 0 {
            list.set(index, -1);
            return Some((list, index / 2));
        }
        if sw.episode <= episode {
            let ghost used2 = used.push(sw);
            assert(used_switches(alph@, i + 1, episode) == used2);
            let n1 = name_of_switch(&sw.name1);
            let t1 = match R_TextureNumForName(textures, &n1) {
                Some(t) => t,
                None => {
                    proof {
                        lemma_used_prefix(alph@, i + 1, end, episode);
                        assert(!switch_found(
                            textures@,
                            used_switches(alph@, end, episode)[used.len() as int],
                        ));
                    }
                    return None;
                },
            };
            let n2 = name_of_switch(&sw.name2);
            let t2 = match R_TextureNumForName(textures, &n2) {
                Some(t) => t,
                None => {
                    proof {
                        lemma_used_prefix(alph@, i + 1, end, episode);
                        assert(!switch_found(
                            textures@,
                            used_switches(alph@, end, episode)[used.len() as int],
                        ));
                    }
                    return None;
                },
            };
            list.set(index, #[verifier::truncate] (t1 as i16));
            list.set(index + 1, #[verifier::truncate] (t2 as i16));
            proof {
                assert forall|j: int| 0 <= j < index + 2 implies #[trigger] list@[j] == switch_entry(
                    textures@,
                    used2,
                    j,
                ) by {
                    if j < index {
                        assert(used2[j / 2] == used[j / 2]);
                    } else {
                        assert(j / 2 == used.len());
                    }
                }
            }
            index = index + 2;
        }
        i += 1;
    }
    None
}

} // verus!
