//! What the death of a boss monster does: on the maps that end when their
//! bosses die, once the last of them is dead and a player still lives, the
//! level opens up.

use vstd::prelude::*;

use crate::enemy::mobjtype_t;
use crate::floors::floor_e;
use crate::movers::vldoor_e;
use crate::player::GameMode_t;
use crate::sectors::MAXPLAYERS;

verus! {

/// A thing of the level, as the boss deaths see it.
#[derive(Debug, Clone, Copy, PartialEq, Eq, Structural)]
pub struct BossThing {
    pub ty: mobjtype_t,
    pub health: i32,
}

/// What a boss death sets off.
#[derive(Debug, Clone, Copy, PartialEq, Eq, Structural)]
pub enum BossAction {
    Nothing,
    /// Move the floors of the sectors with this tag.
    Floor(floor_e, i16),
    /// Open the doors of the sectors with this tag.
    Door(vldoor_e, i16),
}

/// The death of a thing of kind `ty` on this map can end it.
pub open spec fn boss_map(gamemode: GameMode_t, episode: i32, map: i32, ty: mobjtype_t) -> bool {
    if gamemode == GameMode_t::commercial {
        map == 7 && (ty == mobjtype_t::MT_FATSO || ty == mobjtype_t::MT_BABY)
    } else if episode == 1 {
        map == 8 && ty == mobjtype_t::MT_BRUISER
    } else if episode == 2 {
        map == 8 && ty == mobjtype_t::MT_CYBORG
    } else if episode == 3 {
        map == 8 && ty == mobjtype_t::MT_SPIDER
    } else if episode == 4 {
        (map == 6 && ty == mobjtype_t::MT_CYBORG) || (map == 8 && ty == mobjtype_t::MT_SPIDER)
    } else {
        map == 8
    }
}

/// A player in the game is alive.
pub open spec fn player_alive(playeringame: [bool; MAXPLAYERS], health: [i32; MAXPLAYERS]) -> bool {
    exists|i: int| 0 <= i < MAXPLAYERS && #[trigger] playeringame[i] && health[i] > 0
}

/// Some thing other than thing `mo` is of the same kind and alive.
pub open spec fn other_boss_alive(things: Seq<BossThing>, mo: int) -> bool {
    exists|j: int|
        0 <= j < things.len() && j != mo && #[trigger] things[j].ty == things[mo].ty
            && things[j].health > 0
}

/// The death of the last boss with a player alive wins the map.
pub open spec fn boss_victory(
    gamemode: GameMode_t,
    episode: i32,
    map: i32,
    things: Seq<BossThing>,
    mo: int,
    playeringame: [bool; MAXPLAYERS],
    health: [i32; MAXPLAYERS],
) -> bool {
    &&& boss_map(gamemode, episode, map, things[mo].ty)
    &&& player_alive(playeringame, health)
    &&& !other_boss_alive(things, mo)
}

/// What winning the map does.
pub open spec fn victory_action(gamemode: GameMode_t, episode: i32, map: i32, ty: mobjtype_t) -> BossAction {
    if gamemode == GameMode_t::commercial {
        if ty == mobjtype_t::MT_FATSO {
            BossAction::Floor(floor_e::lowerFloorToLowest, 666)
        } else {
            BossAction::Floor(floor_e::raiseToTexture, 667)
        }
    } else if episode == 1 {
        BossAction::Floor(floor_e::lowerFloorToLowest, 666)
    } else if map == 6 {
        BossAction::Door(vldoor_e::blazeOpen, 666)
    } else {
        BossAction::Floor(floor_e::lowerFloorToLowest, 666)
    }
}

/// What the death of thing `mo` sets off: nothing unless it wins the map
/// (see `boss_victory`), and then the map's action (see `victory_action`).
/// Outside the second game, a win in an episode other than the first and
/// the fourth stops the game, so such deaths are left out.
pub fn A_BossDeath(
    gamemode: GameMode_t,
    gameepisode: i32,
    gamemap: i32,
    things: &Vec<BossThing>,
    mo: usize,
    playeringame: [bool; MAXPLAYERS],
    health: [i32; MAXPLAYERS],
) -> (r: BossAction)
    requires
        mo < things.len(),
        boss_victory(gamemode, gameepisode, gamemap, things@, mo as int, playeringame, health)
            ==> gamemode == GameMode_t::commercial || gameepisode == 1 || gameepisode == 4,
    ensures
        r == if boss_victory(gamemode, gameepisode, gamemap, things@, mo as int, playeringame, health) {
            victory_action(gamemode, gameepisode, gamemap, things@[mo as int].ty)
        } else {
            BossAction::Nothing
        },
{
    let ty = things[mo].ty;
    if gamemode == GameMode_t::commercial {
        if gamemap != 7 {
            return BossAction::Nothing;
        }
        if ty != mobjtype_t::MT_FATSO && ty != mobjtype_t::MT_BABY {
            return BossAction::Nothing;
        }
    } else if gameepisode == 1 {
        if gamemap != 8 || ty != mobjtype_t::MT_BRUISER {
            return BossAction::Nothing;
        }
    } else if gameepisode == 2 {
        if gamemap != 8 || ty != mobjtype_t::MT_CYBORG {
            return BossAction::Nothing;
        }
    } else if gameepisode == 3 {
        if gamemap != 8 || ty != mobjtype_t::MT_SPIDER {
            return BossAction::Nothing;
        }
    } else if gameepisode == 4 {
        if gamemap == 6 {
            if ty != mobjtype_t::MT_CYBORG {
                return BossAction::Nothing;
            }
        } else if gamemap == 8 {
            if ty != mobjtype_t::MT_SPIDER {
                return BossAction::Nothing;
            }
        } else {
            return BossAction::Nothing;
        }
    } else if gamemap != 8 {
        return BossAction::Nothing;
    }
    // make sure there is a player alive for victory
    let mut alive = false;
    let mut p: usize = 0;
    while p < MAXPLAYERS
        invariant
            p <= MAXPLAYERS,
            alive == exists|i: int| 0 <= i < p && #[trigger] playeringame[i] && health[i] > 0,
        decreases MAXPLAYERS - p,
    {
        if playeringame[p] && health[p] > 0 {
            alive = true;
        }
        p += 1;
    }
    if !alive {
        return BossAction::Nothing;
    }
    // see whether all the other bosses are dead
    let mut j: usize = 0;
    while j < things.len()
        invariant
            j <= things.len(),
            mo < things.len(),
            ty == things@[mo as int].ty,
            forall|k: int|
                0 <= k < j && k != mo ==> !(#[trigger] things@[k].ty == ty && things@[k].health > 0),
        decreases things.len() - j,
    {
        if j != mo && things[j].ty == ty && things[j].health > 0 {
            return BossAction::Nothing;
        }
        j += 1;
    }
    // victory
    if gamemode == GameMode_t::commercial {
        if ty == mobjtype_t::MT_FATSO {
            BossAction::Floor(floor_e::lowerFloorToLowest, 666)
        } else {
            BossAction::Floor(floor_e::raiseToTexture, 667)
        }
    } else if gameepisode == 1 {
        BossAction::Floor(floor_e::lowerFloorToLowest, 666)
    } else if gamemap == 6 {
        BossAction::Door(vldoor_e::blazeOpen, 666)
    } else {
        BossAction::Floor(floor_e::lowerFloorToLowest, 666)
    }
}

} // verus!
