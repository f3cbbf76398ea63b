use lib::boss::{A_BossDeath, BossAction, BossThing};
use lib::enemy::mobjtype_t;
use lib::floors::floor_e;
use lib::movers::vldoor_e;
use lib::player::GameMode_t;

fn thing(ty: mobjtype_t, health: i32) -> BossThing {
    BossThing { ty, health }
}

const ONE_PLAYER: [bool; 4] = [true, false, false, false];

#[test]
fn last_baron_of_e1m8_lowers_the_walls() {
    let things = vec![thing(mobjtype_t::MT_BRUISER, 0), thing(mobjtype_t::MT_OTHER(3), 20), thing(mobjtype_t::MT_BRUISER, -5)];
    let r = A_BossDeath(GameMode_t::shareware, 1, 8, &things, 0, ONE_PLAYER, [50, 0, 0, 0]);
    assert_eq!(r, BossAction::Floor(floor_e::lowerFloorToLowest, 666));
}

#[test]
fn a_living_baron_holds_the_walls() {
    let things = vec![thing(mobjtype_t::MT_BRUISER, 0), thing(mobjtype_t::MT_BRUISER, 1)];
    let r = A_BossDeath(GameMode_t::shareware, 1, 8, &things, 0, ONE_PLAYER, [50, 0, 0, 0]);
    assert_eq!(r, BossAction::Nothing);
}

#[test]
fn no_victory_without_a_living_player() {
    let things = vec![thing(mobjtype_t::MT_BRUISER, 0)];
    let r = A_BossDeath(GameMode_t::registered, 1, 8, &things, 0, ONE_PLAYER, [0, 100, 0, 0]);
    assert_eq!(r, BossAction::Nothing);
    let r = A_BossDeath(GameMode_t::registered, 1, 8, &things, 0, [true, true, false, false], [0, 100, 0, 0]);
    assert_eq!(r, BossAction::Floor(floor_e::lowerFloorToLowest, 666));
}

#[test]
fn boss_deaths_elsewhere_do_nothing() {
    let things = vec![thing(mobjtype_t::MT_BRUISER, 0)];
    assert_eq!(A_BossDeath(GameMode_t::shareware, 1, 7, &things, 0, ONE_PLAYER, [9, 0, 0, 0]), BossAction::Nothing);
    let things = vec![thing(mobjtype_t::MT_CYBORG, 0)];
    assert_eq!(A_BossDeath(GameMode_t::shareware, 1, 8, &things, 0, ONE_PLAYER, [9, 0, 0, 0]), BossAction::Nothing);
    assert_eq!(A_BossDeath(GameMode_t::retail, 4, 7, &things, 0, ONE_PLAYER, [9, 0, 0, 0]), BossAction::Nothing);
    assert_eq!(A_BossDeath(GameMode_t::commercial, 1, 7, &things, 0, ONE_PLAYER, [9, 0, 0, 0]), BossAction::Nothing);
    let things = vec![thing(mobjtype_t::MT_CYBORG, 0), thing(mobjtype_t::MT_CYBORG, 10)];
    assert_eq!(A_BossDeath(GameMode_t::registered, 2, 8, &things, 0, ONE_PLAYER, [9, 0, 0, 0]), BossAction::Nothing);
}

#[test]
fn episode_four_bosses() {
    let things = vec![thing(mobjtype_t::MT_CYBORG, 0)];
    let r = A_BossDeath(GameMode_t::retail, 4, 6, &things, 0, ONE_PLAYER, [9, 0, 0, 0]);
    assert_eq!(r, BossAction::Door(vldoor_e::blazeOpen, 666));
    let things = vec![thing(mobjtype_t::MT_SPIDER, 0)];
    let r = A_BossDeath(GameMode_t::retail, 4, 8, &things, 0, ONE_PLAYER, [9, 0, 0, 0]);
    assert_eq!(r, BossAction::Floor(floor_e::lowerFloorToLowest, 666));
}

#[test]
fn map07_of_the_second_game() {
    let things = vec![thing(mobjtype_t::MT_FATSO, 0), thing(mobjtype_t::MT_BABY, 300)];
    let r = A_BossDeath(GameMode_t::commercial, 1, 7, &things, 0, ONE_PLAYER, [9, 0, 0, 0]);
    assert_eq!(r, BossAction::Floor(floor_e::lowerFloorToLowest, 666));
    let r = A_BossDeath(GameMode_t::commercial, 1, 7, &things, 1, ONE_PLAYER, [9, 0, 0, 0]);
    assert_eq!(r, BossAction::Floor(floor_e::raiseToTexture, 667));
}

use lib::enemy::{MF_JUSTHIT, MissileChance, P_CheckMeleeRange, P_CheckMissileRange};
use lib::fixed::FRACUNIT;

const F: i32 = FRACUNIT;

#[test]
fn melee_range_reaches_the_target_radius() {
    assert!(P_CheckMeleeRange(true, 0, 0, 50 * F, 0, 20 * F, true));
    assert!(!P_CheckMeleeRange(true, 0, 0, 50 * F, 0, 20 * F, false));
    assert!(!P_CheckMeleeRange(true, 0, 0, 64 * F, 0, 20 * F, true));
    assert!(P_CheckMeleeRange(true, 0, 0, 64 * F - 1, 0, 20 * F, true));
    assert!(!P_CheckMeleeRange(false, 0, 0, 0, 0, 20 * F, true));
}

#[test]
fn missile_decision_before_distance() {
    let mut flags = MF_JUSTHIT | 1;
    let kind = mobjtype_t::MT_OTHER(9);
    assert_eq!(P_CheckMissileRange(&mut flags, 0, kind, true, 0, 0, 9 * F, 0, false), MissileChance::Never);
    assert_eq!(flags, MF_JUSTHIT | 1);
    assert_eq!(P_CheckMissileRange(&mut flags, 3, kind, true, 0, 0, 9 * F, 0, true), MissileChance::Always);
    assert_eq!(flags, 1);
    assert_eq!(P_CheckMissileRange(&mut flags, 3, kind, true, 0, 0, 9 * F, 0, true), MissileChance::Never);
}

#[test]
fn missile_chance_by_distance() {
    let mut flags = 0;
    let other = mobjtype_t::MT_OTHER(9);
    let chance = |flags: &mut u32, kind, melee, dx: i32| P_CheckMissileRange(flags, 0, kind, melee, dx, 0, 0, 0, true);
    assert_eq!(chance(&mut flags, other, true, 100 * F), MissileChance::Roll(36));
    assert_eq!(chance(&mut flags, other, false, 100 * F), MissileChance::Roll(-92));
    assert_eq!(chance(&mut flags, other, true, 10 * F + 1), MissileChance::Roll(-54));
    assert_eq!(chance(&mut flags, other, true, 10 * F - 1), MissileChance::Roll(-55));
    assert_eq!(chance(&mut flags, other, false, 1000 * F), MissileChance::Roll(200));
    assert_eq!(chance(&mut flags, mobjtype_t::MT_VILE, true, 1000 * F), MissileChance::Never);
    assert_eq!(chance(&mut flags, mobjtype_t::MT_VILE, true, 960 * F), MissileChance::Roll(200));
    assert_eq!(chance(&mut flags, mobjtype_t::MT_UNDEAD, true, 150 * F), MissileChance::Never);
    assert_eq!(chance(&mut flags, mobjtype_t::MT_UNDEAD, true, 300 * F), MissileChance::Roll(118));
    assert_eq!(chance(&mut flags, mobjtype_t::MT_CYBORG, false, 500 * F), MissileChance::Roll(154));
    assert_eq!(chance(&mut flags, mobjtype_t::MT_CYBORG, false, 1000 * F), MissileChance::Roll(160));
    assert_eq!(chance(&mut flags, mobjtype_t::MT_SKULL, true, 84 * F), MissileChance::Roll(10));
    assert_eq!(flags, 0);
}
