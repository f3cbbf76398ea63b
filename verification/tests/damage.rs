use lib::crush::MF_SHOOTABLE;
use lib::damage::{
    DamageSource, DamageTables, DamageTarget, Inflictor, P_DamageMobj, MF_CORPSE, MF_DROPOFF,
};
use lib::enemy::{mobjtype_t, MF_JUSTHIT};
use lib::fixed::FRACUNIT;
use lib::player::{pspdef_t, playerstate_t, skill_t, weapontype_t, Player};

fn player() -> Player {
    Player {
        playerstate: playerstate_t::PST_LIVE,
        health: 100,
        mo_health: 100,
        mo_shadow: false,
        armorpoints: 0,
        armortype: 0,
        powers: [0; 6],
        cards: [false; 6],
        backpack: false,
        readyweapon: weapontype_t::wp_pistol,
        pendingweapon: weapontype_t::wp_nochange,
        weaponowned: [true, true, false, false, false, false, false, false, false],
        ammo: [50, 0, 0, 0],
        maxammo: [200, 50, 300, 50],
        bonuscount: 0,
        damagecount: 0,
        itemcount: 0,
        cheats: 0,
        refire: 0,
        attackdown: false,
        message: None,
        psprites: [pspdef_t { state: None, tics: 0, sx: 0, sy: 0 }; 2],
        extralight: 0,
        usedown: false,
        fixedcolormap: 0,
    }
}

fn monster() -> DamageTarget {
    DamageTarget {
        id: 1,
        flags: MF_SHOOTABLE,
        health: 60,
        x: 100 * FRACUNIT,
        y: 0,
        z: 0,
        height: 56 * FRACUNIT,
        momx: 0,
        momy: 0,
        momz: 0,
        kind: mobjtype_t::MT_OTHER(11),
        mass: 100,
        painchance: 200,
        spawnhealth: 60,
        state: 1,
        spawnstate: 1,
        seestate: 2,
        painstate: 3,
        deathstate: 5,
        xdeathstate: 6,
        reactiontime: 8,
        threshold: 0,
        target: None,
        sector_special: 0,
        is_player: false,
    }
}

fn body() -> DamageTarget {
    DamageTarget { id: 0, health: 100, is_player: true, kind: mobjtype_t::MT_OTHER(0), ..monster() }
}

/// Straight ahead has cosine one and sine zero.
fn tables() -> DamageTables {
    let mut finesine = vec![0; 10240];
    finesine[2048] = FRACUNIT;
    DamageTables { tantoangle: (0..2049u32).map(|i| i * 262144).collect(), finesine }
}

fn imp(id: usize) -> DamageSource {
    DamageSource { id, kind: mobjtype_t::MT_OTHER(11), weapon: None }
}

const FROM_WEST: Option<Inflictor> = Some(Inflictor { x: 0, y: 0, z: 0 });

#[test]
fn a_shot_pushes_hurts_and_angers_a_monster() {
    let mut t = monster();
    let mut p = player();
    let r = P_DamageMobj(&mut t, &mut p, FROM_WEST, Some(imp(7)), 10, skill_t::sk_medium, (0, 255), &tables());
    assert!(r.taken);
    assert_eq!(t.health, 50);
    assert_eq!(t.momx, 81920);
    assert_eq!(t.momy, 0);
    assert_eq!(r.randoms_used, 1);
    assert_eq!(r.pain, None);
    assert_eq!(t.target, Some(7));
    assert_eq!(t.threshold, 100);
    assert_eq!(t.reactiontime, 0);
    assert_eq!(r.see, Some(2));
    assert_eq!(t.state, 2);
    assert_eq!(r.killed, None);
    assert_eq!(r.attacker, None);
}

#[test]
fn a_low_roll_makes_a_monster_flinch() {
    let mut t = monster();
    let mut p = player();
    let r = P_DamageMobj(&mut t, &mut p, FROM_WEST, Some(imp(7)), 10, skill_t::sk_medium, (0, 10), &tables());
    assert_eq!(r.pain, Some(3));
    assert_eq!(t.state, 3);
    assert!(t.flags & MF_JUSTHIT != 0);
    // In its pain frame, it does not start chasing yet.
    assert_eq!(r.see, None);
    assert_eq!(t.target, Some(7));
}

#[test]
fn a_monster_does_not_turn_on_itself() {
    let mut t = monster();
    let mut p = player();
    P_DamageMobj(&mut t, &mut p, FROM_WEST, Some(imp(1)), 10, skill_t::sk_medium, (0, 255), &tables());
    assert_eq!(t.target, None);
    assert_eq!(t.threshold, 0);
}

#[test]
fn a_killing_blow_leaves_a_corpse() {
    let mut t = monster();
    let mut p = player();
    let r = P_DamageMobj(&mut t, &mut p, None, None, 100, skill_t::sk_medium, (0, 0), &tables());
    assert_eq!(r.killed, Some(5));
    assert_eq!(t.health, -40);
    assert_eq!(t.flags & MF_SHOOTABLE, 0);
    assert_eq!(t.flags & (MF_CORPSE | MF_DROPOFF), MF_CORPSE | MF_DROPOFF);
    assert_eq!(t.height, 14 * FRACUNIT);
    assert_eq!(r.randoms_used, 0);
    // Far past its spawn health it is torn apart.
    let mut t = monster();
    let r = P_DamageMobj(&mut t, &mut p, None, None, 200, skill_t::sk_medium, (0, 0), &tables());
    assert_eq!(r.killed, Some(6));
    assert_eq!(p.health, 100);
}

#[test]
fn armor_takes_its_share_of_a_players_damage() {
    let mut t = body();
    let mut p = player();
    p.armortype = 1;
    p.armorpoints = 100;
    let r = P_DamageMobj(&mut t, &mut p, None, Some(imp(7)), 30, skill_t::sk_medium, (0, 255), &tables());
    assert_eq!(p.armorpoints, 90);
    assert_eq!(p.health, 80);
    assert_eq!(p.damagecount, 20);
    assert_eq!(t.health, 80);
    assert_eq!(p.mo_health, 80);
    assert_eq!(r.attacker, Some(7));
    // Used-up armor is gone.
    p.armortype = 2;
    p.armorpoints = 5;
    P_DamageMobj(&mut t, &mut p, None, None, 30, skill_t::sk_medium, (0, 255), &tables());
    assert_eq!(p.armortype, 0);
    assert_eq!(p.armorpoints, 0);
    assert_eq!(p.health, 55);
}

#[test]
fn god_mode_turns_blows_away() {
    let mut t = body();
    let mut p = player();
    p.cheats = 2;
    let r = P_DamageMobj(&mut t, &mut p, None, Some(imp(7)), 999, skill_t::sk_medium, (0, 255), &tables());
    assert!(!r.taken);
    assert_eq!(p.health, 100);
    assert_eq!(t.health, 100);
    // A telefrag still kills.
    let r = P_DamageMobj(&mut t, &mut p, None, Some(imp(7)), 10000, skill_t::sk_medium, (0, 255), &tables());
    assert!(r.killed.is_some());
    assert_eq!(p.health, 0);
    assert_eq!(p.playerstate, playerstate_t::PST_DEAD);
}

#[test]
fn the_easiest_skill_halves_a_players_damage() {
    let mut t = body();
    let mut p = player();
    P_DamageMobj(&mut t, &mut p, None, None, 30, skill_t::sk_baby, (0, 255), &tables());
    assert_eq!(p.health, 85);
}

#[test]
fn the_last_sector_never_kills_a_player() {
    let mut t = body();
    t.sector_special = 11;
    let mut p = player();
    let r = P_DamageMobj(&mut t, &mut p, None, None, 200, skill_t::sk_medium, (0, 255), &tables());
    assert_eq!(r.killed, None);
    assert_eq!(t.health, 1);
    assert_eq!(p.damagecount, 99);
}

#[test]
fn the_chainsaw_does_not_push() {
    let mut t = monster();
    let mut p = player();
    let saw = DamageSource { id: 0, kind: mobjtype_t::MT_OTHER(0), weapon: Some(weapontype_t::wp_chainsaw) };
    P_DamageMobj(&mut t, &mut p, FROM_WEST, Some(saw), 10, skill_t::sk_medium, (0, 255), &tables());
    assert_eq!(t.momx, 0);
    assert_eq!(t.health, 50);
}

#[test]
fn what_cannot_be_shot_is_left_alone() {
    let mut t = monster();
    t.flags = 0;
    let mut p = player();
    let r = P_DamageMobj(&mut t, &mut p, FROM_WEST, None, 10, skill_t::sk_medium, (0, 0), &tables());
    assert!(!r.taken);
    assert_eq!(t.health, 60);
    assert_eq!(t.momx, 0);
}
