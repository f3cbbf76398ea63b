//! Damage to monsters and players: the push away from what hit them, the
//! player's armor and protections, death, pain and whom the victim turns
//! on.

use vstd::prelude::*;

use crate::channels::tdiv;
use crate::crush::{MF_SHOOTABLE, MF_SOLID};
use crate::enemy::{mobjtype_t, MF_JUSTHIT};
use crate::fixed::{FixedMul, FRACUNIT, fixed_t};
use crate::geom::{fmul, point_to_angle, R_PointToAngle2, SLOPERANGE};
use crate::player::{playerstate_t, weapontype_t, Player, PlayerModel, CF_GODMODE, skill_t};
use crate::zmove::{MF_FLOAT, MF_NOCLIP, MF_NOGRAVITY, MF_SKULLFLY};

verus! {

/// Thing flag: the thing is a corpse.
pub const MF_CORPSE: u32 = 0x100000;

/// Thing flag: the thing may step off ledges.
pub const MF_DROPOFF: u32 = 0x400;

/// How long a monster keeps after the thing that last hurt it.
pub const BASETHRESHOLD: i32 = 100;

/// Half a turn.
pub const ANG180: u32 = 0x8000_0000;

/// The thing being damaged: its number, flags and health, where it is and
/// how it moves, its kind and what its kind's table gives (mass, pain
/// chance, spawn health and state numbers, 0 for none), the frame it is
/// in, how long it waits and keeps after its target, the special of its
/// sector, and whether it is a player's body.
#[derive(Debug, Clone, Copy, PartialEq, Eq, Structural)]
pub struct DamageTarget {
    pub id: usize,
    pub flags: u32,
    pub health: i32,
    pub x: fixed_t,
    pub y: fixed_t,
    pub z: fixed_t,
    pub height: fixed_t,
    pub momx: fixed_t,
    pub momy: fixed_t,
    pub momz: fixed_t,
    pub kind: mobjtype_t,
    pub mass: i32,
    pub painchance: i32,
    pub spawnhealth: i32,
    pub state: usize,
    pub spawnstate: usize,
    pub seestate: usize,
    pub painstate: usize,
    pub deathstate: usize,
    pub xdeathstate: usize,
    pub reactiontime: i32,
    pub threshold: i32,
    pub target: Option<usize>,
    pub sector_special: i16,
    pub is_player: bool,
}

/// Where the thing that caused the damage (a creature or a missile) is.
#[derive(Debug, Clone, Copy, PartialEq, Eq, Structural)]
pub struct Inflictor {
    pub x: fixed_t,
    pub y: fixed_t,
    pub z: fixed_t,
}

/// The thing to blame: its number, its kind, and the weapon in its hands
/// when it is a player.
#[derive(Debug, Clone, Copy, PartialEq, Eq, Structural)]
pub struct DamageSource {
    pub id: usize,
    pub kind: mobjtype_t,
    pub weapon: Option<weapontype_t>,
}

/// What came of the damage: whether it was taken, the random numbers
/// used, the frames the thing entered in turn (pain, then chasing; the
/// death frame when it died), whom a player now blames, and whether the
/// thing died (the caller then counts the kill, drops what it carried and
/// runs its death frame).
#[derive(Debug, Clone, Copy, PartialEq, Eq, Structural)]
pub struct DamageResult {
    pub taken: bool,
    pub randoms_used: u8,
    pub pain: Option<usize>,
    pub see: Option<usize>,
    pub killed: Option<usize>,
    pub attacker: Option<usize>,
}

/// The tables the push reads.
pub struct DamageTables {
    pub tantoangle: Vec<u32>,
    pub finesine: Vec<i32>,
}

/// Damage halves for a player on the easiest skill.
pub open spec fn skill_damage(t: DamageTarget, skill: skill_t, damage: i32) -> i32 {
    if t.is_player && skill == skill_t::sk_baby { damage >> 1u32 } else { damage }
}

/// The hit pushes the thing: there is an inflictor, the thing can be
/// pushed, and the blame is not on a player with the chainsaw.
pub open spec fn pushed(t: DamageTarget, inflictor: Option<Inflictor>, source: Option<DamageSource>) -> bool {
    &&& inflictor is Some
    &&& t.flags & MF_NOCLIP == 0
    &&& !(source matches Some(s) && s.weapon == Some(weapontype_t::wp_chainsaw))
}

/// The push may throw the thing forwards: a small blow that kills, from
/// far below.
pub open spec fn may_fall_forward(t: DamageTarget, i: Inflictor, d: i32) -> bool {
    d < 40 && d > t.health && t.z - i.z > 64 * FRACUNIT
}

/// The momentum after the push (from `inflictor` towards the thing, the
/// harder the lighter it is; four times as hard and backwards when it
/// falls forward on an odd random number `roll`).
pub open spec fn push(t: DamageTarget, i: Inflictor, d: i32, roll: u8, tantoangle: Seq<u32>, finesine: Seq<i32>) -> (i32, i32) {
    let ang0 = point_to_angle(t.x as int, t.y as int, i.x as int, i.y as int, tantoangle);
    let thrust0 = tdiv(d.wrapping_mul(8192).wrapping_mul(100) as int, t.mass as int) as i32;
    let fall = may_fall_forward(t, i, d) && roll & 1 == 1;
    let ang = if fall { ang0.wrapping_add(ANG180) } else { ang0 };
    let thrust = if fall { thrust0.wrapping_mul(4) } else { thrust0 };
    let a = ang as int / 524288;
    (
        t.momx.wrapping_add(fmul(thrust as int, finesine[a + 2048] as int) as i32),
        t.momy.wrapping_add(fmul(thrust as int, finesine[a] as int) as i32),
    )
}

/// The damage a player takes before armor: one less than its health on
/// the level's end-of-game sector.
pub open spec fn player_damage(t: DamageTarget, d: i32) -> i32 {
    if t.sector_special == 11 && d >= t.health { (t.health - 1) as i32 } else { d }
}

/// God mode or invulnerability turns the blow away (not a blow of 1000
/// or more).
pub open spec fn protected(p: PlayerModel, d: i32) -> bool {
    d < 1000 && (p.cheats & CF_GODMODE != 0 || p.powers[0] != 0)
}

/// What the armor takes of damage `d`: a third (green) or half (blue),
/// all that is left of it at most.
pub open spec fn armor_saved(p: PlayerModel, d: i32) -> int {
    if p.armortype == 0 {
        0
    } else {
        let s = if p.armortype == 1 { tdiv(d as int, 3) } else { tdiv(d as int, 2) };
        if p.armorpoints <= s { p.armorpoints as int } else { s }
    }
}

/// The player after taking damage `d` from `source`: the armor wears (and
/// is gone when used up), health drops (not below 0), and the damage
/// count rises (to 100 at most).
pub open spec fn player_hurt(p: PlayerModel, d: i32) -> PlayerModel {
    let saved = armor_saved(p, d);
    let taken = d - saved;
    let h = p.health - taken;
    let dc = p.damagecount + taken;
    PlayerModel {
        armortype: if p.armortype != 0 && p.armorpoints <= saved { 0 } else { p.armortype },
        armorpoints: (p.armorpoints - saved) as i32,
        health: if h < 0 { 0 } else { h as i32 },
        damagecount: if dc > 100 { 100 } else { dc as i32 },
        ..p
    }
}

/// The thing's flags and height once dead: no longer shootable, floating
/// or flying, falling (but a lost soul), a corpse that may drop off
/// ledges, a quarter as tall; a player's body no longer blocks.
pub open spec fn dead_body(t: DamageTarget) -> DamageTarget {
    let f1 = t.flags & !(MF_SHOOTABLE | MF_FLOAT | MF_SKULLFLY);
    let f2 = if t.kind != mobjtype_t::MT_SKULL { f1 & !MF_NOGRAVITY } else { f1 };
    let f3 = f2 | MF_CORPSE | MF_DROPOFF;
    let f4 = if t.is_player { f3 & !MF_SOLID } else { f3 };
    DamageTarget { flags: f4, height: t.height >> 2u32, ..t }
}

/// The frame a dead thing enters: the gory one when it was hurt far past
/// its spawn health and has one.
pub open spec fn death_frame(t: DamageTarget) -> usize {
    if t.health < -t.spawnhealth && t.xdeathstate != 0 { t.xdeathstate } else { t.deathstate }
}

/// A thing that stayed alive after the hit, with its new health in `t3`
/// (`t` as it was before): it feels pain on a random number `roll` under
/// its pain chance (not while flying at its target), wakes up, and turns
/// on `source` (not itself, nor an arch-vile) unless it keeps after another
/// target (an arch-vile always turns), entering its chasing frame where it
/// was still in its spawn frame.
pub open spec fn react(t: DamageTarget, t3: DamageTarget, source: Option<DamageSource>, roll: u8) -> (DamageTarget, bool, bool) {
    let pain = (roll as int) < t.painchance && t.flags & MF_SKULLFLY == 0;
    let t4 = if pain { DamageTarget { flags: t3.flags | MF_JUSTHIT, state: t.painstate, ..t3 } } else { t3 };
    let t5 = DamageTarget { reactiontime: 0, ..t4 };
    let chase = (t.threshold == 0 || t.kind == mobjtype_t::MT_VILE) && (source matches Some(s) && s.id != t.id
        && s.kind != mobjtype_t::MT_VILE);
    let see = chase && t5.state == t.spawnstate && t.seestate != 0;
    let t6 = if chase { DamageTarget { target: Some(source->0.id), threshold: BASETHRESHOLD, ..t5 } } else { t5 };
    (if see { DamageTarget { state: t.seestate, ..t6 } } else { t6 }, pain, see)
}

/// The hit after the push (`t2`), with damage `d2` before armor: a
/// protected player takes nothing; else the player's armor, health and
/// damage count take it, the thing's health drops, and it dies or reacts.
pub open spec fn struck(
    t: DamageTarget,
    t2: DamageTarget,
    p: PlayerModel,
    source: Option<DamageSource>,
    d2: i32,
    roll: u8,
    used1: u8,
) -> (DamageTarget, PlayerModel, DamageResult) {
    let nothing = DamageResult { taken: false, randoms_used: 0, pain: None, see: None, killed: None, attacker: None };
    if t.is_player && protected(p, d2) {
        (t2, p, DamageResult { randoms_used: used1, ..nothing })
    } else {
        let dmg = if t.is_player { d2 - armor_saved(p, d2) } else { d2 as int };
        let attacker = if t.is_player { match source { Some(s) => Some(s.id), None => None } } else { None };
        let p1 = if t.is_player { player_hurt(p, d2) } else { p };
        let t3 = DamageTarget { health: (t.health - dmg) as i32, ..t2 };
        let p2 = if t.is_player { PlayerModel { mo_health: t3.health, ..p1 } } else { p1 };
        if t3.health <= 0 {
            let fr = death_frame(t3);
            (
                DamageTarget { state: fr, ..dead_body(t3) },
                if t.is_player { PlayerModel { playerstate: playerstate_t::PST_DEAD, ..p2 } } else { p2 },
                DamageResult { taken: true, randoms_used: used1, killed: Some(fr), attacker, ..nothing },
            )
        } else {
            let (t7, pain, see) = react(t, t3, source, roll);
            (
                t7,
                p2,
                DamageResult {
                    taken: true,
                    randoms_used: (used1 + 1) as u8,
                    pain: if pain { Some(t.painstate) } else { None },
                    see: if see { Some(t.seestate) } else { None },
                    killed: None,
                    attacker,
                },
            )
        }
    }
}

/// The thing and the player (where the thing is a player's body) after
/// damage `damage`, dealt by `inflictor` (none for the environment) on
/// behalf of `source`, with the random numbers `rolls` at hand: nothing
/// happens to what cannot be shot or is dead; a thing flying at its target
/// stops; a player on the easiest skill takes half; the hit pushes the
/// thing (see `push`); then see `struck`.
pub open spec fn damaged(
    t: DamageTarget,
    p: PlayerModel,
    inflictor: Option<Inflictor>,
    source: Option<DamageSource>,
    damage: i32,
    skill: skill_t,
    rolls: (u8, u8),
    tantoangle: Seq<u32>,
    finesine: Seq<i32>,
) -> (DamageTarget, PlayerModel, DamageResult) {
    let nothing = DamageResult { taken: false, randoms_used: 0, pain: None, see: None, killed: None, attacker: None };
    if t.flags & MF_SHOOTABLE == 0 || t.health <= 0 {
        (t, p, nothing)
    } else {
        let t1 = if t.flags & MF_SKULLFLY != 0 { DamageTarget { momx: 0, momy: 0, momz: 0, ..t } } else { t };
        let d1 = skill_damage(t, skill, damage);
        let used1: u8 = if pushed(t, inflictor, source) && may_fall_forward(t, inflictor->0, d1) { 1 } else { 0 };
        let t2 = if pushed(t, inflictor, source) {
            let (mx, my) = push(t1, inflictor->0, d1, rolls.0, tantoangle, finesine);
            DamageTarget { momx: mx, momy: my, ..t1 }
        } else {
            t1
        };
        let d2 = if t.is_player { player_damage(t, d1) } else { d1 };
        struck(t, t2, p, source, d2, rolls.1, used1)
    }
}

/// The damage can be dealt without overflow: the thing has mass, the
/// tables are long enough, the push's angle can be found, and the health,
/// armor and damage counts stay in range.
pub open spec fn damage_ok(
    t: DamageTarget,
    p: PlayerModel,
    inflictor: Option<Inflictor>,
    damage: i32,
    skill: skill_t,
    tantoangle: Seq<u32>,
    finesine: Seq<i32>,
) -> bool {
    let d1 = skill_damage(t, skill, damage);
    let d2 = if t.is_player { player_damage(t, d1) } else { d1 };
    &&& t.mass > 0
    &&& tantoangle.len() > SLOPERANGE
    &&& finesine.len() >= 10240
    &&& (inflictor matches Some(i) ==> {
        &&& i32::MIN < t.x - i.x <= i32::MAX
        &&& i32::MIN < t.y - i.y <= i32::MAX
    })
    &&& p.powers.len() > 0
    &&& fits_all(t, p, d2)
    &&& -i32::MAX <= t.spawnhealth
}

/// The player's and the thing's sums stay in range for damage `d`.
pub open spec fn fits_all(t: DamageTarget, p: PlayerModel, d: i32) -> bool {
    if t.is_player {
        let saved = armor_saved(p, d);
        let taken = d - saved;
        &&& i32::MIN <= p.armorpoints - saved <= i32::MAX
        &&& i32::MIN <= taken <= i32::MAX
        &&& i32::MIN <= p.health - taken <= i32::MAX
        &&& i32::MIN <= p.damagecount + taken <= i32::MAX
        &&& i32::MIN <= t.health - taken <= i32::MAX
    } else {
        i32::MIN <= t.health - d <= i32::MAX
    }
}

fn push_thing(
    target: &mut DamageTarget,
    inflictor: Option<Inflictor>,
    source: Option<DamageSource>,
    d1: i32,
    roll: u8,
    tables: &DamageTables,
) -> (used: u8)
    requires
        old(target).mass > 0,
        tables.tantoangle.len() > SLOPERANGE,
        tables.finesine.len() >= 10240,
        inflictor matches Some(i) ==> {
            &&& i32::MIN < old(target).x - i.x <= i32::MAX
            &&& i32::MIN < old(target).y - i.y <= i32::MAX
        },
    ensures
        *final(target) == (if pushed(*old(target), inflictor, source) {
            let (mx, my) = push(*old(target), inflictor->0, d1, roll, tables.tantoangle@, tables.finesine@);
            DamageTarget { momx: mx, momy: my, ..*old(target) }
        } else {
            *old(target)
        }),
        used == (if pushed(*old(target), inflictor, source) && may_fall_forward(*old(target), inflictor->0, d1) { 1u8 } else { 0u8 }),
{
    let chainsaw = match source {
        Some(s) => match s.weapon {
            Some(w) => w == weapontype_t::wp_chainsaw,
            None => false,
        },
        None => false,
    };
    let inf = match inflictor {
        Some(i) => i,
        None => {
            return 0;
        },
    };
    if target.flags & MF_NOCLIP != 0 || chainsaw {
        return 0;
    }
    let mut used: u8 = 0;
    let mut ang = R_PointToAngle2(inf.x, inf.y, target.x, target.y, &tables.tantoangle);
    let mut thrust = d1.wrapping_mul(8192).wrapping_mul(100) / target.mass;
    assert(thrust as int == tdiv(d1.wrapping_mul(8192).wrapping_mul(100) as int, target.mass as int));
    let may_fall = d1 < 40 && d1 > target.health && (target.z as i64) - (inf.z as i64) > (64 * FRACUNIT) as i64;
    if may_fall {
        used = 1;
        if roll & 1 == 1 {
            ang = ang.wrapping_add(ANG180);
            thrust = thrust.wrapping_mul(4);
        }
    }
    let a = (ang / 524288) as usize;
    target.momx = target.momx.wrapping_add(FixedMul(thrust, tables.finesine[a + 2048]));
    target.momy = target.momy.wrapping_add(FixedMul(thrust, tables.finesine[a]));
    used
}

fn hurt_player(player: &mut Player, d2: i32, t: DamageTarget) -> (taken: i32)
    requires
        fits_all(t, old(player)@, d2),
        t.is_player,
    ensures
        final(player)@ == player_hurt(old(player)@, d2),
        taken == d2 - armor_saved(old(player)@, d2),
{
    let mut d = d2;
    if player.armortype != 0 {
        let mut saved = if player.armortype == 1 { d / 3 } else { d / 2 };
        if player.armorpoints <= saved {
            saved = player.armorpoints;
            player.armortype = 0;
        }
        player.armorpoints = player.armorpoints - saved;
        d = d - saved;
    }
    player.health = player.health - d;
    if player.health < 0 {
        player.health = 0;
    }
    player.damagecount = player.damagecount + d;
    if player.damagecount > 100 {
        player.damagecount = 100;
    }
    d
}

fn kill(target: &mut DamageTarget) -> (fr: usize)
    requires
        -i32::MAX <= old(target).spawnhealth,
    ensures
        fr == death_frame(*old(target)),
        *final(target) == (DamageTarget { state: fr, ..dead_body(*old(target)) }),
{
    target.flags = target.flags & !(MF_SHOOTABLE | MF_FLOAT | MF_SKULLFLY);
    if target.kind != mobjtype_t::MT_SKULL {
        target.flags = target.flags & !MF_NOGRAVITY;
    }
    target.flags = target.flags | MF_CORPSE | MF_DROPOFF;
    target.height = target.height >> 2u32;
    if target.is_player {
        target.flags = target.flags & !MF_SOLID;
    }
    let fr = if target.health < -target.spawnhealth && target.xdeathstate != 0 {
        target.xdeathstate
    } else {
        target.deathstate
    };
    target.state = fr;
    fr
}

fn react_to(target: &mut DamageTarget, t: DamageTarget, source: Option<DamageSource>, roll: u8) -> (r: (bool, bool))
    requires
        old(target).flags == t.flags,
        old(target).state == t.state,
        old(target).painchance == t.painchance,
        old(target).painstate == t.painstate,
        old(target).threshold == t.threshold,
        old(target).kind == t.kind,
        old(target).id == t.id,
        old(target).spawnstate == t.spawnstate,
        old(target).seestate == t.seestate,
    ensures
        (*final(target), r.0, r.1) == react(t, *old(target), source, roll),
{
    let pain = (roll as i32) < target.painchance && target.flags & MF_SKULLFLY == 0;
    if pain {
        target.flags = target.flags | MF_JUSTHIT;
        target.state = target.painstate;
    }
    target.reactiontime = 0;
    let mut see = false;
    if let Some(s) = source {
        if (target.threshold == 0 || target.kind == mobjtype_t::MT_VILE) && s.id != target.id && s.kind
            != mobjtype_t::MT_VILE {
            target.target = Some(s.id);
            target.threshold = BASETHRESHOLD;
            if target.state == target.spawnstate && target.seestate != 0 {
                target.state = target.seestate;
                see = true;
            }
        }
    }
    (pain, see)
}

#[verifier::rlimit(30)]
fn strike(
    target: &mut DamageTarget,
    player: &mut Player,
    t: DamageTarget,
    source: Option<DamageSource>,
    d2: i32,
    roll: u8,
    used: u8,
) -> (r: DamageResult)
    requires
        fits_all(t, old(player)@, d2),
        old(player)@.powers.len() > 0,
        -i32::MAX <= t.spawnhealth,
        used <= 1,
        old(target).flags == t.flags,
        old(target).state == t.state,
        old(target).painchance == t.painchance,
        old(target).painstate == t.painstate,
        old(target).threshold == t.threshold,
        old(target).kind == t.kind,
        old(target).id == t.id,
        old(target).spawnstate == t.spawnstate,
        old(target).seestate == t.seestate,
        old(target).health == t.health,
        old(target).is_player == t.is_player,
        old(target).spawnhealth == t.spawnhealth,
        old(target).deathstate == t.deathstate,
        old(target).xdeathstate == t.xdeathstate,
        old(target).height == t.height,
    ensures
        (*final(target), final(player)@, r) == struck(t, *old(target), old(player)@, source, d2, roll, used),
{
    let nothing = DamageResult { taken: false, randoms_used: 0, pain: None, see: None, killed: None, attacker: None };
    let mut d = d2;
    let mut attacker: Option<usize> = None;
    if target.is_player {
        if d < 1000 && (player.cheats & CF_GODMODE != 0 || player.powers[0] != 0) {
            return DamageResult { randoms_used: used, ..nothing };
        }
        d = hurt_player(player, d, t);
        attacker = match source {
            Some(s) => Some(s.id),
            None => None,
        };
    }
    target.health = target.health - d;
    if target.is_player {
        player.mo_health = target.health;
    }
    if target.health <= 0 {
        let fr = kill(target);
        if t.is_player {
            player.playerstate = playerstate_t::PST_DEAD;
        }
        return DamageResult { taken: true, randoms_used: used, killed: Some(fr), attacker, ..nothing };
    }
    let (pain, see) = react_to(target, t, source, roll);
    DamageResult {
        taken: true,
        randoms_used: used + 1,
        pain: if pain { Some(t.painstate) } else { None },
        see: if see { Some(t.seestate) } else { None },
        killed: None,
        attacker,
    }
}

/// Deals `damage` to the thing `target` (and to its player, where it is a
/// player's body), by `inflictor` (the creature or missile that hit it;
/// none for slime and the like) on behalf of `source` (whom to blame; none
/// for the environment). The random numbers come from `rolls`: the first
/// only where a blow may throw the thing forward, the second for pain.
/// See `damaged`.
pub fn P_DamageMobj(
    target: &mut DamageTarget,
    player: &mut Player,
    inflictor: Option<Inflictor>,
    source: Option<DamageSource>,
    damage: i32,
    skill: skill_t,
    rolls: (u8, u8),
    tables: &DamageTables,
) -> (r: DamageResult)
    requires
        damage_ok(*old(target), old(player)@, inflictor, damage, skill, tables.tantoangle@, tables.finesine@),
    ensures
        (*final(target), final(player)@, r) == damaged(
            *old(target),
            old(player)@,
            inflictor,
            source,
            damage,
            skill,
            rolls,
            tables.tantoangle@,
            tables.finesine@,
        ),
{
    let nothing = DamageResult { taken: false, randoms_used: 0, pain: None, see: None, killed: None, attacker: None };
    if target.flags & MF_SHOOTABLE == 0 || target.health <= 0 {
        return nothing;
    }
    let t0 = *target;
    if target.flags & MF_SKULLFLY != 0 {
        target.momx = 0;
        target.momy = 0;
        target.momz = 0;
    }
    let d1 = if target.is_player && skill == skill_t::sk_baby { damage >> 1u32 } else { damage };
    let used = push_thing(target, inflictor, source, d1, rolls.0, tables);
    let mut d2 = d1;
    if target.is_player && target.sector_special == 11 && d1 >= target.health {
        d2 = target.health - 1;
    }
    strike(target, player, t0, source, d2, rolls.1, used)
}

/// God mode or invulnerability keeps a player whole against any blow under
/// 1000: neither the player nor its body loses health (the blow may still
/// push it).
pub proof fn lemma_protected_player_keeps_health(
    t: DamageTarget,
    p: PlayerModel,
    inflictor: Option<Inflictor>,
    source: Option<DamageSource>,
    damage: i32,
    skill: skill_t,
    rolls: (u8, u8),
    tantoangle: Seq<u32>,
    finesine: Seq<i32>,
)
    requires
        t.is_player,
        p.cheats & CF_GODMODE != 0 || p.powers[0] != 0,
        player_damage(t, skill_damage(t, skill, damage)) < 1000,
    ensures
        ({
            let (t1, p1, r) = damaged(t, p, inflictor, source, damage, skill, rolls, tantoangle, finesine);
            p1 == p && t1.health == t.health && !r.taken
        }),
{
}

/// Damage that can be dealt never leaves a player with negative health,
/// nor a damage count over 100 (for a player that had neither).
pub proof fn lemma_player_health_stays_in_range(
    t: DamageTarget,
    p: PlayerModel,
    inflictor: Option<Inflictor>,
    source: Option<DamageSource>,
    damage: i32,
    skill: skill_t,
    rolls: (u8, u8),
    tantoangle: Seq<u32>,
    finesine: Seq<i32>,
)
    requires
        damage_ok(t, p, inflictor, damage, skill, tantoangle, finesine),
        p.health >= 0,
        p.damagecount <= 100,
    ensures
        ({
            let p1 = damaged(t, p, inflictor, source, damage, skill, rolls, tantoangle, finesine).1;
            p1.health >= 0 && p1.damagecount <= 100
        }),
{
}

/// Armor takes its share of the damage a player takes: green armor
/// (type 1) a third and blue armor (type 2) half, rounded down, but no
/// more than the points it has left; no armor takes nothing. The armor
/// loses what it took (and is gone once it took all it had), and the rest
/// comes off the player's health (not below 0) and adds to the damage
/// count (up to 100).
pub proof fn lemma_armor_share(p: PlayerModel, d: i32)
    requires
        0 <= d,
        0 <= p.armorpoints,
        0 <= p.health,
        0 <= p.damagecount <= 100,
        p.armortype == 0 || p.armortype == 1 || p.armortype == 2,
    ensures
        ({
            let share: int = if p.armortype == 1 { d / 3 } else if p.armortype == 2 { d / 2 } else { 0 };
            let saved: int = if p.armortype != 0 && p.armorpoints <= share { p.armorpoints as int } else { share };
            let taken = d - saved;
            let p1 = player_hurt(p, d);
            &&& 0 <= saved <= d
            &&& p1.armorpoints == p.armorpoints - saved
            &&& p1.armortype == (if p.armortype != 0 && p.armorpoints <= share { 0 } else { p.armortype })
            &&& p1.health == (if p.health - taken < 0 { 0 } else { p.health - taken })
            &&& p1.damagecount == (if p.damagecount + taken > 100 { 100 } else { p.damagecount + taken })
        }),
{
}

/// A monster (not a player's body) that can be shot and is alive loses
/// exactly the damage dealt, whatever the skill; it dies exactly when its
/// health falls to 0 or below, and then enters its death frame (the gory
/// one only past minus its spawn health); it flinches only on a random
/// number under its pain chance; and it is awake afterwards.
pub proof fn lemma_monster_takes_full_damage(
    t: DamageTarget,
    p: PlayerModel,
    inflictor: Option<Inflictor>,
    source: Option<DamageSource>,
    damage: i32,
    skill: skill_t,
    rolls: (u8, u8),
    tantoangle: Seq<u32>,
    finesine: Seq<i32>,
)
    requires
        !t.is_player,
        t.flags & MF_SHOOTABLE != 0,
        t.health > 0,
        i32::MIN <= t.health - damage <= i32::MAX,
    ensures
        ({
            let (t1, p1, r) = damaged(t, p, inflictor, source, damage, skill, rolls, tantoangle, finesine);
            &&& r.taken && p1 == p
            &&& t1.health == t.health - damage
            &&& (r.killed is Some) == (t.health - damage <= 0)
            &&& r.killed matches Some(fr) ==> fr == (if t.health - damage < -t.spawnhealth && t.xdeathstate != 0 {
                t.xdeathstate
            } else {
                t.deathstate
            })
            &&& r.pain is Some ==> (rolls.1 as int) < t.painchance
            &&& r.killed is None ==> t1.reactiontime == 0
        }),
{
}

/// On the easiest skill a player without armor or protection takes half
/// the damage (rounded down), on any other skill all of it; the body's
/// health follows the player's blow.
pub proof fn lemma_player_skill_damage(
    t: DamageTarget,
    p: PlayerModel,
    inflictor: Option<Inflictor>,
    source: Option<DamageSource>,
    damage: i32,
    skill: skill_t,
    rolls: (u8, u8),
    tantoangle: Seq<u32>,
    finesine: Seq<i32>,
)
    requires
        t.is_player,
        t.flags & MF_SHOOTABLE != 0,
        t.health > 0,
        t.sector_special != 11,
        0 <= damage < 1000,
        p.armortype == 0,
        p.cheats & CF_GODMODE == 0,
        p.powers.len() > 0 && p.powers[0] == 0,
        0 <= p.health,
    ensures
        ({
            let (t1, p1, r) = damaged(t, p, inflictor, source, damage, skill, rolls, tantoangle, finesine);
            let taken: int = if skill == skill_t::sk_baby { damage / 2 } else { damage as int };
            &&& r.taken
            &&& t1.health == t.health - taken
            &&& p1.health == (if p.health - taken < 0 { 0 } else { p.health - taken })
        }),
{
    assert(damage >> 1u32 == damage / 2) by (bit_vector)
        requires
            0 <= damage < 1000,
    ;
}

} // verus!
