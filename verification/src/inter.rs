//! Picking up items: ammunition, weapons, health, armor, keys and power-ups.

use vstd::prelude::*;

use crate::geom::fits_i32;
use crate::fixed::{fixed_t, FRACUNIT};
use crate::sounds::{sfxenum_t, Message};

use crate::player::{
    ammotype_t, card_t, player_wf, powertype_t, skill_t, weapontype_t, GameEnv, GameMode_t, Player,
    PlayerModel, INFRATICS, INVISTICS, INVULNTICS, IRONTICS, MAXHEALTH,
};

verus! {

/// Bonus flash added when something is picked up.
pub const BONUSADD: i32 = 6;

/// Rounds in one clip load of each ammunition type.
pub open spec fn clip_ammo(a: ammotype_t) -> int {
    match a {
        ammotype_t::am_clip => 10,
        ammotype_t::am_shell => 4,
        ammotype_t::am_cell => 20,
        ammotype_t::am_misl => 1,
        ammotype_t::am_noammo => 0,
    }
}

/// Rounds in one clip load of each ammunition type.
pub fn clipammo(a: ammotype_t) -> (r: i32)
    ensures
        r as int == clip_ammo(a),
{
    match a {
        ammotype_t::am_clip => 10,
        ammotype_t::am_shell => 4,
        ammotype_t::am_cell => 20,
        ammotype_t::am_misl => 1,
        ammotype_t::am_noammo => 0,
    }
}

/// Rounds given for `num` clip loads (0: half a clip); doubled in the
/// easiest and in nightmare skill.
pub open spec fn ammo_gain(a: ammotype_t, num: int, skill: skill_t) -> int {
    let n = if num != 0 { num * clip_ammo(a) } else { clip_ammo(a) / 2 };
    if skill == skill_t::sk_baby || skill == skill_t::sk_nightmare { n * 2 } else { n }
}

/// The weapon switched to when ammunition arrives while the player had none.
pub open spec fn switch_for_new_ammo(p: PlayerModel, a: ammotype_t) -> weapontype_t {
    let ready = p.readyweapon;
    match a {
        ammotype_t::am_clip => if ready == weapontype_t::wp_fist {
            if p.weaponowned[weapontype_t::wp_chaingun.idx()] {
                weapontype_t::wp_chaingun
            } else {
                weapontype_t::wp_pistol
            }
        } else {
            p.pendingweapon
        },
        ammotype_t::am_shell => if (ready == weapontype_t::wp_fist || ready == weapontype_t::wp_pistol)
            && p.weaponowned[weapontype_t::wp_shotgun.idx()] {
            weapontype_t::wp_shotgun
        } else {
            p.pendingweapon
        },
        ammotype_t::am_cell => if (ready == weapontype_t::wp_fist || ready == weapontype_t::wp_pistol)
            && p.weaponowned[weapontype_t::wp_plasma.idx()] {
            weapontype_t::wp_plasma
        } else {
            p.pendingweapon
        },
        ammotype_t::am_misl => if ready == weapontype_t::wp_fist
            && p.weaponowned[weapontype_t::wp_missile.idx()] {
            weapontype_t::wp_missile
        } else {
            p.pendingweapon
        },
        ammotype_t::am_noammo => p.pendingweapon,
    }
}

/// Giving `num` clip loads of ammunition `a`: whether it was taken, and the
/// player afterwards. Ammunition is capped at the maximum; if the player had
/// none of it, a better weapon may be selected.
#[verifier::opaque]
pub open spec fn give_ammo(p: PlayerModel, a: ammotype_t, num: int, skill: skill_t) -> (bool, PlayerModel) {
    let i = a.idx();
    if a == ammotype_t::am_noammo || p.ammo[i] == p.maxammo[i] {
        (false, p)
    } else {
        let total = p.ammo[i] + ammo_gain(a, num, skill);
        let newammo = if total > p.maxammo[i] { p.maxammo[i] as int } else { total };
        let q = PlayerModel { ammo: p.ammo.update(i, newammo as i32), ..p };
        if p.ammo[i] != 0 {
            (true, q)
        } else {
            (true, PlayerModel { pendingweapon: switch_for_new_ammo(p, a), ..q })
        }
    }
}

/// Num is the number of clip loads, not the individual count (0 = 1/2 clip).
/// Returns false if the ammo can't be picked up at all.
#[verifier::rlimit(100)]
#[verifier::spinoff_prover]
pub fn P_GiveAmmo(player: &mut Player, ammo: ammotype_t, num: i32, skill: skill_t) -> (r: bool)
    requires
        player_wf(old(player)@),
        ammo != ammotype_t::am_noammo && old(player).ammo[ammo.idx()] != old(player).maxammo[ammo.idx()]
            ==> i32::MIN <= ammo_gain(ammo, num as int, skill) && old(player).ammo[ammo.idx()] + ammo_gain(
            ammo,
            num as int,
            skill,
        ) <= i32::MAX,
    ensures
        (r, final(player)@) == give_ammo(old(player)@, ammo, num as int, skill),
        !r ==> final(player)@ == old(player)@,
        final(player)@ == (PlayerModel { ammo: final(player)@.ammo, pendingweapon: final(player).pendingweapon, ..old(player)@ }),
        0 <= num ==> player_wf(final(player)@),
        final(player).bonuscount == old(player).bonuscount,
        final(player).itemcount == old(player).itemcount,
{
    reveal(give_ammo);
    if ammo == ammotype_t::am_noammo {
        return false;
    }
    let i = ammo.to_usize();
    if player.ammo[i] == player.maxammo[i] {
        return false;
    }
    let clip = clipammo(ammo);
    let ghost gain = ammo_gain(ammo, num as int, skill);
    assert(i32::MIN <= gain && player.ammo[i as int] + gain <= i32::MAX);
    assert(num * clip == num as int * clip_ammo(ammo));
    assert(i32::MIN <= num * clip <= i32::MAX) by (nonlinear_arith)
        requires
            num != 0 ==> (gain == num * clip || gain == 2 * (num * clip)),
            num == 0 ==> num * clip == 0,
            i32::MIN <= gain <= i32::MAX,
    ;
    let mut n: i32 = if num != 0 { num * clip } else { clip / 2 };
    if skill == skill_t::sk_baby || skill == skill_t::sk_nightmare {
        // give double ammo in trainer mode, you'll need in nightmare
        n = n * 2;
    }
    assert(n == gain);
    let oldammo = player.ammo[i];
    let mut newammo = oldammo + n;
    if newammo > player.maxammo[i] {
        newammo = player.maxammo[i];
    }
    player.ammo[i] = newammo;
    assert(player.ammo@ == old(player).ammo@.update(i as int, newammo));
    // If non zero ammo, don't change up weapons, player was lower on purpose.
    if oldammo != 0 {
        return true;
    }
    // We were down to zero, so select a new weapon.
    let ready = player.readyweapon;
    match ammo {
        ammotype_t::am_clip => {
            if ready == weapontype_t::wp_fist {
                if player.weaponowned[3] {
                    player.pendingweapon = weapontype_t::wp_chaingun;
                } else {
                    player.pendingweapon = weapontype_t::wp_pistol;
                }
            }
        },
        ammotype_t::am_shell => {
            if (ready == weapontype_t::wp_fist || ready == weapontype_t::wp_pistol) && player.weaponowned[2] {
                player.pendingweapon = weapontype_t::wp_shotgun;
            }
        },
        ammotype_t::am_cell => {
            if (ready == weapontype_t::wp_fist || ready == weapontype_t::wp_pistol) && player.weaponowned[5] {
                player.pendingweapon = weapontype_t::wp_plasma;
            }
        },
        ammotype_t::am_misl => {
            if ready == weapontype_t::wp_fist && player.weaponowned[4] {
                player.pendingweapon = weapontype_t::wp_missile;
            }
        },
        ammotype_t::am_noammo => {},
    }
    true
}

/// Giving weapon `w` (`dropped`: it was dropped by a monster): whether
/// something was taken, the player afterwards, and the sound for the
/// console player. In cooperative net games placed weapons stay forever.
#[verifier::opaque]
pub open spec fn give_weapon(p: PlayerModel, w: weapontype_t, dropped: bool, env: GameEnv) -> (bool, PlayerModel, Option<sfxenum_t>) {
    if env.netgame && env.deathmatch != 2 && !dropped {
        if p.weaponowned[w.idx()] {
            (false, p, None)
        } else {
            let q = PlayerModel {
                bonuscount: (p.bonuscount + BONUSADD) as i32,
                weaponowned: p.weaponowned.update(w.idx(), true),
                ..p
            };
            let q2 = give_ammo(q, w.ammo_spec(), if env.deathmatch != 0 { 5 } else { 2 }, env.gameskill).1;
            (false, PlayerModel { pendingweapon: w, ..q2 }, Some(sfxenum_t::sfx_wpnup))
        }
    } else {
        let (gaveammo, q) = if w.ammo_spec() != ammotype_t::am_noammo {
            give_ammo(p, w.ammo_spec(), if dropped { 1 } else { 2 }, env.gameskill)
        } else {
            (false, p)
        };
        if q.weaponowned[w.idx()] {
            (gaveammo, q, None)
        } else {
            (true, PlayerModel { weaponowned: q.weaponowned.update(w.idx(), true), pendingweapon: w, ..q }, None)
        }
    }
}

/// The weapon name may have a MF_DROPPED flag ored in.
/// Returns whether the weapon or its ammunition was taken, and the sound
/// to start if this is the console player.
#[verifier::rlimit(50)]
pub fn P_GiveWeapon(player: &mut Player, weapon: weapontype_t, dropped: bool, env: GameEnv) -> (r: (bool, Option<sfxenum_t>))
    requires
        player_wf(old(player)@),
        weapon != weapontype_t::wp_nochange,
        old(player).bonuscount <= i32::MAX - BONUSADD,
    ensures
        ({
            let (b, q, snd) = give_weapon(old(player)@, weapon, dropped, env);
            r == (b, snd) && final(player)@ == q
        }),
        player_wf(final(player)@),
        old(player).bonuscount <= final(player).bonuscount <= old(player).bonuscount + BONUSADD,
        final(player).itemcount == old(player).itemcount,
{
    reveal(give_weapon);
    let w = weapon.to_usize();
    if env.netgame && env.deathmatch != 2 && !dropped {
        // leave placed weapons forever on net games
        if player.weaponowned[w] {
            return (false, None);
        }
        player.bonuscount = player.bonuscount + BONUSADD;
        player.weaponowned[w] = true;
        let ghost q = PlayerModel {
            bonuscount: (old(player).bonuscount + BONUSADD) as i32,
            weaponowned: old(player).weaponowned@.update(w as int, true),
            ..old(player)@
        };
        assert(player@ == q);
        let num = if env.deathmatch != 0 { 5 } else { 2 };
        P_GiveAmmo(player, weapon.ammo(), num, env.gameskill);
        player.pendingweapon = weapon;
        return (false, Some(sfxenum_t::sfx_wpnup));
    }
    let gaveammo;
    if weapon.ammo() != ammotype_t::am_noammo {
        // give one clip with a dropped weapon, two clips with a found weapon
        gaveammo = P_GiveAmmo(player, weapon.ammo(), if dropped { 1 } else { 2 }, env.gameskill);
    } else {
        gaveammo = false;
    }
    let ghost mid = player@;
    assert(mid.weaponowned == old(player)@.weaponowned);
    let gaveweapon;
    if player.weaponowned[w] {
        gaveweapon = false;
    } else {
        gaveweapon = true;
        player.weaponowned[w] = true;
        player.pendingweapon = weapon;
    }
    (gaveweapon || gaveammo, None)
}

/// Giving `num` health: refused at full health, otherwise capped at 100.
#[verifier::opaque]
pub open spec fn give_body(p: PlayerModel, num: int) -> (bool, PlayerModel) {
    if p.health >= MAXHEALTH {
        (false, p)
    } else {
        let h = if p.health + num > MAXHEALTH { MAXHEALTH as int } else { p.health + num };
        (true, PlayerModel { health: h as i32, mo_health: h as i32, ..p })
    }
}

/// Returns false if the body isn't needed at all.
pub fn P_GiveBody(player: &mut Player, num: i32) -> (r: bool)
    requires
        player_wf(old(player)@),
        0 <= num <= 1000,
    ensures
        (r, final(player)@) == give_body(old(player)@, num as int),
        !r ==> final(player)@ == old(player)@,
        player_wf(final(player)@),
        final(player).bonuscount == old(player).bonuscount,
        final(player).itemcount == old(player).itemcount,
{
    reveal(give_body);
    if player.health >= MAXHEALTH {
        return false;
    }
    player.health = player.health + num;
    if player.health > MAXHEALTH {
        player.health = MAXHEALTH;
    }
    player.mo_health = player.health;
    true
}

/// Giving armor of class `armortype` (100 points per class): refused
/// when the current armor has at least as many points.
#[verifier::opaque]
pub open spec fn give_armor(p: PlayerModel, armortype: int) -> (bool, PlayerModel) {
    let hits = armortype * 100;
    if p.armorpoints >= hits {
        (false, p)
    } else {
        (true, PlayerModel { armortype: armortype as i32, armorpoints: hits as i32, ..p })
    }
}

/// Returns false if the armor is worse than the current armor.
pub fn P_GiveArmor(player: &mut Player, armortype: i32) -> (r: bool)
    requires
        player_wf(old(player)@),
        1 <= armortype <= 2,
    ensures
        (r, final(player)@) == give_armor(old(player)@, armortype as int),
        !r ==> final(player)@ == old(player)@,
        player_wf(final(player)@),
        final(player).bonuscount == old(player).bonuscount,
        final(player).itemcount == old(player).itemcount,
{
    reveal(give_armor);
    let hits = armortype * 100;
    if player.armorpoints >= hits {
        false // don't pick up
    } else {
        player.armortype = armortype;
        player.armorpoints = hits;
        true
    }
}

/// Giving a key: a new key sets the bonus flash and is added to the keys.
#[verifier::opaque]
pub open spec fn give_card(p: PlayerModel, card: card_t) -> PlayerModel {
    if p.cards[card.idx()] {
        p
    } else {
        PlayerModel { bonuscount: BONUSADD, cards: p.cards.update(card.idx(), true), ..p }
    }
}

/// Gives a key card.
pub fn P_GiveCard(player: &mut Player, card: card_t)
    requires
        player_wf(old(player)@),
    ensures
        final(player)@ == give_card(old(player)@, card),
        player_wf(final(player)@),
        final(player).bonuscount == old(player).bonuscount || final(player).bonuscount == BONUSADD,
        final(player).itemcount == old(player).itemcount,
{
    reveal(give_card);
    let c = card.to_usize();
    if player.cards[c] {
        return;
    }
    player.bonuscount = BONUSADD;
    player.cards[c] = true;
}

/// Giving a power-up: timed powers are (re)started, berserk also heals to
/// full, the computer map is refused when already owned.
#[verifier::opaque]
pub open spec fn give_power(p: PlayerModel, power: powertype_t) -> (bool, PlayerModel) {
    let i = power.idx();
    match power {
        powertype_t::pw_invulnerability => (true, PlayerModel { powers: p.powers.update(i, INVULNTICS), ..p }),
        powertype_t::pw_invisibility => (true, PlayerModel { powers: p.powers.update(i, INVISTICS), mo_shadow: true, ..p }),
        powertype_t::pw_infrared => (true, PlayerModel { powers: p.powers.update(i, INFRATICS), ..p }),
        powertype_t::pw_ironfeet => (true, PlayerModel { powers: p.powers.update(i, IRONTICS), ..p }),
        powertype_t::pw_strength => {
            let q = give_body(p, 100).1;
            (true, PlayerModel { powers: q.powers.update(i, 1), ..q })
        },
        powertype_t::pw_allmap => if p.powers[i] != 0 {
            (false, p)
        } else {
            (true, PlayerModel { powers: p.powers.update(i, 1), ..p })
        },
    }
}

/// Gives a power-up; returns false if it was not taken.
pub fn P_GivePower(player: &mut Player, power: powertype_t) -> (r: bool)
    requires
        player_wf(old(player)@),
    ensures
        (r, final(player)@) == give_power(old(player)@, power),
        !r ==> final(player)@ == old(player)@,
        player_wf(final(player)@),
        final(player).bonuscount == old(player).bonuscount,
        final(player).itemcount == old(player).itemcount,
{
    reveal(give_power);
    reveal(give_body);
    let i = power.to_usize();
    match power {
        powertype_t::pw_invulnerability => {
            player.powers[i] = INVULNTICS;
            true
        },
        powertype_t::pw_invisibility => {
            player.powers[i] = INVISTICS;
            player.mo_shadow = true;
            true
        },
        powertype_t::pw_infrared => {
            player.powers[i] = INFRATICS;
            true
        },
        powertype_t::pw_ironfeet => {
            player.powers[i] = IRONTICS;
            true
        },
        powertype_t::pw_strength => {
            P_GiveBody(player, 100);
            player.powers[i] = 1;
            true
        },
        powertype_t::pw_allmap => {
            if player.powers[i] != 0 {
                return false; // already got it
            }
            player.powers[i] = 1;
            true
        },
    }
}

/// Sprites of the things that can be picked up.
#[derive(Debug, Clone, Copy, PartialEq, Eq, Structural)]
pub enum Pickup {
    SPR_ARM1,
    SPR_ARM2,
    SPR_BON1,
    SPR_BON2,
    SPR_SOUL,
    SPR_MEGA,
    SPR_BKEY,
    SPR_YKEY,
    SPR_RKEY,
    SPR_BSKU,
    SPR_YSKU,
    SPR_RSKU,
    SPR_STIM,
    SPR_MEDI,
    SPR_PINV,
    SPR_PSTR,
    SPR_PINS,
    SPR_SUIT,
    SPR_PMAP,
    SPR_PVIS,
    SPR_CLIP,
    SPR_AMMO,
    SPR_ROCK,
    SPR_BROK,
    SPR_CELL,
    SPR_CELP,
    SPR_SHEL,
    SPR_SBOX,
    SPR_BPAK,
    SPR_BFUG,
    SPR_MGUN,
    SPR_CSAW,
    SPR_LAUN,
    SPR_PLAS,
    SPR_SHOT,
    SPR_SGN2,
}

/// A thing lying on the map that can be picked up.
#[derive(Debug, Clone, Copy, PartialEq, Eq, Structural)]
pub struct SpecialThing {
    pub sprite: Pickup,
    pub z: fixed_t,
    /// Dropped by a monster (MF_DROPPED).
    pub dropped: bool,
    /// Counts towards the level's item total (MF_COUNTITEM).
    pub countitem: bool,
}

/// The thing that walks over an item: the player's map object.
#[derive(Debug, Clone, Copy, PartialEq, Eq, Structural)]
pub struct Toucher {
    pub z: fixed_t,
    pub height: fixed_t,
    pub health: i32,
}

/// What became of an item that was touched.
#[derive(Debug, Clone, Copy, PartialEq, Eq, Structural)]
pub enum TouchResult {
    /// Out of reach, the toucher is dead, or the player does not need it.
    Ignored,
    /// The player got something but the item stays on the map (keys and
    /// placed weapons in net games); with the sound for the console player.
    Kept(Option<sfxenum_t>),
    /// The item is removed from the map; with the sound for the console player.
    Taken(sfxenum_t),
}

/// Sets the message shown to the player.
pub open spec fn with_message(p: PlayerModel, m: Message) -> PlayerModel {
    PlayerModel { message: Some(m), ..p }
}

/// Health after a bonus that may exceed 100%, up to 200%.
pub open spec fn capped_200(v: int) -> int {
    if v > 200 { 200 } else { v }
}

/// Outcome of a refusable pickup: taken with a message and sound, or ignored.
pub open spec fn taken_if(r: (bool, PlayerModel), p: PlayerModel, m: Message, snd: sfxenum_t) -> (TouchResult, PlayerModel) {
    if r.0 { (TouchResult::Taken(snd), with_message(r.1, m)) } else { (TouchResult::Ignored, p) }
}

/// Outcome of picking up a key.
pub open spec fn card_pickup(p: PlayerModel, c: card_t, m: Message, env: GameEnv) -> (TouchResult, PlayerModel) {
    let q = if !p.cards[c.idx()] { with_message(p, m) } else { p };
    let q2 = give_card(q, c);
    if env.netgame { (TouchResult::Kept(None), q2) } else { (TouchResult::Taken(sfxenum_t::sfx_itemup), q2) }
}

/// Outcome of picking up a weapon.
pub open spec fn weapon_pickup(p: PlayerModel, w: weapontype_t, dropped: bool, m: Message, env: GameEnv) -> (TouchResult, PlayerModel) {
    let (b, q, snd) = give_weapon(p, w, dropped, env);
    if b {
        (TouchResult::Taken(sfxenum_t::sfx_wpnup), with_message(q, m))
    } else if snd == None::<sfxenum_t> {
        (TouchResult::Ignored, q)
    } else {
        (TouchResult::Kept(snd), q)
    }
}

/// The player after a backpack: maximum ammunition doubled once, and one
/// clip load of every ammunition type.
#[verifier::opaque]
pub open spec fn backpack_pickup(p: PlayerModel, skill: skill_t) -> PlayerModel {
    let q = if !p.backpack {
        PlayerModel {
            maxammo: Seq::new(4, |i: int| (p.maxammo[i] * 2) as i32),
            backpack: true,
            ..p
        }
    } else {
        p
    };
    let q1 = give_ammo(q, ammotype_t::am_clip, 1, skill).1;
    let q2 = give_ammo(q1, ammotype_t::am_shell, 1, skill).1;
    let q3 = give_ammo(q2, ammotype_t::am_cell, 1, skill).1;
    give_ammo(q3, ammotype_t::am_misl, 1, skill).1
}

/// Armor and bonus items.
#[verifier::opaque]
pub open spec fn bonus_effect(p: PlayerModel, sprite: Pickup, env: GameEnv) -> (TouchResult, PlayerModel) {
    let itemup = sfxenum_t::sfx_itemup;
    let getpow = sfxenum_t::sfx_getpow;
    match sprite {
        Pickup::SPR_ARM1 => taken_if(give_armor(p, 1), p, Message::GOTARMOR, itemup),
        Pickup::SPR_ARM2 => taken_if(give_armor(p, 2), p, Message::GOTMEGA, itemup),
        Pickup::SPR_BON1 => {
            let h = capped_200(p.health + 1);
            (TouchResult::Taken(itemup), with_message(PlayerModel { health: h as i32, mo_health: h as i32, ..p }, Message::GOTHTHBONUS))
        },
        Pickup::SPR_BON2 => {
            let a = capped_200(p.armorpoints + 1);
            let t = if p.armortype == 0 { 1 } else { p.armortype };
            (TouchResult::Taken(itemup), with_message(PlayerModel { armorpoints: a as i32, armortype: t, ..p }, Message::GOTARMBONUS))
        },
        Pickup::SPR_SOUL => {
            let h = capped_200(p.health + 100);
            (TouchResult::Taken(getpow), with_message(PlayerModel { health: h as i32, mo_health: h as i32, ..p }, Message::GOTSUPER))
        },
        _ => if env.gamemode != GameMode_t::commercial {
            (TouchResult::Ignored, p)
        } else {
            let q = give_armor(PlayerModel { health: 200, mo_health: 200, ..p }, 2).1;
            (TouchResult::Taken(getpow), with_message(q, Message::GOTMSPHERE))
        },
    }
}

/// Medikits and power-ups.
#[verifier::opaque]
pub open spec fn power_effect(p: PlayerModel, sprite: Pickup) -> (TouchResult, PlayerModel) {
    let itemup = sfxenum_t::sfx_itemup;
    let getpow = sfxenum_t::sfx_getpow;
    match sprite {
        Pickup::SPR_STIM => taken_if(give_body(p, 10), p, Message::GOTSTIM, itemup),
        Pickup::SPR_MEDI => {
            let r = give_body(p, 25);
            taken_if(r, p, if r.1.health < 25 { Message::GOTMEDINEED } else { Message::GOTMEDIKIT }, itemup)
        },
        Pickup::SPR_PINV => taken_if(give_power(p, powertype_t::pw_invulnerability), p, Message::GOTINVUL, getpow),
        Pickup::SPR_PSTR => {
            let (b, q) = give_power(p, powertype_t::pw_strength);
            let q2 = if q.readyweapon != weapontype_t::wp_fist {
                PlayerModel { pendingweapon: weapontype_t::wp_fist, ..q }
            } else {
                q
            };
            taken_if((b, q2), p, Message::GOTBERSERK, getpow)
        },
        Pickup::SPR_PINS => taken_if(give_power(p, powertype_t::pw_invisibility), p, Message::GOTINVIS, getpow),
        Pickup::SPR_SUIT => taken_if(give_power(p, powertype_t::pw_ironfeet), p, Message::GOTSUIT, getpow),
        Pickup::SPR_PMAP => taken_if(give_power(p, powertype_t::pw_allmap), p, Message::GOTMAP, getpow),
        _ => taken_if(give_power(p, powertype_t::pw_infrared), p, Message::GOTVISOR, getpow),
    }
}

/// Ammunition and the backpack.
#[verifier::opaque]
pub open spec fn ammo_effect(p: PlayerModel, sprite: Pickup, dropped: bool, skill: skill_t) -> (TouchResult, PlayerModel) {
    let itemup = sfxenum_t::sfx_itemup;
    match sprite {
        Pickup::SPR_CLIP => taken_if(give_ammo(p, ammotype_t::am_clip, if dropped { 0 } else { 1 }, skill), p, Message::GOTCLIP, itemup),
        Pickup::SPR_AMMO => taken_if(give_ammo(p, ammotype_t::am_clip, 5, skill), p, Message::GOTCLIPBOX, itemup),
        Pickup::SPR_ROCK => taken_if(give_ammo(p, ammotype_t::am_misl, 1, skill), p, Message::GOTROCKET, itemup),
        Pickup::SPR_BROK => taken_if(give_ammo(p, ammotype_t::am_misl, 5, skill), p, Message::GOTROCKBOX, itemup),
        Pickup::SPR_CELL => taken_if(give_ammo(p, ammotype_t::am_cell, 1, skill), p, Message::GOTCELL, itemup),
        Pickup::SPR_CELP => taken_if(give_ammo(p, ammotype_t::am_cell, 5, skill), p, Message::GOTCELLBOX, itemup),
        Pickup::SPR_SHEL => taken_if(give_ammo(p, ammotype_t::am_shell, 1, skill), p, Message::GOTSHELLS, itemup),
        Pickup::SPR_SBOX => taken_if(give_ammo(p, ammotype_t::am_shell, 5, skill), p, Message::GOTSHELLBOX, itemup),
        _ => (TouchResult::Taken(itemup), with_message(backpack_pickup(p, skill), Message::GOTBACKPACK)),
    }
}

/// What touching a pickup of kind `sprite` does to the player, before the
/// item and bonus bookkeeping.
pub open spec fn pickup_effect(p: PlayerModel, sprite: Pickup, dropped: bool, env: GameEnv) -> (TouchResult, PlayerModel) {
    match sprite {
        Pickup::SPR_ARM1 | Pickup::SPR_ARM2 | Pickup::SPR_BON1 | Pickup::SPR_BON2 | Pickup::SPR_SOUL
        | Pickup::SPR_MEGA => bonus_effect(p, sprite, env),
        Pickup::SPR_BKEY => card_pickup(p, card_t::it_bluecard, Message::GOTBLUECARD, env),
        Pickup::SPR_YKEY => card_pickup(p, card_t::it_yellowcard, Message::GOTYELWCARD, env),
        Pickup::SPR_RKEY => card_pickup(p, card_t::it_redcard, Message::GOTREDCARD, env),
        Pickup::SPR_BSKU => card_pickup(p, card_t::it_blueskull, Message::GOTBLUESKUL, env),
        Pickup::SPR_YSKU => card_pickup(p, card_t::it_yellowskull, Message::GOTYELWSKUL, env),
        Pickup::SPR_RSKU => card_pickup(p, card_t::it_redskull, Message::GOTREDSKULL, env),
        Pickup::SPR_STIM | Pickup::SPR_MEDI | Pickup::SPR_PINV | Pickup::SPR_PSTR | Pickup::SPR_PINS
        | Pickup::SPR_SUIT | Pickup::SPR_PMAP | Pickup::SPR_PVIS => power_effect(p, sprite),
        Pickup::SPR_CLIP | Pickup::SPR_AMMO | Pickup::SPR_ROCK | Pickup::SPR_BROK | Pickup::SPR_CELL
        | Pickup::SPR_CELP | Pickup::SPR_SHEL | Pickup::SPR_SBOX | Pickup::SPR_BPAK => ammo_effect(p, sprite, dropped, env.gameskill),
        Pickup::SPR_BFUG => weapon_pickup(p, weapontype_t::wp_bfg, false, Message::GOTBFG9000, env),
        Pickup::SPR_MGUN => weapon_pickup(p, weapontype_t::wp_chaingun, dropped, Message::GOTCHAINGUN, env),
        Pickup::SPR_CSAW => weapon_pickup(p, weapontype_t::wp_chainsaw, false, Message::GOTCHAINSAW, env),
        Pickup::SPR_LAUN => weapon_pickup(p, weapontype_t::wp_missile, false, Message::GOTLAUNCHER, env),
        Pickup::SPR_PLAS => weapon_pickup(p, weapontype_t::wp_plasma, false, Message::GOTPLASMA, env),
        Pickup::SPR_SHOT => weapon_pickup(p, weapontype_t::wp_shotgun, dropped, Message::GOTSHOTGUN, env),
        Pickup::SPR_SGN2 => weapon_pickup(p, weapontype_t::wp_supershotgun, dropped, Message::GOTSHOTGUN2, env),
    }
}

/// Touching an item: out of reach (more than the toucher's height above
/// it, or more than 8 units below) or by a dead toucher it is ignored;
/// a removed item counts towards the items found and adds a bonus flash.
pub open spec fn touch_special(p: PlayerModel, special: SpecialThing, toucher: Toucher, env: GameEnv) -> (TouchResult, PlayerModel) {
    let delta = special.z - toucher.z;
    if delta > toucher.height || delta < -8 * FRACUNIT || toucher.health <= 0 {
        (TouchResult::Ignored, p)
    } else {
        let (res, q) = pickup_effect(p, special.sprite, special.dropped, env);
        match res {
            TouchResult::Taken(_) => {
                let items = if special.countitem { q.itemcount + 1 } else { q.itemcount as int };
                (res, PlayerModel { itemcount: items as i32, bonuscount: (q.bonuscount + BONUSADD) as i32, ..q })
            },
            _ => (res, q),
        }
    }
}

/// Room in the player's counters for one more pickup.
pub open spec fn touch_room(p: PlayerModel) -> bool {
    &&& 0 <= p.bonuscount <= i32::MAX - 2 * BONUSADD
    &&& p.itemcount < i32::MAX
}

/// A player walks over a special thing: gives it to the player. The
/// caller removes the item from the map when the result is `Taken`, and
/// starts the sound when the player is the console player.
pub fn P_TouchSpecialThing(special: &SpecialThing, toucher: &Toucher, player: &mut Player, env: GameEnv) -> (r: TouchResult)
    requires
        player_wf(old(player)@),
        touch_room(old(player)@),
        fits_i32(special.z - toucher.z),
    ensures
        (r, final(player)@) == touch_special(old(player)@, *special, *toucher, env),
        player_wf(final(player)@),
{
    let delta = special.z - toucher.z;
    if delta > toucher.height || delta < -8 * FRACUNIT {
        // out of reach
        return TouchResult::Ignored;
    }
    // Dead thing touching. Can happen with a sliding player corpse.
    if toucher.health <= 0 {
        return TouchResult::Ignored;
    }
    let res = touch_item(player, special.sprite, special.dropped, env);
    if let TouchResult::Taken(_) = res {
        if special.countitem {
            player.itemcount = player.itemcount + 1;
        }
        player.bonuscount = player.bonuscount + BONUSADD;
    }
    res
}

/// Gives the player the item of kind `sprite` (no bookkeeping).
fn touch_item(player: &mut Player, sprite: Pickup, dropped: bool, env: GameEnv) -> (r: TouchResult)
    requires
        player_wf(old(player)@),
        touch_room(old(player)@),
    ensures
        (r, final(player)@) == pickup_effect(old(player)@, sprite, dropped, env),
        player_wf(final(player)@),
        0 <= final(player).bonuscount <= i32::MAX - BONUSADD,
        final(player).itemcount == old(player).itemcount,
{
    match sprite {
        Pickup::SPR_ARM1 | Pickup::SPR_ARM2 | Pickup::SPR_BON1 | Pickup::SPR_BON2 | Pickup::SPR_SOUL
        | Pickup::SPR_MEGA => touch_bonus(player, sprite, env),
        // cards: leave cards for everyone
        Pickup::SPR_BKEY => card(player, card_t::it_bluecard, Message::GOTBLUECARD, env),
        Pickup::SPR_YKEY => card(player, card_t::it_yellowcard, Message::GOTYELWCARD, env),
        Pickup::SPR_RKEY => card(player, card_t::it_redcard, Message::GOTREDCARD, env),
        Pickup::SPR_BSKU => card(player, card_t::it_blueskull, Message::GOTBLUESKUL, env),
        Pickup::SPR_YSKU => card(player, card_t::it_yellowskull, Message::GOTYELWSKUL, env),
        Pickup::SPR_RSKU => card(player, card_t::it_redskull, Message::GOTREDSKULL, env),
        Pickup::SPR_STIM | Pickup::SPR_MEDI | Pickup::SPR_PINV | Pickup::SPR_PSTR | Pickup::SPR_PINS
        | Pickup::SPR_SUIT | Pickup::SPR_PMAP | Pickup::SPR_PVIS => touch_power(player, sprite),
        Pickup::SPR_CLIP | Pickup::SPR_AMMO | Pickup::SPR_ROCK | Pickup::SPR_BROK | Pickup::SPR_CELL
        | Pickup::SPR_CELP | Pickup::SPR_SHEL | Pickup::SPR_SBOX | Pickup::SPR_BPAK => touch_ammo(player, sprite, dropped, env.gameskill),
        // weapons
        Pickup::SPR_BFUG => weapon(player, weapontype_t::wp_bfg, false, Message::GOTBFG9000, env),
        Pickup::SPR_MGUN => weapon(player, weapontype_t::wp_chaingun, dropped, Message::GOTCHAINGUN, env),
        Pickup::SPR_CSAW => weapon(player, weapontype_t::wp_chainsaw, false, Message::GOTCHAINSAW, env),
        Pickup::SPR_LAUN => weapon(player, weapontype_t::wp_missile, false, Message::GOTLAUNCHER, env),
        Pickup::SPR_PLAS => weapon(player, weapontype_t::wp_plasma, false, Message::GOTPLASMA, env),
        Pickup::SPR_SHOT => weapon(player, weapontype_t::wp_shotgun, dropped, Message::GOTSHOTGUN, env),
        Pickup::SPR_SGN2 => weapon(player, weapontype_t::wp_supershotgun, dropped, Message::GOTSHOTGUN2, env),
    }
}

/// Armor and bonus items.
#[verifier::spinoff_prover]
#[verifier::rlimit(40)]
fn touch_bonus(player: &mut Player, sprite: Pickup, env: GameEnv) -> (r: TouchResult)
    requires
        player_wf(old(player)@),
    ensures
        (r, final(player)@) == bonus_effect(old(player)@, sprite, env),
        player_wf(final(player)@),
        final(player).bonuscount == old(player).bonuscount,
        final(player).itemcount == old(player).itemcount,
{
    reveal(bonus_effect);
    let itemup = sfxenum_t::sfx_itemup;
    let getpow = sfxenum_t::sfx_getpow;
    match sprite {
        Pickup::SPR_ARM1 => taken(P_GiveArmor(player, 1), player, Message::GOTARMOR, itemup),
        Pickup::SPR_ARM2 => taken(P_GiveArmor(player, 2), player, Message::GOTMEGA, itemup),
        Pickup::SPR_BON1 => {
            player.health = player.health + 1; // can go over 100%
            if player.health > 200 {
                player.health = 200;
            }
            player.mo_health = player.health;
            player.message = Some(Message::GOTHTHBONUS);
            TouchResult::Taken(itemup)
        },
        Pickup::SPR_BON2 => {
            player.armorpoints = player.armorpoints + 1; // can go over 100%
            if player.armorpoints > 200 {
                player.armorpoints = 200;
            }
            if player.armortype == 0 {
                player.armortype = 1;
            }
            player.message = Some(Message::GOTARMBONUS);
            TouchResult::Taken(itemup)
        },
        Pickup::SPR_SOUL => {
            player.health = player.health + 100;
            if player.health > 200 {
                player.health = 200;
            }
            player.mo_health = player.health;
            player.message = Some(Message::GOTSUPER);
            TouchResult::Taken(getpow)
        },
        _ => {
            if env.gamemode != GameMode_t::commercial {
                return TouchResult::Ignored;
            }
            player.health = 200;
            player.mo_health = 200;
            P_GiveArmor(player, 2);
            player.message = Some(Message::GOTMSPHERE);
            TouchResult::Taken(getpow)
        },
    }
}

/// Medikits and power-ups.
#[verifier::rlimit(50)]
#[verifier::spinoff_prover]
fn touch_power(player: &mut Player, sprite: Pickup) -> (r: TouchResult)
    requires
        player_wf(old(player)@),
    ensures
        (r, final(player)@) == power_effect(old(player)@, sprite),
        player_wf(final(player)@),
        final(player).bonuscount == old(player).bonuscount,
        final(player).itemcount == old(player).itemcount,
{
    reveal(power_effect);
    let itemup = sfxenum_t::sfx_itemup;
    let getpow = sfxenum_t::sfx_getpow;
    match sprite {
        Pickup::SPR_STIM => taken(P_GiveBody(player, 10), player, Message::GOTSTIM, itemup),
        Pickup::SPR_MEDI => {
            if !P_GiveBody(player, 25) {
                return TouchResult::Ignored;
            }
            if player.health < 25 {
                player.message = Some(Message::GOTMEDINEED);
            } else {
                player.message = Some(Message::GOTMEDIKIT);
            }
            TouchResult::Taken(itemup)
        },
        Pickup::SPR_PINV => taken(P_GivePower(player, powertype_t::pw_invulnerability), player, Message::GOTINVUL, getpow),
        Pickup::SPR_PSTR => {
            if !P_GivePower(player, powertype_t::pw_strength) {
                return TouchResult::Ignored;
            }
            player.message = Some(Message::GOTBERSERK);
            if player.readyweapon != weapontype_t::wp_fist {
                player.pendingweapon = weapontype_t::wp_fist;
            }
            TouchResult::Taken(getpow)
        },
        Pickup::SPR_PINS => taken(P_GivePower(player, powertype_t::pw_invisibility), player, Message::GOTINVIS, getpow),
        Pickup::SPR_SUIT => taken(P_GivePower(player, powertype_t::pw_ironfeet), player, Message::GOTSUIT, getpow),
        Pickup::SPR_PMAP => taken(P_GivePower(player, powertype_t::pw_allmap), player, Message::GOTMAP, getpow),
        _ => taken(P_GivePower(player, powertype_t::pw_infrared), player, Message::GOTVISOR, getpow),
    }
}

/// Ammunition and the backpack.
fn touch_ammo(player: &mut Player, sprite: Pickup, dropped: bool, skill: skill_t) -> (r: TouchResult)
    requires
        player_wf(old(player)@),
    ensures
        (r, final(player)@) == ammo_effect(old(player)@, sprite, dropped, skill),
        player_wf(final(player)@),
        final(player).bonuscount == old(player).bonuscount,
        final(player).itemcount == old(player).itemcount,
{
    reveal(ammo_effect);
    let itemup = sfxenum_t::sfx_itemup;
    match sprite {
        Pickup::SPR_CLIP => {
            let num = if dropped { 0 } else { 1 };
            taken(P_GiveAmmo(player, ammotype_t::am_clip, num, skill), player, Message::GOTCLIP, itemup)
        },
        Pickup::SPR_AMMO => taken(P_GiveAmmo(player, ammotype_t::am_clip, 5, skill), player, Message::GOTCLIPBOX, itemup),
        Pickup::SPR_ROCK => taken(P_GiveAmmo(player, ammotype_t::am_misl, 1, skill), player, Message::GOTROCKET, itemup),
        Pickup::SPR_BROK => taken(P_GiveAmmo(player, ammotype_t::am_misl, 5, skill), player, Message::GOTROCKBOX, itemup),
        Pickup::SPR_CELL => taken(P_GiveAmmo(player, ammotype_t::am_cell, 1, skill), player, Message::GOTCELL, itemup),
        Pickup::SPR_CELP => taken(P_GiveAmmo(player, ammotype_t::am_cell, 5, skill), player, Message::GOTCELLBOX, itemup),
        Pickup::SPR_SHEL => taken(P_GiveAmmo(player, ammotype_t::am_shell, 1, skill), player, Message::GOTSHELLS, itemup),
        Pickup::SPR_SBOX => taken(P_GiveAmmo(player, ammotype_t::am_shell, 5, skill), player, Message::GOTSHELLBOX, itemup),
        _ => {
            give_backpack(player, skill);
            player.message = Some(Message::GOTBACKPACK);
            TouchResult::Taken(itemup)
        },
    }
}

/// Finishes a refusable pickup whose giving step returned `given`.
fn taken(given: bool, player: &mut Player, m: Message, snd: sfxenum_t) -> (r: TouchResult)
    ensures
        given ==> r == TouchResult::Taken(snd) && final(player)@ == with_message(old(player)@, m),
        !given ==> r == TouchResult::Ignored && final(player)@ == old(player)@,
        final(player).bonuscount == old(player).bonuscount,
        final(player).itemcount == old(player).itemcount,
        final(player)@ == (PlayerModel { message: final(player).message, ..old(player)@ }),
{
    if !given {
        return TouchResult::Ignored;
    }
    player.message = Some(m);
    TouchResult::Taken(snd)
}

/// Picks up a key.
fn card(player: &mut Player, c: card_t, m: Message, env: GameEnv) -> (r: TouchResult)
    requires
        player_wf(old(player)@),
    ensures
        (r, final(player)@) == card_pickup(old(player)@, c, m, env),
        player_wf(final(player)@),
        final(player).bonuscount == old(player).bonuscount || final(player).bonuscount == BONUSADD,
        final(player).itemcount == old(player).itemcount,
{
    if !player.cards[c.to_usize()] {
        player.message = Some(m);
    }
    P_GiveCard(player, c);
    if env.netgame {
        return TouchResult::Kept(None);
    }
    TouchResult::Taken(sfxenum_t::sfx_itemup)
}

/// Picks up a weapon.
fn weapon(player: &mut Player, w: weapontype_t, dropped: bool, m: Message, env: GameEnv) -> (r: TouchResult)
    requires
        player_wf(old(player)@),
        w != weapontype_t::wp_nochange,
        old(player).bonuscount <= i32::MAX - BONUSADD,
    ensures
        (r, final(player)@) == weapon_pickup(old(player)@, w, dropped, m, env),
        player_wf(final(player)@),
        old(player).bonuscount <= final(player).bonuscount <= old(player).bonuscount + BONUSADD,
        final(player).itemcount == old(player).itemcount,
{
    let (given, snd) = P_GiveWeapon(player, w, dropped, env);
    if given {
        player.message = Some(m);
        return TouchResult::Taken(sfxenum_t::sfx_wpnup);
    }
    match snd {
        None => TouchResult::Ignored,
        Some(_) => TouchResult::Kept(snd),
    }
}

/// Picks up a backpack.
fn give_backpack(player: &mut Player, skill: skill_t)
    requires
        player_wf(old(player)@),
    ensures
        final(player)@ == backpack_pickup(old(player)@, skill),
        player_wf(final(player)@),
        final(player).bonuscount == old(player).bonuscount,
        final(player).itemcount == old(player).itemcount,
{
    reveal(backpack_pickup);
    if !player.backpack {
        let mut i: usize = 0;
        while i < 4
            invariant
                0 <= i <= 4,
                player_wf(old(player)@),
                !old(player).backpack,
                player@ == (PlayerModel { maxammo: player.maxammo@, ..old(player)@ }),
                player.maxammo@.len() == 4,
                forall|j: int| 0 <= j < i ==> player.maxammo@[j] == old(player).maxammo@[j] * 2,
                forall|j: int| i <= j < 4 ==> player.maxammo@[j] == old(player).maxammo@[j],
            decreases 4 - i,
        {
            player.maxammo[i] = player.maxammo[i] * 2;
            i = i + 1;
        }
        player.backpack = true;
        assert(player.maxammo@ == Seq::new(4, |j: int| (old(player).maxammo@[j] * 2) as i32));
    }
    P_GiveAmmo(player, ammotype_t::am_clip, 1, skill);
    P_GiveAmmo(player, ammotype_t::am_shell, 1, skill);
    P_GiveAmmo(player, ammotype_t::am_cell, 1, skill);
    P_GiveAmmo(player, ammotype_t::am_misl, 1, skill);
}

} // verus!
