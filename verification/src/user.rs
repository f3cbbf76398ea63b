//! The decisions of a player's tic: what the command buttons ask for,
//! weapon selection, the use button, the power-up counters, and the height
//! the player's view bobs at.

use vstd::prelude::*;

use crate::channels::tdiv;
use crate::fixed::{FRACUNIT, FixedMul, fixed_t};
use crate::geom::{fits_i32, fmul};
use crate::player::{GameMode_t, Player, PlayerModel, playerstate_t, weapontype_t};
use crate::stbar::ANG180;

verus! {

/// Fire the weapon.
pub const BT_ATTACK: u8 = 1;

/// Use a line (open a door, press a switch).
pub const BT_USE: u8 = 2;

/// Change weapon; the weapon number is in the `BT_WEAPONMASK` bits.
pub const BT_CHANGE: u8 = 4;

/// Bits of the weapon number.
pub const BT_WEAPONMASK: u8 = 56;

/// Shift of the weapon number.
pub const BT_WEAPONSHIFT: u8 = 3;

/// A special event (pause, save); such a command has no other buttons.
pub const BT_SPECIAL: u8 = 128;

/// The colormap that shows invulnerability.
pub const INVERSECOLORMAP: i32 = 32;

/// One tic of player input.
#[derive(Debug, Clone, Copy, PartialEq, Eq, Structural)]
pub struct ticcmd_t {
    pub forwardmove: i8,
    pub sidemove: i8,
    pub angleturn: i16,
    pub buttons: u8,
}

/// The flags of the player's body that a tic reads and sets.
#[derive(Debug, Clone, Copy, PartialEq, Eq, Structural)]
pub struct PlayerBody {
    /// Passes through walls and things.
    pub noclip: bool,
    /// Just attacked with the chainsaw: keeps running forward.
    pub justattacked: bool,
    /// Tics the body is held still after a teleport.
    pub reactiontime: i32,
}

/// Cheat flag: no clipping.
pub const CF_NOCLIP: i32 = 1;

/// What the rest of the tic does with the player's movement.
#[derive(Debug, Clone, Copy, PartialEq, Eq, Structural)]
pub enum ThinkStart {
    /// The player is dead: only the death view runs this tic.
    Dead,
    /// Held still after a teleport (one tic of it used up).
    Frozen,
    /// The player moves as the command says.
    Moves,
}

/// Start of a player's tic: the no-clip cheat sets the body's flag, a body
/// that just attacked with the chainsaw runs straight forward, and the
/// result says whether the player is dead, held still or moving.
pub fn player_think_start(player: &Player, cmd: &mut ticcmd_t, body: &mut PlayerBody) -> (r: ThinkStart)
    requires
        old(body).reactiontime > i32::MIN,
    ensures
        final(body).noclip == (player.cheats & CF_NOCLIP != 0),
        final(body).justattacked == false,
        *final(cmd) == if old(body).justattacked {
            ticcmd_t { angleturn: 0, forwardmove: 100, sidemove: 0, ..*old(cmd) }
        } else {
            *old(cmd)
        },
        player.playerstate == playerstate_t::PST_DEAD ==> r == ThinkStart::Dead
            && final(body).reactiontime == old(body).reactiontime,
        player.playerstate != playerstate_t::PST_DEAD ==> if old(body).reactiontime != 0 {
            r == ThinkStart::Frozen && final(body).reactiontime == old(body).reactiontime - 1
        } else {
            r == ThinkStart::Moves && final(body).reactiontime == 0
        },
{
    body.noclip = player.cheats & CF_NOCLIP != 0;
    if body.justattacked {
        cmd.angleturn = 0;
        cmd.forwardmove = 100;
        cmd.sidemove = 0;
        body.justattacked = false;
    }
    if player.playerstate == playerstate_t::PST_DEAD {
        return ThinkStart::Dead;
    }
    if body.reactiontime != 0 {
        body.reactiontime = body.reactiontime - 1;
        ThinkStart::Frozen
    } else {
        ThinkStart::Moves
    }
}

/// The weapon with number `n` (0 to 8).
pub open spec fn weapon_at(n: int) -> weapontype_t {
    if n == 0 {
        weapontype_t::wp_fist
    } else if n == 1 {
        weapontype_t::wp_pistol
    } else if n == 2 {
        weapontype_t::wp_shotgun
    } else if n == 3 {
        weapontype_t::wp_chaingun
    } else if n == 4 {
        weapontype_t::wp_missile
    } else if n == 5 {
        weapontype_t::wp_plasma
    } else if n == 6 {
        weapontype_t::wp_bfg
    } else if n == 7 {
        weapontype_t::wp_chainsaw
    } else {
        weapontype_t::wp_supershotgun
    }
}

fn weapon_from_number(n: u8) -> (r: weapontype_t)
    requires
        n < 9,
    ensures
        r == weapon_at(n as int),
        r.idx() == n,
{
    match n {
        0 => weapontype_t::wp_fist,
        1 => weapontype_t::wp_pistol,
        2 => weapontype_t::wp_shotgun,
        3 => weapontype_t::wp_chaingun,
        4 => weapontype_t::wp_missile,
        5 => weapontype_t::wp_plasma,
        6 => weapontype_t::wp_bfg,
        7 => weapontype_t::wp_chainsaw,
        _ => weapontype_t::wp_supershotgun,
    }
}

/// The weapon a change command asks for, once the fist means the chainsaw
/// (when owned, unless it is already up with berserk strength) and, in the
/// commercial game, the shotgun means the super shotgun (when owned and not
/// already up).
pub open spec fn asked_weapon(p: PlayerModel, buttons: u8, mode: GameMode_t) -> weapontype_t {
    let n = weapon_at(((buttons & BT_WEAPONMASK) >> BT_WEAPONSHIFT) as int);
    let n1 = if n == weapontype_t::wp_fist && p.weaponowned[7] && !(p.readyweapon
        == weapontype_t::wp_chainsaw && p.powers[1] != 0) {
        weapontype_t::wp_chainsaw
    } else {
        n
    };
    if mode == GameMode_t::commercial && n1 == weapontype_t::wp_shotgun && p.weaponowned[8]
        && p.readyweapon != weapontype_t::wp_supershotgun {
        weapontype_t::wp_supershotgun
    } else {
        n1
    }
}

/// The buttons once a special event has cleared the others.
pub open spec fn live_buttons(buttons: u8) -> u8 {
    if buttons & BT_SPECIAL != 0 {
        0
    } else {
        buttons
    }
}

/// The weapon change the tic starts, if any: the asked weapon, when owned
/// and not the one up, and not the plasma gun or BFG in the shareware game.
pub open spec fn weapon_change(p: PlayerModel, buttons: u8, mode: GameMode_t) -> Option<weapontype_t> {
    let b = live_buttons(buttons);
    let w = asked_weapon(p, b, mode);
    if b & BT_CHANGE != 0 && p.weaponowned[w.idx()] && w != p.readyweapon && ((w
        != weapontype_t::wp_plasma && w != weapontype_t::wp_bfg) || mode != GameMode_t::shareware) {
        Some(w)
    } else {
        None
    }
}

/// A power-up counter one tic later: strength counts up, the others count
/// down to zero.
pub open spec fn power_tick(i: int, v: i32) -> i32 {
    if v == 0 || i == 4 {
        v
    } else if i == 1 {
        (v + 1) as i32
    } else {
        (v - 1) as i32
    }
}

/// The colormap for the powers after the tic: inverse while invulnerable,
/// almost full bright with light amplification, each blinking off every
/// eight tics in its last 128 tics.
pub open spec fn colormap_for(powers: Seq<i32>) -> i32 {
    if powers[0] != 0 {
        if powers[0] > 4 * 32 || powers[0] & 8 != 0 {
            INVERSECOLORMAP
        } else {
            0
        }
    } else if powers[5] != 0 {
        if powers[5] > 4 * 32 || powers[5] & 8 != 0 {
            1
        } else {
            0
        }
    } else {
        0
    }
}

fn count_down(v: i32) -> (r: i32)
    requires
        v > i32::MIN,
    ensures
        r == if v == 0 {
            0
        } else {
            v - 1
        },
{
    if v != 0 {
        v - 1
    } else {
        0
    }
}

/// The pending weapon after a change command (see `weapon_change`).
fn choose_weapon(player: &mut Player, buttons: u8, gamemode: GameMode_t)
    requires
        buttons == live_buttons(buttons),
    ensures
        final(player)@ == (PlayerModel {
            pendingweapon: match weapon_change(old(player)@, buttons, gamemode) {
                Some(w) => w,
                None => old(player)@.pendingweapon,
            },
            ..old(player)@
        }),
{
    if buttons & BT_CHANGE != 0 {
        let bits = (buttons & BT_WEAPONMASK) >> BT_WEAPONSHIFT;
        assert((buttons & 56u8) >> 3u8 < 8u8) by (bit_vector);
        let mut newweapon = weapon_from_number(bits);
        if newweapon == weapontype_t::wp_fist && player.weaponowned[7] && !(player.readyweapon
            == weapontype_t::wp_chainsaw && player.powers[1] != 0) {
            newweapon = weapontype_t::wp_chainsaw;
        }
        if gamemode == GameMode_t::commercial && newweapon == weapontype_t::wp_shotgun
            && player.weaponowned[8] && player.readyweapon != weapontype_t::wp_supershotgun {
            newweapon = weapontype_t::wp_supershotgun;
        }
        if player.weaponowned[newweapon.to_usize()] && newweapon != player.readyweapon {
            if (newweapon != weapontype_t::wp_plasma && newweapon != weapontype_t::wp_bfg)
                || gamemode != GameMode_t::shareware {
                player.pendingweapon = newweapon;
            }
        }
    }
}

/// The power-up counters tick, a run-out invisibility makes the body solid
/// again, and the damage and bonus counters count down.
#[verifier::rlimit(30)]
fn tick_counters(player: &mut Player)
    requires
        old(player).powers[1] < i32::MAX,
        forall|i: int| 0 <= i < 6 ==> #[trigger] old(player).powers[i] > i32::MIN,
        old(player).damagecount > i32::MIN,
        old(player).bonuscount > i32::MIN,
    ensures
        ({
            let p = old(player)@;
            final(player)@ == (PlayerModel {
                powers: Seq::new(6, |i: int| power_tick(i, p.powers[i])),
                mo_shadow: if p.powers[2] == 1 {
                    false
                } else {
                    p.mo_shadow
                },
                damagecount: if p.damagecount == 0 {
                    0
                } else {
                    (p.damagecount - 1) as i32
                },
                bonuscount: if p.bonuscount == 0 {
                    0
                } else {
                    (p.bonuscount - 1) as i32
                },
                ..p
            })
        }),
{
    let pw = player.powers;
    let mut next = pw;
    if pw[1] != 0 {
        next[1] = pw[1] + 1;
    }
    next[0] = count_down(pw[0]);
    next[2] = count_down(pw[2]);
    next[3] = count_down(pw[3]);
    next[5] = count_down(pw[5]);
    proof {
        assert(next@ =~= Seq::new(6, |i: int| power_tick(i, pw@[i])));
    }
    if pw[2] == 1 {
        player.mo_shadow = false;
    }
    player.powers = next;
    player.damagecount = count_down(player.damagecount);
    player.bonuscount = count_down(player.bonuscount);
}

/// The colormap for the player's powers (see `colormap_for`).
fn pick_colormap(inv: i32, ir: i32) -> (r: i32)
    ensures
        r == colormap_for(seq![inv, 0, 0, 0, 0, ir]),
{
    if inv != 0 {
        if inv > 4 * 32 || (inv & 8) != 0 {
            INVERSECOLORMAP
        } else {
            0
        }
    } else if ir != 0 {
        if ir > 4 * 32 || (ir & 8) != 0 {
            1
        } else {
            0
        }
    } else {
        0
    }
}

/// The player at the end of a tic whose command had `buttons` (see
/// `player_think_end`): the weapon change, the use key, the power-up
/// counters and the colormap they call for.
pub open spec fn think_end(p: PlayerModel, buttons: u8, gamemode: GameMode_t) -> PlayerModel {
    let powers = Seq::new(6, |i: int| power_tick(i, p.powers[i]));
    PlayerModel {
        pendingweapon: match weapon_change(p, buttons, gamemode) {
            Some(w) => w,
            None => p.pendingweapon,
        },
        usedown: live_buttons(buttons) & BT_USE != 0,
        powers: powers,
        mo_shadow: if p.powers[2] == 1 {
            false
        } else {
            p.mo_shadow
        },
        damagecount: if p.damagecount == 0 {
            0
        } else {
            (p.damagecount - 1) as i32
        },
        bonuscount: if p.bonuscount == 0 {
            0
        } else {
            (p.bonuscount - 1) as i32
        },
        fixedcolormap: colormap_for(powers),
        ..p
    }
}

/// Rest of a player's tic, after movement: a special event clears the other
/// buttons; a change command sets the pending weapon (see `weapon_change`);
/// the use button acts once per press (`r` says to use the lines in front);
/// the power-up, damage and bonus counters tick; a run-out invisibility
/// makes the body solid again; and the colormap follows the powers.
pub fn player_think_end(player: &mut Player, cmd: &mut ticcmd_t, gamemode: GameMode_t) -> (r: bool)
    requires
        old(player).powers[1] < i32::MAX,
        forall|i: int| 0 <= i < 6 ==> #[trigger] old(player).powers[i] > i32::MIN,
        old(player).damagecount > i32::MIN,
        old(player).bonuscount > i32::MIN,
    ensures
        *final(cmd) == (ticcmd_t { buttons: live_buttons(old(cmd).buttons), ..*old(cmd) }),
        r == (final(cmd).buttons & BT_USE != 0 && !old(player).usedown),
        final(player)@ == think_end(old(player)@, old(cmd).buttons, gamemode),
{
    if cmd.buttons & BT_SPECIAL != 0 {
        cmd.buttons = 0;
    }
    let buttons = cmd.buttons;
    assert(buttons == live_buttons(buttons)) by {
        assert(0u8 & 128u8 == 0u8) by (bit_vector);
    }
    assert(live_buttons(old(cmd).buttons) == buttons);
    choose_weapon(player, buttons, gamemode);
    let use_lines = if buttons & BT_USE != 0 {
        if !player.usedown {
            player.usedown = true;
            true
        } else {
            false
        }
    } else {
        player.usedown = false;
        false
    };
    tick_counters(player);
    player.fixedcolormap = pick_colormap(player.powers[0], player.powers[5]);
    use_lines
}

/// Height of the view above the floor, standing.
pub const VIEWHEIGHT: i32 = 41 * FRACUNIT;

/// The most the view bobs.
pub const MAXBOB: i32 = 0x100000;

/// Cheat flag: the player does not move (the view does not bob).
pub const CF_NOMOMENTUM: i32 = 4;

/// The height of the player's view: how much it bobs, where the eyes are,
/// their height above the floor and how that height is changing (after a
/// landing it squats and comes back up).
#[derive(Debug, Clone, Copy, PartialEq, Eq, Structural)]
pub struct PlayerView {
    pub bob: fixed_t,
    pub viewz: fixed_t,
    pub viewheight: fixed_t,
    pub deltaviewheight: fixed_t,
}

/// Where the player's body is and how it moves.
#[derive(Debug, Clone, Copy, PartialEq, Eq, Structural)]
pub struct BodyMotion {
    pub momx: fixed_t,
    pub momy: fixed_t,
    pub z: fixed_t,
    pub ceilingz: fixed_t,
}

/// The bob of a body moving at (momx, momy): a quarter of the squared
/// speed, at most `MAXBOB`.
pub open spec fn bob_of(momx: i32, momy: i32) -> int {
    let b = (fmul(momx as int, momx as int) + fmul(momy as int, momy as int)) / 4;
    if b > MAXBOB {
        MAXBOB as int
    } else {
        b
    }
}

/// How far the eyes bob this tic: half the bob (see `bob_of`), rounded
/// towards zero, times the sine at `leveltime` 409 steps of the table a
/// tic.
pub open spec fn bob_swing(momx: i32, momy: i32, finesine: Seq<i32>, leveltime: int) -> int {
    fmul(tdiv(bob_of(momx, momy), 2), finesine[(409 * leveltime) % 8192] as int)
}

/// The view height and its change after one tic of a live player: the
/// change is added; above the standing height the view stops there; below
/// half of it the view is held there and starts coming up; and a change
/// under way slows by a quarter unit (without stopping at 0).
pub open spec fn squat(viewheight: int, delta: int) -> (int, int) {
    let h1 = viewheight + delta;
    let (h2, d2) = if h1 > VIEWHEIGHT {
        (VIEWHEIGHT as int, 0int)
    } else {
        (h1, delta)
    };
    let (h3, d3) = if h2 < VIEWHEIGHT / 2 {
        (VIEWHEIGHT / 2, if d2 <= 0 {
            1
        } else {
            d2
        })
    } else {
        (h2, d2)
    };
    let d4 = if d3 != 0 {
        if d3 + FRACUNIT / 4 == 0 {
            1
        } else {
            d3 + FRACUNIT / 4
        }
    } else {
        0
    };
    (h3, d4)
}

/// The view after a tic (see `P_CalcHeight`).
pub open spec fn calc_height(
    v: PlayerView,
    mo: BodyMotion,
    cheats: i32,
    onground: bool,
    playerstate: playerstate_t,
    leveltime: int,
    finesine: Seq<i32>,
) -> PlayerView {
    let bob = bob_of(mo.momx, mo.momy) as i32;
    if cheats & CF_NOMOMENTUM != 0 || !onground {
        PlayerView { bob, viewz: (mo.z + v.viewheight) as i32, ..v }
    } else {
        let (h, d) = if playerstate == playerstate_t::PST_LIVE {
            squat(v.viewheight as int, v.deltaviewheight as int)
        } else {
            (v.viewheight as int, v.deltaviewheight as int)
        };
        let z = mo.z + h + bob_swing(mo.momx, mo.momy, finesine, leveltime);
        PlayerView {
            bob,
            viewz: (if z > mo.ceilingz - 4 * FRACUNIT {
                mo.ceilingz - 4 * FRACUNIT
            } else {
                z
            }) as i32,
            viewheight: h as i32,
            deltaviewheight: d as i32,
        }
    }
}

/// What computing the view height needs: a sine table of a full turn,
/// and heights that fit in 32 bits along the way.
pub open spec fn calc_height_ok(
    v: PlayerView,
    mo: BodyMotion,
    cheats: i32,
    onground: bool,
    playerstate: playerstate_t,
    leveltime: int,
    finesine: Seq<i32>,
) -> bool {
    &&& finesine.len() >= 8192
    &&& fits_i32(fmul(mo.momx as int, mo.momx as int) + fmul(mo.momy as int, mo.momy as int))
    &&& fits_i32(mo.z + VIEWHEIGHT)
    &&& fits_i32(mo.ceilingz - 4 * FRACUNIT)
    &&& fits_i32(mo.z + v.viewheight)
    &&& 409 * leveltime <= usize::MAX
    &&& playerstate == playerstate_t::PST_LIVE ==> fits_i32(v.viewheight
        + v.deltaviewheight) && fits_i32(v.deltaviewheight + FRACUNIT / 4)
    &&& ({
        let (h, d) = if playerstate == playerstate_t::PST_LIVE {
            squat(v.viewheight as int, v.deltaviewheight as int)
        } else {
            (v.viewheight as int, v.deltaviewheight as int)
        };
        let bob = bob_swing(mo.momx, mo.momy, finesine, leveltime);
        !(cheats & CF_NOMOMENTUM != 0 || !onground) ==> fits_i32(mo.z + h) && fits_i32(
            mo.z + h + bob,
        )
    })
}

/// Sets the height of the player's view for a tic: the bob follows the
/// speed (see `bob_of`); off the ground or without momentum the eyes are
/// at the view height; otherwise a live player's view height squats (see
/// `squat`) and the eyes bob with the sine of the level time (the table
/// `finesine`, 8192 steps to a turn; see `bob_swing`), but never come within 4 units of the
/// ceiling.
pub fn P_CalcHeight(
    view: &mut PlayerView,
    mo: &BodyMotion,
    cheats: i32,
    onground: bool,
    playerstate: playerstate_t,
    leveltime: usize,
    finesine: &Vec<fixed_t>,
)
    requires
        calc_height_ok(*old(view), *mo, cheats, onground, playerstate, leveltime as int, finesine@),
    ensures
        *final(view) == calc_height(
            *old(view),
            *mo,
            cheats,
            onground,
            playerstate,
            leveltime as int,
            finesine@,
        ),
{
    let b = FixedMul(mo.momx, mo.momx) + FixedMul(mo.momy, mo.momy);
    assert(b >> 2u32 == b / 4) by (bit_vector);
    view.bob = b >> 2u32;
    if view.bob > MAXBOB {
        view.bob = MAXBOB;
    }
    if cheats & CF_NOMOMENTUM != 0 || !onground {
        view.viewz = mo.z + VIEWHEIGHT;
        if view.viewz > mo.ceilingz - 4 * FRACUNIT {
            view.viewz = mo.ceilingz - 4 * FRACUNIT;
        }
        view.viewz = mo.z + view.viewheight;
        return;
    }
    let t: usize = 8192 / 20 * leveltime;
    assert(t & 8191 == t % 8192) by (bit_vector);
    let angle = t & 8191;
    let bob = FixedMul(view.bob / 2, finesine[angle]);
    if playerstate == playerstate_t::PST_LIVE {
        view.viewheight = view.viewheight + view.deltaviewheight;
        if view.viewheight > VIEWHEIGHT {
            view.viewheight = VIEWHEIGHT;
            view.deltaviewheight = 0;
        }
        if view.viewheight < VIEWHEIGHT / 2 {
            view.viewheight = VIEWHEIGHT / 2;
            if view.deltaviewheight <= 0 {
                view.deltaviewheight = 1;
            }
        }
        if view.deltaviewheight != 0 {
            view.deltaviewheight = view.deltaviewheight + FRACUNIT / 4;
            if view.deltaviewheight == 0 {
                view.deltaviewheight = 1;
            }
        }
    }
    view.viewz = mo.z + view.viewheight + bob;
    if view.viewz > mo.ceilingz - 4 * FRACUNIT {
        view.viewz = mo.ceilingz - 4 * FRACUNIT;
    }
}

/// Five degrees, in the binary angle measure of a full turn.
pub const ANG5: u32 = 59652323;

/// Who killed the player: the player itself, or another thing at angle
/// `angle` seen from the player.
#[derive(Debug, Clone, Copy, PartialEq, Eq, Structural)]
pub enum Killer {
    Itself,
    At(u32),
}

/// A dead player's view sinks one unit a tic down to 6 units above the
/// floor, and stops squatting.
pub open spec fn fallen(v: PlayerView) -> PlayerView {
    let h1 = if v.viewheight > 6 * FRACUNIT {
        v.viewheight - FRACUNIT
    } else {
        v.viewheight as int
    };
    PlayerView {
        viewheight: (if h1 < 6 * FRACUNIT {
            6 * FRACUNIT
        } else {
            h1
        }) as i32,
        deltaviewheight: 0,
        ..v
    }
}

/// The facing of a dead player after a tic: turned straight at a killer
/// within five degrees of it, else five degrees towards it, the shorter
/// way; unchanged for a player who killed himself.
pub open spec fn face_killer(angle: u32, killer: Killer) -> u32 {
    match killer {
        Killer::Itself => angle,
        Killer::At(a) => {
            let delta = a.wrapping_sub(angle);
            if delta < ANG5 || delta > (0x100000000 - ANG5) as u32 {
                a
            } else if delta < ANG180 {
                (angle + ANG5) as u32
            } else {
                (angle - ANG5) as u32
            }
        },
    }
}

/// The damage flash of a dead player fades one step a tic while the player
/// looks at the killer or killed himself.
pub open spec fn death_damage(damagecount: i32, angle: u32, killer: Killer) -> i32 {
    let looking = match killer {
        Killer::Itself => true,
        Killer::At(a) => {
            let delta = a.wrapping_sub(angle);
            delta < ANG5 || delta > (0x100000000 - ANG5) as u32
        },
    };
    if looking && damagecount != 0 {
        (damagecount - 1) as i32
    } else {
        damagecount
    }
}

/// Turning towards the killer by `ANG5` stays within the angle's range.
pub open spec fn killer_turn_fits(angle: u32, killer: Killer) -> bool {
    killer matches Killer::At(a) ==> {
        let delta = a.wrapping_sub(angle);
        !(delta < ANG5 || delta > (0x100000000 - ANG5) as u32) ==> if delta < ANG180 {
            angle + ANG5 <= u32::MAX
        } else {
            angle >= ANG5
        }
    }
}

/// A dead player's tic: the view sinks (see `fallen`) and is recomputed
/// (see `P_CalcHeight`, on the ground where the body is at or below
/// `floorz`); the body turns towards the killer (see `face_killer`); the
/// damage flash fades while the player looks at the killer (see
/// `death_damage`); and pressing use makes the player be born again. The
/// weapon overlays run on as the caller moves them.
pub fn P_DeathThink(
    player: &mut Player,
    view: &mut PlayerView,
    mo: &BodyMotion,
    floorz: fixed_t,
    mo_angle: &mut u32,
    killer: Killer,
    buttons: u8,
    leveltime: usize,
    finesine: &Vec<fixed_t>,
)
    requires
        calc_height_ok(
            fallen(*old(view)),
            *mo,
            old(player).cheats,
            mo.z <= floorz,
            old(player).playerstate,
            leveltime as int,
            finesine@,
        ),
        old(player).damagecount > i32::MIN,
        killer_turn_fits(*old(mo_angle), killer),
    ensures
        *final(view) == calc_height(
            fallen(*old(view)),
            *mo,
            old(player).cheats,
            mo.z <= floorz,
            old(player).playerstate,
            leveltime as int,
            finesine@,
        ),
        *final(mo_angle) == face_killer(*old(mo_angle), killer),
        final(player)@ == (PlayerModel {
            damagecount: death_damage(old(player).damagecount, *old(mo_angle), killer),
            playerstate: if buttons & BT_USE != 0 {
                playerstate_t::PST_REBORN
            } else {
                old(player).playerstate
            },
            ..old(player)@
        }),
{
    if view.viewheight > 6 * FRACUNIT {
        view.viewheight = view.viewheight - FRACUNIT;
    }
    if view.viewheight < 6 * FRACUNIT {
        view.viewheight = 6 * FRACUNIT;
    }
    view.deltaviewheight = 0;
    let onground = mo.z <= floorz;
    P_CalcHeight(view, mo, player.cheats, onground, player.playerstate, leveltime, finesine);
    match killer {
        Killer::At(angle) => {
            let delta = angle.wrapping_sub(*mo_angle);
            if delta < ANG5 || delta > (0x100000000u64 - ANG5 as u64) as u32 {
                *mo_angle = angle;
                if player.damagecount != 0 {
                    player.damagecount = player.damagecount - 1;
                }
            } else if delta < ANG180 {
                *mo_angle = *mo_angle + ANG5;
            } else {
                *mo_angle = *mo_angle - ANG5;
            }
        },
        Killer::Itself => {
            if player.damagecount != 0 {
                player.damagecount = player.damagecount - 1;
            }
        },
    }
    if buttons & BT_USE != 0 {
        player.playerstate = playerstate_t::PST_REBORN;
    }
}

/// The change of speed a push of `mov` in direction `angle` gives: along x
/// by the cosine, along y by the sine, from the table `finesine` (8192
/// steps to a turn, the cosine a quarter turn further on).
pub open spec fn thrust(angle: u32, mov: int, finesine: Seq<i32>) -> (int, int) {
    let a = angle / 524288;
    (fmul(mov, finesine[a + 2048] as int), fmul(mov, finesine[a as int] as int))
}

/// Pushes a body moving at (momx, momy) by `mov` in direction `angle` (see
/// `thrust`).
pub fn P_Thrust(momx: &mut fixed_t, momy: &mut fixed_t, angle: u32, mov: fixed_t, finesine: &Vec<
    fixed_t,
>)
    requires
        finesine.len() >= 10240,
        fits_i32(*old(momx) + thrust(angle, mov as int, finesine@).0),
        fits_i32(*old(momy) + thrust(angle, mov as int, finesine@).1),
    ensures
        *final(momx) == *old(momx) + thrust(angle, mov as int, finesine@).0,
        *final(momy) == *old(momy) + thrust(angle, mov as int, finesine@).1,
{
    assert(angle >> 19u32 == angle / 524288) by (bit_vector);
    let a = (angle >> 19u32) as usize;
    *momx = *momx + FixedMul(mov, finesine[a + 2048]);
    *momy = *momy + FixedMul(mov, finesine[a]);
}

/// A quarter turn.
pub const ANG90: u32 = 0x40000000;

/// The facing after the command's turn.
pub open spec fn turned(angle: u32, cmd: ticcmd_t) -> u32 {
    angle.wrapping_add_signed((cmd.angleturn as int * 65536) as i32)
}

/// The speed after the command's pushes: forward along the facing, and to
/// the side a quarter turn to the right of it, 2048 a step of the command;
/// only on the ground.
pub open spec fn moved(angle: u32, cmd: ticcmd_t, momx: int, momy: int, onground: bool, finesine: Seq<i32>) -> (int, int) {
    let a = turned(angle, cmd);
    let (x1, y1) = if cmd.forwardmove != 0 && onground {
        let t = thrust(a, cmd.forwardmove * 2048, finesine);
        (momx + t.0, momy + t.1)
    } else {
        (momx, momy)
    };
    if cmd.sidemove != 0 && onground {
        let t = thrust(a.wrapping_sub(ANG90), cmd.sidemove * 2048, finesine);
        (x1 + t.0, y1 + t.1)
    } else {
        (x1, y1)
    }
}

/// The speed can take the command's pushes in 32 bits.
pub open spec fn moves_fit(angle: u32, cmd: ticcmd_t, momx: int, momy: int, onground: bool, finesine: Seq<i32>) -> bool {
    let a = turned(angle, cmd);
    let t = thrust(a, cmd.forwardmove * 2048, finesine);
    let (x1, y1) = if cmd.forwardmove != 0 && onground {
        (momx + t.0, momy + t.1)
    } else {
        (momx, momy)
    };
    let u = thrust(a.wrapping_sub(ANG90), cmd.sidemove * 2048, finesine);
    &&& cmd.forwardmove != 0 && onground ==> fits_i32(x1) && fits_i32(y1)
    &&& cmd.sidemove != 0 && onground ==> fits_i32(x1 + u.0) && fits_i32(y1 + u.1)
}

/// Moves the player's body by the command: it turns by the command's turn,
/// and on the ground (at or below `floorz`) it is pushed (see `moved`).
/// Returns whether the body, moving by the command while in its standing
/// frame (`standing_frame`), starts its running frames.
pub fn P_MovePlayer(
    cmd: &ticcmd_t,
    angle: &mut u32,
    momx: &mut fixed_t,
    momy: &mut fixed_t,
    z: fixed_t,
    floorz: fixed_t,
    standing_frame: bool,
    finesine: &Vec<fixed_t>,
) -> (r: bool)
    requires
        finesine.len() >= 10240,
        moves_fit(*old(angle), *cmd, *old(momx) as int, *old(momy) as int, z <= floorz, finesine@),
    ensures
        *final(angle) == turned(*old(angle), *cmd),
        (*final(momx) as int, *final(momy) as int) == moved(
            *old(angle),
            *cmd,
            *old(momx) as int,
            *old(momy) as int,
            z <= floorz,
            finesine@,
        ),
        r == ((cmd.forwardmove != 0 || cmd.sidemove != 0) && standing_frame),
{
    *angle = angle.wrapping_add_signed((cmd.angleturn as i32) * 65536);
    let onground = z <= floorz;
    if cmd.forwardmove != 0 && onground {
        let a = *angle;
        P_Thrust(momx, momy, a, (cmd.forwardmove as i32) * 2048, finesine);
    }
    if cmd.sidemove != 0 && onground {
        let a = angle.wrapping_sub(ANG90);
        P_Thrust(momx, momy, a, (cmd.sidemove as i32) * 2048, finesine);
    }
    (cmd.forwardmove != 0 || cmd.sidemove != 0) && standing_frame
}

} // verus!
