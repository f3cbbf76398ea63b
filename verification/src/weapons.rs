//! Weapon overlays: raising, lowering, the ready weapon's swing and
//! trigger, choosing a weapon when ammunition runs out, re-firing and the
//! sounds of the weapon frames.

use vstd::prelude::*;

use crate::fixed::{FRACUNIT, FixedMul, fixed_t};
use crate::geom::{fits_i32, fmul};
use crate::player::{
    ammotype_t, player_wf, playerstate_t, psprnum_t, pspdef_t, weapontype_t, GameMode_t, Player,
    PlayerModel, WeaponFrame,
};
use crate::sounds::sfxenum_t;

verus! {

/// Speed at which a weapon is lowered and raised.
pub const LOWERSPEED: i32 = 6 * FRACUNIT;
pub const RAISESPEED: i32 = 6 * FRACUNIT;

/// Height of the weapon overlay when lowered out of sight and when ready.
pub const WEAPONBOTTOM: i32 = 128 * FRACUNIT;
pub const WEAPONTOP: i32 = 32 * FRACUNIT;

/// Plasma cells for a BFG attack.
pub const BFGCELLS: i32 = 40;

/// A frame's entry in the table of weapon frames: how many tics it lasts
/// (-1: until something else changes it) and, where `misc1` is not 0, the
/// overlay position it puts the sprite at, in map units.
#[derive(Debug, Clone, Copy, PartialEq, Eq, Structural)]
pub struct FrameInfo {
    pub tics: i32,
    pub misc1: i32,
    pub misc2: i32,
}

/// Every weapon's up, down and ready frames last one tic and leave the
/// overlay where it is.
pub const SWITCH_TICS: i32 = 1;

/// The table entry of an up, down or ready frame.
pub open spec fn switch_frame() -> FrameInfo {
    FrameInfo { tics: SWITCH_TICS, misc1: 0, misc2: 0 }
}

/// The entry of an up, down or ready frame, to hand to `P_SetPsprite`.
pub fn switch_frame_info() -> (r: FrameInfo)
    ensures
        r == switch_frame(),
{
    FrameInfo { tics: SWITCH_TICS, misc1: 0, misc2: 0 }
}

/// The overlay position of an entry is a map-unit count that fits once
/// scaled to fixed point.
pub open spec fn frame_info_ok(info: FrameInfo) -> bool {
    -32768 <= info.misc1 <= 32767 && -32768 <= info.misc2 <= 32767
}

/// The player with overlay `pos` (0: weapon, 1: flash) showing `frame` and
/// nothing else changed.
pub open spec fn set_psprite(p: PlayerModel, pos: int, frame: Option<WeaponFrame>) -> PlayerModel {
    PlayerModel { psprites: p.psprites.update(pos, pspdef_t { state: frame, ..p.psprites[pos] }), ..p }
}

/// Entering a frame: overlay `pos` shows it for the entry's tics and, where
/// the entry sets a position, moves there; removing the overlay (`None`)
/// changes nothing else.
pub open spec fn enter_frame(p: PlayerModel, pos: int, frame: Option<WeaponFrame>, info: FrameInfo) -> PlayerModel {
    let psp = p.psprites[pos];
    let entered = match frame {
        None => pspdef_t { state: None, ..psp },
        Some(_) => if info.misc1 != 0 {
            pspdef_t {
                state: frame,
                tics: info.tics,
                sx: (info.misc1 * FRACUNIT) as i32,
                sy: (info.misc2 * FRACUNIT) as i32,
            }
        } else {
            pspdef_t { state: frame, tics: info.tics, ..psp }
        },
    };
    PlayerModel { psprites: p.psprites.update(pos, entered), ..p }
}

/// Setting a frame: entering it, then its action on the weapon overlay; a
/// down frame lowers the weapon a step (`lower`), an up frame raises it a
/// step (`raise`). The other frames' actions need the rest of the game and
/// are its caller's to run.
pub open spec fn set_frame(p: PlayerModel, pos: int, frame: Option<WeaponFrame>, info: FrameInfo) -> PlayerModel {
    let q = enter_frame(p, pos, frame, info);
    if pos == 0 {
        match frame {
            Some(WeaponFrame::Down(_)) => lower(q),
            Some(WeaponFrame::Up(_)) => raise(q),
            _ => q,
        }
    } else {
        q
    }
}

/// The sound of setting a frame: a down frame that brings up the chainsaw.
pub open spec fn set_frame_sound(p: PlayerModel, pos: int, frame: Option<WeaponFrame>, info: FrameInfo) -> Option<sfxenum_t> {
    let q = enter_frame(p, pos, frame, info);
    if pos == 0 {
        match frame {
            Some(WeaponFrame::Down(_)) => lower_sound(q),
            _ => None,
        }
    } else {
        None
    }
}

/// The frame's step keeps the weapon overlay's height in range.
pub open spec fn frame_fits(p: PlayerModel, pos: int, frame: Option<WeaponFrame>, info: FrameInfo) -> bool {
    let y = enter_frame(p, pos, frame, info).psprites[0].sy;
    pos == 0 ==> match frame {
        Some(WeaponFrame::Down(_)) => y <= i32::MAX - LOWERSPEED,
        Some(WeaponFrame::Up(_)) => y >= i32::MIN + RAISESPEED,
        _ => true,
    }
}

/// The weapon overlay can take a step down.
pub open spec fn can_lower(p: PlayerModel) -> bool {
    p.psprites[0].sy <= i32::MAX - LOWERSPEED
}

/// Switches overlay `position` to `frame` (`None` removes it), whose entry
/// in the frame table is `info` (see `set_frame`). Returns the sound to
/// start at the player. A frame that lasts no tic is followed at once by
/// the next one, which the caller sets in turn.
pub fn P_SetPsprite(player: &mut Player, position: psprnum_t, frame: Option<WeaponFrame>, info: FrameInfo) -> (r:
    Option<sfxenum_t>)
    requires
        position != psprnum_t::NUMPSPRITES,
        player_wf(old(player)@),
        frame_info_ok(info),
        frame_fits(old(player)@, position.idx(), frame, info),
    ensures
        final(player)@ == set_frame(old(player)@, position.idx(), frame, info),
        r == set_frame_sound(old(player)@, position.idx(), frame, info),
        player_wf(final(player)@),
{
    let i = position.to_usize();
    let mut psp = player.psprites[i];
    psp.state = frame;
    if frame.is_some() {
        psp.tics = info.tics;
        if info.misc1 != 0 {
            psp.sx = info.misc1 * FRACUNIT;
            psp.sy = info.misc2 * FRACUNIT;
        }
    }
    player.psprites[i] = psp;
    proof {
        assert(player@ == enter_frame(old(player)@, position.idx(), frame, info));
    }
    if i == 0 {
        match frame {
            Some(WeaponFrame::Down(_)) => {
                return A_Lower(player);
            },
            Some(WeaponFrame::Up(_)) => {
                A_Raise(player);
                return None;
            },
            _ => {},
        }
    }
    None
}

/// A frame of the weapon frame table: what it shows, its entry, and the
/// frame that follows it (`None`: the overlay goes away).
#[derive(Debug, Clone, Copy, PartialEq, Eq, Structural)]
pub struct WeaponState {
    pub frame: WeaponFrame,
    pub info: FrameInfo,
    pub next: Option<usize>,
}

/// Every frame of the table has a usable entry and is followed by a frame
/// of the table (or by none).
pub open spec fn states_ok(states: Seq<WeaponState>) -> bool {
    forall|k: int|
        0 <= k < states.len() ==> {
            &&& frame_info_ok(#[trigger] states[k].info)
            &&& states[k].next matches Some(n) ==> n < states.len()
        }
}

/// Setting overlay `pos` to frame `st` of the table and following the
/// frames that last no tic: each frame is set (see `set_frame`); the chain
/// goes on to the next frame while the overlay is shown and its tic count
/// is 0, for at most `fuel` more frames.
pub open spec fn run_chain(p: PlayerModel, pos: int, st: Option<usize>, states: Seq<WeaponState>, fuel: nat) -> PlayerModel
    decreases fuel,
{
    match st {
        None => set_psprite(p, pos, None),
        Some(k) => {
            let s = states[k as int];
            let q = set_frame(p, pos, Some(s.frame), s.info);
            if fuel == 0 || q.psprites[pos].state is None || q.psprites[pos].tics != 0 {
                q
            } else {
                run_chain(q, pos, s.next, states, (fuel - 1) as nat)
            }
        },
    }
}

/// The sounds the frames of the chain start, in order.
pub open spec fn chain_sounds(p: PlayerModel, pos: int, st: Option<usize>, states: Seq<WeaponState>, fuel: nat) -> Seq<sfxenum_t>
    decreases fuel,
{
    match st {
        None => Seq::empty(),
        Some(k) => {
            let s = states[k as int];
            let q = set_frame(p, pos, Some(s.frame), s.info);
            let here = match set_frame_sound(p, pos, Some(s.frame), s.info) {
                Some(x) => seq![x],
                None => Seq::empty(),
            };
            if fuel == 0 || q.psprites[pos].state is None || q.psprites[pos].tics != 0 {
                here
            } else {
                here + chain_sounds(q, pos, s.next, states, (fuel - 1) as nat)
            }
        },
    }
}

/// Every step of the chain keeps the weapon overlay's height in range.
pub open spec fn chain_fits(p: PlayerModel, pos: int, st: Option<usize>, states: Seq<WeaponState>, fuel: nat) -> bool
    decreases fuel,
{
    match st {
        None => true,
        Some(k) => {
            let s = states[k as int];
            let q = set_frame(p, pos, Some(s.frame), s.info);
            &&& frame_fits(p, pos, Some(s.frame), s.info)
            &&& (fuel == 0 || q.psprites[pos].state is None || q.psprites[pos].tics != 0 || chain_fits(
                q,
                pos,
                s.next,
                states,
                (fuel - 1) as nat,
            ))
        },
    }
}

/// Sets overlay `position` to frame `stnum` of the frame table `states`
/// and follows the frames that last no tic (see `run_chain`), as many as
/// the table has. Returns the sounds to start at the player.
pub fn P_SetPspriteState(player: &mut Player, position: psprnum_t, stnum: Option<usize>, states: &Vec<WeaponState>) -> (r: Vec<sfxenum_t>)
    requires
        position != psprnum_t::NUMPSPRITES,
        player_wf(old(player)@),
        states_ok(states@),
        stnum matches Some(k) ==> k < states.len(),
        chain_fits(old(player)@, position.idx(), stnum, states@, states.len() as nat),
    ensures
        final(player)@ == run_chain(old(player)@, position.idx(), stnum, states@, states.len() as nat),
        r@ == chain_sounds(old(player)@, position.idx(), stnum, states@, states.len() as nat),
        player_wf(final(player)@),
{
    let pos = position.to_usize();
    let mut st = stnum;
    let mut fuel: usize = states.len();
    let mut sounds: Vec<sfxenum_t> = Vec::new();
    loop
        invariant
            pos as int == position.idx(),
            position != psprnum_t::NUMPSPRITES,
            player_wf(player@),
            states_ok(states@),
            fuel <= states.len(),
            st matches Some(k) ==> k < states.len(),
            chain_fits(player@, pos as int, st, states@, fuel as nat),
            run_chain(old(player)@, pos as int, stnum, states@, states.len() as nat) == run_chain(
                player@,
                pos as int,
                st,
                states@,
                fuel as nat,
            ),
            chain_sounds(old(player)@, pos as int, stnum, states@, states.len() as nat) == sounds@ + chain_sounds(
                player@,
                pos as int,
                st,
                states@,
                fuel as nat,
            ),
        decreases fuel,
    {
        match st {
            None => {
                let mut psp = player.psprites[pos];
                psp.state = None;
                player.psprites[pos] = psp;
                proof {
                    assert(sounds@ + Seq::<sfxenum_t>::empty() =~= sounds@);
                }
                return sounds;
            },
            Some(k) => {
                let s = states[k];
                proof {
                    assert(frame_info_ok(states@[k as int].info));
                }
                let ghost before = player@;
                let ghost prefix = sounds@;
                let snd = P_SetPsprite(player, position, Some(s.frame), s.info);
                let ghost here: Seq<sfxenum_t> = match snd {
                    Some(x) => seq![x],
                    None => Seq::empty(),
                };
                match snd {
                    Some(x) => {
                        sounds.push(x);
                    },
                    None => {},
                }
                assert(sounds@ == prefix + here);
                let psp = player.psprites[pos];
                if fuel == 0 || psp.state.is_none() || psp.tics != 0 {
                    proof {
                        assert(chain_sounds(before, pos as int, st, states@, fuel as nat) == here);
                    }
                    return sounds;
                }
                proof {
                    assert(prefix + (here + chain_sounds(player@, pos as int, s.next, states@, (fuel - 1) as nat))
                        =~= sounds@ + chain_sounds(player@, pos as int, s.next, states@, (fuel - 1) as nat));
                }
                st = s.next;
                fuel = fuel - 1;
            },
        }
    }
}

/// One overlay's tic: a shown frame that is not held for ever counts down
/// a tic and, at zero, gives way to `next`, the frame that follows it in
/// the table, whose entry is `info`.
pub open spec fn tick_psprite(p: PlayerModel, i: int, next: Option<WeaponFrame>, info: FrameInfo) -> PlayerModel {
    let psp = p.psprites[i];
    if psp.state is None || psp.tics == -1 {
        p
    } else {
        let q = PlayerModel { psprites: p.psprites.update(i, pspdef_t { tics: (psp.tics - 1) as i32, ..psp }), ..p };
        if psp.tics - 1 == 0 {
            set_frame(q, i, next, info)
        } else {
            q
        }
    }
}

/// The sound of an overlay's tic (see `set_frame_sound`).
pub open spec fn tick_sound(p: PlayerModel, i: int, next: Option<WeaponFrame>, info: FrameInfo) -> Option<sfxenum_t> {
    let psp = p.psprites[i];
    if psp.state is None || psp.tics == -1 || psp.tics - 1 != 0 {
        None
    } else {
        let q = PlayerModel { psprites: p.psprites.update(i, pspdef_t { tics: (psp.tics - 1) as i32, ..psp }), ..p };
        set_frame_sound(q, i, next, info)
    }
}

/// An overlay's tic stays in range.
pub open spec fn tick_fits(p: PlayerModel, i: int, next: Option<WeaponFrame>, info: FrameInfo) -> bool {
    let psp = p.psprites[i];
    let q = PlayerModel { psprites: p.psprites.update(i, pspdef_t { tics: (psp.tics - 1) as i32, ..psp }), ..p };
    &&& psp.tics > i32::MIN
    &&& (psp.state is Some && psp.tics == 1) ==> frame_fits(q, i, next, info)
}

fn tick_one(player: &mut Player, position: psprnum_t, next: Option<WeaponFrame>, info: FrameInfo) -> (r: Option<sfxenum_t>)
    requires
        position != psprnum_t::NUMPSPRITES,
        player_wf(old(player)@),
        frame_info_ok(info),
        tick_fits(old(player)@, position.idx(), next, info),
    ensures
        final(player)@ == tick_psprite(old(player)@, position.idx(), next, info),
        r == tick_sound(old(player)@, position.idx(), next, info),
        player_wf(final(player)@),
{
    let i = position.to_usize();
    let mut psp = player.psprites[i];
    if psp.state.is_none() || psp.tics == -1 {
        return None;
    }
    psp.tics = psp.tics - 1;
    player.psprites[i] = psp;
    if psp.tics == 0 {
        P_SetPsprite(player, position, next, info)
    } else {
        None
    }
}

/// A tic of the overlays: each counts down (see `tick_psprite`), then the
/// flash follows the weapon.
pub open spec fn move_psprites(
    p: PlayerModel,
    weapon_next: Option<WeaponFrame>,
    weapon_info: FrameInfo,
    flash_next: Option<WeaponFrame>,
    flash_info: FrameInfo,
) -> PlayerModel {
    let a = tick_psprite(p, 0, weapon_next, weapon_info);
    let b = tick_psprite(a, 1, flash_next, flash_info);
    PlayerModel {
        psprites: b.psprites.update(1, pspdef_t { sx: b.psprites[0].sx, sy: b.psprites[0].sy, ..b.psprites[1] }),
        ..b
    }
}

/// Runs a tic of the player's overlays; `weapon_next` and `flash_next` are
/// the frames that follow the weapon's and the flash's current frames in
/// the table, with their entries. Returns the sound to start at the
/// player.
pub fn P_MovePsprites(
    player: &mut Player,
    weapon_next: Option<WeaponFrame>,
    weapon_info: FrameInfo,
    flash_next: Option<WeaponFrame>,
    flash_info: FrameInfo,
) -> (r: Option<sfxenum_t>)
    requires
        player_wf(old(player)@),
        frame_info_ok(weapon_info),
        frame_info_ok(flash_info),
        tick_fits(old(player)@, 0, weapon_next, weapon_info),
        old(player).psprites[1].tics > i32::MIN,
    ensures
        final(player)@ == move_psprites(old(player)@, weapon_next, weapon_info, flash_next, flash_info),
        r == tick_sound(old(player)@, 0, weapon_next, weapon_info),
        player_wf(final(player)@),
{
    let snd = tick_one(player, psprnum_t::ps_weapon, weapon_next, weapon_info);
    assert(player@.psprites[1] == old(player)@.psprites[1]);
    tick_one(player, psprnum_t::ps_flash, flash_next, flash_info);
    let w = player.psprites[0];
    let mut f = player.psprites[1];
    f.sx = w.sx;
    f.sy = w.sy;
    player.psprites[1] = f;
    snd
}

/// Rounds needed for one shot of weapon `w`.
pub open spec fn ammo_per_shot(w: weapontype_t) -> int {
    if w == weapontype_t::wp_bfg { BFGCELLS as int } else if w == weapontype_t::wp_supershotgun { 2 } else { 1 }
}

/// Whether the ready weapon can fire once.
pub open spec fn enough_ammo(p: PlayerModel) -> bool {
    let a = p.readyweapon.ammo_spec();
    a == ammotype_t::am_noammo || p.ammo[a.idx()] >= ammo_per_shot(p.readyweapon)
}

/// The weapon chosen when the ready one is out of ammunition, in order of
/// preference.
pub open spec fn fallback_weapon(p: PlayerModel, mode: GameMode_t) -> weapontype_t {
    let owned = |w: weapontype_t| p.weaponowned[w.idx()];
    let ammo = |a: ammotype_t| p.ammo[a.idx()];
    if owned(weapontype_t::wp_plasma) && ammo(ammotype_t::am_cell) != 0 && mode != GameMode_t::shareware {
        weapontype_t::wp_plasma
    } else if owned(weapontype_t::wp_supershotgun) && ammo(ammotype_t::am_shell) > 2 && mode == GameMode_t::commercial {
        weapontype_t::wp_supershotgun
    } else if owned(weapontype_t::wp_chaingun) && ammo(ammotype_t::am_clip) != 0 {
        weapontype_t::wp_chaingun
    } else if owned(weapontype_t::wp_shotgun) && ammo(ammotype_t::am_shell) != 0 {
        weapontype_t::wp_shotgun
    } else if ammo(ammotype_t::am_clip) != 0 {
        weapontype_t::wp_pistol
    } else if owned(weapontype_t::wp_chainsaw) {
        weapontype_t::wp_chainsaw
    } else if owned(weapontype_t::wp_missile) && ammo(ammotype_t::am_misl) != 0 {
        weapontype_t::wp_missile
    } else if owned(weapontype_t::wp_bfg) && ammo(ammotype_t::am_cell) > BFGCELLS && mode != GameMode_t::shareware {
        weapontype_t::wp_bfg
    } else {
        weapontype_t::wp_fist
    }
}

/// Checking the ammunition: with enough nothing changes; otherwise a
/// weapon is chosen and the ready weapon takes its down frame.
pub open spec fn check_ammo(p: PlayerModel, mode: GameMode_t) -> (bool, PlayerModel) {
    if enough_ammo(p) {
        (true, p)
    } else {
        let q = PlayerModel { pendingweapon: fallback_weapon(p, mode), ..p };
        (false, set_frame(q, 0, Some(WeaponFrame::Down(p.readyweapon)), switch_frame()))
    }
}

/// The sound of checking the ammunition (see `set_frame_sound`).
pub open spec fn check_ammo_sound(p: PlayerModel, mode: GameMode_t) -> Option<sfxenum_t> {
    if enough_ammo(p) {
        None
    } else {
        let q = PlayerModel { pendingweapon: fallback_weapon(p, mode), ..p };
        set_frame_sound(q, 0, Some(WeaponFrame::Down(p.readyweapon)), switch_frame())
    }
}

/// Returns true if there is enough ammo to shoot.
/// If not, selects the next weapon to use.
/// Also returns the sound to start at the player.
pub fn P_CheckAmmo(player: &mut Player, mode: GameMode_t) -> (r: (bool, Option<sfxenum_t>))
    requires
        player_wf(old(player)@),
        can_lower(old(player)@),
        old(player).readyweapon != weapontype_t::wp_nochange,
    ensures
        (r.0, final(player)@) == check_ammo(old(player)@, mode),
        r.1 == check_ammo_sound(old(player)@, mode),
        player_wf(final(player)@),
{
    let ammo = player.readyweapon.ammo();
    // Minimal amount for one shot varies.
    let count = if player.readyweapon == weapontype_t::wp_bfg {
        BFGCELLS
    } else if player.readyweapon == weapontype_t::wp_supershotgun {
        2 // Double barrel.
    } else {
        1 // Regular.
    };
    // Some do not need ammunition anyway.
    // Return if current ammunition sufficient.
    if ammo == ammotype_t::am_noammo || player.ammo[ammo.to_usize()] >= count {
        return (true, None);
    }
    // Out of ammo, pick a weapon to change to. Preferences are set here.
    let cells = player.ammo[2];
    let shells = player.ammo[1];
    let clips = player.ammo[0];
    let rockets = player.ammo[3];
    player.pendingweapon = if player.weaponowned[5] && cells != 0 && mode != GameMode_t::shareware {
        weapontype_t::wp_plasma
    } else if player.weaponowned[8] && shells > 2 && mode == GameMode_t::commercial {
        weapontype_t::wp_supershotgun
    } else if player.weaponowned[3] && clips != 0 {
        weapontype_t::wp_chaingun
    } else if player.weaponowned[2] && shells != 0 {
        weapontype_t::wp_shotgun
    } else if clips != 0 {
        weapontype_t::wp_pistol
    } else if player.weaponowned[7] {
        weapontype_t::wp_chainsaw
    } else if player.weaponowned[4] && rockets != 0 {
        weapontype_t::wp_missile
    } else if player.weaponowned[6] && cells > BFGCELLS && mode != GameMode_t::shareware {
        weapontype_t::wp_bfg
    } else {
        // If everything fails.
        weapontype_t::wp_fist
    };
    // Now set appropriate weapon overlay.
    let down = WeaponFrame::Down(player.readyweapon);
    let snd = P_SetPsprite(player, psprnum_t::ps_weapon, Some(down), switch_frame_info());
    (false, snd)
}

/// Bringing up the pending weapon (or the ready one if none is pending)
/// from the bottom of the screen: its up frame, whose first step raises it.
pub open spec fn bring_up_weapon(p: PlayerModel) -> PlayerModel {
    let w = if p.pendingweapon == weapontype_t::wp_nochange { p.readyweapon } else { p.pendingweapon };
    let q = PlayerModel {
        pendingweapon: weapontype_t::wp_nochange,
        psprites: p.psprites.update(0, pspdef_t { sy: WEAPONBOTTOM, ..p.psprites[0] }),
        ..p
    };
    raise(enter_frame(q, 0, Some(WeaponFrame::Up(w)), switch_frame()))
}

/// The sound of bringing up the weapon: the chainsaw starting up.
pub open spec fn bring_up_sound(p: PlayerModel) -> Option<sfxenum_t> {
    let w = if p.pendingweapon == weapontype_t::wp_nochange { p.readyweapon } else { p.pendingweapon };
    if w == weapontype_t::wp_chainsaw { Some(sfxenum_t::sfx_sawup) } else { None }
}

/// Starts bringing the pending weapon up from the bottom of the screen.
/// Returns the sound to start at the player.
pub fn P_BringUpWeapon(player: &mut Player) -> (r: Option<sfxenum_t>)
    requires
        player_wf(old(player)@),
    ensures
        final(player)@ == bring_up_weapon(old(player)@),
        r == bring_up_sound(old(player)@),
        player_wf(final(player)@),
{
    if player.pendingweapon == weapontype_t::wp_nochange {
        player.pendingweapon = player.readyweapon;
    }
    let snd = if player.pendingweapon == weapontype_t::wp_chainsaw { Some(sfxenum_t::sfx_sawup) } else { None };
    let newstate = WeaponFrame::Up(player.pendingweapon);
    player.pendingweapon = weapontype_t::wp_nochange;
    let mut psp = player.psprites[0];
    psp.sy = WEAPONBOTTOM;
    psp.state = Some(newstate);
    psp.tics = SWITCH_TICS;
    player.psprites[0] = psp;
    proof {
        let p = old(player)@;
        let w = if p.pendingweapon == weapontype_t::wp_nochange { p.readyweapon } else { p.pendingweapon };
        let q = PlayerModel {
            pendingweapon: weapontype_t::wp_nochange,
            psprites: p.psprites.update(0, pspdef_t { sy: WEAPONBOTTOM, ..p.psprites[0] }),
            ..p
        };
        assert(player@.psprites =~= enter_frame(q, 0, Some(WeaponFrame::Up(w)), switch_frame()).psprites);
        assert(player@ == enter_frame(q, 0, Some(WeaponFrame::Up(w)), switch_frame()));
    }
    A_Raise(player);
    snd
}

/// Player died, so put the weapon away: the ready weapon takes its down
/// frame, which lowers it a step. Returns the sound to start at the player.
pub fn P_DropWeapon(player: &mut Player) -> (r: Option<sfxenum_t>)
    requires
        player_wf(old(player)@),
        can_lower(old(player)@),
    ensures
        final(player)@ == set_frame(old(player)@, 0, Some(WeaponFrame::Down(old(player).readyweapon)), switch_frame()),
        r == set_frame_sound(old(player)@, 0, Some(WeaponFrame::Down(old(player).readyweapon)), switch_frame()),
        player_wf(final(player)@),
{
    let down = WeaponFrame::Down(player.readyweapon);
    P_SetPsprite(player, psprnum_t::ps_weapon, Some(down), switch_frame_info())
}

/// A dead player's weapon goes down: dropping it shows the down frame for
/// one tic, lowers it by `LOWERSPEED` but no lower than `WEAPONBOTTOM`, and
/// changes no weapon, ammunition or flash.
pub proof fn lemma_dead_drop_lowers(p: PlayerModel)
    requires
        player_wf(p),
        can_lower(p),
        p.playerstate == playerstate_t::PST_DEAD,
    ensures
        ({
            let q = set_frame(p, 0, Some(WeaponFrame::Down(p.readyweapon)), switch_frame());
            let y = p.psprites[0].sy + LOWERSPEED;
            &&& q.psprites[0] == pspdef_t {
                state: Some(WeaponFrame::Down(p.readyweapon)),
                tics: SWITCH_TICS,
                sx: p.psprites[0].sx,
                sy: if y < WEAPONBOTTOM { y as i32 } else { WEAPONBOTTOM },
            }
            &&& q.psprites[1] == p.psprites[1]
            &&& q.readyweapon == p.readyweapon
            &&& q.pendingweapon == p.pendingweapon
            &&& q.ammo == p.ammo
        }),
{
}

/// Firing: with enough ammunition the ready weapon takes its attack frame,
/// whose entry is `atk`; otherwise the ammunition check chooses another
/// weapon.
pub open spec fn fire_weapon(p: PlayerModel, mode: GameMode_t, atk: FrameInfo) -> (bool, PlayerModel) {
    let (ok, q) = check_ammo(p, mode);
    if !ok { (false, q) } else { (true, set_frame(q, 0, Some(WeaponFrame::Attack(q.readyweapon)), atk)) }
}

/// Fires the ready weapon if it has ammunition; `atk` is the table entry of
/// its attack frame. Returns true when it fired (the caller then runs the
/// attack frame's action, puts the player's map object in its attack frame
/// and alerts the monsters that hear it), and the sound to start at the
/// player.
pub fn P_FireWeapon(player: &mut Player, mode: GameMode_t, atk: FrameInfo) -> (r: (bool, Option<sfxenum_t>))
    requires
        player_wf(old(player)@),
        can_lower(old(player)@),
        frame_info_ok(atk),
        old(player).readyweapon != weapontype_t::wp_nochange,
    ensures
        (r.0, final(player)@) == fire_weapon(old(player)@, mode, atk),
        r.1 == check_ammo_sound(old(player)@, mode),
        player_wf(final(player)@),
{
    let (ok, snd) = P_CheckAmmo(player, mode);
    if !ok {
        return (false, snd);
    }
    let a = WeaponFrame::Attack(player.readyweapon);
    P_SetPsprite(player, psprnum_t::ps_weapon, Some(a), atk);
    (true, None)
}

/// Re-firing: when the trigger is still held, no weapon change is pending
/// and the player lives, the weapon fires again; otherwise the re-fire
/// count is reset and the ammunition checked.
pub open spec fn refire(p: PlayerModel, attack: bool, mode: GameMode_t, atk: FrameInfo) -> (bool, PlayerModel) {
    if attack && p.pendingweapon == weapontype_t::wp_nochange && p.health != 0 {
        fire_weapon(PlayerModel { refire: (p.refire + 1) as i32, ..p }, mode, atk)
    } else {
        (false, check_ammo(PlayerModel { refire: 0, ..p }, mode).1)
    }
}

/// The sound of re-firing (see `check_ammo_sound`).
pub open spec fn refire_sound(p: PlayerModel, attack: bool, mode: GameMode_t) -> Option<sfxenum_t> {
    if attack && p.pendingweapon == weapontype_t::wp_nochange && p.health != 0 {
        check_ammo_sound(PlayerModel { refire: (p.refire + 1) as i32, ..p }, mode)
    } else {
        check_ammo_sound(PlayerModel { refire: 0, ..p }, mode)
    }
}

/// The player can re-fire the weapon without lowering it entirely.
/// `attack` tells whether the fire button is held; `atk` is the table
/// entry of the weapon's attack frame. Returns true when the weapon fired,
/// and the sound to start at the player.
pub fn A_ReFire(player: &mut Player, attack: bool, mode: GameMode_t, atk: FrameInfo) -> (r: (bool, Option<sfxenum_t>))
    requires
        player_wf(old(player)@),
        can_lower(old(player)@),
        frame_info_ok(atk),
        old(player).readyweapon != weapontype_t::wp_nochange,
        old(player).refire < i32::MAX,
    ensures
        (r.0, final(player)@) == refire(old(player)@, attack, mode, atk),
        r.1 == refire_sound(old(player)@, attack, mode),
        player_wf(final(player)@),
{
    // (if a weaponchange is pending, let it go through instead)
    if attack && player.pendingweapon == weapontype_t::wp_nochange && player.health != 0 {
        player.refire = player.refire + 1;
        P_FireWeapon(player, mode, atk)
    } else {
        player.refire = 0;
        let (_, snd) = P_CheckAmmo(player, mode);
        (false, snd)
    }
}

/// Checks the ammunition after a reload frame. Returns the sound to start
/// at the player.
pub fn A_CheckReload(player: &mut Player, mode: GameMode_t) -> (r: Option<sfxenum_t>)
    requires
        player_wf(old(player)@),
        can_lower(old(player)@),
        old(player).readyweapon != weapontype_t::wp_nochange,
    ensures
        final(player)@ == check_ammo(old(player)@, mode).1,
        r == check_ammo_sound(old(player)@, mode),
        player_wf(final(player)@),
{
    P_CheckAmmo(player, mode).1
}

/// Lowering the weapon by one step; at the bottom the dead keep it there,
/// otherwise the pending weapon becomes ready and is brought up.
pub open spec fn lower(p: PlayerModel) -> PlayerModel {
    let y = p.psprites[0].sy + LOWERSPEED;
    let q = PlayerModel { psprites: p.psprites.update(0, pspdef_t { sy: y as i32, ..p.psprites[0] }), ..p };
    if y < WEAPONBOTTOM {
        q
    } else if p.playerstate == playerstate_t::PST_DEAD {
        PlayerModel { psprites: p.psprites.update(0, pspdef_t { sy: WEAPONBOTTOM, ..p.psprites[0] }), ..p }
    } else if p.health == 0 {
        set_psprite(q, 0, None)
    } else {
        bring_up_weapon(PlayerModel { readyweapon: q.pendingweapon, ..q })
    }
}

/// The sound of lowering the weapon (when the next one comes up).
pub open spec fn lower_sound(p: PlayerModel) -> Option<sfxenum_t> {
    let y = p.psprites[0].sy + LOWERSPEED;
    if y < WEAPONBOTTOM || p.playerstate == playerstate_t::PST_DEAD || p.health == 0 {
        None
    } else {
        bring_up_sound(PlayerModel { readyweapon: p.pendingweapon, ..p })
    }
}

/// Lowers current weapon, and changes weapon at bottom.
pub fn A_Lower(player: &mut Player) -> (r: Option<sfxenum_t>)
    requires
        player_wf(old(player)@),
        old(player).psprites[0].sy <= i32::MAX - LOWERSPEED,
    ensures
        final(player)@ == lower(old(player)@),
        r == lower_sound(old(player)@),
        player_wf(final(player)@),
{
    let mut psp = player.psprites[0];
    psp.sy = psp.sy + LOWERSPEED;
    // Is already down.
    if psp.sy < WEAPONBOTTOM {
        player.psprites[0] = psp;
        return None;
    }
    // Player is dead.
    if player.playerstate == playerstate_t::PST_DEAD {
        psp.sy = WEAPONBOTTOM;
        player.psprites[0] = psp;
        // don't bring weapon back up
        return None;
    }
    player.psprites[0] = psp;
    // The old weapon has been lowered off the screen,
    // so change the weapon and start raising it
    if player.health == 0 {
        // Player is dead, so keep the weapon off screen.
        let mut gone = player.psprites[0];
        gone.state = None;
        player.psprites[0] = gone;
        return None;
    }
    player.readyweapon = player.pendingweapon;
    P_BringUpWeapon(player)
}

/// Raising the weapon by one step; at the top it takes its ready frame
/// (whose action, the ready weapon's turn, is its caller's to run on the
/// next tic).
pub open spec fn raise(p: PlayerModel) -> PlayerModel {
    let y = p.psprites[0].sy - RAISESPEED;
    if y > WEAPONTOP {
        PlayerModel { psprites: p.psprites.update(0, pspdef_t { sy: y as i32, ..p.psprites[0] }), ..p }
    } else {
        let q = PlayerModel { psprites: p.psprites.update(0, pspdef_t { sy: WEAPONTOP, ..p.psprites[0] }), ..p };
        enter_frame(q, 0, Some(WeaponFrame::Ready(p.readyweapon)), switch_frame())
    }
}

/// Raises the weapon; when it is all the way up it becomes ready.
pub fn A_Raise(player: &mut Player)
    requires
        player_wf(old(player)@),
        old(player).psprites[0].sy >= i32::MIN + RAISESPEED,
    ensures
        final(player)@ == raise(old(player)@),
        player_wf(final(player)@),
{
    let mut psp = player.psprites[0];
    psp.sy = psp.sy - RAISESPEED;
    if psp.sy > WEAPONTOP {
        player.psprites[0] = psp;
        return;
    }
    psp.sy = WEAPONTOP;
    player.psprites[0] = psp;
    // The weapon has been raised all the way, so change to the ready state.
    let ready = WeaponFrame::Ready(player.readyweapon);
    let mut top = player.psprites[0];
    top.state = Some(ready);
    top.tics = SWITCH_TICS;
    player.psprites[0] = top;
}

/// Shows the muzzle flash of the ready weapon, whose frame's table entry is
/// `flash`. The caller puts the player's map object in its second attack
/// frame.
pub fn A_GunFlash(player: &mut Player, flash: FrameInfo)
    requires
        player_wf(old(player)@),
        frame_info_ok(flash),
    ensures
        final(player)@ == set_frame(old(player)@, 1, Some(WeaponFrame::Flash(old(player).readyweapon)), flash),
        player_wf(final(player)@),
{
    let f = WeaponFrame::Flash(player.readyweapon);
    P_SetPsprite(player, psprnum_t::ps_flash, Some(f), flash);
}

/// No extra light from the gun.
pub fn A_Light0(player: &mut Player)
    ensures
        final(player)@ == (PlayerModel { extralight: 0, ..old(player)@ }),
{
    player.extralight = 0;
}

/// A little extra light from the gun.
pub fn A_Light1(player: &mut Player)
    ensures
        final(player)@ == (PlayerModel { extralight: 1, ..old(player)@ }),
{
    player.extralight = 1;
}

/// More extra light from the gun.
pub fn A_Light2(player: &mut Player)
    ensures
        final(player)@ == (PlayerModel { extralight: 2, ..old(player)@ }),
{
    player.extralight = 2;
}

/// The BFG charging up: its sound.
pub fn A_BFGsound() -> (r: sfxenum_t)
    ensures
        r == sfxenum_t::sfx_bfg,
{
    sfxenum_t::sfx_bfg
}

/// The super shotgun breaking open: its sound.
pub fn A_OpenShotgun2() -> (r: sfxenum_t)
    ensures
        r == sfxenum_t::sfx_dbopn,
{
    sfxenum_t::sfx_dbopn
}

/// The super shotgun being loaded: its sound.
pub fn A_LoadShotgun2() -> (r: sfxenum_t)
    ensures
        r == sfxenum_t::sfx_dbload,
{
    sfxenum_t::sfx_dbload
}

/// The super shotgun snapping shut: its sound, then a re-fire check.
/// Returns the sound, and what the re-fire check returns.
pub fn A_CloseShotgun2(player: &mut Player, attack: bool, mode: GameMode_t, atk: FrameInfo) -> (r: (sfxenum_t, (bool, Option<sfxenum_t>)))
    requires
        player_wf(old(player)@),
        can_lower(old(player)@),
        frame_info_ok(atk),
        old(player).readyweapon != weapontype_t::wp_nochange,
        old(player).refire < i32::MAX,
    ensures
        r.0 == sfxenum_t::sfx_dbcls,
        (r.1.0, final(player)@) == refire(old(player)@, attack, mode, atk),
        r.1.1 == refire_sound(old(player)@, attack, mode),
        player_wf(final(player)@),
{
    let fired = A_ReFire(player, attack, mode, atk);
    (sfxenum_t::sfx_dbcls, fired)
}

/// Called at start of level for each player: removes the overlays and
/// brings up the ready weapon. Returns the sound to start at the player.
pub fn P_SetupPsprites(player: &mut Player) -> (r: Option<sfxenum_t>)
    requires
        player_wf(old(player)@),
    ensures
        ({
            let q = PlayerModel {
                psprites: old(player)@.psprites.update(0, pspdef_t { state: None, ..old(player)@.psprites[0] }).update(
                    1,
                    pspdef_t { state: None, ..old(player)@.psprites[1] },
                ),
                pendingweapon: old(player).readyweapon,
                ..old(player)@
            };
            final(player)@ == bring_up_weapon(q) && r == bring_up_sound(q)
        }),
        player_wf(final(player)@),
{
    // remove all psprites
    let mut i: usize = 0;
    while i < 2
        invariant
            0 <= i <= 2,
            player_wf(old(player)@),
            player@ == (PlayerModel { psprites: player.psprites@, ..old(player)@ }),
            player.psprites@.len() == 2,
            forall|j: int| 0 <= j < i ==> player.psprites@[j] == (pspdef_t { state: None, ..old(player).psprites@[j] }),
            forall|j: int| i <= j < 2 ==> player.psprites@[j] == old(player).psprites@[j],
        decreases 2 - i,
    {
        let mut psp = player.psprites[i];
        psp.state = None;
        player.psprites[i] = psp;
        i = i + 1;
    }
    // spawn the gun
    player.pendingweapon = player.readyweapon;
    let ghost q = PlayerModel {
        psprites: old(player)@.psprites.update(0, pspdef_t { state: None, ..old(player)@.psprites[0] }).update(
            1,
            pspdef_t { state: None, ..old(player)@.psprites[1] },
        ),
        pendingweapon: old(player).readyweapon,
        ..old(player)@
    };
    assert(player@.psprites =~= q.psprites);
    assert(player@ == q);
    P_BringUpWeapon(player)
}

/// What the ready frame of a weapon leaves to its caller: whether the
/// player's body leaves its attack frame for its standing frame, a sound to
/// start at the player, and whether the weapon fired (then the body takes
/// its attack frame and the monsters that hear it wake).
#[derive(Debug, Clone, Copy, PartialEq, Eq, Structural)]
pub struct ReadyOutcome {
    pub body_to_stand: bool,
    pub sound: Option<sfxenum_t>,
    pub fired: bool,
    /// The sound of the weapon coming up, where a change of weapon brings
    /// it up at once.
    pub raise_sound: Option<sfxenum_t>,
}

/// The angle of the weapon's swing at `leveltime`: 128 steps of the sine
/// table a tic, 8192 to a turn.
pub open spec fn swing_angle(leveltime: int) -> int {
    (128 * leveltime) % 8192
}

/// The ready weapon swings with the player's `bob`: across by the cosine
/// of the swing angle, up and down by the sine of the angle folded into
/// the first half turn.
pub open spec fn swung(p: PlayerModel, bob: int, leveltime: int, finesine: Seq<i32>) -> PlayerModel {
    let a = swing_angle(leveltime);
    let psp = p.psprites[0];
    PlayerModel {
        psprites: p.psprites.update(
            0,
            pspdef_t {
                sx: (FRACUNIT + fmul(bob, finesine[a + 2048] as int)) as i32,
                sy: (WEAPONTOP + fmul(bob, finesine[a % 4096] as int)) as i32,
                ..psp
            },
        ),
        ..p
    }
}

/// The ready frame of a weapon: the body leaves its attack frame
/// (`body_attacking`); the chainsaw idles with a sound on its first ready
/// frame (`saw_idle_frame`); a pending weapon change, or death, lowers the
/// weapon; a held trigger (`attack`) fires it, except that the rocket
/// launcher and the BFG do not fire again while it stays held; otherwise
/// the trigger is noted as released and the weapon swings (see `swung`).
/// `atk` is the table entry of the weapon's attack frame.
pub fn A_WeaponReady(
    player: &mut Player,
    attack: bool,
    mode: GameMode_t,
    atk: FrameInfo,
    body_attacking: bool,
    saw_idle_frame: bool,
    bob: fixed_t,
    leveltime: usize,
    finesine: &Vec<fixed_t>,
) -> (r: ReadyOutcome)
    requires
        player_wf(old(player)@),
        can_lower(old(player)@),
        frame_info_ok(atk),
        old(player).readyweapon != weapontype_t::wp_nochange,
        finesine.len() >= 10240,
        128 * leveltime <= usize::MAX,
        fits_i32(FRACUNIT + fmul(bob as int, finesine@[swing_angle(leveltime as int) + 2048] as int)),
        fits_i32(WEAPONTOP + fmul(bob as int, finesine@[swing_angle(leveltime as int) % 4096] as int)),
    ensures
        r.body_to_stand == body_attacking,
        r.sound == if old(player).readyweapon == weapontype_t::wp_chainsaw && saw_idle_frame {
            Some(sfxenum_t::sfx_sawidl)
        } else {
            None
        },
        player_wf(final(player)@),
        ({
            let p = old(player)@;
            if p.pendingweapon != weapontype_t::wp_nochange || p.health == 0 {
                &&& !r.fired
                &&& final(player)@ == set_frame(p, 0, Some(WeaponFrame::Down(p.readyweapon)), switch_frame())
                &&& r.raise_sound == set_frame_sound(p, 0, Some(WeaponFrame::Down(p.readyweapon)), switch_frame())
            } else if attack && (!p.attackdown || (p.readyweapon != weapontype_t::wp_missile
                && p.readyweapon != weapontype_t::wp_bfg)) {
                &&& (r.fired, final(player)@) == fire_weapon(PlayerModel { attackdown: true, ..p }, mode, atk)
                &&& r.raise_sound == check_ammo_sound(PlayerModel { attackdown: true, ..p }, mode)
            } else {
                &&& r.raise_sound is None
                &&& !r.fired && final(player)@ == swung(
                    PlayerModel { attackdown: attack && p.attackdown, ..p },
                    bob as int,
                    leveltime as int,
                    finesine@,
                )
            }
        }),
{
    let sound = if player.readyweapon == weapontype_t::wp_chainsaw && saw_idle_frame {
        Some(sfxenum_t::sfx_sawidl)
    } else {
        None
    };
    if player.pendingweapon != weapontype_t::wp_nochange || player.health == 0 {
        let down = WeaponFrame::Down(player.readyweapon);
        let raise_sound = P_SetPsprite(player, psprnum_t::ps_weapon, Some(down), switch_frame_info());
        return ReadyOutcome { body_to_stand: body_attacking, sound, fired: false, raise_sound };
    }
    if attack {
        if !player.attackdown || (player.readyweapon != weapontype_t::wp_missile
            && player.readyweapon != weapontype_t::wp_bfg) {
            player.attackdown = true;
            let (fired, raise_sound) = P_FireWeapon(player, mode, atk);
            return ReadyOutcome { body_to_stand: body_attacking, sound, fired, raise_sound };
        }
    } else {
        player.attackdown = false;
    }
    let t: usize = 128 * leveltime;
    assert(t & 8191 == t % 8192) by (bit_vector);
    let angle = t & 8191;
    let cos = finesine[angle + 2048];
    let mut psp = player.psprites[0];
    psp.sx = FRACUNIT + FixedMul(bob, cos);
    assert(angle & 4095 == angle % 4096) by (bit_vector);
    let half = angle & 4095;
    psp.sy = WEAPONTOP + FixedMul(bob, finesine[half]);
    player.psprites[0] = psp;
    ReadyOutcome { body_to_stand: body_attacking, sound, fired: false, raise_sound: None }
}

} // verus!
