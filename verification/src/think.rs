//! A whole tic of a player: the start (the no-clip cheat and the chainsaw's
//! run), then for the dead the death view, for the living the movement,
//! the view height, the sector the player stands in and the end of the tic
//! (weapon change, use key, power-up counters), with the weapon overlays
//! running on in both cases.

use vstd::prelude::*;

use crate::fixed::fixed_t;
use crate::level::Sector;
use crate::player::{CF_GODMODE, GameMode_t, Player, PlayerModel, WeaponFrame, playerstate_t, weapontype_t};
use crate::sectors::{P_PlayerInSpecialSector, SectorEffect, sector_effect};
use crate::sounds::sfxenum_t;
use crate::user::{
    BodyMotion, Killer, P_CalcHeight, P_DeathThink, P_MovePlayer, PlayerBody, PlayerView, ThinkStart,
    calc_height, calc_height_ok, death_damage, face_killer, fallen, killer_turn_fits, live_buttons, moved,
    moves_fit, player_think_end, player_think_start, think_end, ticcmd_t, turned, BT_USE, CF_NOCLIP,
};
use crate::weapons::{FrameInfo, P_MovePsprites, frame_info_ok, move_psprites, tick_fits, tick_sound};

verus! {

/// What a player's tic reads besides the player: the game, the time, a
/// random byte for sector damage, who killed a dead player, whether the
/// body shows its standing frame, and the frames that follow the weapon's
/// and the flash's current frames in the frame table, with their entries.
#[derive(Debug, Clone, Copy)]
pub struct ThinkInput {
    pub gamemode: GameMode_t,
    pub leveltime: i32,
    pub random: u8,
    pub killer: Killer,
    pub standing_frame: bool,
    pub weapon_next: Option<WeaponFrame>,
    pub weapon_info: FrameInfo,
    pub flash_next: Option<WeaponFrame>,
    pub flash_info: FrameInfo,
}

/// What a player's tic leaves to its caller: how it started, whether the
/// body takes its running frame, what the sector did (where the player
/// stands in a special sector), whether the use key presses the lines in
/// front of the player, and the sound of the weapon overlays.
#[derive(Debug, Clone, Copy)]
pub struct ThinkOutcome {
    pub start: ThinkStart,
    pub run_frame: bool,
    pub effect: Option<SectorEffect>,
    pub use_lines: bool,
    pub sound: Option<sfxenum_t>,
}

/// The command after the start of the tic: the chainsaw's run.
pub open spec fn start_cmd(cmd: ticcmd_t, body: PlayerBody) -> ticcmd_t {
    if body.justattacked {
        ticcmd_t { angleturn: 0, forwardmove: 100, sidemove: 0, ..cmd }
    } else {
        cmd
    }
}

/// The player moves this tic: alive and not held still.
pub open spec fn moves(p: PlayerModel, body: PlayerBody) -> bool {
    p.playerstate != playerstate_t::PST_DEAD && body.reactiontime == 0
}

/// The body's facing after the movement.
pub open spec fn think_angle(p: PlayerModel, body: PlayerBody, cmd: ticcmd_t, angle: u32) -> u32 {
    if moves(p, body) {
        turned(angle, start_cmd(cmd, body))
    } else {
        angle
    }
}

/// The body's motion after the movement.
pub open spec fn think_motion(
    p: PlayerModel,
    body: PlayerBody,
    cmd: ticcmd_t,
    angle: u32,
    m: BodyMotion,
    floorz: fixed_t,
    finesine: Seq<i32>,
) -> BodyMotion {
    if moves(p, body) {
        let (x, y) = moved(angle, start_cmd(cmd, body), m.momx as int, m.momy as int, m.z <= floorz, finesine);
        BodyMotion { momx: x as i32, momy: y as i32, ..m }
    } else {
        m
    }
}

/// The player stands at the floor of the sector.
pub open spec fn on_floor(m: BodyMotion, sector: Sector) -> bool {
    m.z == sector.floorheight
}

/// The player after the sector it stands in (see `P_PlayerInSpecialSector`).
pub open spec fn after_sector(p: PlayerModel, m: BodyMotion, sector: Sector) -> PlayerModel {
    if sector.special != 0 && on_floor(m, sector) && sector.special == 11 {
        PlayerModel { cheats: p.cheats & !CF_GODMODE, ..p }
    } else {
        p
    }
}

/// The sector after the player stood in it: a secret is found once.
pub open spec fn sector_after(m: BodyMotion, sector: Sector) -> Sector {
    if sector.special != 0 && on_floor(m, sector) && sector.special == 9 {
        Sector { special: 0, ..sector }
    } else {
        sector
    }
}

/// What the sector did, if the player stands in a special one.
pub open spec fn sector_outcome(p: PlayerModel, m: BodyMotion, sector: Sector, input: ThinkInput) -> Option<SectorEffect> {
    if sector.special == 0 {
        None
    } else if on_floor(m, sector) {
        Some(sector_effect(sector.special, p.powers[3], input.leveltime, input.random))
    } else {
        Some(SectorEffect { damage: 0, secret: false, exit_when_weak: false, unknown: false })
    }
}

/// The player after a living tic: the sector, the end of the tic and the
/// weapon overlays.
pub open spec fn live_player(p: PlayerModel, m: BodyMotion, sector: Sector, cmd: ticcmd_t, input: ThinkInput) -> PlayerModel {
    let p2 = think_end(after_sector(p, m, sector), cmd.buttons, input.gamemode);
    move_psprites(p2, input.weapon_next, input.weapon_info, input.flash_next, input.flash_info)
}

/// The player after a dead tic: the overlays run, then the death view.
pub open spec fn dead_player(p: PlayerModel, angle: u32, cmd: ticcmd_t, input: ThinkInput) -> PlayerModel {
    let q = move_psprites(p, input.weapon_next, input.weapon_info, input.flash_next, input.flash_info);
    PlayerModel {
        damagecount: death_damage(q.damagecount, angle, input.killer),
        playerstate: if cmd.buttons & BT_USE != 0 {
            playerstate_t::PST_REBORN
        } else {
            q.playerstate
        },
        ..q
    }
}

proof fn lemma_tick_fits_psprites(p: PlayerModel, q: PlayerModel, next: Option<WeaponFrame>, info: FrameInfo)
    requires
        p.psprites == q.psprites,
    ensures
        tick_fits(p, 0, next, info) == tick_fits(q, 0, next, info),
{
}

/// The rest of a dead player's tic (see `P_PlayerThink`).
#[verifier::rlimit(100)]
fn think_dead(
    player: &mut Player,
    cmd: &ticcmd_t,
    view: &mut PlayerView,
    motion: &BodyMotion,
    angle: &mut u32,
    floorz: fixed_t,
    input: ThinkInput,
    finesine: &Vec<fixed_t>,
) -> (r: Option<sfxenum_t>)
    requires
        crate::player::player_wf(old(player)@),
        old(player).playerstate == playerstate_t::PST_DEAD,
        input.leveltime >= 0,
        frame_info_ok(input.weapon_info),
        frame_info_ok(input.flash_info),
        tick_fits(old(player)@, 0, input.weapon_next, input.weapon_info),
        old(player).psprites[1].tics > i32::MIN,
        old(player).damagecount > i32::MIN,
        calc_height_ok(
            fallen(*old(view)),
            *motion,
            old(player).cheats,
            motion.z <= floorz,
            old(player).playerstate,
            input.leveltime as int,
            finesine@,
        ),
        killer_turn_fits(*old(angle), input.killer),
    ensures
        *final(view) == calc_height(
            fallen(*old(view)),
            *motion,
            old(player).cheats,
            motion.z <= floorz,
            old(player).playerstate,
            input.leveltime as int,
            finesine@,
        ),
        *final(angle) == face_killer(*old(angle), input.killer),
        final(player)@ == dead_player(old(player)@, *old(angle), *cmd, input),
        r == tick_sound(old(player)@, 0, input.weapon_next, input.weapon_info),
{
    let sound = P_MovePsprites(player, input.weapon_next, input.weapon_info, input.flash_next, input.flash_info);
    P_DeathThink(player, view, motion, floorz, angle, input.killer, cmd.buttons, input.leveltime as usize, finesine);
    sound
}

/// The body's movement and the view of a living player's tic (see
/// `P_PlayerThink`); returns whether the body takes its running frame.
#[verifier::rlimit(100)]
fn think_move(
    player: &Player,
    body0: PlayerBody,
    cmd0: ticcmd_t,
    cmd: &ticcmd_t,
    view: &mut PlayerView,
    motion: &mut BodyMotion,
    angle: &mut u32,
    floorz: fixed_t,
    input: ThinkInput,
    finesine: &Vec<fixed_t>,
) -> (r: bool)
    requires
        *cmd == start_cmd(cmd0, body0),
        player.playerstate != playerstate_t::PST_DEAD,
        input.leveltime >= 0,
        finesine.len() >= 10240,
        moves(player@, body0) ==> moves_fit(
            *old(angle),
            *cmd,
            old(motion).momx as int,
            old(motion).momy as int,
            old(motion).z <= floorz,
            finesine@,
        ),
        calc_height_ok(
            *old(view),
            think_motion(player@, body0, cmd0, *old(angle), *old(motion), floorz, finesine@),
            player.cheats,
            old(motion).z <= floorz,
            player.playerstate,
            input.leveltime as int,
            finesine@,
        ),
    ensures
        *final(angle) == think_angle(player@, body0, cmd0, *old(angle)),
        *final(motion) == think_motion(player@, body0, cmd0, *old(angle), *old(motion), floorz, finesine@),
        r == (moves(player@, body0) && (cmd.forwardmove != 0 || cmd.sidemove != 0) && input.standing_frame),
        *final(view) == calc_height(
            *old(view),
            think_motion(player@, body0, cmd0, *old(angle), *old(motion), floorz, finesine@),
            player.cheats,
            old(motion).z <= floorz,
            player.playerstate,
            input.leveltime as int,
            finesine@,
        ),
{
    let mut run_frame = false;
    if body0.reactiontime == 0 {
        let z = motion.z;
        let mut mx = motion.momx;
        let mut my = motion.momy;
        run_frame = P_MovePlayer(cmd, angle, &mut mx, &mut my, z, floorz, input.standing_frame, finesine);
        motion.momx = mx;
        motion.momy = my;
    }
    let m = *motion;
    P_CalcHeight(view, &m, player.cheats, m.z <= floorz, player.playerstate, input.leveltime as usize, finesine);
    run_frame
}

#[verifier::rlimit(100)]
/// A player's tic.
pub fn P_PlayerThink(
    player: &mut Player,
    cmd: &mut ticcmd_t,
    body: &mut PlayerBody,
    view: &mut PlayerView,
    motion: &mut BodyMotion,
    angle: &mut u32,
    floorz: fixed_t,
    sector: &mut Sector,
    input: ThinkInput,
    finesine: &Vec<fixed_t>,
) -> (r: ThinkOutcome)
    requires
        crate::player::player_wf(old(player)@),
        old(body).reactiontime > i32::MIN,
        input.leveltime >= 0,
        finesine.len() >= 10240,
        frame_info_ok(input.weapon_info),
        frame_info_ok(input.flash_info),
        tick_fits(old(player)@, 0, input.weapon_next, input.weapon_info),
        old(player).psprites[1].tics > i32::MIN,
        old(player).damagecount > i32::MIN,
        old(player).playerstate == playerstate_t::PST_DEAD ==> {
            &&& calc_height_ok(
                fallen(*old(view)),
                *old(motion),
                old(player).cheats,
                old(motion).z <= floorz,
                old(player).playerstate,
                input.leveltime as int,
                finesine@,
            )
            &&& killer_turn_fits(*old(angle), input.killer)
        },
        old(player).playerstate != playerstate_t::PST_DEAD ==> {
            &&& moves(old(player)@, *old(body)) ==> moves_fit(
                *old(angle),
                start_cmd(*old(cmd), *old(body)),
                old(motion).momx as int,
                old(motion).momy as int,
                old(motion).z <= floorz,
                finesine@,
            )
            &&& calc_height_ok(
                *old(view),
                think_motion(old(player)@, *old(body), *old(cmd), *old(angle), *old(motion), floorz, finesine@),
                old(player).cheats,
                old(motion).z <= floorz,
                old(player).playerstate,
                input.leveltime as int,
                finesine@,
            )
            &&& old(player).powers[1] < i32::MAX
            &&& forall|i: int| 0 <= i < 6 ==> #[trigger] old(player).powers[i] > i32::MIN
            &&& old(player).bonuscount > i32::MIN
        },
    ensures
        final(body).noclip == (old(player).cheats & CF_NOCLIP != 0),
        !final(body).justattacked,
        ({
            let p = old(player)@;
            let c1 = start_cmd(*old(cmd), *old(body));
            if p.playerstate == playerstate_t::PST_DEAD {
                &&& r.start == ThinkStart::Dead
                &&& final(body).reactiontime == old(body).reactiontime
                &&& *final(cmd) == c1
                &&& *final(view) == calc_height(
                    fallen(*old(view)),
                    *old(motion),
                    p.cheats,
                    old(motion).z <= floorz,
                    p.playerstate,
                    input.leveltime as int,
                    finesine@,
                )
                &&& *final(angle) == face_killer(*old(angle), input.killer)
                &&& final(player)@ == dead_player(p, *old(angle), c1, input)
                &&& *final(motion) == *old(motion)
                &&& *final(sector) == *old(sector)
                &&& !r.run_frame && r.effect is None && !r.use_lines
                &&& r.sound == tick_sound(p, 0, input.weapon_next, input.weapon_info)
            } else {
                let m1 = think_motion(p, *old(body), *old(cmd), *old(angle), *old(motion), floorz, finesine@);
                &&& r.start == if old(body).reactiontime != 0 { ThinkStart::Frozen } else { ThinkStart::Moves }
                &&& final(body).reactiontime == if old(body).reactiontime != 0 {
                    old(body).reactiontime - 1
                } else {
                    0
                }
                &&& *final(angle) == think_angle(p, *old(body), *old(cmd), *old(angle))
                &&& *final(motion) == m1
                &&& r.run_frame == (moves(p, *old(body)) && (c1.forwardmove != 0 || c1.sidemove != 0)
                    && input.standing_frame)
                &&& *final(view) == calc_height(
                    *old(view),
                    m1,
                    p.cheats,
                    old(motion).z <= floorz,
                    p.playerstate,
                    input.leveltime as int,
                    finesine@,
                )
                &&& *final(sector) == sector_after(*old(motion), *old(sector))
                &&& r.effect == sector_outcome(p, *old(motion), *old(sector), input)
                &&& *final(cmd) == (ticcmd_t { buttons: live_buttons(c1.buttons), ..c1 })
                &&& r.use_lines == (live_buttons(c1.buttons) & BT_USE != 0 && !p.usedown)
                &&& final(player)@ == live_player(p, *old(motion), *old(sector), c1, input)
                &&& r.sound == tick_sound(
                    think_end(after_sector(p, *old(motion), *old(sector)), c1.buttons, input.gamemode),
                    0,
                    input.weapon_next,
                    input.weapon_info,
                )
            }
        }),
{
    let body0 = *body;
    let cmd0 = *cmd;
    let start = player_think_start(player, cmd, body);
    match start {
        ThinkStart::Dead => {
            let m = *motion;
            let sound = think_dead(player, cmd, view, &m, angle, floorz, input, finesine);
            ThinkOutcome { start, run_frame: false, effect: None, use_lines: false, sound }
        },
        _ => {
            let c = *cmd;
            let run_frame = think_move(player, body0, cmd0, &c, view, motion, angle, floorz, input, finesine);
            let m0 = *motion;
            let effect = if sector.special != 0 {
                let on = m0.z == sector.floorheight;
                Some(P_PlayerInSpecialSector(player, sector, on, input.leveltime, input.random))
            } else {
                None
            };
            let use_lines = player_think_end(player, cmd, input.gamemode);
            proof {
                lemma_tick_fits_psprites(old(player)@, player@, input.weapon_next, input.weapon_info);
            }
            let sound = P_MovePsprites(player, input.weapon_next, input.weapon_info, input.flash_next, input.flash_info);
            ThinkOutcome { start, run_frame, effect, use_lines, sound }
        },
    }
}

/// Neither the ready nor the pending weapon is the plasma rifle or the BFG.
pub open spec fn no_big_guns(p: PlayerModel) -> bool {
    &&& p.readyweapon != weapontype_t::wp_plasma && p.readyweapon != weapontype_t::wp_bfg
    &&& p.pendingweapon != weapontype_t::wp_plasma && p.pendingweapon != weapontype_t::wp_bfg
}

proof fn lemma_overlays_keep_weapons(p: PlayerModel, input: ThinkInput)
    requires
        no_big_guns(p),
        p.psprites.len() == 2,
    ensures
        no_big_guns(move_psprites(p, input.weapon_next, input.weapon_info, input.flash_next, input.flash_info)),
{
}

/// In the shareware game a player's tic never readies or selects the plasma
/// rifle or the BFG, whatever the command asks and whatever the player
/// owns (even by cheating), where neither was ready or selected before.
pub proof fn lemma_shareware_tic_keeps_weapons(
    p: PlayerModel,
    angle: u32,
    m: BodyMotion,
    sector: Sector,
    cmd: ticcmd_t,
    input: ThinkInput,
)
    requires
        input.gamemode == GameMode_t::shareware,
        no_big_guns(p),
        p.psprites.len() == 2,
    ensures
        no_big_guns(live_player(p, m, sector, cmd, input)),
        no_big_guns(dead_player(p, angle, cmd, input)),
{
    let p2 = think_end(after_sector(p, m, sector), cmd.buttons, input.gamemode);
    assert(no_big_guns(p2));
    lemma_overlays_keep_weapons(p2, input);
    lemma_overlays_keep_weapons(p, input);
}

} // verus!
