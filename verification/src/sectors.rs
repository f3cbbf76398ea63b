//! Sector specials: what standing in a special sector does to a player,
//! and the effects that sector specials start when a level is loaded.

use vstd::prelude::*;

use crate::doors::{P_SpawnDoorCloseIn30, P_SpawnDoorRaiseIn5Mins, door_fits, vldoor_t};
use crate::ceilings::ceiling_t;
use crate::level::{
    Level, Sector, lemma_lowest_ceiling_frame, lemma_min_light_frame, level_wf, lowest_ceiling_is,
    min_light_is, same_ceilings, same_lights,
};
use crate::plats::plat_t;
use crate::switches::{bwhere_e, button_t};
use crate::lights::{
    FASTDARK, P_SpawnFireFlicker, P_SpawnGlowingLight, P_SpawnLightFlash, P_SpawnStrobeFlash,
    SLOWDARK, STROBEBRIGHT, fireflicker_t, glow_t, lightflash_t, strobe_t,
};
use crate::movers::{VDOORSPEED, VDOORWAIT, vldoor_e};
use crate::player::{CF_GODMODE, Player, PlayerModel};

verus! {

/// What standing on the floor of a special sector does this tic.
#[derive(Debug, Clone, Copy, PartialEq, Eq, Structural)]
pub struct SectorEffect {
    /// Damage to deal to the player (0 for none).
    pub damage: i32,
    /// The player found a secret.
    pub secret: bool,
    /// After the damage, the level ends if the player has 10 health or less.
    pub exit_when_weak: bool,
    /// The special is not one a player can stand in: the game stops.
    pub unknown: bool,
}

/// The effect of standing in a sector with `special` (see `SectorEffect`):
/// slime and nukage hurt every 32 tics unless the player wears the
/// radiation suit (the strongest slime, 4 and 16, sometimes even then:
/// when `random`, drawn only while the suit is worn, is below 5); a secret
/// counts once; the exit room of the first episode ends god mode, hurts
/// and ends the level when the player is weak.
pub open spec fn sector_effect(special: i16, ironfeet: i32, leveltime: i32, random: u8) -> SectorEffect {
    let none = SectorEffect { damage: 0, secret: false, exit_when_weak: false, unknown: false };
    let tick = leveltime & 0x1f == 0;
    if special == 5 {
        SectorEffect { damage: if ironfeet == 0 && tick { 10 } else { 0 }, ..none }
    } else if special == 7 {
        SectorEffect { damage: if ironfeet == 0 && tick { 5 } else { 0 }, ..none }
    } else if special == 16 || special == 4 {
        SectorEffect { damage: if (ironfeet == 0 || random < 5) && tick { 20 } else { 0 }, ..none }
    } else if special == 9 {
        SectorEffect { secret: true, ..none }
    } else if special == 11 {
        SectorEffect { damage: if tick { 20 } else { 0 }, exit_when_weak: true, ..none }
    } else {
        SectorEffect { unknown: true, ..none }
    }
}

/// A player stands in a special sector (`on_floor`: at floor height, not
/// falling). Says what happens (see `sector_effect`); a found secret clears
/// the sector's special, and the exit room clears god mode.
pub fn P_PlayerInSpecialSector(
    player: &mut Player,
    sector: &mut Sector,
    on_floor: bool,
    leveltime: i32,
    random: u8,
) -> (r: SectorEffect)
    ensures
        !on_floor ==> r == (SectorEffect { damage: 0, secret: false, exit_when_weak: false, unknown: false })
            && *final(sector) == *old(sector) && final(player)@ == old(player)@,
        on_floor ==> r == sector_effect(old(sector).special, old(player).powers[3], leveltime, random),
        on_floor ==> *final(sector) == if old(sector).special == 9 {
            Sector { special: 0, ..*old(sector) }
        } else {
            *old(sector)
        },
        on_floor ==> final(player)@ == if old(sector).special == 11 {
            PlayerModel { cheats: old(player).cheats & !CF_GODMODE, ..old(player)@ }
        } else {
            old(player)@
        },
{
    let none = SectorEffect { damage: 0, secret: false, exit_when_weak: false, unknown: false };
    if !on_floor {
        return none;
    }
    let tick = leveltime & 0x1f == 0;
    let ironfeet = player.powers[3];
    match sector.special {
        5 => SectorEffect {
            damage: if ironfeet == 0 && tick {
                10
            } else {
                0
            },
            ..none
        },
        7 => SectorEffect {
            damage: if ironfeet == 0 && tick {
                5
            } else {
                0
            },
            ..none
        },
        16 | 4 => SectorEffect {
            damage: if (ironfeet == 0 || random < 5) && tick {
                20
            } else {
                0
            },
            ..none
        },
        9 => {
            sector.special = 0;
            SectorEffect { secret: true, ..none }
        },
        11 => {
            player.cheats = player.cheats & !CF_GODMODE;
            SectorEffect {
                damage: if tick {
                    20
                } else {
                    0
                },
                exit_when_weak: true,
                ..none
            }
        },
        _ => SectorEffect { unknown: true, ..none },
    }
}

/// A lighting effect or door that a sector special starts at level load.
#[derive(Debug, Clone, Copy, PartialEq, Eq, Structural)]
pub enum Spawned {
    Flash(lightflash_t),
    Strobe(strobe_t),
    Glow(glow_t),
    Flicker(fireflicker_t),
    Door(vldoor_t),
    /// A secret, counted in the level's total.
    Secret,
}

/// Sector specials whose effect draws a value of the random sequence:
/// random flashes and the strobes that are not in sync.
pub open spec fn draws_random(special: i16) -> bool {
    special == 1 || special == 2 || special == 3 || special == 4
}

/// How many of the first `j` sectors draw a random value.
pub open spec fn draws_before(secs: Seq<Sector>, j: int) -> nat
    decreases j,
{
    if j <= 0 {
        0
    } else {
        draws_before(secs, j - 1) + if draws_random(secs[j - 1].special) {
            1nat
        } else {
            0nat
        }
    }
}

/// The special stays after its effect started (only the strobing slime, 4).
pub open spec fn special_after_spawn(special: i16) -> i16 {
    if special == 1 || special == 2 || special == 3 || special == 8 || special == 10 || special == 12
        || special == 13 || special == 14 || special == 17 {
        0
    } else {
        special
    }
}

/// The sector once its special's effect started: the special cleared (but
/// for 4) and, for the door specials, busy.
pub open spec fn sector_after_spawn(s: Sector) -> Sector {
    Sector {
        special: special_after_spawn(s.special),
        busy: if s.special == 10 || s.special == 14 {
            true
        } else {
            s.busy
        },
        ..s
    }
}

/// `e` is the effect that sector `j` of the level starts, drawing `random`
/// where it draws one.
pub open spec fn spawned_is(lv: &Level, j: int, random: u8, e: Option<Spawned>) -> bool {
    let s = lv.sectors@[j];
    let light = s.lightlevel as int;
    match s.special {
        1 => e matches Some(Spawned::Flash(f)) && f.sector == j && f.maxlight == light && min_light_is(
            lv,
            j,
            light,
            f.minlight as int,
        ) && f.maxtime == 64 && f.mintime == 7 && f.count == ((random as i32) & 64) + 1,
        2 | 3 | 4 | 12 | 13 => e matches Some(Spawned::Strobe(st)) && st.sector == j && st.maxlight
            == light && st.brighttime == STROBEBRIGHT && st.darktime == if s.special == 3 || s.special
            == 12 {
            SLOWDARK
        } else {
            FASTDARK
        } && (exists|m: int|
            #[trigger] min_light_is(lv, j, light, m) && st.minlight == if m == light {
                0
            } else {
                m
            }) && st.count == if s.special == 12 || s.special == 13 {
            1
        } else {
            ((random as i32) & 7) + 1
        },
        8 => e matches Some(Spawned::Glow(g)) && g.sector == j && g.maxlight == light && min_light_is(
            lv,
            j,
            light,
            g.minlight as int,
        ) && g.direction == -1,
        9 => e == Some(Spawned::Secret),
        10 => e == Some(
            Spawned::Door(
                vldoor_t {
                    ty: vldoor_e::normal,
                    sector: j as usize,
                    topheight: s.ceilingheight,
                    speed: VDOORSPEED,
                    direction: 0,
                    topwait: 0,
                    topcountdown: 1050,
                },
            ),
        ),
        14 => e matches Some(Spawned::Door(d)) && d.ty == vldoor_e::raiseIn5Mins && d.sector == j
            && d.speed == VDOORSPEED && d.direction == 2 && d.topwait == VDOORWAIT && d.topcountdown
            == 5 * 60 * 35 && exists|c: int|
            #[trigger] lowest_ceiling_is(lv, j, c) && d.topheight == c - 4 * crate::fixed::FRACUNIT,
        17 => e matches Some(Spawned::Flicker(f)) && f.sector == j && f.count == 4 && f.maxlight
            == light && min_light_is(lv, j, light, f.minlight - 16),
        _ => e is None,
    }
}

proof fn lemma_draws_mono(secs: Seq<Sector>, a: int, b: int)
    requires
        0 <= a <= b,
    ensures
        draws_before(secs, a) <= draws_before(secs, b),
    decreases b - a,
{
    if a < b {
        lemma_draws_mono(secs, a, b - 1);
    }
}

fn draws_random_exec(special: i16) -> (r: bool)
    ensures
        r == draws_random(special),
{
    special == 1 || special == 2 || special == 3 || special == 4
}

proof fn lemma_door_fits_frame(a: &Level, b: &Level, s: int)
    requires
        level_wf(a),
        same_ceilings(a, b),
        0 <= s < a.sectors.len(),
        door_fits(a, s),
    ensures
        door_fits(b, s),
{
    assert forall|i: int|
        0 <= i < crate::level::line_count(b, s) && (#[trigger] crate::level::neighbour(b, s, i)) is Some
            implies crate::level::nb_ceiling(b, s, i) >= i32::MIN + 4 * crate::fixed::FRACUNIT by {
        assert(a.sector_lines@[s]@[i] < a.lines.len());
        assert(crate::level::sector_line(a, s, i) == crate::level::sector_line(b, s, i));
        assert(crate::level::neighbour(a, s, i) == crate::level::neighbour(b, s, i));
        let o = crate::level::neighbour(a, s, i).unwrap();
        let l = a.sector_lines@[s]@[i] as int;
        assert(a.lines@[l].frontsector < a.sectors.len());
        assert(o < a.sectors.len());
        assert(a.sectors@[o as int].ceilingheight == b.sectors@[o as int].ceilingheight);
    }
}

/// Starts the effects of a level's sector specials, one slot per sector,
/// drawing random values from `randoms` in sector order (see `spawned_is`);
/// the sectors are left as `sector_after_spawn` says.
#[verifier::spinoff_prover]
#[verifier::rlimit(60)]
pub fn spawn_sector_effects(lv: &mut Level, randoms: &Vec<u8>) -> (r: Vec<Option<Spawned>>)
    requires
        level_wf(old(lv)),
        draws_before(old(lv).sectors@, old(lv).sectors.len() as int) <= randoms.len(),
        forall|j: int|
            0 <= j < old(lv).sectors.len() && #[trigger] old(lv).sectors@[j].special == 14 ==> door_fits(
                old(lv),
                j,
            ),
    ensures
        final(lv).lines@ == old(lv).lines@,
        final(lv).sides@ == old(lv).sides@,
        final(lv).sector_lines@ == old(lv).sector_lines@,
        final(lv).sectors.len() == old(lv).sectors.len(),
        forall|j: int|
            0 <= j < old(lv).sectors.len() ==> #[trigger] final(lv).sectors@[j] == sector_after_spawn(
                old(lv).sectors@[j],
            ),
        r.len() == old(lv).sectors.len(),
        forall|j: int|
            0 <= j < r.len() ==> spawned_is(
                old(lv),
                j,
                randoms@[draws_before(old(lv).sectors@, j) as int],
                #[trigger] r@[j],
            ),
{
    let ghost orig = old(lv).sectors@;
    let n = lv.sectors.len();
    let mut out: Vec<Option<Spawned>> = Vec::new();
    let mut ri: usize = 0;
    let mut j: usize = 0;
    while j < n
        invariant
            level_wf(old(lv)),
            n == old(lv).sectors.len(),
            orig == old(lv).sectors@,
            j <= n,
            lv.lines@ == old(lv).lines@,
            lv.sides@ == old(lv).sides@,
            lv.sector_lines@ == old(lv).sector_lines@,
            lv.sectors.len() == n,
            forall|k: int| 0 <= k < j ==> #[trigger] lv.sectors@[k] == sector_after_spawn(orig[k]),
            forall|k: int| j <= k < n ==> #[trigger] lv.sectors@[k] == orig[k],
            ri == draws_before(orig, j as int),
            draws_before(orig, n as int) <= randoms.len(),
            forall|k: int| 0 <= k < n && #[trigger] orig[k].special == 14 ==> door_fits(old(lv), k),
            out.len() == j,
            forall|k: int|
                0 <= k < j ==> spawned_is(old(lv), k, randoms@[draws_before(orig, k) as int], #[trigger] out@[k]),
        decreases n - j,
    {
        proof {
            lemma_draws_mono(orig, j as int + 1, n as int);
            assert(same_lights(lv, old(lv))) by {
                assert forall|k: int| 0 <= k < lv.sectors.len() implies #[trigger] lv.sectors@[k].lightlevel
                    == old(lv).sectors@[k].lightlevel by {
                    if k < j {
                        assert(lv.sectors@[k] == sector_after_spawn(orig[k]));
                    } else {
                        assert(lv.sectors@[k] == orig[k]);
                    }
                }
            }
            assert(same_ceilings(lv, old(lv))) by {
                assert forall|k: int| 0 <= k < lv.sectors.len() implies #[trigger] lv.sectors@[k].ceilingheight
                    == old(lv).sectors@[k].ceilingheight by {
                    if k < j {
                        assert(lv.sectors@[k] == sector_after_spawn(orig[k]));
                    } else {
                        assert(lv.sectors@[k] == orig[k]);
                    }
                }
            }
            assert(same_lights(old(lv), lv));
            assert(same_ceilings(old(lv), lv));
        }
        let ghost cur = *lv;
        let special = lv.sectors[j].special;
        let light = lv.sectors[j].lightlevel as i32;
        assert(special == orig[j as int].special);
        let random: u8 = if draws_random_exec(special) {
            randoms[ri]
        } else {
            0
        };
        let e: Option<Spawned> = if special == 1 {
            let f = P_SpawnLightFlash(lv, j, random);
            proof {
                lemma_min_light_frame(&cur, old(lv), j as int, light as int, f.minlight as int);
            }
            Some(Spawned::Flash(f))
        } else if special == 2 || special == 3 || special == 4 || special == 12 || special == 13 {
            let dark = if special == 3 || special == 12 {
                SLOWDARK
            } else {
                FASTDARK
            };
            let sync = if special == 12 || special == 13 {
                1
            } else {
                0
            };
            let st = P_SpawnStrobeFlash(lv, j, dark, sync, random);
            if special == 4 {
                let mut sec = lv.sectors[j];
                sec.special = 4;
                lv.sectors.set(j, sec);
            }
            proof {
                let m = choose|m: int|
                    #[trigger] min_light_is(&cur, j as int, st.maxlight as int, m) && st.minlight == if m
                        == st.maxlight {
                        0
                    } else {
                        m
                    };
                lemma_min_light_frame(&cur, old(lv), j as int, st.maxlight as int, m);
                assert(min_light_is(old(lv), j as int, light as int, m));
            }
            Some(Spawned::Strobe(st))
        } else if special == 8 {
            let g = P_SpawnGlowingLight(lv, j);
            proof {
                lemma_min_light_frame(&cur, old(lv), j as int, light as int, g.minlight as int);
            }
            Some(Spawned::Glow(g))
        } else if special == 9 {
            Some(Spawned::Secret)
        } else if special == 10 {
            let d = P_SpawnDoorCloseIn30(lv, j);
            Some(Spawned::Door(d))
        } else if special == 14 {
            proof {
                lemma_door_fits_frame(old(lv), &cur, j as int);
            }
            let d = P_SpawnDoorRaiseIn5Mins(lv, j);
            proof {
                let c = choose|c: int|
                    #[trigger] lowest_ceiling_is(&cur, j as int, c) && d.topheight == c - 4
                        * crate::fixed::FRACUNIT;
                lemma_lowest_ceiling_frame(&cur, old(lv), j as int, c);
            }
            Some(Spawned::Door(d))
        } else if special == 17 {
            let f = P_SpawnFireFlicker(lv, j);
            proof {
                lemma_min_light_frame(&cur, old(lv), j as int, light as int, f.minlight - 16);
            }
            Some(Spawned::Flicker(f))
        } else {
            None
        };
        out.push(e);
        proof {
            assert(out@[j as int] == e);
            assert(lv.sectors@[j as int] == sector_after_spawn(orig[j as int]));
        }
        if draws_random_exec(special) {
            ri = ri + 1;
        }
        j += 1;
    }
    out
}

/// How many of the first `n` lines scroll their texture (special 48).
pub open spec fn scroller_count(lines: Seq<crate::level::Line>, n: int) -> nat
    decreases n,
{
    if n <= 0 {
        0
    } else {
        scroller_count(lines, n - 1) + if lines[n - 1].special == 48 {
            1nat
        } else {
            0nat
        }
    }
}

/// At most this many scrolling lines.
pub const MAXLINEANIMS: usize = 64;

/// How many of the first `n` sectors are secrets.
pub open spec fn secret_count(secs: Seq<Sector>, n: int) -> nat
    decreases n,
{
    if n <= 0 {
        0
    } else {
        secret_count(secs, n - 1) + if secs[n - 1].special == 9 {
            1nat
        } else {
            0nat
        }
    }
}

/// The level timer that the command line asks for: in deathmatch only,
/// twenty minutes with `-avg`, or the given minutes with `-timer` (which
/// wins), counted in tics.
pub open spec fn level_timer(deathmatch: i32, avg: bool, timer_minutes: Option<i32>) -> Option<usize> {
    if deathmatch == 0 {
        None
    } else {
        match timer_minutes {
            Some(m) => Some((m * 60 * 35) as usize),
            None => if avg {
                Some(42000usize)
            } else {
                None
            },
        }
    }
}

/// What a level's specials came to at load time.
pub struct LevelSpecials {
    /// The effect each sector started, by sector.
    pub effects: Vec<Option<Spawned>>,
    /// Secrets in the level.
    pub secrets: usize,
    /// Tics before a deathmatch level ends, if timed.
    pub level_timer: Option<usize>,
    /// The lines whose texture scrolls, in index order.
    pub scrollers: Vec<usize>,
}

/// Number of player slots whose platform entries are cleared at load.
pub const MAXPLAYERS: usize = 4;

/// After a level is loaded: starts the effects of its sector specials (see
/// `spawn_sector_effects`), counts its secrets, sets the deathmatch level
/// timer (see `level_timer`), lists its scrolling lines, and clears the
/// ceiling table, the first four platform entries and the buttons.
pub fn P_SpawnSpecials(
    lv: &mut Level,
    randoms: &Vec<u8>,
    deathmatch: i32,
    avg: bool,
    timer_minutes: Option<i32>,
    ceilings: &mut Vec<Option<ceiling_t>>,
    plats: &mut Vec<Option<plat_t>>,
    buttons: &mut Vec<button_t>,
) -> (r: LevelSpecials)
    requires
        level_wf(old(lv)),
        draws_before(old(lv).sectors@, old(lv).sectors.len() as int) <= randoms.len(),
        forall|j: int|
            0 <= j < old(lv).sectors.len() && #[trigger] old(lv).sectors@[j].special == 14 ==> door_fits(
                old(lv),
                j,
            ),
        scroller_count(old(lv).lines@, old(lv).lines.len() as int) <= MAXLINEANIMS,
        deathmatch != 0 ==> (timer_minutes matches Some(m) ==> i32::MIN <= m * 60 * 35 <= i32::MAX),
    ensures
        final(lv).lines@ == old(lv).lines@,
        final(lv).sides@ == old(lv).sides@,
        final(lv).sector_lines@ == old(lv).sector_lines@,
        final(lv).sectors.len() == old(lv).sectors.len(),
        forall|j: int|
            0 <= j < old(lv).sectors.len() ==> #[trigger] final(lv).sectors@[j] == sector_after_spawn(
                old(lv).sectors@[j],
            ),
        r.effects.len() == old(lv).sectors.len(),
        forall|j: int|
            0 <= j < r.effects.len() ==> spawned_is(
                old(lv),
                j,
                randoms@[draws_before(old(lv).sectors@, j) as int],
                #[trigger] r.effects@[j],
            ),
        r.secrets == secret_count(old(lv).sectors@, old(lv).sectors.len() as int),
        r.level_timer == level_timer(deathmatch, avg, timer_minutes),
        r.scrollers.len() == scroller_count(old(lv).lines@, old(lv).lines.len() as int),
        forall|k: int| 0 <= k < r.scrollers.len() ==> #[trigger] old(lv).lines@[r.scrollers@[k] as int].special == 48 && r.scrollers@[k] < old(lv).lines.len(),
        forall|k1: int, k2: int| 0 <= k1 < k2 < r.scrollers.len() ==> r.scrollers@[k1] < r.scrollers@[k2],
        forall|l: int| 0 <= l < old(lv).lines.len() && #[trigger] old(lv).lines@[l].special == 48 ==> r.scrollers@.contains(l as usize),
        final(ceilings)@.len() == old(ceilings)@.len(),
        forall|i: int| 0 <= i < old(ceilings)@.len() ==> #[trigger] final(ceilings)@[i] is None,
        final(plats)@.len() == old(plats)@.len(),
        forall|i: int|
            0 <= i < old(plats)@.len() ==> #[trigger] final(plats)@[i] == if i < MAXPLAYERS {
                None
            } else {
                old(plats)@[i]
            },
        final(buttons)@.len() == old(buttons)@.len(),
        forall|i: int|
            0 <= i < old(buttons)@.len() ==> #[trigger] final(buttons)@[i] == (button_t {
                line: 0,
                where_: bwhere_e::top,
                btexture: 0,
                btimer: 0,
            }),
{
    let timer = if deathmatch != 0 {
        match timer_minutes {
            Some(m) => Some((m * 60 * 35) as usize),
            None => if avg {
                Some(20 * 60 * 35usize)
            } else {
                None
            },
        }
    } else {
        None
    };
    let ghost orig = lv.sectors@;
    let mut secrets: usize = 0;
    let n = lv.sectors.len();
    let mut j: usize = 0;
    while j < n
        invariant
            n == lv.sectors.len(),
            orig == lv.sectors@,
            j <= n,
            n < isize::MAX,
            secrets == secret_count(orig, j as int),
            secrets <= j,
        decreases n - j,
    {
        if lv.sectors[j].special == 9 {
            secrets = secrets + 1;
        }
        j += 1;
    }
    let effects = spawn_sector_effects(lv, randoms);
    let mut scrollers: Vec<usize> = Vec::new();
    let m = lv.lines.len();
    let mut l: usize = 0;
    while l < m
        invariant
            m == lv.lines.len(),
            lv.lines@ == old(lv).lines@,
            l <= m,
            scrollers.len() == scroller_count(lv.lines@, l as int),
            forall|k: int| 0 <= k < scrollers.len() ==> #[trigger] scrollers@[k] < l,
            forall|k: int| 0 <= k < scrollers.len() ==> lv.lines@[#[trigger] scrollers@[k] as int].special == 48,
            forall|k1: int, k2: int| 0 <= k1 < k2 < scrollers.len() ==> scrollers@[k1] < scrollers@[k2],
            forall|i: int| 0 <= i < l && #[trigger] lv.lines@[i].special == 48 ==> scrollers@.contains(i as usize),
        decreases m - l,
    {
        if lv.lines[l].special == 48 {
            let ghost before = scrollers@;
            scrollers.push(l);
            proof {
                assert forall|k: int| 0 <= k < scrollers.len() implies #[trigger] scrollers@[k] < l + 1 && lv.lines@[scrollers@[k] as int].special == 48 by {
                    if k < before.len() {
                        assert(scrollers@[k] == before[k]);
                        assert(before[k] < l);
                    }
                }
                assert forall|k1: int, k2: int| 0 <= k1 < k2 < scrollers.len() implies scrollers@[k1] < scrollers@[k2] by {
                    assert(scrollers@[k1] == before[k1]);
                    if k2 < before.len() {
                        assert(scrollers@[k2] == before[k2]);
                    }
                }
                assert forall|i: int| 0 <= i < l + 1 && #[trigger] lv.lines@[i].special == 48 implies scrollers@.contains(i as usize) by {
                    if i < l {
                        let k = choose|k: int| 0 <= k < before.len() && before[k] == i as usize;
                        assert(scrollers@[k] == i as usize);
                    } else {
                        assert(scrollers@[scrollers.len() - 1] == i as usize);
                    }
                }
            }
        }
        l += 1;
    }
    let nc = ceilings.len();
    let mut i: usize = 0;
    while i < nc
        invariant
            nc == ceilings.len(),
            nc == old(ceilings)@.len(),
            i <= nc,
            forall|k: int| 0 <= k < i ==> #[trigger] ceilings@[k] is None,
        decreases nc - i,
    {
        ceilings.set(i, None);
        i += 1;
    }
    let np = plats.len();
    let mut i: usize = 0;
    while i < np && i < MAXPLAYERS
        invariant
            np == plats.len(),
            np == old(plats)@.len(),
            i <= np,
            i <= MAXPLAYERS,
            forall|k: int|
                0 <= k < np ==> #[trigger] plats@[k] == if k < i {
                    None
                } else {
                    old(plats)@[k]
                },
        decreases np - i,
    {
        plats.set(i, None);
        i += 1;
    }
    let nb = buttons.len();
    let mut i: usize = 0;
    while i < nb
        invariant
            nb == buttons.len(),
            nb == old(buttons)@.len(),
            i <= nb,
            forall|k: int|
                0 <= k < i ==> #[trigger] buttons@[k] == (button_t {
                    line: 0,
                    where_: bwhere_e::top,
                    btexture: 0,
                    btimer: 0,
                }),
        decreases nb - i,
    {
        buttons.set(i, button_t { line: 0, where_: bwhere_e::top, btexture: 0, btimer: 0 });
        i += 1;
    }
    LevelSpecials { effects, secrets, level_timer: timer, scrollers }
}

} // verus!
