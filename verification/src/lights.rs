//! Sector lighting effects: flickering fire, random flashes, strobes and
//! glows, and the line actions that set light levels.

use vstd::prelude::*;

use crate::level::{
    Level, Line, P_FindMinSurroundingLight, Sector, getNextSector, lemma_min_light_frame, level_wf,
    line_count, min_light_is, neighbour, same_lights,
};

verus! {

/// Light level step of a glowing sector per tic.
pub const GLOWSPEED: i16 = 8;

/// Tics a strobe stays bright.
pub const STROBEBRIGHT: i32 = 5;

/// Tics a fast strobe stays dark.
pub const FASTDARK: i32 = 15;

/// Tics a slow strobe stays dark.
pub const SLOWDARK: i32 = 35;

/// A flickering fire.
#[derive(Debug, Clone, Copy, PartialEq, Eq, Structural)]
pub struct fireflicker_t {
    pub sector: usize,
    pub count: i32,
    pub maxlight: i32,
    pub minlight: i32,
}

/// A light that flashes at random intervals.
#[derive(Debug, Clone, Copy, PartialEq, Eq, Structural)]
pub struct lightflash_t {
    pub sector: usize,
    pub count: i32,
    pub maxlight: i32,
    pub minlight: i32,
    pub maxtime: i32,
    pub mintime: i32,
}

/// A strobe light.
#[derive(Debug, Clone, Copy, PartialEq, Eq, Structural)]
pub struct strobe_t {
    pub sector: usize,
    pub count: i32,
    pub minlight: i32,
    pub maxlight: i32,
    pub darktime: i32,
    pub brighttime: i32,
}

/// A glowing light, going up (`direction` 1) or down (-1).
#[derive(Debug, Clone, Copy, PartialEq, Eq, Structural)]
pub struct glow_t {
    pub sector: usize,
    pub minlight: i32,
    pub maxlight: i32,
    pub direction: i32,
}

/// One tic of a fire flicker. When its count runs out the light drops by
/// 0, 16, 32 or 48 below the maximum (from the two low bits of `random`,
/// the next value of the game's random sequence, which is drawn only then),
/// but not below the minimum, and the count starts again at 4.
pub fn T_FireFlicker(flick: &mut fireflicker_t, sector: &mut Sector, random: u8)
    requires
        old(flick).count > i32::MIN,
        old(flick).maxlight >= i32::MIN + 48,
    ensures
        old(flick).count != 1 ==> *final(flick) == (fireflicker_t {
            count: (old(flick).count - 1) as i32,
            ..*old(flick)
        }) && *final(sector) == *old(sector),
        old(flick).count == 1 ==> {
            let amount = (random & 3) * 16;
            &&& *final(flick) == (fireflicker_t { count: 4, ..*old(flick) })
            &&& *final(sector) == (Sector {
                lightlevel: if old(sector).lightlevel - amount < old(flick).minlight {
                    old(flick).minlight as i16
                } else {
                    (old(flick).maxlight - amount) as i16
                },
                ..*old(sector)
            })
        },
{
    flick.count = flick.count - 1;
    if flick.count != 0 {
        return;
    }
    assert((random & 3) < 4) by (bit_vector);
    let amount: i32 = ((random & 3) as i32) * 16;
    if (sector.lightlevel as i32) - amount < flick.minlight {
        sector.lightlevel = flick.minlight as i16;
    } else {
        sector.lightlevel = (flick.maxlight - amount) as i16;
    }
    flick.count = 4;
}

/// Sets up a fire flicker in sector `sec`: it flickers between the
/// sector's light and 16 above the darkest neighbour. The sector loses its
/// special.
pub fn P_SpawnFireFlicker(lv: &mut Level, sec: usize) -> (r: fireflicker_t)
    requires
        level_wf(old(lv)),
        sec < old(lv).sectors.len(),
    ensures
        final(lv).lines@ == old(lv).lines@,
        final(lv).sides@ == old(lv).sides@,
        final(lv).sector_lines@ == old(lv).sector_lines@,
        final(lv).sectors@ == old(lv).sectors@.update(
            sec as int,
            Sector { special: 0, ..old(lv).sectors@[sec as int] },
        ),
        r.sector == sec,
        r.count == 4,
        r.maxlight == old(lv).sectors@[sec as int].lightlevel,
        min_light_is(
            old(lv),
            sec as int,
            old(lv).sectors@[sec as int].lightlevel as int,
            r.minlight - 16,
        ),
{
    let light = lv.sectors[sec].lightlevel as i32;
    let min = P_FindMinSurroundingLight(lv, sec, light);
    proof {
        if min != light {
            let i = choose|i: int|
                0 <= i < line_count(lv, sec as int) && (#[trigger] neighbour(lv, sec as int, i)) is Some
                    && crate::level::nb_light(lv, sec as int, i) == min;
        }
    }
    let mut s = lv.sectors[sec];
    s.special = 0;
    lv.sectors.set(sec, s);
    fireflicker_t { sector: sec, count: 4, maxlight: light, minlight: min + 16 }
}

/// One tic of a random flash. When its count runs out the light switches
/// between its maximum and minimum, and the count starts again at one more
/// than `random` masked by the time for the new state (`random` is the
/// next value of the game's random sequence, drawn only then).
pub fn T_LightFlash(flash: &mut lightflash_t, sector: &mut Sector, random: u8)
    requires
        old(flash).count > i32::MIN,
        0 <= old(flash).mintime < i32::MAX,
        0 <= old(flash).maxtime < i32::MAX,
    ensures
        old(flash).count != 1 ==> *final(flash) == (lightflash_t {
            count: (old(flash).count - 1) as i32,
            ..*old(flash)
        }) && *final(sector) == *old(sector),
        old(flash).count == 1 && old(sector).lightlevel == old(flash).maxlight as i16 ==> {
            &&& *final(sector) == (Sector {
                lightlevel: old(flash).minlight as i16,
                ..*old(sector)
            })
            &&& *final(flash) == (lightflash_t {
                count: (((random as i32) & old(flash).mintime) + 1) as i32,
                ..*old(flash)
            })
        },
        old(flash).count == 1 && old(sector).lightlevel != old(flash).maxlight as i16 ==> {
            &&& *final(sector) == (Sector {
                lightlevel: old(flash).maxlight as i16,
                ..*old(sector)
            })
            &&& *final(flash) == (lightflash_t {
                count: (((random as i32) & old(flash).maxtime) + 1) as i32,
                ..*old(flash)
            })
        },
{
    flash.count = flash.count - 1;
    if flash.count != 0 {
        return;
    }
    let r = random as i32;
    if sector.lightlevel == flash.maxlight as i16 {
        sector.lightlevel = flash.minlight as i16;
        let t = flash.mintime;
        assert(r & t <= t) by (bit_vector)
            requires
                t >= 0,
        ;
        flash.count = (r & t) + 1;
    } else {
        sector.lightlevel = flash.maxlight as i16;
        let t = flash.maxtime;
        assert(r & t <= t) by (bit_vector)
            requires
                t >= 0,
        ;
        flash.count = (r & t) + 1;
    }
}

/// Sets up random flashes in sector `sec`, between the sector's light and
/// the darkest neighbour's, with the first flash after one more than
/// `random` masked by 64. The sector loses its special.
pub fn P_SpawnLightFlash(lv: &mut Level, sec: usize, random: u8) -> (r: lightflash_t)
    requires
        level_wf(old(lv)),
        sec < old(lv).sectors.len(),
    ensures
        final(lv).lines@ == old(lv).lines@,
        final(lv).sides@ == old(lv).sides@,
        final(lv).sector_lines@ == old(lv).sector_lines@,
        final(lv).sectors@ == old(lv).sectors@.update(
            sec as int,
            Sector { special: 0, ..old(lv).sectors@[sec as int] },
        ),
        r.sector == sec,
        r.maxlight == old(lv).sectors@[sec as int].lightlevel,
        min_light_is(old(lv), sec as int, old(lv).sectors@[sec as int].lightlevel as int, r.minlight as int),
        r.maxtime == 64,
        r.mintime == 7,
        r.count == ((random as i32) & 64) + 1,
{
    let light = lv.sectors[sec].lightlevel as i32;
    let min = P_FindMinSurroundingLight(lv, sec, light);
    let mut s = lv.sectors[sec];
    s.special = 0;
    lv.sectors.set(sec, s);
    let rr = random as i32;
    assert(rr & 64 <= 64) by (bit_vector);
    lightflash_t {
        sector: sec,
        count: (rr & 64) + 1,
        maxlight: light,
        minlight: min,
        maxtime: 64,
        mintime: 7,
    }
}

/// One tic of a strobe: when its count runs out the light switches between
/// minimum and maximum, staying bright for `brighttime` tics and dark for
/// `darktime`.
pub fn T_StrobeFlash(flash: &mut strobe_t, sector: &mut Sector)
    requires
        old(flash).count > i32::MIN,
    ensures
        old(flash).count != 1 ==> *final(flash) == (strobe_t {
            count: (old(flash).count - 1) as i32,
            ..*old(flash)
        }) && *final(sector) == *old(sector),
        old(flash).count == 1 && old(sector).lightlevel == old(flash).minlight as i16 ==> {
            &&& *final(sector) == (Sector {
                lightlevel: old(flash).maxlight as i16,
                ..*old(sector)
            })
            &&& *final(flash) == (strobe_t { count: old(flash).brighttime, ..*old(flash) })
        },
        old(flash).count == 1 && old(sector).lightlevel != old(flash).minlight as i16 ==> {
            &&& *final(sector) == (Sector {
                lightlevel: old(flash).minlight as i16,
                ..*old(sector)
            })
            &&& *final(flash) == (strobe_t { count: old(flash).darktime, ..*old(flash) })
        },
{
    flash.count = flash.count - 1;
    if flash.count != 0 {
        return;
    }
    if sector.lightlevel == flash.minlight as i16 {
        sector.lightlevel = flash.maxlight as i16;
        flash.count = flash.brighttime;
    } else {
        sector.lightlevel = flash.minlight as i16;
        flash.count = flash.darktime;
    }
}

/// Sets up a strobe in sector `sec`, dark for `fastOrSlow` tics and bright
/// for `STROBEBRIGHT`, between the sector's light and the darkest
/// neighbour's (0 where no neighbour is darker). A strobe in sync starts
/// with a count of 1; one out of sync with one more than `random` masked
/// by 7. The sector loses its special.
pub fn P_SpawnStrobeFlash(lv: &mut Level, sec: usize, fastOrSlow: i32, inSync: i32, random: u8) -> (r:
    strobe_t)
    requires
        level_wf(old(lv)),
        sec < old(lv).sectors.len(),
    ensures
        final(lv).lines@ == old(lv).lines@,
        final(lv).sides@ == old(lv).sides@,
        final(lv).sector_lines@ == old(lv).sector_lines@,
        final(lv).sectors@ == old(lv).sectors@.update(
            sec as int,
            Sector { special: 0, ..old(lv).sectors@[sec as int] },
        ),
        r.sector == sec,
        r.darktime == fastOrSlow,
        r.brighttime == STROBEBRIGHT,
        r.maxlight == old(lv).sectors@[sec as int].lightlevel,
        exists|m: int|
            #[trigger] min_light_is(old(lv), sec as int, r.maxlight as int, m) && r.minlight == if m
                == r.maxlight {
                0
            } else {
                m
            },
        r.count == if inSync == 0 {
            ((random as i32) & 7) + 1
        } else {
            1
        },
{
    let light = lv.sectors[sec].lightlevel as i32;
    let mut min = P_FindMinSurroundingLight(lv, sec, light);
    let ghost m = min as int;
    if min == light {
        min = 0;
    }
    let mut s = lv.sectors[sec];
    s.special = 0;
    lv.sectors.set(sec, s);
    let rr = random as i32;
    assert(rr & 7 <= 7) by (bit_vector);
    let count = if inSync == 0 {
        (rr & 7) + 1
    } else {
        1
    };
    let r = strobe_t {
        sector: sec,
        count,
        minlight: min,
        maxlight: light,
        darktime: fastOrSlow,
        brighttime: STROBEBRIGHT,
    };
    assert(min_light_is(old(lv), sec as int, r.maxlight as int, m));
    r
}

/// One tic of a glow: the light moves by `GLOWSPEED` in its direction and
/// turns back, undoing the step, when it would reach the minimum (going
/// down) or the maximum (going up).
pub fn T_Glow(g: &mut glow_t, sector: &mut Sector)
    requires
        old(g).direction == 1 || old(g).direction == -1,
        old(g).direction == -1 ==> old(sector).lightlevel >= i16::MIN + GLOWSPEED,
        old(g).direction == 1 ==> old(sector).lightlevel <= i16::MAX - GLOWSPEED,
    ensures
        ({
            let l = old(sector).lightlevel as int;
            let step = l + old(g).direction * GLOWSPEED;
            let turns = if old(g).direction == -1 {
                step <= old(g).minlight as i16
            } else {
                step >= old(g).maxlight as i16
            };
            &&& *final(sector) == (Sector {
                lightlevel: if turns {
                    l as i16
                } else {
                    step as i16
                },
                ..*old(sector)
            })
            &&& *final(g) == if turns {
                glow_t { direction: (-old(g).direction) as i32, ..*old(g) }
            } else {
                *old(g)
            }
        }),
        i16::MIN <= old(g).minlight && old(g).maxlight <= i16::MAX && old(g).minlight < old(sector).lightlevel < old(g).maxlight
            ==> old(g).minlight < final(sector).lightlevel < old(g).maxlight,
{
    if g.direction == -1 {
        sector.lightlevel = sector.lightlevel - GLOWSPEED;
        if sector.lightlevel <= g.minlight as i16 {
            sector.lightlevel = sector.lightlevel + GLOWSPEED;
            g.direction = 1;
        }
    } else {
        sector.lightlevel = sector.lightlevel + GLOWSPEED;
        if sector.lightlevel >= g.maxlight as i16 {
            sector.lightlevel = sector.lightlevel - GLOWSPEED;
            g.direction = -1;
        }
    }
}

/// Sets up a glow in sector `sec`, between the darkest neighbour's light and
/// the sector's, starting downwards. The sector loses its special.
pub fn P_SpawnGlowingLight(lv: &mut Level, sec: usize) -> (r: glow_t)
    requires
        level_wf(old(lv)),
        sec < old(lv).sectors.len(),
    ensures
        final(lv).lines@ == old(lv).lines@,
        final(lv).sides@ == old(lv).sides@,
        final(lv).sector_lines@ == old(lv).sector_lines@,
        final(lv).sectors@ == old(lv).sectors@.update(
            sec as int,
            Sector { special: 0, ..old(lv).sectors@[sec as int] },
        ),
        r.sector == sec,
        r.maxlight == old(lv).sectors@[sec as int].lightlevel,
        min_light_is(old(lv), sec as int, r.maxlight as int, r.minlight as int),
        r.direction == -1,
{
    let light = lv.sectors[sec].lightlevel as i32;
    let min = P_FindMinSurroundingLight(lv, sec, light);
    let mut s = lv.sectors[sec];
    s.special = 0;
    lv.sectors.set(sec, s);
    glow_t { sector: sec, minlight: min, maxlight: light, direction: -1 }
}

/// The darkest light among sector `s` and the sectors across its first `n`
/// lines, as the sectors stand in `secs`.
pub open spec fn darkest_around(lv: &Level, secs: Seq<Sector>, s: int, n: int) -> i16
    decreases n,
{
    if n <= 0 {
        secs[s].lightlevel
    } else {
        let m = darkest_around(lv, secs, s, n - 1);
        match neighbour(lv, s, n - 1) {
            Some(o) => if secs[o as int].lightlevel < m {
                secs[o as int].lightlevel
            } else {
                m
            },
            None => m,
        }
    }
}

/// The sectors once the first `j` of them have been handled by turning off
/// the lights tagged `tag`: in index order, each tagged sector takes the
/// darkest light among itself and its neighbours as they stand by then.
pub open spec fn lights_off_upto(lv: &Level, tag: i16, j: int) -> Seq<Sector>
    decreases j,
{
    if j <= 0 {
        lv.sectors@
    } else {
        let st = lights_off_upto(lv, tag, j - 1);
        if st[j - 1].tag == tag {
            st.update(
                j - 1,
                Sector { lightlevel: darkest_around(lv, st, j - 1, line_count(lv, j - 1)), ..st[j - 1] },
            )
        } else {
            st
        }
    }
}

proof fn lemma_lights_off_len(lv: &Level, tag: i16, j: int)
    requires
        j <= lv.sectors.len(),
    ensures
        lights_off_upto(lv, tag, j).len() == lv.sectors.len(),
    decreases j,
{
    if j > 0 {
        lemma_lights_off_len(lv, tag, j - 1);
    }
}

/// Turns the lights of the sectors tagged like `line` down to the darkest
/// of each one's neighbours (see `lights_off_upto`).
pub fn EV_TurnTagLightsOff(lv: &mut Level, line: &Line)
    requires
        level_wf(old(lv)),
    ensures
        final(lv).lines@ == old(lv).lines@,
        final(lv).sides@ == old(lv).sides@,
        final(lv).sector_lines@ == old(lv).sector_lines@,
        final(lv).sectors@ == lights_off_upto(old(lv), line.tag, old(lv).sectors.len() as int),
{
    let n = lv.sectors.len();
    let mut j: usize = 0;
    while j < n
        invariant
            level_wf(old(lv)),
            n == old(lv).sectors.len(),
            j <= n,
            lv.lines@ == old(lv).lines@,
            lv.sides@ == old(lv).sides@,
            lv.sector_lines@ == old(lv).sector_lines@,
            lv.sectors@ == lights_off_upto(old(lv), line.tag, j as int),
        decreases n - j,
    {
        proof {
            lemma_lights_off_len(old(lv), line.tag, j as int);
        }
        if lv.sectors[j].tag == line.tag {
            let ghost st = lv.sectors@;
            let mut min = lv.sectors[j].lightlevel;
            let m = lv.sector_lines[j].len();
            let mut i: usize = 0;
            while i < m
                invariant
                    level_wf(old(lv)),
                    n == old(lv).sectors.len(),
                    j < n,
                    i <= m,
                    m == line_count(old(lv), j as int),
                    lv.lines@ == old(lv).lines@,
                    lv.sides@ == old(lv).sides@,
                    lv.sector_lines@ == old(lv).sector_lines@,
                    lv.sectors@ == st,
                    st.len() == n,
                    min == darkest_around(old(lv), st, j as int, i as int),
                decreases m - i,
            {
                let l = lv.sector_lines[j][i];
                let other = getNextSector(lv, l, j);
                assert(other == neighbour(old(lv), j as int, i as int));
                match other {
                    Some(o) => {
                        if lv.sectors[o].lightlevel < min {
                            min = lv.sectors[o].lightlevel;
                        }
                    },
                    None => {},
                }
                i += 1;
            }
            let mut sec = lv.sectors[j];
            sec.lightlevel = min;
            lv.sectors.set(j, sec);
        }
        j += 1;
    }
}

/// The brightest light among `b` and the sectors across the first `n`
/// lines of `s`, as the sectors stand in `secs`.
pub open spec fn brightest_around(lv: &Level, secs: Seq<Sector>, s: int, n: int, b: int) -> int
    decreases n,
{
    if n <= 0 {
        b
    } else {
        let m = brightest_around(lv, secs, s, n - 1, b);
        match neighbour(lv, s, n - 1) {
            Some(o) => if secs[o as int].lightlevel > m {
                secs[o as int].lightlevel as int
            } else {
                m
            },
            None => m,
        }
    }
}

/// The sectors, and the light level carried on, once the first `j` sectors
/// have been handled by turning on the lights tagged `tag` at level
/// `bright`: each tagged sector takes the level carried so far, where that
/// is 0 first raised to the brightest of its neighbours.
pub open spec fn lights_on_upto(lv: &Level, tag: i16, bright: int, j: int) -> (Seq<Sector>, int)
    decreases j,
{
    if j <= 0 {
        (lv.sectors@, bright)
    } else {
        let (st, b) = lights_on_upto(lv, tag, bright, j - 1);
        if st[j - 1].tag == tag {
            let nb = if b == 0 {
                brightest_around(lv, st, j - 1, line_count(lv, j - 1), b)
            } else {
                b
            };
            (st.update(j - 1, Sector { lightlevel: nb as i16, ..st[j - 1] }), nb)
        } else {
            (st, b)
        }
    }
}

proof fn lemma_lights_on(lv: &Level, tag: i16, bright: int, j: int)
    requires
        i32::MIN <= bright <= i32::MAX,
        j <= lv.sectors.len(),
    ensures
        lights_on_upto(lv, tag, bright, j).0.len() == lv.sectors.len(),
        i32::MIN <= lights_on_upto(lv, tag, bright, j).1 <= i32::MAX,
    decreases j,
{
    if j > 0 {
        lemma_lights_on(lv, tag, bright, j - 1);
        let (st, b) = lights_on_upto(lv, tag, bright, j - 1);
        if st[j - 1].tag == tag && b == 0 {
            lemma_brightest_bound(lv, st, j - 1, line_count(lv, j - 1), b);
        }
    }
}

proof fn lemma_brightest_bound(lv: &Level, secs: Seq<Sector>, s: int, n: int, b: int)
    requires
        i32::MIN <= b <= i32::MAX,
    ensures
        i32::MIN <= brightest_around(lv, secs, s, n, b) <= i32::MAX,
    decreases n,
{
    if n > 0 {
        lemma_brightest_bound(lv, secs, s, n - 1, b);
    }
}

/// Turns on the lights of the sectors tagged like `line`: to `bright`, or,
/// where that is 0, to the brightest neighbour of the first tagged sector,
/// a level then kept for the later ones (see `lights_on_upto`).
pub fn EV_LightTurnOn(lv: &mut Level, line: &Line, bright: i32)
    requires
        level_wf(old(lv)),
    ensures
        final(lv).lines@ == old(lv).lines@,
        final(lv).sides@ == old(lv).sides@,
        final(lv).sector_lines@ == old(lv).sector_lines@,
        final(lv).sectors@ == lights_on_upto(
            old(lv),
            line.tag,
            bright as int,
            old(lv).sectors.len() as int,
        ).0,
{
    let n = lv.sectors.len();
    let mut bright = bright;
    let ghost b0 = bright as int;
    let mut j: usize = 0;
    while j < n
        invariant
            level_wf(old(lv)),
            n == old(lv).sectors.len(),
            j <= n,
            lv.lines@ == old(lv).lines@,
            lv.sides@ == old(lv).sides@,
            lv.sector_lines@ == old(lv).sector_lines@,
            i32::MIN <= b0 <= i32::MAX,
            lv.sectors@ == lights_on_upto(old(lv), line.tag, b0, j as int).0,
            bright == lights_on_upto(old(lv), line.tag, b0, j as int).1,
        decreases n - j,
    {
        proof {
            lemma_lights_on(old(lv), line.tag, b0, j as int);
        }
        if lv.sectors[j].tag == line.tag {
            if bright == 0 {
                let ghost st = lv.sectors@;
                let m = lv.sector_lines[j].len();
                let mut i: usize = 0;
                while i < m
                    invariant
                        level_wf(old(lv)),
                        n == old(lv).sectors.len(),
                        j < n,
                        i <= m,
                        m == line_count(old(lv), j as int),
                        lv.lines@ == old(lv).lines@,
                        lv.sides@ == old(lv).sides@,
                        lv.sector_lines@ == old(lv).sector_lines@,
                        lv.sectors@ == st,
                        st.len() == n,
                        bright == brightest_around(old(lv), st, j as int, i as int, 0),
                    decreases m - i,
                {
                    proof {
                        lemma_brightest_bound(old(lv), st, j as int, i as int, 0);
                    }
                    let l = lv.sector_lines[j][i];
                    let other = getNextSector(lv, l, j);
                    assert(other == neighbour(old(lv), j as int, i as int));
                    match other {
                        Some(o) => {
                            if lv.sectors[o].lightlevel as i32 > bright {
                                bright = lv.sectors[o].lightlevel as i32;
                            }
                        },
                        None => {},
                    }
                    i += 1;
                }
            }
            let mut sec = lv.sectors[j];
            sec.lightlevel = bright as i16;
            lv.sectors.set(j, sec);
        }
        j += 1;
    }
}

/// Sector `j` takes a strobe from a line with `tag`: it carries the tag
/// and no mover works on it.
pub open spec fn strobe_claims(lv: &Level, tag: i16, j: int) -> bool {
    lv.sectors@[j].tag == tag && !lv.sectors@[j].busy
}

/// How many of the first `j` sectors take a strobe (each draws a random
/// byte).
pub open spec fn strobes_before(lv: &Level, tag: i16, j: int) -> nat
    decreases j,
{
    if j <= 0 {
        0
    } else {
        strobes_before(lv, tag, j - 1) + if strobe_claims(lv, tag, j - 1) {
            1nat
        } else {
            0nat
        }
    }
}

proof fn lemma_strobes_before_mono(lv: &Level, tag: i16, a: int, b: int)
    requires
        0 <= a <= b,
    ensures
        strobes_before(lv, tag, a) <= strobes_before(lv, tag, b),
    decreases b - a,
{
    if a < b {
        lemma_strobes_before_mono(lv, tag, a, b - 1);
    }
}

/// `s` is the slow strobe set up in sector `sec` of `lv` (see
/// `P_SpawnStrobeFlash`), out of sync, with the random byte `random`.
pub open spec fn strobe_is(lv: &Level, sec: int, random: u8, s: strobe_t) -> bool {
    &&& s.sector == sec
    &&& s.darktime == SLOWDARK
    &&& s.brighttime == STROBEBRIGHT
    &&& s.maxlight == lv.sectors@[sec].lightlevel
    &&& exists|m: int|
        #[trigger] min_light_is(lv, sec, s.maxlight as int, m) && s.minlight == if m == s.maxlight {
            0
        } else {
            m
        }
    &&& s.count == ((random as i32) & 7) + 1
}

/// Starts a slow strobe in every sector that carries the line's tag and
/// has no mover, in sector order; the k-th takes the k-th random byte. The
/// result holds, for each sector, the strobe it got; those sectors lose
/// their special.
pub fn EV_StartLightStrobing(lv: &mut Level, line: &Line, randoms: &Vec<u8>) -> (r: Vec<Option<strobe_t>>)
    requires
        level_wf(old(lv)),
        strobes_before(old(lv), line.tag, old(lv).sectors.len() as int) <= randoms.len(),
    ensures
        final(lv).lines@ == old(lv).lines@,
        final(lv).sides@ == old(lv).sides@,
        final(lv).sector_lines@ == old(lv).sector_lines@,
        final(lv).sectors.len() == old(lv).sectors.len(),
        forall|j: int|
            0 <= j < old(lv).sectors.len() ==> #[trigger] final(lv).sectors@[j] == if strobe_claims(
                old(lv),
                line.tag,
                j,
            ) {
                Sector { special: 0, ..old(lv).sectors@[j] }
            } else {
                old(lv).sectors@[j]
            },
        r.len() == old(lv).sectors.len(),
        forall|j: int|
            0 <= j < r.len() ==> (#[trigger] r@[j] is Some <==> strobe_claims(old(lv), line.tag, j)),
        forall|j: int|
            0 <= j < r.len() && #[trigger] r@[j] is Some ==> strobe_is(
                old(lv),
                j,
                randoms@[strobes_before(old(lv), line.tag, j) as int],
                r@[j]->0,
            ),
{
    let ghost orig = old(lv).sectors@;
    let n = lv.sectors.len();
    let mut out: Vec<Option<strobe_t>> = Vec::new();
    let mut ri: usize = 0;
    let mut j: usize = 0;
    while j < n
        invariant
            level_wf(old(lv)),
            n == old(lv).sectors.len(),
            orig == old(lv).sectors@,
            j <= n,
            lv.lines@ == old(lv).lines@,
            lv.sides@ == old(lv).sides@,
            lv.sector_lines@ == old(lv).sector_lines@,
            lv.sectors.len() == n,
            forall|k: int|
                0 <= k < j ==> #[trigger] lv.sectors@[k] == if strobe_claims(old(lv), line.tag, k) {
                    Sector { special: 0, ..orig[k] }
                } else {
                    orig[k]
                },
            forall|k: int| j <= k < n ==> #[trigger] lv.sectors@[k] == orig[k],
            ri == strobes_before(old(lv), line.tag, j as int),
            strobes_before(old(lv), line.tag, n as int) <= randoms.len(),
            out.len() == j,
            forall|k: int| 0 <= k < j ==> (#[trigger] out@[k] is Some <==> strobe_claims(old(lv), line.tag, k)),
            forall|k: int|
                0 <= k < j && #[trigger] out@[k] is Some ==> strobe_is(
                    old(lv),
                    k,
                    randoms@[strobes_before(old(lv), line.tag, k) as int],
                    out@[k]->0,
                ),
        decreases n - j,
    {
        let ghost cur = *lv;
        proof {
            assert(same_lights(&cur, old(lv)));
            assert(level_wf(&cur));
        }
        let sec = lv.sectors[j];
        if sec.tag == line.tag && !sec.busy {
            proof {
                lemma_strobes_before_mono(old(lv), line.tag, j as int + 1, n as int);
            }
            let st = P_SpawnStrobeFlash(lv, j, SLOWDARK, 0, randoms[ri]);
            proof {
                let m = choose|m: int|
                    #[trigger] min_light_is(&cur, j as int, st.maxlight as int, m) && st.minlight == if m
                        == st.maxlight {
                        0
                    } else {
                        m
                    };
                lemma_min_light_frame(&cur, old(lv), j as int, st.maxlight as int, m);
                assert(min_light_is(old(lv), j as int, st.maxlight as int, m));
            }
            out.push(Some(st));
            ri = ri + 1;
        } else {
            out.push(None);
        }
        j += 1;
    }
    out
}

} // verus!
