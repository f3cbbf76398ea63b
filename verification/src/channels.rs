//! The sound channels: which sound effect each channel plays, for which
//! thing, and how useful each effect's cached data has been; and how loud
//! and from which side a sound is heard. Starting and stopping the sounds
//! themselves is left to the sound device; these functions say which
//! channel is taken or freed, and which playing sound the device should
//! stop.

use vstd::prelude::*;

use crate::enemy::distance_fits;
use crate::fixed::{FixedMul, fixed_t};
use crate::geom::{P_AproxDistance, aprox_distance, fits_i32, fmul};

verus! {

/// A sound channel: the effect it plays (none where it is free), the thing
/// the sound comes from (none for a sound without a place) and the device's
/// handle of the sound.
#[derive(Debug, Clone, Copy, PartialEq, Eq, Structural)]
pub struct channel_t {
    pub sfx: Option<usize>,
    pub origin: Option<usize>,
    pub handle: i32,
}

/// The usefulness counters can take the decrement that freeing a channel
/// makes.
pub open spec fn channels_ok(channels: Seq<channel_t>, usefulness: Seq<i32>) -> bool {
    forall|c: int|
        0 <= c < channels.len() ==> (#[trigger] channels[c].sfx matches Some(s) ==> s
            < usefulness.len() && usefulness[s as int] > i32::MIN)
}

/// Frees channel `cnum`: where it plays an effect, that effect's usefulness
/// drops by one and the handle of the sound is given back for the device to
/// stop; a free channel stays as it is.
pub fn S_StopChannel(channels: &mut Vec<channel_t>, usefulness: &mut Vec<i32>, cnum: usize) -> (r:
    Option<i32>)
    requires
        cnum < old(channels).len(),
        channels_ok(old(channels)@, old(usefulness)@),
    ensures
        match old(channels)@[cnum as int].sfx {
            Some(s) => {
                &&& r == Some(old(channels)@[cnum as int].handle)
                &&& final(channels)@ == old(channels)@.update(
                    cnum as int,
                    channel_t { sfx: None, ..old(channels)@[cnum as int] },
                )
                &&& final(usefulness)@ == old(usefulness)@.update(
                    s as int,
                    (old(usefulness)@[s as int] - 1) as i32,
                )
            },
            None => {
                &&& r is None
                &&& final(channels)@ == old(channels)@
                &&& final(usefulness)@ == old(usefulness)@
            },
        },
{
    let c = channels[cnum];
    match c.sfx {
        Some(s) => {
            let u = usefulness[s];
            usefulness.set(s, u - 1);
            channels.set(cnum, channel_t { sfx: None, ..c });
            Some(c.handle)
        },
        None => None,
    }
}

/// The first channel that plays an effect for `origin`, if any.
pub open spec fn first_for_origin(channels: Seq<channel_t>, origin: Option<usize>, i: int) -> int
    decreases channels.len() - i,
{
    if i < 0 || i >= channels.len() {
        -1
    } else if channels[i].sfx is Some && channels[i].origin == origin {
        i
    } else {
        first_for_origin(channels, origin, i + 1)
    }
}

/// Stops the sound that `origin` makes: the first channel playing an effect
/// for it is freed (see `S_StopChannel`); nothing where there is none.
pub fn S_StopSound(channels: &mut Vec<channel_t>, usefulness: &mut Vec<i32>, origin: Option<usize>) -> (r:
    Option<i32>)
    requires
        channels_ok(old(channels)@, old(usefulness)@),
    ensures
        ({
            let k = first_for_origin(old(channels)@, origin, 0);
            if k < 0 {
                &&& r is None
                &&& final(channels)@ == old(channels)@
                &&& final(usefulness)@ == old(usefulness)@
            } else {
                let s = old(channels)@[k].sfx->0;
                &&& 0 <= k < old(channels).len()
                &&& r == Some(old(channels)@[k].handle)
                &&& final(channels)@ == old(channels)@.update(
                    k,
                    channel_t { sfx: None, ..old(channels)@[k] },
                )
                &&& final(usefulness)@ == old(usefulness)@.update(
                    s as int,
                    (old(usefulness)@[s as int] - 1) as i32,
                )
            }
        }),
{
    let mut cnum: usize = 0;
    while cnum < channels.len()
        invariant
            cnum <= channels.len(),
            *channels == *old(channels),
            *usefulness == *old(usefulness),
            channels_ok(channels@, usefulness@),
            first_for_origin(channels@, origin, 0) == first_for_origin(channels@, origin, cnum as int),
        decreases channels.len() - cnum,
    {
        if channels[cnum].sfx.is_some() && channels[cnum].origin == origin {
            return S_StopChannel(channels, usefulness, cnum);
        }
        cnum += 1;
    }
    None
}

/// The first channel from `i` on that is free or, for a sound with a place,
/// plays a sound from the same place; -1 where there is none.
pub open spec fn first_open(channels: Seq<channel_t>, origin: Option<usize>, i: int) -> int
    decreases channels.len() - i,
{
    if i < 0 || i >= channels.len() {
        -1
    } else if channels[i].sfx is None || (origin is Some && channels[i].origin == origin) {
        i
    } else {
        first_open(channels, origin, i + 1)
    }
}

proof fn lemma_first_open_range(channels: Seq<channel_t>, origin: Option<usize>, i: int)
    requires
        0 <= i,
    ensures
        first_open(channels, origin, i) == -1 || i <= first_open(channels, origin, i)
            < channels.len(),
    decreases channels.len() - i,
{
    if i < channels.len() {
        lemma_first_open_range(channels, origin, i + 1);
    }
}

/// The first channel that is free or plays a sound from `origin` (see
/// `first_open`).
fn find_open(channels: &Vec<channel_t>, origin: Option<usize>) -> (r: Option<usize>)
    ensures
        r == if first_open(channels@, origin, 0) >= 0 {
            Some(first_open(channels@, origin, 0) as usize)
        } else {
            None
        },
{
    proof {
        lemma_first_open_range(channels@, origin, 0);
    }
    let mut i: usize = 0;
    while i < channels.len()
        invariant
            i <= channels.len(),
            first_open(channels@, origin, 0) == first_open(channels@, origin, i as int),
        decreases channels.len() - i,
    {
        if channels[i].sfx.is_none() || (origin.is_some() && channels[i].origin == origin) {
            return Some(i);
        }
        i += 1;
    }
    None
}

/// The first channel from `i` on whose sound is worth no more than a sound
/// of priority `p` (its priority value is `p` or more; a greater value is a
/// less important sound); -1 where there is none.
pub open spec fn first_lower(channels: Seq<channel_t>, priorities: Seq<i32>, p: i32, i: int) -> int
    decreases channels.len() - i,
{
    if i < 0 || i >= channels.len() {
        -1
    } else if priorities[channels[i].sfx->0 as int] >= p {
        i
    } else {
        first_lower(channels, priorities, p, i + 1)
    }
}

proof fn lemma_first_lower_range(channels: Seq<channel_t>, priorities: Seq<i32>, p: i32, i: int)
    requires
        0 <= i,
    ensures
        first_lower(channels, priorities, p, i) == -1 || i <= first_lower(channels, priorities, p, i)
            < channels.len(),
    decreases channels.len() - i,
{
    if i < channels.len() {
        lemma_first_lower_range(channels, priorities, p, i + 1);
    }
}

/// Every channel that plays an effect plays one that `priorities` knows.
pub open spec fn channels_known(channels: Seq<channel_t>, n: int) -> bool {
    forall|c: int| 0 <= c < channels.len() ==> (#[trigger] channels[c].sfx matches Some(s) ==> s < n)
}

/// The first channel whose sound is worth no more than effect `sfx` (see
/// `first_lower`), where every channel is busy.
fn find_lower(channels: &Vec<channel_t>, priorities: &Vec<i32>, sfx: usize) -> (r: Option<usize>)
    requires
        sfx < priorities.len(),
        channels_known(channels@, priorities.len() as int),
        first_open(channels@, None, 0) == -1,
    ensures
        r == if first_lower(channels@, priorities@, priorities@[sfx as int], 0) >= 0 {
            Some(first_lower(channels@, priorities@, priorities@[sfx as int], 0) as usize)
        } else {
            None
        },
{
    let p = priorities[sfx];
    proof {
        lemma_first_lower_range(channels@, priorities@, p, 0);
    }
    let mut i: usize = 0;
    while i < channels.len()
        invariant
            i <= channels.len(),
            sfx < priorities.len(),
            p == priorities@[sfx as int],
            channels_known(channels@, priorities.len() as int),
            first_open(channels@, None, 0) == first_open(channels@, None, i as int),
            first_open(channels@, None, 0) == -1,
            first_lower(channels@, priorities@, p, 0) == first_lower(channels@, priorities@, p, i as int),
        decreases channels.len() - i,
    {
        assert(channels@[i as int].sfx is Some);
        let s = match channels[i].sfx {
            Some(s) => s,
            None => 0,
        };
        if priorities[s] >= p {
            return Some(i);
        }
        i += 1;
    }
    None
}

/// The channel that a new sound of effect `sfx` takes: the first free one
/// or, for a sound with a place, the first playing a sound from the same
/// place; where there is none, the first whose sound is worth no more than
/// the new one; -1 where every channel plays a more important sound.
pub open spec fn chosen_channel(
    channels: Seq<channel_t>,
    priorities: Seq<i32>,
    origin: Option<usize>,
    sfx: usize,
) -> int {
    let k = first_open(channels, origin, 0);
    if k >= 0 {
        k
    } else {
        first_lower(channels, priorities, priorities[sfx as int], 0)
    }
}

/// Finds a channel for effect `sfx` from `origin` (see `chosen_channel`),
/// stops what it plays and gives it the effect and the origin; returns the
/// channel, and the handle of a sound that was stopped to make room. Where
/// no channel can be had the result is -1 and nothing changes.
pub fn S_getChannel(
    channels: &mut Vec<channel_t>,
    usefulness: &mut Vec<i32>,
    priorities: &Vec<i32>,
    origin: Option<usize>,
    sfx: usize,
) -> (r: (isize, Option<i32>))
    requires
        channels_ok(old(channels)@, old(usefulness)@),
        channels_known(old(channels)@, priorities.len() as int),
        sfx < priorities.len(),
        old(channels).len() <= isize::MAX,
    ensures
        ({
            let k = chosen_channel(old(channels)@, priorities@, origin, sfx);
            let stops = old(channels)@[k].sfx is Some;
            let s = old(channels)@[k].sfx->0;
            if k < 0 {
                &&& r == (-1isize, None::<i32>)
                &&& final(channels)@ == old(channels)@
                &&& final(usefulness)@ == old(usefulness)@
            } else {
                &&& r.0 == k
                &&& k < old(channels).len()
                &&& r.1 == if stops {
                    Some(old(channels)@[k].handle)
                } else {
                    None
                }
                &&& final(channels)@ == old(channels)@.update(
                    k,
                    channel_t { sfx: Some(sfx), origin, handle: old(channels)@[k].handle },
                )
                &&& final(usefulness)@ == if stops {
                    old(usefulness)@.update(s as int, (old(usefulness)@[s as int] - 1) as i32)
                } else {
                    old(usefulness)@
                }
            }
        }),
{
    proof {
        lemma_first_open_range(channels@, origin, 0);
        lemma_first_open_range(channels@, None, 0);
        lemma_first_lower_range(channels@, priorities@, priorities@[sfx as int], 0);
    }
    let cnum = match find_open(channels, origin) {
        Some(k) => k,
        None => {
            proof {
                lemma_no_open_none(channels@, origin, 0);
            }
            match find_lower(channels, priorities, sfx) {
                Some(k) => k,
                None => {
                    return (-1, None);
                },
            }
        },
    };
    let mut stopped: Option<i32> = None;
    if channels[cnum].sfx.is_some() {
        stopped = S_StopChannel(channels, usefulness, cnum);
    }
    let c = channels[cnum];
    channels.set(cnum, channel_t { sfx: Some(sfx), origin, handle: c.handle });
    (cnum as isize, stopped)
}

/// Where no channel is free or shares the origin, none is free.
proof fn lemma_no_open_none(channels: Seq<channel_t>, origin: Option<usize>, i: int)
    requires
        0 <= i,
        first_open(channels, origin, i) == -1,
    ensures
        first_open(channels, None, i) == -1,
    decreases channels.len() - i,
{
    if i < channels.len() {
        lemma_no_open_none(channels, origin, i + 1);
    }
}

/// Sets the volume of sound effects, 0 to 127; `false`, which stops the
/// game, for any other volume.
pub fn S_SetSfxVolume(snd_SfxVolume: &mut i32, volume: i32) -> (r: bool)
    ensures
        r == (0 <= volume <= 127),
        *final(snd_SfxVolume) == if r {
            volume
        } else {
            *old(snd_SfxVolume)
        },
{
    if volume < 0 || volume > 127 {
        return false;
    }
    *snd_SfxVolume = volume;
    true
}

/// Sets the volume of music, 0 to 127; `false`, which stops the game, for
/// any other volume. The device is told the new volume by the caller.
pub fn S_SetMusicVolume(snd_MusicVolume: &mut i32, volume: i32) -> (r: bool)
    ensures
        r == (0 <= volume <= 127),
        *final(snd_MusicVolume) == if r {
            volume
        } else {
            *old(snd_MusicVolume)
        },
{
    if volume < 0 || volume > 127 {
        return false;
    }
    *snd_MusicVolume = volume;
    true
}

/// Where the sound from `origin` is clipped out by distance (except on the
/// boss maps, numbered 8).
pub const S_CLIPPING_DIST: i32 = 1200 * 0x10000;

/// Within this distance a sound plays at full volume.
pub const S_CLOSE_DIST: i32 = 160 * 0x10000;

/// The distance over which a sound fades, in map units.
pub const S_ATTENUATOR: i32 = 1040;

/// How far a sound swings from the middle to one side.
pub const S_STEREO_SWING: i32 = 96 * 0x10000;

/// The stereo separation of a sound from straight ahead.
pub const NORM_SEP: i32 = 128;

/// Division rounding towards zero, as the machine divides.
pub open spec fn tdiv(a: int, b: int) -> int {
    if a >= 0 {
        a / b
    } else {
        -((-a) / b)
    }
}

/// The stereo separation of a sound that comes from angle `angle_to` (seen
/// from the listener) to a listener facing `angle`: 128 less the sound's
/// swing to the side, by the sine of the angle between them in the table
/// `finesine` (8192 steps to a turn).
pub open spec fn sound_sep(angle_to: u32, angle: u32, finesine: Seq<i32>) -> int {
    let a: int = if angle_to > angle {
        angle_to - angle
    } else {
        angle_to + (0xffffffffu32 - angle)
    };
    128 - fmul(S_STEREO_SWING as int, finesine[a / 524288] as int) / 65536
}

/// The volume of a sound at distance `dist` when the sound effects are at
/// `sfxvol`: full within the close distance; else fading with the distance
/// to nothing at the clipping distance, or, on the boss maps, to 15 at it
/// and beyond.
pub open spec fn sound_vol(dist: int, gamemap: i32, sfxvol: i32) -> int {
    if dist < S_CLOSE_DIST {
        sfxvol as int
    } else if gamemap == 8 {
        let d = if dist > S_CLIPPING_DIST {
            S_CLIPPING_DIST as int
        } else {
            dist
        };
        15 + tdiv((sfxvol - 15) * ((S_CLIPPING_DIST - d) / 65536), S_ATTENUATOR as int)
    } else {
        tdiv(sfxvol * ((S_CLIPPING_DIST - dist) / 65536), S_ATTENUATOR as int)
    }
}

/// How a sound from (sx, sy) is heard by a listener at (lx, ly) facing
/// `angle`, the sound coming from angle `angle_to`: outside the boss maps a
/// sound beyond the clipping distance is not heard (`false`, volume and
/// separation left as they are); otherwise the volume (see `sound_vol`) and
/// separation (see `sound_sep`) are set, and the sound is heard where its
/// volume is above 0.
pub fn S_AdjustSoundParams(
    lx: fixed_t,
    ly: fixed_t,
    angle: u32,
    sx: fixed_t,
    sy: fixed_t,
    angle_to: u32,
    gamemap: i32,
    snd_SfxVolume: i32,
    finesine: &Vec<fixed_t>,
    vol: &mut i32,
    sep: &mut i32,
) -> (r: bool)
    requires
        distance_fits(lx - sx, ly - sy),
        finesine.len() >= 8192,
        fits_i32((snd_SfxVolume - 15) * 1200),
        fits_i32(snd_SfxVolume * 1200),
    ensures
        ({
            let dist = aprox_distance(lx - sx, ly - sy);
            if gamemap != 8 && dist > S_CLIPPING_DIST {
                &&& !r
                &&& *final(vol) == *old(vol)
                &&& *final(sep) == *old(sep)
            } else {
                &&& *final(sep) == sound_sep(angle_to, angle, finesine@)
                &&& *final(vol) == sound_vol(dist, gamemap, snd_SfxVolume)
                &&& r == (*final(vol) > 0)
            }
        }),
{
    let mut approx_dist = P_AproxDistance(lx - sx, ly - sy);
    if gamemap != 8 && approx_dist > S_CLIPPING_DIST {
        return false;
    }
    let mut a: u32 = angle_to;
    if a > angle {
        a = a - angle;
    } else {
        a = a + (0xffffffffu32 - angle);
    }
    assert(a >> 19u32 == a / 524288) by (bit_vector);
    let idx = (a >> 19u32) as usize;
    let m = FixedMul(S_STEREO_SWING, finesine[idx]);
    assert(m >> 16u32 == m / 65536) by (bit_vector);
    *sep = 128 - (m >> 16u32);
    if approx_dist < S_CLOSE_DIST {
        *vol = snd_SfxVolume;
    } else if gamemap == 8 {
        if approx_dist > S_CLIPPING_DIST {
            approx_dist = S_CLIPPING_DIST;
        }
        let span = S_CLIPPING_DIST - approx_dist;
        assert(span >> 16u32 == span / 65536) by (bit_vector);
        let units = span >> 16u32;
        assert(fits_i32((snd_SfxVolume - 15) * units)) by (nonlinear_arith)
            requires
                0 <= units <= 1200,
                fits_i32((snd_SfxVolume - 15) * 1200),
        ;
        *vol = 15 + ((snd_SfxVolume - 15) * units) / S_ATTENUATOR;
    } else {
        let span = S_CLIPPING_DIST - approx_dist;
        assert(span >> 16u32 == span / 65536) by (bit_vector);
        let units = span >> 16u32;
        assert(fits_i32(snd_SfxVolume * units)) by (nonlinear_arith)
            requires
                0 <= units <= 1200,
                fits_i32(snd_SfxVolume * 1200),
        ;
        *vol = (snd_SfxVolume * units) / S_ATTENUATOR;
    }
    *vol > 0
}

} // verus!
