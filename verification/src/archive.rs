//! Saving and loading the moving and lighting specials of a level as a
//! stream of 32-bit words: each special is a record of twelve words (its
//! kind, then its fields in order, then zeros), and a record whose kind is
//! `END_SPECIALS` closes the stream. Kinds of movers and their states are
//! written as their place in the list of kinds, flags as 0 or 1.

use vstd::prelude::*;

use crate::ceilings::ceiling_t;
use crate::doors::vldoor_t;
use crate::floors::{floor_e, floormove_t};
use crate::lights::{glow_t, lightflash_t, strobe_t};
use crate::movers::{ceiling_e, plat_e, plattype_e, vldoor_e};
use crate::plats::plat_t;

verus! {

/// A special working on the level: a mover or a light effect.
#[derive(Debug, Clone, Copy)]
pub enum Special {
    Ceiling(ceiling_t),
    Door(vldoor_t),
    Floor(floormove_t),
    Plat(plat_t),
    Flash(lightflash_t),
    Strobe(strobe_t),
    Glow(glow_t),
}

/// The kind word that closes the stream.
pub const END_SPECIALS: i32 = 7;

/// Words in the record of one special.
pub const SPECIAL_WORDS: usize = 12;

/// The word for a flag.
pub open spec fn flag_word(b: bool) -> i32 {
    if b { 1 } else { 0 }
}

/// A special can be written: its sector number and the door's wait times
/// fit in a word.
pub open spec fn special_ok(s: Special) -> bool {
    match s {
        Special::Ceiling(c) => c.sector <= i32::MAX,
        Special::Door(d) => d.sector <= i32::MAX && d.topwait <= i32::MAX && d.topcountdown <= i32::MAX,
        Special::Floor(f) => f.sector <= i32::MAX,
        Special::Plat(p) => p.sector <= i32::MAX,
        Special::Flash(l) => l.sector <= i32::MAX,
        Special::Strobe(l) => l.sector <= i32::MAX,
        Special::Glow(g) => g.sector <= i32::MAX,
    }
}

/// Every special of the list can be written.
pub open spec fn specials_ok(s: Seq<Special>) -> bool {
    forall|i: int| 0 <= i < s.len() ==> #[trigger] special_ok(s[i])
}

/// The record of one special.
pub open spec fn special_words(s: Special) -> Seq<i32> {
    match s {
        Special::Ceiling(c) => seq![
            0i32, ceiling_e_code(c.ty), c.sector as i32, c.bottomheight, c.topheight, c.speed,
            flag_word(c.crush), c.direction, c.tag, c.olddirection, 0i32, 0i32,
        ],
        Special::Door(d) => seq![
            1i32, vldoor_e_code(d.ty), d.sector as i32, d.topheight, d.speed, d.direction,
            d.topwait as i32, d.topcountdown as i32, 0i32, 0i32, 0i32, 0i32,
        ],
        Special::Floor(f) => seq![
            2i32, floor_e_code(f.ty), flag_word(f.crush), f.sector as i32, f.direction,
            f.newspecial as i32, f.texture as i32, f.floordestheight, f.speed, 0i32, 0i32, 0i32,
        ],
        Special::Plat(p) => seq![
            3i32, plattype_e_code(p.ty), p.sector as i32, p.speed, p.low, p.high, p.wait, p.count,
            plat_e_code(p.status), plat_e_code(p.oldstatus), flag_word(p.crush), p.tag,
        ],
        Special::Flash(l) => seq![
            4i32, l.sector as i32, l.count, l.maxlight, l.minlight, l.maxtime, l.mintime, 0i32, 0i32,
            0i32, 0i32, 0i32,
        ],
        Special::Strobe(l) => seq![
            5i32, l.sector as i32, l.count, l.minlight, l.maxlight, l.darktime, l.brighttime, 0i32,
            0i32, 0i32, 0i32, 0i32,
        ],
        Special::Glow(g) => seq![
            6i32, g.sector as i32, g.minlight, g.maxlight, g.direction, 0i32, 0i32, 0i32, 0i32, 0i32,
            0i32, 0i32,
        ],
    }
}

/// A flag word is 0 or 1.
pub open spec fn is_flag(w: i32) -> bool {
    w == 0 || w == 1
}

/// The special that a twelve-word record stands for, if any: its kind word
/// is one of the seven kinds, its kind codes are known, its sector number
/// is not negative, its flags are 0 or 1, a door's wait times are not
/// negative and a floor's new special and texture fit in 16 bits.
pub open spec fn special_of(w: Seq<i32>) -> Option<Special> {
    if w[0] == 0 {
        match ceiling_e_of(w[1]) {
            Some(ty) => if w[2] >= 0 && is_flag(w[6]) {
                Some(Special::Ceiling(ceiling_t {
                    ty,
                    sector: w[2] as usize,
                    bottomheight: w[3],
                    topheight: w[4],
                    speed: w[5],
                    crush: w[6] == 1,
                    direction: w[7],
                    tag: w[8],
                    olddirection: w[9],
                }))
            } else {
                None
            },
            None => None,
        }
    } else if w[0] == 1 {
        match vldoor_e_of(w[1]) {
            Some(ty) => if w[2] >= 0 && w[6] >= 0 && w[7] >= 0 {
                Some(Special::Door(vldoor_t {
                    ty,
                    sector: w[2] as usize,
                    topheight: w[3],
                    speed: w[4],
                    direction: w[5],
                    topwait: w[6] as u32,
                    topcountdown: w[7] as u32,
                }))
            } else {
                None
            },
            None => None,
        }
    } else if w[0] == 2 {
        match floor_e_of(w[1]) {
            Some(ty) => if is_flag(w[2]) && w[3] >= 0 && i16::MIN <= w[5] <= i16::MAX && i16::MIN <= w[6] <= i16::MAX {
                Some(Special::Floor(floormove_t {
                    ty,
                    crush: w[2] == 1,
                    sector: w[3] as usize,
                    direction: w[4],
                    newspecial: w[5] as i16,
                    texture: w[6] as i16,
                    floordestheight: w[7],
                    speed: w[8],
                }))
            } else {
                None
            },
            None => None,
        }
    } else if w[0] == 3 {
        match (plattype_e_of(w[1]), plat_e_of(w[8]), plat_e_of(w[9])) {
            (Some(ty), Some(status), Some(oldstatus)) => if w[2] >= 0 && is_flag(w[10]) {
                Some(Special::Plat(plat_t {
                    ty,
                    sector: w[2] as usize,
                    speed: w[3],
                    low: w[4],
                    high: w[5],
                    wait: w[6],
                    count: w[7],
                    status,
                    oldstatus,
                    crush: w[10] == 1,
                    tag: w[11],
                }))
            } else {
                None
            },
            _ => None,
        }
    } else if w[0] == 4 && w[1] >= 0 {
        Some(Special::Flash(lightflash_t {
            sector: w[1] as usize,
            count: w[2],
            maxlight: w[3],
            minlight: w[4],
            maxtime: w[5],
            mintime: w[6],
        }))
    } else if w[0] == 5 && w[1] >= 0 {
        Some(Special::Strobe(strobe_t {
            sector: w[1] as usize,
            count: w[2],
            minlight: w[3],
            maxlight: w[4],
            darktime: w[5],
            brighttime: w[6],
        }))
    } else if w[0] == 6 && w[1] >= 0 {
        Some(Special::Glow(glow_t { sector: w[1] as usize, minlight: w[2], maxlight: w[3], direction: w[4] }))
    } else {
        None
    }
}

/// The stream for a list of specials: their records in order, then the
/// closing record.
pub open spec fn archive_specials(s: Seq<Special>) -> Seq<i32> {
    Seq::new(
        (12 * s.len() + 12) as nat,
        |k: int| if k < 12 * s.len() {
            special_words(s[k / 12])[k % 12]
        } else if k == 12 * s.len() {
            END_SPECIALS
        } else {
            0i32
        },
    )
}

/// The specials read from record `i` of a stream on: `None` where the
/// stream ends before its closing record or a record stands for no special.
pub open spec fn unarchive_from(w: Seq<i32>, i: int) -> Option<Seq<Special>>
    decreases w.len() - 12 * i,
{
    if i < 0 || 12 * i + 12 > w.len() {
        None
    } else if w[12 * i] == END_SPECIALS {
        Some(Seq::empty())
    } else {
        match special_of(w.subrange(12 * i, 12 * i + 12)) {
            Some(s) => match unarchive_from(w, i + 1) {
                Some(r) => Some(seq![s] + r),
                None => None,
            },
            None => None,
        }
    }
}

/// The specials a stream holds (see `unarchive_from`).
pub open spec fn unarchive_specials(w: Seq<i32>) -> Option<Seq<Special>> {
    unarchive_from(w, 0)
}

/// The word that stands for a `ceiling_e`: its place in the list of kinds.
pub open spec fn ceiling_e_code(x: ceiling_e) -> i32 {
    match x {
        ceiling_e::lowerToFloor => 0,
        ceiling_e::raiseToHighest => 1,
        ceiling_e::lowerAndCrush => 2,
        ceiling_e::crushAndRaise => 3,
        ceiling_e::fastCrushAndRaise => 4,
        ceiling_e::silentCrushAndRaise => 5,
    }
}

/// The `ceiling_e` that a word stands for, if any.
pub open spec fn ceiling_e_of(w: i32) -> Option<ceiling_e> {
    match w {
        0 => Some(ceiling_e::lowerToFloor),
        1 => Some(ceiling_e::raiseToHighest),
        2 => Some(ceiling_e::lowerAndCrush),
        3 => Some(ceiling_e::crushAndRaise),
        4 => Some(ceiling_e::fastCrushAndRaise),
        5 => Some(ceiling_e::silentCrushAndRaise),
        _ => None,
    }
}

fn enc_ceiling_e(x: ceiling_e) -> (r: i32)
    ensures
        r == ceiling_e_code(x),
{
    match x {
        ceiling_e::lowerToFloor => 0,
        ceiling_e::raiseToHighest => 1,
        ceiling_e::lowerAndCrush => 2,
        ceiling_e::crushAndRaise => 3,
        ceiling_e::fastCrushAndRaise => 4,
        ceiling_e::silentCrushAndRaise => 5,
    }
}

fn dec_ceiling_e(w: i32) -> (r: Option<ceiling_e>)
    ensures
        r == ceiling_e_of(w),
{
    match w {
        0 => Some(ceiling_e::lowerToFloor),
        1 => Some(ceiling_e::raiseToHighest),
        2 => Some(ceiling_e::lowerAndCrush),
        3 => Some(ceiling_e::crushAndRaise),
        4 => Some(ceiling_e::fastCrushAndRaise),
        5 => Some(ceiling_e::silentCrushAndRaise),
        _ => None,
    }
}

/// The word that stands for a `vldoor_e`: its place in the list of kinds.
pub open spec fn vldoor_e_code(x: vldoor_e) -> i32 {
    match x {
        vldoor_e::normal => 0,
        vldoor_e::close30ThenOpen => 1,
        vldoor_e::close => 2,
        vldoor_e::open => 3,
        vldoor_e::raiseIn5Mins => 4,
        vldoor_e::blazeRaise => 5,
        vldoor_e::blazeOpen => 6,
        vldoor_e::blazeClose => 7,
    }
}

/// The `vldoor_e` that a word stands for, if any.
pub open spec fn vldoor_e_of(w: i32) -> Option<vldoor_e> {
    match w {
        0 => Some(vldoor_e::normal),
        1 => Some(vldoor_e::close30ThenOpen),
        2 => Some(vldoor_e::close),
        3 => Some(vldoor_e::open),
        4 => Some(vldoor_e::raiseIn5Mins),
        5 => Some(vldoor_e::blazeRaise),
        6 => Some(vldoor_e::blazeOpen),
        7 => Some(vldoor_e::blazeClose),
        _ => None,
    }
}

fn enc_vldoor_e(x: vldoor_e) -> (r: i32)
    ensures
        r == vldoor_e_code(x),
{
    match x {
        vldoor_e::normal => 0,
        vldoor_e::close30ThenOpen => 1,
        vldoor_e::close => 2,
        vldoor_e::open => 3,
        vldoor_e::raiseIn5Mins => 4,
        vldoor_e::blazeRaise => 5,
        vldoor_e::blazeOpen => 6,
        vldoor_e::blazeClose => 7,
    }
}

fn dec_vldoor_e(w: i32) -> (r: Option<vldoor_e>)
    ensures
        r == vldoor_e_of(w),
{
    match w {
        0 => Some(vldoor_e::normal),
        1 => Some(vldoor_e::close30ThenOpen),
        2 => Some(vldoor_e::close),
        3 => Some(vldoor_e::open),
        4 => Some(vldoor_e::raiseIn5Mins),
        5 => Some(vldoor_e::blazeRaise),
        6 => Some(vldoor_e::blazeOpen),
        7 => Some(vldoor_e::blazeClose),
        _ => None,
    }
}

/// The word that stands for a `floor_e`: its place in the list of kinds.
pub open spec fn floor_e_code(x: floor_e) -> i32 {
    match x {
        floor_e::lowerFloor => 0,
        floor_e::lowerFloorToLowest => 1,
        floor_e::turboLower => 2,
        floor_e::raiseFloor => 3,
        floor_e::raiseFloorToNearest => 4,
        floor_e::raiseToTexture => 5,
        floor_e::lowerAndChange => 6,
        floor_e::raiseFloor24 => 7,
        floor_e::raiseFloor24AndChange => 8,
        floor_e::raiseFloorCrush => 9,
        floor_e::raiseFloorTurbo => 10,
        floor_e::donutRaise => 11,
        floor_e::raiseFloor512 => 12,
    }
}

/// The `floor_e` that a word stands for, if any.
pub open spec fn floor_e_of(w: i32) -> Option<floor_e> {
    match w {
        0 => Some(floor_e::lowerFloor),
        1 => Some(floor_e::lowerFloorToLowest),
        2 => Some(floor_e::turboLower),
        3 => Some(floor_e::raiseFloor),
        4 => Some(floor_e::raiseFloorToNearest),
        5 => Some(floor_e::raiseToTexture),
        6 => Some(floor_e::lowerAndChange),
        7 => Some(floor_e::raiseFloor24),
        8 => Some(floor_e::raiseFloor24AndChange),
        9 => Some(floor_e::raiseFloorCrush),
        10 => Some(floor_e::raiseFloorTurbo),
        11 => Some(floor_e::donutRaise),
        12 => Some(floor_e::raiseFloor512),
        _ => None,
    }
}

fn enc_floor_e(x: floor_e) -> (r: i32)
    ensures
        r == floor_e_code(x),
{
    match x {
        floor_e::lowerFloor => 0,
        floor_e::lowerFloorToLowest => 1,
        floor_e::turboLower => 2,
        floor_e::raiseFloor => 3,
        floor_e::raiseFloorToNearest => 4,
        floor_e::raiseToTexture => 5,
        floor_e::lowerAndChange => 6,
        floor_e::raiseFloor24 => 7,
        floor_e::raiseFloor24AndChange => 8,
        floor_e::raiseFloorCrush => 9,
        floor_e::raiseFloorTurbo => 10,
        floor_e::donutRaise => 11,
        floor_e::raiseFloor512 => 12,
    }
}

fn dec_floor_e(w: i32) -> (r: Option<floor_e>)
    ensures
        r == floor_e_of(w),
{
    match w {
        0 => Some(floor_e::lowerFloor),
        1 => Some(floor_e::lowerFloorToLowest),
        2 => Some(floor_e::turboLower),
        3 => Some(floor_e::raiseFloor),
        4 => Some(floor_e::raiseFloorToNearest),
        5 => Some(floor_e::raiseToTexture),
        6 => Some(floor_e::lowerAndChange),
        7 => Some(floor_e::raiseFloor24),
        8 => Some(floor_e::raiseFloor24AndChange),
        9 => Some(floor_e::raiseFloorCrush),
        10 => Some(floor_e::raiseFloorTurbo),
        11 => Some(floor_e::donutRaise),
        12 => Some(floor_e::raiseFloor512),
        _ => None,
    }
}

/// The word that stands for a `plattype_e`: its place in the list of kinds.
pub open spec fn plattype_e_code(x: plattype_e) -> i32 {
    match x {
        plattype_e::perpetualRaise => 0,
        plattype_e::downWaitUpStay => 1,
        plattype_e::raiseAndChange => 2,
        plattype_e::raiseToNearestAndChange => 3,
        plattype_e::blazeDWUS => 4,
    }
}

/// The `plattype_e` that a word stands for, if any.
pub open spec fn plattype_e_of(w: i32) -> Option<plattype_e> {
    match w {
        0 => Some(plattype_e::perpetualRaise),
        1 => Some(plattype_e::downWaitUpStay),
        2 => Some(plattype_e::raiseAndChange),
        3 => Some(plattype_e::raiseToNearestAndChange),
        4 => Some(plattype_e::blazeDWUS),
        _ => None,
    }
}

fn enc_plattype_e(x: plattype_e) -> (r: i32)
    ensures
        r == plattype_e_code(x),
{
    match x {
        plattype_e::perpetualRaise => 0,
        plattype_e::downWaitUpStay => 1,
        plattype_e::raiseAndChange => 2,
        plattype_e::raiseToNearestAndChange => 3,
        plattype_e::blazeDWUS => 4,
    }
}

fn dec_plattype_e(w: i32) -> (r: Option<plattype_e>)
    ensures
        r == plattype_e_of(w),
{
    match w {
        0 => Some(plattype_e::perpetualRaise),
        1 => Some(plattype_e::downWaitUpStay),
        2 => Some(plattype_e::raiseAndChange),
        3 => Some(plattype_e::raiseToNearestAndChange),
        4 => Some(plattype_e::blazeDWUS),
        _ => None,
    }
}

/// The word that stands for a `plat_e`: its place in the list of kinds.
pub open spec fn plat_e_code(x: plat_e) -> i32 {
    match x {
        plat_e::up => 0,
        plat_e::down => 1,
        plat_e::waiting => 2,
        plat_e::in_stasis => 3,
    }
}

/// The `plat_e` that a word stands for, if any.
pub open spec fn plat_e_of(w: i32) -> Option<plat_e> {
    match w {
        0 => Some(plat_e::up),
        1 => Some(plat_e::down),
        2 => Some(plat_e::waiting),
        3 => Some(plat_e::in_stasis),
        _ => None,
    }
}

fn enc_plat_e(x: plat_e) -> (r: i32)
    ensures
        r == plat_e_code(x),
{
    match x {
        plat_e::up => 0,
        plat_e::down => 1,
        plat_e::waiting => 2,
        plat_e::in_stasis => 3,
    }
}

fn dec_plat_e(w: i32) -> (r: Option<plat_e>)
    ensures
        r == plat_e_of(w),
{
    match w {
        0 => Some(plat_e::up),
        1 => Some(plat_e::down),
        2 => Some(plat_e::waiting),
        3 => Some(plat_e::in_stasis),
        _ => None,
    }
}

proof fn lemma_div12(i: int, j: int)
    requires
        0 <= i,
        0 <= j < 12,
    ensures
        (12 * i + j) / 12 == i,
        (12 * i + j) % 12 == j,
{
    assert((12 * i + j) / 12 == i && (12 * i + j) % 12 == j) by (nonlinear_arith)
        requires
            0 <= i,
            0 <= j < 12,
    ;
}

/// A record read back gives the special written.
proof fn lemma_special_round(s: Special)
    requires
        special_ok(s),
    ensures
        special_of(special_words(s)) == Some(s),
{
}

/// The record of a special.
fn encode_special(s: Special) -> (r: [i32; 12])
    requires
        special_ok(s),
    ensures
        r@ == special_words(s),
{
    let r = match s {
        Special::Ceiling(c) => [
            0, enc_ceiling_e(c.ty), c.sector as i32, c.bottomheight, c.topheight, c.speed,
            if c.crush { 1 } else { 0 }, c.direction, c.tag, c.olddirection, 0, 0,
        ],
        Special::Door(d) => [
            1, enc_vldoor_e(d.ty), d.sector as i32, d.topheight, d.speed, d.direction,
            d.topwait as i32, d.topcountdown as i32, 0, 0, 0, 0,
        ],
        Special::Floor(f) => [
            2, enc_floor_e(f.ty), if f.crush { 1 } else { 0 }, f.sector as i32, f.direction,
            f.newspecial as i32, f.texture as i32, f.floordestheight, f.speed, 0, 0, 0,
        ],
        Special::Plat(p) => [
            3, enc_plattype_e(p.ty), p.sector as i32, p.speed, p.low, p.high, p.wait, p.count,
            enc_plat_e(p.status), enc_plat_e(p.oldstatus), if p.crush { 1 } else { 0 }, p.tag,
        ],
        Special::Flash(l) => [4, l.sector as i32, l.count, l.maxlight, l.minlight, l.maxtime, l.mintime, 0, 0, 0, 0, 0],
        Special::Strobe(l) => [5, l.sector as i32, l.count, l.minlight, l.maxlight, l.darktime, l.brighttime, 0, 0, 0, 0, 0],
        Special::Glow(g) => [6, g.sector as i32, g.minlight, g.maxlight, g.direction, 0, 0, 0, 0, 0, 0, 0],
    };
    assert(r@ =~= special_words(s));
    r
}

/// Writes a list of specials, in order, and closes the stream (see
/// `archive_specials`).
pub fn write_specials(specials: &Vec<Special>) -> (r: Vec<i32>)
    requires
        specials_ok(specials@),
        12 * specials.len() + 12 <= usize::MAX,
    ensures
        r@ == archive_specials(specials@),
{
    let n = specials.len();
    let mut r: Vec<i32> = Vec::new();
    let mut i: usize = 0;
    while i < n
        invariant
            i <= n,
            n == specials.len(),
            12 * n + 12 <= usize::MAX,
            specials_ok(specials@),
            r.len() == 12 * i,
            forall|k: int| 0 <= k < 12 * i ==> #[trigger] r@[k] == special_words(specials@[k / 12])[k % 12],
        decreases n - i,
    {
        let rec = encode_special(specials[i]);
        let mut j: usize = 0;
        while j < 12
            invariant
                j <= 12,
                i < n,
                n == specials.len(),
                12 * n + 12 <= usize::MAX,
                rec@ == special_words(specials@[i as int]),
                r.len() == 12 * i + j,
                forall|k: int| 0 <= k < 12 * i + j ==> #[trigger] r@[k] == special_words(specials@[k / 12])[k % 12],
            decreases 12 - j,
        {
            proof {
                lemma_div12(i as int, j as int);
            }
            r.push(rec[j]);
            j += 1;
        }
        i += 1;
    }
    r.push(END_SPECIALS);
    let mut j: usize = 1;
    while j < 12
        invariant
            1 <= j <= 12,
            n == specials.len(),
            12 * n + 12 <= usize::MAX,
            r.len() == 12 * n + j,
            r@[12 * n as int] == END_SPECIALS,
            forall|k: int| 12 * n < k < 12 * n + j ==> #[trigger] r@[k] == 0,
            forall|k: int| 0 <= k < 12 * n ==> #[trigger] r@[k] == special_words(specials@[k / 12])[k % 12],
        decreases 12 - j,
    {
        r.push(0);
        j += 1;
    }
    assert(r@ =~= archive_specials(specials@));
    r
}

/// A thinker of the level: the special it runs, and whether it runs (a
/// ceiling put in stasis, a stopped platform or a thinker being removed
/// does not).
#[derive(Debug, Clone, Copy)]
pub struct thinker_t {
    pub special: Special,
    pub active: bool,
}

/// Thinker `k` is listed in the table of active ceilings.
pub open spec fn in_ceiling_table(table: Seq<Option<usize>>, k: int) -> bool {
    exists|j: int| 0 <= j < table.len() && #[trigger] table[j] == Some(k as usize)
}

/// Thinker `k` is saved: a running one always; one that does not run only
/// where it is a ceiling of the active ceiling table (a ceiling in stasis).
pub open spec fn thinker_saved(th: Seq<thinker_t>, table: Seq<Option<usize>>, k: int) -> bool {
    th[k].active || (th[k].special is Ceiling && in_ceiling_table(table, k))
}

/// The specials of the first `n` thinkers that are saved, in order.
pub open spec fn saved_specials(th: Seq<thinker_t>, table: Seq<Option<usize>>, n: int) -> Seq<Special>
    decreases n,
{
    if n <= 0 {
        Seq::empty()
    } else if thinker_saved(th, table, n - 1) {
        saved_specials(th, table, n - 1).push(th[n - 1].special)
    } else {
        saved_specials(th, table, n - 1)
    }
}

/// Only saved thinkers are written: every special among the first `n`
/// thinkers' saved ones is that of a thinker that runs or a ceiling of the
/// active ceiling table.
pub proof fn lemma_only_saved_thinkers_written(th: Seq<thinker_t>, table: Seq<Option<usize>>, n: int)
    requires
        0 <= n,
    ensures
        saved_specials(th, table, n).len() <= n,
        forall|i: int| 0 <= i < saved_specials(th, table, n).len() ==> exists|k: int|
            0 <= k < n && thinker_saved(th, table, k) && #[trigger] saved_specials(th, table, n)[i] == th[k].special,
    decreases n,
{
    if n > 0 {
        lemma_only_saved_thinkers_written(th, table, n - 1);
        let prev = saved_specials(th, table, n - 1);
        let cur = saved_specials(th, table, n);
        assert forall|i: int| 0 <= i < cur.len() implies exists|k: int|
            0 <= k < n && thinker_saved(th, table, k) && #[trigger] cur[i] == th[k].special by {
            if i < prev.len() {
                assert(cur[i] == prev[i]);
                let k = choose|k: int| 0 <= k < n - 1 && thinker_saved(th, table, k) && prev[i] == th[k].special;
                assert(cur[i] == th[k].special);
            } else {
                assert(cur[i] == th[n - 1].special);
            }
        }
    }
}

/// Whether thinker `k` is listed in the table of active ceilings.
fn listed(table: &Vec<Option<usize>>, k: usize) -> (r: bool)
    ensures
        r == in_ceiling_table(table@, k as int),
{
    let mut j: usize = 0;
    while j < table.len()
        invariant
            j <= table.len(),
            forall|i: int| 0 <= i < j ==> table@[i] != Some(k),
        decreases table.len() - j,
    {
        if table[j] == Some(k) {
            assert(table@[j as int] == Some(k));
            return true;
        }
        j += 1;
    }
    false
}

/// Saves the specials of a level: walks the thinkers in order and writes
/// each that is saved (see `thinker_saved`: every running thinker, and the
/// ceilings in stasis that the active ceiling table lists), then closes
/// the stream.
pub fn P_ArchiveSpecials(thinkers: &Vec<thinker_t>, activeceilings: &Vec<Option<usize>>) -> (r: Vec<i32>)
    requires
        forall|k: int| 0 <= k < thinkers.len() ==> #[trigger] special_ok(thinkers@[k].special),
        12 * thinkers.len() + 12 <= usize::MAX,
    ensures
        r@ == archive_specials(saved_specials(thinkers@, activeceilings@, thinkers.len() as int)),
{
    let mut chosen: Vec<Special> = Vec::new();
    let mut k: usize = 0;
    while k < thinkers.len()
        invariant
            k <= thinkers.len(),
            chosen@ == saved_specials(thinkers@, activeceilings@, k as int),
        decreases thinkers.len() - k,
    {
        let t = thinkers[k];
        let keep = t.active || (match t.special {
            Special::Ceiling(_) => true,
            _ => false,
        } && listed(activeceilings, k));
        if keep {
            chosen.push(t.special);
        }
        k += 1;
    }
    proof {
        lemma_only_saved_thinkers_written(thinkers@, activeceilings@, thinkers.len() as int);
        assert forall|i: int| 0 <= i < chosen.len() implies #[trigger] special_ok(chosen@[i]) by {
            let k = choose|k: int| 0 <= k < thinkers.len() && chosen@[i] == thinkers@[k].special;
            assert(special_ok(thinkers@[k].special));
        }
    }
    write_specials(&chosen)
}

/// The special of the record at `at`.
fn decode_special(w: &[i32], at: usize) -> (r: Option<Special>)
    requires
        at + 12 <= w.len(),
    ensures
        r == special_of(w@.subrange(at as int, at + 12)),
{
    let ghost s = w@.subrange(at as int, at + 12);
    assert(forall|k: int| 0 <= k < 12 ==> #[trigger] s[k] == w@[at + k]);
    let k = w[at];
    if k == 0 {
        match dec_ceiling_e(w[at + 1]) {
            Some(ty) => if w[at + 2] >= 0 && (w[at + 6] == 0 || w[at + 6] == 1) {
                Some(Special::Ceiling(ceiling_t {
                    ty,
                    sector: w[at + 2] as usize,
                    bottomheight: w[at + 3],
                    topheight: w[at + 4],
                    speed: w[at + 5],
                    crush: w[at + 6] == 1,
                    direction: w[at + 7],
                    tag: w[at + 8],
                    olddirection: w[at + 9],
                }))
            } else {
                None
            },
            None => None,
        }
    } else if k == 1 {
        match dec_vldoor_e(w[at + 1]) {
            Some(ty) => if w[at + 2] >= 0 && w[at + 6] >= 0 && w[at + 7] >= 0 {
                Some(Special::Door(vldoor_t {
                    ty,
                    sector: w[at + 2] as usize,
                    topheight: w[at + 3],
                    speed: w[at + 4],
                    direction: w[at + 5],
                    topwait: w[at + 6] as u32,
                    topcountdown: w[at + 7] as u32,
                }))
            } else {
                None
            },
            None => None,
        }
    } else if k == 2 {
        match dec_floor_e(w[at + 1]) {
            Some(ty) => if (w[at + 2] == 0 || w[at + 2] == 1) && w[at + 3] >= 0 && -32768 <= w[at + 5]
                && w[at + 5] <= 32767 && -32768 <= w[at + 6] && w[at + 6] <= 32767 {
                Some(Special::Floor(floormove_t {
                    ty,
                    crush: w[at + 2] == 1,
                    sector: w[at + 3] as usize,
                    direction: w[at + 4],
                    newspecial: w[at + 5] as i16,
                    texture: w[at + 6] as i16,
                    floordestheight: w[at + 7],
                    speed: w[at + 8],
                }))
            } else {
                None
            },
            None => None,
        }
    } else if k == 3 {
        match (dec_plattype_e(w[at + 1]), dec_plat_e(w[at + 8]), dec_plat_e(w[at + 9])) {
            (Some(ty), Some(status), Some(oldstatus)) => if w[at + 2] >= 0 && (w[at + 10] == 0 || w[at + 10] == 1) {
                Some(Special::Plat(plat_t {
                    ty,
                    sector: w[at + 2] as usize,
                    speed: w[at + 3],
                    low: w[at + 4],
                    high: w[at + 5],
                    wait: w[at + 6],
                    count: w[at + 7],
                    status,
                    oldstatus,
                    crush: w[at + 10] == 1,
                    tag: w[at + 11],
                }))
            } else {
                None
            },
            _ => None,
        }
    } else if k == 4 && w[at + 1] >= 0 {
        Some(Special::Flash(lightflash_t {
            sector: w[at + 1] as usize,
            count: w[at + 2],
            maxlight: w[at + 3],
            minlight: w[at + 4],
            maxtime: w[at + 5],
            mintime: w[at + 6],
        }))
    } else if k == 5 && w[at + 1] >= 0 {
        Some(Special::Strobe(strobe_t {
            sector: w[at + 1] as usize,
            count: w[at + 2],
            minlight: w[at + 3],
            maxlight: w[at + 4],
            darktime: w[at + 5],
            brighttime: w[at + 6],
        }))
    } else if k == 6 && w[at + 1] >= 0 {
        Some(Special::Glow(glow_t { sector: w[at + 1] as usize, minlight: w[at + 2], maxlight: w[at + 3], direction: w[at + 4] }))
    } else {
        None
    }
}

/// Reads the specials of a level from a stream (see `unarchive_specials`):
/// `None` where it ends before its closing record or a record stands for
/// no special.
pub fn P_UnArchiveSpecials(w: &[i32]) -> (r: Option<Vec<Special>>)
    ensures
        match r {
            Some(v) => unarchive_specials(w@) == Some(v@),
            None => unarchive_specials(w@) is None,
        },
{
    let mut v: Vec<Special> = Vec::new();
    let mut i: usize = 0;
    loop
        invariant
            12 * i <= w.len() + 12,
            unarchive_specials(w@) == match unarchive_from(w@, i as int) {
                Some(rest) => Some(v@ + rest),
                None => None,
            },
        decreases w.len() + 12 - 12 * i,
    {
        if w.len() < 12 || i > (w.len() - 12) / 12 {
            assert(12 * i + 12 > w.len()) by (nonlinear_arith)
                requires
                    w.len() < 12 || i > (w.len() - 12) / 12,
            ;
            return None;
        }
        assert(12 * i + 12 <= w.len()) by (nonlinear_arith)
            requires
                w.len() >= 12,
                i <= (w.len() - 12) / 12,
        ;
        let at = 12 * i;
        if w[at] == END_SPECIALS {
            assert(v@ + Seq::<Special>::empty() =~= v@);
            return Some(v);
        }
        match decode_special(w, at) {
            Some(s) => {
                proof {
                    match unarchive_from(w@, i + 1) {
                        Some(rest) => {
                            assert(v@.push(s) + rest =~= v@ + (seq![s] + rest));
                        },
                        None => {},
                    }
                }
                v.push(s);
                i += 1;
            },
            None => {
                return None;
            },
        }
    }
}

proof fn lemma_unarchive_from(s: Seq<Special>, i: int)
    requires
        specials_ok(s),
        0 <= i <= s.len(),
    ensures
        unarchive_from(archive_specials(s), i) == Some(s.subrange(i, s.len() as int)),
    decreases s.len() - i,
{
    let a = archive_specials(s);
    let n = s.len() as int;
    if i == n {
        assert(s.subrange(n, n) =~= Seq::<Special>::empty());
    } else {
        assert forall|j: int| 0 <= j < 12 implies #[trigger] a.subrange(12 * i, 12 * i + 12)[j]
            == special_words(s[i])[j] by {
            lemma_div12(i, j);
        }
        assert(a.subrange(12 * i, 12 * i + 12) =~= special_words(s[i]));
        assert(special_ok(s[i]));
        lemma_special_round(s[i]);
        lemma_div12(i, 0);
        assert(a[12 * i] == special_words(s[i])[0]);
        lemma_unarchive_from(s, i + 1);
        assert(seq![s[i]] + s.subrange(i + 1, n) =~= s.subrange(i, n));
    }
}

/// Reading back what saving the specials wrote gives them back, in order.
pub proof fn lemma_specials_round_trip(s: Seq<Special>)
    requires
        specials_ok(s),
    ensures
        unarchive_specials(archive_specials(s)) == Some(s),
{
    lemma_unarchive_from(s, 0);
    assert(s.subrange(0, s.len() as int) =~= s);
}

} // verus!
