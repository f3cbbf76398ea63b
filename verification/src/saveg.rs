//! The part of a saved game that records the map: for every sector its
//! heights, flats, light, special and tag; for every line its flags,
//! special and tag, followed by the offsets and textures of each of its
//! sides. The record is a stream of 16-bit words; heights and offsets are
//! kept in whole map units.

use vstd::prelude::*;

use crate::fixed::FRACUNIT;
use crate::level::{Level, Line, Sector, Side};

verus! {

/// Whole map units of a fixed-point value: the value shifted right by the
/// fraction bits, which rounds towards negative infinity.
pub open spec fn whole_units(x: i32) -> i16 {
    (x as int / 65536) as i16
}

/// The fixed-point value of `w` whole map units.
pub open spec fn from_units(w: i16) -> i32 {
    (w as int * 65536) as i32
}

/// Words written for one sector.
pub open spec fn sector_words(s: Sector) -> Seq<i16> {
    seq![
        whole_units(s.floorheight),
        whole_units(s.ceilingheight),
        s.floorpic,
        s.ceilingpic,
        s.lightlevel,
        s.special,
        s.tag,
    ]
}

/// Words written for one side.
pub open spec fn side_words(sd: Side) -> Seq<i16> {
    seq![
        whole_units(sd.textureoffset),
        whole_units(sd.rowoffset),
        sd.toptexture,
        sd.bottomtexture,
        sd.midtexture,
    ]
}

/// Words written for the side numbered `d` of a line: none where `d` is -1.
pub open spec fn side_part(sides: Seq<Side>, d: i16) -> Seq<i16> {
    if d == -1 {
        Seq::empty()
    } else {
        side_words(sides[d as int])
    }
}

/// Number of words written for the side numbered `d` of a line.
pub open spec fn side_count(d: i16) -> int {
    if d == -1 {
        0
    } else {
        5
    }
}

/// Words written for one line: its flags, special and tag, then its front
/// and its back side.
pub open spec fn line_words(l: Line, sides: Seq<Side>) -> Seq<i16> {
    seq![l.flags, l.special, l.tag] + side_part(sides, l.sidenum[0]) + side_part(
        sides,
        l.sidenum[1],
    )
}

/// Number of words written for one line.
pub open spec fn line_len(l: Line) -> int {
    3 + side_count(l.sidenum[0]) + side_count(l.sidenum[1])
}

/// Words written for the sectors, in order.
pub open spec fn sectors_words(secs: Seq<Sector>) -> Seq<i16>
    decreases secs.len(),
{
    if secs.len() == 0 {
        Seq::empty()
    } else {
        sectors_words(secs.drop_last()) + sector_words(secs.last())
    }
}

/// Words written for the lines, in order.
pub open spec fn lines_words(lines: Seq<Line>, sides: Seq<Side>) -> Seq<i16>
    decreases lines.len(),
{
    if lines.len() == 0 {
        Seq::empty()
    } else {
        lines_words(lines.drop_last(), sides) + line_words(lines.last(), sides)
    }
}

/// Number of words written for the lines.
pub open spec fn lines_len(lines: Seq<Line>) -> int
    decreases lines.len(),
{
    if lines.len() == 0 {
        0
    } else {
        lines_len(lines.drop_last()) + line_len(lines.last())
    }
}

/// The whole record of the map: the sectors, then the lines.
pub open spec fn world_words(lv: &Level) -> Seq<i16> {
    sectors_words(lv.sectors@) + lines_words(lv.lines@, lv.sides@)
}

/// Number of words in the record of the map.
pub open spec fn world_len(lv: &Level) -> int {
    7 * lv.sectors.len() + lines_len(lv.lines@)
}

/// Every side number of every line is -1 or below `n`.
pub open spec fn sidenums_within(lines: Seq<Line>, n: int) -> bool {
    forall|l: int|
        0 <= l < lines.len() ==> {
            let sn = #[trigger] lines[l].sidenum;
            &&& (sn[0] == -1 || 0 <= sn[0] < n)
            &&& (sn[1] == -1 || 0 <= sn[1] < n)
        }
}

/// Every side number of every line is -1 or names a side of the level.
pub open spec fn side_numbers_ok(lv: &Level) -> bool {
    sidenums_within(lv.lines@, lv.sides.len() as int)
}

/// Whole map units of a fixed-point value.
fn units_of(x: i32) -> (r: i16)
    ensures
        r == whole_units(x),
{
    assert(x >> 16u32 == x / 65536 && -32768 <= x >> 16u32 <= 32767) by (bit_vector);
    (x >> 16u32) as i16
}

/// The fixed-point value of whole map units.
pub(crate) fn units_to_fixed(w: i16) -> (r: i32)
    ensures
        r == from_units(w),
{
    (w as i32) * FRACUNIT
}

proof fn lemma_take_step<T>(s: Seq<T>, i: int)
    requires
        0 <= i < s.len(),
    ensures
        s.take(i + 1).drop_last() == s.take(i),
        s.take(i + 1).last() == s[i],
{
    assert(s.take(i + 1).drop_last() =~= s.take(i));
}

/// Writes the record of one line to the end of the save stream.
fn archive_line(lv: &Level, li: &Line, save: &mut Vec<i16>)
    requires
    li.sidenum[0] == -1 || 0 <= li.sidenum[0] < lv.sides.len(),
    li.sidenum[1] == -1 || 0 <= li.sidenum[1] < lv.sides.len(),
    ensures
    final(save)@ == old(save)@ + line_words(*li, lv.sides@),
{
    let ghost before = save@;
    save.push(li.flags);
    save.push(li.special);
    save.push(li.tag);
    let ghost after_head = save@;
    let d0 = li.sidenum[0];
    if d0 != -1 {
        let sd = lv.sides[d0 as usize];
        save.push(units_of(sd.textureoffset));
        save.push(units_of(sd.rowoffset));
        save.push(sd.toptexture);
        save.push(sd.bottomtexture);
        save.push(sd.midtexture);
    }
    assert(save@ =~= after_head + side_part(lv.sides@, d0));
    let ghost after_front = save@;
    let d1 = li.sidenum[1];
    if d1 != -1 {
        let sd = lv.sides[d1 as usize];
        save.push(units_of(sd.textureoffset));
        save.push(units_of(sd.rowoffset));
        save.push(sd.toptexture);
        save.push(sd.bottomtexture);
        save.push(sd.midtexture);
    }
    assert(save@ =~= after_front + side_part(lv.sides@, d1));
    assert(save@ =~= before + line_words(*li, lv.sides@));
}

/// Writes the record of the map to the end of the save stream.
pub fn P_ArchiveWorld(lv: &Level, save: &mut Vec<i16>)
    requires
        side_numbers_ok(lv),
    ensures
        final(save)@ == old(save)@ + world_words(lv),
{
    let n = lv.sectors.len();
    let mut i: usize = 0;
    while i < n
        invariant
            i <= n,
            n == lv.sectors.len(),
            save@ == old(save)@ + sectors_words(lv.sectors@.take(i as int)),
        decreases n - i,
    {
        let sec = lv.sectors[i];
        let ghost before = save@;
        save.push(units_of(sec.floorheight));
        save.push(units_of(sec.ceilingheight));
        save.push(sec.floorpic);
        save.push(sec.ceilingpic);
        save.push(sec.lightlevel);
        save.push(sec.special);
        save.push(sec.tag);
        proof {
            lemma_take_step(lv.sectors@, i as int);
            assert(save@ =~= before + sector_words(sec));
            assert(save@ =~= old(save)@ + sectors_words(lv.sectors@.take(i + 1)));
        }
        i += 1;
    }
    assert(lv.sectors@.take(n as int) =~= lv.sectors@);
    let ghost secs_done = save@;
    let m = lv.lines.len();
    let mut k: usize = 0;
    while k < m
        invariant
            k <= m,
            m == lv.lines.len(),
            side_numbers_ok(lv),
            save@ == secs_done + lines_words(lv.lines@.take(k as int), lv.sides@),
        decreases m - k,
    {
        let li = lv.lines[k];
        let ghost before = save@;
        archive_line(lv, &li, save);
        proof {
            lemma_take_step(lv.lines@, k as int);
            assert(save@ =~= before + line_words(li, lv.sides@));
            assert(save@ =~= secs_done + lines_words(lv.lines@.take(k + 1), lv.sides@));
        }
        k += 1;
    }
    assert(lv.lines@.take(m as int) =~= lv.lines@);
    assert(save@ =~= old(save)@ + world_words(lv));
}

/// A sector as loading leaves it: the seven words at `at` give its heights,
/// flats, light, special and tag, and no mover is attached to it.
pub open spec fn sector_read(s: Sector, w: Seq<i16>, at: int) -> Sector {
    Sector {
        floorheight: from_units(w[at]),
        ceilingheight: from_units(w[at + 1]),
        floorpic: w[at + 2],
        ceilingpic: w[at + 3],
        lightlevel: w[at + 4],
        special: w[at + 5],
        tag: w[at + 6],
        busy: false,
    }
}

/// A line as loading leaves it: the three words at `at` give its flags,
/// special and tag.
pub open spec fn line_read(l: Line, w: Seq<i16>, at: int) -> Line {
    Line { flags: w[at], special: w[at + 1], tag: w[at + 2], ..l }
}

/// A side as loading leaves it: the five words at `at` give its offsets and
/// textures.
pub open spec fn side_read(sd: Side, w: Seq<i16>, at: int) -> Side {
    Side {
        textureoffset: from_units(w[at]),
        rowoffset: from_units(w[at + 1]),
        toptexture: w[at + 2],
        bottomtexture: w[at + 3],
        midtexture: w[at + 4],
        ..sd
    }
}

/// The sides after loading the words at `at` into the side numbered `d`
/// (nothing is read where `d` is -1).
pub open spec fn read_side_part(sides: Seq<Side>, d: i16, w: Seq<i16>, at: int) -> Seq<Side> {
    if d == -1 {
        sides
    } else {
        sides.update(d as int, side_read(sides[d as int], w, at))
    }
}

/// The sides after loading the record of line `l`, which starts at `at`:
/// first its front side, then its back side.
pub open spec fn read_line_sides(sides: Seq<Side>, l: Line, w: Seq<i16>, at: int) -> Seq<Side> {
    read_side_part(
        read_side_part(sides, l.sidenum[0], w, at + 3),
        l.sidenum[1],
        w,
        at + 3 + side_count(l.sidenum[0]),
    )
}

/// The sides after loading the records of `lines`, which start at `at`.
pub open spec fn sides_read(sides: Seq<Side>, lines: Seq<Line>, w: Seq<i16>, at: int) -> Seq<
    Side,
>
    decreases lines.len(),
{
    if lines.len() == 0 {
        sides
    } else {
        read_line_sides(
            sides_read(sides, lines.drop_last(), w, at),
            lines.last(),
            w,
            at + lines_len(lines.drop_last()),
        )
    }
}

/// The words of a prefix of the lines are no more than those of all lines.
proof fn lemma_lines_len_prefix(lines: Seq<Line>, k: int)
    requires
        0 <= k <= lines.len(),
    ensures
        0 <= lines_len(lines.take(k)) <= lines_len(lines),
    decreases lines.len(),
{
    if k == lines.len() {
        assert(lines.take(k) =~= lines);
        lemma_lines_len_nonneg(lines);
    } else {
        assert(lines.drop_last().take(k) =~= lines.take(k));
        lemma_lines_len_prefix(lines.drop_last(), k);
    }
}

proof fn lemma_lines_len_nonneg(lines: Seq<Line>)
    ensures
        lines_len(lines) >= 0,
    decreases lines.len(),
{
    if lines.len() > 0 {
        lemma_lines_len_nonneg(lines.drop_last());
    }
}

proof fn lemma_sides_read_len(sides: Seq<Side>, lines: Seq<Line>, w: Seq<i16>, at: int)
    requires
        sidenums_within(lines, sides.len() as int),
    ensures
        sides_read(sides, lines, w, at).len() == sides.len(),
    decreases lines.len(),
{
    if lines.len() > 0 {
        assert(lines.last() == lines[lines.len() - 1]);
        lemma_sides_read_len(sides, lines.drop_last(), w, at);
    }
}

/// Reads the record of the map from the save stream at `*pos` into the
/// level and moves `*pos` past it.
pub fn P_UnArchiveWorld(lv: &mut Level, save: &Vec<i16>, pos: &mut usize)
    requires
        side_numbers_ok(old(lv)),
        *old(pos) + world_len(old(lv)) <= save.len(),
    ensures
        *final(pos) == *old(pos) + world_len(old(lv)),
        final(lv).sector_lines@ == old(lv).sector_lines@,
        final(lv).sectors.len() == old(lv).sectors.len(),
        forall|i: int|
            0 <= i < old(lv).sectors.len() ==> #[trigger] final(lv).sectors@[i] == sector_read(
                old(lv).sectors@[i],
                save@,
                *old(pos) + 7 * i,
            ),
        final(lv).lines.len() == old(lv).lines.len(),
        forall|k: int|
            0 <= k < old(lv).lines.len() ==> #[trigger] final(lv).lines@[k] == line_read(
                old(lv).lines@[k],
                save@,
                *old(pos) + 7 * old(lv).sectors.len() + lines_len(old(lv).lines@.take(k)),
            ),
        final(lv).sides@ == sides_read(
            old(lv).sides@,
            old(lv).lines@,
            save@,
            *old(pos) + 7 * old(lv).sectors.len(),
        ),
{
    let ghost lines0 = lv.lines@;
    let ghost sides0 = lv.sides@;
    let ghost pos0 = *pos;
    proof {
        lemma_lines_len_nonneg(lines0);
    }
    let n = lv.sectors.len();
    let mut get: usize = *pos;
    let mut i: usize = 0;
    while i < n
        invariant
            i <= n,
            n == lv.sectors.len(),
            n == old(lv).sectors.len(),
            get == pos0 + 7 * i,
            pos0 + 7 * n + lines_len(lines0) <= save.len(),
            lines_len(lines0) >= 0,
            lv.lines@ == lines0,
            lv.sides@ == sides0,
            lv.sector_lines@ == old(lv).sector_lines@,
            forall|j: int|
                0 <= j < n ==> #[trigger] lv.sectors@[j] == if j < i {
                    sector_read(old(lv).sectors@[j], save@, pos0 + 7 * j)
                } else {
                    old(lv).sectors@[j]
                },
        decreases n - i,
    {
        let sec = Sector {
            floorheight: units_to_fixed(save[get]),
            ceilingheight: units_to_fixed(save[get + 1]),
            floorpic: save[get + 2],
            ceilingpic: save[get + 3],
            lightlevel: save[get + 4],
            special: save[get + 5],
            tag: save[get + 6],
            busy: false,
        };
        lv.sectors.set(i, sec);
        get = get + 7;
        i += 1;
    }
    let ghost base = pos0 + 7 * n;
    let m = lv.lines.len();
    let mut k: usize = 0;
    while k < m
        invariant
            k <= m,
            m == lines0.len(),
            n == old(lv).sectors.len(),
            base == pos0 + 7 * n,
            get == base + lines_len(lines0.take(k as int)),
            base + lines_len(lines0) <= save.len(),
            side_numbers_ok(old(lv)),
            lines0 == old(lv).lines@,
            sides0 == old(lv).sides@,
            lv.lines.len() == m,
            lv.sectors.len() == n,
            lv.sector_lines@ == old(lv).sector_lines@,
            forall|j: int|
                0 <= j < n ==> #[trigger] lv.sectors@[j] == sector_read(
                    old(lv).sectors@[j],
                    save@,
                    pos0 + 7 * j,
                ),
            forall|j: int|
                0 <= j < m ==> #[trigger] lv.lines@[j] == if j < k {
                    line_read(lines0[j], save@, base + lines_len(lines0.take(j)))
                } else {
                    lines0[j]
                },
            lv.sides@ == sides_read(sides0, lines0.take(k as int), save@, base),
        decreases m - k,
    {
        proof {
            lemma_take_step(lines0, k as int);
            lemma_lines_len_prefix(lines0, k + 1);
            assert(sidenums_within(lines0.take(k as int), sides0.len() as int));
            lemma_sides_read_len(sides0, lines0.take(k as int), save@, base);
        }
        let li = lv.lines[k];
        let ghost start = get;
        let ghost sides_before = lv.sides@;
        lv.lines.set(k, Line { flags: save[get], special: save[get + 1], tag: save[get + 2], ..li });
        get = get + 3;
        let d0 = li.sidenum[0];
        if d0 != -1 {
            let sd = lv.sides[d0 as usize];
            lv.sides.set(
                d0 as usize,
                Side {
                    textureoffset: units_to_fixed(save[get]),
                    rowoffset: units_to_fixed(save[get + 1]),
                    toptexture: save[get + 2],
                    bottomtexture: save[get + 3],
                    midtexture: save[get + 4],
                    ..sd
                },
            );
            get = get + 5;
        }
        assert(lv.sides@ =~= read_side_part(sides_before, d0, save@, start + 3));
        let ghost sides_mid = lv.sides@;
        let d1 = li.sidenum[1];
        if d1 != -1 {
            let sd = lv.sides[d1 as usize];
            lv.sides.set(
                d1 as usize,
                Side {
                    textureoffset: units_to_fixed(save[get]),
                    rowoffset: units_to_fixed(save[get + 1]),
                    toptexture: save[get + 2],
                    bottomtexture: save[get + 3],
                    midtexture: save[get + 4],
                    ..sd
                },
            );
            get = get + 5;
        }
        assert(lv.sides@ =~= read_side_part(sides_mid, d1, save@, start + 3 + side_count(d0)));
        k += 1;
    }
    assert(lines0.take(m as int) =~= lines0);
    *pos = get;
}

/// Side `d` is a side of one of the first `k` lines of the level.
pub open spec fn used_upto(lv: &Level, k: int, d: int) -> bool {
    exists|j: int|
        #![trigger lv.lines@[j]]
        0 <= j < k && (lv.lines@[j].sidenum[0] == d || lv.lines@[j].sidenum[1] == d)
}

/// Side `d` is a side of some line of the level.
pub open spec fn side_used(lv: &Level, d: int) -> bool {
    used_upto(lv, lv.lines.len() as int, d)
}

/// The heights of every sector, and the offsets of every side that a line
/// uses, are whole map units.
pub open spec fn whole_units_only(lv: &Level) -> bool {
    &&& forall|i: int|
        0 <= i < lv.sectors.len() ==> #[trigger] lv.sectors@[i].floorheight % FRACUNIT == 0
            && lv.sectors@[i].ceilingheight % FRACUNIT == 0
    &&& forall|d: int|
        0 <= d < lv.sides.len() && side_used(lv, d) ==> #[trigger] lv.sides@[d].textureoffset
            % FRACUNIT == 0 && lv.sides@[d].rowoffset % FRACUNIT == 0
}

/// `into` is built from the same map as `saved`: as many sectors, lines and
/// sides, every line with the same side numbers, every side facing the
/// same sector.
pub open spec fn same_map(saved: &Level, into: &Level) -> bool {
    &&& into.sectors.len() == saved.sectors.len()
    &&& into.lines.len() == saved.lines.len()
    &&& into.sides.len() == saved.sides.len()
    &&& forall|k: int|
        0 <= k < saved.lines.len() ==> {
            &&& (#[trigger] into.lines@[k]).sidenum == saved.lines@[k].sidenum
        }
    &&& forall|d: int| 0 <= d < saved.sides.len() ==> (#[trigger] into.sides@[d]).sector == saved.sides@[d].sector
}

proof fn lemma_units_round(x: i32)
    requires
        x % FRACUNIT == 0,
    ensures
        from_units(whole_units(x)) == x,
{
    assert(x as int == 65536 * (x as int / 65536)) by (nonlinear_arith)
        requires
            x as int % 65536 == 0,
    ;
}

proof fn lemma_sectors_words_at(secs: Seq<Sector>, i: int, t: int)
    requires
        0 <= i < secs.len(),
        0 <= t < 7,
    ensures
        sectors_words(secs).len() == 7 * secs.len(),
        sectors_words(secs)[7 * i + t] == sector_words(secs[i])[t],
    decreases secs.len(),
{
    let d = secs.drop_last();
    if i == secs.len() - 1 {
        lemma_sectors_words_len(d);
    } else {
        lemma_sectors_words_at(d, i, t);
    }
}

proof fn lemma_sectors_words_len(secs: Seq<Sector>)
    ensures
        sectors_words(secs).len() == 7 * secs.len(),
    decreases secs.len(),
{
    if secs.len() > 0 {
        lemma_sectors_words_len(secs.drop_last());
    }
}

proof fn lemma_lines_words_len(lines: Seq<Line>, sides: Seq<Side>)
    ensures
        lines_words(lines, sides).len() == lines_len(lines),
    decreases lines.len(),
{
    if lines.len() > 0 {
        lemma_lines_words_len(lines.drop_last(), sides);
    }
}

proof fn lemma_lines_words_at(lines: Seq<Line>, sides: Seq<Side>, k: int, t: int)
    requires
        0 <= k < lines.len(),
        0 <= t < line_len(lines[k]),
    ensures
        lines_words(lines, sides)[lines_len(lines.take(k)) + t] == line_words(lines[k], sides)[t],
    decreases lines.len(),
{
    let d = lines.drop_last();
    lemma_lines_words_len(d, sides);
    assert(line_words(lines[k], sides).len() == line_len(lines[k]));
    assert(lines_words(lines, sides) == lines_words(d, sides) + line_words(lines.last(), sides));
    if k == lines.len() - 1 {
        assert(lines.take(k) =~= d);
    } else {
        assert(d.take(k) =~= lines.take(k));
        lemma_take_step(lines, k);
        assert(d.take(k + 1) =~= lines.take(k + 1));
        assert(lines_len(lines.take(k + 1)) == lines_len(lines.take(k)) + line_len(lines[k]));
        lemma_lines_len_prefix(d, k + 1);
        lemma_lines_len_prefix(d, k);
        lemma_lines_words_at(d, sides, k, t);
        assert(d[k] == lines[k]);
    }
}

proof fn lemma_lines_len_eq(a: Seq<Line>, b: Seq<Line>)
    requires
        a.len() == b.len(),
        forall|k: int| 0 <= k < a.len() ==> (#[trigger] a[k]).sidenum == b[k].sidenum,
    ensures
        lines_len(a) == lines_len(b),
    decreases a.len(),
{
    if a.len() > 0 {
        assert(a.last() == a[a.len() - 1]);
        lemma_lines_len_eq(a.drop_last(), b.drop_last());
    }
}

/// Word `t` of the record of sector `i`, in a stream that holds `before`
/// and then the record of `saved`.
proof fn lemma_word_of_sector(saved: &Level, before: Seq<i16>, i: int, t: int)
    requires
        0 <= i < saved.sectors.len(),
        0 <= t < 7,
    ensures
        (before + world_words(saved))[before.len() + 7 * i + t] == sector_words(
            saved.sectors@[i],
        )[t],
{
    lemma_sectors_words_at(saved.sectors@, i, t);
}

/// Word `t` of the record of line `k`, in a stream that holds `before` and
/// then the record of `saved`.
proof fn lemma_word_of_line(saved: &Level, before: Seq<i16>, k: int, t: int)
    requires
        0 <= k < saved.lines.len(),
        0 <= t < line_len(saved.lines@[k]),
    ensures
        (before + world_words(saved))[before.len() + 7 * saved.sectors.len() + lines_len(
            saved.lines@.take(k),
        ) + t] == line_words(saved.lines@[k], saved.sides@)[t],
{
    lemma_sectors_words_len(saved.sectors@);
    lemma_lines_words_len(saved.lines@, saved.sides@);
    lemma_lines_len_prefix(saved.lines@, k);
    lemma_take_step(saved.lines@, k);
    lemma_lines_len_prefix(saved.lines@, k + 1);
    lemma_lines_words_at(saved.lines@, saved.sides@, k, t);
}

/// Loading the records of the first `k` lines restores each side that
/// those lines use and leaves the other sides alone.
proof fn lemma_sides_restored(saved: &Level, into: &Level, before: Seq<i16>, k: int)
    requires
        side_numbers_ok(saved),
        whole_units_only(saved),
        same_map(saved, into),
        0 <= k <= saved.lines.len(),
    ensures
        sides_read(
            into.sides@,
            into.lines@.take(k),
            before + world_words(saved),
            before.len() + 7 * saved.sectors.len(),
        ).len() == into.sides.len(),
        forall|d: int|
            0 <= d < into.sides.len() ==> #[trigger] sides_read(
                into.sides@,
                into.lines@.take(k),
                before + world_words(saved),
                before.len() + 7 * saved.sectors.len(),
            )[d] == if used_upto(saved, k, d) {
                saved.sides@[d]
            } else {
                into.sides@[d]
            },
    decreases k,
{
    let w = before + world_words(saved);
    let base = before.len() + 7 * saved.sectors.len();
    if k == 0 {
        assert(into.lines@.take(0) =~= Seq::<Line>::empty());
    } else {
        lemma_sides_restored(saved, into, before, k - 1);
        lemma_take_step(into.lines@, k - 1);
        let prev = sides_read(into.sides@, into.lines@.take(k - 1), w, base);
        let l = into.lines@[k - 1];
        let sl = saved.lines@[k - 1];
        assert(l.sidenum == sl.sidenum);
        assert(sidenums_within(saved.lines@, saved.sides.len() as int));
        assert(forall|j: int|
            0 <= j < k - 1 ==> (#[trigger] into.lines@.take(k - 1)[j]).sidenum
                == saved.lines@.take(k - 1)[j].sidenum);
        lemma_lines_len_eq(into.lines@.take(k - 1), saved.lines@.take(k - 1));
        let at = base + lines_len(saved.lines@.take(k - 1));
        assert(sides_read(into.sides@, into.lines@.take(k), w, base) == read_line_sides(
            prev,
            l,
            w,
            at,
        ));
        let d0 = sl.sidenum[0];
        let d1 = sl.sidenum[1];
        let mid = read_side_part(prev, d0, w, at + 3);
        if d0 != -1 {
            assert(used_upto(saved, k, d0 as int));
            lemma_word_of_line(saved, before, k - 1, 3);
            lemma_word_of_line(saved, before, k - 1, 4);
            lemma_word_of_line(saved, before, k - 1, 5);
            lemma_word_of_line(saved, before, k - 1, 6);
            lemma_word_of_line(saved, before, k - 1, 7);
            lemma_units_round(saved.sides@[d0 as int].textureoffset);
            lemma_units_round(saved.sides@[d0 as int].rowoffset);
            assert(side_read(prev[d0 as int], w, at + 3) == saved.sides@[d0 as int]);
        }
        if d1 != -1 {
            assert(used_upto(saved, k, d1 as int));
            let o = 3 + side_count(d0);
            lemma_word_of_line(saved, before, k - 1, o);
            lemma_word_of_line(saved, before, k - 1, o + 1);
            lemma_word_of_line(saved, before, k - 1, o + 2);
            lemma_word_of_line(saved, before, k - 1, o + 3);
            lemma_word_of_line(saved, before, k - 1, o + 4);
            lemma_units_round(saved.sides@[d1 as int].textureoffset);
            lemma_units_round(saved.sides@[d1 as int].rowoffset);
            assert(side_read(mid[d1 as int], w, at + o) == saved.sides@[d1 as int]);
        }
        assert forall|d: int| 0 <= d < into.sides.len() implies #[trigger] sides_read(
            into.sides@,
            into.lines@.take(k),
            w,
            base,
        )[d] == if used_upto(saved, k, d) {
            saved.sides@[d]
        } else {
            into.sides@[d]
        } by {
            if used_upto(saved, k - 1, d) {
                let j = choose|j: int|
                    #![trigger saved.lines@[j]]
                    0 <= j < k - 1 && (saved.lines@[j].sidenum[0] == d || saved.lines@[j].sidenum[1]
                        == d);
                assert(saved.lines@[j] == saved.lines@[j]);
                assert(used_upto(saved, k, d));
            }
            if used_upto(saved, k, d) && d != d0 && d != d1 {
                let j = choose|j: int|
                    #![trigger saved.lines@[j]]
                    0 <= j < k && (saved.lines@[j].sidenum[0] == d || saved.lines@[j].sidenum[1]
                        == d);
                assert(j != k - 1);
                assert(saved.lines@[j] == saved.lines@[j]);
                assert(used_upto(saved, k - 1, d));
            }
        }
    }
}

/// Loading what saving the map wrote gives back the map: every sector
/// (with no mover attached to it), every line (which keeps the sectors
/// it was built with), and every side that a line
/// uses, where heights and offsets are whole map units; sides that no line
/// uses keep what they held. This holds for a level built from the same
/// map, whatever it held before, and wherever the record starts in the
/// stream.
pub proof fn lemma_world_round_trip(saved: &Level, into: &Level, before: Seq<i16>)
    requires
        side_numbers_ok(saved),
        whole_units_only(saved),
        same_map(saved, into),
    ensures
        side_numbers_ok(into),
        world_len(into) == world_words(saved).len(),
        forall|i: int|
            0 <= i < into.sectors.len() ==> #[trigger] sector_read(
                into.sectors@[i],
                before + world_words(saved),
                before.len() + 7 * i,
            ) == (Sector { busy: false, ..saved.sectors@[i] }),
        forall|k: int|
            0 <= k < into.lines.len() ==> #[trigger] line_read(
                into.lines@[k],
                before + world_words(saved),
                before.len() + 7 * into.sectors.len() + lines_len(into.lines@.take(k)),
            ) == (Line {
                frontsector: into.lines@[k].frontsector,
                backsector: into.lines@[k].backsector,
                ..saved.lines@[k]
            }),
        sides_read(
            into.sides@,
            into.lines@,
            before + world_words(saved),
            before.len() + 7 * into.sectors.len(),
        ).len() == into.sides.len(),
        forall|d: int|
            0 <= d < into.sides.len() ==> #[trigger] sides_read(
                into.sides@,
                into.lines@,
                before + world_words(saved),
                before.len() + 7 * into.sectors.len(),
            )[d] == if side_used(saved, d) {
                saved.sides@[d]
            } else {
                into.sides@[d]
            },
{
    let w = before + world_words(saved);
    let m = saved.lines.len() as int;
    assert forall|l: int| 0 <= l < into.lines.len() implies {
        let sn = #[trigger] into.lines@[l].sidenum;
        &&& (sn[0] == -1 || 0 <= sn[0] < into.sides.len())
        &&& (sn[1] == -1 || 0 <= sn[1] < into.sides.len())
    } by {
        assert(saved.lines@[l].sidenum == into.lines@[l].sidenum);
    }
    lemma_sectors_words_len(saved.sectors@);
    lemma_lines_words_len(saved.lines@, saved.sides@);
    lemma_lines_len_eq(into.lines@, saved.lines@);
    assert forall|i: int| 0 <= i < into.sectors.len() implies #[trigger] sector_read(
        into.sectors@[i],
        w,
        before.len() + 7 * i,
    ) == (Sector { busy: false, ..saved.sectors@[i] }) by {
        lemma_word_of_sector(saved, before, i, 0);
        lemma_word_of_sector(saved, before, i, 1);
        lemma_word_of_sector(saved, before, i, 2);
        lemma_word_of_sector(saved, before, i, 3);
        lemma_word_of_sector(saved, before, i, 4);
        lemma_word_of_sector(saved, before, i, 5);
        lemma_word_of_sector(saved, before, i, 6);
        lemma_units_round(saved.sectors@[i].floorheight);
        lemma_units_round(saved.sectors@[i].ceilingheight);
    }
    assert forall|k: int| 0 <= k < into.lines.len() implies #[trigger] line_read(
        into.lines@[k],
        w,
        before.len() + 7 * into.sectors.len() + lines_len(into.lines@.take(k)),
    ) == (Line {
        frontsector: into.lines@[k].frontsector,
        backsector: into.lines@[k].backsector,
        ..saved.lines@[k]
    }) by {
        assert(forall|j: int|
            0 <= j < k ==> (#[trigger] into.lines@.take(k)[j]).sidenum
                == saved.lines@.take(k)[j].sidenum);
        lemma_lines_len_eq(into.lines@.take(k), saved.lines@.take(k));
        lemma_word_of_line(saved, before, k, 0);
        lemma_word_of_line(saved, before, k, 1);
        lemma_word_of_line(saved, before, k, 2);
    }
    lemma_sides_restored(saved, into, before, m);
    assert(into.lines@.take(m) =~= into.lines@);
}

} // verus!
