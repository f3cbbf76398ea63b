//! What changes on the map every tic by itself: animated flats and wall
//! textures, scrolling walls, buttons popping back out, and the deathmatch
//! level timer.

use vstd::prelude::*;

use crate::fixed::FRACUNIT;
use crate::level::{Level, Side};
use crate::switches::{bwhere_e, button_t};

verus! {

/// An animated flat or wall texture: the pictures `basepic` to `picnum`,
/// each shown for `speed` tics in turn.
#[derive(Debug, Clone, Copy, PartialEq, Eq, Structural)]
pub struct anim_t {
    pub istexture: bool,
    pub picnum: usize,
    pub basepic: usize,
    pub numpics: usize,
    pub speed: usize,
}

/// An animation as the game data names it, once its first and last
/// pictures were looked up: `start` is `None` where the game lacks it.
#[derive(Debug, Clone, Copy, PartialEq, Eq, Structural)]
pub struct AnimLookup {
    pub istexture: bool,
    pub start: Option<usize>,
    pub end: usize,
    pub speed: usize,
}

/// The animations of the looked-up definitions that the game has, in
/// order.
pub open spec fn anims_of(defs: Seq<AnimLookup>) -> Seq<anim_t>
    decreases defs.len(),
{
    if defs.len() == 0 {
        Seq::empty()
    } else {
        let rest = anims_of(defs.drop_last());
        let d = defs.last();
        match d.start {
            Some(b) => rest.push(
                anim_t {
                    istexture: d.istexture,
                    picnum: d.end,
                    basepic: b,
                    numpics: (d.end - b + 1) as usize,
                    speed: d.speed,
                },
            ),
            None => rest,
        }
    }
}

/// Sets up the animations from the definitions the game has. An animation
/// of fewer than two pictures is an error (the index of its definition is
/// returned).
pub fn P_InitPicAnims(defs: &Vec<AnimLookup>) -> (r: Result<Vec<anim_t>, usize>)
    requires
        forall|i: int|
            0 <= i < defs.len() ==> (#[trigger] defs@[i].start matches Some(b) ==> b <= defs@[i].end + 1
                && defs@[i].end < usize::MAX),
    ensures
        r matches Ok(a) ==> a@ == anims_of(defs@) && forall|k: int|
            0 <= k < a.len() ==> #[trigger] a@[k].numpics >= 2,
        r matches Err(i) ==> i < defs.len() && (defs@[i as int].start matches Some(b) && defs@[i as int].end
            + 1 - b < 2) && forall|k: int|
            0 <= k < i ==> (#[trigger] defs@[k].start matches Some(b) ==> defs@[k].end + 1 - b >= 2),
        r is Ok <==> forall|k: int|
            0 <= k < defs.len() ==> (#[trigger] defs@[k].start matches Some(b) ==> defs@[k].end + 1 - b
                >= 2),
{
    let mut anims: Vec<anim_t> = Vec::new();
    let n = defs.len();
    let mut i: usize = 0;
    while i < n
        invariant
            n == defs.len(),
            i <= n,
            forall|k: int|
                0 <= k < defs.len() ==> (#[trigger] defs@[k].start matches Some(b) ==> b <= defs@[k].end
                    + 1 && defs@[k].end < usize::MAX),
            anims@ == anims_of(defs@.take(i as int)),
            forall|k: int| 0 <= k < anims.len() ==> #[trigger] anims@[k].numpics >= 2,
            forall|k: int|
                0 <= k < i ==> (#[trigger] defs@[k].start matches Some(b) ==> defs@[k].end + 1 - b >= 2),
        decreases n - i,
    {
        let d = defs[i];
        assert(defs@.take(i as int + 1).drop_last() =~= defs@.take(i as int));
        match d.start {
            Some(b) => {
                let numpics = d.end + 1 - b;
                if numpics < 2 {
                    return Err(i);
                }
                anims.push(
                    anim_t { istexture: d.istexture, picnum: d.end, basepic: b, numpics, speed: d.speed },
                );
            },
            None => {},
        }
        i += 1;
    }
    assert(defs@.take(n as int) =~= defs@);
    Ok(anims)
}

/// The picture shown for picture `i` of animation `a` at `leveltime`.
pub open spec fn anim_frame(a: anim_t, leveltime: usize, i: int) -> usize {
    (a.basepic + ((leveltime / a.speed + i) % (a.numpics as int))) as usize
}

/// The translation table once animation `a` has set its pictures for
/// `leveltime`.
pub open spec fn apply_anim(t: Seq<usize>, a: anim_t, leveltime: usize) -> Seq<usize> {
    Seq::new(
        t.len(),
        |i: int|
            if a.basepic <= i < a.basepic + a.numpics {
                anim_frame(a, leveltime, i)
            } else {
                t[i]
            },
    )
}

/// The texture (`tex`) or flat translation table once the first `n`
/// animations have run.
pub open spec fn animated(t: Seq<usize>, anims: Seq<anim_t>, n: int, leveltime: usize, tex: bool) -> Seq<usize>
    decreases n,
{
    if n <= 0 {
        t
    } else {
        let prev = animated(t, anims, n - 1, leveltime, tex);
        if anims[n - 1].istexture == tex {
            apply_anim(prev, anims[n - 1], leveltime)
        } else {
            prev
        }
    }
}

/// The animation can run: pictures in the table's range and no overflow.
pub open spec fn anim_ok(a: anim_t, len: int, leveltime: usize) -> bool {
    &&& a.speed > 0
    &&& a.numpics > 0
    &&& a.basepic + a.numpics <= len
    &&& leveltime / a.speed + a.basepic + a.numpics <= usize::MAX
}

proof fn lemma_animated_len(t: Seq<usize>, anims: Seq<anim_t>, n: int, leveltime: usize, tex: bool)
    ensures
        animated(t, anims, n, leveltime, tex).len() == t.len(),
    decreases n,
{
    if n > 0 {
        lemma_animated_len(t, anims, n - 1, leveltime, tex);
    }
}

fn run_anim(table: &mut Vec<usize>, a: &anim_t, leveltime: usize)
    requires
        anim_ok(*a, old(table).len() as int, leveltime),
    ensures
        final(table)@ == apply_anim(old(table)@, *a, leveltime),
{
    let end = a.basepic + a.numpics;
    let base_t = leveltime / a.speed;
    let mut i = a.basepic;
    while i < end
        invariant
            end == a.basepic + a.numpics,
            base_t == leveltime / a.speed,
            a.basepic <= i <= end,
            anim_ok(*a, old(table).len() as int, leveltime),
            table.len() == old(table).len(),
            forall|k: int|
                0 <= k < table.len() ==> #[trigger] table@[k] == if a.basepic <= k < i {
                    anim_frame(*a, leveltime, k)
                } else {
                    old(table)@[k]
                },
        decreases end - i,
    {
        let pic = a.basepic + ((base_t + i) % a.numpics);
        table.set(i, pic);
        i += 1;
    }
    assert(table@ =~= apply_anim(old(table)@, *a, leveltime));
}

/// One tic of a button: counting down; when it runs out it pops back out
/// (its texture goes back on its wall) and its slot is freed.
pub open spec fn button_tick(b: button_t) -> button_t {
    if b.btimer == 0 {
        b
    } else if b.btimer == 1 {
        button_t { line: 0, where_: bwhere_e::top, btexture: 0, btimer: 0 }
    } else {
        button_t { btimer: (b.btimer - 1) as u32, ..b }
    }
}

/// The side once texture `t` goes back on its `w` wall.
pub open spec fn put_texture(s: Side, w: bwhere_e, t: i16) -> Side {
    match w {
        bwhere_e::top => Side { toptexture: t, ..s },
        bwhere_e::middle => Side { midtexture: t, ..s },
        bwhere_e::bottom => Side { bottomtexture: t, ..s },
    }
}

/// The sides once the first `n` buttons have ticked: each button that
/// pops puts its texture back on the front side of its line.
pub open spec fn sides_after_buttons(lv: &Level, bs: Seq<button_t>, n: int) -> Seq<Side>
    decreases n,
{
    if n <= 0 {
        lv.sides@
    } else {
        let prev = sides_after_buttons(lv, bs, n - 1);
        let b = bs[n - 1];
        if b.btimer == 1 {
            let d = lv.lines@[b.line as int].sidenum[0] as int;
            prev.update(d, put_texture(prev[d], b.where_, b.btexture as i16))
        } else {
            prev
        }
    }
}

/// Each running button names an existing line.
pub open spec fn buttons_wf(lv: &Level, bs: Seq<button_t>) -> bool {
    forall|i: int| 0 <= i < bs.len() && #[trigger] bs[i].btimer != 0 ==> bs[i].line < lv.lines.len()
}

proof fn lemma_sides_len(lv: &Level, bs: Seq<button_t>, n: int)
    requires
        crate::level::level_wf(lv),
        buttons_wf(lv, bs),
        n <= bs.len(),
    ensures
        sides_after_buttons(lv, bs, n).len() == lv.sides.len(),
    decreases n,
{
    if n > 0 {
        lemma_sides_len(lv, bs, n - 1);
        let b = bs[n - 1];
        if b.btimer == 1 {
            assert(b.line < lv.lines.len());
        }
    }
}

/// The deathmatch level timer: counting down while running.
#[derive(Debug, Clone, Copy, PartialEq, Eq, Structural)]
pub struct LevelTimer {
    pub running: bool,
    pub count: usize,
}

/// What a tic of the map's own changes asks of the game.
#[derive(Debug)]
pub struct SpecialsTick {
    /// The level timer ran out: the level ends.
    pub exit_level: bool,
    /// The lines whose buttons popped out (each makes the switch sound).
    pub popped: Vec<usize>,
}

/// The front side of line `l`.
pub open spec fn front_side(lv: &Level, l: int) -> int {
    lv.lines@[l].sidenum[0] as int
}

/// Side `d` is the front side of one of the scrolling lines.
pub open spec fn scrolls(lv: &Level, scrollers: Seq<usize>, d: int) -> bool {
    exists|k: int| 0 <= k < scrollers.len() && #[trigger] front_side(lv, scrollers[k] as int) == d
}

/// The side's texture offset after a tic of scrolling.
pub open spec fn scrolled(lv: &Level, scrollers: Seq<usize>, d: int) -> i32 {
    if scrolls(lv, scrollers, d) {
        (lv.sides@[d].textureoffset + FRACUNIT) as i32
    } else {
        lv.sides@[d].textureoffset
    }
}

/// One tic of the map's own changes: the level timer counts down (the
/// level ends when it runs out); every animation sets its pictures in the
/// texture or flat translation table for `leveltime`; the front side of
/// each scrolling line moves one unit; and every button counts down, the
/// ones that run out putting their texture back on the front side of their
/// line and freeing their slot. The scrolling lines have distinct front
/// sides.
#[verifier::spinoff_prover]
#[verifier::rlimit(40)]
pub fn P_UpdateSpecials(
    lv: &mut Level,
    timer: &mut LevelTimer,
    anims: &Vec<anim_t>,
    leveltime: usize,
    texturetranslation: &mut Vec<usize>,
    flattranslation: &mut Vec<usize>,
    scrollers: &Vec<usize>,
    buttons: &mut Vec<button_t>,
) -> (r: SpecialsTick)
    requires
        crate::level::level_wf(old(lv)),
        old(timer).running ==> old(timer).count > 0,
        forall|k: int|
            0 <= k < anims.len() ==> anim_ok(
                #[trigger] anims@[k],
                if anims@[k].istexture {
                    old(texturetranslation).len() as int
                } else {
                    old(flattranslation).len() as int
                },
                leveltime,
            ),
        forall|k: int| 0 <= k < scrollers.len() ==> #[trigger] scrollers@[k] < old(lv).lines.len(),
        forall|k1: int, k2: int|
            0 <= k1 < k2 < scrollers.len() ==> front_side(old(lv), scrollers@[k1] as int) != front_side(
                old(lv),
                scrollers@[k2] as int,
            ),
        forall|k: int|
            0 <= k < scrollers.len() ==> old(lv).sides@[front_side(old(lv), #[trigger] scrollers@[k] as int)].textureoffset
                <= i32::MAX - FRACUNIT,
        buttons_wf(old(lv), old(buttons)@),
    ensures
        *final(timer) == if old(timer).running {
            LevelTimer { count: (old(timer).count - 1) as usize, ..*old(timer) }
        } else {
            *old(timer)
        },
        r.exit_level == (old(timer).running && old(timer).count == 1),
        final(texturetranslation)@ == animated(old(texturetranslation)@, anims@, anims.len() as int, leveltime, true),
        final(flattranslation)@ == animated(old(flattranslation)@, anims@, anims.len() as int, leveltime, false),
        final(buttons)@ == Seq::new(old(buttons).len() as nat, |i: int| button_tick(old(buttons)@[i])),
        forall|k: int| 0 <= k < r.popped.len() ==> pops(old(buttons)@, #[trigger] r.popped@[k]),
        r.popped.len() == popped_count(old(buttons)@, old(buttons).len() as int),
        final(lv).sectors@ == old(lv).sectors@,
        final(lv).lines@ == old(lv).lines@,
        final(lv).sector_lines@ == old(lv).sector_lines@,
        final(lv).sides.len() == old(lv).sides.len(),
        forall|d: int|
            0 <= d < old(lv).sides.len() ==> #[trigger] final(lv).sides@[d] == (Side {
                textureoffset: scrolled(old(lv), scrollers@, d),
                ..sides_after_buttons(old(lv), old(buttons)@, old(buttons).len() as int)[d]
            }),
{
    let mut exit_level = false;
    if timer.running {
        timer.count = timer.count - 1;
        if timer.count == 0 {
            exit_level = true;
        }
    }
    let na = anims.len();
    let mut k: usize = 0;
    while k < na
        invariant
            na == anims.len(),
            k <= na,
            forall|j: int|
                0 <= j < anims.len() ==> anim_ok(
                    #[trigger] anims@[j],
                    if anims@[j].istexture {
                        old(texturetranslation).len() as int
                    } else {
                        old(flattranslation).len() as int
                    },
                    leveltime,
                ),
            texturetranslation@ == animated(old(texturetranslation)@, anims@, k as int, leveltime, true),
            flattranslation@ == animated(old(flattranslation)@, anims@, k as int, leveltime, false),
            texturetranslation.len() == old(texturetranslation).len(),
            flattranslation.len() == old(flattranslation).len(),
        decreases na - k,
    {
        let a = anims[k];
        if a.istexture {
            run_anim(texturetranslation, &a, leveltime);
        } else {
            run_anim(flattranslation, &a, leveltime);
        }
        proof {
            lemma_animated_len(old(texturetranslation)@, anims@, k as int + 1, leveltime, true);
            lemma_animated_len(old(flattranslation)@, anims@, k as int + 1, leveltime, false);
        }
        k += 1;
    }
    let ghost sides0 = lv.sides@;
    let ns = scrollers.len();
    let mut k: usize = 0;
    while k < ns
        invariant
            ns == scrollers.len(),
            k <= ns,
            crate::level::level_wf(old(lv)),
            lv.sectors@ == old(lv).sectors@,
            lv.lines@ == old(lv).lines@,
            lv.sector_lines@ == old(lv).sector_lines@,
            sides0 == old(lv).sides@,
            lv.sides.len() == sides0.len(),
            forall|j: int| 0 <= j < scrollers.len() ==> #[trigger] scrollers@[j] < old(lv).lines.len(),
            forall|k1: int, k2: int|
                0 <= k1 < k2 < scrollers.len() ==> front_side(old(lv), scrollers@[k1] as int) != front_side(
                    old(lv),
                    scrollers@[k2] as int,
                ),
            forall|j: int|
                0 <= j < scrollers.len() ==> sides0[front_side(old(lv), #[trigger] scrollers@[j] as int)].textureoffset
                    <= i32::MAX - FRACUNIT,
            forall|d: int|
                0 <= d < sides0.len() ==> #[trigger] lv.sides@[d] == (Side {
                    textureoffset: if scrolls(old(lv), scrollers@.take(k as int), d) {
                        (sides0[d].textureoffset + FRACUNIT) as i32
                    } else {
                        sides0[d].textureoffset
                    },
                    ..sides0[d]
                }),
        decreases ns - k,
    {
        let l = scrollers[k];
        let d = lv.lines[l].sidenum[0] as usize;
        proof {
            assert(old(lv).lines@[l as int].sidenum[0] < lv.sides.len());
            if scrolls(old(lv), scrollers@.take(k as int), d as int) {
                let j = choose|j: int| 0 <= j < k && #[trigger] front_side(old(lv), scrollers@.take(k as int)[j] as int) == d;
                assert(scrollers@.take(k as int)[j] == scrollers@[j]);
            }
            assert(lv.sides@[d as int].textureoffset == sides0[d as int].textureoffset);
        }
        let mut side = lv.sides[d];
        side.textureoffset = side.textureoffset + FRACUNIT;
        lv.sides.set(d, side);
        proof {
            assert forall|e: int| 0 <= e < sides0.len() implies #[trigger] lv.sides@[e] == (Side {
                textureoffset: if scrolls(old(lv), scrollers@.take(k + 1), e) {
                    (sides0[e].textureoffset + FRACUNIT) as i32
                } else {
                    sides0[e].textureoffset
                },
                ..sides0[e]
            }) by {
                assert(scrollers@.take(k + 1)[k as int] == l);
                if e != d as int {
                    if scrolls(old(lv), scrollers@.take(k + 1), e) {
                        let j = choose|j: int| 0 <= j < k + 1 && #[trigger] front_side(old(lv), scrollers@.take(k + 1)[j] as int) == e;
                        assert(scrollers@.take(k + 1)[j] == scrollers@.take(k as int)[j]);
                    }
                    if scrolls(old(lv), scrollers@.take(k as int), e) {
                        let j = choose|j: int| 0 <= j < k && #[trigger] front_side(old(lv), scrollers@.take(k as int)[j] as int) == e;
                        assert(scrollers@.take(k + 1)[j] == scrollers@.take(k as int)[j]);
                    }
                }
            }
        }
        k += 1;
    }
    assert(scrollers@.take(ns as int) =~= scrollers@);
    let ghost sides1 = lv.sides@;
    let nb = buttons.len();
    let mut popped: Vec<usize> = Vec::new();
    let mut i: usize = 0;
    while i < nb
        invariant
            nb == buttons.len(),
            nb == old(buttons).len(),
            i <= nb,
            crate::level::level_wf(old(lv)),
            buttons_wf(old(lv), old(buttons)@),
            lv.sectors@ == old(lv).sectors@,
            lv.lines@ == old(lv).lines@,
            lv.sector_lines@ == old(lv).sector_lines@,
            lv.sides.len() == old(lv).sides.len(),
            forall|d: int|
                0 <= d < old(lv).sides.len() ==> #[trigger] sides1[d].textureoffset == scrolled(old(lv), scrollers@, d),
            sides1.len() == old(lv).sides.len(),
            forall|d: int|
                0 <= d < old(lv).sides.len() ==> #[trigger] lv.sides@[d] == (Side {
                    textureoffset: sides1[d].textureoffset,
                    ..sides_after_buttons(old(lv), old(buttons)@, i as int)[d]
                }),
            forall|j: int| 0 <= j < nb ==> #[trigger] buttons@[j] == if j < i { button_tick(old(buttons)@[j]) } else { old(buttons)@[j] },
            popped.len() == popped_count(old(buttons)@, i as int),
            forall|k: int| 0 <= k < popped.len() ==> pops(old(buttons)@, #[trigger] popped@[k]),
        decreases nb - i,
    {
        proof {
            lemma_sides_len(old(lv), old(buttons)@, i as int);
            lemma_sides_len(old(lv), old(buttons)@, i as int + 1);
        }
        let b = buttons[i];
        if b.btimer != 0 {
            if b.btimer == 1 {
                let d = lv.lines[b.line].sidenum[0] as usize;
                let mut side = lv.sides[d];
                let t = b.btexture as i16;
                match b.where_ {
                    bwhere_e::top => side.toptexture = t,
                    bwhere_e::middle => side.midtexture = t,
                    bwhere_e::bottom => side.bottomtexture = t,
                }
                lv.sides.set(d, side);
                let ghost before = popped@;
                popped.push(b.line);
                proof {
                    assert(old(buttons)@[i as int].btimer == 1);
                    assert(pops(old(buttons)@, b.line));
                    assert forall|k: int| 0 <= k < popped.len() implies pops(old(buttons)@, #[trigger] popped@[k]) by {
                        if k < before.len() {
                            assert(popped@[k] == before[k]);
                        }
                    }
                }
                buttons.set(i, button_t { line: 0, where_: bwhere_e::top, btexture: 0, btimer: 0 });
            } else {
                buttons.set(i, button_t { btimer: b.btimer - 1, ..b });
            }
        }
        i += 1;
    }
    proof {
        assert(buttons@ =~= Seq::new(old(buttons).len() as nat, |j: int| button_tick(old(buttons)@[j])));
    }
    SpecialsTick { exit_level, popped }
}

/// One of the buttons pops out this tic on line `line`.
pub open spec fn pops(bs: Seq<button_t>, line: usize) -> bool {
    exists|j: int| 0 <= j < bs.len() && #[trigger] bs[j].btimer == 1 && bs[j].line == line
}

/// How many of the first `n` buttons pop out this tic.
pub open spec fn popped_count(bs: Seq<button_t>, n: int) -> nat
    decreases n,
{
    if n <= 0 {
        0
    } else {
        popped_count(bs, n - 1) + if bs[n - 1].btimer == 1 {
            1nat
        } else {
            0nat
        }
    }
}

} // verus!
