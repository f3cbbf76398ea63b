//! Laying out menu text in the heads-up font: where each character of a
//! string is drawn, and how tall the string stands. Drawing the glyphs is
//! left to the video code.

use vstd::prelude::*;

use crate::menu::{HU_FONTSIZE, HU_FONTSTART, to_upper, toupper};

verus! {

/// Width of the screen, in pixels.
pub const SCREENWIDTH: usize = 320;

/// The glyph of the heads-up font that shows byte `b` (letters in upper
/// case); -1 where the font has none (bytes above 127 count as negative
/// characters).
pub open spec fn glyph_of(b: u8) -> int {
    let c = if b >= 128 {
        -1
    } else {
        to_upper(b as int) - HU_FONTSTART
    };
    if c < 0 || c >= HU_FONTSIZE {
        -1
    } else {
        c
    }
}

fn glyph(b: u8) -> (r: i32)
    ensures
        r == glyph_of(b),
{
    let c = if b >= 128 {
        -1
    } else {
        toupper(b as i32) - HU_FONTSTART
    };
    if c < 0 || c >= HU_FONTSIZE {
        -1
    } else {
        c
    }
}

/// A character drawn: its glyph, at column `x` and row `y`.
#[derive(Debug, Clone, Copy, PartialEq, Eq, Structural)]
pub struct GlyphDraw {
    pub x: usize,
    pub y: usize,
    pub glyph: usize,
}

/// The characters drawn for the bytes of `s` from `i` on, the next one at
/// (cx, cy), a line starting at column `x`: the text ends at a zero byte; a
/// newline starts a new line 12 rows down; a byte the font does not show
/// leaves a gap of 4; the text stops at the first character that would
/// pass the right edge of the screen.
pub open spec fn text_draws(x: int, s: Seq<u8>, font: Seq<u16>, i: int, cx: int, cy: int) -> Seq<GlyphDraw>
    decreases s.len() - i,
{
    if i < 0 || i >= s.len() || s[i] == 0 {
        Seq::empty()
    } else if s[i] == 10 {
        text_draws(x, s, font, i + 1, x, cy + 12)
    } else {
        let g = glyph_of(s[i]);
        if g < 0 {
            text_draws(x, s, font, i + 1, cx + 4, cy)
        } else if cx + font[g] > SCREENWIDTH {
            Seq::empty()
        } else {
            seq![GlyphDraw { x: cx as usize, y: cy as usize, glyph: g as usize }] + text_draws(
                x,
                s,
                font,
                i + 1,
                cx + font[g],
                cy,
            )
        }
    }
}

/// Every character drawn lies within the screen: it ends at or before the
/// right edge.
pub proof fn lemma_text_within_screen(x: int, s: Seq<u8>, font: Seq<u16>, i: int, cx: int, cy: int)
    requires
        font.len() == HU_FONTSIZE,
        0 <= x,
        0 <= cx,
    ensures
        forall|k: int|
            0 <= k < text_draws(x, s, font, i, cx, cy).len() ==> {
                let d = #[trigger] text_draws(x, s, font, i, cx, cy)[k];
                &&& d.glyph < HU_FONTSIZE
                &&& d.x + font[d.glyph as int] <= SCREENWIDTH
            },
    decreases s.len() - i,
{
    if i < 0 || i >= s.len() || s[i] == 0 {
    } else if s[i] == 10 {
        lemma_text_within_screen(x, s, font, i + 1, x, cy + 12);
        assert(text_draws(x, s, font, i, cx, cy) == text_draws(x, s, font, i + 1, x, cy + 12));
    } else {
        let g = glyph_of(s[i]);
        if g < 0 {
            lemma_text_within_screen(x, s, font, i + 1, cx + 4, cy);
            assert(text_draws(x, s, font, i, cx, cy) == text_draws(x, s, font, i + 1, cx + 4, cy));
        } else if cx + font[g] > SCREENWIDTH {
        } else {
            lemma_text_within_screen(x, s, font, i + 1, cx + font[g], cy);
            let rest = text_draws(x, s, font, i + 1, cx + font[g], cy);
            let head = GlyphDraw { x: cx as usize, y: cy as usize, glyph: g as usize };
            assert(text_draws(x, s, font, i, cx, cy) == seq![head] + rest);
            assert forall|k: int| 0 <= k < (seq![head] + rest).len() implies {
                let d = #[trigger] (seq![head] + rest)[k];
                &&& d.glyph < HU_FONTSIZE
                &&& d.x + font[d.glyph as int] <= SCREENWIDTH
            } by {
                if k > 0 {
                    assert((seq![head] + rest)[k] == rest[k - 1]);
                }
            }
        }
    }
}

/// Where the characters of `s` are drawn when the text starts at (x, y)
/// (see `text_draws`).
pub fn M_WriteText(x: usize, y: usize, s: &[u8], font: &[u16]) -> (r: Vec<GlyphDraw>)
    requires
        font@.len() == HU_FONTSIZE,
        x + SCREENWIDTH + 4 * s@.len() + 65535 <= usize::MAX,
        y + 12 * s@.len() <= usize::MAX,
    ensures
        r@ == text_draws(x as int, s@, font@, 0, x as int, y as int),
        forall|k: int|
            0 <= k < r.len() ==> #[trigger] r@[k].glyph < HU_FONTSIZE && r@[k].x + font@[r@[k].glyph as int]
                <= SCREENWIDTH,
{
    let mut draws: Vec<GlyphDraw> = Vec::new();
    let mut cx: usize = x;
    let mut cy: usize = y;
    let mut i: usize = 0;
    while i < s.len()
        invariant
            i <= s@.len(),
            font@.len() == HU_FONTSIZE,
            x + SCREENWIDTH + 4 * s@.len() + 65535 <= usize::MAX,
            y + 12 * s@.len() <= usize::MAX,
            cx <= x + SCREENWIDTH + 4 * i,
            cy <= y + 12 * i,
            draws@ + text_draws(x as int, s@, font@, i as int, cx as int, cy as int) == text_draws(
                x as int,
                s@,
                font@,
                0,
                x as int,
                y as int,
            ),
        decreases s@.len() - i,
    {
        let b = s[i];
        if b == 0 {
            assert(draws@ + Seq::<GlyphDraw>::empty() =~= draws@);
            proof {
                lemma_text_within_screen(x as int, s@, font@, 0, x as int, y as int);
            }
            return draws;
        }
        let ghost before = draws@;
        if b == 10 {
            cx = x;
            cy = cy + 12;
        } else {
            let g = glyph(b);
            if g < 0 {
                cx = cx + 4;
            } else {
                let w = font[g as usize] as usize;
                if cx + w > SCREENWIDTH {
                    assert(draws@ + Seq::<GlyphDraw>::empty() =~= draws@);
                    proof {
                        lemma_text_within_screen(x as int, s@, font@, 0, x as int, y as int);
                    }
                    return draws;
                }
                draws.push(GlyphDraw { x: cx, y: cy, glyph: g as usize });
                cx = cx + w;
                assert(draws@ + text_draws(x as int, s@, font@, i + 1, cx as int, cy as int)
                    =~= before + text_draws(
                    x as int,
                    s@,
                    font@,
                    i as int,
                    (cx - w) as int,
                    cy as int,
                ));
            }
        }
        i += 1;
    }
    assert(draws@ + Seq::<GlyphDraw>::empty() =~= draws@);
    proof {
        lemma_text_within_screen(x as int, s@, font@, 0, x as int, y as int);
    }
    draws
}

/// The number of newlines among the bytes of `s` before `n` (and before the
/// first zero byte).
pub open spec fn newlines(s: Seq<u8>, n: int) -> int
    decreases n,
{
    if n <= 0 || n > s.len() {
        0
    } else if exists|j: int| 0 <= j < n - 1 && s[j] == 0 {
        newlines(s, n - 1)
    } else {
        newlines(s, n - 1) + if s[n - 1] == 10 {
            1int
        } else {
            0int
        }
    }
}

/// How tall the text `s` stands: one font height (`height`) for each of its
/// lines.
pub fn M_StringHeight(s: &[u8], height: usize) -> (r: usize)
    requires
        height * (1 + s@.len()) <= usize::MAX,
    ensures
        r == height * (1 + newlines(s@, s@.len() as int)),
{
    let mut h: usize = height;
    let mut i: usize = 0;
    let mut ended = false;
    while i < s.len()
        invariant
            i <= s@.len(),
            height * (1 + s@.len()) <= usize::MAX,
            ended == exists|j: int| 0 <= j < i && s@[j] == 0,
            0 <= newlines(s@, i as int) <= i,
            h == height * (1 + newlines(s@, i as int)),
        decreases s@.len() - i,
    {
        let ghost n = newlines(s@, i as int);
        assert(newlines(s@, i + 1) == if ended { n } else { n + if s@[i as int] == 10 { 1int } else { 0int } });
        if !ended && s[i] == 10 {
            assert(height * (1 + n + 1) <= height * (1 + s@.len()) && height * (1 + n + 1) == height
                * (1 + n) + height) by (nonlinear_arith)
                requires
                    0 <= n <= i,
                    i < s@.len(),
            ;
            h = h + height;
        }
        if s[i] == 0 {
            ended = true;
        }
        i += 1;
    }
    h
}

} // verus!
