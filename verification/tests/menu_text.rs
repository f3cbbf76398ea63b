use lib::text::{GlyphDraw, M_StringHeight, M_WriteText};

fn font() -> Vec<u16> {
    let mut f = vec![8u16; 63];
    f[0] = 3; // '!'
    f
}

fn at(x: usize, y: usize, glyph: usize) -> GlyphDraw {
    GlyphDraw { x, y, glyph }
}

#[test]
fn text_is_laid_out_left_to_right() {
    let f = font();
    assert_eq!(M_WriteText(10, 20, b"Hi!", &f), vec![at(10, 20, 39), at(18, 20, 40), at(26, 20, 0)]);
    assert_eq!(M_WriteText(10, 20, b"A B", &f), vec![at(10, 20, 32), at(22, 20, 33)]);
    assert_eq!(M_WriteText(10, 20, &[65, 200, 66], &f), vec![at(10, 20, 32), at(22, 20, 33)]);
}

#[test]
fn newlines_zero_bytes_and_the_screen_edge() {
    let f = font();
    assert_eq!(M_WriteText(5, 0, b"A\nB", &f), vec![at(5, 0, 32), at(5, 12, 33)]);
    assert_eq!(M_WriteText(5, 0, b"A\0B", &f), vec![at(5, 0, 32)]);
    assert_eq!(M_WriteText(308, 0, b"AB", &f), vec![at(308, 0, 32)]);
    assert_eq!(M_WriteText(315, 0, b"A!", &f), vec![]);
    assert_eq!(M_WriteText(0, 0, b"", &f), vec![]);
}

#[test]
fn text_height_counts_lines() {
    assert_eq!(M_StringHeight(b"one", 8), 8);
    assert_eq!(M_StringHeight(b"one\ntwo\n", 8), 24);
    assert_eq!(M_StringHeight(b"a\0\n", 8), 8);
    assert_eq!(M_StringHeight(b"", 7), 7);
}
