use vstd::prelude::*;

use crate::cpu::{cell_col, cell_row, lemma_cell, sprite_bit, DISPLAY_DATA_LEN};

verus! {

/// The overlay after filling the rectangle `w` x `h` at `(x, y)`.
pub open spec fn rect_spec(s: Seq<Option<bool>>, x: int, y: int, w: int, h: int, on: bool) -> Seq<Option<bool>> {
    Seq::new(
        DISPLAY_DATA_LEN as nat,
        |k: int|
            if y <= k / 64 < y + h && x <= k % 64 < x + w {
                Some(on)
            } else {
                s[k]
            },
    )
}

/// Whether sprite `rows` drawn at `(x, y)` covers cell `k` with a set pixel.
pub open spec fn sprite_covers(rows: Seq<u8>, x: int, y: int, k: int) -> bool {
    let r = cell_row(y, k);
    let c = cell_col(x, k);
    r < rows.len() && c < 8 && sprite_bit(rows[r], c)
}

/// The overlay after setting the set pixels of sprite `rows` at `(x, y)`;
/// coordinates wrap around the edges.
pub open spec fn sprite_spec(s: Seq<Option<bool>>, rows: Seq<u8>, x: int, y: int, on: bool) -> Seq<Option<bool>> {
    Seq::new(DISPLAY_DATA_LEN as nat, |k: int| if sprite_covers(rows, x, y, k) { Some(on) } else { s[k] })
}

/// Glyph number of an ASCII character in the overlay font: 1-10 digits,
/// 11-36 lowercase letters, 37-45 `! ? . > < / | \ -`, 0 anything else.
pub open spec fn glyph_index_spec(c: u8) -> u8 {
    if 48 <= c <= 57 {
        (c - 48 + 1) as u8
    } else if 97 <= c <= 122 {
        (c - 97 + 11) as u8
    } else if c == 33 {
        37
    } else if c == 63 {
        38
    } else if c == 46 {
        39
    } else if c == 62 {
        40
    } else if c == 60 {
        41
    } else if c == 47 {
        42
    } else if c == 124 {
        43
    } else if c == 92 {
        44
    } else if c == 45 {
        45
    } else {
        0
    }
}

/// The overlay after writing `text[i..]`, glyph `i` at `x + 5 * i`. Spaces
/// leave a gap; a glyph missing from `font` ends the text.
pub open spec fn text_spec(
    s: Seq<Option<bool>>,
    text: Seq<u8>,
    x: int,
    y: int,
    on: bool,
    font: Seq<u8>,
    i: int,
) -> Seq<Option<bool>>
    decreases text.len() - i,
{
    if i < 0 || i >= text.len() {
        s
    } else if text[i] == 32 {
        text_spec(s, text, x, y, on, font, i + 1)
    } else {
        let row = glyph_index_spec(text[i]) * 5;
        if row + 5 > font.len() {
            s
        } else {
            text_spec(sprite_spec(s, font.subrange(row, row + 5), x + 5 * i, y, on), text, x, y, on, font, i + 1)
        }
    }
}

/// Fills a rectangle that lies inside the display.
pub fn draw_rect(screen: &mut [Option<bool>; DISPLAY_DATA_LEN], x: u8, y: u8, w: u8, h: u8, on: bool)
    requires
        x + w <= 64,
        y + h <= 32,
    ensures
        final(screen)@ == rect_spec(old(screen)@, x as int, y as int, w as int, h as int, on),
{
    let x = x as usize;
    let y = y as usize;
    let w = w as usize;
    let h = h as usize;
    let sw: usize = 64;
    let mut row: usize = 0;
    while row < h
        invariant
            x + w <= 64,
            y + h <= 32,
            row <= h,
            sw == 64,
            screen@.len() == DISPLAY_DATA_LEN,
            forall|k: int|
                0 <= k < DISPLAY_DATA_LEN ==> #[trigger] screen@[k] == (if y <= k / 64 < y + row && x <= k % 64 < x + w {
                    Some(on)
                } else {
                    old(screen)@[k]
                }),
        decreases h - row,
    {
        let line = y + row;
        let start = line * sw + x;
        let end = line * sw + x + w;
        let mut i: usize = start;
        while i < end
            invariant
                x + w <= 64,
                y + h <= 32,
                row < h,
                line == y + row,
                start == line * 64 + x,
                end == line * 64 + x + w,
                start <= i <= end,
                sw == 64,
                screen@.len() == DISPLAY_DATA_LEN,
                forall|k: int|
                    0 <= k < DISPLAY_DATA_LEN ==> #[trigger] screen@[k] == (if (y <= k / 64 < y + row && x <= k % 64
                        < x + w) || (start <= k < i) {
                        Some(on)
                    } else {
                        old(screen)@[k]
                    }),
            decreases end - i,
        {
            screen[i] = Some(on);
            i += 1;
        }
        proof {
            assert forall|k: int| 0 <= k < DISPLAY_DATA_LEN implies #[trigger] screen@[k] == (if y <= k / 64 < y + row
                + 1 && x <= k % 64 < x + w {
                Some(on)
            } else {
                old(screen)@[k]
            }) by {
                assert(0 <= k % 64 < 64 && k == (k / 64) * 64 + k % 64) by (nonlinear_arith)
                    requires
                        0 <= k,
                ;
                if k / 64 < line {
                    assert((k / 64) * 64 + 64 <= line * 64) by (nonlinear_arith)
                        requires
                            k / 64 < line,
                    ;
                }
                if k / 64 > line {
                    assert((k / 64) * 64 >= line * 64 + 64) by (nonlinear_arith)
                        requires
                            k / 64 > line,
                    ;
                }
            }
        }
        row += 1;
    }
    assert(screen@ =~= rect_spec(old(screen)@, x as int, y as int, w as int, h as int, on));
}

/// Sets the pixels of a sprite of at most 32 rows, wrapping around the edges.
pub fn draw_sprite(screen: &mut [Option<bool>; DISPLAY_DATA_LEN], rows: &[u8], x: u8, y: u8, on: bool)
    requires
        rows@.len() <= 32,
    ensures
        final(screen)@ == sprite_spec(old(screen)@, rows@, x as int, y as int, on),
{
    let x = x as usize;
    let y = y as usize;
    let sw: usize = 64;
    let sh: usize = 32;
    let mut row: usize = 0;
    while row < rows.len()
        invariant
            rows@.len() <= 32,
            row <= rows@.len(),
            sw == 64,
            sh == 32,
            x < 256,
            y < 256,
            screen@.len() == DISPLAY_DATA_LEN,
            forall|k: int|
                0 <= k < DISPLAY_DATA_LEN ==> #[trigger] screen@[k] == (if sprite_covers(rows@, x as int, y as int, k)
                    && cell_row(y as int, k) < row {
                    Some(on)
                } else {
                    old(screen)@[k]
                }),
        decreases rows@.len() - row,
    {
        let pixels = rows[row];
        let mut col: usize = 0;
        while col < 8
            invariant
                rows@.len() <= 32,
                row < rows@.len(),
                col <= 8,
                sw == 64,
                sh == 32,
                x < 256,
                y < 256,
                pixels == rows@[row as int],
                screen@.len() == DISPLAY_DATA_LEN,
                forall|k: int|
                    0 <= k < DISPLAY_DATA_LEN ==> #[trigger] screen@[k] == (if sprite_covers(rows@, x as int, y as int, k)
                        && (cell_row(y as int, k) < row || (cell_row(y as int, k) == row && cell_col(x as int, k)
                        < col)) {
                        Some(on)
                    } else {
                        old(screen)@[k]
                    }),
            decreases 8 - col,
        {
            let cx = (x + col) % sw;
            let cy = (y + row) % sh;
            let idx = cy * sw + cx;
            proof {
                assert forall|k: int| 0 <= k < DISPLAY_DATA_LEN implies ({
                    &&& 0 <= idx < DISPLAY_DATA_LEN
                    &&& cell_col(x as int, idx as int) == col
                    &&& cell_row(y as int, idx as int) == row
                    &&& (cell_col(x as int, k) == col && cell_row(y as int, k) == row ==> k == idx)
                }) by {
                    lemma_cell(x as int, y as int, row as int, col as int, k);
                }
                lemma_cell(x as int, y as int, row as int, col as int, 0);
            }
            if (pixels >> (7 - col as u8)) & 1u8 == 1u8 {
                screen[idx] = Some(on);
            }
            col += 1;
        }
        row += 1;
    }
    assert(screen@ =~= sprite_spec(old(screen)@, rows@, x as int, y as int, on));
}

/// Glyph number of an ASCII character in the overlay font.
pub fn glyph_index(c: u8) -> (r: u8)
    ensures
        r == glyph_index_spec(c),
{
    if 48 <= c && c <= 57 {
        c - 48 + 1
    } else if 97 <= c && c <= 122 {
        c - 97 + 11
    } else if c == 33 {
        37
    } else if c == 63 {
        38
    } else if c == 46 {
        39
    } else if c == 62 {
        40
    } else if c == 60 {
        41
    } else if c == 47 {
        42
    } else if c == 124 {
        43
    } else if c == 92 {
        44
    } else if c == 45 {
        45
    } else {
        0
    }
}

/// Writes ASCII `text` with the 5-row glyphs of `font`, one glyph every 5
/// columns from `x`.
pub fn draw_text(screen: &mut [Option<bool>; DISPLAY_DATA_LEN], text: &[u8], x: u8, y: u8, on: bool, font: &[u8])
    requires
        x + 5 * text@.len() <= 260,
    ensures
        final(screen)@ == text_spec(old(screen)@, text@, x as int, y as int, on, font@, 0),
{
    let mut i: usize = 0;
    while i < text.len()
        invariant
            x + 5 * text@.len() <= 260,
            i <= text@.len(),
            text_spec(old(screen)@, text@, x as int, y as int, on, font@, 0) == text_spec(
                screen@,
                text@,
                x as int,
                y as int,
                on,
                font@,
                i as int,
            ),
        decreases text@.len() - i,
    {
        let c = text[i];
        if c != 32 {
            let row = glyph_index(c) as usize * 5;
            if row + 5 > font.len() {
                return;
            }
            let glyph = slice_range(font, row, row + 5);
            draw_sprite(screen, glyph.as_slice(), x + i as u8 * 5, y, on);
        }
        i += 1;
    }
}

/// `s[from..to]` as a new vector.
fn slice_range(s: &[u8], from: usize, to: usize) -> (r: Vec<u8>)
    requires
        from <= to <= s@.len(),
    ensures
        r@ == s@.subrange(from as int, to as int),
{
    let mut r: Vec<u8> = Vec::new();
    let mut k: usize = from;
    while k < to
        invariant
            from <= k <= to <= s@.len(),
            r@ == s@.subrange(from as int, k as int),
        decreases to - k,
    {
        r.push(s[k]);
        k += 1;
        assert(r@ =~= s@.subrange(from as int, k as int));
    }
    r
}

} // verus!
