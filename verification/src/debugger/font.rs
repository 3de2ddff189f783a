// The debugger's bitmap font: 8x8 glyphs cut out of a 256x64 one-bit image
use vstd::prelude::*;
use vstd::arithmetic::div_mod::{lemma_fundamental_div_mod, lemma_fundamental_div_mod_converse};
use vstd::arithmetic::mul::lemma_mul_inequality;
use crate::utils::{fetch_c64_color_rgba, spec_color_rgba};

verus! {

/// Width of the font image in pixels (32 glyphs of 8 pixels).
pub const FONT_IMAGE_W: usize = 256;
/// Height of the font image in pixels (8 rows of glyphs).
pub const FONT_IMAGE_H: usize = 64;
/// Bytes of one row of the 24-bit bitmap the font is read from.
pub const BMP_ROW_BYTES: usize = 768;

/// Pixel `i` of the font image (row `i / 256`, column `i % 256`): 1 where the bitmap's
/// first colour byte is set. Bitmaps store their rows bottom up.
pub open spec fn bmp_pixel(bmp: Seq<u8>, i: int) -> u8 {
    let r = i / 256;
    let c = i % 256;
    if bmp[(63 - r) * 768 + 3 * c] != 0 { 1 } else { 0 }
}

/// The glyph pixel of `charcode` at row `k` and column `l` of its 8x8 cell.
pub open spec fn glyph_index(charcode: u8, k: int, l: int) -> int {
    (8 * (charcode / 32) + k) * 256 + 8 * (charcode % 32) + l
}

/// Whether buffer index `i` lies in the 8x8 cell at (`x`, `y`) of a buffer `w` pixels wide,
/// counting rows before `k` and, in row `k`, columns before `l`.
pub open spec fn cell_drawn(w: int, x: int, y: int, k: int, l: int, i: int) -> bool {
    let rel = i - (y * w + x);
    &&& rel >= 0
    &&& rel % w < 8
    &&& (rel / w < k || (rel / w == k && rel % w < l))
}

/// Whether buffer index `i` lies in the first `n` glyph cells of a text line whose top left
/// corner is pixel (`x0`, `y0`), in a buffer `w` pixels wide.
pub open spec fn text_drawn(w: int, x0: int, y0: int, n: int, i: int) -> bool {
    let rel = i - (y0 * w + x0);
    &&& w > 0
    &&& rel >= 0
    &&& rel / w < 8
    &&& rel % w < 8 * n
}

/// A cell of a glyph 8 pixels to the right of a text line's start lies where the line's
/// column is between `s` and `s + 8`; its row and column are those of the line, less `s`.
proof fn lemma_cell_shift(w: int, rel: int, s: int)
    requires
        0 <= s,
        s + 8 <= w,
    ensures
        (rel - s >= 0 && (rel - s) % w < 8 && (rel - s) / w < 8)
            <==> (rel >= 0 && rel / w < 8 && s <= rel % w < s + 8),
        rel >= 0 && s <= rel % w ==> (rel - s) / w == rel / w && (rel - s) % w == rel % w - s,
{
    lemma_fundamental_div_mod(rel, w);
    let q = rel / w;
    let m = rel % w;
    if m >= s {
        assert(rel - s == q * w + (m - s)) by (nonlinear_arith)
            requires
                rel == w * q + m,
        ;
        lemma_fundamental_div_mod_converse(rel - s, w, q, m - s);
    } else if rel - s >= 0 {
        assert(q >= 1) by (nonlinear_arith)
            requires
                rel == w * q + m,
                0 <= m < s,
                rel >= s,
                w > 0,
        ;
        assert(rel - s == (q - 1) * w + (w + m - s)) by (nonlinear_arith)
            requires
                rel == w * q + m,
        ;
        lemma_fundamental_div_mod_converse(rel - s, w, q - 1, w + m - s);
    }
}

/// The PETSCII screen code the font shows for an ASCII byte (`?` for the rest).
pub open spec fn petscii(c: u8) -> u8 {
    if c == 0x40 {
        0
    } else if 0x41 <= c <= 0x5A {
        (c - 0x40) as u8
    } else if 0x61 <= c <= 0x7A {
        (c - 0x60) as u8
    } else if c == 0x5B {
        27
    } else if c == 0x5D {
        28
    } else if 0x20 <= c <= 0x26 || 0x28 <= c <= 0x3F {
        c
    } else if c == 0x60 {
        39
    } else {
        63
    }
}

/// The font image (one byte, 0 or 1, per pixel) and the width of the window it draws on.
pub struct SysFont {
    pub data: Vec<u8>,
    pub window_w: usize,
    pub window_h: usize,
}

impl SysFont {
    /// The image holds 256x64 pixels, each 0 or 1.
    pub open spec fn wf(&self) -> bool {
        &&& self.data@.len() == 256 * 64
        &&& forall|i: int| 0 <= i < self.data@.len() ==> #[trigger] self.data@[i] <= 1
    }

    /// Reads the font from the pixel data of a 24-bit, 256x64 bitmap.
    pub fn new(bmp: &[u8], window_w: usize, window_h: usize) -> (f: SysFont)
        requires
            bmp@.len() >= 64 * 768,
        ensures
            f.wf(),
            f.window_w == window_w && f.window_h == window_h,
            forall|i: int| 0 <= i < 256 * 64 ==> #[trigger] f.data@[i] == bmp_pixel(bmp@, i),
    {
        let mut data: Vec<u8> = Vec::new();
        let mut r: usize = 0;
        while r < 64
            invariant
                r <= 64,
                bmp@.len() >= 64 * 768,
                data@.len() == r * 256,
                forall|i: int| 0 <= i < data@.len() ==> #[trigger] data@[i] == bmp_pixel(bmp@, i),
            decreases 64 - r,
        {
            let mut c: usize = 0;
            while c < 256
                invariant
                    r < 64,
                    c <= 256,
                    bmp@.len() >= 64 * 768,
                    data@.len() == r * 256 + c,
                    forall|i: int| 0 <= i < data@.len() ==> #[trigger] data@[i] == bmp_pixel(bmp@, i),
                decreases 256 - c,
            {
                let v: u8 = if bmp[(63 - r) * 768 + 3 * c] != 0 { 1 } else { 0 };
                proof {
                    lemma_fundamental_div_mod_converse((r * 256 + c) as int, 256, r as int, c as int);
                }
                data.push(v);
                c = c + 1;
            }
            r = r + 1;
        }
        SysFont { data, window_w, window_h }
    }

    /// Draws glyph `charcode` with its top left corner at pixel (`x`, `y`): set pixels take
    /// `color`, clear ones 0.
    pub fn draw_char_rgb(&self, window_buffer: &mut Vec<u32>, x: usize, y: usize, charcode: u8, color: u32)
        requires
            self.wf(),
            x + 8 <= self.window_w,
            (y + 8) * self.window_w <= old(window_buffer)@.len(),
        ensures
            final(window_buffer)@.len() == old(window_buffer)@.len(),
            forall|i: int| 0 <= i < old(window_buffer)@.len() ==> #[trigger] final(window_buffer)@[i] == (
                if cell_drawn(self.window_w as int, x as int, y as int, 8, 0, i) {
                    let rel = i - (y * self.window_w + x);
                    if self.data@[glyph_index(charcode, rel / self.window_w as int, rel % self.window_w as int)] != 0 {
                        color
                    } else {
                        0
                    }
                } else {
                    old(window_buffer)@[i]
                }),
    {
        let w = self.window_w;
        let data_x: usize = 8 * (charcode % 32) as usize;
        let data_y: usize = 8 * (charcode / 32) as usize;
        let ghost orig = window_buffer@;
        let ghost wi = w as int;
        let blen = window_buffer.len();
        proof {
            assert((y + 8) <= (y + 8) * w) by (nonlinear_arith)
                requires
                    w >= 8,
            ;
        }
        let mut k: usize = 0;
        while k < 8
            invariant
                k <= 8,
                self.wf(),
                w == self.window_w,
                wi == w as int,
                x + 8 <= w,
                (y + 8) * w <= orig.len(),
                y + 8 <= (y + 8) * w,
                orig.len() == blen,
                data_x == 8 * (charcode % 32) && data_y == 8 * (charcode / 32),
                window_buffer@.len() == orig.len(),
                forall|i: int| 0 <= i < orig.len() ==> #[trigger] window_buffer@[i] == (
                    if cell_drawn(wi, x as int, y as int, k as int, 0, i) {
                        let rel = i - (y * wi + x);
                        if self.data@[glyph_index(charcode, rel / wi, rel % wi)] != 0 { color } else { 0 }
                    } else {
                        orig[i]
                    }),
            decreases 8 - k,
        {
            proof {
                lemma_mul_inequality((y + k + 1) as int, (y + 8) as int, w as int);
                assert((y + k) * w == y * w + k * w) by (nonlinear_arith);
                assert((y + k + 1) * w == (y + k) * w + w) by (nonlinear_arith);
            }
            let row: usize = (y + k) * w;
            let mut l: usize = 0;
            while l < 8
                invariant
                    k < 8,
                    l <= 8,
                    self.wf(),
                    w == self.window_w,
                    wi == w as int,
                    x + 8 <= w,
                    (y + 8) * w <= orig.len(),
                    orig.len() == blen,
                    row == (y + k) * w,
                    (y + k) * w == y * w + k * w,
                    row + w <= (y + 8) * w,
                    data_x == 8 * (charcode % 32) && data_y == 8 * (charcode / 32),
                    window_buffer@.len() == orig.len(),
                    forall|i: int| 0 <= i < orig.len() ==> #[trigger] window_buffer@[i] == (
                        if cell_drawn(wi, x as int, y as int, k as int, l as int, i) {
                            let rel = i - (y * wi + x);
                            if self.data@[glyph_index(charcode, rel / wi, rel % wi)] != 0 { color } else { 0 }
                        } else {
                            orig[i]
                        }),
                decreases 8 - l,
            {
                let di: usize = (data_y + k) * 256 + data_x + l;
                let v: u32 = if self.data[di] != 0 { color } else { 0 };
                let idx: usize = row + x + l;
                proof {
                    lemma_fundamental_div_mod_converse((k * w + l) as int, wi, k as int, l as int);
                    assert(idx - (y * wi + x) == k * w + l);
                    assert forall|i: int| 0 <= i < orig.len() && i != idx implies
                        cell_drawn(wi, x as int, y as int, k as int, l as int + 1, i)
                            == cell_drawn(wi, x as int, y as int, k as int, l as int, i) by {
                        let rel = i - (y * wi + x);
                        lemma_fundamental_div_mod(rel, wi);
                        if rel / wi == k as int && rel % wi == l as int {
                            let q = rel / wi;
                            let m = rel % wi;
                            assert(rel == k * wi + l) by (nonlinear_arith)
                                requires
                                    rel == wi * q + m,
                                    q == k,
                                    m == l,
                            ;
                        }
                    }
                }
                window_buffer.set(idx, v);
                l = l + 1;
            }
            proof {
                assert forall|i: int| 0 <= i < orig.len() implies
                    cell_drawn(wi, x as int, y as int, k as int + 1, 0, i)
                        == cell_drawn(wi, x as int, y as int, k as int, 8, i) by {
                }
            }
            k = k + 1;
        }
    }

    /// Draws glyph `charcode` in one of the 16 C64 colours.
    pub fn draw_char(&self, window_buffer: &mut Vec<u32>, x: usize, y: usize, charcode: u8, c64_color: u8)
        requires
            self.wf(),
            x + 8 <= self.window_w,
            (y + 8) * self.window_w <= old(window_buffer)@.len(),
        ensures
            final(window_buffer)@.len() == old(window_buffer)@.len(),
            forall|i: int| 0 <= i < old(window_buffer)@.len() ==> #[trigger] final(window_buffer)@[i] == (
                if cell_drawn(self.window_w as int, x as int, y as int, 8, 0, i) {
                    let rel = i - (y * self.window_w + x);
                    if self.data@[glyph_index(charcode, rel / self.window_w as int, rel % self.window_w as int)] != 0 {
                        spec_color_rgba(c64_color)
                    } else {
                        0
                    }
                } else {
                    old(window_buffer)@[i]
                }),
    {
        self.draw_char_rgb(window_buffer, x, y, charcode, fetch_c64_color_rgba(c64_color));
    }

    /// Writes ASCII text with its first glyph in character cell (`x`, `y`), in RGB `color`.
    pub fn draw_text_rgb(&self, window_buffer: &mut Vec<u32>, x: usize, y: usize, text: &[u8], color: u32)
        requires
            self.wf(),
            8 * (x + text@.len()) <= self.window_w,
            (8 * y + 8) * self.window_w <= old(window_buffer)@.len(),
        ensures
            final(window_buffer)@.len() == old(window_buffer)@.len(),
            forall|i: int| 0 <= i < old(window_buffer)@.len() ==> #[trigger] final(window_buffer)@[i] == (
                if text_drawn(self.window_w as int, 8 * x, 8 * y, text@.len() as int, i) {
                    let rel = i - (8 * y * self.window_w + 8 * x);
                    let col = rel % self.window_w as int;
                    if self.data@[glyph_index(petscii(text@[col / 8]), rel / self.window_w as int, col % 8)] != 0 {
                        color
                    } else {
                        0
                    }
                } else {
                    old(window_buffer)@[i]
                }),
    {
        let ghost orig = window_buffer@;
        let ghost wi = self.window_w as int;
        let blen = window_buffer.len();
        let mut j: usize = 0;
        while j < text.len()
            invariant
                j <= text@.len(),
                self.wf(),
                wi == self.window_w as int,
                8 * (x + text@.len()) <= self.window_w,
                (8 * y + 8) * self.window_w <= orig.len(),
                orig.len() == blen,
                window_buffer@.len() == orig.len(),
                forall|i: int| 0 <= i < orig.len() ==> #[trigger] window_buffer@[i] == (
                    if text_drawn(wi, 8 * x, 8 * y, j as int, i) {
                        let rel = i - (8 * y * wi + 8 * x);
                        let col = rel % wi;
                        if self.data@[glyph_index(petscii(text@[col / 8]), rel / wi, col % 8)] != 0 {
                            color
                        } else {
                            0
                        }
                    } else {
                        orig[i]
                    }),
            decreases text@.len() - j,
        {
            proof {
                assert(8 * y + 8 <= (8 * y + 8) * wi) by (nonlinear_arith)
                    requires
                        wi >= 8,
                ;
            }
            let code = self.ascii_to_petscii(text[j]);
            self.draw_char_rgb(window_buffer, x * 8 + 8 * j, y * 8, code, color);
            proof {
                assert forall|i: int| 0 <= i < orig.len() implies #[trigger] window_buffer@[i] == (
                    if text_drawn(wi, 8 * x, 8 * y, j as int + 1, i) {
                        let rel = i - (8 * y * wi + 8 * x);
                        let col = rel % wi;
                        if self.data@[glyph_index(petscii(text@[col / 8]), rel / wi, col % 8)] != 0 {
                            color
                        } else {
                            0
                        }
                    } else {
                        orig[i]
                    }) by {
                    let rel = i - (8 * y * wi + 8 * x);
                    assert(i - ((y * 8) * wi + (x * 8 + 8 * j)) == rel - 8 * j) by (nonlinear_arith)
                        requires
                            rel == i - (8 * y * wi + 8 * x),
                    ;
                    lemma_cell_shift(wi, rel, 8 * j as int);
                    if rel >= 0 && 8 * j <= rel % wi < 8 * j + 8 {
                        lemma_fundamental_div_mod_converse(rel % wi, 8, j as int, rel % wi - 8 * j);
                    }
                }
            }
            j = j + 1;
        }
    }

    /// Writes ASCII text with its first glyph in character cell (`x`, `y`), in one of the
    /// 16 C64 colours.
    pub fn draw_text(&self, window_buffer: &mut Vec<u32>, x: usize, y: usize, text: &[u8], c64_color: u8)
        requires
            self.wf(),
            8 * (x + text@.len()) <= self.window_w,
            (8 * y + 8) * self.window_w <= old(window_buffer)@.len(),
        ensures
            final(window_buffer)@.len() == old(window_buffer)@.len(),
            forall|i: int| 0 <= i < old(window_buffer)@.len() ==> #[trigger] final(window_buffer)@[i] == (
                if text_drawn(self.window_w as int, 8 * x, 8 * y, text@.len() as int, i) {
                    let rel = i - (8 * y * self.window_w + 8 * x);
                    let col = rel % self.window_w as int;
                    if self.data@[glyph_index(petscii(text@[col / 8]), rel / self.window_w as int, col % 8)] != 0 {
                        spec_color_rgba(c64_color)
                    } else {
                        0
                    }
                } else {
                    old(window_buffer)@[i]
                }),
    {
        self.draw_text_rgb(window_buffer, x, y, text, fetch_c64_color_rgba(c64_color));
    }

    /// The screen code the font shows for an ASCII byte.
    pub fn ascii_to_petscii(&self, c_ascii: u8) -> (code: u8)
        ensures
            code == petscii(c_ascii),
    {
        if c_ascii == 0x40 {
            0
        } else if 0x41 <= c_ascii && c_ascii <= 0x5A {
            c_ascii - 0x40
        } else if 0x61 <= c_ascii && c_ascii <= 0x7A {
            c_ascii - 0x60
        } else if c_ascii == 0x5B {
            27
        } else if c_ascii == 0x5D {
            28
        } else if (0x20 <= c_ascii && c_ascii <= 0x26) || (0x28 <= c_ascii && c_ascii <= 0x3F) {
            c_ascii
        } else if c_ascii == 0x60 {
            39
        } else {
            63
        }
    }
}

} // verus!
