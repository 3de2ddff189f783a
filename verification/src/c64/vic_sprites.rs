// VIC-II sprite drawing: expansion, priorities and collision detection for one line
use vstd::prelude::*;
use crate::c64::memory::{Memory, MemoryView, MemBankView, MemType};
use crate::c64::cpu::CPU;
use crate::c64::vic::{VIC, VicRegs};
use crate::c64::vic_draw::color_reg;
use crate::utils::{fetch_c64_color_rgba, spec_color_rgba};

verus! {

/// Bit `i` of a byte, as 0 or 1.
pub open spec fn bit_at(b: u8, i: u8) -> int {
    ((b >> i) % 2) as int
}

/// A byte with every bit doubled (X expansion of a hires sprite byte).
pub open spec fn spec_exp(b: u8) -> int {
    3 * bit_at(b, 0) + 12 * bit_at(b, 1) + 48 * bit_at(b, 2) + 192 * bit_at(b, 3) + 768 * bit_at(b, 4)
        + 3072 * bit_at(b, 5) + 12288 * bit_at(b, 6) + 49152 * bit_at(b, 7)
}

/// Bit pair `j` of a byte (0 to 3).
pub open spec fn pair_at(b: u8, j: u8) -> int {
    ((b >> (2 * j) as u8) % 4) as int
}

/// A byte with every bit pair doubled (X expansion of a multicolor sprite byte).
pub open spec fn spec_multi_exp(b: u8) -> int {
    5 * pair_at(b, 0) + 80 * pair_at(b, 1) + 1280 * pair_at(b, 2) + 20480 * pair_at(b, 3)
}

/// Doubles every bit of a byte.
pub fn exp_byte(b: u8) -> (r: u16)
    ensures
        r == spec_exp(b),
{
    let mut r: u16 = 0;
    if (b >> 0u8) % 2 == 1 { r = r + 3; }
    if (b >> 1u8) % 2 == 1 { r = r + 12; }
    if (b >> 2u8) % 2 == 1 { r = r + 48; }
    if (b >> 3u8) % 2 == 1 { r = r + 192; }
    if (b >> 4u8) % 2 == 1 { r = r + 768; }
    if (b >> 5u8) % 2 == 1 { r = r + 3072; }
    if (b >> 6u8) % 2 == 1 { r = r + 12288; }
    if (b >> 7u8) % 2 == 1 { r = r + 49152; }
    r
}

/// Doubles every bit pair of a byte.
pub fn multi_exp_byte(b: u8) -> (r: u16)
    ensures
        r == spec_multi_exp(b),
{
    let p0 = ((b >> 0u8) % 4) as u16;
    let p1 = ((b >> 2u8) % 4) as u16;
    let p2 = ((b >> 4u8) % 4) as u16;
    let p3 = ((b >> 6u8) % 4) as u16;
    5 * p0 + 80 * p1 + 1280 * p2 + 20480 * p3
}

/// The interrupt flags after the collision checks: with no sprite-sprite (`spr`) or no
/// sprite-background (`bgr`) collision bits the corresponding flag is raised, with the
/// IRQ bit when that interrupt is enabled.
pub open spec fn collision_irq_flag(f: u8, mask: u8, spr: u8, bgr: u8) -> u8 {
    let f1 = if spr == 0 {
        if (mask & 0x04) != 0 { f | 0x04 | 0x80 } else { f | 0x04 }
    } else {
        f
    };
    if bgr == 0 {
        if (mask & 0x02) != 0 { f1 | 0x02 | 0x80 } else { f1 | 0x02 }
    } else {
        f1
    }
}

/// Whether the collision checks ask the CPU for an interrupt.
pub open spec fn collision_raises(mask: u8, spr: u8, bgr: u8) -> bool {
    (spr == 0 && (mask & 0x04) != 0) || (bgr == 0 && (mask & 0x02) != 0)
}

/// The colors of a paint run: hires runs use `color` alone; multicolor runs pick, per
/// pixel pair of the two planes, nothing (00), shared color 0 (01), `color` (10) or
/// shared color 1 (11).
pub struct SpriteColors {
    pub multi: bool,
    pub color: u8,
    pub mc0: u8,
    pub mc1: u8,
}

/// Whether `new` differs from `old` only within the line that starts at `ls`.
pub open spec fn only_line_changed(old: Seq<u32>, new: Seq<u32>, ls: int) -> bool {
    &&& new.len() == old.len()
    &&& forall|i: int| 0 <= i < old.len() && !(ls <= i < ls + 384) ==> #[trigger] new[i] == old[i]
}

/// Whether pixel `i` of a run is set in a bit plane: the planes are read from bit 31 down.
pub open spec fn plane_bit(pl: u32, i: int) -> bool {
    ((pl >> ((31 - i) as u32)) & 1u32) == 1u32
}

/// One pixel of a paint run: the colour the planes select for pixel `i` (none for a clear
/// hires pixel or a 00 multicolor pair) is drawn at screen index `p + i` and marks the
/// collision buffer at `q + i` with the sprite's bit, unless an earlier sprite marked that
/// place: then nothing is drawn and the collision bits gain both sprites' bits.
pub open spec fn paint_pixel(w: Seq<u32>, cb: Seq<u8>, coll: u8, p: int, q: int, i: int, pl0: u32, pl1: u32,
    colors: SpriteColors, sbit: u8) -> (Seq<u32>, Seq<u8>, u8) {
    let on0 = plane_bit(pl0, i);
    let on1 = plane_bit(pl1, i);
    let draw = if colors.multi { on0 || on1 } else { on0 };
    let col = if colors.multi && on1 && on0 {
        colors.mc1
    } else if colors.multi && !on1 && on0 {
        colors.mc0
    } else {
        colors.color
    };
    if !draw {
        (w, cb, coll)
    } else if cb[q + i] != 0 {
        (w, cb, coll | cb[q + i] | sbit)
    } else {
        (w.update(p + i, spec_color_rgba(col)), cb.update(q + i, sbit), coll)
    }
}

/// The window, the collision buffer and the collision bits after the first `k` pixels of
/// a paint run.
pub open spec fn paint_pixels(w: Seq<u32>, cb: Seq<u8>, p: int, q: int, k: int, pl0: u32, pl1: u32,
    colors: SpriteColors, sbit: u8) -> (Seq<u32>, Seq<u8>, u8)
    decreases k,
{
    if k <= 0 {
        (w, cb, 0u8)
    } else {
        let (w1, cb1, c1) = paint_pixels(w, cb, p, q, k - 1, pl0, pl1, colors, sbit);
        paint_pixel(w1, cb1, c1, p, q, k - 1, pl0, pl1, colors, sbit)
    }
}

/// Shifting a plane left by `i` brings pixel `i` to bit 31.
proof fn lemma_plane_shift(pl: u32, i: u32)
    requires
        i < 32,
    ensures
        ((pl << i) & 0x8000_0000u32 != 0) == (((pl >> (31 - i) as u32) & 1u32) == 1u32),
        i < 31 ==> (pl << i) << 1u32 == pl << ((i + 1) as u32),
        pl << 0u32 == pl,
{
    assert(((pl << i) & 0x8000_0000u32 != 0) == (((pl >> (31 - i) as u32) & 1u32) == 1u32)) by (bit_vector)
        requires
            i < 32,
    ;
    assert((i < 31 ==> (pl << i) << 1u32 == pl << ((i + 1) as u32)) && pl << 0u32 == pl) by (bit_vector);
}

/// Paints `n` sprite pixels from screen index `p` (collision buffer index `q`) on, from
/// the top bits of the planes. A pixel over an earlier sprite's pixel is not drawn and
/// records a sprite-sprite collision; the bits of the colliding sprites are returned.
fn paint_run(window: &mut Vec<u32>, coll_buf: &mut [u8; 384], ls: usize, p: usize, q: usize, n: usize,
    plane0: u32, plane1: u32, colors: &SpriteColors, sbit: u8) -> (coll: u8)
    requires
        old(window)@.len() == 384 * 272,
        ls + 384 <= 384 * 272,
        ls <= p,
        p + n <= ls + 384,
        q + n <= 384,
        n <= 32,
    ensures
        only_line_changed(old(window)@, final(window)@, ls as int),
        (final(window)@, final(coll_buf)@, coll) == paint_pixels(old(window)@, old(coll_buf)@, p as int, q as int,
            n as int, plane0, plane1, *colors, sbit),
{
    let mut pl0 = plane0;
    let mut pl1 = plane1;
    let mut coll: u8 = 0;
    let mut i: usize = 0;
    let ghost w0 = window@;
    let ghost cb0 = coll_buf@;
    proof {
        lemma_plane_shift(plane0, 0);
        lemma_plane_shift(plane1, 0);
    }
    while i < n
        invariant
            i <= n,
            n <= 32,
            p + n <= ls + 384,
            ls <= p,
            ls + 384 <= 384 * 272,
            q + n <= 384,
            w0.len() == 384 * 272,
            only_line_changed(w0, window@, ls as int),
            i < 32 ==> pl0 == plane0 << (i as u32) && pl1 == plane1 << (i as u32),
            (window@, coll_buf@, coll) == paint_pixels(w0, cb0, p as int, q as int, i as int, plane0, plane1,
                *colors, sbit),
        decreases n - i,
    {
        proof {
            lemma_plane_shift(plane0, i as u32);
            lemma_plane_shift(plane1, i as u32);
        }
        let on0 = (pl0 & 0x8000_0000) != 0;
        let on1 = (pl1 & 0x8000_0000) != 0;
        let mut draw = true;
        let mut col = colors.color;
        if colors.multi {
            if on1 {
                if on0 {
                    col = colors.mc1;
                }
            } else {
                if on0 {
                    col = colors.mc0;
                } else {
                    draw = false;
                }
            }
        } else {
            draw = on0;
        }
        if draw {
            let other = coll_buf[q + i];
            if other != 0 {
                coll = coll | other | sbit;
            } else {
                let rgba = fetch_c64_color_rgba(col);
                window.set(p + i, rgba);
                coll_buf[q + i] = sbit;
            }
        }
        pl0 = pl0 << 1u32;
        pl1 = pl1 << 1u32;
        i = i + 1;
    }
    coll
}

/// 32 bits of the foreground mask from byte `b` on, shifted left by `sh`, with the bits
/// of the following byte moved in where it exists: the mask bits under the 32 screen
/// pixels from pixel `8 * b + sh` of the mask on.
pub open spec fn spec_fg_window(fg: Seq<u8>, b: int, sh: u32) -> u32 {
    let m: u32 = (((fg[b] as u32) << 24u32) | ((fg[b + 1] as u32) << 16u32) | ((fg[b + 2] as u32) << 8u32)
        | (fg[b + 3] as u32)) << sh;
    if b + 4 < 48 { m | ((fg[b + 4] as u32) >> ((8 - sh) as u32)) } else { m }
}

/// The foreground mask bits for the right part of an X-expanded sprite (bytes `b + 4` on).
pub open spec fn spec_fg_window_right(fg: Seq<u8>, b: int, sh: u32) -> u32 {
    let m0: u32 = ((fg[b + 4] as u32) << 24u32) | ((fg[b + 5] as u32) << 16u32);
    let m1: u32 = if b + 6 < 48 { m0 | ((fg[b + 6] as u32) << 8u32) } else { m0 };
    let m2: u32 = if b + 7 < 48 { m1 | (fg[b + 7] as u32) } else { m1 };
    let m3: u32 = m2 << sh;
    if b + 8 < 48 { m3 | ((fg[b + 8] as u32) >> ((8 - sh) as u32)) } else { m3 }
}

/// The two bit planes of chunky multicolor pixel pairs: the low and the high bit of each
/// pair, doubled.
pub open spec fn spec_planes(d: u32) -> (u32, u32) {
    ((d & 0x5555_5555u32) | ((d & 0x5555_5555u32) << 1u32), (d & 0xAAAA_AAAAu32) | ((d & 0xAAAA_AAAAu32) >> 1u32))
}

fn fg_window(fg: &[u8; 48], b: usize, sh: u32) -> (m: u32)
    requires
        b + 3 < 48,
        sh < 8,
    ensures
        m == spec_fg_window(fg@, b as int, sh),
{
    let mut m: u32 = ((fg[b] as u32) << 24u32) | ((fg[b + 1] as u32) << 16u32) | ((fg[b + 2] as u32) << 8u32)
        | (fg[b + 3] as u32);
    m = m << sh;
    if b + 4 < 48 {
        m = m | ((fg[b + 4] as u32) >> (8 - sh));
    }
    m
}

fn fg_window_right(fg: &[u8; 48], b: usize, sh: u32) -> (m: u32)
    requires
        b + 5 < 48,
        sh < 8,
    ensures
        m == spec_fg_window_right(fg@, b as int, sh),
{
    let mut m: u32 = ((fg[b + 4] as u32) << 24u32) | ((fg[b + 5] as u32) << 16u32);
    if b + 6 < 48 {
        m = m | ((fg[b + 6] as u32) << 8u32);
    }
    if b + 7 < 48 {
        m = m | (fg[b + 7] as u32);
    }
    m = m << sh;
    if b + 8 < 48 {
        m = m | ((fg[b + 8] as u32) >> (8 - sh));
    }
    m
}

fn planes(d: u32) -> (r: (u32, u32))
    ensures
        r == spec_planes(d),
{
    ((d & 0x5555_5555) | ((d & 0x5555_5555) << 1u32), (d & 0xAAAA_AAAA) | ((d & 0xAAAA_AAAA) >> 1u32))
}

/// The window `w`, the collision buffer `cb`, the sprite-sprite collision bits and the
/// sprite-background collision bit after sprite `snum` (bit `sbit`) is drawn into the
/// current line. The sprite's 24 pixels (48 when X-expanded, each bit or bit pair doubled)
/// start at screen column `mx + 8`; an X-expanded sprite right of column 328 is not drawn.
/// It collides with the foreground where its pixels meet the foreground mask; a sprite
/// behind the foreground is masked by it (an X-expanded hires sprite masks its left part
/// when behind, its right part otherwise).
pub open spec fn sprite_paint(v: VIC, m: MemoryView, w: Seq<u32>, cb: Seq<u8>, snum: int, sbit: u8)
    -> (Seq<u32>, Seq<u8>, u8, u8) {
    let mx = v.mx@[snum];
    let q = mx + 8;
    let p = v.line_start_offset + q;
    let mxe = color_reg(m, 0xD01D);
    let mmc = color_reg(m, 0xD01C);
    let mdp = color_reg(m, 0xD01B);
    let d0 = v.sprite_draw_data[snum][0];
    let d1 = v.sprite_draw_data[snum][1];
    let d2 = v.sprite_draw_data[snum][2];
    let sdata: u32 = ((d0 as u32) << 24u32) | ((d1 as u32) << 16u32) | ((d2 as u32) << 8u32);
    let fg = v.fg_mask_buffer@;
    let fg_mask = spec_fg_window(fg, q / 8, (q % 8) as u32);
    let multi = (mmc & sbit) != 0;
    let behind = (mdp & sbit) != 0;
    let colors = SpriteColors { multi, color: color_reg(m, (0xD027 + snum) as u16), mc0: color_reg(m, 0xD025),
        mc1: color_reg(m, 0xD026) };
    if (mxe & sbit) != 0 {
        if mx > 328 {
            (w, cb, 0u8, 0u8)
        } else {
            let fg_r = spec_fg_window_right(fg, q / 8, (q % 8) as u32);
            if multi {
                let (p0l, p1l) = spec_planes(((spec_multi_exp(d0) as u32) << 16u32) | (spec_multi_exp(d1) as u32));
                let (p0r, p1r) = spec_planes((spec_multi_exp(d2) as u32) << 16u32);
                let hit = (fg_mask & (p0l | p1l)) != 0 || (fg_r & (p0r | p1r)) != 0;
                let mask = hit && behind;
                let (w1, cb1, c1) = paint_pixels(w, cb, p, q, 32, if mask { p0l & !fg_mask } else { p0l },
                    if mask { p1l & !fg_mask } else { p1l }, colors, sbit);
                let (w2, cb2, c2) = paint_pixels(w1, cb1, p + 32, q + 32, 16, if mask { p0r & !fg_r } else { p0r },
                    if mask { p1r & !fg_r } else { p1r }, colors, sbit);
                (w2, cb2, c1 | c2, if hit { sbit } else { 0u8 })
            } else {
                let sl: u32 = ((spec_exp(d0) as u32) << 16u32) | (spec_exp(d1) as u32);
                let sr: u32 = (spec_exp(d2) as u32) << 16u32;
                let hit = (fg_mask & sl) != 0 || (fg_r & sr) != 0;
                let l = if hit && behind { sl & !fg_mask } else { sl };
                let r = if hit && !behind { sr & !fg_r } else { sr };
                let (w1, cb1, c1) = paint_pixels(w, cb, p, q, 32, l, l, colors, sbit);
                let (w2, cb2, c2) = paint_pixels(w1, cb1, p + 32, q + 32, 16, r, r, colors, sbit);
                (w2, cb2, c1 | c2, if hit { sbit } else { 0u8 })
            }
        }
    } else if multi {
        let (p0, p1) = spec_planes(sdata);
        let hit = (fg_mask & (p0 | p1)) != 0;
        let mask = hit && behind;
        let (w1, cb1, c1) = paint_pixels(w, cb, p, q, 24, if mask { p0 & !fg_mask } else { p0 },
            if mask { p1 & !fg_mask } else { p1 }, colors, sbit);
        (w1, cb1, c1, if hit { sbit } else { 0u8 })
    } else {
        let hit = (fg_mask & sdata) != 0;
        let sd = if hit && behind { sdata & !fg_mask } else { sdata };
        let (w1, cb1, c1) = paint_pixels(w, cb, p, q, 24, sd, sd, colors, sbit);
        (w1, cb1, c1, if hit { sbit } else { 0u8 })
    }
}

/// The collision registers gained the bits `spr` (sprite-sprite) and `bgr`
/// (sprite-background); the interrupt flags and the CPU's interrupt line follow.
pub open spec fn collisions_recorded(ov: VIC, om: MemoryView, oc: CPU, nv: VIC, nm: MemoryView, nc: CPU,
    spr: u8, bgr: u8) -> bool {
    let io0 = om.io.data;
    let s = io0[0x1E] | spr;
    let g = io0[0x1F] | bgr;
    &&& nm == (MemoryView { io: MemBankView { kind: MemType::Io, data: io0.update(0x1E, s).update(0x1F, g) }, ..om })
    &&& nv.irq_flag == collision_irq_flag(ov.irq_flag, ov.irq_mask, s, g)
    &&& nc == (CPU { vic_irq: oc.vic_irq || collision_raises(ov.irq_mask, s, g), ..oc })
}

/// The window, the collision buffer and the collected sprite-sprite and sprite-background
/// collision bits after sprites 0 to `k - 1` are drawn in turn over `w` and `cb`; a sprite is
/// drawn when it is to be shown in this line and starts left of column 352.
pub open spec fn sprites_paint(v: VIC, m: MemoryView, w: Seq<u32>, cb: Seq<u8>, k: int)
    -> (Seq<u32>, Seq<u8>, u8, u8)
    decreases k,
{
    if k <= 0 {
        (w, cb, 0u8, 0u8)
    } else {
        let (w1, cb1, sc, gc) = sprites_paint(v, m, w, cb, k - 1);
        let sbit = 1u8 << ((k - 1) as u8);
        if (v.sprite_draw & sbit) != 0 && v.mx@[k - 1] < 352 {
            let (w2, cb2, sc2, gc2) = sprite_paint(v, m, w1, cb1, k - 1, sbit);
            (w2, cb2, sc | sc2, gc | gc2)
        } else {
            (w1, cb1, sc, gc)
        }
    }
}

/// Drawing the sprites depends on the VIC only through the sprites' positions, data and
/// enable bits, the line start and the foreground mask.
pub(crate) proof fn lemma_sprites_paint_same(v1: VIC, v2: VIC, m: MemoryView, w: Seq<u32>, cb: Seq<u8>, k: int)
    requires
        v1.sprite_draw == v2.sprite_draw,
        v1.mx@ == v2.mx@,
        v1.line_start_offset == v2.line_start_offset,
        v1.sprite_draw_data == v2.sprite_draw_data,
        v1.fg_mask_buffer == v2.fg_mask_buffer,
    ensures
        sprites_paint(v1, m, w, cb, k) == sprites_paint(v2, m, w, cb, k),
    decreases k,
{
    if k > 0 {
        lemma_sprites_paint_same(v1, v2, m, w, cb, k - 1);
    }
}

impl VIC {
    /// Draws sprite `snum` (bit `sbit`) into the current line. Returns the bits of the
    /// sprites it collided with (and its own) and its own bit when it overlaps foreground
    /// graphics. Sprites behind the foreground are masked by it.
    #[verifier::rlimit(40)]
    fn draw_sprite(&mut self, mem: &mut Memory, snum: usize, sbit: u8) -> (r: (u8, u8))
        requires
            old(self).wf(),
            old(mem).wf(),
            snum < 8,
            old(self).draw_this_line,
            2 <= old(self).curr_cycle <= 60,
            old(self).mx@[snum as int] < 352,
        ensures
            final(mem)@ == old(mem)@,
            final(mem).wf(),
            only_line_changed(old(self).window_buffer@, final(self).window_buffer@,
                old(self).line_start_offset as int),
            *final(self) == (VIC {
                window_buffer: final(self).window_buffer,
                sprite_coll_buffer: final(self).sprite_coll_buffer,
                ..*old(self)
            }),
            (final(self).window_buffer@, final(self).sprite_coll_buffer@, r.0, r.1)
                == sprite_paint(*old(self), old(mem)@, old(self).window_buffer@, old(self).sprite_coll_buffer@,
                    snum as int, sbit),
    {
        let mx = self.mx[snum];
        let ls = self.line_start_offset;
        let q = mx as usize + 8;
        let p = ls + q;
        let color = self.read_plain_reg(mem, 0xD027 + snum as u16);
        let mxe = self.read_plain_reg(mem, 0xD01D);
        let mmc = self.read_plain_reg(mem, 0xD01C);
        let mdp = self.read_plain_reg(mem, 0xD01B);
        let mc0 = self.read_plain_reg(mem, 0xD025);
        let mc1 = self.read_plain_reg(mem, 0xD026);
        let d0 = self.sprite_draw_data[snum][0];
        let d1 = self.sprite_draw_data[snum][1];
        let d2 = self.sprite_draw_data[snum][2];
        let sdata: u32 = ((d0 as u32) << 24u32) | ((d1 as u32) << 16u32) | ((d2 as u32) << 8u32);
        let fmbp = q / 8;
        let sshift = (q % 8) as u32;
        let fg_mask = fg_window(&self.fg_mask_buffer, fmbp, sshift);
        let multi = (mmc & sbit) != 0;
        let behind = (mdp & sbit) != 0;
        let colors = SpriteColors { multi, color, mc0, mc1 };
        let mut gfx_coll: u8 = 0;
        let spr_coll: u8;
        if (mxe & sbit) != 0 {
            if mx > 328 {
                return (0, 0);
            }
            let fg_mask_r = fg_window_right(&self.fg_mask_buffer, fmbp, sshift);
            if multi {
                let sdata_l = ((multi_exp_byte(d0) as u32) << 16u32) | (multi_exp_byte(d1) as u32);
                let sdata_r = (multi_exp_byte(d2) as u32) << 16u32;
                let (mut p0l, mut p1l) = planes(sdata_l);
                let (mut p0r, mut p1r) = planes(sdata_r);
                if (fg_mask & (p0l | p1l)) != 0 || (fg_mask_r & (p0r | p1r)) != 0 {
                    gfx_coll = sbit;
                    if behind {
                        p0l = p0l & !fg_mask;
                        p1l = p1l & !fg_mask;
                        p0r = p0r & !fg_mask_r;
                        p1r = p1r & !fg_mask_r;
                    }
                }
                let c1 = paint_run(&mut self.window_buffer, &mut self.sprite_coll_buffer, ls, p, q, 32, p0l, p1l, &colors, sbit);
                let c2 = paint_run(&mut self.window_buffer, &mut self.sprite_coll_buffer, ls, p + 32, q + 32, 16, p0r, p1r, &colors, sbit);
                spr_coll = c1 | c2;
            } else {
                let mut sdata_l = ((exp_byte(d0) as u32) << 16u32) | (exp_byte(d1) as u32);
                let mut sdata_r = (exp_byte(d2) as u32) << 16u32;
                if (fg_mask & sdata_l) != 0 || (fg_mask_r & sdata_r) != 0 {
                    gfx_coll = sbit;
                    if behind {
                        sdata_l = sdata_l & !fg_mask;
                    } else {
                        sdata_r = sdata_r & !fg_mask_r;
                    }
                }
                let c1 = paint_run(&mut self.window_buffer, &mut self.sprite_coll_buffer, ls, p, q, 32, sdata_l, sdata_l, &colors, sbit);
                let c2 = paint_run(&mut self.window_buffer, &mut self.sprite_coll_buffer, ls, p + 32, q + 32, 16, sdata_r, sdata_r, &colors, sbit);
                spr_coll = c1 | c2;
            }
        } else if multi {
            let (mut p0, mut p1) = planes(sdata);
            if (fg_mask & (p0 | p1)) != 0 {
                gfx_coll = sbit;
                if behind {
                    p0 = p0 & !fg_mask;
                    p1 = p1 & !fg_mask;
                }
            }
            spr_coll = paint_run(&mut self.window_buffer, &mut self.sprite_coll_buffer, ls, p, q, 24, p0, p1, &colors, sbit);
        } else {
            let mut sd = sdata;
            if (fg_mask & sd) != 0 {
                gfx_coll = sbit;
                if behind {
                    sd = sd & !fg_mask;
                }
            }
            spr_coll = paint_run(&mut self.window_buffer, &mut self.sprite_coll_buffer, ls, p, q, 24, sd, sd, &colors, sbit);
        }
        (spr_coll, gfx_coll)
    }

    /// Draws the sprites of the current line (from the data fetched for it), lowest number
    /// in front, and records collisions: the sprite-sprite and sprite-background collision
    /// registers gain the bits of the sprites involved. When either register is zero after
    /// that, its interrupt flag is raised (and the CPU interrupt, where enabled).
    pub fn draw_sprites(&mut self, mem: &mut Memory, cpu: &mut CPU)
        requires
            old(self).wf(),
            old(mem).wf(),
            old(self).draw_this_line,
            2 <= old(self).curr_cycle <= 60,
        ensures
            final(self).wf(),
            final(mem).wf(),
            only_line_changed(old(self).window_buffer@, final(self).window_buffer@,
                old(self).line_start_offset as int),
            final(self).regs() == (VicRegs { irq_flag: final(self).irq_flag, ..old(self).regs() }),
            final(self).same_except_drawing(old(self)),
            ({
                let (w, cb, spr, bgr) = sprites_paint(*old(self), old(mem)@, old(self).window_buffer@,
                    Seq::new(384, |i: int| 0u8), 8);
                &&& final(self).window_buffer@ == w
                &&& final(self).sprite_coll_buffer@ == cb
                &&& collisions_recorded(*old(self), old(mem)@, *old(cpu), *final(self), final(mem)@, *final(cpu), spr, bgr)
            }),
    {
        let ghost s0 = *self;
        let ghost m0 = mem@;
        let ghost c0 = *cpu;
        self.sprite_coll_buffer = [0u8; 384];
        let ghost sz = *self;
        proof {
            assert(sz.sprite_coll_buffer@ =~= Seq::new(384, |i: int| 0u8));
            lemma_sprites_paint_same(sz, s0, m0, s0.window_buffer@, sz.sprite_coll_buffer@, 8);
        }
        let (spr_coll, gfx_coll) = self.draw_all_sprites(mem);
        let ghost s1 = *self;
        self.record_collisions(mem, cpu, spr_coll, gfx_coll);
        assert(collisions_recorded(s1, m0, c0, *self, mem@, *cpu, spr_coll, gfx_coll));
        assert(collisions_recorded(s0, m0, c0, *self, mem@, *cpu, spr_coll, gfx_coll));
    }

    /// Draws each sprite that is to be drawn in this line and lies left of the right edge.
    /// Returns the sprite-sprite and sprite-background collision bits.
    fn draw_all_sprites(&mut self, mem: &mut Memory) -> (r: (u8, u8))
        requires
            old(self).wf(),
            old(mem).wf(),
            old(self).draw_this_line,
            2 <= old(self).curr_cycle <= 60,
        ensures
            final(mem)@ == old(mem)@,
            final(mem).wf(),
            only_line_changed(old(self).window_buffer@, final(self).window_buffer@, old(self).line_start_offset as int),
            *final(self) == (VIC {
                window_buffer: final(self).window_buffer,
                sprite_coll_buffer: final(self).sprite_coll_buffer,
                ..*old(self)
            }),
            (final(self).window_buffer@, final(self).sprite_coll_buffer@, r.0, r.1)
                == sprites_paint(*old(self), old(mem)@, old(self).window_buffer@, old(self).sprite_coll_buffer@, 8),
    {
        let ghost s0 = *self;
        let ghost m0 = mem@;
        let mut spr_coll: u8 = 0;
        let mut gfx_coll: u8 = 0;
        let mut snum: usize = 0;
        while snum < 8
            invariant
                snum <= 8,
                s0.wf(),
                mem.wf(),
                mem@ == m0,
                s0.draw_this_line,
                2 <= s0.curr_cycle <= 60,
                only_line_changed(s0.window_buffer@, self.window_buffer@, s0.line_start_offset as int),
                *self == (VIC { window_buffer: self.window_buffer, sprite_coll_buffer: self.sprite_coll_buffer, ..s0 }),
                (self.window_buffer@, self.sprite_coll_buffer@, spr_coll, gfx_coll)
                    == sprites_paint(s0, m0, s0.window_buffer@, s0.sprite_coll_buffer@, snum as int),
            decreases 8 - snum,
        {
            let sbit: u8 = 1u8 << (snum as u8);
            if (self.sprite_draw & sbit) != 0 && self.mx[snum] < 352 {
                let ghost pre = *self;
                proof {
                    assert(sprite_paint(pre, m0, pre.window_buffer@, pre.sprite_coll_buffer@, snum as int, sbit)
                        == sprite_paint(s0, m0, pre.window_buffer@, pre.sprite_coll_buffer@, snum as int, sbit));
                }
                let (sc, gc) = self.draw_sprite(mem, snum, sbit);
                spr_coll = spr_coll | sc;
                gfx_coll = gfx_coll | gc;
            }
            snum = snum + 1;
        }
        (spr_coll, gfx_coll)
    }

    /// Adds collision bits to the collision registers and raises the interrupts.
    fn record_collisions(&mut self, mem: &mut Memory, cpu: &mut CPU, spr_coll: u8, gfx_coll: u8)
        requires
            old(self).wf(),
            old(mem).wf(),
        ensures
            final(self).wf(),
            final(mem).wf(),
            final(self).window_buffer@ == old(self).window_buffer@,
            final(self).regs() == (VicRegs { irq_flag: final(self).irq_flag, ..old(self).regs() }),
            final(self).same_except_drawing(old(self)),
            final(self).sprite_coll_buffer == old(self).sprite_coll_buffer,
            collisions_recorded(*old(self), old(mem)@, *old(cpu), *final(self), final(mem)@, *final(cpu), spr_coll, gfx_coll),
    {
        let ghost m0 = mem@;
        let ghost io0 = m0.io.data;
        let clx_spr = self.add_collision_bits(mem, 0xD01E, spr_coll);
        let clx_bgr = self.add_collision_bits(mem, 0xD01F, gfx_coll);
        self.raise_collision_irq(cpu, clx_spr == 0, 0x04);
        self.raise_collision_irq(cpu, clx_bgr == 0, 0x02);
        assert(mem@ =~= (MemoryView {
            io: MemBankView { kind: MemType::Io, data: io0.update(0x1E, io0[0x1E] | spr_coll).update(0x1F, io0[0x1F] | gfx_coll) },
            ..m0
        }));
    }

    /// ORs bits into a collision register (reading it clears it first).
    fn add_collision_bits(&mut self, mem: &mut Memory, addr: u16, bits: u8) -> (clx: u8)
        requires
            old(self).wf(),
            old(mem).wf(),
            addr == 0xD01E || addr == 0xD01F,
        ensures
            final(self).wf(),
            final(mem).wf(),
            clx == old(mem)@.io.data[addr - 0xD000] | bits,
            final(mem)@ == (MemoryView {
                io: MemBankView { kind: MemType::Io, data: old(mem)@.io.data.update(addr - 0xD000, clx) },
                ..old(mem)@
            }),
            final(self).regs() == old(self).regs(),
            final(self).same_beam_state(old(self)),
    {
        let clx = self.read_register(mem, addr) | bits;
        self.write_register_nc(mem, addr, clx);
        assert(mem@.io.data =~= old(mem)@.io.data.update(addr - 0xD000, clx));
        clx
    }

    /// Raises a collision interrupt flag when `cond` holds (and the CPU interrupt when the
    /// flag is enabled in the mask).
    fn raise_collision_irq(&mut self, cpu: &mut CPU, cond: bool, flag: u8)
        ensures
            final(self).irq_flag == (if cond {
                if (old(self).irq_mask & flag) != 0 { old(self).irq_flag | flag | 0x80 } else { old(self).irq_flag | flag }
            } else {
                old(self).irq_flag
            }),
            *final(self) == (VIC { irq_flag: final(self).irq_flag, ..*old(self) }),
            *final(cpu) == (CPU { vic_irq: old(cpu).vic_irq || (cond && (old(self).irq_mask & flag) != 0), ..*old(cpu) }),
    {
        if cond {
            self.irq_flag = self.irq_flag | flag;
            if (self.irq_mask & flag) != 0 {
                self.irq_flag = self.irq_flag | 0x80;
                cpu.vic_irq = true;
            }
        }
    }

    /// Everything but the pixels, the collision buffer, the interrupt flags and the debug
    /// flag is the same.
    pub open spec fn same_except_drawing(&self, o: &VIC) -> bool {
        &&& self.last_byte == o.last_byte
        &&& self.raster_cnt == o.raster_cnt
        &&& self.curr_cycle == o.curr_cycle
        &&& self.border_on == o.border_on
        &&& self.matrix_line == o.matrix_line
        &&& self.color_line == o.color_line
        &&& self.screen_chunk_offset == o.screen_chunk_offset
        &&& self.line_start_offset == o.line_start_offset
        &&& self.fg_mask_offset == o.fg_mask_offset
        &&& self.raster_x == o.raster_x
        &&& self.row_cnt == o.row_cnt
        &&& self.video_cnt == o.video_cnt
        &&& self.video_cnt_base == o.video_cnt_base
        &&& self.cia_vabase == o.cia_vabase
        &&& self.lp_triggered == o.lp_triggered
        &&& self.mc == o.mc
        &&& self.mc_base == o.mc_base
        &&& self.display_state == o.display_state
        &&& self.ud_border_on == o.ud_border_on
        &&& self.frame_skipped == o.frame_skipped
        &&& self.draw_this_line == o.draw_this_line
        &&& self.ml_idx == o.ml_idx
        &&& self.skip_cnt == o.skip_cnt
        &&& self.trigger_vblank == o.trigger_vblank
        &&& self.border_on_sample == o.border_on_sample
        &&& self.fg_mask_buffer == o.fg_mask_buffer
        &&& self.border_color_sample == o.border_color_sample
        &&& self.refresh_cnt == o.refresh_cnt
        &&& self.sprite_dma_on == o.sprite_dma_on
        &&& self.sprite_display_on == o.sprite_display_on
        &&& self.sprite_draw == o.sprite_draw
        &&& self.sprite_ptr@ == o.sprite_ptr@
        &&& self.gfx_data == o.gfx_data
        &&& self.char_data == o.char_data
        &&& self.color_data == o.color_data
        &&& self.last_char_data == o.last_char_data
        &&& self.sprite_data == o.sprite_data
        &&& self.sprite_draw_data == o.sprite_draw_data
        &&& self.first_ba_cycle == o.first_ba_cycle
    }
}

} // verus!
