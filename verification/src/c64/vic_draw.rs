// VIC-II pixel output: background, text and bitmap graphics of one 8-pixel chunk
use vstd::prelude::*;
use crate::c64::memory::{Memory, MemoryView, MemType, io_read_value};
use crate::c64::vic::VIC;
use crate::c64::vic_sprites::only_line_changed;
use crate::utils::{memset8, fetch_c64_color_rgba, spec_color_rgba};

verus! {

/// The byte a read of color register `addr` gives back (the I/O byte; registers
/// $D020-$D02E read their unused high nibble as ones).
pub open spec fn color_reg(m: MemoryView, addr: u16) -> u8 {
    io_read_value(m.io.data, addr)
}

/// The color of ECM text: bits 7 and 6 of the character select one of the four
/// background color registers.
pub open spec fn ecm_color(m: MemoryView, ch: u8) -> u8 {
    if (ch & 0x80) != 0 {
        if (ch & 0x40) != 0 { color_reg(m, 0xD024) } else { color_reg(m, 0xD023) }
    } else {
        if (ch & 0x40) != 0 { color_reg(m, 0xD022) } else { color_reg(m, 0xD021) }
    }
}

/// The background color of a chunk in display mode `mode`; `last` is the last character
/// (or bitmap color) byte read.
pub open spec fn background_color(m: MemoryView, mode: u16, last: u8) -> u8 {
    if mode == 0 || mode == 1 || mode == 3 {
        color_reg(m, 0xD021)
    } else if mode == 2 {
        last
    } else if mode == 4 {
        ecm_color(m, last)
    } else {
        0
    }
}

/// Whether `new` is `old` with the 8 pixels from `start` on set to `color`.
pub open spec fn chunk_filled(old: Seq<u32>, new: Seq<u32>, start: int, color: u32) -> bool {
    &&& new.len() == old.len()
    &&& forall|i: int| start <= i < start + 8 ==> #[trigger] new[i] == color
    &&& forall|i: int| 0 <= i < old.len() && !(start <= i < start + 8) ==> #[trigger] new[i] == old[i]
}

/// Pixel `k` (0 = leftmost) of a hires chunk: bit 7 - k selects color 1 or color 0.
pub open spec fn std_pixel(gfx: u8, c0: u8, c1: u8, k: int) -> u32 {
    spec_color_rgba(if (gfx >> ((7 - k) as u8)) & 1 != 0 { c1 } else { c0 })
}

/// Pixel `k` of a multicolor chunk: the bit pair of pixels `k` and `k ^ 1` selects one of
/// four colors.
pub open spec fn multi_pixel(gfx: u8, c: (u8, u8, u8, u8), k: int) -> u32 {
    let sel = (gfx >> ((6 - 2 * (k / 2)) as u8)) & 3;
    spec_color_rgba(if sel == 0 { c.0 } else if sel == 1 { c.1 } else if sel == 2 { c.2 } else { c.3 })
}

/// Whether `new` is `old` with the 8 pixels from `start` given by `pixel`.
pub open spec fn chunk_drawn(old: Seq<u32>, new: Seq<u32>, start: int, pixel: spec_fn(int) -> u32) -> bool {
    &&& new.len() == old.len()
    &&& forall|k: int| 0 <= k < 8 ==> #[trigger] new[start + k] == pixel(k)
    &&& forall|i: int| 0 <= i < old.len() && !(start <= i < start + 8) ==> #[trigger] new[i] == old[i]
}

/// The foreground mask bits of a multicolor chunk (a pair counts when either bit is set).
pub open spec fn multi_mask(gfx: u8) -> u8 {
    (gfx & 0xAA) | ((gfx & 0xAA) >> 1)
}

/// The foreground mask after a chunk with mask bits `m` was drawn at X scroll `xs`;
/// `spill` holds the bits that reach into the next mask byte.
pub open spec fn mask_added(old: Seq<u8>, off: int, m: u8, xs: u8, spill: u8) -> Seq<u8> {
    old.update(off, old[off] | (m >> xs)).update(off + 1, old[off + 1] | spill)
}

/// The spill of multicolor mask bits into the next mask byte in the invalid modes, where
/// the shift by 8 at X scroll 0 wraps around to no shift at all.
pub open spec fn invalid_multi_spill(mm: u8, xs: u8) -> u8 {
    if xs == 0 { mm } else { mm << ((8 - xs) as u8) }
}

/// The chunk of graphics that display mode `v.display_mode` draws from the fetched graphics
/// byte, character (or bitmap color) byte and color RAM nibble: `w` is the new screen and
/// `f` the new foreground mask. The invalid modes 5-7 draw black and only fill the mask.
pub open spec fn graphics_drawn(v: VIC, m: MemoryView, w: Seq<u32>, f: Seq<u8>) -> bool {
    let old_w = v.window_buffer@;
    let pos = v.screen_chunk_offset + v.x_scroll;
    let g = v.gfx_data;
    let ch = v.char_data;
    let col = v.color_data;
    let xs = v.x_scroll as u8;
    let off = v.fg_mask_offset as int;
    let std_mask = mask_added(v.fg_mask_buffer@, off, g, xs, g << ((7 - v.x_scroll) as u8));
    let multi_mask_f = mask_added(v.fg_mask_buffer@, off, multi_mask(g), xs,
        (((multi_mask(g) as u16) << ((8 - v.x_scroll) as u16)) as u8));
    let invalid_multi = mask_added(v.fg_mask_buffer@, off, multi_mask(g), xs, invalid_multi_spill(multi_mask(g), xs));
    let mode = v.display_mode;
    let d021 = color_reg(m, 0xD021);
    if mode == 0 || (mode == 1 && (col & 8) == 0) {
        chunk_drawn(old_w, w, pos, |k: int| std_pixel(g, d021, col, k)) && f == std_mask
    } else if mode == 1 {
        chunk_drawn(old_w, w, pos, |k: int| multi_pixel(g, (d021, color_reg(m, 0xD022), color_reg(m, 0xD023), col & 7), k))
            && f == multi_mask_f
    } else if mode == 2 {
        chunk_drawn(old_w, w, pos, |k: int| std_pixel(g, ch, ch >> 4u8, k)) && f == std_mask
    } else if mode == 3 {
        chunk_drawn(old_w, w, pos, |k: int| multi_pixel(g, (d021, ch >> 4u8, ch, col), k)) && f == multi_mask_f
    } else if mode == 4 {
        chunk_drawn(old_w, w, pos, |k: int| std_pixel(g, ecm_color(m, ch), col, k)) && f == std_mask
    } else {
        &&& chunk_filled(old_w, w, pos, 0)
        &&& (mode == 6 || (mode == 5 && (col & 8) == 0)) ==> f == std_mask
        &&& (mode == 7 || (mode == 5 && (col & 8) != 0)) ==> f == invalid_multi
    }
}

impl VIC {
    /// Draws the background color into the current 8-pixel chunk of a drawn line.
    pub fn draw_background(&mut self, mem: &mut Memory)
        requires
            old(self).wf(),
            old(mem).wf(),
            13 <= old(self).curr_cycle <= 60,
        ensures
            final(mem)@ == old(mem)@,
            final(mem).wf(),
            *final(self) == (VIC { window_buffer: final(self).window_buffer, ..*old(self) }),
            !old(self).draw_this_line ==> final(self).window_buffer@ == old(self).window_buffer@,
            old(self).draw_this_line ==> chunk_filled(old(self).window_buffer@, final(self).window_buffer@,
                old(self).screen_chunk_offset as int, spec_color_rgba(
                background_color(old(mem)@, old(self).display_mode, old(self).last_char_data))),
            only_line_changed(old(self).window_buffer@, final(self).window_buffer@, old(self).line_start_offset as int),
    {
        if !self.draw_this_line {
            return;
        }
        let dst_color = self.background_color_now(mem);
        let color_rgba = fetch_c64_color_rgba(dst_color);
        let start = self.screen_chunk_offset;
        memset8(self.window_buffer.as_mut_slice(), start, color_rgba);
    }

    /// Reads a register that holds a plain I/O byte (colors, sprite enables and
    /// expansions, priorities); such reads leave memory as it was.
    pub fn read_plain_reg(&self, mem: &mut Memory, addr: u16) -> (v: u8)
        requires
            self.shape_ok(),
            old(mem).wf(),
            0xD013 <= addr <= 0xD03F,
            addr != 0xD019 && addr != 0xD01A && addr != 0xD01E && addr != 0xD01F,
        ensures
            final(mem)@ == old(mem)@,
            final(mem).wf(),
            v == color_reg(old(mem)@, addr),
    {
        let v = self.read_register(mem, addr);
        assert(mem@ =~= old(mem)@);
        v
    }

    /// The background color of the current chunk.
    fn background_color_now(&self, mem: &mut Memory) -> (c: u8)
        requires
            self.wf(),
            old(mem).wf(),
        ensures
            final(mem)@ == old(mem)@,
            final(mem).wf(),
            c == background_color(old(mem)@, self.display_mode, self.last_char_data),
    {
        let mode = self.display_mode;
        if mode == 0 || mode == 1 || mode == 3 {
            self.read_plain_reg(mem, 0xD021)
        } else if mode == 2 {
            self.last_char_data
        } else if mode == 4 {
            self.ecm_color_now(mem, self.last_char_data)
        } else {
            0
        }
    }

    /// The ECM text color for character `ch`.
    fn ecm_color_now(&self, mem: &mut Memory, ch: u8) -> (c: u8)
        requires
            self.wf(),
            old(mem).wf(),
        ensures
            final(mem)@ == old(mem)@,
            final(mem).wf(),
            c == ecm_color(old(mem)@, ch),
    {
        if (ch & 0x80) != 0 {
            if (ch & 0x40) != 0 {
                self.read_plain_reg(mem, 0xD024)
            } else {
                self.read_plain_reg(mem, 0xD023)
            }
        } else {
            if (ch & 0x40) != 0 {
                self.read_plain_reg(mem, 0xD022)
            } else {
                self.read_plain_reg(mem, 0xD021)
            }
        }
    }

    /// Adds the foreground bits of a chunk to the mask used for sprite priorities and
    /// collisions.
    fn add_fg_mask(&mut self, m: u8, spill: u8)
        requires
            old(self).fg_mask_offset + 1 < 48,
            old(self).x_scroll < 8,
        ensures
            final(self).fg_mask_buffer@ == mask_added(old(self).fg_mask_buffer@, old(self).fg_mask_offset as int,
                m, old(self).x_scroll as u8, spill),
            *final(self) == (VIC { fg_mask_buffer: final(self).fg_mask_buffer, ..*old(self) }),
    {
        let off = self.fg_mask_offset;
        let xs = self.x_scroll as u8;
        self.fg_mask_buffer[off] = self.fg_mask_buffer[off] | (m >> xs);
        self.fg_mask_buffer[off + 1] = self.fg_mask_buffer[off + 1] | spill;
        assert(self.fg_mask_buffer@ =~= mask_added(old(self).fg_mask_buffer@, off as int, m, xs, spill));
    }

    /// Draws a hires chunk: each bit of the graphics byte selects color 1 or color 0.
    pub fn draw_std(&mut self, c0: u8, c1: u8)
        requires
            old(self).wf(),
            old(self).draw_this_line,
            17 <= old(self).curr_cycle <= 56,
        ensures
            chunk_drawn(old(self).window_buffer@, final(self).window_buffer@,
                old(self).screen_chunk_offset + old(self).x_scroll,
                |k: int| std_pixel(old(self).gfx_data, c0, c1, k)),
            final(self).fg_mask_buffer@ == mask_added(old(self).fg_mask_buffer@, old(self).fg_mask_offset as int,
                old(self).gfx_data, old(self).x_scroll as u8, old(self).gfx_data << ((7 - old(self).x_scroll) as u8)),
            *final(self) == (VIC {
                window_buffer: final(self).window_buffer,
                fg_mask_buffer: final(self).fg_mask_buffer,
                ..*old(self)
            }),
    {
        let pos = self.screen_chunk_offset + self.x_scroll as usize;
        let g = self.gfx_data;
        let spill = g << (7 - self.x_scroll as u8);
        self.add_fg_mask(g, spill);
        let px = [
            fetch_c64_color_rgba(if (g >> 7u8) & 1 != 0 { c1 } else { c0 }),
            fetch_c64_color_rgba(if (g >> 6u8) & 1 != 0 { c1 } else { c0 }),
            fetch_c64_color_rgba(if (g >> 5u8) & 1 != 0 { c1 } else { c0 }),
            fetch_c64_color_rgba(if (g >> 4u8) & 1 != 0 { c1 } else { c0 }),
            fetch_c64_color_rgba(if (g >> 3u8) & 1 != 0 { c1 } else { c0 }),
            fetch_c64_color_rgba(if (g >> 2u8) & 1 != 0 { c1 } else { c0 }),
            fetch_c64_color_rgba(if (g >> 1u8) & 1 != 0 { c1 } else { c0 }),
            fetch_c64_color_rgba(if (g >> 0u8) & 1 != 0 { c1 } else { c0 }),
        ];
        assert forall|k: int| 0 <= k < 8 implies #[trigger] px[k] == std_pixel(g, c0, c1, k) by {
            if k == 0 {} else if k == 1 {} else if k == 2 {} else if k == 3 {} else if k == 4 {} else if k == 5 {}
            else if k == 6 {} else {}
        }
        self.set_chunk(pos, px);
    }

    /// Writes 8 pixels from `pos` on.
    fn set_chunk(&mut self, pos: usize, px: [u32; 8])
        requires
            old(self).window_buffer@.len() == 384 * 272,
            pos + 8 <= 384 * 272,
        ensures
            chunk_drawn(old(self).window_buffer@, final(self).window_buffer@, pos as int, |k: int| px[k]),
            *final(self) == (VIC { window_buffer: final(self).window_buffer, ..*old(self) }),
    {
        self.window_buffer.set(pos, px[0]);
        self.window_buffer.set(pos + 1, px[1]);
        self.window_buffer.set(pos + 2, px[2]);
        self.window_buffer.set(pos + 3, px[3]);
        self.window_buffer.set(pos + 4, px[4]);
        self.window_buffer.set(pos + 5, px[5]);
        self.window_buffer.set(pos + 6, px[6]);
        self.window_buffer.set(pos + 7, px[7]);
        assert forall|k: int| 0 <= k < 8 implies #[trigger] self.window_buffer@[pos + k] == px[k] by {
            if k == 0 {} else if k == 1 {} else if k == 2 {} else if k == 3 {} else if k == 4 {} else if k == 5 {}
            else if k == 6 {} else {}
        }
    }

    /// Draws a multicolor chunk: each bit pair selects one of four colors for two pixels.
    pub fn draw_multi(&mut self, c: (u8, u8, u8, u8))
        requires
            old(self).wf(),
            old(self).draw_this_line,
            17 <= old(self).curr_cycle <= 56,
        ensures
            chunk_drawn(old(self).window_buffer@, final(self).window_buffer@,
                old(self).screen_chunk_offset + old(self).x_scroll,
                |k: int| multi_pixel(old(self).gfx_data, c, k)),
            final(self).fg_mask_buffer@ == mask_added(old(self).fg_mask_buffer@, old(self).fg_mask_offset as int,
                multi_mask(old(self).gfx_data), old(self).x_scroll as u8,
                (((multi_mask(old(self).gfx_data) as u16) << ((8 - old(self).x_scroll) as u16)) as u8)),
            *final(self) == (VIC {
                window_buffer: final(self).window_buffer,
                fg_mask_buffer: final(self).fg_mask_buffer,
                ..*old(self)
            }),
    {
        let pos = self.screen_chunk_offset + self.x_scroll as usize;
        let g = self.gfx_data;
        let m = (g & 0xAA) | ((g & 0xAA) >> 1);
        let spill = ((m as u16) << (8 - self.x_scroll)) as u8;
        self.add_fg_mask(m, spill);
        let q0 = fetch_c64_color_rgba(select4((g >> 6u8) & 3, c));
        let q1 = fetch_c64_color_rgba(select4((g >> 4u8) & 3, c));
        let q2 = fetch_c64_color_rgba(select4((g >> 2u8) & 3, c));
        let q3 = fetch_c64_color_rgba(select4((g >> 0u8) & 3, c));
        self.window_buffer.set(pos + 7, q3);
        self.window_buffer.set(pos + 6, q3);
        self.window_buffer.set(pos + 5, q2);
        self.window_buffer.set(pos + 4, q2);
        self.window_buffer.set(pos + 3, q1);
        self.window_buffer.set(pos + 2, q1);
        self.window_buffer.set(pos + 1, q0);
        self.window_buffer.set(pos, q0);
        assert forall|k: int| 0 <= k < 8 implies #[trigger] self.window_buffer@[pos + k] == multi_pixel(g, c, k) by {
            if k == 0 {} else if k == 1 {} else if k == 2 {} else if k == 3 {} else if k == 4 {} else if k == 5 {}
            else if k == 6 {} else {}
        }
    }

    /// Draws the graphics of the current chunk (cycles 17-56) in the current display mode;
    /// inside the upper or lower border the background is drawn instead.
    pub fn draw_graphics(&mut self, mem: &mut Memory)
        requires
            old(self).wf(),
            old(mem).wf(),
            17 <= old(self).curr_cycle <= 56,
            old(self).display_mode <= 7,
        ensures
            final(mem)@ == old(mem)@,
            final(mem).wf(),
            *final(self) == (VIC {
                window_buffer: final(self).window_buffer,
                fg_mask_buffer: final(self).fg_mask_buffer,
                ..*old(self)
            }),
            !old(self).draw_this_line ==> *final(self) == *old(self),
            old(self).draw_this_line && old(self).ud_border_on ==> chunk_filled(old(self).window_buffer@,
                final(self).window_buffer@, old(self).screen_chunk_offset as int, spec_color_rgba(
                background_color(old(mem)@, old(self).display_mode, old(self).last_char_data)))
                && final(self).fg_mask_buffer == old(self).fg_mask_buffer,
            old(self).draw_this_line && !old(self).ud_border_on ==> graphics_drawn(*old(self), old(mem)@,
                final(self).window_buffer@, final(self).fg_mask_buffer@),
            only_line_changed(old(self).window_buffer@, final(self).window_buffer@, old(self).line_start_offset as int),
    {
        if !self.draw_this_line {
            return;
        }
        if self.ud_border_on {
            self.draw_background(mem);
            return;
        }
        let mode = self.display_mode;
        let col = self.color_data;
        let ch = self.char_data;
        if mode == 0 || (mode == 1 && (col & 8) == 0) {
            let d021 = self.read_plain_reg(mem, 0xD021);
            self.draw_std(d021, col);
        } else if mode == 1 {
            let d021 = self.read_plain_reg(mem, 0xD021);
            let d022 = self.read_plain_reg(mem, 0xD022);
            let d023 = self.read_plain_reg(mem, 0xD023);
            self.draw_multi((d021, d022, d023, col & 7));
        } else if mode == 2 {
            self.draw_std(ch, ch >> 4u8);
        } else if mode == 3 {
            let d021 = self.read_plain_reg(mem, 0xD021);
            self.draw_multi((d021, ch >> 4u8, ch, col));
        } else if mode == 4 {
            let c0 = self.ecm_color_now(mem, ch);
            self.draw_std(c0, col);
        } else {
            let pos = self.screen_chunk_offset + self.x_scroll as usize;
            memset8(self.window_buffer.as_mut_slice(), pos, 0);
            let g = self.gfx_data;
            let xs = self.x_scroll as u8;
            if mode == 6 || (mode == 5 && (col & 8) == 0) {
                self.add_fg_mask(g, g << (7 - xs));
            } else {
                let m = (g & 0xAA) | ((g & 0xAA) >> 1);
                let spill = if xs == 0 { m } else { m << (8 - xs) };
                self.add_fg_mask(m, spill);
            }
        }
    }
}

/// One of four colors, by a two-bit selector.
fn select4(sel: u8, c: (u8, u8, u8, u8)) -> (r: u8)
    ensures
        r == (if sel == 0 { c.0 } else if sel == 1 { c.1 } else if sel == 2 { c.2 } else { c.3 }),
{
    if sel == 0 {
        c.0
    } else if sel == 1 {
        c.1
    } else if sel == 2 {
        c.2
    } else {
        c.3
    }
}

} // verus!
