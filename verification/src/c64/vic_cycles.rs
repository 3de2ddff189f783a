// VIC-II: the work of each of the 63 cycles of a raster line
use vstd::prelude::*;
use crate::c64::memory::{Memory, MemoryView};
use crate::c64::cpu::{CPU, Callback};
use crate::c64::vic::{VIC, NUM_RASTERLINES, FIRST_DISP_LINE, LAST_DISP_LINE, SKIP_FRAMES, bad_line, regs_after_raster_irq, VicRegs};
use crate::c64::vic_raster::only_io_changed;
use crate::c64::vic_sprites::{only_line_changed, sprites_paint, lemma_sprites_paint_same};
use crate::c64::vic_draw::{chunk_filled, graphics_drawn, background_color};
use crate::utils::{memset8, fetch_c64_color_rgba, spec_color_rgba};

verus! {

/// The cycle after `c`.
pub open spec fn next_cycle(c: u8) -> u8 {
    if c == 63 { 1 } else { (c + 1) as u8 }
}

/// Whether entering the next raster line in cycle 1 raises the CPU interrupt: the line
/// is not the last, its number is the raster compare value, and the raster interrupt is
/// enabled.
pub open spec fn line_raster_irq(o: VIC) -> bool {
    &&& o.raster_cnt != NUM_RASTERLINES - 1
    &&& (o.raster_cnt + 1) as u16 == o.raster_irq
    &&& regs_after_raster_irq(o.regs()).1 == Callback::TriggerVICIrq
}

/// What the work of a cycle keeps and establishes: buffer shapes, scroll, mode, raster
/// compare value, interrupt mask, cycle counter and beam position are kept, the beam state fits the next cycle, memory
/// outside the I/O bank is unchanged, of the CPU only BA and the VIC interrupt line
/// change (the interrupt line is only ever raised), and only the current line of the
/// picture is drawn on.
pub open spec fn cycle_ok(o: VIC, n: VIC, om: MemoryView, nm: MemoryView, oc: CPU, nc: CPU) -> bool {
    &&& n.shape_ok()
    &&& n.x_scroll == o.x_scroll
    &&& n.display_mode == o.display_mode
    &&& n.raster_irq == o.raster_irq
    &&& n.irq_mask == o.irq_mask
    &&& n.curr_cycle == o.curr_cycle
    &&& n.beam_ok(next_cycle(o.curr_cycle))
    &&& only_io_changed(om, nm)
    &&& nc == (CPU { ba_low: nc.ba_low, vic_irq: nc.vic_irq, ..oc })
    &&& oc.vic_irq ==> nc.vic_irq
    &&& only_line_changed(o.window_buffer@, n.window_buffer@, o.line_start_offset as int)
}

/// The picture `w` after side borders are drawn over `w0` in the line starting at `ls`: the
/// chunks whose border sample was on take their sampled border color, the rest stays.
pub open spec fn side_borders_drawn(w0: Seq<u32>, w: Seq<u32>, ls: int, samples: [bool; 5], colors: Seq<u8>) -> bool {
    &&& w.len() == w0.len()
    &&& forall|i: int| 0 <= i < w0.len() && !(ls <= i < ls + 384) ==> #[trigger] w[i] == w0[i]
    &&& forall|i: int| 0 <= i < 384 ==> #[trigger] w[ls + i] == (if border_chunk_on(samples, i / 8) {
        spec_color_rgba(colors[i / 8])
    } else {
        w0[ls + i]
    })
}

/// The picture `w` at the end of a drawn line (cycle 60) of the VIC `o` with memory `m`:
/// the last background chunk, then the sprites of the line (lowest number in front), then
/// the side borders with the border color sampled in each chunk (the last one now).
pub open spec fn line_end_output(o: VIC, m: MemoryView, w: Seq<u32>) -> bool {
    &&& !o.draw_this_line ==> w == o.window_buffer@
    &&& o.draw_this_line ==> exists|w1: Seq<u32>| #[trigger] background_output(o, m, w1) && {
        let w2 = if o.sprite_draw != 0 { sprites_paint(o, m, w1, Seq::new(384, |i: int| 0u8), 8).0 } else { w1 };
        let colors = if o.border_on {
            o.border_color_sample@.update(47, o.reg_value(m.io.data, 0xD020))
        } else {
            o.border_color_sample@
        };
        side_borders_drawn(w2, w, o.line_start_offset as int, o.border_on_sample, colors)
    }
}

/// The picture at the end of a line does not depend on the VIC's debug flag.
proof fn lemma_line_end_output_dbg(o: VIC, m: MemoryView, w: Seq<u32>)
    requires
        line_end_output(VIC { dbg_reg_changed: false, ..o }, m, w),
    ensures
        line_end_output(o, m, w),
{
    let o2 = VIC { dbg_reg_changed: false, ..o };
    if o.draw_this_line {
        let w1 = choose|w1: Seq<u32>| #[trigger] background_output(o2, m, w1) && {
            let w2 = if o2.sprite_draw != 0 { sprites_paint(o2, m, w1, Seq::new(384, |i: int| 0u8), 8).0 } else { w1 };
            let colors = if o2.border_on {
                o2.border_color_sample@.update(47, o2.reg_value(m.io.data, 0xD020))
            } else {
                o2.border_color_sample@
            };
            side_borders_drawn(w2, w, o2.line_start_offset as int, o2.border_on_sample, colors)
        };
        lemma_sprites_paint_same(o2, o, m, w1, Seq::new(384, |i: int| 0u8), 8);
        assert(background_output(o, m, w1));
        assert(o2.reg_value(m.io.data, 0xD020) == o.reg_value(m.io.data, 0xD020));
    }
}

/// The picture `w` once the VIC `o` has filled its current 8-pixel chunk with the
/// background color (on drawn lines only).
pub open spec fn background_output(o: VIC, m: MemoryView, w: Seq<u32>) -> bool {
    &&& !o.draw_this_line ==> w == o.window_buffer@
    &&& o.draw_this_line ==> chunk_filled(o.window_buffer@, w, o.screen_chunk_offset as int,
        spec_color_rgba(background_color(m, o.display_mode, o.last_char_data)))
}

/// The picture `w` and foreground mask `f` once the VIC `o` has output its current 8-pixel
/// chunk from memory `m`: nothing on lines that are not drawn, the background color inside
/// the upper or lower border, the graphics of the display mode otherwise.
pub open spec fn chunk_output(o: VIC, m: MemoryView, w: Seq<u32>, f: Seq<u8>) -> bool {
    &&& !o.draw_this_line ==> w == o.window_buffer@ && f == o.fg_mask_buffer@
    &&& o.draw_this_line && o.ud_border_on ==> chunk_filled(o.window_buffer@, w, o.screen_chunk_offset as int,
        spec_color_rgba(background_color(m, o.display_mode, o.last_char_data))) && f == o.fg_mask_buffer@
    &&& o.draw_this_line && !o.ud_border_on ==> graphics_drawn(o, m, w, f)
}

/// Whether border chunk `chunk` of a line is drawn: chunks 0-3 by the sample of cycle 1,
/// chunk 4 by that of cycle 17, chunks 5-42 by cycle 18, chunk 43 by cycle 56 and the
/// right border chunks by cycle 57.
pub open spec fn border_chunk_on(samples: [bool; 5], chunk: int) -> bool {
    if chunk < 4 {
        samples[0]
    } else if chunk == 4 {
        samples[1]
    } else if chunk < 43 {
        samples[2]
    } else if chunk == 43 {
        samples[3]
    } else {
        samples[4]
    }
}

/// A 16-bit counter moved on by `step`, wrapping around.
pub open spec fn counter_plus(c: u16, step: u16) -> u16 {
    (if c as int + step as int > 0xFFFF { c as int + step as int - 0x10000 } else { c as int + step as int }) as u16
}

/// The sprite fetches of a cycle on VIC `o` with memory `m`, giving VIC `n`: with `first`,
/// sprite `num`'s pointer (from the end of the video matrix) and, when its DMA is on, its
/// first data byte; otherwise, when its DMA is on, its second and third data bytes (an idle
/// access at $3FFF when it is off). Each data byte counts the sprite's data counter up.
pub open spec fn sprite_fetched(o: VIC, m: MemoryView, n: VIC, num: int, first: bool) -> bool {
    let on = (o.sprite_dma_on & (1u8 << (num as u8))) != 0;
    let mc0 = o.mc[num];
    let mc1 = counter_plus(mc0, 1);
    let mc2 = counter_plus(mc0, 2);
    &&& n == (VIC { sprite_ptr: n.sprite_ptr, sprite_data: n.sprite_data, mc: n.mc, last_byte: n.last_byte, ..o })
    &&& forall|i: int| 0 <= i < 8 && i != num ==> #[trigger] n.mc[i] == o.mc[i]
    &&& if first {
        let pb = VIC::fetch_value(m, o.cia_vabase, o.matrix_base | 0x03F8 | num as u16);
        let ptr = (pb as u16) << 6u16;
        let db = VIC::fetch_value(m, o.cia_vabase, (mc0 & 0x3F) | ptr);
        &&& n.sprite_ptr@ == o.sprite_ptr@.update(num, ptr)
        &&& forall|i: int, k: int| 0 <= i < 8 && 0 <= k < 4 ==> #[trigger] n.sprite_data[i][k]
            == (if on && i == num && k == 0 { db } else { o.sprite_data[i][k] })
        &&& n.mc[num] == (if on { mc1 } else { mc0 })
        &&& n.last_byte == (if on { db } else { pb })
    } else {
        let ptr = o.sprite_ptr@[num];
        let d1 = VIC::fetch_value(m, o.cia_vabase, (mc0 & 0x3F) | ptr);
        let d2 = VIC::fetch_value(m, o.cia_vabase, (mc1 & 0x3F) | ptr);
        &&& n.sprite_ptr@ == o.sprite_ptr@
        &&& forall|i: int, k: int| 0 <= i < 8 && 0 <= k < 4 ==> #[trigger] n.sprite_data[i][k]
            == (if on && i == num && k == 1 { d1 } else if on && i == num && k == 2 { d2 } else { o.sprite_data[i][k] })
        &&& n.mc[num] == (if on { mc2 } else { mc0 })
        &&& n.last_byte == (if on { d2 } else { VIC::fetch_value(m, o.cia_vabase, 0x3FFF) })
    }
}

/// The BA line after the BA control of a cycle: released when no sprite of `release` has
/// DMA on, then pulled low when a sprite of `set` has.
pub open spec fn ba_after(ba: bool, dma: u8, release: u8, set: u8) -> bool {
    if set != 0 && (dma & set) != 0 {
        true
    } else if release != 0 && (dma & release) == 0 {
        false
    } else {
        ba
    }
}

/// The data counter base of sprite `i` after it is stepped by `step` where its Y expansion
/// flip-flop is set.
pub open spec fn mc_base_stepped(v: VIC, step: u16, i: int) -> u16 {
    if (v.sprite_y_exp & (1u8 << (i as u8))) != 0 { counter_plus(v.mc_base[i], step) } else { v.mc_base[i] }
}

/// The sprite DMA flags once sprites 0 to `k - 1` were stepped: with `step` 1, a sprite
/// whose stepped counter base ends in $3F stops its DMA.
pub open spec fn dma_after_mc_step(v: VIC, step: u16, k: int) -> u8
    decreases k,
{
    if k <= 0 {
        v.sprite_dma_on
    } else {
        let d = dma_after_mc_step(v, step, k - 1);
        if step == 1 && (mc_base_stepped(v, step, k - 1) & 0x3F) == 0x3F {
            d & !(1u8 << ((k - 1) as u8))
        } else {
            d
        }
    }
}

/// The sprite and BA work of cycles 3-10, 61 and 62: which sprite is fetched, whether its
/// pointer and first byte (else its other two bytes), and the BA release and set masks.
pub open spec fn sprite_cycle_plan(c: u8) -> (int, bool, u8, u8) {
    if c == 3 {
        (4, true, 0x30, 0)
    } else if c == 4 {
        (4, false, 0, 0x40)
    } else if c == 5 {
        (5, true, 0x60, 0)
    } else if c == 6 {
        (5, false, 0, 0x80)
    } else if c == 7 {
        (6, true, 0xC0, 0)
    } else if c == 8 {
        (6, false, 0, 0)
    } else if c == 9 {
        (7, true, 0x80, 0)
    } else if c == 10 {
        (7, false, 0, 0)
    } else if c == 61 {
        (1, false, 0, 0x08)
    } else {
        (2, true, 0x0C, 0)
    }
}

impl VIC {
    /// The sprite fetches of a cycle: pointer and first data byte of sprite `num`, or its
    /// second and third data bytes.
    fn sprite_fetch(&mut self, mem: &mut Memory, num: usize, first: bool)
        requires
            old(self).shape_ok(),
            old(mem).wf(),
            num < 8,
        ensures
            final(mem)@ == old(mem)@,
            final(mem).wf(),
            final(self).shape_ok(),
            *final(self) == (VIC {
                sprite_ptr: final(self).sprite_ptr,
                sprite_data: final(self).sprite_data,
                mc: final(self).mc,
                last_byte: final(self).last_byte,
                ..*old(self)
            }),
            sprite_fetched(*old(self), old(mem)@, *final(self), num as int, first),
    {
        if first {
            self.sprite_ptr_access(mem, num);
            self.sprite_data_access(mem, num, 0);
        } else {
            self.sprite_data_access(mem, num, 1);
            self.sprite_data_access(mem, num, 2);
        }
    }

    /// BA control: released when no sprite of `release` has DMA on; pulled low when a
    /// sprite of `set` has.
    fn ba_control(&mut self, cpu: &mut CPU, c64_cycle_cnt: u32, release: u8, set: u8)
        ensures
            *final(cpu) == (CPU { ba_low: final(cpu).ba_low, ..*old(cpu) }),
            *final(self) == (VIC { first_ba_cycle: final(self).first_ba_cycle, ..*old(self) }),
            release != 0 && (old(self).sprite_dma_on & release) == 0 && !(set != 0 && (old(self).sprite_dma_on & set) != 0)
                ==> !final(cpu).ba_low,
            set != 0 && (old(self).sprite_dma_on & set) != 0 ==> final(cpu).ba_low,
            final(cpu).ba_low == ba_after(old(cpu).ba_low, old(self).sprite_dma_on, release, set),
            final(self).first_ba_cycle == (if set != 0 && (old(self).sprite_dma_on & set) != 0
                && !(if release != 0 && (old(self).sprite_dma_on & release) == 0 { false } else { old(cpu).ba_low }) {
                c64_cycle_cnt
            } else {
                old(self).first_ba_cycle
            }),
    {
        if release != 0 && (self.sprite_dma_on & release) == 0 {
            cpu.ba_low = false;
        }
        if set != 0 && (self.sprite_dma_on & set) != 0 {
            self.set_ba_low(cpu, c64_cycle_cnt);
        }
    }

    /// Cycles 3-10, 61 and 62: sprite fetches and BA control.
    fn sprite_cycle(&mut self, mem: &mut Memory, cpu: &mut CPU, c64_cycle_cnt: u32)
        requires
            old(self).wf(),
            old(mem).wf(),
            3 <= old(self).curr_cycle <= 10 || old(self).curr_cycle == 61 || old(self).curr_cycle == 62,
        ensures
            final(mem).wf(),
            cycle_ok(*old(self), *final(self), old(mem)@, final(mem)@, *old(cpu), *final(cpu)),
            final(self).raster_cnt == old(self).raster_cnt,
            final(self).raster_x == old(self).raster_x,
            final(self).trigger_vblank == old(self).trigger_vblank,
            final(self).regs() == old(self).regs(),
            ({
                let (num, first, release, set) = sprite_cycle_plan(old(self).curr_cycle);
                let fetched = VIC {
                    display_state: old(self).display_state,
                    first_ba_cycle: old(self).first_ba_cycle,
                    ..*final(self)
                };
                &&& sprite_fetched(*old(self), old(mem)@, fetched, num, first)
                &&& final(self).display_state == (old(self).display_state || old(self).is_bad_line)
                &&& final(cpu).ba_low == ba_after(old(cpu).ba_low, old(self).sprite_dma_on, release, set)
                &&& final(self).first_ba_cycle == (if set != 0 && (old(self).sprite_dma_on & set) != 0
                    && !(if release != 0 && (old(self).sprite_dma_on & release) == 0 { false } else { old(cpu).ba_low }) {
                    c64_cycle_cnt
                } else {
                    old(self).first_ba_cycle
                })
            }),
    {
        let c = self.curr_cycle;
        let (num, first, release, set): (usize, bool, u8, u8) = if c == 3 {
            (4, true, 0x30, 0)
        } else if c == 4 {
            (4, false, 0, 0x40)
        } else if c == 5 {
            (5, true, 0x60, 0)
        } else if c == 6 {
            (5, false, 0, 0x80)
        } else if c == 7 {
            (6, true, 0xC0, 0)
        } else if c == 8 {
            (6, false, 0, 0)
        } else if c == 9 {
            (7, true, 0x80, 0)
        } else if c == 10 {
            (7, false, 0, 0)
        } else if c == 61 {
            (1, false, 0, 0x08)
        } else {
            (2, true, 0x0C, 0)
        };
        self.sprite_fetch(mem, num, first);
        self.display_if_bad_line();
        self.ba_control(cpu, c64_cycle_cnt, release, set);
    }

    /// Raises the raster interrupt (flag, and CPU interrupt when enabled).
    fn raster_irq_to_cpu(&mut self, cpu: &mut CPU)
        ensures
            final(self).regs() == regs_after_raster_irq(old(self).regs()).0,
            final(self).same_beam_state(old(self)),
            final(self).dbg_reg_changed == old(self).dbg_reg_changed,
            final(self).shape_ok() == old(self).shape_ok(),
            *final(cpu) == (CPU {
                vic_irq: old(cpu).vic_irq || regs_after_raster_irq(old(self).regs()).1 == Callback::TriggerVICIrq,
                ..*old(cpu)
            }),
    {
        let cb = self.raster_irq();
        if cb == Callback::TriggerVICIrq {
            cpu.vic_irq = true;
        }
    }

    /// Cycle 1: the next raster line begins (after the last one, the vertical blank is
    /// flagged for cycle 2): raster interrupt, bad line and drawn line decisions; sprite 3
    /// pointer and first byte; BA is released when sprites 3 and 4 are off.
    #[verifier::rlimit(40)]
    fn cycle_1(&mut self, mem: &mut Memory, cpu: &mut CPU)
        requires
            old(self).wf(),
            old(mem).wf(),
            old(self).curr_cycle == 1,
        ensures
            final(mem).wf(),
            cycle_ok(*old(self), *final(self), old(mem)@, final(mem)@, *old(cpu), *final(cpu)),
            final(self).raster_x == old(self).raster_x,
            final(cpu).vic_irq == (old(cpu).vic_irq || line_raster_irq(*old(self))),
            old(self).raster_cnt == NUM_RASTERLINES - 1 ==> final(self).trigger_vblank
                && final(self).raster_cnt == old(self).raster_cnt && final(self).regs() == old(self).regs(),
            old(self).raster_cnt != NUM_RASTERLINES - 1 ==> {
                let r = (old(self).raster_cnt + 1) as u16;
                &&& final(self).raster_cnt == r
                &&& final(self).is_bad_line == bad_line(r, old(self).y_scroll, final(self).bad_lines_on)
                &&& final(self).draw_this_line == (FIRST_DISP_LINE <= r <= LAST_DISP_LINE && !old(self).frame_skipped)
                &&& r == old(self).raster_irq ==> final(self).irq_flag == regs_after_raster_irq(old(self).regs()).0.irq_flag
                    && (regs_after_raster_irq(old(self).regs()).1 == Callback::TriggerVICIrq ==> final(cpu).vic_irq)
                &&& r != old(self).raster_irq ==> final(self).irq_flag == old(self).irq_flag
            },
    {
        self.next_line(mem, cpu);
        self.border_on_sample[0] = self.border_on;
        self.sprite_fetch(mem, 3, true);
        self.display_if_bad_line();
        self.ba_control(cpu, 0, 0x18, 0);
    }

    /// The raster line decisions of cycle 1.
    #[verifier::rlimit(80)]
    #[verifier::spinoff_prover]
    fn next_line(&mut self, mem: &mut Memory, cpu: &mut CPU)
        requires
            old(self).wf(),
            old(mem).wf(),
            old(self).curr_cycle == 1,
        ensures
            final(mem)@ == old(mem)@,
            final(mem).wf(),
            final(self).shape_ok(),
            final(self).beam_ok(2),
            final(self).x_scroll == old(self).x_scroll,
            final(self).display_mode == old(self).display_mode,
            final(self).curr_cycle == old(self).curr_cycle,
            final(self).raster_x == old(self).raster_x,
            final(self).sprite_dma_on == old(self).sprite_dma_on,
            final(self).border_on == old(self).border_on,
            final(self).window_buffer@ == old(self).window_buffer@,
            final(self).line_start_offset == old(self).line_start_offset,
            final(self).raster_irq == old(self).raster_irq,
            final(self).irq_mask == old(self).irq_mask,
            *final(cpu) == (CPU { vic_irq: final(cpu).vic_irq, ..*old(cpu) }),
            final(cpu).vic_irq == (old(cpu).vic_irq || line_raster_irq(*old(self))),
            old(self).raster_cnt == NUM_RASTERLINES - 1 ==> final(self).trigger_vblank
                && final(self).raster_cnt == old(self).raster_cnt && final(self).regs() == old(self).regs(),
            old(self).raster_cnt != NUM_RASTERLINES - 1 ==> {
                let r = (old(self).raster_cnt + 1) as u16;
                &&& final(self).raster_cnt == r
                &&& final(self).is_bad_line == bad_line(r, old(self).y_scroll, final(self).bad_lines_on)
                &&& final(self).draw_this_line == (FIRST_DISP_LINE <= r <= LAST_DISP_LINE && !old(self).frame_skipped)
                &&& r == old(self).raster_irq ==> final(self).irq_flag == regs_after_raster_irq(old(self).regs()).0.irq_flag
                    && (regs_after_raster_irq(old(self).regs()).1 == Callback::TriggerVICIrq ==> final(cpu).vic_irq)
                &&& r != old(self).raster_irq ==> final(self).irq_flag == old(self).irq_flag
            },
    {
        if self.raster_cnt == NUM_RASTERLINES - 1 {
            self.trigger_vblank = true;
        } else {
            self.raster_cnt = self.raster_cnt + 1;
            if self.raster_cnt == self.raster_irq {
                self.raster_irq_to_cpu(cpu);
            }
            if self.raster_cnt == 0x30 {
                let ctrl1 = self.read_reg_pure(mem, 0xD011);
                self.bad_lines_on = (ctrl1 & 0x10) != 0;
            }
            let r = self.raster_cnt;
            self.is_bad_line = r >= 0x30 && r <= 0xF7 && (r & 7) == self.y_scroll && self.bad_lines_on;
            self.draw_this_line = r >= FIRST_DISP_LINE && r <= LAST_DISP_LINE && !self.frame_skipped;
        }
    }

    /// Cycle 2: at the vertical blank the frame restarts (raster line 0, video counter
    /// base, refresh counter, light pen latch, frame skipping, the line start of the
    /// picture, and a raster interrupt for line 0); the line's screen and foreground
    /// positions restart; sprite 3's other bytes; BA goes low when sprite 5 is on.
    #[verifier::rlimit(40)]
    fn cycle_2(&mut self, mem: &mut Memory, cpu: &mut CPU, c64_cycle_cnt: u32, should_trigger_vblank: &mut bool)
        requires
            old(self).wf(),
            old(mem).wf(),
            old(self).curr_cycle == 2,
        ensures
            final(mem).wf(),
            cycle_ok(*old(self), *final(self), old(mem)@, final(mem)@, *old(cpu), *final(cpu)),
            final(self).raster_x == old(self).raster_x,
            old(self).trigger_vblank ==> {
                &&& final(self).raster_cnt == 0
                &&& final(self).video_cnt_base == 0
                &&& final(self).refresh_cnt == 0xFF
                &&& !final(self).lp_triggered
                &&& !final(self).trigger_vblank
                &&& final(self).line_start_offset == 0
                &&& *final(should_trigger_vblank)
                &&& final(self).frame_skipped == (old(self).skip_cnt == 1)
                &&& final(self).skip_cnt == (if old(self).skip_cnt == 1 { SKIP_FRAMES } else { (old(self).skip_cnt - 1) as u16 })
            },
            !old(self).trigger_vblank ==> *final(should_trigger_vblank) == *old(should_trigger_vblank)
                && final(self).raster_cnt == old(self).raster_cnt && final(self).regs() == old(self).regs(),
    {
        let ghost m0 = mem@;
        if self.trigger_vblank {
            self.raster_cnt = 0;
            self.video_cnt_base = 0;
            self.refresh_cnt = 0xFF;
            self.lp_triggered = false;
            self.trigger_vblank = false;
            self.skip_cnt = self.skip_cnt - 1;
            self.frame_skipped = self.skip_cnt == 0;
            if self.frame_skipped {
                self.skip_cnt = SKIP_FRAMES;
            }
            *should_trigger_vblank = true;
            self.line_start_offset = 0;
            if self.raster_irq == 0 {
                self.raster_irq_to_cpu(cpu);
            }
        }
        self.screen_chunk_offset = self.line_start_offset;
        self.fg_mask_offset = 0;
        self.fg_mask_buffer = [0u8; 48];
        self.sprite_fetch(mem, 3, false);
        self.display_if_bad_line();
        self.ba_control(cpu, c64_cycle_cnt, 0, 0x20);
        assert(mem@ == m0);
    }

    /// The background of the current chunk, then the border sample and the move to the
    /// next chunk (cycles 13-16 and 57-60).
    fn background_cycle(&mut self, mem: &mut Memory)
        requires
            old(self).wf(),
            old(mem).wf(),
            13 <= old(self).curr_cycle <= 60,
        ensures
            final(mem)@ == old(mem)@,
            final(mem).wf(),
            final(self).window_buffer@.len() == old(self).window_buffer@.len(),
            *final(self) == (VIC {
                window_buffer: final(self).window_buffer,
                screen_chunk_offset: final(self).screen_chunk_offset,
                fg_mask_offset: final(self).fg_mask_offset,
                border_color_sample: final(self).border_color_sample,
                ..*old(self)
            }),
            final(self).screen_chunk_offset == old(self).screen_chunk_offset + (if old(self).draw_this_line { 8int } else { 0 }),
            final(self).fg_mask_offset == old(self).fg_mask_offset + (if old(self).draw_this_line { 1int } else { 0 }),
            only_line_changed(old(self).window_buffer@, final(self).window_buffer@, old(self).line_start_offset as int),
            background_output(*old(self), old(mem)@, final(self).window_buffer@),
    {
        self.draw_background(mem);
        self.sample_border(mem);
    }

    /// The graphics of the current chunk, then the border sample and the move to the next
    /// chunk (cycles 17-56).
    fn graphics_cycle(&mut self, mem: &mut Memory)
        requires
            old(self).wf(),
            old(mem).wf(),
            17 <= old(self).curr_cycle <= 56,
        ensures
            final(mem)@ == old(mem)@,
            final(mem).wf(),
            final(self).window_buffer@.len() == old(self).window_buffer@.len(),
            *final(self) == (VIC {
                window_buffer: final(self).window_buffer,
                fg_mask_buffer: final(self).fg_mask_buffer,
                screen_chunk_offset: final(self).screen_chunk_offset,
                fg_mask_offset: final(self).fg_mask_offset,
                border_color_sample: final(self).border_color_sample,
                ..*old(self)
            }),
            final(self).screen_chunk_offset == old(self).screen_chunk_offset + (if old(self).draw_this_line { 8int } else { 0 }),
            final(self).fg_mask_offset == old(self).fg_mask_offset + (if old(self).draw_this_line { 1int } else { 0 }),
            only_line_changed(old(self).window_buffer@, final(self).window_buffer@, old(self).line_start_offset as int),
            chunk_output(*old(self), old(mem)@, final(self).window_buffer@, final(self).fg_mask_buffer@),
    {
        self.draw_graphics(mem);
        self.sample_border(mem);
    }

    /// Cycles 11-16: DRAM refresh; background chunks from cycle 13 (the raster X position
    /// restarts there); the bad line checks (row counter restart in 14, where the video
    /// counter reloads); the sprite data counter bases move on for Y-expanded sprites in
    /// 15 and 16; the matrix accesses begin in 15 and the graphics accesses in 16; in 11
    /// BA is released.
    #[verifier::rlimit(60)]
    fn refresh_cycle(&mut self, mem: &mut Memory, cpu: &mut CPU, c64_cycle_cnt: u32)
        requires
            old(self).wf(),
            old(mem).wf(),
            11 <= old(self).curr_cycle <= 16,
        ensures
            final(mem).wf(),
            cycle_ok(*old(self), *final(self), old(mem)@, final(mem)@, *old(cpu), *final(cpu)),
            final(self).raster_x == (if old(self).curr_cycle == 13 { 0xFFFCu16 } else { old(self).raster_x }),
            final(self).raster_cnt == old(self).raster_cnt,
            final(self).regs() == old(self).regs(),
            old(self).curr_cycle == 11 ==> !final(cpu).ba_low,
            old(self).curr_cycle >= 13 ==> background_output(*old(self), old(mem)@, final(self).window_buffer@),
    {
        let c = self.curr_cycle;
        if c >= 13 {
            self.background_cycle(mem);
        }
        if c == 16 {
            self.graphics_access(mem);
        } else {
            self.refresh_access(mem);
        }
        if c == 11 {
            self.display_if_bad_line();
            cpu.ba_low = false;
        } else if c == 14 {
            self.rc_if_bad_line(cpu, c64_cycle_cnt);
            self.video_cnt = self.video_cnt_base;
        } else {
            self.fetch_if_bad_line(cpu, c64_cycle_cnt);
        }
        if c == 13 {
            self.raster_x = 0xFFFC;
        }
        if c == 15 {
            self.step_mc_base(2);
            self.ml_idx = 0;
            self.matrix_access(mem, cpu, c64_cycle_cnt);
        } else if c == 16 {
            self.step_mc_base(1);
            self.matrix_access(mem, cpu, c64_cycle_cnt);
        }
    }

    /// The sprite data counter bases of Y-expanded sprites move on by `step` (two in
    /// cycle 15, one in cycle 16, where a sprite whose base reached the end of its data
    /// stops its DMA).
    fn step_mc_base(&mut self, step: u16)
        ensures
            *final(self) == (VIC { mc_base: final(self).mc_base, sprite_dma_on: final(self).sprite_dma_on, ..*old(self) }),
            step == 2 ==> final(self).sprite_dma_on == old(self).sprite_dma_on,
            forall|i: int| 0 <= i < 8 ==> #[trigger] final(self).mc_base[i] == mc_base_stepped(*old(self), step, i),
            final(self).sprite_dma_on == dma_after_mc_step(*old(self), step, 8),
    {
        let ghost s0 = *self;
        let mut i: usize = 0;
        while i < 8
            invariant
                i <= 8,
                *self == (VIC { mc_base: self.mc_base, sprite_dma_on: self.sprite_dma_on, ..s0 }),
                step == 2 ==> self.sprite_dma_on == s0.sprite_dma_on,
                forall|j: int| 0 <= j < 8 ==> #[trigger] self.mc_base[j]
                    == (if j < i { mc_base_stepped(s0, step, j) } else { s0.mc_base[j] }),
                self.sprite_dma_on == dma_after_mc_step(s0, step, i as int),
            decreases 8 - i,
        {
            let mask: u8 = 1u8 << (i as u8);
            if (self.sprite_y_exp & mask) != 0 {
                self.mc_base[i] = self.mc_base[i].wrapping_add(step);
            }
            if step == 1 && (self.mc_base[i] & 0x3F) == 0x3F {
                self.sprite_dma_on = self.sprite_dma_on & !mask;
            }
            i = i + 1;
        }
    }

    /// Cycles 17-54: graphics output, then graphics and matrix accesses. In 17 (40
    /// columns) and 18 (38 columns) the side border may open and the border flip-flop is
    /// sampled; 17 draws the background under its chunk first. From 18 on the character
    /// just fetched is kept for the next chunk's background.
    #[verifier::rlimit(60)]
    fn display_cycle(&mut self, mem: &mut Memory, cpu: &mut CPU, c64_cycle_cnt: u32)
        requires
            old(self).wf(),
            old(mem).wf(),
            17 <= old(self).curr_cycle <= 54,
        ensures
            final(mem).wf(),
            cycle_ok(*old(self), *final(self), old(mem)@, final(mem)@, *old(cpu), *final(cpu)),
            final(self).raster_x == old(self).raster_x,
            final(self).raster_cnt == old(self).raster_cnt,
            final(self).regs() == old(self).regs(),
            old(self).curr_cycle >= 19 ==> chunk_output(*old(self), old(mem)@, final(self).window_buffer@,
                final(self).fg_mask_buffer@),
    {
        let c = self.curr_cycle;
        if c == 17 {
            self.open_side_border(mem, true);
            self.border_on_sample[1] = self.border_on;
            self.draw_background(mem);
        } else if c == 18 {
            self.open_side_border(mem, false);
            self.border_on_sample[2] = self.border_on;
        }
        self.graphics_cycle(mem);
        self.graphics_access(mem);
        self.fetch_if_bad_line(cpu, c64_cycle_cnt);
        self.matrix_access(mem, cpu, c64_cycle_cnt);
        if c >= 18 {
            self.last_char_data = self.char_data;
        }
    }

    /// Cycle 55: the last graphics access; the Y expansion flip-flops of the sprites with
    /// Y expansion toggle; sprite DMA may start; BA goes low for sprite 0 or is released.
    /// Cycle 56: the side border closes in 38 column mode (sampled), the last graphics
    /// chunk is drawn, an idle access, sprite DMA may start; BA goes low for sprite 0.
    #[verifier::rlimit(60)]
    fn display_end_cycle(&mut self, mem: &mut Memory, cpu: &mut CPU, c64_cycle_cnt: u32)
        requires
            old(self).wf(),
            old(mem).wf(),
            55 <= old(self).curr_cycle <= 56,
        ensures
            final(mem).wf(),
            cycle_ok(*old(self), *final(self), old(mem)@, final(mem)@, *old(cpu), *final(cpu)),
            final(self).raster_x == old(self).raster_x,
            final(self).raster_cnt == old(self).raster_cnt,
            final(self).regs() == (VicRegs { sprite_y_exp: final(self).sprite_y_exp, ..old(self).regs() }),
            chunk_output(*old(self), old(mem)@, final(self).window_buffer@, final(self).fg_mask_buffer@),
    {
        let c = self.curr_cycle;
        if c == 55 {
            self.graphics_cycle(mem);
            self.graphics_access(mem);
            self.display_if_bad_line();
            let mye = self.read_reg_pure(mem, 0xD017);
            self.sprite_y_exp = self.sprite_y_exp ^ mye;
            self.check_sprite_dma(mem);
            if (self.sprite_dma_on & 0x01) != 0 {
                self.set_ba_low(cpu, c64_cycle_cnt);
            } else {
                cpu.ba_low = false;
            }
        } else {
            let ctrl2 = self.read_reg_pure(mem, 0xD016);
            if (ctrl2 & 8) == 0 {
                self.border_on = true;
            }
            self.border_on_sample[3] = self.border_on;
            self.graphics_cycle(mem);
            self.idle_access(mem);
            self.display_if_bad_line();
            self.check_sprite_dma(mem);
            if (self.sprite_dma_on & 0x01) != 0 {
                self.set_ba_low(cpu, c64_cycle_cnt);
            }
        }
    }

    /// Cycle 57: the side border closes in 40 column mode (sampled); the sprites to draw
    /// in this line are taken over with their data; sprites without DMA stop being
    /// displayed; a background chunk; an idle access; BA goes low for sprite 1.
    #[verifier::rlimit(60)]
    fn cycle_57(&mut self, mem: &mut Memory, cpu: &mut CPU, c64_cycle_cnt: u32)
        requires
            old(self).wf(),
            old(mem).wf(),
            old(self).curr_cycle == 57,
        ensures
            final(mem).wf(),
            cycle_ok(*old(self), *final(self), old(mem)@, final(mem)@, *old(cpu), *final(cpu)),
            final(self).raster_x == old(self).raster_x,
            final(self).raster_cnt == old(self).raster_cnt,
            final(self).regs() == old(self).regs(),
            final(self).sprite_draw == old(self).sprite_display_on,
            background_output(*old(self), old(mem)@, final(self).window_buffer@),
    {
        let ctrl2 = self.read_reg_pure(mem, 0xD016);
        if (ctrl2 & 8) != 0 {
            self.border_on = true;
        }
        self.border_on_sample[4] = self.border_on;
        self.sprite_draw = self.sprite_display_on;
        if self.sprite_draw != 0 {
            self.sprite_draw_data = self.sprite_data;
        }
        self.sprite_display_on = self.sprite_display_on & self.sprite_dma_on;
        self.background_cycle(mem);
        self.idle_access(mem);
        self.display_if_bad_line();
        if (self.sprite_dma_on & 0x02) != 0 {
            self.set_ba_low(cpu, c64_cycle_cnt);
        }
    }

    /// Cycle 58: a background chunk; the sprite data counters reload from their bases and
    /// sprites with DMA on whose Y coordinate matches are displayed; sprite 0 pointer and
    /// first byte; after row 7 the video counter base takes over the video counter and the
    /// display goes idle; on a bad line or in display state the row counter moves on.
    #[verifier::rlimit(60)]
    fn cycle_58(&mut self, mem: &mut Memory, cpu: &mut CPU)
        requires
            old(self).wf(),
            old(mem).wf(),
            old(self).curr_cycle == 58,
        ensures
            final(mem).wf(),
            cycle_ok(*old(self), *final(self), old(mem)@, final(mem)@, *old(cpu), *final(cpu)),
            final(self).raster_x == old(self).raster_x,
            final(self).raster_cnt == old(self).raster_cnt,
            final(self).regs() == old(self).regs(),
            background_output(*old(self), old(mem)@, final(self).window_buffer@),
    {
        self.background_cycle(mem);
        self.reload_sprite_counters();
        self.sprite_fetch(mem, 0, true);
        if self.row_cnt == 7 {
            self.video_cnt_base = self.video_cnt;
            self.display_state = false;
        }
        if self.is_bad_line || self.display_state {
            self.display_state = true;
            self.row_cnt = self.row_cnt.wrapping_add(1) & 7;
        }
    }

    /// The data counters reload from their bases; sprites with DMA on whose Y coordinate
    /// matches the raster line are displayed.
    fn reload_sprite_counters(&mut self)
        requires
            old(self).shape_ok(),
        ensures
            final(self).mc == old(self).mc_base,
            *final(self) == (VIC { mc: final(self).mc, sprite_display_on: final(self).sprite_display_on, ..*old(self) }),
    {
        let ghost s0 = *self;
        let mut i: usize = 0;
        while i < 8
            invariant
                i <= 8,
                s0.shape_ok(),
                *self == (VIC { mc: self.mc, sprite_display_on: self.sprite_display_on, ..s0 }),
                forall|k: int| 0 <= k < i ==> self.mc[k] == s0.mc_base[k],
            decreases 8 - i,
        {
            let mask: u8 = 1u8 << (i as u8);
            self.mc[i] = self.mc_base[i];
            if (self.sprite_dma_on & mask) != 0 && (self.raster_cnt & 0x00FF) == self.my[i] as u16 {
                self.sprite_display_on = self.sprite_display_on | mask;
            }
            i = i + 1;
        }
        assert(self.mc@ =~= s0.mc_base@);
    }

    /// Cycle 59: a background chunk; sprite 0's other bytes; BA goes low for sprite 2.
    fn cycle_59(&mut self, mem: &mut Memory, cpu: &mut CPU, c64_cycle_cnt: u32)
        requires
            old(self).wf(),
            old(mem).wf(),
            old(self).curr_cycle == 59,
        ensures
            final(mem).wf(),
            cycle_ok(*old(self), *final(self), old(mem)@, final(mem)@, *old(cpu), *final(cpu)),
            final(self).raster_x == old(self).raster_x,
            final(self).raster_cnt == old(self).raster_cnt,
            final(self).regs() == old(self).regs(),
            background_output(*old(self), old(mem)@, final(self).window_buffer@),
    {
        self.background_cycle(mem);
        self.sprite_fetch(mem, 0, false);
        self.display_if_bad_line();
        self.ba_control(cpu, c64_cycle_cnt, 0, 0x04);
    }

    /// Cycle 63: sprite 2's other bytes; the vertical border flip-flop is set at the
    /// bottom line and cleared at the top line (display enabled); BA goes low for
    /// sprite 4. The line ends.
    fn cycle_63(&mut self, mem: &mut Memory, cpu: &mut CPU, c64_cycle_cnt: u32)
        requires
            old(self).wf(),
            old(mem).wf(),
            old(self).curr_cycle == 63,
        ensures
            final(mem).wf(),
            cycle_ok(*old(self), *final(self), old(mem)@, final(mem)@, *old(cpu), *final(cpu)),
            final(self).raster_x == old(self).raster_x,
            final(self).raster_cnt == old(self).raster_cnt,
            final(self).regs() == old(self).regs(),
            old(self).raster_cnt == old(self).dy_stop ==> final(self).ud_border_on,
    {
        self.sprite_fetch(mem, 2, false);
        self.display_if_bad_line();
        if self.raster_cnt == self.dy_stop {
            self.ud_border_on = true;
        } else {
            let ctrl1 = self.read_reg_pure(mem, 0xD011);
            if (ctrl1 & 0x10) != 0 && self.raster_cnt == self.dy_start {
                self.ud_border_on = false;
            }
        }
        self.ba_control(cpu, c64_cycle_cnt, 0, 0x10);
    }

    /// Cycle 60: a background chunk, then the sprites of the line (when any is to be
    /// drawn), the border sample; the border chunks whose flip-flop sample was on are
    /// filled with their sampled border colors and the next line starts one screen line
    /// further (on drawn lines); sprite 1 pointer and first byte; BA is released when
    /// sprites 1 and 2 are off.
    #[verifier::rlimit(60)]
    fn cycle_60(&mut self, mem: &mut Memory, cpu: &mut CPU)
        requires
            old(self).wf(),
            old(mem).wf(),
            old(self).curr_cycle == 60,
        ensures
            final(mem).wf(),
            cycle_ok(*old(self), *final(self), old(mem)@, final(mem)@, *old(cpu), *final(cpu)),
            final(self).raster_x == old(self).raster_x,
            final(self).raster_cnt == old(self).raster_cnt,
            final(self).regs() == (VicRegs { irq_flag: final(self).irq_flag, ..old(self).regs() }),
            final(self).line_start_offset == old(self).line_start_offset + (if old(self).draw_this_line { 384int } else { 0 }),
            line_end_output(*old(self), old(mem)@, final(self).window_buffer@),
    {
        let ghost o = *self;
        let ghost m0 = mem@;
        self.draw_background(mem);
        let ghost w1 = self.window_buffer@;
        let ghost v1 = *self;
        if self.draw_this_line && self.sprite_draw != 0 {
            self.draw_sprites(mem, cpu);
            proof {
                lemma_sprites_paint_same(v1, o, m0, w1, Seq::new(384, |i: int| 0u8), 8);
            }
        }
        let ghost w2 = self.window_buffer@;
        let ghost m2 = mem@;
        self.sample_border(mem);
        let ghost v3 = *self;
        if self.draw_this_line {
            self.draw_side_borders();
            self.line_start_offset = self.line_start_offset + 384;
        }
        proof {
            if o.draw_this_line {
                assert(background_output(o, m0, w1));
                assert(m2.io.data[0x20] == m0.io.data[0x20]);
                assert(o.reg_value(m2.io.data, 0xD020) == o.reg_value(m0.io.data, 0xD020));
                let colors = if o.border_on {
                    o.border_color_sample@.update(47, o.reg_value(m0.io.data, 0xD020))
                } else {
                    o.border_color_sample@
                };
                assert(v3.border_color_sample@ == colors);
                assert(side_borders_drawn(w2, self.window_buffer@, o.line_start_offset as int, o.border_on_sample, colors));
            }
        }
        self.sprite_fetch(mem, 1, true);
        self.display_if_bad_line();
        self.ba_control(cpu, 0, 0x06, 0);
    }

    /// Fills each 8-pixel chunk of the line whose border flip-flop sample was on with
    /// its sampled border color.
    pub fn draw_side_borders(&mut self)
        requires
            old(self).window_buffer@.len() == 384 * 272,
            old(self).line_start_offset + 384 <= 384 * 272,
        ensures
            *final(self) == (VIC { window_buffer: final(self).window_buffer, ..*old(self) }),
            final(self).window_buffer@.len() == old(self).window_buffer@.len(),
            forall|i: int| 0 <= i < old(self).window_buffer@.len()
                && !(old(self).line_start_offset <= i < old(self).line_start_offset + 384)
                ==> #[trigger] final(self).window_buffer@[i] == old(self).window_buffer@[i],
            forall|i: int| 0 <= i < 384 ==> {
                let chunk = i / 8;
                #[trigger] final(self).window_buffer@[old(self).line_start_offset + i] == (
                    if border_chunk_on(old(self).border_on_sample, chunk) {
                        spec_color_rgba(old(self).border_color_sample[chunk])
                    } else {
                        old(self).window_buffer@[old(self).line_start_offset + i]
                    })
            },
            side_borders_drawn(old(self).window_buffer@, final(self).window_buffer@, old(self).line_start_offset as int,
                old(self).border_on_sample, old(self).border_color_sample@),
    {
        let ghost s0 = *self;
        let ls = self.line_start_offset;
        let mut chunk: usize = 0;
        while chunk < 48
            invariant
                chunk <= 48,
                ls == s0.line_start_offset,
                ls + 384 <= 384 * 272,
                *self == (VIC { window_buffer: self.window_buffer, ..s0 }),
                self.window_buffer@.len() == 384 * 272,
                forall|i: int| 0 <= i < 384 * 272 && !(ls <= i < ls + 8 * chunk)
                    ==> #[trigger] self.window_buffer@[i] == s0.window_buffer@[i],
                forall|i: int| 0 <= i < 8 * chunk ==> {
                    let c = i / 8;
                    #[trigger] self.window_buffer@[ls + i] == (
                        if border_chunk_on(s0.border_on_sample, c) {
                            spec_color_rgba(s0.border_color_sample[c])
                        } else {
                            s0.window_buffer@[ls + i]
                        })
                },
            decreases 48 - chunk,
        {
            let on = if chunk < 4 {
                self.border_on_sample[0]
            } else if chunk == 4 {
                self.border_on_sample[1]
            } else if chunk < 43 {
                self.border_on_sample[2]
            } else if chunk == 43 {
                self.border_on_sample[3]
            } else {
                self.border_on_sample[4]
            };
            if on {
                let rgba = fetch_c64_color_rgba(self.border_color_sample[chunk]);
                memset8(self.window_buffer.as_mut_slice(), ls + 8 * chunk, rgba);
            }
            proof {
                assert forall|i: int| 0 <= i < 8 * (chunk + 1) implies {
                    let c = i / 8;
                    #[trigger] self.window_buffer@[ls + i] == (
                        if border_chunk_on(s0.border_on_sample, c) {
                            spec_color_rgba(s0.border_color_sample[c])
                        } else {
                            s0.window_buffer@[ls + i]
                        })
                } by {
                    if i >= 8 * chunk {
                        assert(i / 8 == chunk);
                    }
                }
            }
            chunk = chunk + 1;
        }
    }

    /// Runs the VIC for one cycle of its raster line: memory accesses (sprite pointers
    /// and data, refresh, video matrix, graphics), the BA line to the CPU, border and
    /// display logic, one 8-pixel chunk of output on drawn lines, sprites at the end of a
    /// drawn line, raster interrupts at the start of a line and the vertical blank after
    /// the last line (`should_trigger_vblank`). Returns whether this cycle started the
    /// vertical blank.
    #[verifier::rlimit(80)]
    #[verifier::spinoff_prover]
    pub fn update(&mut self, mem: &mut Memory, cpu: &mut CPU, c64_cycle_cnt: u32, should_trigger_vblank: &mut bool)
        -> (vblank: bool)
        requires
            old(self).wf(),
            old(mem).wf(),
        ensures
            final(self).wf(),
            final(mem).wf(),
            only_io_changed(old(mem)@, final(mem)@),
            *final(cpu) == (CPU { ba_low: final(cpu).ba_low, vic_irq: final(cpu).vic_irq, ..*old(cpu) }),
            old(cpu).vic_irq ==> final(cpu).vic_irq,
            vblank == (old(self).curr_cycle == 2 && old(self).trigger_vblank),
            final(self).raster_irq == old(self).raster_irq,
            final(self).irq_mask == old(self).irq_mask,
            final(self).curr_cycle == next_cycle(old(self).curr_cycle),
            final(self).raster_x == (if old(self).curr_cycle == 13 { 4u16 } else {
                (if old(self).raster_x >= 0xFFF8 { old(self).raster_x - 0xFFF8 } else { old(self).raster_x + 8 }) as u16
            }),
            old(self).curr_cycle == 1 && old(self).raster_cnt == NUM_RASTERLINES - 1 ==> final(self).trigger_vblank
                && final(self).raster_cnt == old(self).raster_cnt,
            old(self).curr_cycle == 1 && old(self).raster_cnt != NUM_RASTERLINES - 1 ==> {
                let r = (old(self).raster_cnt + 1) as u16;
                &&& final(self).raster_cnt == r
                &&& final(self).is_bad_line == bad_line(r, old(self).y_scroll, final(self).bad_lines_on)
                &&& final(self).draw_this_line == (FIRST_DISP_LINE <= r <= LAST_DISP_LINE && !old(self).frame_skipped)
                &&& r == old(self).raster_irq ==> final(self).irq_flag == regs_after_raster_irq(old(self).regs()).0.irq_flag
            },
            old(self).curr_cycle == 1 ==> final(cpu).vic_irq == (old(cpu).vic_irq || line_raster_irq(*old(self))),
            old(self).curr_cycle == 2 && old(self).trigger_vblank ==> {
                &&& final(self).raster_cnt == 0
                &&& final(self).video_cnt_base == 0
                &&& !final(self).lp_triggered
                &&& !final(self).trigger_vblank
                &&& final(self).line_start_offset == 0
                &&& *final(should_trigger_vblank)
                &&& final(self).frame_skipped == (old(self).skip_cnt == 1)
            },
            !(old(self).curr_cycle == 2 && old(self).trigger_vblank) ==> *final(should_trigger_vblank) == *old(should_trigger_vblank),
            old(self).curr_cycle != 1 && !(old(self).curr_cycle == 2 && old(self).trigger_vblank)
                ==> final(self).raster_cnt == old(self).raster_cnt,
            old(self).curr_cycle == 60 ==> final(self).line_start_offset == old(self).line_start_offset
                + (if old(self).draw_this_line { 384int } else { 0 }),
            old(self).curr_cycle == 11 ==> !final(cpu).ba_low,
            only_line_changed(old(self).window_buffer@, final(self).window_buffer@, old(self).line_start_offset as int),
            19 <= old(self).curr_cycle <= 56 ==> chunk_output(*old(self), old(mem)@, final(self).window_buffer@,
                final(self).fg_mask_buffer@),
            13 <= old(self).curr_cycle <= 16 || 57 <= old(self).curr_cycle <= 59 ==> background_output(*old(self),
                old(mem)@, final(self).window_buffer@),
            old(self).curr_cycle == 60 ==> line_end_output(*old(self), old(mem)@, final(self).window_buffer@),
    {
        self.dbg_reg_changed = false;
        let c = self.curr_cycle;
        let vblank = c == 2 && self.trigger_vblank;
        if c == 1 {
            self.cycle_1(mem, cpu);
        } else if c == 2 {
            self.cycle_2(mem, cpu, c64_cycle_cnt, should_trigger_vblank);
        } else if c <= 10 || c == 61 || c == 62 {
            self.sprite_cycle(mem, cpu, c64_cycle_cnt);
        } else if c <= 16 {
            self.refresh_cycle(mem, cpu, c64_cycle_cnt);
        } else if c <= 54 {
            self.display_cycle(mem, cpu, c64_cycle_cnt);
        } else if c <= 56 {
            self.display_end_cycle(mem, cpu, c64_cycle_cnt);
        } else if c == 57 {
            self.cycle_57(mem, cpu, c64_cycle_cnt);
        } else if c == 58 {
            self.cycle_58(mem, cpu);
        } else if c == 59 {
            self.cycle_59(mem, cpu, c64_cycle_cnt);
        } else if c == 60 {
            self.cycle_60(mem, cpu);
            proof {
                lemma_line_end_output_dbg(*old(self), old(mem)@, self.window_buffer@);
            }
        } else {
            self.cycle_63(mem, cpu, c64_cycle_cnt);
        }
        self.raster_x = self.raster_x.wrapping_add(8);
        if c == 63 {
            self.curr_cycle = 1;
        } else {
            self.curr_cycle = c + 1;
        }
        vblank
    }
}

} // verus!
