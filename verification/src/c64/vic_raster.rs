// VIC-II raster timing: the memory accesses of the 63 cycles of a PAL raster line
use vstd::prelude::*;
use crate::c64::memory::{Memory, MemoryView, MemType, io_mirror, io_after_read, io_read_value};
use crate::c64::cpu::CPU;
use crate::c64::vic::{VIC, NUM_RASTERLINES};

verus! {

/// The memory after VIC reads: the VIC's own reads and register reads leave memory as it
/// was, except for the I/O bank (collision registers clear when read).
pub open spec fn only_io_changed(old: MemoryView, new: MemoryView) -> bool {
    new == (MemoryView { io: new.io, ..old }) && new.io.kind == old.io.kind
}

/// The cycles since BA went low (wrapping 32-bit counter).
pub open spec fn since(now: u32, then: u32) -> int {
    if now >= then { now - then } else { now - then + 0x1_0000_0000 }
}

/// Whether sprite `i` starts its DMA in this line: enabled in $D015 (`me`) and its Y
/// coordinate equal to the low byte of the raster line.
pub open spec fn dma_starts(v: VIC, me: u8, i: int) -> bool {
    (me & (1u8 << (i as u8))) != 0 && (v.raster_cnt & 0xFF) == v.my@[i] as u16
}

/// The sprite DMA flags once sprites 0 to `k - 1` were checked: the starting ones are set.
pub open spec fn dma_flags_after(v: VIC, me: u8, k: int) -> u8
    decreases k,
{
    if k <= 0 {
        v.sprite_dma_on
    } else {
        let d = dma_flags_after(v, me, k - 1);
        if dma_starts(v, me, k - 1) { d | (1u8 << ((k - 1) as u8)) } else { d }
    }
}

/// The Y expansion flip-flops once sprites 0 to `k - 1` were checked: a starting sprite
/// with Y expansion on in $D017 (`mye`) has its flip-flop cleared.
pub open spec fn y_exp_after(v: VIC, me: u8, mye: u8, k: int) -> u8
    decreases k,
{
    if k <= 0 {
        v.sprite_y_exp
    } else {
        let y = y_exp_after(v, me, mye, k - 1);
        let mask = 1u8 << ((k - 1) as u8);
        if dma_starts(v, me, k - 1) && (mye & mask) != 0 { y & !mask } else { y }
    }
}

/// The address of the graphics access: in display state the bitmap byte of the video
/// counter or the character generator byte of the current character, at the current row
/// (address lines 9 and 10 held low with ECM); in idle state $3FFF ($39FF with ECM).
pub open spec fn gfx_addr(v: VIC, ctrl1: u8) -> u16 {
    if v.display_state {
        let a: u16 = if (ctrl1 & 0x20) != 0 {
            ((v.video_cnt & 0x03FF) << 3u16) | v.bitmap_base | v.row_cnt
        } else {
            ((v.matrix_line[v.ml_idx as int] as u16) << 3u16) | v.char_base | v.row_cnt
        };
        if (ctrl1 & 0x40) != 0 { a & 0xF9FF } else { a }
    } else {
        if (ctrl1 & 0x40) != 0 { 0x39FF } else { 0x3FFF }
    }
}

/// The border flip-flops (side, upper/lower) after the side border check of cycle 17
/// (`wide`, 40 columns) or 18 (38 columns) with $D011 = `ctrl1`, $D016 = `ctrl2`.
pub open spec fn side_border_flags(v: VIC, ctrl1: u8, ctrl2: u8, wide: bool) -> (bool, bool) {
    if ((ctrl2 & 8) != 0) == wide {
        if v.raster_cnt == v.dy_stop {
            (v.border_on, true)
        } else if (ctrl1 & 0x10) != 0 && v.raster_cnt == v.dy_start {
            (false, false)
        } else if !v.ud_border_on {
            (false, v.ud_border_on)
        } else {
            (v.border_on, v.ud_border_on)
        }
    } else {
        (v.border_on, v.ud_border_on)
    }
}

impl VIC {
    /// A VIC in its power-up state: the last raster line, cycle 1, everything cleared,
    /// sprite data counters at 63.
    pub fn new_shared() -> (v: VIC)
        ensures
            v.wf(),
            v.raster_cnt == NUM_RASTERLINES - 1,
            v.curr_cycle == 1,
            v.skip_cnt == 1,
            v.row_cnt == 7,
            v.window_buffer@ == Seq::new(384 * 272, |i: int| 0u32),
            forall|i: int| 0 <= i < 8 ==> v.mc[i] == 63 && v.mc_base[i] == 0,
            v.irq_flag == 0 && v.irq_mask == 0 && v.raster_irq == 0,
            !v.draw_this_line && !v.display_state && !v.border_on,
    {
        let v = VIC {
            window_buffer: vec![0u32; 384 * 272],
            last_byte: 0,
            raster_cnt: NUM_RASTERLINES - 1,
            raster_irq: 0,
            curr_cycle: 1,
            border_on: false,
            is_bad_line: false,
            dbg_reg_changed: false,
            irq_flag: 0,
            irq_mask: 0,
            matrix_line: [0u8; 40],
            color_line: [0u8; 40],
            screen_chunk_offset: 0,
            line_start_offset: 0,
            fg_mask_offset: 0,
            raster_x: 0,
            dy_start: 0,
            dy_stop: 0,
            row_cnt: 7,
            video_cnt: 0,
            video_cnt_base: 0,
            x_scroll: 0,
            y_scroll: 0,
            cia_vabase: 0,
            display_mode: 0,
            bad_lines_on: false,
            lp_triggered: false,
            mc: [63u16; 8],
            mc_base: [0u16; 8],
            display_state: false,
            ud_border_on: false,
            frame_skipped: false,
            draw_this_line: false,
            ml_idx: 0,
            skip_cnt: 1,
            mx: vec![0u16; 8],
            my: vec![0u8; 8],
            trigger_vblank: false,
            border_on_sample: [false; 5],
            fg_mask_buffer: [0u8; 48],
            border_color_sample: [0u8; 48],
            matrix_base: 0,
            char_base: 0,
            bitmap_base: 0,
            refresh_cnt: 0,
            sprite_y_exp: 0,
            sprite_dma_on: 0,
            sprite_display_on: 0,
            sprite_draw: 0,
            sprite_ptr: vec![0u16; 8],
            gfx_data: 0,
            char_data: 0,
            color_data: 0,
            last_char_data: 0,
            sprite_coll_buffer: [0u8; 384],
            sprite_data: [[0u8; 4]; 8],
            sprite_draw_data: [[0u8; 4]; 8],
            first_ba_cycle: 0,
        };
        assert(v.window_buffer@ =~= Seq::new(384 * 272, |i: int| 0u32));
        v
    }

    /// Reads a register without side effects on memory (any but the collision registers).
    pub fn read_reg_pure(&self, mem: &mut Memory, addr: u16) -> (v: u8)
        requires
            self.shape_ok(),
            old(mem).wf(),
            0xD000 <= addr <= 0xD03F,
            addr != 0xD01E && addr != 0xD01F,
        ensures
            final(mem)@ == old(mem)@,
            final(mem).wf(),
            v == self.reg_value(old(mem)@.io.data, addr),
    {
        let v = self.read_register(mem, addr);
        assert(io_after_read(old(mem)@.io.data, addr) == old(mem)@.io.data);
        assert(mem@ =~= old(mem)@);
        v
    }

    /// Pulls BA low (the CPU stops at its next read); remembers the cycle it went low.
    pub fn set_ba_low(&mut self, cpu: &mut CPU, c64_cycle_cnt: u32)
        ensures
            *final(cpu) == (CPU { ba_low: true, ..*old(cpu) }),
            *final(self) == (VIC {
                first_ba_cycle: if old(cpu).ba_low { old(self).first_ba_cycle } else { c64_cycle_cnt },
                ..*old(self)
            }),
    {
        if !cpu.ba_low {
            self.first_ba_cycle = c64_cycle_cnt;
            cpu.ba_low = true;
        }
    }

    /// On a bad line the display state is entered.
    pub fn display_if_bad_line(&mut self)
        ensures
            *final(self) == (VIC { display_state: old(self).display_state || old(self).is_bad_line, ..*old(self) }),
    {
        if self.is_bad_line {
            self.display_state = true;
        }
    }

    /// On a bad line the display state is entered and BA goes low for the matrix access.
    pub fn fetch_if_bad_line(&mut self, cpu: &mut CPU, c64_cycle_cnt: u32)
        ensures
            !old(self).is_bad_line ==> *final(self) == *old(self) && *final(cpu) == *old(cpu),
            old(self).is_bad_line ==> *final(cpu) == (CPU { ba_low: true, ..*old(cpu) })
                && *final(self) == (VIC {
                    display_state: true,
                    first_ba_cycle: if old(cpu).ba_low { old(self).first_ba_cycle } else { c64_cycle_cnt },
                    ..*old(self)
                }),
    {
        if self.is_bad_line {
            self.display_state = true;
            self.set_ba_low(cpu, c64_cycle_cnt);
        }
    }

    /// On a bad line the display state is entered, the row counter restarts and BA goes low.
    pub fn rc_if_bad_line(&mut self, cpu: &mut CPU, c64_cycle_cnt: u32)
        ensures
            !old(self).is_bad_line ==> *final(self) == *old(self) && *final(cpu) == *old(cpu),
            old(self).is_bad_line ==> *final(cpu) == (CPU { ba_low: true, ..*old(cpu) })
                && *final(self) == (VIC {
                    display_state: true,
                    row_cnt: 0,
                    first_ba_cycle: if old(cpu).ba_low { old(self).first_ba_cycle } else { c64_cycle_cnt },
                    ..*old(self)
                }),
    {
        if self.is_bad_line {
            self.display_state = true;
            self.row_cnt = 0;
            self.set_ba_low(cpu, c64_cycle_cnt);
        }
    }

    /// An idle access: the VIC reads $3FFF of its bank.
    pub fn idle_access(&mut self, mem: &mut Memory)
        requires
            old(mem).wf(),
        ensures
            final(mem)@ == old(mem)@,
            final(mem).wf(),
            *final(self) == (VIC {
                last_byte: VIC::fetch_value(old(mem)@, old(self).cia_vabase, 0x3FFF),
                ..*old(self)
            }),
    {
        let _ = self.read_byte(mem, 0x3FFF);
    }

    /// A DRAM refresh access: reads $3F00 plus the refresh counter and counts it down.
    pub fn refresh_access(&mut self, mem: &mut Memory)
        requires
            old(mem).wf(),
        ensures
            final(mem)@ == old(mem)@,
            final(mem).wf(),
            *final(self) == (VIC {
                last_byte: VIC::fetch_value(old(mem)@, old(self).cia_vabase, 0x3F00 | old(self).refresh_cnt as u16),
                refresh_cnt: (if old(self).refresh_cnt == 0 { 0xFF } else { old(self).refresh_cnt - 1 }) as u8,
                ..*old(self)
            }),
    {
        let ref_cnt = self.refresh_cnt as u16;
        let _ = self.read_byte(mem, 0x3F00 | ref_cnt);
        self.refresh_cnt = self.refresh_cnt.wrapping_sub(1);
    }

    /// Fetches the data pointer of sprite `num` from the end of the video matrix.
    pub fn sprite_ptr_access(&mut self, mem: &mut Memory, num: usize)
        requires
            old(mem).wf(),
            old(self).shape_ok(),
            num < 8,
        ensures
            final(mem)@ == old(mem)@,
            final(mem).wf(),
            ({
                let b = VIC::fetch_value(old(mem)@, old(self).cia_vabase, old(self).matrix_base | 0x03F8 | num as u16);
                &&& final(self).sprite_ptr@ == old(self).sprite_ptr@.update(num as int, (b as u16) << 6)
                &&& *final(self) == (VIC { last_byte: b, sprite_ptr: final(self).sprite_ptr, ..*old(self) })
            }),
    {
        let addr = self.matrix_base | 0x03F8 | num as u16;
        let b = self.read_byte(mem, addr);
        self.sprite_ptr.set(num, (b as u16) << 6u16);
    }

    /// Fetches data byte `bytenum` of sprite `num` when its DMA is on (and counts the data
    /// counter up); otherwise the second data cycle is an idle access.
    pub fn sprite_data_access(&mut self, mem: &mut Memory, num: usize, bytenum: usize)
        requires
            old(mem).wf(),
            old(self).shape_ok(),
            num < 8,
            bytenum < 3,
        ensures
            final(mem)@ == old(mem)@,
            final(mem).wf(),
            final(self).sprite_ptr@ == old(self).sprite_ptr@,
            final(self).window_buffer@ == old(self).window_buffer@,
            ({
                let on = (old(self).sprite_dma_on & (1u8 << num as u8)) != 0;
                let addr = (old(self).mc[num as int] & 0x3F) | old(self).sprite_ptr@[num as int];
                let b = VIC::fetch_value(old(mem)@, old(self).cia_vabase, addr);
                &&& on ==> *final(self) == (VIC {
                    last_byte: b,
                    sprite_data: final(self).sprite_data,
                    mc: final(self).mc,
                    ..*old(self)
                }) && final(self).sprite_data[num as int][bytenum as int] == b
                    && final(self).mc[num as int] == (if old(self).mc[num as int] == 0xFFFF { 0 } else {
                        old(self).mc[num as int] + 1 }) as u16
                    && (forall|i: int, k: int| 0 <= i < 8 && 0 <= k < 4 && !(i == num && k == bytenum)
                        ==> #[trigger] final(self).sprite_data[i][k] == old(self).sprite_data[i][k])
                    && (forall|i: int| 0 <= i < 8 && i != num ==> #[trigger] final(self).mc[i] == old(self).mc[i])
                &&& !on && bytenum == 1 ==> *final(self) == (VIC {
                    last_byte: VIC::fetch_value(old(mem)@, old(self).cia_vabase, 0x3FFF),
                    ..*old(self)
                })
                &&& !on && bytenum != 1 ==> *final(self) == *old(self)
            }),
    {
        if (self.sprite_dma_on & (1u8 << num as u8)) != 0 {
            let addr = (self.mc[num] & 0x3F) | self.sprite_ptr[num];
            let b = self.read_byte(mem, addr);
            self.sprite_data[num][bytenum] = b;
            self.mc[num] = self.mc[num].wrapping_add(1);
        } else if bytenum == 1 {
            self.idle_access(mem);
        }
    }

    /// Starts the DMA of each enabled sprite whose Y coordinate matches the raster line
    /// (its data counter base restarts; with Y expansion its expansion flip-flop clears).
    pub fn check_sprite_dma(&mut self, mem: &mut Memory)
        requires
            old(self).shape_ok(),
            old(mem).wf(),
        ensures
            final(mem)@ == old(mem)@,
            final(mem).wf(),
            *final(self) == (VIC {
                sprite_dma_on: final(self).sprite_dma_on,
                mc_base: final(self).mc_base,
                sprite_y_exp: final(self).sprite_y_exp,
                ..*old(self)
            }),
            ({
                let me = old(self).reg_value(old(mem)@.io.data, 0xD015);
                let mye = old(self).reg_value(old(mem)@.io.data, 0xD017);
                &&& final(self).sprite_dma_on == dma_flags_after(*old(self), me, 8)
                &&& final(self).sprite_y_exp == y_exp_after(*old(self), me, mye, 8)
                &&& forall|i: int| 0 <= i < 8 ==> #[trigger] final(self).mc_base[i]
                    == (if dma_starts(*old(self), me, i) { 0u16 } else { old(self).mc_base[i] })
            }),
    {
        let me = self.read_reg_pure(mem, 0xD015);
        let mye = self.read_reg_pure(mem, 0xD017);
        let ghost s0 = *self;
        let mut i: usize = 0;
        while i < 8
            invariant
                i <= 8,
                s0.shape_ok(),
                *self == (VIC {
                    sprite_dma_on: self.sprite_dma_on,
                    mc_base: self.mc_base,
                    sprite_y_exp: self.sprite_y_exp,
                    ..s0
                }),
                self.sprite_dma_on == dma_flags_after(s0, me, i as int),
                self.sprite_y_exp == y_exp_after(s0, me, mye, i as int),
                forall|j: int| 0 <= j < 8 ==> #[trigger] self.mc_base[j]
                    == (if j < i && dma_starts(s0, me, j) { 0u16 } else { s0.mc_base[j] }),
            decreases 8 - i,
        {
            let mask: u8 = 1u8 << (i as u8);
            if (me & mask) != 0 && (self.raster_cnt & 0xFF) == self.my[i] as u16 {
                self.sprite_dma_on = self.sprite_dma_on | mask;
                self.mc_base[i] = 0;
                if (mye & mask) != 0 {
                    self.sprite_y_exp = self.sprite_y_exp & !mask;
                }
            }
            i = i + 1;
        }
    }

    /// Samples the border color for the chunk of this cycle (when the border is on) and
    /// moves the screen and foreground mask positions on by one chunk, on drawn lines.
    pub fn sample_border(&mut self, mem: &mut Memory)
        requires
            old(self).shape_ok(),
            old(mem).wf(),
            13 <= old(self).curr_cycle <= 60,
            old(self).beam_ok(old(self).curr_cycle),
        ensures
            final(mem)@ == old(mem)@,
            final(mem).wf(),
            !old(self).draw_this_line ==> *final(self) == *old(self),
            old(self).draw_this_line ==> *final(self) == (VIC {
                screen_chunk_offset: (old(self).screen_chunk_offset + 8) as usize,
                fg_mask_offset: (old(self).fg_mask_offset + 1) as usize,
                border_color_sample: final(self).border_color_sample,
                ..*old(self)
            }),
            old(self).draw_this_line && old(self).border_on ==> final(self).border_color_sample@
                == old(self).border_color_sample@.update(old(self).curr_cycle - 13,
                    old(self).reg_value(old(mem)@.io.data, 0xD020)),
            !old(self).border_on ==> final(self).border_color_sample == old(self).border_color_sample,
    {
        if self.draw_this_line {
            if self.border_on {
                let c = self.read_reg_pure(mem, 0xD020);
                let idx = (self.curr_cycle - 13) as usize;
                self.border_color_sample[idx] = c;
            }
            self.screen_chunk_offset = self.screen_chunk_offset + 8;
            self.fg_mask_offset = self.fg_mask_offset + 1;
        }
    }

    /// The matrix access of a bad line: while BA is low the character and its color are
    /// fetched into the line buffers (the first three cycles after BA went low the CPU
    /// still holds the bus and $FF is read).
    pub fn matrix_access(&mut self, mem: &mut Memory, cpu: &CPU, c64_cycle_cnt: u32)
        requires
            old(mem).wf(),
            old(self).ml_idx < 40,
        ensures
            final(mem)@ == old(mem)@,
            final(mem).wf(),
            *final(self) == (VIC {
                matrix_line: final(self).matrix_line,
                color_line: final(self).color_line,
                last_byte: final(self).last_byte,
                ..*old(self)
            }),
            !cpu.ba_low ==> *final(self) == *old(self),
            cpu.ba_low && c64_cycle_cnt.wrapping_sub(old(self).first_ba_cycle) < 3 ==> {
                &&& final(self).matrix_line@ == old(self).matrix_line@.update(old(self).ml_idx as int, 0xFF)
                &&& final(self).color_line@ == old(self).color_line@.update(old(self).ml_idx as int, 0xFF)
                &&& final(self).last_byte == old(self).last_byte
            },
            cpu.ba_low && c64_cycle_cnt.wrapping_sub(old(self).first_ba_cycle) >= 3 ==> {
                let addr = (old(self).video_cnt & 0x03FF) | old(self).matrix_base;
                let b = VIC::fetch_value(old(mem)@, old(self).cia_vabase, addr);
                &&& final(self).matrix_line@ == old(self).matrix_line@.update(old(self).ml_idx as int, b)
                &&& final(self).color_line@ == old(self).color_line@.update(old(self).ml_idx as int,
                    io_read_value(old(mem)@.io.data, (0xD800 + addr % 0x0400) as u16))
                &&& final(self).last_byte == b
            },
    {
        if cpu.ba_low {
            let ml = self.ml_idx;
            if c64_cycle_cnt.wrapping_sub(self.first_ba_cycle) < 3 {
                self.color_line[ml] = 0xFF;
                self.matrix_line[ml] = 0xFF;
            } else {
                let addr = (self.video_cnt & 0x03FF) | self.matrix_base;
                let b = self.read_byte(mem, addr);
                self.matrix_line[ml] = b;
                let ghost m0 = mem@;
                let c = mem.get_ram_bank(MemType::Io).read(0xD800 + (addr % 0x0400));
                assert(mem@ =~= m0);
                self.color_line[ml] = c;
            }
        }
    }

    /// The graphics access: in display state the graphics byte of the current character
    /// (text) or video matrix position (bitmap) and row; in idle state the byte at $3FFF
    /// ($39FF with ECM).
    pub fn graphics_access(&mut self, mem: &mut Memory)
        requires
            old(self).shape_ok(),
            old(mem).wf(),
            old(self).display_state ==> old(self).ml_idx < 40,
        ensures
            final(mem)@ == old(mem)@,
            final(mem).wf(),
            *final(self) == (VIC {
                gfx_data: final(self).gfx_data,
                char_data: final(self).char_data,
                color_data: final(self).color_data,
                last_byte: final(self).last_byte,
                ml_idx: if old(self).display_state { (old(self).ml_idx + 1) as usize } else { old(self).ml_idx },
                video_cnt: if old(self).display_state {
                    (if old(self).video_cnt == 0xFFFF { 0 } else { old(self).video_cnt + 1 }) as u16
                } else {
                    old(self).video_cnt
                },
                ..*old(self)
            }),
            old(self).display_state ==> final(self).char_data == old(self).matrix_line[old(self).ml_idx as int]
                && final(self).color_data == old(self).color_line[old(self).ml_idx as int],
            !old(self).display_state ==> final(self).char_data == 0 && final(self).color_data == 0,
            final(self).gfx_data == VIC::fetch_value(old(mem)@, old(self).cia_vabase,
                gfx_addr(*old(self), old(self).reg_value(old(mem)@.io.data, 0xD011))),
            final(self).last_byte == final(self).gfx_data,
    {
        let ctrl1 = self.read_reg_pure(mem, 0xD011);
        if self.display_state {
            let ml = self.ml_idx;
            let mut addr: u16 = if (ctrl1 & 0x20) != 0 {
                ((self.video_cnt & 0x03FF) << 3u16) | self.bitmap_base | self.row_cnt
            } else {
                ((self.matrix_line[ml] as u16) << 3u16) | self.char_base | self.row_cnt
            };
            if (ctrl1 & 0x40) != 0 {
                addr = addr & 0xF9FF;
            }
            self.gfx_data = self.read_byte(mem, addr);
            self.char_data = self.matrix_line[ml];
            self.color_data = self.color_line[ml];
            self.ml_idx = ml + 1;
            self.video_cnt = self.video_cnt.wrapping_add(1);
        } else {
            let addr: u16 = if (ctrl1 & 0x40) != 0 { 0x39FF } else { 0x3FFF };
            self.gfx_data = self.read_byte(mem, addr);
            self.char_data = 0;
            self.color_data = 0;
        }
    }

    /// The side border check of cycle 17 (40 columns, `wide`) or 18 (38 columns): at the
    /// bottom line the vertical border flip-flop is set; at the top line (display enabled)
    /// both border flip-flops clear; otherwise the side border opens unless the vertical
    /// border is on.
    pub fn open_side_border(&mut self, mem: &mut Memory, wide: bool)
        requires
            old(self).shape_ok(),
            old(mem).wf(),
        ensures
            final(mem)@ == old(mem)@,
            final(mem).wf(),
            *final(self) == (VIC {
                border_on: final(self).border_on,
                ud_border_on: final(self).ud_border_on,
                ..*old(self)
            }),
            (final(self).border_on, final(self).ud_border_on) == side_border_flags(*old(self),
                old(self).reg_value(old(mem)@.io.data, 0xD011), old(self).reg_value(old(mem)@.io.data, 0xD016), wide),
    {
        let ctrl1 = self.read_reg_pure(mem, 0xD011);
        let ctrl2 = self.read_reg_pure(mem, 0xD016);
        if ((ctrl2 & 8) != 0) == wide {
            if self.raster_cnt == self.dy_stop {
                self.ud_border_on = true;
            } else if (ctrl1 & 0x10) != 0 && self.raster_cnt == self.dy_start {
                self.border_on = false;
                self.ud_border_on = false;
            } else if !self.ud_border_on {
                self.border_on = false;
            }
        }
    }
}

} // verus!
