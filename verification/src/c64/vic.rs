// VIC-II video chip: registers, raster timing, graphics and sprite drawing
use vstd::prelude::*;
use crate::c64::memory::{Memory, MemoryView, MemType, io_mirror, io_read_value, io_after_read, io_after_write};
use crate::c64::cpu::{CPU, Callback};
use crate::utils::{memset8, fetch_c64_color_rgba, spec_color_rgba};

verus! {

pub const SKIP_FRAMES: u16 = 2;
pub const NUM_RASTERLINES: u16 = 312;
pub const FIRST_DISP_LINE: u16 = 0x10;
pub const LAST_DISP_LINE: u16 = 0x11f;
pub const ROW25_YSTART: u16 = 0x33;
pub const ROW25_YSTOP: u16 = 0xFB;
pub const ROW24_YSTART: u16 = 0x37;
pub const ROW24_YSTOP: u16 = 0xF7;
pub const FIRST_BADLINE: u16 = 0x30;
pub const LAST_BADLINE: u16 = 0xF7;

/// The register-related state of the VIC.
pub struct VicRegs {
    pub mx: Seq<u16>,
    pub my: Seq<u8>,
    pub x_scroll: u16,
    pub y_scroll: u16,
    pub raster_irq: u16,
    pub dy_start: u16,
    pub dy_stop: u16,
    pub bad_lines_on: bool,
    pub is_bad_line: bool,
    pub display_mode: u16,
    pub sprite_y_exp: u8,
    pub matrix_base: u16,
    pub char_base: u16,
    pub bitmap_base: u16,
    pub irq_flag: u8,
    pub irq_mask: u8,
}

/// Raster interrupt: flag it, and ask for a CPU interrupt when it is enabled.
pub open spec fn regs_after_raster_irq(r: VicRegs) -> (VicRegs, Callback) {
    let f = r.irq_flag | 0x01;
    if (r.irq_mask & 0x01) != 0 {
        (VicRegs { irq_flag: f | 0x80, ..r }, Callback::TriggerVICIrq)
    } else {
        (VicRegs { irq_flag: f, ..r }, Callback::Nothing)
    }
}

/// Whether the raster line is a bad line for the given Y scroll.
pub open spec fn bad_line(raster_cnt: u16, y_scroll: u16, bad_lines_on: bool) -> bool {
    raster_cnt >= FIRST_BADLINE && raster_cnt <= LAST_BADLINE && (raster_cnt & 7) == y_scroll
        && bad_lines_on
}

/// Display mode from the ECM/BMM bits of $D011 and the MCM bit of $D016.
pub open spec fn mode_from(ctrl1: u8, ctrl2: u8) -> u16 {
    (((ctrl1 & 0x60) | (ctrl2 & 0x10)) >> 4) as u16
}

/// Sprite position registers $D000-$D00F.
pub open spec fn regs_after_sprite_pos(r: VicRegs, a: u16, value: u8) -> VicRegs {
    let idx = (a - 0xD000) / 2;
    if a % 2 == 0 {
        VicRegs { mx: r.mx.update(idx, (r.mx[idx] & 0xFF00) | (value as u16)), ..r }
    } else {
        VicRegs { my: r.my.update(idx, value), ..r }
    }
}

/// Sprite X bit 8 register $D010.
pub open spec fn regs_after_sprite_msb(r: VicRegs, value: u8) -> VicRegs {
    VicRegs {
        mx: Seq::new(8, |i: int| if (value >> (i as u8)) & 1 != 0 { r.mx[i] | 0x100 } else { r.mx[i] & 0x00FF }),
        ..r
    }
}

/// A raster compare change raises the raster interrupt when it matches the current line.
pub open spec fn regs_after_raster_compare(r: VicRegs, raster_cnt: u16, new_irq: u16) -> (VicRegs, Option<Callback>) {
    let (r1, cb) = if r.raster_irq != new_irq && raster_cnt == new_irq {
        let (rr, c) = regs_after_raster_irq(r);
        (rr, Some(c))
    } else {
        (r, None)
    };
    (VicRegs { raster_irq: new_irq, ..r1 }, cb)
}

/// Control register 1 ($D011).
pub open spec fn regs_after_ctrl1(r: VicRegs, raster_cnt: u16, io: Seq<u8>, value: u8) -> (VicRegs, Option<Callback>) {
    let new_irq = (r.raster_irq & 0xFF) | ((0x80 & value as u16) << 1);
    let (r1, cb) = regs_after_raster_compare(r, raster_cnt, new_irq);
    let ys = (value & 7) as u16;
    let blo = if raster_cnt == 0x30 && (value & 0x10) != 0 { true } else { r.bad_lines_on };
    (VicRegs {
        y_scroll: ys,
        dy_start: if (value & 8) != 0 { ROW25_YSTART } else { ROW24_YSTART },
        dy_stop: if (value & 8) != 0 { ROW25_YSTOP } else { ROW24_YSTOP },
        bad_lines_on: blo,
        is_bad_line: bad_line(raster_cnt, ys, blo),
        display_mode: mode_from(value, io_read_value(io, 0xD016)),
        ..r1
    }, cb)
}

/// Control register 2 ($D016).
pub open spec fn regs_after_ctrl2(r: VicRegs, raster_cnt: u16, io: Seq<u8>, value: u8) -> VicRegs {
    let ctrl1 = (io_read_value(io, 0xD011) & 0x7F) | (((raster_cnt & 0x100) >> 1) as u8);
    VicRegs { x_scroll: (value & 7) as u16, display_mode: mode_from(ctrl1, value), ..r }
}

/// Memory pointers register $D018.
pub open spec fn regs_after_mem_ptrs(r: VicRegs, value: u8) -> VicRegs {
    VicRegs {
        matrix_base: ((value & 0xF0) as u16) << 6,
        char_base: ((value & 0x0E) as u16) << 10,
        bitmap_base: ((value & 0x08) as u16) << 10,
        ..r
    }
}

/// Law: a write of `value` to $D018 places the video matrix at $400 times its bits 4-7,
/// the character set at $800 times its bits 1-3 and the bitmap at $2000 times its bit 3;
/// the other registers and the CPU action stay as they were.
pub proof fn lemma_mem_ptrs_bases(r: VicRegs, raster_cnt: u16, io: Seq<u8>, value: u8)
    ensures
        ({
            let (n, cb) = regs_after_write(r, raster_cnt, io, 0xD018, value);
            &&& n.matrix_base == 0x400 * (value / 16)
            &&& n.char_base == 0x800 * ((value / 2) % 8)
            &&& n.bitmap_base == 0x2000 * ((value / 8) % 2)
            &&& n == VicRegs { matrix_base: n.matrix_base, char_base: n.char_base, bitmap_base: n.bitmap_base, ..r }
            &&& cb is None
        }),
{
    assert(((value & 0xF0) as u16) << 6 == 0x400 * (value / 16)
        && ((value & 0x0E) as u16) << 10 == 0x800 * ((value / 2) % 8)
        && ((value & 0x08) as u16) << 10 == 0x2000 * ((value / 8) % 2)) by (bit_vector);
}

/// Interrupt flag register $D019: writing 1 bits acknowledges interrupts.
pub open spec fn regs_after_irq_ack(r: VicRegs, value: u8) -> (VicRegs, Option<Callback>) {
    let f = r.irq_flag & (!value & 0x0F);
    if (f & r.irq_mask) != 0 {
        (VicRegs { irq_flag: f | 0x80, ..r }, None)
    } else {
        (VicRegs { irq_flag: f, ..r }, Some(Callback::ClearVICIrq))
    }
}

/// Interrupt mask register $D01A.
pub open spec fn regs_after_irq_mask(r: VicRegs, value: u8) -> (VicRegs, Option<Callback>) {
    let m = value & 0x0F;
    if (r.irq_flag & m) != 0 {
        (VicRegs { irq_mask: m, irq_flag: r.irq_flag | 0x80, ..r }, Some(Callback::TriggerVICIrq))
    } else {
        (VicRegs { irq_mask: m, irq_flag: r.irq_flag & 0x7F, ..r }, Some(Callback::ClearVICIrq))
    }
}

/// Effect of a write to register `a` ($D000-$D03F) on the register state; the second
/// component is the CPU action it asks for, if any.
pub open spec fn regs_after_write(r: VicRegs, raster_cnt: u16, io: Seq<u8>, a: u16, value: u8) -> (VicRegs, Option<Callback>) {
    if a <= 0xD00F {
        (regs_after_sprite_pos(r, a, value), None)
    } else if a == 0xD010 {
        (regs_after_sprite_msb(r, value), None)
    } else if a == 0xD011 {
        regs_after_ctrl1(r, raster_cnt, io, value)
    } else if a == 0xD012 {
        regs_after_raster_compare(r, raster_cnt, (r.raster_irq & 0xFF00) | value as u16)
    } else if a == 0xD016 {
        (regs_after_ctrl2(r, raster_cnt, io, value), None)
    } else if a == 0xD017 {
        (VicRegs { sprite_y_exp: r.sprite_y_exp | !value, ..r }, None)
    } else if a == 0xD018 {
        (regs_after_mem_ptrs(r, value), None)
    } else if a == 0xD019 {
        regs_after_irq_ack(r, value)
    } else if a == 0xD01A {
        regs_after_irq_mask(r, value)
    } else {
        (r, None)
    }
}

/// How many lines can have been drawn in this frame when cycle `c` of line `r` is next.
pub open spec fn lines_drawn_bound(r: u16, c: u8) -> int {
    if c == 1 || c > 60 {
        clamp(r as int, 15, 287) - 15
    } else {
        clamp(r as int, 16, 288) - 16
    }
}

/// `x` limited to the range `lo..=hi`.
pub open spec fn clamp(x: int, lo: int, hi: int) -> int {
    if x < lo { lo } else if x > hi { hi } else { x }
}

/// A display mode is made of three bits.
proof fn lemma_mode_small(ctrl1: u8, ctrl2: u8)
    ensures
        (((ctrl1 & 0x60) | (ctrl2 & 0x10)) >> 4) <= 7,
{
    assert((((ctrl1 & 0x60) | (ctrl2 & 0x10)) >> 4) <= 7) by (bit_vector);
}

/// The VIC-II chip.
pub struct VIC {
    pub window_buffer: Vec<u32>,
    pub last_byte: u8,
    pub raster_cnt: u16,
    pub raster_irq: u16,
    pub curr_cycle: u8,
    pub border_on: bool,
    pub is_bad_line: bool,
    pub dbg_reg_changed: bool,
    pub irq_flag: u8,
    pub irq_mask: u8,
    pub matrix_line: [u8; 40],
    pub color_line: [u8; 40],
    pub screen_chunk_offset: usize,
    pub line_start_offset: usize,
    pub fg_mask_offset: usize,
    pub raster_x: u16,
    pub dy_start: u16,
    pub dy_stop: u16,
    pub row_cnt: u16,
    pub video_cnt: u16,
    pub video_cnt_base: u16,
    pub x_scroll: u16,
    pub y_scroll: u16,
    pub cia_vabase: u16,
    pub display_mode: u16,
    pub bad_lines_on: bool,
    pub lp_triggered: bool,
    pub mc: [u16; 8],
    pub mc_base: [u16; 8],
    pub display_state: bool,
    pub ud_border_on: bool,
    pub frame_skipped: bool,
    pub draw_this_line: bool,
    pub ml_idx: usize,
    pub skip_cnt: u16,
    pub mx: Vec<u16>,
    pub my: Vec<u8>,
    pub trigger_vblank: bool,
    pub border_on_sample: [bool; 5],
    pub fg_mask_buffer: [u8; 48],
    pub border_color_sample: [u8; 48],
    pub matrix_base: u16,
    pub char_base: u16,
    pub bitmap_base: u16,
    pub refresh_cnt: u8,
    pub sprite_y_exp: u8,
    pub sprite_dma_on: u8,
    pub sprite_display_on: u8,
    pub sprite_draw: u8,
    pub sprite_ptr: Vec<u16>,
    pub gfx_data: u8,
    pub char_data: u8,
    pub color_data: u8,
    pub last_char_data: u8,
    pub sprite_coll_buffer: [u8; 384],
    pub sprite_data: [[u8; 4]; 8],
    pub sprite_draw_data: [[u8; 4]; 8],
    pub first_ba_cycle: u32,
}

impl VIC {
    /// The register-related part of the state.
    pub open spec fn regs(&self) -> VicRegs {
        VicRegs {
            mx: self.mx@,
            my: self.my@,
            x_scroll: self.x_scroll,
            y_scroll: self.y_scroll,
            raster_irq: self.raster_irq,
            dy_start: self.dy_start,
            dy_stop: self.dy_stop,
            bad_lines_on: self.bad_lines_on,
            is_bad_line: self.is_bad_line,
            display_mode: self.display_mode,
            sprite_y_exp: self.sprite_y_exp,
            matrix_base: self.matrix_base,
            char_base: self.char_base,
            bitmap_base: self.bitmap_base,
            irq_flag: self.irq_flag,
            irq_mask: self.irq_mask,
        }
    }

    /// Everything outside the register state and the debug flag is the same.
    pub open spec fn same_beam_state(&self, o: &VIC) -> bool {
        &&& self.window_buffer@ == o.window_buffer@
        &&& self.last_byte == o.last_byte
        &&& self.raster_cnt == o.raster_cnt
        &&& self.curr_cycle == o.curr_cycle
        &&& self.border_on == o.border_on
        &&& self.matrix_line == o.matrix_line
        &&& self.color_line == o.color_line
        &&& self.screen_chunk_offset == o.screen_chunk_offset
        &&& self.line_start_offset == o.line_start_offset
        &&& self.fg_mask_offset == o.fg_mask_offset
        &&& self.raster_x == o.raster_x
        &&& self.row_cnt == o.row_cnt
        &&& self.video_cnt == o.video_cnt
        &&& self.video_cnt_base == o.video_cnt_base
        &&& self.cia_vabase == o.cia_vabase
        &&& self.lp_triggered == o.lp_triggered
        &&& self.mc == o.mc
        &&& self.mc_base == o.mc_base
        &&& self.display_state == o.display_state
        &&& self.ud_border_on == o.ud_border_on
        &&& self.frame_skipped == o.frame_skipped
        &&& self.draw_this_line == o.draw_this_line
        &&& self.ml_idx == o.ml_idx
        &&& self.skip_cnt == o.skip_cnt
        &&& self.trigger_vblank == o.trigger_vblank
        &&& self.border_on_sample == o.border_on_sample
        &&& self.fg_mask_buffer == o.fg_mask_buffer
        &&& self.border_color_sample == o.border_color_sample
        &&& self.refresh_cnt == o.refresh_cnt
        &&& self.sprite_dma_on == o.sprite_dma_on
        &&& self.sprite_display_on == o.sprite_display_on
        &&& self.sprite_draw == o.sprite_draw
        &&& self.sprite_ptr@ == o.sprite_ptr@
        &&& self.gfx_data == o.gfx_data
        &&& self.char_data == o.char_data
        &&& self.color_data == o.color_data
        &&& self.last_char_data == o.last_char_data
        &&& self.sprite_coll_buffer == o.sprite_coll_buffer
        &&& self.sprite_data == o.sprite_data
        &&& self.sprite_draw_data == o.sprite_draw_data
        &&& self.first_ba_cycle == o.first_ba_cycle
    }

    /// Shapes of the buffers and the invariants of the raster beam.
    pub open spec fn wf(&self) -> bool {
        &&& self.shape_ok()
        &&& self.x_scroll < 8
        &&& self.beam_wf()
    }

    /// The buffers have their sizes.
    pub open spec fn shape_ok(&self) -> bool {
        &&& self.window_buffer@.len() == 384 * 272
        &&& self.mx@.len() == 8
        &&& self.my@.len() == 8
        &&& self.sprite_ptr@.len() == 8
    }

    /// The raster beam invariants: the cycle is one of the 63 of a line, and the beam
    /// state fits it (see `beam_ok`).
    pub open spec fn beam_wf(&self) -> bool {
        1 <= self.curr_cycle <= 63 && self.beam_ok(self.curr_cycle) && self.display_mode <= 7
    }

    /// The beam state fits cycle `c`: the matrix line index follows the graphics accesses
    /// of cycles 16-55; the screen and foreground mask offsets advance by one 8-pixel
    /// chunk per cycle from cycle 13 on drawn lines; the line start stays below the lines
    /// drawn so far; drawn lines are display lines.
    pub open spec fn beam_ok(&self, c: u8) -> bool {
        &&& self.skip_cnt >= 1
        &&& self.raster_cnt < NUM_RASTERLINES
        &&& self.trigger_vblank ==> c == 2 && !self.draw_this_line
        &&& self.draw_this_line ==> FIRST_DISP_LINE <= self.raster_cnt <= LAST_DISP_LINE
        &&& self.ml_idx <= 40
        &&& 16 <= c <= 56 ==> self.ml_idx <= c - 16
        &&& 3 <= c <= 60 ==> {
            &&& self.screen_chunk_offset == self.line_start_offset
                + (if self.draw_this_line && c > 13 { 8 * (c - 13) } else { 0 })
            &&& self.fg_mask_offset == (if self.draw_this_line && c > 13 { c - 13 } else { 0 })
        }
        &&& c >= 61 ==> self.screen_chunk_offset == self.line_start_offset
        &&& self.line_start_offset <= 384 * lines_drawn_bound(self.raster_cnt, c)
    }

    /// The value a read of register `addr` gives back, for I/O contents `io`.
    pub open spec fn reg_value(&self, io: Seq<u8>, addr: u16) -> u8 {
        let a = io_mirror(addr);
        if a <= 0xD00F {
            let idx = (a - 0xD000) / 2;
            if a % 2 == 0 { self.mx@[idx] as u8 } else { self.my@[idx] }
        } else if a == 0xD011 {
            (io_read_value(io, a) & 0x7F) | (((self.raster_cnt & 0x100) >> 1) as u8)
        } else if a == 0xD012 {
            self.raster_cnt as u8
        } else if a == 0xD019 {
            self.irq_flag | 0x70
        } else if a == 0xD01A {
            self.irq_mask | 0xF0
        } else {
            io_read_value(io, a)
        }
    }

    /// Reads a VIC register ($D000-$D3FF, mirrored every 64 bytes).
    pub fn read_register(&self, mem: &mut Memory, addr: u16) -> (v: u8)
        requires
            self.shape_ok(),
            old(mem).wf(),
            0xD000 <= addr <= 0xD3FF,
        ensures
            final(mem).wf(),
            v == self.reg_value(old(mem)@.io.data, addr),
            final(mem)@ == old(mem)@.with_bank(MemType::Io, old(mem)@.io.after_read(addr)),
        decreases addr,
    {
        if addr <= 0xD00F {
            let idx = ((addr & 0x000F) >> 1) as usize;
            assert(idx == (addr - 0xD000) / 2 && idx < 8) by (bit_vector)
                requires
                    0xD000 <= addr <= 0xD00F,
                    idx == ((addr & 0x000F) >> 1) as usize,
            ;
            if (addr % 2) == 0 {
                self.mx[idx] as u8
            } else {
                self.my[idx]
            }
        } else if addr == 0xD011 {
            let curr_val = mem.get_ram_bank(MemType::Io).read(addr);
            (curr_val & 0x7F) | ((self.raster_cnt & 0x100) >> 1) as u8
        } else if addr == 0xD012 {
            self.raster_cnt as u8
        } else if addr == 0xD019 {
            self.irq_flag | 0x70
        } else if addr == 0xD01A {
            self.irq_mask | 0xF0
        } else if 0xD040 <= addr {
            self.read_register(mem, 0xD000 + (addr % 0x0040))
        } else {
            mem.get_ram_bank(MemType::Io).read(addr)
        }
    }

    /// I/O contents seen by a register write after its debug comparison read(s).
    pub open spec fn io_before_write(io0: Seq<u8>, addr: u16) -> Seq<u8> {
        io_after_read(io0, io_mirror(addr))
    }

    /// Whether the written value differs from the register's I/O byte (for the debugger).
    pub open spec fn reg_changed(io0: Seq<u8>, addr: u16, value: u8) -> bool {
        let a = io_mirror(addr);
        let io_r = if a != addr { io_after_read(io0, addr) } else { io0 };
        io_read_value(io_r, a) != value
    }

    /// Records whether a write changes the register's value (for the visual debugger).
    fn dbg_check_regs(&mut self, mem: &mut Memory, addr: u16, value: u8)
        requires
            old(mem).wf(),
            0xD000 <= addr <= 0xDFFF,
        ensures
            final(mem).wf(),
            final(self).dbg_reg_changed == (io_read_value(old(mem)@.io.data, addr) != value),
            final(mem)@ == old(mem)@.with_bank(MemType::Io, old(mem)@.io.after_read(addr)),
            final(self).regs() == old(self).regs(),
            final(self).same_beam_state(old(self)),
            final(self).wf() == old(self).wf(),
    {
        self.dbg_reg_changed = mem.get_ram_bank(MemType::Io).read(addr) != value;
    }

    /// Raster interrupt: flags it and returns the CPU action (trigger when enabled).
    pub fn raster_irq(&mut self) -> (cb: Callback)
        ensures
            (final(self).regs(), cb) == regs_after_raster_irq(old(self).regs()),
            final(self).same_beam_state(old(self)),
            final(self).dbg_reg_changed == old(self).dbg_reg_changed,
            final(self).wf() == old(self).wf(),
    {
        self.irq_flag |= 0x01;
        if (self.irq_mask & 0x01) != 0 {
            self.irq_flag |= 0x80;
            Callback::TriggerVICIrq
        } else {
            Callback::Nothing
        }
    }

    /// Writes a register, discarding the CPU action it asks for.
    pub fn write_register_nc(&mut self, mem: &mut Memory, addr: u16, value: u8)
        requires
            old(self).wf(),
            old(mem).wf(),
            0xD000 <= addr <= 0xD3FF,
        ensures
            final(self).wf(),
            final(mem).wf(),
            final(self).regs() == regs_after_write(old(self).regs(), old(self).raster_cnt,
                VIC::io_before_write(old(mem)@.io.data, addr), io_mirror(addr), value).0,
            final(self).dbg_reg_changed == VIC::reg_changed(old(mem)@.io.data, addr, value),
            final(self).same_beam_state(old(self)),
            final(mem)@ == old(mem)@.with_bank(MemType::Io, old(mem)@.io.after_read(addr).after_write(io_mirror(addr), value)),
    {
        let mut ca = Callback::Nothing;
        self.write_register(mem, addr, value, &mut ca);
    }

    /// Writes a register ($D000-$D3FF, mirrored every 64 bytes); `on_vic_write` receives the
    /// action the CPU has to perform (raster interrupt or interrupt flag changes).
    pub fn write_register(&mut self, mem: &mut Memory, addr: u16, value: u8, on_vic_write: &mut Callback)
        requires
            old(self).wf(),
            old(mem).wf(),
            0xD000 <= addr <= 0xD3FF,
        ensures
            final(self).wf(),
            final(mem).wf(),
            ({
                let (r, cb) = regs_after_write(old(self).regs(), old(self).raster_cnt,
                    VIC::io_before_write(old(mem)@.io.data, addr), io_mirror(addr), value);
                &&& final(self).regs() == r
                &&& *final(on_vic_write) == (match cb { Some(c) => c, None => *old(on_vic_write) })
            }),
            final(self).dbg_reg_changed == VIC::reg_changed(old(mem)@.io.data, addr, value),
            final(self).same_beam_state(old(self)),
            final(mem)@ == old(mem)@.with_bank(MemType::Io, old(mem)@.io.after_read(addr).after_write(io_mirror(addr), value)),
        decreases addr,
    {
        self.dbg_check_regs(mem, addr, value);
        if 0xD040 <= addr {
            let ghost m1 = mem@;
            self.write_register(mem, 0xD000 + (addr % 0x0040), value, on_vic_write);
            assert(io_after_read(io_after_read(old(mem)@.io.data, addr), io_mirror(addr))
                =~= io_after_read(old(mem)@.io.data, addr));
        } else {
            self.write_reg_direct(mem, addr, value, on_vic_write);
        }
    }

    /// A write to one of the registers $D000-$D03F, after the debug comparison.
    #[verifier::rlimit(40)]
    fn write_reg_direct(&mut self, mem: &mut Memory, addr: u16, value: u8, on_vic_write: &mut Callback)
        requires
            old(self).wf(),
            old(mem).wf(),
            0xD000 <= addr <= 0xD03F,
        ensures
            final(self).wf(),
            final(mem).wf(),
            ({
                let (r, cb) = regs_after_write(old(self).regs(), old(self).raster_cnt, old(mem)@.io.data, addr, value);
                &&& final(self).regs() == r
                &&& *final(on_vic_write) == (match cb { Some(c) => c, None => *old(on_vic_write) })
            }),
            final(self).dbg_reg_changed == old(self).dbg_reg_changed,
            final(self).same_beam_state(old(self)),
            final(mem)@ == old(mem)@.with_bank(MemType::Io, old(mem)@.io.after_write(addr, value)),
    {
        self.write_reg_state(mem, addr, value, on_vic_write);
        mem.get_ram_bank(MemType::Io).write(addr, value);
    }

    /// The register state change of a write to $D000-$D03F.
    #[verifier::rlimit(40)]
    fn write_reg_state(&mut self, mem: &mut Memory, addr: u16, value: u8, on_vic_write: &mut Callback)
        requires
            old(self).wf(),
            old(mem).wf(),
            0xD000 <= addr <= 0xD03F,
        ensures
            final(self).wf(),
            final(mem).wf(),
            final(mem)@ == old(mem)@,
            ({
                let (r, cb) = regs_after_write(old(self).regs(), old(self).raster_cnt, old(mem)@.io.data, addr, value);
                &&& final(self).regs() == r
                &&& *final(on_vic_write) == (match cb { Some(c) => c, None => *old(on_vic_write) })
            }),
            final(self).dbg_reg_changed == old(self).dbg_reg_changed,
            final(self).same_beam_state(old(self)),
    {
        if addr <= 0xD00F {
            self.write_sprite_pos(addr, value);
        } else if addr == 0xD010 {
            self.write_sprite_msb(value);
        } else if addr == 0xD011 {
            self.write_ctrl1(mem, value, on_vic_write);
        } else if addr == 0xD012 {
            self.write_raster_compare(value, on_vic_write);
        } else if addr == 0xD016 {
            self.write_ctrl2(mem, value);
        } else if addr == 0xD017 {
            self.sprite_y_exp |= !value;
        } else if addr == 0xD018 {
            self.write_mem_ptrs(value);
        } else if addr == 0xD019 {
            self.write_irq_ack(value, on_vic_write);
        } else if addr == 0xD01A {
            self.write_irq_mask(value, on_vic_write);
        }
    }

    /// Memory pointers register $D018.
    fn write_mem_ptrs(&mut self, value: u8)
        ensures
            final(self).regs() == regs_after_mem_ptrs(old(self).regs(), value),
            final(self).dbg_reg_changed == old(self).dbg_reg_changed,
            final(self).same_beam_state(old(self)),
            final(self).wf() == old(self).wf(),
    {
        self.matrix_base = ((value & 0xF0) as u16) << 6;
        self.char_base = ((value & 0x0E) as u16) << 10;
        self.bitmap_base = ((value & 0x08) as u16) << 10;
    }

    /// Interrupt flag register $D019.
    fn write_irq_ack(&mut self, value: u8, on_vic_write: &mut Callback)
        ensures
            ({
                let (r, cb) = regs_after_irq_ack(old(self).regs(), value);
                &&& final(self).regs() == r
                &&& *final(on_vic_write) == (match cb { Some(c) => c, None => *old(on_vic_write) })
            }),
            final(self).dbg_reg_changed == old(self).dbg_reg_changed,
            final(self).same_beam_state(old(self)),
            final(self).wf() == old(self).wf(),
    {
        self.irq_flag = self.irq_flag & (!value & 0x0F);
        if (self.irq_flag & self.irq_mask) != 0 {
            self.irq_flag |= 0x80;
        } else {
            *on_vic_write = Callback::ClearVICIrq;
        }
    }

    /// Interrupt mask register $D01A.
    fn write_irq_mask(&mut self, value: u8, on_vic_write: &mut Callback)
        ensures
            ({
                let (r, cb) = regs_after_irq_mask(old(self).regs(), value);
                &&& final(self).regs() == r
                &&& *final(on_vic_write) == (match cb { Some(c) => c, None => *old(on_vic_write) })
            }),
            final(self).dbg_reg_changed == old(self).dbg_reg_changed,
            final(self).same_beam_state(old(self)),
            final(self).wf() == old(self).wf(),
    {
        self.irq_mask = value & 0x0F;
        if (self.irq_flag & self.irq_mask) != 0 {
            self.irq_flag |= 0x80;
            *on_vic_write = Callback::TriggerVICIrq;
        } else {
            self.irq_flag &= 0x7F;
            *on_vic_write = Callback::ClearVICIrq;
        }
    }

    /// Sprite X (low byte) and Y position registers $D000-$D00F.
    fn write_sprite_pos(&mut self, addr: u16, value: u8)
        requires
            old(self).wf(),
            0xD000 <= addr <= 0xD00F,
        ensures
            final(self).wf(),
            final(self).regs() == regs_after_write(old(self).regs(), old(self).raster_cnt, Seq::empty(), addr, value).0,
            final(self).dbg_reg_changed == old(self).dbg_reg_changed,
            final(self).same_beam_state(old(self)),
    {
        let idx = ((addr & 0x000F) >> 1) as usize;
        assert(idx == (addr - 0xD000) / 2 && idx < 8) by (bit_vector)
            requires
                0xD000 <= addr <= 0xD00F,
                idx == ((addr & 0x000F) >> 1) as usize,
        ;
        if (addr % 2) == 0 {
            let ox: u16 = self.mx[idx];
            self.mx.set(idx, (ox & 0xFF00) | value as u16);
        } else {
            self.my.set(idx, value);
        }
    }

    /// Sprite X position bit 8 register $D010.
    fn write_sprite_msb(&mut self, value: u8)
        requires
            old(self).wf(),
        ensures
            final(self).wf(),
            final(self).regs() == regs_after_write(old(self).regs(), old(self).raster_cnt, Seq::empty(), 0xD010, value).0,
            final(self).dbg_reg_changed == old(self).dbg_reg_changed,
            final(self).same_beam_state(old(self)),
    {
        let ghost old_mx = self.mx@;
        let mut i: usize = 0;
        while i < 8
            invariant
                i <= 8,
                self.mx@.len() == 8,
                old_mx.len() == 8,
                old_mx == old(self).mx@,
                self.my@ == old(self).my@,
                self.window_buffer@.len() == old(self).window_buffer@.len(),
                self.sprite_ptr@.len() == 8,
                self.regs() == (VicRegs { mx: self.mx@, ..old(self).regs() }),
                self.same_beam_state(old(self)),
                self.dbg_reg_changed == old(self).dbg_reg_changed,
                forall|k: int| 0 <= k < i ==> #[trigger] self.mx@[k] == (if (value >> (k as u8)) & 1 != 0 {
                    old_mx[k] | 0x100
                } else {
                    old_mx[k] & 0x00FF
                }),
                forall|k: int| i <= k < 8 ==> #[trigger] self.mx@[k] == old_mx[k],
            decreases 8 - i,
        {
            let j: u8 = 1u8 << (i as u8);
            let bit_set = (value & j) != 0;
            assert(bit_set == ((value >> (i as u8)) & 1 != 0)) by (bit_vector)
                requires
                    i < 8,
                    j == 1u8 << (i as u8),
                    bit_set == ((value & j) != 0),
            ;
            let ox: u16 = self.mx[i];
            if bit_set {
                self.mx.set(i, ox | 0x100);
            } else {
                self.mx.set(i, ox & 0x00FF);
            }
            i += 1;
        }
        assert(self.mx@ =~= Seq::new(8, |k: int| if (value >> (k as u8)) & 1 != 0 {
            old_mx[k] | 0x100
        } else {
            old_mx[k] & 0x00FF
        }));
    }

    /// Control register 1 ($D011): Y scroll, row count, bitmap/ECM mode, raster compare bit 8.
    #[verifier::rlimit(40)]
    fn write_ctrl1(&mut self, mem: &mut Memory, value: u8, on_vic_write: &mut Callback)
        requires
            old(self).wf(),
            old(mem).wf(),
        ensures
            final(self).wf(),
            final(mem)@ == old(mem)@,
            final(mem).wf(),
            ({
                let (r, cb) = regs_after_ctrl1(old(self).regs(), old(self).raster_cnt, old(mem)@.io.data, value);
                &&& final(self).regs() == r
                &&& *final(on_vic_write) == (match cb { Some(c) => c, None => *old(on_vic_write) })
            }),
            final(self).dbg_reg_changed == old(self).dbg_reg_changed,
            final(self).same_beam_state(old(self)),
    {
        let new_raster_irq = (self.raster_irq & 0xFF) | ((0x80 & value as u16) << 1);
        self.set_raster_compare(new_raster_irq, on_vic_write);
        self.apply_scroll_and_rows(value);
        let ctrl2 = self.read_register(mem, 0xD016);
        assert(mem@ =~= old(mem)@.with_bank(MemType::Io, old(mem)@.io.after_read(0xD016)));
        proof {
            lemma_mode_small(value, ctrl2);
        }
        self.display_mode = (((value & 0x60) | (ctrl2 & 0x10)) >> 4) as u16;
    }

    /// The Y scroll, row select and bad line parts of a $D011 write.
    fn apply_scroll_and_rows(&mut self, value: u8)
        ensures
            ({
                let ys = (value & 7) as u16;
                let blo = if old(self).raster_cnt == 0x30 && (value & 0x10) != 0 { true } else { old(self).bad_lines_on };
                final(self).regs() == (VicRegs {
                    y_scroll: ys,
                    dy_start: if (value & 8) != 0 { ROW25_YSTART } else { ROW24_YSTART },
                    dy_stop: if (value & 8) != 0 { ROW25_YSTOP } else { ROW24_YSTOP },
                    bad_lines_on: blo,
                    is_bad_line: bad_line(old(self).raster_cnt, ys, blo),
                    ..old(self).regs()
                })
            }),
            final(self).dbg_reg_changed == old(self).dbg_reg_changed,
            final(self).same_beam_state(old(self)),
            final(self).wf() == old(self).wf(),
    {
        self.y_scroll = (value & 7) as u16;
        if (value & 8) != 0 {
            self.dy_start = ROW25_YSTART;
            self.dy_stop = ROW25_YSTOP;
        } else {
            self.dy_start = ROW24_YSTART;
            self.dy_stop = ROW24_YSTOP;
        }
        if (self.raster_cnt == 0x30) && ((value & 0x10) != 0) {
            self.bad_lines_on = true;
        }
        self.is_bad_line = (self.raster_cnt >= FIRST_BADLINE) && (self.raster_cnt <= LAST_BADLINE)
            && ((self.raster_cnt & 7) == self.y_scroll) && self.bad_lines_on;
    }

    /// Sets the raster compare line; raises the raster interrupt when the new line is the
    /// current one.
    fn set_raster_compare(&mut self, new_raster_irq: u16, on_vic_write: &mut Callback)
        requires
            old(self).wf(),
        ensures
            final(self).wf(),
            ({
                let (r, cb) = regs_after_raster_compare(old(self).regs(), old(self).raster_cnt, new_raster_irq);
                &&& final(self).regs() == r
                &&& *final(on_vic_write) == (match cb { Some(c) => c, None => *old(on_vic_write) })
            }),
            final(self).dbg_reg_changed == old(self).dbg_reg_changed,
            final(self).same_beam_state(old(self)),
    {
        if (self.raster_irq != new_raster_irq) && (self.raster_cnt == new_raster_irq) {
            *on_vic_write = self.raster_irq();
        }
        self.raster_irq = new_raster_irq;
    }

    /// Raster compare register $D012.
    fn write_raster_compare(&mut self, value: u8, on_vic_write: &mut Callback)
        requires
            old(self).wf(),
        ensures
            final(self).wf(),
            ({
                let (r, cb) = regs_after_write(old(self).regs(), old(self).raster_cnt, Seq::empty(), 0xD012, value);
                &&& final(self).regs() == r
                &&& *final(on_vic_write) == (match cb { Some(c) => c, None => *old(on_vic_write) })
            }),
            final(self).dbg_reg_changed == old(self).dbg_reg_changed,
            final(self).same_beam_state(old(self)),
    {
        let new_raster_irq = (self.raster_irq & 0xFF00) | value as u16;
        self.set_raster_compare(new_raster_irq, on_vic_write);
    }

    /// Control register 2 ($D016): X scroll, column count, multicolor mode.
    fn write_ctrl2(&mut self, mem: &mut Memory, value: u8)
        requires
            old(self).wf(),
            old(mem).wf(),
        ensures
            final(self).wf(),
            final(mem)@ == old(mem)@,
            final(mem).wf(),
            final(self).regs() == regs_after_write(old(self).regs(), old(self).raster_cnt, old(mem)@.io.data, 0xD016, value).0,
            final(self).dbg_reg_changed == old(self).dbg_reg_changed,
            final(self).same_beam_state(old(self)),
    {
        let ctrl1 = self.read_register(mem, 0xD011);
        assert(mem@ =~= old(mem)@.with_bank(MemType::Io, old(mem)@.io.after_read(0xD011)));
        assert(value & 7 < 8) by (bit_vector);
        self.x_scroll = (value & 7) as u16;
        proof {
            lemma_mode_small(ctrl1, value);
        }
        self.display_mode = (((ctrl1 & 0x60) | (value & 0x10)) >> 4) as u16;
    }

    /// The byte the VIC fetches at `addr` of its 16k bank: $1000-$1FFF of banks 0 and 2
    /// show the character ROM, everything else is RAM.
    pub open spec fn fetch_value(m: MemoryView, cia_vabase: u16, addr: u16) -> u8 {
        let va = addr | cia_vabase;
        if (va & 0x7000) == 0x1000 {
            m.chargen.data[(va & 0x0FFF) as int]
        } else {
            m.ram.data[va as int]
        }
    }

    /// Fetches a byte from the VIC's view of memory and remembers it as the last byte read.
    pub fn read_byte(&mut self, mem: &mut Memory, addr: u16) -> (v: u8)
        requires
            old(mem).wf(),
        ensures
            final(mem)@ == old(mem)@,
            final(mem).wf(),
            v == VIC::fetch_value(old(mem)@, old(self).cia_vabase, addr),
            *final(self) == (VIC { last_byte: v, ..*old(self) }),
    {
        let va = addr | self.cia_vabase;
        if (va & 0x7000) == 0x1000 {
            let low = va & 0x0FFF;
            assert(low < 0x1000) by (bit_vector)
                requires
                    low == va & 0x0FFF,
            ;
            let a = 0xD000 + low;
            self.last_byte = mem.get_rom_bank(MemType::Chargen).read(a);
        } else {
            self.last_byte = mem.get_ram_bank(MemType::Ram).read(va);
        }
        self.last_byte
    }

    /// Takes the VIC bank base from CIA 2 and re-applies the memory pointers register.
    pub fn on_va_change(&mut self, mem: &mut Memory, new_va: u8)
        requires
            old(self).wf(),
            old(mem).wf(),
        ensures
            final(self).wf(),
            final(mem).wf(),
            final(self).cia_vabase == (new_va as u16) << 14,
            ({
                let io0 = old(mem)@.io.data;
                let vbase = old(self).reg_value(io0, 0xD018);
                &&& final(self).regs() == regs_after_mem_ptrs(old(self).regs(), vbase)
                &&& final(mem)@ == old(mem)@.with_bank(MemType::Io, old(mem)@.io.after_write(0xD018, vbase))
            }),
    {
        self.cia_vabase = (new_va as u16) << 14;
        let vbase = self.read_register(mem, 0xD018);
        self.write_register_nc(mem, 0xD018, vbase);
        assert(io_after_read(old(mem)@.io.data, 0xD018) == old(mem)@.io.data);
    }

    /// Latches the light pen position once per frame and raises the light pen interrupt.
    pub fn trigger_lp_irq(&mut self, mem: &mut Memory, cpu: &mut CPU)
        requires
            old(self).wf(),
            old(mem).wf(),
        ensures
            final(self).wf(),
            final(mem).wf(),
            old(self).lp_triggered ==> *final(self) == *old(self) && final(mem)@ == old(mem)@
                && *final(cpu) == *old(cpu),
            !old(self).lp_triggered ==> {
                let f = old(self).irq_flag | 0x08;
                let raise = (old(self).irq_mask & 0x08) != 0;
                &&& final(self).lp_triggered
                &&& final(self).irq_flag == (if raise { f | 0x80 } else { f })
                &&& *final(cpu) == (CPU { vic_irq: old(cpu).vic_irq || raise, ..*old(cpu) })
                &&& final(mem)@.io.data[0x13] == (old(self).raster_x >> 1) as u8
                &&& final(mem)@.io.data[0x14] == old(self).raster_cnt as u8
            },
    {
        if !self.lp_triggered {
            self.lp_triggered = true;
            let lpx = self.raster_x >> 1;
            let lpy = self.raster_cnt;
            self.irq_flag |= 0x08;
            if (self.irq_mask & 0x08) != 0 {
                self.irq_flag |= 0x80;
                cpu.vic_irq = true;
            }
            self.write_register_nc(mem, 0xD013, lpx as u8);
            self.write_register_nc(mem, 0xD014, lpy as u8);
        }
    }
}

} // verus!
