// The debugger's view state: which register page it shows, the RAM page it dumps, and
// the values it derives from the chip registers for display
pub mod font;

use vstd::prelude::*;
use crate::utils::{fetch_c64_color_rgba, spec_color_rgba};

verus! {

/// Width of the debugger window in pixels.
pub const DEBUG_W: usize = 640;
/// Height of the debugger window in pixels.
pub const DEBUG_H: usize = 432;
/// Width of the VIC event window: three pixels for each of the 63 cycles of a line.
pub const RASTER_DEBUG_W: usize = 189;
/// Height of the VIC event window: one pixel per raster line.
pub const RASTER_DEBUG_H: usize = 312;
/// The last page a RAM dump can start at (pages are 1 KB).
pub const LAST_MEMPAGE: u32 = 0xFC00;

/// The register page shown after the Home and End keys: Home goes back one page, End on
/// one, both wrapping around the five pages (RAM, VIC, CIA, colour RAM, SID).
pub open spec fn mode_after_keys(mode: u8, home_pressed: bool, end_pressed: bool) -> u8 {
    let m1: u8 = if home_pressed { if mode == 0 { 4 } else { (mode - 1) as u8 } } else { mode };
    if end_pressed { if m1 == 4 { 0 } else { (m1 + 1) as u8 } } else { m1 }
}

/// What the debugger shows: the register page and the start of the dumped RAM page.
pub struct DebugView {
    pub mempage_offset: u32,
    pub draw_mode: u8,
}

impl DebugView {
    /// One of the five pages, and a RAM page start on a 1 KB boundary.
    pub open spec fn wf(&self) -> bool {
        &&& self.draw_mode <= 4
        &&& self.mempage_offset % 0x400 == 0
        &&& self.mempage_offset <= LAST_MEMPAGE
    }

    /// The RAM page at $0000.
    pub fn new() -> (v: DebugView)
        ensures
            v.wf(),
            v.mempage_offset == 0 && v.draw_mode == 0,
    {
        DebugView { mempage_offset: 0, draw_mode: 0 }
    }

    /// Applies the Home and End keys of one frame; returns whether the page changed (the
    /// dump area is cleared then).
    pub fn switch_mode(&mut self, home_pressed: bool, end_pressed: bool) -> (changed: bool)
        requires
            old(self).wf(),
        ensures
            final(self).wf(),
            changed == (home_pressed || end_pressed),
            final(self).draw_mode == mode_after_keys(old(self).draw_mode, home_pressed, end_pressed),
            final(self).mempage_offset == old(self).mempage_offset,
    {
        if home_pressed {
            if self.draw_mode == 0 {
                self.draw_mode = 4;
            } else {
                self.draw_mode = self.draw_mode - 1;
            }
        }
        if end_pressed {
            if self.draw_mode == 4 {
                self.draw_mode = 0;
            } else {
                self.draw_mode = self.draw_mode + 1;
            }
        }
        home_pressed || end_pressed
    }

    /// Page Up: the next RAM page, back to $0000 after the last.
    pub fn page_up(&mut self)
        requires
            old(self).wf(),
        ensures
            final(self).wf(),
            final(self).mempage_offset == (if old(self).mempage_offset == LAST_MEMPAGE { 0 } else {
                old(self).mempage_offset + 0x400 }),
            final(self).draw_mode == old(self).draw_mode,
    {
        self.mempage_offset = self.mempage_offset + 0x400;
        if self.mempage_offset > LAST_MEMPAGE {
            self.mempage_offset = 0;
        }
    }

    /// Page Down: the previous RAM page, the last one before $0000.
    pub fn page_down(&mut self)
        requires
            old(self).wf(),
        ensures
            final(self).wf(),
            final(self).mempage_offset == (if old(self).mempage_offset == 0 { LAST_MEMPAGE } else {
                (old(self).mempage_offset - 0x400) as u32 }),
            final(self).draw_mode == old(self).draw_mode,
    {
        if self.mempage_offset == 0x0000 {
            self.mempage_offset = 0x10000;
        }
        self.mempage_offset = self.mempage_offset - 0x400;
    }
}

/// Law: Page Down after Page Up shows the same RAM page again, and so does Page Up after
/// Page Down.
pub proof fn lemma_page_down_undoes_up(o: u32)
    requires
        o % 0x400 == 0,
        o <= LAST_MEMPAGE,
    ensures
        ({
            let up: u32 = if o == LAST_MEMPAGE { 0 } else { (o + 0x400) as u32 };
            (if up == 0 { LAST_MEMPAGE } else { (up - 0x400) as u32 }) == o
        }),
        ({
            let down: u32 = if o == 0 { LAST_MEMPAGE } else { (o - 0x400) as u32 };
            (if down == LAST_MEMPAGE { 0 } else { (down + 0x400) as u32 }) == o
        }),
{
}

/// Law: End undoes Home, and Home undoes End.
pub proof fn lemma_end_undoes_home(mode: u8)
    requires
        mode <= 4,
    ensures
        mode_after_keys(mode_after_keys(mode, true, false), false, true) == mode,
        mode_after_keys(mode_after_keys(mode, false, true), true, false) == mode,
{
}

/// The addresses the VIC registers select: (screen matrix, character set, bitmap) from
/// $D018 within the bank, and the bank from the CIA 2 port A value in $DD00.
pub open spec fn spec_vic_layout(d018: u8, dd00: u8) -> (u16, u16, u16, u16) {
    (
        (0x400 * ((d018 / 16) % 16)) as u16,
        (0x800 * ((d018 / 2) % 8)) as u16,
        (0x2000 * ((d018 / 8) % 2)) as u16,
        (0xC000 - 0x4000 * (dd00 % 4)) as u16,
    )
}

/// Screen matrix, character set and bitmap offsets from $D018, and the VIC bank from $DD00.
pub fn vic_layout(d018: u8, dd00: u8) -> (r: (u16, u16, u16, u16))
    ensures
        r == spec_vic_layout(d018, dd00),
{
    let screen: u16 = 0x400 * ((d018 / 16) % 16) as u16;
    let chars: u16 = 0x800 * ((d018 / 2) % 8) as u16;
    let bitmap: u16 = 0x2000 * ((d018 / 8) % 2) as u16;
    let bank: u16 = 0xC000 - 0x4000 * (dd00 % 4) as u16;
    (screen, chars, bitmap, bank)
}

/// The graphics mode flags: (extended colour, multicolour, bitmap) from $D011 and $D016.
pub fn gfx_mode(d011: u8, d016: u8) -> (r: (bool, bool, bool))
    ensures
        r == ((d011 / 64) % 2 == 1, (d016 / 16) % 2 == 1, (d011 / 32) % 2 == 1),
{
    ((d011 / 64) % 2 == 1, (d016 / 16) % 2 == 1, (d011 / 32) % 2 == 1)
}

/// The colour a byte is dumped in: that of its high nibble, dark grey for black, and nearly
/// black for a zero byte.
pub open spec fn spec_hex_color(byte: u8) -> u32 {
    if byte == 0 {
        0x00101010
    } else if spec_color_rgba(byte / 16) == 0 {
        0x00333333
    } else {
        spec_color_rgba(byte / 16)
    }
}

/// The colour a byte is dumped in.
pub fn hex_color(byte: u8) -> (c: u32)
    ensures
        c == spec_hex_color(byte),
{
    let mut base_color = fetch_c64_color_rgba(byte / 16);
    if base_color == 0 {
        base_color = 0x00333333;
    }
    if byte == 0 {
        base_color = 0x00101010;
    }
    base_color
}

/// The pixel of the VIC event window for a cycle (1-63) of a raster line.
pub fn raster_cell(cycle: u8, line: u16) -> (i: usize)
    requires
        1 <= cycle <= 63,
        line < 312,
    ensures
        i == cycle - 1 + RASTER_DEBUG_W * line,
        i < RASTER_DEBUG_W * RASTER_DEBUG_H,
{
    (cycle as usize) - 1 + RASTER_DEBUG_W * (line as usize)
}

} // verus!
