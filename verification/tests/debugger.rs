use rust64::c64::opcodes::Op;
use rust64::debugger::font::SysFont;
use rust64::debugger::{gfx_mode, hex_color, raster_cell, vic_layout, DebugView};
use rust64::utils::OpDebugger;

// a 256x64 bitmap (24 bits per pixel, rows bottom up) whose glyph 1 has its top left pixel
// and its bottom right pixel set
fn bitmap() -> Vec<u8> {
    let mut bmp = vec![0u8; 64 * 768];
    // image row 0, column 8 (glyph 1, row 0, column 0) is bitmap row 63
    bmp[63 * 768 + 3 * 8] = 0xFF;
    // image row 7, column 15 (glyph 1, row 7, column 7) is bitmap row 56
    bmp[56 * 768 + 3 * 15] = 0xFF;
    bmp
}

#[test]
fn font_is_read_bottom_up() {
    let f = SysFont::new(&bitmap(), 64, 16);
    assert_eq!(f.data.len(), 256 * 64);
    assert_eq!(f.data[8], 1);
    assert_eq!(f.data[7 * 256 + 15], 1);
    assert_eq!(f.data[0], 0);
    assert_eq!(f.data[63 * 256 + 8], 0);
}

#[test]
fn char_is_drawn_in_its_cell() {
    let f = SysFont::new(&bitmap(), 64, 16);
    let mut buf = vec![7u32; 64 * 16];
    f.draw_char_rgb(&mut buf, 16, 8, 1, 0x00FF00FF);
    assert_eq!(buf[8 * 64 + 16], 0x00FF00FF);
    assert_eq!(buf[15 * 64 + 23], 0x00FF00FF);
    assert_eq!(buf[8 * 64 + 17], 0);
    // outside the cell nothing changes
    assert_eq!(buf[8 * 64 + 24], 7);
    assert_eq!(buf[7 * 64 + 16], 7);
}

#[test]
fn text_maps_ascii_to_screen_codes() {
    let f = SysFont::new(&bitmap(), 64, 16);
    assert_eq!(f.ascii_to_petscii(b'A'), 1);
    assert_eq!(f.ascii_to_petscii(b'a'), 1);
    assert_eq!(f.ascii_to_petscii(b'@'), 0);
    assert_eq!(f.ascii_to_petscii(b'0'), 48);
    assert_eq!(f.ascii_to_petscii(b'`'), 39);
    assert_eq!(f.ascii_to_petscii(b'\''), 63);
    let mut buf = vec![7u32; 64 * 16];
    // "AB" at cell (1, 0): 'A' is glyph 1 with its corner pixel set
    f.draw_text(&mut buf, 1, 0, b"AB", 1);
    assert_eq!(buf[8], 0x00FFFFFF);
    assert_eq!(buf[16], 0);
    assert_eq!(buf[0], 7);
    assert_eq!(buf[24], 7);
}

#[test]
fn debugger_pages_wrap_around() {
    let mut v = DebugView::new();
    assert!(v.switch_mode(true, false));
    assert_eq!(v.draw_mode, 4);
    assert!(v.switch_mode(false, true));
    assert_eq!(v.draw_mode, 0);
    assert!(!v.switch_mode(false, false));
    v.page_down();
    assert_eq!(v.mempage_offset, 0xFC00);
    v.page_up();
    assert_eq!(v.mempage_offset, 0);
    v.page_up();
    assert_eq!(v.mempage_offset, 0x400);
}

#[test]
fn vic_layout_from_registers() {
    // $D018 = $15: screen $0400, characters $1000; $DD00 = $03: bank $0000
    assert_eq!(vic_layout(0x15, 0x03), (0x0400, 0x1000, 0x0000, 0x0000));
    assert_eq!(vic_layout(0x18, 0x00), (0x0400, 0x2000, 0x2000, 0xC000));
    assert_eq!(gfx_mode(0x3B, 0x18), (false, true, true));
}

#[test]
fn hex_dump_colors() {
    assert_eq!(hex_color(0x00), 0x00101010);
    assert_eq!(hex_color(0x0F), 0x00333333);
    assert_eq!(hex_color(0x10), 0x00FFFFFF);
    assert_eq!(raster_cell(1, 0), 0);
    assert_eq!(raster_cell(63, 311), 62 + 189 * 311);
}

#[test]
fn logging_pauses_inside_subroutines() {
    let mut d = OpDebugger::new();
    assert!(d.track(Op::LDA, 0xA9));
    assert!(d.track(Op::JSR, 0x20));
    assert!(!d.track(Op::LDA, 0xA9));
    assert!(!d.track(Op::JSR, 0x20));
    assert!(!d.track(Op::RTS, 0x60));
    assert!(!d.track(Op::RTS, 0x60));
    assert!(d.track(Op::NOP, 0xEA));
    assert!(d.jump_queue.is_empty());
}
