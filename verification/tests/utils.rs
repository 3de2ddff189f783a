use rust64::utils::{memset8, fetch_c64_color_rgba, OpDebugger};

#[test]
fn memset8_fills_one_chunk() {
    let mut buf = vec![0u32; 20];
    memset8(&mut buf, 4, 7);
    assert_eq!(&buf[0..4], &[0, 0, 0, 0]);
    assert_eq!(&buf[4..12], &[7; 8]);
    assert_eq!(&buf[12..20], &[0; 8]);
}

#[test]
fn palette_colors() {
    assert_eq!(fetch_c64_color_rgba(0), 0x000000);
    assert_eq!(fetch_c64_color_rgba(1), 0xFFFFFF);
    assert_eq!(fetch_c64_color_rgba(0xF1), 0xFFFFFF);
    assert_eq!(fetch_c64_color_rgba(14), 0x7C70DA);
}

#[test]
fn op_debugger_starts_empty() {
    let d = OpDebugger::new();
    assert!(d.jump_queue.is_empty());
}
