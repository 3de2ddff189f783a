use rust64::c64::vic::VIC;
use rust64::c64::memory::Memory;
use rust64::c64::cpu::{CPU, Callback};

fn memory() -> Memory {
    Memory::new_shared(vec![0u8; 0x2000], vec![0u8; 0x1000], vec![0u8; 0x2000])
}

#[test]
fn new_vic_starts_at_last_line() {
    let v = VIC::new_shared();
    assert_eq!(v.raster_cnt, 311);
    assert_eq!(v.curr_cycle, 1);
    assert_eq!(v.window_buffer.len(), 384 * 272);
}

#[test]
fn a_line_has_63_cycles() {
    let mut v = VIC::new_shared();
    let mut mem = memory();
    let mut cpu = CPU::new_shared();
    let mut vblank = false;
    for cycle in 1..=63u32 {
        let started = v.update(&mut mem, &mut cpu, cycle, &mut vblank);
        // a fresh chip stands on the last line: the frame starts in cycle 2
        assert_eq!(started, cycle == 2);
    }
    assert_eq!(v.curr_cycle, 1);
    assert!(vblank);
    assert_eq!(v.raster_cnt, 0);
}

#[test]
fn raster_counter_advances_each_line() {
    let mut v = VIC::new_shared();
    let mut mem = memory();
    let mut cpu = CPU::new_shared();
    let mut vblank = false;
    for cycle in 0..(63 * 3) {
        v.update(&mut mem, &mut cpu, cycle, &mut vblank);
    }
    assert_eq!(v.raster_cnt, 2);
}

#[test]
fn border_color_register_reads_back_with_high_nibble_set() {
    let mut v = VIC::new_shared();
    let mut mem = memory();
    v.write_register_nc(&mut mem, 0xD020, 0x05);
    assert_eq!(v.read_register(&mut mem, 0xD020), 0xF5);
}

#[test]
fn registers_are_mirrored_every_64_bytes() {
    let mut v = VIC::new_shared();
    let mut mem = memory();
    v.write_register_nc(&mut mem, 0xD060, 0x07);
    assert_eq!(v.read_register(&mut mem, 0xD020), 0xF7);
    assert_eq!(v.read_register(&mut mem, 0xD3E0), 0xF7);
}

#[test]
fn sprite_x_position_with_msb() {
    let mut v = VIC::new_shared();
    let mut mem = memory();
    v.write_register_nc(&mut mem, 0xD000, 0x20);
    v.write_register_nc(&mut mem, 0xD010, 0x01);
    assert_eq!(v.mx[0], 0x120);
    assert_eq!(v.read_register(&mut mem, 0xD000), 0x20);
}

#[test]
fn raster_compare_match_raises_interrupt_when_enabled() {
    let mut v = VIC::new_shared();
    let mut mem = memory();
    let mut cb = Callback::Nothing;
    v.write_register(&mut mem, 0xD01A, 0x01, &mut cb);
    assert_eq!(cb, Callback::ClearVICIrq);
    // the raster counter is at line 311 = $137: bit 8 in $D011, low byte in $D012
    v.write_register(&mut mem, 0xD011, 0x80, &mut cb);
    let mut cb2 = Callback::Nothing;
    v.write_register(&mut mem, 0xD012, 0x37, &mut cb2);
    assert_eq!(cb2, Callback::TriggerVICIrq);
    assert_eq!(v.read_register(&mut mem, 0xD019) & 0x81, 0x81);
}

#[test]
fn interrupt_acknowledge_clears_flag() {
    let mut v = VIC::new_shared();
    let mut mem = memory();
    let cb0 = v.raster_irq();
    assert_eq!(cb0, Callback::Nothing);
    assert_eq!(v.irq_flag, 0x01);
    let mut cb = Callback::Nothing;
    v.write_register(&mut mem, 0xD019, 0x01, &mut cb);
    assert_eq!(v.irq_flag, 0x00);
    assert_eq!(cb, Callback::ClearVICIrq);
}

#[test]
fn memory_pointers_register() {
    let mut v = VIC::new_shared();
    let mut mem = memory();
    v.write_register_nc(&mut mem, 0xD018, 0x15);
    assert_eq!(v.matrix_base, 0x0400);
    assert_eq!(v.char_base, 0x1000);
    assert_eq!(v.bitmap_base, 0x0000);
}

#[test]
fn vic_reads_character_rom_in_bank_0() {
    let mut chargen = vec![0u8; 0x1000];
    chargen[0x0008] = 0x3C;
    let mut mem = Memory::new_shared(vec![0u8; 0x2000], chargen, vec![0u8; 0x2000]);
    let mut v = VIC::new_shared();
    assert_eq!(v.read_byte(&mut mem, 0x1008), 0x3C);
    assert_eq!(v.last_byte, 0x3C);
    mem.write_byte(0x2008, 0x11);
    assert_eq!(v.read_byte(&mut mem, 0x2008), 0x11);
}

#[test]
fn full_frame_draws_the_border_color() {
    let mut v = VIC::new_shared();
    let mut mem = memory();
    let mut cpu = CPU::new_shared();
    v.write_register_nc(&mut mem, 0xD020, 0x02);
    let mut vblank = false;
    let mut cnt: u32 = 0;
    // two frames: the first one after power-up is skipped
    for _ in 0..(63 * 312 * 3) {
        v.update(&mut mem, &mut cpu, cnt, &mut vblank);
        cnt = cnt.wrapping_add(1);
    }
    // the middle of the top border line: border on since power-up
    let px = v.window_buffer[384 * 5 + 100];
    assert!(px == 0x00894036 || px == 0x00000000);
}

#[test]
fn light_pen_latches_once_per_frame() {
    let mut v = VIC::new_shared();
    let mut mem = memory();
    let mut cpu = CPU::new_shared();
    v.raster_x = 0x40;
    v.raster_cnt = 0x33;
    v.trigger_lp_irq(&mut mem, &mut cpu);
    assert!(v.lp_triggered);
    assert_eq!(v.irq_flag & 0x08, 0x08);
    assert_eq!(v.read_register(&mut mem, 0xD013), 0x20);
    assert_eq!(v.read_register(&mut mem, 0xD014), 0x33);
    let flag = v.irq_flag;
    v.raster_x = 0x80;
    v.trigger_lp_irq(&mut mem, &mut cpu);
    assert_eq!(v.irq_flag, flag);
    assert_eq!(v.read_register(&mut mem, 0xD013), 0x20);
    assert!(!cpu.vic_irq);
}
