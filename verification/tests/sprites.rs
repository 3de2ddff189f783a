use rust64::c64::cpu::CPU;
use rust64::c64::memory::Memory;
use rust64::c64::vic::VIC;

fn memory() -> Memory {
    Memory::new_shared(vec![0u8; 0x2000], vec![0u8; 0x1000], vec![0u8; 0x2000])
}

// a VIC in the middle of a drawn line, with sprites 0 and 1 to be drawn
fn vic_on_line(mem: &mut Memory) -> VIC {
    let mut v = VIC::new_shared();
    v.raster_cnt = 100;
    v.curr_cycle = 10;
    v.draw_this_line = true;
    v.line_start_offset = 384 * 20;
    v.sprite_draw = 0x03;
    // sprite colors: sprite 0 white, sprite 1 red
    v.write_register_nc(mem, 0xD027, 0x01);
    v.write_register_nc(mem, 0xD028, 0x02);
    v
}

#[test]
fn hires_sprite_pixel_is_drawn_at_its_column() {
    let mut mem = memory();
    let mut cpu = CPU::new_shared();
    let mut v = vic_on_line(&mut mem);
    v.sprite_draw = 0x01;
    v.mx[0] = 100;
    v.sprite_draw_data[0] = [0x80, 0x00, 0x01, 0x00];
    v.draw_sprites(&mut mem, &mut cpu);
    let ls = 384 * 20;
    // the first pixel lands on screen column mx + 8, the last of 24 at mx + 8 + 23
    assert_eq!(v.window_buffer[ls + 108], 0x00FFFFFF);
    assert_eq!(v.window_buffer[ls + 109], 0);
    assert_eq!(v.window_buffer[ls + 131], 0x00FFFFFF);
    assert_eq!(v.sprite_coll_buffer[108], 0x01);
    // no collision: both collision interrupt flags are raised (registers stay zero)
    assert_eq!(v.irq_flag & 0x06, 0x06);
}

#[test]
fn overlapping_sprites_collide_and_the_lower_number_stays_in_front() {
    let mut mem = memory();
    let mut cpu = CPU::new_shared();
    let mut v = vic_on_line(&mut mem);
    v.mx[0] = 100;
    v.mx[1] = 100;
    v.sprite_draw_data[0] = [0x80, 0x00, 0x00, 0x00];
    v.sprite_draw_data[1] = [0xC0, 0x00, 0x00, 0x00];
    v.draw_sprites(&mut mem, &mut cpu);
    let ls = 384 * 20;
    // sprite 0 keeps its pixel, sprite 1 draws only where sprite 0 has none
    assert_eq!(v.window_buffer[ls + 108], 0x00FFFFFF);
    assert_eq!(v.window_buffer[ls + 109], 0x00894036);
    // the sprite-sprite collision register holds both sprites
    assert_eq!(v.read_register(&mut mem, 0xD01E), 0x03);
}

#[test]
fn x_expanded_sprite_doubles_its_pixels() {
    let mut mem = memory();
    let mut cpu = CPU::new_shared();
    let mut v = vic_on_line(&mut mem);
    v.sprite_draw = 0x01;
    v.mx[0] = 40;
    v.write_register_nc(&mut mem, 0xD01D, 0x01);
    v.sprite_draw_data[0] = [0x40, 0x00, 0x00, 0x00];
    v.draw_sprites(&mut mem, &mut cpu);
    let ls = 384 * 20;
    // bit 6 becomes pixels 2 and 3 of the run starting at column 48
    assert_eq!(v.window_buffer[ls + 49], 0);
    assert_eq!(v.window_buffer[ls + 50], 0x00FFFFFF);
    assert_eq!(v.window_buffer[ls + 51], 0x00FFFFFF);
    assert_eq!(v.window_buffer[ls + 52], 0);
}
