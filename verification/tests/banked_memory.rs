use rust64::c64::memory::{MemBank, MemType, Memory};

fn memory() -> Memory {
    Memory::new_shared(vec![0xB0u8; 0x2000], vec![0xC0u8; 0x1000], vec![0xE0u8; 0x2000])
}

#[test]
fn ram_reads_back_what_was_written() {
    let mut m = memory();
    m.reset();
    assert!(m.write_byte(0x1234, 0x5A));
    assert_eq!(m.read_byte(0x1234), 0x5A);
    assert!(m.write_byte(0xC000, 0x77));
    assert_eq!(m.read_byte(0xC000), 0x77);
}

#[test]
fn reset_shows_basic_kernal_and_io() {
    let mut m = memory();
    m.reset();
    assert!(m.basic_on() && m.kernal_on() && m.is_io_on() && !m.chargen_on());
    assert_eq!(m.read_byte(0xA000), 0xB0);
    assert_eq!(m.read_byte(0xE000), 0xE0);
}

#[test]
fn write_under_rom_is_invisible_until_the_rom_is_switched_out() {
    let mut m = memory();
    m.reset();
    assert!(!m.write_byte(0xA000, 0x11));
    assert_eq!(m.read_byte(0xA000), 0xB0);
    assert_eq!(m.get_ram_bank(MemType::Ram).read(0xA000), 0x11);
    // LORAM/HIRAM clear: only RAM is visible
    m.write_byte(0x0001, 0x00);
    assert!(!m.basic_on() && !m.kernal_on() && !m.is_io_on());
    assert_eq!(m.read_byte(0xA000), 0x11);
}

#[test]
fn character_rom_replaces_io_when_selected() {
    let mut m = memory();
    m.reset();
    // CHAREN clear with HIRAM set: character ROM at $D000
    m.write_byte(0x0001, 0x03);
    assert!(m.chargen_on() && !m.is_io_on());
    assert_eq!(m.read_byte(0xD000), 0xC0);
}

#[test]
fn little_endian_words() {
    let mut m = memory();
    m.reset();
    m.write_byte(0x2000, 0x34);
    m.write_byte(0x2001, 0x12);
    assert_eq!(m.read_word_le(0x2000), 0x1234);
}

#[test]
fn collision_register_clears_on_read() {
    let mut bank = MemBank::new(MemType::Io, Vec::new());
    bank.write(0xD01E, 0x81);
    assert_eq!(bank.read(0xD01E), 0x81);
    assert_eq!(bank.read(0xD01E), 0);
    bank.write(0xD01F, 0x24);
    // a mirror of $D01F reads and clears it as well
    assert_eq!(bank.read(0xD05F), 0x24);
    assert_eq!(bank.read(0xD01F), 0);
}

#[test]
fn longer_rom_images_use_their_start() {
    let mut basic = vec![0xB1u8; 0x2000];
    basic.push(0xFF);
    let mut m = Memory::new_shared(basic, vec![0xC0u8; 0x1800], vec![0xE0u8; 0x4000]);
    m.reset();
    assert_eq!(m.read_byte(0xBFFF), 0xB1);
    assert_eq!(m.read_byte(0xFFFF), 0xE0);
}
