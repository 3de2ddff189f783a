use rust64::memory::Memory;

fn memory() -> Memory {
    let basic = vec![0xB0u8; 0x2000];
    let chargen = vec![0xC0u8; 0x1000];
    let kernal = vec![0xE0u8; 0x2000];
    Memory::new(&basic, &chargen, &kernal)
}

#[test]
fn new_memory_shows_ram() {
    let mut m = memory();
    assert_eq!(m.read_byte(0xA000), 0);
    assert!(!m.basic_on && !m.kernal_on);
}

#[test]
fn reset_switches_roms_in() {
    let mut m = memory();
    m.reset();
    assert!(m.basic_on && m.kernal_on && m.io_on && !m.chargen_on);
    assert_eq!(m.read_byte(0xA000), 0xB0);
    assert_eq!(m.read_byte(0xE000), 0xE0);
    assert_eq!(m.read_byte(0x0001), 0x07);
}

#[test]
fn write_under_rom_goes_to_ram() {
    let mut m = memory();
    m.reset();
    assert!(!m.write_byte(0xA000, 0x12));
    assert_eq!(m.read_byte(0xA000), 0xB0);
    assert_eq!(m.ram[0xA000], 0x12);
}

#[test]
fn words_round_trip() {
    let mut m = memory();
    assert!(m.write_word_le(0x2000, 0x1234));
    assert_eq!(m.read_word_le(0x2000), 0x1234);
    assert_eq!(m.read_word_be(0x2000), 0x3412);
    assert!(m.write_word_be(0x3000, 0xBEEF));
    assert_eq!(m.read_word_be(0x3000), 0xBEEF);
}

#[test]
fn latch_selects_character_rom() {
    let mut m = memory();
    m.write_byte(0x0001, 0x01);
    assert!(m.chargen_on && !m.io_on && !m.basic_on && !m.kernal_on);
    assert_eq!(m.read_byte(0xD000), 0xC0);
}

#[test]
fn rom_patch() {
    let mut m = memory();
    m.reset();
    m.debug_write_rom(0xE000, 0x4C);
    assert_eq!(m.read_byte(0xE000), 0x4C);
    let (bank, ro) = m.get_bank(0xE000);
    assert!(ro);
    assert_eq!(bank[0xE000], 0x4C);
}
