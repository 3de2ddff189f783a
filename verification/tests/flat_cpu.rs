use rust64::cpu::opcodes::{get_operand, set_operand, AddrMode, Opcodes};
use rust64::cpu::{StatusFlag, CPU};
use rust64::memory::Memory;

fn cpu() -> CPU {
    let basic = vec![0xB0u8; 0x2000];
    let chargen = vec![0xC0u8; 0x1000];
    let mut kernal = vec![0xE0u8; 0x2000];
    // reset vector $FFFC/$FFFD -> $FCE2
    kernal[0x1FFC] = 0xE2;
    kernal[0x1FFD] = 0xFC;
    CPU::new(Memory::new(&basic, &chargen, &kernal))
}

#[test]
fn reset_loads_the_reset_vector() {
    let mut c = cpu();
    c.reset();
    assert_eq!(c.pc, 0xFCE2);
    assert_eq!(c.sp, 0xFF);
    assert_eq!(c.mem.rom[0xFD86], 0xD0);
}

#[test]
fn immediate_operand_is_the_next_byte() {
    let mut c = cpu();
    c.pc = 0x1000;
    c.mem.write_byte(0x1000, 0x42);
    assert_eq!(get_operand(AddrMode::Immediate, &mut c), 0x42);
    assert_eq!(c.pc, 0x1001);
}

#[test]
fn zeropage_operand_reads_memory() {
    let mut c = cpu();
    c.pc = 0x1000;
    c.mem.write_byte(0x1000, 0x80);
    c.mem.write_byte(0x0080, 0x99);
    assert_eq!(get_operand(AddrMode::Zeropage, &mut c), 0x99);
    assert_eq!(c.pc, 0x1001);
}

#[test]
fn indexed_absolute_adds_x_to_the_address() {
    let mut c = cpu();
    c.pc = 0x1000;
    c.x = 3;
    c.mem.write_word_le(0x1000, 0x2000);
    c.mem.write_byte(0x2003, 0x5A);
    assert_eq!(get_operand(AddrMode::IndexedAbsoluteX, &mut c), 0x5A);
    assert_eq!(c.pc, 0x1002);
}

#[test]
fn indexed_absolute_y_wraps_around_the_address_space() {
    let mut c = cpu();
    c.pc = 0x1000;
    c.y = 0x10;
    c.mem.write_word_le(0x1000, 0xFFF8);
    c.mem.write_byte(0x0008, 0x6B);
    assert_eq!(get_operand(AddrMode::IndexedAbsoluteY, &mut c), 0x6B);
    assert_eq!(c.pc, 0x1002);
}

#[test]
fn zeropage_x_wraps_inside_page_zero() {
    let mut c = cpu();
    c.pc = 0x1000;
    c.x = 0x20;
    c.mem.write_byte(0x1000, 0xF0);
    c.mem.write_byte(0x0010, 0x77);
    c.mem.write_byte(0x0110, 0x11);
    assert_eq!(get_operand(AddrMode::ZeropageIndexedX, &mut c), 0x77);
    assert_eq!(c.pc, 0x1001);
}

#[test]
fn zeropage_y_adds_y() {
    let mut c = cpu();
    c.pc = 0x1000;
    c.y = 0x05;
    c.mem.write_byte(0x1000, 0x40);
    c.mem.write_byte(0x0045, 0x3C);
    assert_eq!(get_operand(AddrMode::ZeropageIndexedY, &mut c), 0x3C);
}

#[test]
fn indexed_indirect_reads_the_pointer_at_zeropage_plus_x() {
    let mut c = cpu();
    c.pc = 0x1000;
    c.x = 0x04;
    c.mem.write_byte(0x1000, 0x20);
    c.mem.write_word_le(0x0024, 0x3456);
    c.mem.write_byte(0x3456, 0xA5);
    assert_eq!(get_operand(AddrMode::IndexedIndirectX, &mut c), 0xA5);
    assert_eq!(c.pc, 0x1001);
}

#[test]
fn indexed_indirect_pointer_wraps_inside_page_zero() {
    let mut c = cpu();
    c.pc = 0x1000;
    c.x = 0x0F;
    c.mem.write_byte(0x1000, 0xF0);
    // pointer at $FF, high byte from $00
    c.mem.write_byte(0x00FF, 0x34);
    c.mem.write_byte(0x0000, 0x12);
    c.mem.write_byte(0x1234, 0x9E);
    assert_eq!(get_operand(AddrMode::IndexedIndirectX, &mut c), 0x9E);
}

#[test]
fn indirect_indexed_adds_y_to_the_pointer() {
    let mut c = cpu();
    c.pc = 0x1000;
    c.y = 0x10;
    c.mem.write_byte(0x1000, 0x40);
    c.mem.write_word_le(0x0040, 0x2000);
    c.mem.write_byte(0x2010, 0xC3);
    assert_eq!(get_operand(AddrMode::IndirectIndexedY, &mut c), 0xC3);
    assert_eq!(c.pc, 0x1001);
}

#[test]
fn accumulator_operand_is_a() {
    let mut c = cpu();
    c.a = 0x17;
    assert_eq!(get_operand(AddrMode::Accumulator, &mut c), 0x17);
    set_operand(AddrMode::Accumulator, &mut c, 0x71);
    assert_eq!(c.a, 0x71);
}

#[test]
fn set_operand_writes_the_operand_address() {
    let mut c = cpu();
    c.pc = 0x1000;
    c.mem.write_word_le(0x1000, 0x4321);
    set_operand(AddrMode::Absolute, &mut c, 0xAB);
    assert_eq!(c.mem.read_byte(0x4321), 0xAB);
    assert_eq!(c.pc, 0x1002);
}

#[test]
fn relative_target_goes_backwards() {
    let mut c = cpu();
    c.pc = 0x1000;
    c.mem.write_byte(0x1000, 0xFE);
    c.mem.write_byte(0x0FFF, 0x33);
    // target = $1001 - 2 = $0FFF
    assert_eq!(get_operand(AddrMode::Relative, &mut c), 0x33);
    assert_eq!(c.pc, 0x1001);
}

#[test]
fn pushed_byte_pops_back() {
    let mut c = cpu();
    c.push_byte(0x5C);
    assert_eq!(c.sp, 0xFE);
    assert_eq!(c.mem.read_byte(0x01FF), 0x5C);
    assert_eq!(c.pop_byte(), 0x5C);
    assert_eq!(c.sp, 0xFF);
}

#[test]
fn pushed_word_pops_back() {
    let mut c = cpu();
    c.sp = 0xF0;
    c.push_word(0xBEEF);
    assert_eq!(c.sp, 0xEE);
    assert_eq!(c.pop_word(), 0xBEEF);
    assert_eq!(c.sp, 0xF0);
}

#[test]
fn zn_flags_follow_the_value() {
    let mut c = cpu();
    c.set_zn_flags(0);
    assert!(c.get_status_flag(StatusFlag::Zero));
    assert!(!c.get_status_flag(StatusFlag::Negative));
    assert_eq!(c.p, 0x40);
    c.set_zn_flags(0x80);
    assert!(!c.get_status_flag(StatusFlag::Zero));
    assert!(c.get_status_flag(StatusFlag::Negative));
    assert_eq!(c.p, 0x01);
    c.set_status_flag(StatusFlag::Carry, true);
    assert_eq!(c.p, 0x81);
}

#[test]
fn opcode_values() {
    assert_eq!(Opcodes::BRK.value(), 0x00);
    assert_eq!(Opcodes::LDA_imm.value(), 0xA9);
    assert_eq!(Opcodes::JMP_ind.value(), 0x6C);
    assert_eq!(Opcodes::ISC_abx.value(), 0xFF);
}
