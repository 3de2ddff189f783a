use rust64::c64::opcodes::{fetch_operand_addr, AddrMode};
use rust64::c64::cpu::CpuFault;
use rust64::c64::C64;

fn machine() -> C64 {
    let mut kernal = vec![0u8; 0x2000];
    kernal[0x1FFC] = 0x00;
    kernal[0x1FFD] = 0x10;
    let mut c64 = C64::new(vec![0u8; 0x2000], vec![0u8; 0x1000], kernal);
    c64.reset();
    c64
}

fn start_fetch(c64: &mut C64, mode: AddrMode, cycles: u8, operand: &[u8]) {
    for (k, b) in operand.iter().enumerate() {
        c64.bus.memory.write_byte(0x1000 + k as u16, *b);
    }
    c64.cpu.pc = 0x1000;
    c64.cpu.instruction.addr_mode = mode;
    c64.cpu.instruction.cycles_to_fetch = cycles;
}

fn fetch(c64: &mut C64) -> bool {
    match fetch_operand_addr(&mut c64.cpu, &mut c64.bus) {
        Ok(done) => done,
        Err(e) => panic!("fetch failed: {:?}", e),
    }
}

#[test]
fn absolute_x_fetch_skips_the_fixup_without_page_crossing() {
    let mut c64 = machine();
    c64.cpu.x = 0x05;
    start_fetch(&mut c64, AddrMode::AbsoluteIndexedX(true), 3, &[0x10, 0x20]);
    assert!(!fetch(&mut c64));
    assert!(fetch(&mut c64));
    assert_eq!(c64.cpu.instruction.operand_addr, 0x2015);
    assert!(!c64.cpu.instruction.zp_crossed);
    assert_eq!(c64.cpu.pc, 0x1002);
}

#[test]
fn absolute_x_fetch_fixes_the_high_byte_on_page_crossing() {
    let mut c64 = machine();
    c64.cpu.x = 0x20;
    start_fetch(&mut c64, AddrMode::AbsoluteIndexedX(true), 3, &[0xF0, 0x20]);
    assert!(!fetch(&mut c64));
    assert!(!fetch(&mut c64));
    assert!(c64.cpu.instruction.zp_crossed);
    assert!(fetch(&mut c64));
    assert_eq!(c64.cpu.instruction.operand_addr, 0x2110);
    assert_eq!(c64.cpu.pc, 0x1002);
}

#[test]
fn absolute_y_fetch_without_early_end_takes_three_cycles() {
    let mut c64 = machine();
    c64.cpu.y = 0x01;
    start_fetch(&mut c64, AddrMode::AbsoluteIndexedY(false), 3, &[0x00, 0x30]);
    assert!(!fetch(&mut c64));
    assert!(!fetch(&mut c64));
    assert!(fetch(&mut c64));
    assert_eq!(c64.cpu.instruction.operand_addr, 0x3001);
}

#[test]
fn zeropage_x_fetch_wraps_in_page_zero() {
    let mut c64 = machine();
    c64.cpu.x = 0x20;
    start_fetch(&mut c64, AddrMode::ZeropageIndexedX, 2, &[0xF0]);
    assert!(!fetch(&mut c64));
    assert!(fetch(&mut c64));
    assert_eq!(c64.cpu.instruction.operand_addr, 0x0010);
    assert_eq!(c64.cpu.pc, 0x1001);
}

#[test]
fn indexed_indirect_fetch_reads_the_pointer_at_zeropage_plus_x() {
    let mut c64 = machine();
    c64.cpu.x = 0x04;
    c64.bus.memory.write_byte(0x0044, 0x78);
    c64.bus.memory.write_byte(0x0045, 0x56);
    start_fetch(&mut c64, AddrMode::IndexedIndirectX, 4, &[0x40]);
    for _ in 0..3 {
        assert!(!fetch(&mut c64));
    }
    assert!(fetch(&mut c64));
    assert_eq!(c64.cpu.instruction.operand_addr, 0x5678);
    assert_eq!(c64.cpu.pc, 0x1001);
}

#[test]
fn indirect_indexed_fetch_adds_y_to_the_pointer() {
    let mut c64 = machine();
    c64.cpu.y = 0x10;
    c64.bus.memory.write_byte(0x0040, 0xF8);
    c64.bus.memory.write_byte(0x0041, 0x12);
    start_fetch(&mut c64, AddrMode::IndirectIndexedY(true), 4, &[0x40]);
    assert!(!fetch(&mut c64));
    assert!(!fetch(&mut c64));
    assert!(!fetch(&mut c64));
    assert!(c64.cpu.instruction.zp_crossed);
    assert!(fetch(&mut c64));
    assert_eq!(c64.cpu.instruction.operand_addr, 0x1308);
}

#[test]
fn indirect_fetch_reads_the_target_word() {
    let mut c64 = machine();
    c64.bus.memory.write_byte(0x2000, 0xCD);
    c64.bus.memory.write_byte(0x2001, 0xAB);
    start_fetch(&mut c64, AddrMode::Indirect, 2, &[0x00, 0x20]);
    assert!(!fetch(&mut c64));
    assert!(fetch(&mut c64));
    assert_eq!(c64.cpu.instruction.operand_addr, 0xABCD);
    assert_eq!(c64.cpu.pc, 0x1002);
}

#[test]
fn indirect_fetch_refuses_a_pointer_across_banks() {
    let mut c64 = machine();
    // $BFFF is the last byte of the BASIC ROM; $C000 is RAM
    start_fetch(&mut c64, AddrMode::Indirect, 2, &[0xFF, 0xBF]);
    assert!(!fetch(&mut c64));
    match fetch_operand_addr(&mut c64.cpu, &mut c64.bus) {
        Err(CpuFault::WordAcrossBanks) => {}
        other => panic!("expected a refused pointer, got {:?}", other),
    }
}
