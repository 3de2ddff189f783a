use rust64::c64::cpu::{CPU, StatusFlag, CpuFault};
use rust64::c64::C64;

fn machine_with_reset_vector(lo: u8, hi: u8) -> C64 {
    let mut kernal = vec![0u8; 0x2000];
    kernal[0x1FFC] = lo;
    kernal[0x1FFD] = hi;
    let mut c64 = C64::new(vec![0u8; 0x2000], vec![0u8; 0x1000], kernal);
    c64.reset();
    c64
}

#[test]
fn adc_binary_sets_overflow_and_negative() {
    let mut cpu = CPU::new_shared();
    cpu.a = 0x50;
    cpu.p = 0;
    cpu.adc(0x50);
    assert_eq!(cpu.a, 0xA0);
    assert!(cpu.get_status_flag(StatusFlag::Overflow));
    assert!(cpu.get_status_flag(StatusFlag::Negative));
    assert!(!cpu.get_status_flag(StatusFlag::Carry));
    assert!(!cpu.get_status_flag(StatusFlag::Zero));
}

#[test]
fn adc_binary_carry_and_zero() {
    let mut cpu = CPU::new_shared();
    cpu.a = 0xFF;
    cpu.adc(0x01);
    assert_eq!(cpu.a, 0x00);
    assert!(cpu.get_status_flag(StatusFlag::Carry));
    assert!(cpu.get_status_flag(StatusFlag::Zero));
}

#[test]
fn adc_decimal_mode() {
    let mut cpu = CPU::new_shared();
    cpu.set_status_flag(StatusFlag::DecimalMode, true);
    cpu.a = 0x15;
    cpu.adc(0x27);
    assert_eq!(cpu.a, 0x42);
    assert!(!cpu.get_status_flag(StatusFlag::Carry));
}

#[test]
fn sbc_binary_with_carry_set() {
    let mut cpu = CPU::new_shared();
    cpu.set_status_flag(StatusFlag::Carry, true);
    cpu.a = 0x50;
    cpu.sbc(0x10);
    assert_eq!(cpu.a, 0x40);
    assert!(cpu.get_status_flag(StatusFlag::Carry));
}

#[test]
fn sbc_binary_borrow() {
    let mut cpu = CPU::new_shared();
    cpu.set_status_flag(StatusFlag::Carry, true);
    cpu.a = 0x10;
    cpu.sbc(0x20);
    assert_eq!(cpu.a, 0xF0);
    assert!(!cpu.get_status_flag(StatusFlag::Carry));
    assert!(cpu.get_status_flag(StatusFlag::Negative));
}

#[test]
fn sbc_decimal_mode() {
    let mut cpu = CPU::new_shared();
    cpu.set_status_flag(StatusFlag::DecimalMode, true);
    cpu.set_status_flag(StatusFlag::Carry, true);
    cpu.a = 0x42;
    cpu.sbc(0x15);
    assert_eq!(cpu.a, 0x27);
    assert!(cpu.get_status_flag(StatusFlag::Carry));
}

#[test]
fn status_flags_set_and_read_back() {
    let mut cpu = CPU::new_shared();
    cpu.set_status_flag(StatusFlag::Zero, true);
    assert!(cpu.get_status_flag(StatusFlag::Zero));
    assert!(!cpu.get_status_flag(StatusFlag::Carry));
    assert_eq!(cpu.p, 0x02);
    cpu.set_status_flag(StatusFlag::Negative, true);
    cpu.set_status_flag(StatusFlag::Zero, false);
    assert_eq!(cpu.p, 0x80);
    cpu.set_zn_flags(0);
    assert_eq!(cpu.p, 0x02);
}

#[test]
fn push_then_pop_gives_byte_back() {
    let mut c64 = machine_with_reset_vector(0x00, 0x10);
    let sp = c64.cpu.sp;
    c64.cpu.push_byte(&mut c64.bus, 0xAB);
    assert_eq!(c64.cpu.sp, sp.wrapping_sub(1));
    let v = c64.cpu.pop_byte(&mut c64.bus);
    assert_eq!(v, 0xAB);
    assert_eq!(c64.cpu.sp, sp);
}

#[test]
fn reset_loads_pc_from_vector() {
    let c64 = machine_with_reset_vector(0x34, 0x12);
    assert_eq!(c64.cpu.pc, 0x1234);
}

#[test]
fn program_stores_accumulator() {
    let mut c64 = machine_with_reset_vector(0x00, 0x10);
    // LDA #$42; STA $0400; JMP $1005
    let prg = [0x00u8, 0x10, 0xA9, 0x42, 0x8D, 0x00, 0x04, 0x4C, 0x05, 0x10];
    c64.load_prg(&prg);
    for _ in 0..400 {
        assert!(c64.step().is_ok());
    }
    assert_eq!(c64.cpu.a, 0x42);
    assert_eq!(c64.bus.memory.read_byte(0x0400), 0x42);
}

#[test]
fn program_with_subroutine_and_branch() {
    let mut c64 = machine_with_reset_vector(0x00, 0x10);
    // LDX #$03; JSR $1010; DEX; BNE $1002 (loop back to JSR); STX $0401; JMP $100B
    // $1010: INC $0402; RTS
    let mut prg = vec![0x00u8, 0x10];
    let code = [0xA2u8, 0x03, 0x20, 0x10, 0x10, 0xCA, 0xD0, 0xFA, 0x8E, 0x01, 0x04, 0x4C, 0x0B, 0x10, 0xEA, 0xEA,
        0xEE, 0x02, 0x04, 0x60];
    prg.extend_from_slice(&code);
    c64.load_prg(&prg);
    for _ in 0..2000 {
        assert!(c64.step().is_ok());
    }
    assert_eq!(c64.bus.memory.read_byte(0x0402), 3);
    assert_eq!(c64.bus.memory.read_byte(0x0401), 0);
    assert_eq!(c64.cpu.x, 0);
}

#[test]
fn halt_opcode_stops_the_cpu() {
    let mut c64 = machine_with_reset_vector(0x00, 0x10);
    let prg = [0x00u8, 0x10, 0xEA, 0x02];
    c64.load_prg(&prg);
    let mut fault = None;
    for _ in 0..200 {
        match c64.step() {
            Ok(_) => {},
            Err(e) => {
                fault = Some(e);
                break;
            },
        }
    }
    assert_eq!(fault, Some(CpuFault::Halt(0x1001)));
}

#[test]
fn unemulated_opcode_is_refused() {
    let mut c64 = machine_with_reset_vector(0x00, 0x10);
    // XAA #$00
    let prg = [0x00u8, 0x10, 0x8B, 0x00];
    c64.load_prg(&prg);
    let mut fault = None;
    for _ in 0..200 {
        if let Err(e) = c64.step() {
            fault = Some(e);
            break;
        }
    }
    assert_eq!(fault, Some(CpuFault::UnknownInstruction));
}

#[test]
fn program_writes_reach_the_chips() {
    let mut c64 = machine_with_reset_vector(0x00, 0x10);
    // LDA #$05; STA $D020; INC $D021; LDA #$1F; STA $D418; JMP $100D
    let prg = [0x00u8, 0x10, 0xA9, 0x05, 0x8D, 0x20, 0xD0, 0xEE, 0x21, 0xD0, 0xA9, 0x1F, 0x8D, 0x18, 0xD4,
        0x4C, 0x0D, 0x10];
    c64.load_prg(&prg);
    for _ in 0..600 {
        assert!(c64.step().is_ok());
    }
    // the border color register holds the stored value, the background one was incremented
    assert_eq!(c64.cpu.read_byte(&mut c64.bus, 0xD020) & 0x0F, 0x05);
    assert_eq!(c64.cpu.read_byte(&mut c64.bus, 0xD021) & 0x0F, 0x01);
    // the SID took the master volume from the low nibble of $D418
    assert_eq!(c64.bus.sid.audio_device.volume, 0x0F);
}

#[test]
fn compare_sets_carry_zero_and_negative() {
    let mut c64 = machine_with_reset_vector(0x00, 0x10);
    // LDA #$10; CMP #$20; JMP $1004
    let prg = [0x00u8, 0x10, 0xA9, 0x10, 0xC9, 0x20, 0x4C, 0x04, 0x10];
    c64.load_prg(&prg);
    for _ in 0..300 {
        assert!(c64.step().is_ok());
    }
    assert_eq!(c64.cpu.a, 0x10);
    assert!(!c64.cpu.get_status_flag(StatusFlag::Carry));
    assert!(!c64.cpu.get_status_flag(StatusFlag::Zero));
    assert!(c64.cpu.get_status_flag(StatusFlag::Negative));
}

#[test]
fn compare_equal_sets_carry_and_zero() {
    let mut c64 = machine_with_reset_vector(0x00, 0x10);
    // LDX #$42; CPX #$42; JMP $1004
    let prg = [0x00u8, 0x10, 0xA2, 0x42, 0xE0, 0x42, 0x4C, 0x04, 0x10];
    c64.load_prg(&prg);
    for _ in 0..300 {
        assert!(c64.step().is_ok());
    }
    assert!(c64.cpu.get_status_flag(StatusFlag::Carry));
    assert!(c64.cpu.get_status_flag(StatusFlag::Zero));
    assert!(!c64.cpu.get_status_flag(StatusFlag::Negative));
}
