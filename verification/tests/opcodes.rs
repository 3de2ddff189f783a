use rust64::c64::opcodes::{get_instruction, Instruction, Op, AddrMode};

#[test]
fn decode_lda_immediate() {
    let d = get_instruction(0xA9);
    assert_eq!(d, Some((Op::LDA, 2, false, AddrMode::Immediate)));
}

#[test]
fn decode_inc_absolute_x_is_rmw() {
    let d = get_instruction(0xFE);
    assert_eq!(d, Some((Op::INC, 7, true, AddrMode::AbsoluteIndexedX(false))));
}

#[test]
fn decode_every_opcode() {
    for op in 0..=255u8 {
        assert!(get_instruction(op).is_some());
    }
}

#[test]
fn cycles_of_absolute_read_modify_write() {
    let mut i = Instruction::new();
    i.addr_mode = AddrMode::Absolute;
    i.calculate_cycles(6, true);
    assert_eq!(i.cycles_to_fetch, 2);
    assert_eq!(i.cycles_to_rmw, 2);
    assert_eq!(i.cycles_to_run, 1);
}

#[test]
fn cycles_of_implied_keep_fetch_count() {
    let mut i = Instruction::new();
    i.addr_mode = AddrMode::Implied;
    i.calculate_cycles(2, false);
    assert_eq!(i.cycles_to_fetch, 0);
    assert_eq!(i.cycles_to_run, 1);
}

#[test]
fn cycles_wrap_when_total_is_too_small() {
    let mut i = Instruction::new();
    i.addr_mode = AddrMode::Absolute;
    i.calculate_cycles(1, false);
    assert_eq!(i.cycles_to_run, 254);
}
