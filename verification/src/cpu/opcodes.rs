// Addressing modes and operand access of the standalone 6510 core, and its opcode list
use vstd::prelude::*;
use crate::cpu::CPU;
use crate::cpu::wrap16;
use crate::cpu::wrap8;

verus! {

/// How an instruction finds its operand.
#[derive(PartialEq, Eq, Structural, Clone, Copy, Debug)]
pub enum AddrMode {
    Implied,
    Accumulator,
    Immediate,
    Absolute,
    IndexedAbsoluteX,
    IndexedAbsoluteY,
    Zeropage,
    ZeropageIndexedX,
    ZeropageIndexedY,
    Relative,
    AbsoluteIndirect,
    IndexedIndirectX,
    IndirectIndexedY,
}

/// The 256 opcodes, named by mnemonic and addressing mode; `value` gives each one's byte.
/// The undocumented ones are listed too.
#[allow(non_camel_case_types)]
#[derive(PartialEq, Eq, Structural, Clone, Copy, Debug)]
pub enum Opcodes {
    BRK,
    ORA_izx,
    HLT0,
    SLO_izx,
    NOP_zp,
    ORA_zp,
    ASL_zp,
    SLO_zp,
    PHP,
    ORA_imm,
    ASL,
    ANC_imm,
    NOP_abs,
    ORA_abs,
    ASL_abs,
    SLO_abs,
    BPL_rel,
    ORA_izy,
    HLT1,
    SLO_izy,
    NOP_zpx,
    ORA_zpx,
    ASL_zpx,
    SLO_zpx,
    CLC,
    ORA_aby,
    NOP0,
    SLO_aby,
    NOP_abx,
    ORA_abx,
    ASL_abx,
    SLO_abx,
    JSR_abs,
    AND_izx,
    HLT2,
    RLA_izx,
    BIT_zp,
    AND_zp,
    ROL_zp,
    RLA_zp,
    PLP,
    AND_imm,
    ROL,
    ANC_im2,
    BIT_abs,
    AND_abs,
    ROL_abs,
    RLA_abs,
    BMI_rel,
    AND_izy,
    HLT3,
    RLA_izy,
    NOP_zpx2,
    AND_zpx,
    ROL_zpx,
    RLA_zpx,
    SEC,
    AND_aby,
    NOP1,
    RLA_aby,
    NOP_abx2,
    AND_abx,
    ROL_abx,
    RLA_abx,
    RTI,
    EOR_izx,
    HLT4,
    SRE_izx,
    NOP2,
    EOR_zp,
    LSR_zp,
    SRE_zp,
    PHA,
    EOR_imm,
    LSR,
    ALR_imm,
    JMP_abs,
    EOR_abs,
    LSR_abs,
    SRE_abs,
    BVC_rel,
    EOR_izy,
    HLT5,
    SRE_izy,
    NOP_zpx3,
    EOR_zpx,
    LSR_zpx,
    SRE_zpx,
    CLI,
    EOR_aby,
    NOP3,
    SRE_aby,
    NOP_abx3,
    EOR_abx,
    LSR_abx,
    SRE_abx,
    RTS,
    ADC_izx,
    HLT6,
    RRA_izx,
    NOP_zp2,
    ADC_zp,
    ROR_zp,
    RRA_zp,
    PLA,
    ADC_imm,
    ROR,
    ARR,
    JMP_ind,
    ADC_abs,
    ROR_abs,
    RRA_abs,
    BVS_rel,
    ADC_izy,
    HLT7,
    RRA_izy,
    NOP_zpx4,
    ADC_zpx,
    ROR_zpx,
    RRA_zpx,
    SEI,
    ADC_aby,
    NOP4,
    RRA_aby,
    NOP_abx4,
    ADC_abx,
    ROR_abx,
    RRA_abx,
    NOP_imm,
    STA_izx,
    NOP_imm2,
    SAX_izx,
    STY_zp,
    STA_zp,
    STX_zp,
    SAX_zp,
    DEY,
    NOP_imm3,
    TXA,
    XAA_imm,
    STY_abs,
    STA_abs,
    STX_abs,
    SAX_abs,
    BCC_rel,
    STA_izy,
    HLT8,
    AHX_izy,
    STY_zpx,
    STA_zpx,
    STX_zpy,
    SAX_zpy,
    TYA,
    STA_aby,
    TXS,
    TAS_aby,
    SHY_abx,
    STA_abx,
    SHX_aby,
    AHX_aby,
    LDY_imm,
    LDA_izx,
    LDX_imm,
    LAX_izx,
    LDY_zp,
    LDA_zp,
    LDX_zp,
    LAX_zp,
    TAY,
    LDA_imm,
    TAX,
    LAX_imm,
    LDY_abs,
    LDA_abs,
    LDX_abs,
    LAX_abs,
    BCS_rel,
    LDA_izy,
    HLT9,
    LAX_izy,
    LDY_zpx,
    LDA_zpx,
    LDX_zpy,
    LAX_zpy,
    CLV,
    LDA_aby,
    TSX,
    LAS_aby,
    LDY_abx,
    LDA_abx,
    LDX_aby,
    LAX_aby,
    CPY_imm,
    CMP_izx,
    NOP_imm4,
    DCP_izx,
    CPY_zp,
    CMP_zp,
    DEC_zp,
    DCP_zp,
    INY,
    CMP_imm,
    DEX,
    AXS_imm,
    CPY_abs,
    CMP_abs,
    DEC_abs,
    DCP_abs,
    BNE_rel,
    CMP_izy,
    HLT10,
    DCP_izy,
    NOP_zpx5,
    CMP_zpx,
    DEC_zpx,
    DCP_zpx,
    CLD,
    CMP_aby,
    NOP5,
    DCP_aby,
    NOP_abx5,
    CMP_abx,
    DEC_abx,
    DCP_abx,
    CPX_imm,
    SBC_izx,
    NOP_imm5,
    ISC_izx,
    CPX_zp,
    SBC_zp,
    INC_zp,
    ISC_zp,
    INX,
    SBC_imm,
    NOP,
    SBC_imm2,
    CPX,
    SBC_abs,
    INC_abs,
    ISC_abs,
    BEQ_rel,
    SBC_izy,
    HLT11,
    ISC_izy,
    NOP_zpx6,
    SBC_zpx,
    INC_zpx,
    ISC_zpx,
    SED,
    SBC_aby,
    NOP6,
    ISC_aby,
    NOP_abx6,
    SBC_abx,
    INC_abx,
    ISC_abx,
}

/// The byte of an opcode.
pub open spec fn opcode_byte(o: Opcodes) -> u8 {
    match o {
        Opcodes::BRK => 0x00,
        Opcodes::ORA_izx => 0x01,
        Opcodes::HLT0 => 0x02,
        Opcodes::SLO_izx => 0x03,
        Opcodes::NOP_zp => 0x04,
        Opcodes::ORA_zp => 0x05,
        Opcodes::ASL_zp => 0x06,
        Opcodes::SLO_zp => 0x07,
        Opcodes::PHP => 0x08,
        Opcodes::ORA_imm => 0x09,
        Opcodes::ASL => 0x0A,
        Opcodes::ANC_imm => 0x0B,
        Opcodes::NOP_abs => 0x0C,
        Opcodes::ORA_abs => 0x0D,
        Opcodes::ASL_abs => 0x0E,
        Opcodes::SLO_abs => 0x0F,
        Opcodes::BPL_rel => 0x10,
        Opcodes::ORA_izy => 0x11,
        Opcodes::HLT1 => 0x12,
        Opcodes::SLO_izy => 0x13,
        Opcodes::NOP_zpx => 0x14,
        Opcodes::ORA_zpx => 0x15,
        Opcodes::ASL_zpx => 0x16,
        Opcodes::SLO_zpx => 0x17,
        Opcodes::CLC => 0x18,
        Opcodes::ORA_aby => 0x19,
        Opcodes::NOP0 => 0x1A,
        Opcodes::SLO_aby => 0x1B,
        Opcodes::NOP_abx => 0x1C,
        Opcodes::ORA_abx => 0x1D,
        Opcodes::ASL_abx => 0x1E,
        Opcodes::SLO_abx => 0x1F,
        Opcodes::JSR_abs => 0x20,
        Opcodes::AND_izx => 0x21,
        Opcodes::HLT2 => 0x22,
        Opcodes::RLA_izx => 0x23,
        Opcodes::BIT_zp => 0x24,
        Opcodes::AND_zp => 0x25,
        Opcodes::ROL_zp => 0x26,
        Opcodes::RLA_zp => 0x27,
        Opcodes::PLP => 0x28,
        Opcodes::AND_imm => 0x29,
        Opcodes::ROL => 0x2A,
        Opcodes::ANC_im2 => 0x2B,
        Opcodes::BIT_abs => 0x2C,
        Opcodes::AND_abs => 0x2D,
        Opcodes::ROL_abs => 0x2E,
        Opcodes::RLA_abs => 0x2F,
        Opcodes::BMI_rel => 0x30,
        Opcodes::AND_izy => 0x31,
        Opcodes::HLT3 => 0x32,
        Opcodes::RLA_izy => 0x33,
        Opcodes::NOP_zpx2 => 0x34,
        Opcodes::AND_zpx => 0x35,
        Opcodes::ROL_zpx => 0x36,
        Opcodes::RLA_zpx => 0x37,
        Opcodes::SEC => 0x38,
        Opcodes::AND_aby => 0x39,
        Opcodes::NOP1 => 0x3A,
        Opcodes::RLA_aby => 0x3B,
        Opcodes::NOP_abx2 => 0x3C,
        Opcodes::AND_abx => 0x3D,
        Opcodes::ROL_abx => 0x3E,
        Opcodes::RLA_abx => 0x3F,
        Opcodes::RTI => 0x40,
        Opcodes::EOR_izx => 0x41,
        Opcodes::HLT4 => 0x42,
        Opcodes::SRE_izx => 0x43,
        Opcodes::NOP2 => 0x44,
        Opcodes::EOR_zp => 0x45,
        Opcodes::LSR_zp => 0x46,
        Opcodes::SRE_zp => 0x47,
        Opcodes::PHA => 0x48,
        Opcodes::EOR_imm => 0x49,
        Opcodes::LSR => 0x4A,
        Opcodes::ALR_imm => 0x4B,
        Opcodes::JMP_abs => 0x4C,
        Opcodes::EOR_abs => 0x4D,
        Opcodes::LSR_abs => 0x4E,
        Opcodes::SRE_abs => 0x4F,
        Opcodes::BVC_rel => 0x50,
        Opcodes::EOR_izy => 0x51,
        Opcodes::HLT5 => 0x52,
        Opcodes::SRE_izy => 0x53,
        Opcodes::NOP_zpx3 => 0x54,
        Opcodes::EOR_zpx => 0x55,
        Opcodes::LSR_zpx => 0x56,
        Opcodes::SRE_zpx => 0x57,
        Opcodes::CLI => 0x58,
        Opcodes::EOR_aby => 0x59,
        Opcodes::NOP3 => 0x5A,
        Opcodes::SRE_aby => 0x5B,
        Opcodes::NOP_abx3 => 0x5C,
        Opcodes::EOR_abx => 0x5D,
        Opcodes::LSR_abx => 0x5E,
        Opcodes::SRE_abx => 0x5F,
        Opcodes::RTS => 0x60,
        Opcodes::ADC_izx => 0x61,
        Opcodes::HLT6 => 0x62,
        Opcodes::RRA_izx => 0x63,
        Opcodes::NOP_zp2 => 0x64,
        Opcodes::ADC_zp => 0x65,
        Opcodes::ROR_zp => 0x66,
        Opcodes::RRA_zp => 0x67,
        Opcodes::PLA => 0x68,
        Opcodes::ADC_imm => 0x69,
        Opcodes::ROR => 0x6A,
        Opcodes::ARR => 0x6B,
        Opcodes::JMP_ind => 0x6C,
        Opcodes::ADC_abs => 0x6D,
        Opcodes::ROR_abs => 0x6E,
        Opcodes::RRA_abs => 0x6F,
        Opcodes::BVS_rel => 0x70,
        Opcodes::ADC_izy => 0x71,
        Opcodes::HLT7 => 0x72,
        Opcodes::RRA_izy => 0x73,
        Opcodes::NOP_zpx4 => 0x74,
        Opcodes::ADC_zpx => 0x75,
        Opcodes::ROR_zpx => 0x76,
        Opcodes::RRA_zpx => 0x77,
        Opcodes::SEI => 0x78,
        Opcodes::ADC_aby => 0x79,
        Opcodes::NOP4 => 0x7A,
        Opcodes::RRA_aby => 0x7B,
        Opcodes::NOP_abx4 => 0x7C,
        Opcodes::ADC_abx => 0x7D,
        Opcodes::ROR_abx => 0x7E,
        Opcodes::RRA_abx => 0x7F,
        Opcodes::NOP_imm => 0x80,
        Opcodes::STA_izx => 0x81,
        Opcodes::NOP_imm2 => 0x82,
        Opcodes::SAX_izx => 0x83,
        Opcodes::STY_zp => 0x84,
        Opcodes::STA_zp => 0x85,
        Opcodes::STX_zp => 0x86,
        Opcodes::SAX_zp => 0x87,
        Opcodes::DEY => 0x88,
        Opcodes::NOP_imm3 => 0x89,
        Opcodes::TXA => 0x8A,
        Opcodes::XAA_imm => 0x8B,
        Opcodes::STY_abs => 0x8C,
        Opcodes::STA_abs => 0x8D,
        Opcodes::STX_abs => 0x8E,
        Opcodes::SAX_abs => 0x8F,
        Opcodes::BCC_rel => 0x90,
        Opcodes::STA_izy => 0x91,
        Opcodes::HLT8 => 0x92,
        Opcodes::AHX_izy => 0x93,
        Opcodes::STY_zpx => 0x94,
        Opcodes::STA_zpx => 0x95,
        Opcodes::STX_zpy => 0x96,
        Opcodes::SAX_zpy => 0x97,
        Opcodes::TYA => 0x98,
        Opcodes::STA_aby => 0x99,
        Opcodes::TXS => 0x9A,
        Opcodes::TAS_aby => 0x9B,
        Opcodes::SHY_abx => 0x9C,
        Opcodes::STA_abx => 0x9D,
        Opcodes::SHX_aby => 0x9E,
        Opcodes::AHX_aby => 0x9F,
        Opcodes::LDY_imm => 0xA0,
        Opcodes::LDA_izx => 0xA1,
        Opcodes::LDX_imm => 0xA2,
        Opcodes::LAX_izx => 0xA3,
        Opcodes::LDY_zp => 0xA4,
        Opcodes::LDA_zp => 0xA5,
        Opcodes::LDX_zp => 0xA6,
        Opcodes::LAX_zp => 0xA7,
        Opcodes::TAY => 0xA8,
        Opcodes::LDA_imm => 0xA9,
        Opcodes::TAX => 0xAA,
        Opcodes::LAX_imm => 0xAB,
        Opcodes::LDY_abs => 0xAC,
        Opcodes::LDA_abs => 0xAD,
        Opcodes::LDX_abs => 0xAE,
        Opcodes::LAX_abs => 0xAF,
        Opcodes::BCS_rel => 0xB0,
        Opcodes::LDA_izy => 0xB1,
        Opcodes::HLT9 => 0xB2,
        Opcodes::LAX_izy => 0xB3,
        Opcodes::LDY_zpx => 0xB4,
        Opcodes::LDA_zpx => 0xB5,
        Opcodes::LDX_zpy => 0xB6,
        Opcodes::LAX_zpy => 0xB7,
        Opcodes::CLV => 0xB8,
        Opcodes::LDA_aby => 0xB9,
        Opcodes::TSX => 0xBA,
        Opcodes::LAS_aby => 0xBB,
        Opcodes::LDY_abx => 0xBC,
        Opcodes::LDA_abx => 0xBD,
        Opcodes::LDX_aby => 0xBE,
        Opcodes::LAX_aby => 0xBF,
        Opcodes::CPY_imm => 0xC0,
        Opcodes::CMP_izx => 0xC1,
        Opcodes::NOP_imm4 => 0xC2,
        Opcodes::DCP_izx => 0xC3,
        Opcodes::CPY_zp => 0xC4,
        Opcodes::CMP_zp => 0xC5,
        Opcodes::DEC_zp => 0xC6,
        Opcodes::DCP_zp => 0xC7,
        Opcodes::INY => 0xC8,
        Opcodes::CMP_imm => 0xC9,
        Opcodes::DEX => 0xCA,
        Opcodes::AXS_imm => 0xCB,
        Opcodes::CPY_abs => 0xCC,
        Opcodes::CMP_abs => 0xCD,
        Opcodes::DEC_abs => 0xCE,
        Opcodes::DCP_abs => 0xCF,
        Opcodes::BNE_rel => 0xD0,
        Opcodes::CMP_izy => 0xD1,
        Opcodes::HLT10 => 0xD2,
        Opcodes::DCP_izy => 0xD3,
        Opcodes::NOP_zpx5 => 0xD4,
        Opcodes::CMP_zpx => 0xD5,
        Opcodes::DEC_zpx => 0xD6,
        Opcodes::DCP_zpx => 0xD7,
        Opcodes::CLD => 0xD8,
        Opcodes::CMP_aby => 0xD9,
        Opcodes::NOP5 => 0xDA,
        Opcodes::DCP_aby => 0xDB,
        Opcodes::NOP_abx5 => 0xDC,
        Opcodes::CMP_abx => 0xDD,
        Opcodes::DEC_abx => 0xDE,
        Opcodes::DCP_abx => 0xDF,
        Opcodes::CPX_imm => 0xE0,
        Opcodes::SBC_izx => 0xE1,
        Opcodes::NOP_imm5 => 0xE2,
        Opcodes::ISC_izx => 0xE3,
        Opcodes::CPX_zp => 0xE4,
        Opcodes::SBC_zp => 0xE5,
        Opcodes::INC_zp => 0xE6,
        Opcodes::ISC_zp => 0xE7,
        Opcodes::INX => 0xE8,
        Opcodes::SBC_imm => 0xE9,
        Opcodes::NOP => 0xEA,
        Opcodes::SBC_imm2 => 0xEB,
        Opcodes::CPX => 0xEC,
        Opcodes::SBC_abs => 0xED,
        Opcodes::INC_abs => 0xEE,
        Opcodes::ISC_abs => 0xEF,
        Opcodes::BEQ_rel => 0xF0,
        Opcodes::SBC_izy => 0xF1,
        Opcodes::HLT11 => 0xF2,
        Opcodes::ISC_izy => 0xF3,
        Opcodes::NOP_zpx6 => 0xF4,
        Opcodes::SBC_zpx => 0xF5,
        Opcodes::INC_zpx => 0xF6,
        Opcodes::ISC_zpx => 0xF7,
        Opcodes::SED => 0xF8,
        Opcodes::SBC_aby => 0xF9,
        Opcodes::NOP6 => 0xFA,
        Opcodes::ISC_aby => 0xFB,
        Opcodes::NOP_abx6 => 0xFC,
        Opcodes::SBC_abx => 0xFD,
        Opcodes::INC_abx => 0xFE,
        Opcodes::ISC_abx => 0xFF,
    }
}

impl Opcodes {
    /// The byte of this opcode.
    pub fn value(&self) -> (b: u8)
        ensures
            b == opcode_byte(*self),
    {
        match self {
            Opcodes::BRK => 0x00,
            Opcodes::ORA_izx => 0x01,
            Opcodes::HLT0 => 0x02,
            Opcodes::SLO_izx => 0x03,
            Opcodes::NOP_zp => 0x04,
            Opcodes::ORA_zp => 0x05,
            Opcodes::ASL_zp => 0x06,
            Opcodes::SLO_zp => 0x07,
            Opcodes::PHP => 0x08,
            Opcodes::ORA_imm => 0x09,
            Opcodes::ASL => 0x0A,
            Opcodes::ANC_imm => 0x0B,
            Opcodes::NOP_abs => 0x0C,
            Opcodes::ORA_abs => 0x0D,
            Opcodes::ASL_abs => 0x0E,
            Opcodes::SLO_abs => 0x0F,
            Opcodes::BPL_rel => 0x10,
            Opcodes::ORA_izy => 0x11,
            Opcodes::HLT1 => 0x12,
            Opcodes::SLO_izy => 0x13,
            Opcodes::NOP_zpx => 0x14,
            Opcodes::ORA_zpx => 0x15,
            Opcodes::ASL_zpx => 0x16,
            Opcodes::SLO_zpx => 0x17,
            Opcodes::CLC => 0x18,
            Opcodes::ORA_aby => 0x19,
            Opcodes::NOP0 => 0x1A,
            Opcodes::SLO_aby => 0x1B,
            Opcodes::NOP_abx => 0x1C,
            Opcodes::ORA_abx => 0x1D,
            Opcodes::ASL_abx => 0x1E,
            Opcodes::SLO_abx => 0x1F,
            Opcodes::JSR_abs => 0x20,
            Opcodes::AND_izx => 0x21,
            Opcodes::HLT2 => 0x22,
            Opcodes::RLA_izx => 0x23,
            Opcodes::BIT_zp => 0x24,
            Opcodes::AND_zp => 0x25,
            Opcodes::ROL_zp => 0x26,
            Opcodes::RLA_zp => 0x27,
            Opcodes::PLP => 0x28,
            Opcodes::AND_imm => 0x29,
            Opcodes::ROL => 0x2A,
            Opcodes::ANC_im2 => 0x2B,
            Opcodes::BIT_abs => 0x2C,
            Opcodes::AND_abs => 0x2D,
            Opcodes::ROL_abs => 0x2E,
            Opcodes::RLA_abs => 0x2F,
            Opcodes::BMI_rel => 0x30,
            Opcodes::AND_izy => 0x31,
            Opcodes::HLT3 => 0x32,
            Opcodes::RLA_izy => 0x33,
            Opcodes::NOP_zpx2 => 0x34,
            Opcodes::AND_zpx => 0x35,
            Opcodes::ROL_zpx => 0x36,
            Opcodes::RLA_zpx => 0x37,
            Opcodes::SEC => 0x38,
            Opcodes::AND_aby => 0x39,
            Opcodes::NOP1 => 0x3A,
            Opcodes::RLA_aby => 0x3B,
            Opcodes::NOP_abx2 => 0x3C,
            Opcodes::AND_abx => 0x3D,
            Opcodes::ROL_abx => 0x3E,
            Opcodes::RLA_abx => 0x3F,
            Opcodes::RTI => 0x40,
            Opcodes::EOR_izx => 0x41,
            Opcodes::HLT4 => 0x42,
            Opcodes::SRE_izx => 0x43,
            Opcodes::NOP2 => 0x44,
            Opcodes::EOR_zp => 0x45,
            Opcodes::LSR_zp => 0x46,
            Opcodes::SRE_zp => 0x47,
            Opcodes::PHA => 0x48,
            Opcodes::EOR_imm => 0x49,
            Opcodes::LSR => 0x4A,
            Opcodes::ALR_imm => 0x4B,
            Opcodes::JMP_abs => 0x4C,
            Opcodes::EOR_abs => 0x4D,
            Opcodes::LSR_abs => 0x4E,
            Opcodes::SRE_abs => 0x4F,
            Opcodes::BVC_rel => 0x50,
            Opcodes::EOR_izy => 0x51,
            Opcodes::HLT5 => 0x52,
            Opcodes::SRE_izy => 0x53,
            Opcodes::NOP_zpx3 => 0x54,
            Opcodes::EOR_zpx => 0x55,
            Opcodes::LSR_zpx => 0x56,
            Opcodes::SRE_zpx => 0x57,
            Opcodes::CLI => 0x58,
            Opcodes::EOR_aby => 0x59,
            Opcodes::NOP3 => 0x5A,
            Opcodes::SRE_aby => 0x5B,
            Opcodes::NOP_abx3 => 0x5C,
            Opcodes::EOR_abx => 0x5D,
            Opcodes::LSR_abx => 0x5E,
            Opcodes::SRE_abx => 0x5F,
            Opcodes::RTS => 0x60,
            Opcodes::ADC_izx => 0x61,
            Opcodes::HLT6 => 0x62,
            Opcodes::RRA_izx => 0x63,
            Opcodes::NOP_zp2 => 0x64,
            Opcodes::ADC_zp => 0x65,
            Opcodes::ROR_zp => 0x66,
            Opcodes::RRA_zp => 0x67,
            Opcodes::PLA => 0x68,
            Opcodes::ADC_imm => 0x69,
            Opcodes::ROR => 0x6A,
            Opcodes::ARR => 0x6B,
            Opcodes::JMP_ind => 0x6C,
            Opcodes::ADC_abs => 0x6D,
            Opcodes::ROR_abs => 0x6E,
            Opcodes::RRA_abs => 0x6F,
            Opcodes::BVS_rel => 0x70,
            Opcodes::ADC_izy => 0x71,
            Opcodes::HLT7 => 0x72,
            Opcodes::RRA_izy => 0x73,
            Opcodes::NOP_zpx4 => 0x74,
            Opcodes::ADC_zpx => 0x75,
            Opcodes::ROR_zpx => 0x76,
            Opcodes::RRA_zpx => 0x77,
            Opcodes::SEI => 0x78,
            Opcodes::ADC_aby => 0x79,
            Opcodes::NOP4 => 0x7A,
            Opcodes::RRA_aby => 0x7B,
            Opcodes::NOP_abx4 => 0x7C,
            Opcodes::ADC_abx => 0x7D,
            Opcodes::ROR_abx => 0x7E,
            Opcodes::RRA_abx => 0x7F,
            Opcodes::NOP_imm => 0x80,
            Opcodes::STA_izx => 0x81,
            Opcodes::NOP_imm2 => 0x82,
            Opcodes::SAX_izx => 0x83,
            Opcodes::STY_zp => 0x84,
            Opcodes::STA_zp => 0x85,
            Opcodes::STX_zp => 0x86,
            Opcodes::SAX_zp => 0x87,
            Opcodes::DEY => 0x88,
            Opcodes::NOP_imm3 => 0x89,
            Opcodes::TXA => 0x8A,
            Opcodes::XAA_imm => 0x8B,
            Opcodes::STY_abs => 0x8C,
            Opcodes::STA_abs => 0x8D,
            Opcodes::STX_abs => 0x8E,
            Opcodes::SAX_abs => 0x8F,
            Opcodes::BCC_rel => 0x90,
            Opcodes::STA_izy => 0x91,
            Opcodes::HLT8 => 0x92,
            Opcodes::AHX_izy => 0x93,
            Opcodes::STY_zpx => 0x94,
            Opcodes::STA_zpx => 0x95,
            Opcodes::STX_zpy => 0x96,
            Opcodes::SAX_zpy => 0x97,
            Opcodes::TYA => 0x98,
            Opcodes::STA_aby => 0x99,
            Opcodes::TXS => 0x9A,
            Opcodes::TAS_aby => 0x9B,
            Opcodes::SHY_abx => 0x9C,
            Opcodes::STA_abx => 0x9D,
            Opcodes::SHX_aby => 0x9E,
            Opcodes::AHX_aby => 0x9F,
            Opcodes::LDY_imm => 0xA0,
            Opcodes::LDA_izx => 0xA1,
            Opcodes::LDX_imm => 0xA2,
            Opcodes::LAX_izx => 0xA3,
            Opcodes::LDY_zp => 0xA4,
            Opcodes::LDA_zp => 0xA5,
            Opcodes::LDX_zp => 0xA6,
            Opcodes::LAX_zp => 0xA7,
            Opcodes::TAY => 0xA8,
            Opcodes::LDA_imm => 0xA9,
            Opcodes::TAX => 0xAA,
            Opcodes::LAX_imm => 0xAB,
            Opcodes::LDY_abs => 0xAC,
            Opcodes::LDA_abs => 0xAD,
            Opcodes::LDX_abs => 0xAE,
            Opcodes::LAX_abs => 0xAF,
            Opcodes::BCS_rel => 0xB0,
            Opcodes::LDA_izy => 0xB1,
            Opcodes::HLT9 => 0xB2,
            Opcodes::LAX_izy => 0xB3,
            Opcodes::LDY_zpx => 0xB4,
            Opcodes::LDA_zpx => 0xB5,
            Opcodes::LDX_zpy => 0xB6,
            Opcodes::LAX_zpy => 0xB7,
            Opcodes::CLV => 0xB8,
            Opcodes::LDA_aby => 0xB9,
            Opcodes::TSX => 0xBA,
            Opcodes::LAS_aby => 0xBB,
            Opcodes::LDY_abx => 0xBC,
            Opcodes::LDA_abx => 0xBD,
            Opcodes::LDX_aby => 0xBE,
            Opcodes::LAX_aby => 0xBF,
            Opcodes::CPY_imm => 0xC0,
            Opcodes::CMP_izx => 0xC1,
            Opcodes::NOP_imm4 => 0xC2,
            Opcodes::DCP_izx => 0xC3,
            Opcodes::CPY_zp => 0xC4,
            Opcodes::CMP_zp => 0xC5,
            Opcodes::DEC_zp => 0xC6,
            Opcodes::DCP_zp => 0xC7,
            Opcodes::INY => 0xC8,
            Opcodes::CMP_imm => 0xC9,
            Opcodes::DEX => 0xCA,
            Opcodes::AXS_imm => 0xCB,
            Opcodes::CPY_abs => 0xCC,
            Opcodes::CMP_abs => 0xCD,
            Opcodes::DEC_abs => 0xCE,
            Opcodes::DCP_abs => 0xCF,
            Opcodes::BNE_rel => 0xD0,
            Opcodes::CMP_izy => 0xD1,
            Opcodes::HLT10 => 0xD2,
            Opcodes::DCP_izy => 0xD3,
            Opcodes::NOP_zpx5 => 0xD4,
            Opcodes::CMP_zpx => 0xD5,
            Opcodes::DEC_zpx => 0xD6,
            Opcodes::DCP_zpx => 0xD7,
            Opcodes::CLD => 0xD8,
            Opcodes::CMP_aby => 0xD9,
            Opcodes::NOP5 => 0xDA,
            Opcodes::DCP_aby => 0xDB,
            Opcodes::NOP_abx5 => 0xDC,
            Opcodes::CMP_abx => 0xDD,
            Opcodes::DEC_abx => 0xDE,
            Opcodes::DCP_abx => 0xDF,
            Opcodes::CPX_imm => 0xE0,
            Opcodes::SBC_izx => 0xE1,
            Opcodes::NOP_imm5 => 0xE2,
            Opcodes::ISC_izx => 0xE3,
            Opcodes::CPX_zp => 0xE4,
            Opcodes::SBC_zp => 0xE5,
            Opcodes::INC_zp => 0xE6,
            Opcodes::ISC_zp => 0xE7,
            Opcodes::INX => 0xE8,
            Opcodes::SBC_imm => 0xE9,
            Opcodes::NOP => 0xEA,
            Opcodes::SBC_imm2 => 0xEB,
            Opcodes::CPX => 0xEC,
            Opcodes::SBC_abs => 0xED,
            Opcodes::INC_abs => 0xEE,
            Opcodes::ISC_abs => 0xEF,
            Opcodes::BEQ_rel => 0xF0,
            Opcodes::SBC_izy => 0xF1,
            Opcodes::HLT11 => 0xF2,
            Opcodes::ISC_izy => 0xF3,
            Opcodes::NOP_zpx6 => 0xF4,
            Opcodes::SBC_zpx => 0xF5,
            Opcodes::INC_zpx => 0xF6,
            Opcodes::ISC_zpx => 0xF7,
            Opcodes::SED => 0xF8,
            Opcodes::SBC_aby => 0xF9,
            Opcodes::NOP6 => 0xFA,
            Opcodes::ISC_aby => 0xFB,
            Opcodes::NOP_abx6 => 0xFC,
            Opcodes::SBC_abx => 0xFD,
            Opcodes::INC_abx => 0xFE,
            Opcodes::ISC_abx => 0xFF,
        }
    }
}

/// Whether an addressing mode names a memory operand (or a branch target) that
/// `get_operand_addr` can find.
pub open spec fn has_operand_addr(mode: AddrMode) -> bool {
    !(mode is Implied || mode is Accumulator || mode is Immediate || mode is AbsoluteIndirect)
}

/// The signed offset of a relative branch byte.
pub open spec fn rel_offset(b: u8) -> int {
    if b < 128 { b as int } else { b as int - 256 }
}

/// The little endian pointer stored in zero page at `p`; its high byte comes from
/// `p + 1` inside zero page.
pub open spec fn zp_word(m: crate::memory::Memory, p: u8) -> u16 {
    (m.value_at(p as u16) as int + 256 * m.value_at(wrap8(p + 1) as u16) as int) as u16
}

/// The address of the operand of `mode` for the CPU state `c`, and PC once the operand
/// bytes have been read: `$0000,X` and `$0000,Y` add the index to the absolute address,
/// `$00,X` and `$00,Y` add it inside zero page, `($00,X)` reads the pointer at the
/// zero page address plus X, and `($00),Y` adds Y to the pointer at the zero page address.
pub open spec fn operand_addr(mode: AddrMode, c: CPU) -> (u16, u16) {
    let m = c.mem;
    let b = m.value_at(c.pc);
    let w = m.word_le_at(c.pc);
    let pc1 = wrap16(c.pc + 1);
    let pc2 = wrap16(c.pc + 2);
    match mode {
        AddrMode::Absolute => (w, pc2),
        AddrMode::IndexedAbsoluteX => (wrap16(w + c.x), pc2),
        AddrMode::IndexedAbsoluteY => (wrap16(w + c.y), pc2),
        AddrMode::Zeropage => (b as u16, pc1),
        AddrMode::ZeropageIndexedX => (wrap8(b + c.x) as u16, pc1),
        AddrMode::ZeropageIndexedY => (wrap8(b + c.y) as u16, pc1),
        AddrMode::Relative => (wrap16(pc1 + rel_offset(b)), pc1),
        AddrMode::IndexedIndirectX => (zp_word(m, wrap8(b + c.x)), pc1),
        AddrMode::IndirectIndexedY => (wrap16(zp_word(m, b) + c.y), pc1),
        _ => (0, c.pc),
    }
}

/// Reads the operand address bytes at PC and computes the operand address.
fn get_operand_addr(mode: AddrMode, cpu: &mut CPU) -> (addr: u16)
    requires
        old(cpu).mem.wf(),
        has_operand_addr(mode),
    ensures
        addr == operand_addr(mode, *old(cpu)).0,
        *final(cpu) == (CPU { pc: operand_addr(mode, *old(cpu)).1, ..*old(cpu) }),
{
    match mode {
        AddrMode::Absolute => cpu.next_word(),
        AddrMode::IndexedAbsoluteX => {
            let nw = cpu.next_word();
            nw.wrapping_add(cpu.x as u16)
        },
        AddrMode::IndexedAbsoluteY => {
            let nw = cpu.next_word();
            nw.wrapping_add(cpu.y as u16)
        },
        AddrMode::Zeropage => cpu.next_byte() as u16,
        AddrMode::ZeropageIndexedX => {
            let nb = cpu.next_byte();
            nb.wrapping_add(cpu.x) as u16
        },
        AddrMode::ZeropageIndexedY => {
            let nb = cpu.next_byte();
            nb.wrapping_add(cpu.y) as u16
        },
        AddrMode::Relative => {
            let offset = cpu.next_byte();
            if offset < 128 {
                cpu.pc.wrapping_add(offset as u16)
            } else {
                cpu.pc.wrapping_sub(256 - offset as u16)
            }
        },
        AddrMode::IndexedIndirectX => {
            let nb = cpu.next_byte();
            let p = nb.wrapping_add(cpu.x);
            read_zp_word(cpu, p)
        },
        AddrMode::IndirectIndexedY => {
            let nb = cpu.next_byte();
            read_zp_word(cpu, nb).wrapping_add(cpu.y as u16)
        },
        _ => {
            proof {
                assert(false);
            }
            0
        },
    }
}

/// Reads the zero page pointer at `p` (see `zp_word`).
fn read_zp_word(cpu: &mut CPU, p: u8) -> (w: u16)
    requires
        old(cpu).mem.wf(),
    ensures
        w == zp_word(old(cpu).mem, p),
        *final(cpu) == *old(cpu),
{
    let lo = cpu.mem.read_byte(p as u16) as u16;
    let hi = cpu.mem.read_byte(p.wrapping_add(1) as u16) as u16;
    lo + 256 * hi
}

/// Fetches the operand of `mode`: the accumulator, the byte after the opcode, or the
/// byte at the operand address. PC moves past the operand bytes.
pub fn get_operand(mode: AddrMode, cpu: &mut CPU) -> (v: u8)
    requires
        old(cpu).mem.wf(),
        !(mode is Implied),
        !(mode is AbsoluteIndirect),
    ensures
        mode is Accumulator ==> v == old(cpu).a && *final(cpu) == *old(cpu),
        mode is Immediate ==> v == old(cpu).mem.value_at(old(cpu).pc)
            && *final(cpu) == (CPU { pc: wrap16(old(cpu).pc + 1), ..*old(cpu) }),
        has_operand_addr(mode) ==> ({
            let (addr, pc) = operand_addr(mode, *old(cpu));
            &&& v == old(cpu).mem.value_at(addr)
            &&& *final(cpu) == (CPU { pc: pc, ..*old(cpu) })
        }),
{
    match mode {
        AddrMode::Accumulator => cpu.a,
        AddrMode::Immediate => cpu.next_byte(),
        _ => {
            let op_addr = get_operand_addr(mode, cpu);
            cpu.mem.read_byte(op_addr)
        },
    }
}

/// Stores an operand: into the accumulator, or as a byte at the operand address (see
/// `Memory::write_byte`). PC moves past the operand bytes.
pub fn set_operand(mode: AddrMode, cpu: &mut CPU, value: u8)
    requires
        old(cpu).mem.wf(),
        !(mode is Implied),
        !(mode is Immediate),
        !(mode is Relative),
        !(mode is AbsoluteIndirect),
    ensures
        final(cpu).mem.wf(),
        mode is Accumulator ==> *final(cpu) == (CPU { a: value, ..*old(cpu) }),
        has_operand_addr(mode) ==> ({
            let (addr, pc) = operand_addr(mode, *old(cpu));
            &&& final(cpu).pc == pc
            &&& final(cpu).mem.ram@ == old(cpu).mem.ram@.update(addr as int, value)
            &&& final(cpu).mem.rom == old(cpu).mem.rom
            &&& addr == 1 ==> ({
                let (b, c, i, k) = crate::memory::flat_flags(value);
                final(cpu).mem.basic_on == b && final(cpu).mem.chargen_on == c && final(cpu).mem.io_on == i
                    && final(cpu).mem.kernal_on == k
            })
            &&& addr != 1 ==> final(cpu).mem.same_flags(&old(cpu).mem)
            &&& final(cpu).mem.cart_lo_on == old(cpu).mem.cart_lo_on
            &&& final(cpu).mem.cart_hi_on == old(cpu).mem.cart_hi_on
            &&& final(cpu).sp == old(cpu).sp && final(cpu).p == old(cpu).p && final(cpu).a == old(cpu).a
            &&& final(cpu).x == old(cpu).x && final(cpu).y == old(cpu).y
            &&& final(cpu).op_debugger == old(cpu).op_debugger
        }),
{
    match mode {
        AddrMode::Accumulator => {
            cpu.a = value;
        },
        _ => {
            let op_addr = get_operand_addr(mode, cpu);
            cpu.mem.write_byte(op_addr, value);
        },
    }
}

} // verus!
