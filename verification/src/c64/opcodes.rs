// 6502 instruction set: addressing modes, operations, decoding table and cycle bookkeeping
use vstd::prelude::*;
use crate::c64::cpu::{CPU, CPUState, Bus, CpuFault, bus_read_value, inc16, add16, dec8, is_plain_read};
use crate::c64::execute::{
    alu_effect, implied_effect, store_effect, rmw_effect, stack_effect, branch_effect, jmp_effect,
    jsr_effect, return_effect, brk_effect, is_alu_op, is_implied_op, is_store_op, is_rmw_op,
    is_stack_op, is_branch_op, dec16, run_alu, run_implied, run_store, run_rmw, run_stack,
    run_branch, run_jmp, run_jsr, run_return, run_brk, branch_taken, has_operand, operand_candidate,
    alu_regs, sub8, lemma_load_flags, lemma_compare_flags, lemma_eor_bits,
};

verus! {

/// Addressing modes; the flag of an indexed mode tells whether a page crossing costs an extra cycle.
#[derive(PartialEq, Eq, Structural, Clone, Copy, Debug)]
pub enum AddrMode {
    Implied,
    Accumulator,
    Immediate,
    Absolute,
    AbsoluteIndexedX(bool),
    AbsoluteIndexedY(bool),
    Zeropage,
    ZeropageIndexedX,
    ZeropageIndexedY,
    Relative,
    Indirect,
    IndexedIndirectX,
    IndirectIndexedY(bool),
}

/// Operations of the 6510, documented and undocumented.
#[allow(non_camel_case_types)]
#[derive(PartialEq, Eq, Structural, Clone, Copy, Debug)]
pub enum Op {
    LDA, LDX, LDY,
    STA, STX, STY,
    TAX, TAY, TXA,
    TYA,
    TSX, TXS, PHA,
    PHP, PLA, PLP,
    AND, EOR, ORA,
    BIT,
    ADC, SBC, CMP,
    CPX, CPY,
    INC, INX, INY,
    DEC, DEX, DEY,
    ASL, LSR, ROL,
    ROR,
    JMP, JSR, RTS,
    BCC, BCS, BEQ,
    BMI, BNE, BPL,
    BVC, BVS,
    CLC, CLD, CLI,
    CLV, SEC, SED,
    SEI,
    BRK, NOP, RTI,
    HLT, SLO, ANC,
    RLA, SRE, RRA,
    ALR, SAX, XAA,
    AHX, TAS, SHY,
    SHX, ARR, LAX,
    LAS, DCP, AXS,
    ISC,
}

/// The instruction being executed together with its cycle bookkeeping.
pub struct Instruction {
    pub addr_mode: AddrMode,
    pub opcode: Op,
    pub operand_addr: u16,
    pub index_addr: u16,
    pub cycles_to_fetch: u8,
    pub cycles_to_run: u8,
    pub cycles_to_rmw: u8,
    pub is_rmw: bool,
    pub rmw_buffer: u8,
    pub zp_crossed: bool,
}

/// Cycles spent fetching the operand address in each addressing mode.
pub open spec fn fetch_cycles(mode: AddrMode) -> u8 {
    match mode {
        AddrMode::Absolute => 2,
        AddrMode::Zeropage => 1,
        AddrMode::Indirect => 2,
        AddrMode::ZeropageIndexedX => 2,
        AddrMode::ZeropageIndexedY => 2,
        AddrMode::IndexedIndirectX => 4,
        AddrMode::AbsoluteIndexedX(_) => 3,
        AddrMode::AbsoluteIndexedY(_) => 3,
        AddrMode::IndirectIndexedY(_) => 4,
        _ => 0,
    }
}

/// The fetch cycle count after `calculate_cycles`: modes without an operand address keep
/// the previous count.
pub open spec fn effective_fetch(mode: AddrMode, prev_fetch: u8) -> u8 {
    if fetch_cycles(mode) == 0 {
        prev_fetch
    } else {
        fetch_cycles(mode)
    }
}

/// Whether an instruction of `total` cycles leaves a non-negative execution phase.
pub open spec fn cycles_fit(total: u8, is_rmw: bool, mode: AddrMode, prev_fetch: u8) -> bool {
    total >= effective_fetch(mode, prev_fetch) + (if is_rmw { 2int } else { 0int }) + 1
}

impl Instruction {
    /// A BRK in implied mode with all counters cleared.
    pub fn new() -> (i: Instruction)
        ensures
            i.opcode == Op::BRK,
            i.addr_mode == AddrMode::Implied,
            i.operand_addr == 0 && i.index_addr == 0,
            i.cycles_to_fetch == 0 && i.cycles_to_run == 0 && i.cycles_to_rmw == 0,
            !i.is_rmw && i.rmw_buffer == 0 && !i.zp_crossed,
    {
        Instruction {
            opcode: Op::BRK,
            addr_mode: AddrMode::Implied,
            operand_addr: 0,
            index_addr: 0,
            cycles_to_fetch: 0,
            cycles_to_run: 0,
            cycles_to_rmw: 0,
            is_rmw: false,
            rmw_buffer: 0,
            zp_crossed: false,
        }
    }

    /// Splits the instruction's total cycles into operand fetch, read-modify-write and
    /// execution cycles; the opcode fetch already took one cycle. The execution count
    /// wraps around when the total is too small.
    pub fn calculate_cycles(&mut self, total_cycles: u8, is_rmw: bool)
        ensures
            final(self).cycles_to_fetch == effective_fetch(old(self).addr_mode, old(self).cycles_to_fetch),
            final(self).cycles_to_rmw == (if is_rmw { 2u8 } else { 0u8 }),
            final(self).cycles_to_run == (total_cycles - final(self).cycles_to_fetch
                - final(self).cycles_to_rmw - 1 + 512) % 256,
            cycles_fit(total_cycles, is_rmw, old(self).addr_mode, old(self).cycles_to_fetch)
                ==> final(self).cycles_to_run == total_cycles - final(self).cycles_to_fetch
                - final(self).cycles_to_rmw - 1,
            final(self).addr_mode == old(self).addr_mode,
            final(self).opcode == old(self).opcode,
            final(self).operand_addr == old(self).operand_addr,
            final(self).index_addr == old(self).index_addr,
            final(self).is_rmw == old(self).is_rmw,
            final(self).rmw_buffer == old(self).rmw_buffer,
            final(self).zp_crossed == old(self).zp_crossed,
    {
        match self.addr_mode {
            AddrMode::Absolute => self.cycles_to_fetch = 2,
            AddrMode::Zeropage => self.cycles_to_fetch = 1,
            AddrMode::Indirect => self.cycles_to_fetch = 2,
            AddrMode::ZeropageIndexedX => self.cycles_to_fetch = 2,
            AddrMode::ZeropageIndexedY => self.cycles_to_fetch = 2,
            AddrMode::IndexedIndirectX => self.cycles_to_fetch = 4,
            AddrMode::AbsoluteIndexedX(..) => self.cycles_to_fetch = 3,
            AddrMode::AbsoluteIndexedY(..) => self.cycles_to_fetch = 3,
            AddrMode::IndirectIndexedY(..) => self.cycles_to_fetch = 4,
            _ => {},
        }
        self.cycles_to_rmw = if is_rmw { 2 } else { 0 };
        self.cycles_to_run = total_cycles.wrapping_sub(self.cycles_to_fetch).wrapping_sub(self.cycles_to_rmw)
            .wrapping_sub(1);
    }
}

/// The byte a bus read at `addr` gives back, when determined by the state.
pub open spec fn read_at(cpu: &CPU, bus: &Bus, addr: u16) -> Option<u8> {
    bus_read_value(bus, cpu.dfff_byte, addr)
}

/// The cycle counts at which each addressing mode fetches a part of its operand address.
pub open spec fn fetch_cycle_ok(mode: AddrMode, c: u8) -> bool {
    match mode {
        AddrMode::Absolute | AddrMode::Indirect | AddrMode::ZeropageIndexedX | AddrMode::ZeropageIndexedY => 1 <= c <= 2,
        AddrMode::AbsoluteIndexedX(_) | AddrMode::AbsoluteIndexedY(_) => 1 <= c <= 3,
        AddrMode::IndexedIndirectX | AddrMode::IndirectIndexedY(_) => 1 <= c <= 4,
        _ => true,
    }
}

/// The parts of the CPU that an operand address fetch leaves alone.
pub open spec fn fetch_keeps_registers(o: &CPU, f: &CPU) -> bool {
    &&& f.a == o.a && f.x == o.x && f.y == o.y && f.p == o.p && f.sp == o.sp
    &&& f.state == o.state && f.ba_low == o.ba_low
    &&& f.instruction.opcode == o.instruction.opcode
    &&& f.instruction.addr_mode == o.instruction.addr_mode
    &&& f.instruction.is_rmw == o.instruction.is_rmw
    &&& f.instruction.cycles_to_run == o.instruction.cycles_to_run
    &&& f.instruction.cycles_to_rmw == o.instruction.cycles_to_rmw
    &&& f.instruction.rmw_buffer == o.instruction.rmw_buffer
}

/// One cycle of an absolute (or indirect, first part) address fetch: low byte, then high byte.
fn fetch_absolute(cpu: &mut CPU, bus: &mut Bus)
    requires
        old(bus).wf(),
        1 <= old(cpu).instruction.cycles_to_fetch <= 2,
    ensures
        final(bus).wf(),
        fetch_keeps_registers(old(cpu), final(cpu)),
        final(cpu).pc == inc16(old(cpu).pc),
        final(cpu).instruction.cycles_to_fetch == old(cpu).instruction.cycles_to_fetch,
        final(cpu).instruction.index_addr == old(cpu).instruction.index_addr,
        final(cpu).instruction.zp_crossed == old(cpu).instruction.zp_crossed,
        read_at(old(cpu), old(bus), old(cpu).pc) matches Some(b) ==> final(cpu).instruction.operand_addr == (
            if old(cpu).instruction.cycles_to_fetch == 2 { b as u16 } else { old(cpu).instruction.operand_addr | ((b as u16) << 8) }),
{
    if cpu.instruction.cycles_to_fetch == 2 {
        cpu.instruction.operand_addr = cpu.next_byte(bus) as u16;
    } else {
        let hi = cpu.next_byte(bus) as u16;
        cpu.instruction.operand_addr = cpu.instruction.operand_addr | (hi << 8);
    }
}

/// One cycle of an absolute indexed address fetch (index register value `index`).
fn fetch_absolute_indexed(cpu: &mut CPU, bus: &mut Bus, index: u8, extra_cycle: bool)
    requires
        old(bus).wf(),
        1 <= old(cpu).instruction.cycles_to_fetch <= 3,
    ensures
        final(bus).wf(),
        fetch_keeps_registers(old(cpu), final(cpu)),
        ({
            let o = old(cpu).instruction;
            let f = final(cpu).instruction;
            let c = o.cycles_to_fetch;
            &&& c == 3 ==> final(cpu).pc == inc16(old(cpu).pc) && f.cycles_to_fetch == c
                && f.index_addr == o.index_addr && f.zp_crossed == o.zp_crossed
                && (read_at(old(cpu), old(bus), old(cpu).pc) matches Some(b) ==> f.operand_addr == b as u16)
            &&& c == 2 ==> {
                let crossed = o.operand_addr + index >= 0x100;
                &&& final(cpu).pc == inc16(old(cpu).pc)
                &&& f.zp_crossed == crossed
                &&& f.cycles_to_fetch == (if !crossed && extra_cycle { 1u8 } else { 2u8 })
                &&& (read_at(old(cpu), old(bus), old(cpu).pc) matches Some(b) ==> f.index_addr == b as u16
                    && f.operand_addr == ((add16(o.operand_addr, index as u16) & 0xFF) | ((b as u16) << 8)))
            }
            &&& c == 1 ==> final(cpu).pc == old(cpu).pc && f.cycles_to_fetch == c
                && f.index_addr == o.index_addr && f.zp_crossed == o.zp_crossed
                && f.operand_addr == (if o.zp_crossed { add16(o.operand_addr, 0x100) } else { o.operand_addr })
        }),
{
    if cpu.instruction.cycles_to_fetch == 3 {
        cpu.instruction.operand_addr = cpu.next_byte(bus) as u16;
    } else if cpu.instruction.cycles_to_fetch == 2 {
        let addr_lo = cpu.instruction.operand_addr;
        cpu.instruction.index_addr = cpu.next_byte(bus) as u16;
        let sum = addr_lo.wrapping_add(index as u16);
        cpu.instruction.operand_addr = (sum & 0xFF) | (cpu.instruction.index_addr << 8);
        cpu.instruction.zp_crossed = addr_lo as u32 + index as u32 >= 0x100;
        if !cpu.instruction.zp_crossed && extra_cycle {
            cpu.instruction.cycles_to_fetch = 1;
        }
    } else {
        let addr = cpu.instruction.operand_addr;
        cpu.read_idle(bus, addr);
        if cpu.instruction.zp_crossed {
            cpu.instruction.operand_addr = cpu.instruction.operand_addr.wrapping_add(0x100);
        }
    }
}

/// One cycle of a zero page indexed address fetch: base byte, then add the index (wrapping in page 0).
fn fetch_zeropage_indexed(cpu: &mut CPU, bus: &mut Bus, index: u8)
    requires
        old(bus).wf(),
        1 <= old(cpu).instruction.cycles_to_fetch <= 2,
    ensures
        final(bus).wf(),
        fetch_keeps_registers(old(cpu), final(cpu)),
        final(cpu).instruction.cycles_to_fetch == old(cpu).instruction.cycles_to_fetch,
        final(cpu).instruction.index_addr == old(cpu).instruction.index_addr,
        final(cpu).instruction.zp_crossed == old(cpu).instruction.zp_crossed,
        old(cpu).instruction.cycles_to_fetch == 2 ==> final(cpu).pc == inc16(old(cpu).pc)
            && (read_at(old(cpu), old(bus), old(cpu).pc) matches Some(b) ==> final(cpu).instruction.operand_addr == b as u16),
        old(cpu).instruction.cycles_to_fetch == 1 ==> final(cpu).pc == old(cpu).pc
            && final(cpu).instruction.operand_addr == (add16(old(cpu).instruction.operand_addr, index as u16) & 0xFF),
{
    if cpu.instruction.cycles_to_fetch == 2 {
        cpu.instruction.operand_addr = cpu.next_byte(bus) as u16;
    } else {
        let base_addr = cpu.instruction.operand_addr;
        cpu.read_idle(bus, base_addr);
        cpu.instruction.operand_addr = base_addr.wrapping_add(index as u16) & 0xFF;
    }
}

/// One cycle of an (indirect,X) address fetch: pointer byte, add X in page 0, then the
/// two address bytes from page 0.
fn fetch_indexed_indirect_x(cpu: &mut CPU, bus: &mut Bus)
    requires
        old(bus).wf(),
        1 <= old(cpu).instruction.cycles_to_fetch <= 4,
    ensures
        final(bus).wf(),
        fetch_keeps_registers(old(cpu), final(cpu)),
        final(cpu).instruction.cycles_to_fetch == old(cpu).instruction.cycles_to_fetch,
        final(cpu).instruction.zp_crossed == old(cpu).instruction.zp_crossed,
        ({
            let o = old(cpu).instruction;
            let f = final(cpu).instruction;
            let c = o.cycles_to_fetch;
            &&& c == 4 ==> final(cpu).pc == inc16(old(cpu).pc) && f.operand_addr == o.operand_addr
                && (read_at(old(cpu), old(bus), old(cpu).pc) matches Some(b) ==> f.index_addr == b as u16)
            &&& c == 3 ==> final(cpu).pc == old(cpu).pc && f.operand_addr == o.operand_addr
                && f.index_addr == (add16(o.index_addr, old(cpu).x as u16) & 0xFF)
            &&& c == 2 ==> final(cpu).pc == old(cpu).pc && f.index_addr == o.index_addr
                && (read_at(old(cpu), old(bus), o.index_addr) matches Some(b) ==> f.operand_addr == b as u16)
            &&& c == 1 ==> final(cpu).pc == old(cpu).pc && f.index_addr == o.index_addr
                && (read_at(old(cpu), old(bus), add16(o.index_addr, 1) & 0xFF) matches Some(b)
                    ==> f.operand_addr == o.operand_addr | ((b as u16) << 8))
        }),
{
    let c = cpu.instruction.cycles_to_fetch;
    if c == 4 {
        cpu.instruction.index_addr = cpu.next_byte(bus) as u16;
    } else if c == 3 {
        let addr = cpu.instruction.index_addr;
        cpu.read_idle(bus, addr);
        cpu.instruction.index_addr = addr.wrapping_add(cpu.x as u16) & 0xFF;
    } else if c == 2 {
        let idx_addr = cpu.instruction.index_addr;
        cpu.instruction.operand_addr = cpu.read_byte(bus, idx_addr) as u16;
    } else {
        let idx = cpu.instruction.index_addr;
        let hi = cpu.read_byte(bus, idx.wrapping_add(1) & 0xFF) as u16;
        cpu.instruction.operand_addr = cpu.instruction.operand_addr | (hi << 8);
    }
}

/// One cycle of an (indirect),Y address fetch: pointer byte, the two address bytes from
/// page 0 with Y added to the low byte, then the page crossing fix-up.
fn fetch_indirect_indexed_y(cpu: &mut CPU, bus: &mut Bus, extra_cycle: bool)
    requires
        old(bus).wf(),
        1 <= old(cpu).instruction.cycles_to_fetch <= 4,
    ensures
        final(bus).wf(),
        fetch_keeps_registers(old(cpu), final(cpu)),
        ({
            let o = old(cpu).instruction;
            let f = final(cpu).instruction;
            let c = o.cycles_to_fetch;
            let y = old(cpu).y;
            &&& c == 4 ==> final(cpu).pc == inc16(old(cpu).pc) && f.operand_addr == o.operand_addr
                && f.cycles_to_fetch == c && f.zp_crossed == o.zp_crossed
                && (read_at(old(cpu), old(bus), old(cpu).pc) matches Some(b) ==> f.index_addr == b as u16)
            &&& c == 3 ==> final(cpu).pc == old(cpu).pc && f.index_addr == o.index_addr
                && f.cycles_to_fetch == c && f.zp_crossed == o.zp_crossed
                && (read_at(old(cpu), old(bus), o.index_addr) matches Some(b) ==> f.operand_addr == b as u16)
            &&& c == 2 ==> {
                let crossed = o.operand_addr + y >= 0x100;
                &&& final(cpu).pc == old(cpu).pc
                &&& f.zp_crossed == crossed
                &&& f.cycles_to_fetch == (if !crossed && extra_cycle { 1u8 } else { 2u8 })
                &&& (read_at(old(cpu), old(bus), add16(o.index_addr, 1) & 0xFF) matches Some(b) ==> f.index_addr == b as u16
                    && f.operand_addr == ((add16(o.operand_addr, y as u16) & 0x0FF) | ((b as u16) << 8)))
            }
            &&& c == 1 ==> final(cpu).pc == old(cpu).pc && f.cycles_to_fetch == c
                && f.index_addr == o.index_addr && f.zp_crossed == o.zp_crossed
                && f.operand_addr == (if o.zp_crossed { add16(o.operand_addr, 0x100) } else { o.operand_addr })
        }),
{
    let c = cpu.instruction.cycles_to_fetch;
    if c == 4 {
        cpu.instruction.index_addr = cpu.next_byte(bus) as u16;
    } else if c == 3 {
        let base_addr = cpu.instruction.index_addr;
        cpu.instruction.operand_addr = cpu.read_byte(bus, base_addr) as u16;
    } else if c == 2 {
        let idx = cpu.instruction.index_addr;
        let opaddr = cpu.instruction.operand_addr;
        cpu.instruction.index_addr = cpu.read_byte(bus, idx.wrapping_add(1) & 0xFF) as u16;
        cpu.instruction.operand_addr = (opaddr.wrapping_add(cpu.y as u16) & 0x0FF) | (cpu.instruction.index_addr << 8);
        cpu.instruction.zp_crossed = opaddr as u32 + cpu.y as u32 >= 0x100;
        if !cpu.instruction.zp_crossed && extra_cycle {
            cpu.instruction.cycles_to_fetch = 1;
        }
    } else {
        let addr = cpu.instruction.operand_addr;
        cpu.read_idle(bus, addr);
        if cpu.instruction.zp_crossed {
            cpu.instruction.operand_addr = cpu.instruction.operand_addr.wrapping_add(0x100);
        }
    }
}

/// A cycle of an absolute indexed fetch (index register value `index`), with the count
/// already moved on: low byte; high byte with the index added to the low byte (the page
/// crossing noted, and the fetch ends here when no page is crossed and the mode takes
/// the extra cycle only on a crossing); then the fix-up of the high byte.
pub open spec fn abs_indexed_fetch(o: CPU, ob: Bus, n: CPU, index: u8, extra_cycle: bool) -> bool {
    let oi = o.instruction;
    let f = n.instruction;
    let c = oi.cycles_to_fetch;
    &&& c == 3 ==> n.pc == inc16(o.pc) && f.cycles_to_fetch == 2 && f.index_addr == oi.index_addr
        && f.zp_crossed == oi.zp_crossed
        && (read_at(&o, &ob, o.pc) matches Some(b) ==> f.operand_addr == b as u16)
    &&& c == 2 ==> {
        let crossed = oi.operand_addr + index >= 0x100;
        &&& n.pc == inc16(o.pc)
        &&& f.zp_crossed == crossed
        &&& f.cycles_to_fetch == (if !crossed && extra_cycle { 0u8 } else { 1u8 })
        &&& (read_at(&o, &ob, o.pc) matches Some(b) ==> f.index_addr == b as u16
            && f.operand_addr == ((add16(oi.operand_addr, index as u16) & 0xFF) | ((b as u16) << 8)))
    }
    &&& c == 1 ==> n.pc == o.pc && f.cycles_to_fetch == 0 && f.index_addr == oi.index_addr
        && f.zp_crossed == oi.zp_crossed
        && f.operand_addr == (if oi.zp_crossed { add16(oi.operand_addr, 0x100) } else { oi.operand_addr })
}

/// A cycle of an (indirect,X) fetch, with the count moved on: pointer byte; X added in
/// page 0; low and high address byte from page 0.
pub open spec fn indexed_indirect_fetch(o: CPU, ob: Bus, n: CPU) -> bool {
    let oi = o.instruction;
    let f = n.instruction;
    let c = oi.cycles_to_fetch;
    &&& f.cycles_to_fetch == dec8(c) && f.zp_crossed == oi.zp_crossed
    &&& c == 4 ==> n.pc == inc16(o.pc) && f.operand_addr == oi.operand_addr
        && (read_at(&o, &ob, o.pc) matches Some(b) ==> f.index_addr == b as u16)
    &&& c == 3 ==> n.pc == o.pc && f.operand_addr == oi.operand_addr
        && f.index_addr == (add16(oi.index_addr, o.x as u16) & 0xFF)
    &&& c == 2 ==> n.pc == o.pc && f.index_addr == oi.index_addr
        && (read_at(&o, &ob, oi.index_addr) matches Some(b) ==> f.operand_addr == b as u16)
    &&& c == 1 ==> n.pc == o.pc && f.index_addr == oi.index_addr
        && (read_at(&o, &ob, add16(oi.index_addr, 1) & 0xFF) matches Some(b)
            ==> f.operand_addr == oi.operand_addr | ((b as u16) << 8))
}

/// A cycle of an (indirect),Y fetch, with the count moved on: pointer byte; low address
/// byte from page 0; high byte from page 0 with Y added to the low byte (the page
/// crossing noted, early end as for the absolute indexed modes); the fix-up.
pub open spec fn indirect_indexed_fetch(o: CPU, ob: Bus, n: CPU, extra_cycle: bool) -> bool {
    let oi = o.instruction;
    let f = n.instruction;
    let c = oi.cycles_to_fetch;
    &&& c == 4 ==> n.pc == inc16(o.pc) && f.operand_addr == oi.operand_addr && f.cycles_to_fetch == 3
        && f.zp_crossed == oi.zp_crossed
        && (read_at(&o, &ob, o.pc) matches Some(b) ==> f.index_addr == b as u16)
    &&& c == 3 ==> n.pc == o.pc && f.index_addr == oi.index_addr && f.cycles_to_fetch == 2
        && f.zp_crossed == oi.zp_crossed
        && (read_at(&o, &ob, oi.index_addr) matches Some(b) ==> f.operand_addr == b as u16)
    &&& c == 2 ==> {
        let crossed = oi.operand_addr + o.y >= 0x100;
        &&& n.pc == o.pc
        &&& f.zp_crossed == crossed
        &&& f.cycles_to_fetch == (if !crossed && extra_cycle { 0u8 } else { 1u8 })
        &&& (read_at(&o, &ob, add16(oi.index_addr, 1) & 0xFF) matches Some(b) ==> f.index_addr == b as u16
            && f.operand_addr == ((add16(oi.operand_addr, o.y as u16) & 0x0FF) | ((b as u16) << 8)))
    }
    &&& c == 1 ==> n.pc == o.pc && f.cycles_to_fetch == 0 && f.index_addr == oi.index_addr
        && f.zp_crossed == oi.zp_crossed
        && f.operand_addr == (if oi.zp_crossed { add16(oi.operand_addr, 0x100) } else { oi.operand_addr })
}

/// A cycle of an indirect (`JMP ($0000)`) fetch, with the count moved on: the low byte of
/// the pointer; then its high byte and the target word read at the pointer, which fails
/// exactly when the pointer's two bytes lie in different banks.
pub open spec fn indirect_fetch(o: CPU, ob: Bus, n: CPU, r: Result<bool, CpuFault>) -> bool {
    let oi = o.instruction;
    let f = n.instruction;
    let c = oi.cycles_to_fetch;
    &&& c == 2 ==> n.pc == inc16(o.pc) && f.cycles_to_fetch == 1
        && (read_at(&o, &ob, o.pc) matches Some(b) ==> f.operand_addr == b as u16)
    &&& c == 1 && r is Ok ==> n.pc == inc16(o.pc) && f.cycles_to_fetch == 0
        && (is_plain_read(ob.memory@, o.pc) ==> (read_at(&o, &ob, o.pc) matches Some(b) ==> {
            let m = ob.memory@.after_read(o.pc);
            let ptr = oi.operand_addr | ((b as u16) << 8);
            f.operand_addr == m.word_le_value(ptr)
        }))
    &&& c == 1 && is_plain_read(ob.memory@, o.pc) ==> (read_at(&o, &ob, o.pc) matches Some(b) ==> {
            let ptr = oi.operand_addr | ((b as u16) << 8);
            &&& (r is Ok <==> ob.memory@.word_in_one_bank(ptr))
            &&& !ob.memory@.word_in_one_bank(ptr) ==> r == Err::<bool, CpuFault>(CpuFault::WordAcrossBanks)
        })
}

/// One cycle of the operand address fetch (see `fetch_operand_addr`).
#[verifier::opaque]
pub open spec fn fetch_effect(o: CPU, ob: Bus, n: CPU, nb: Bus, r: Result<bool, CpuFault>) -> bool {
    &&& nb.wf()
    &&& !fetch_cycle_ok(o.instruction.addr_mode, o.instruction.cycles_to_fetch)
                ==> r == Err::<bool, CpuFault>(CpuFault::WrongCycleCount)
    &&& r is Ok ==> fetch_keeps_registers(&o, &n)
    &&& r matches Ok(done) ==> done == (n.instruction.cycles_to_fetch == 0)
    &&& ({
                let oi = o.instruction;
                let f = n.instruction;
                let c = oi.cycles_to_fetch;
                let next = dec8(c);
                &&& fetch_cycle_ok(oi.addr_mode, c) ==> (r is Ok || (oi.addr_mode == AddrMode::Indirect && c == 1
                    && r == Err::<bool, CpuFault>(CpuFault::WordAcrossBanks)))
                &&& (oi.addr_mode == AddrMode::Absolute || oi.addr_mode == AddrMode::ZeropageIndexedX
                    || oi.addr_mode == AddrMode::ZeropageIndexedY || oi.addr_mode == AddrMode::IndexedIndirectX
                    || oi.addr_mode == AddrMode::Zeropage) && fetch_cycle_ok(oi.addr_mode, c) && c >= 1
                    ==> f.cycles_to_fetch == next
                &&& oi.addr_mode == AddrMode::Zeropage ==> r is Ok && n.pc == inc16(o.pc)
                    && (read_at(&o, &ob, o.pc) matches Some(b) ==> f.operand_addr == b as u16)
                &&& oi.addr_mode == AddrMode::Absolute && 1 <= c <= 2 ==> n.pc == inc16(o.pc)
                    && (read_at(&o, &ob, o.pc) matches Some(b) ==> f.operand_addr == (
                        if c == 2 { b as u16 } else { oi.operand_addr | ((b as u16) << 8) }))
                &&& (oi.addr_mode == AddrMode::ZeropageIndexedX || oi.addr_mode == AddrMode::ZeropageIndexedY)
                    && c == 2 ==> n.pc == inc16(o.pc)
                    && (read_at(&o, &ob, o.pc) matches Some(b) ==> f.operand_addr == b as u16)
                &&& oi.addr_mode == AddrMode::ZeropageIndexedX && c == 1 ==> n.pc == o.pc
                    && f.operand_addr == (add16(oi.operand_addr, o.x as u16) & 0xFF)
                &&& oi.addr_mode == AddrMode::ZeropageIndexedY && c == 1 ==> n.pc == o.pc
                    && f.operand_addr == (add16(oi.operand_addr, o.y as u16) & 0xFF)
                &&& (oi.addr_mode == AddrMode::Implied || oi.addr_mode == AddrMode::Accumulator
                    || oi.addr_mode == AddrMode::Immediate || oi.addr_mode == AddrMode::Relative)
                    ==> r == Ok::<bool, CpuFault>(next == 0) && nb == ob
                    && n == (CPU { instruction: Instruction { cycles_to_fetch: next, ..oi }, ..o })
                &&& oi.addr_mode == AddrMode::Indirect ==> indirect_fetch(o, ob, n, r)
                &&& oi.addr_mode == AddrMode::IndexedIndirectX && fetch_cycle_ok(oi.addr_mode, c)
                    ==> indexed_indirect_fetch(o, ob, n)
                &&& (oi.addr_mode matches AddrMode::AbsoluteIndexedX(e)
                    ==> (fetch_cycle_ok(oi.addr_mode, c) ==> abs_indexed_fetch(o, ob, n, o.x, e)))
                &&& (oi.addr_mode matches AddrMode::AbsoluteIndexedY(e)
                    ==> (fetch_cycle_ok(oi.addr_mode, c) ==> abs_indexed_fetch(o, ob, n, o.y, e)))
                &&& (oi.addr_mode matches AddrMode::IndirectIndexedY(e)
                    ==> (fetch_cycle_ok(oi.addr_mode, c) ==> indirect_indexed_fetch(o, ob, n, e)))
    })
}

/// Fetches one part of the operand address of the current instruction and counts down
/// `cycles_to_fetch`. Returns whether the address is complete. Page-crossing modes with
/// an extra cycle finish early when no page is crossed.
#[verifier::rlimit(60)]
#[verifier::spinoff_prover]
pub fn fetch_operand_addr(cpu: &mut CPU, bus: &mut Bus) -> (r: Result<bool, CpuFault>)
    requires
        old(bus).wf(),
    ensures
        final(bus).wf(),
        fetch_effect(*old(cpu), *old(bus), *final(cpu), *final(bus), r),
{
    proof {
        reveal(fetch_effect);
    }
    let c = cpu.instruction.cycles_to_fetch;
    match cpu.instruction.addr_mode {
        AddrMode::Absolute => {
            if c < 1 || c > 2 {
                return Err(CpuFault::WrongCycleCount);
            }
            fetch_absolute(cpu, bus);
        },
        AddrMode::AbsoluteIndexedX(extra_cycle) => {
            if c < 1 || c > 3 {
                return Err(CpuFault::WrongCycleCount);
            }
            let x = cpu.x;
            fetch_absolute_indexed(cpu, bus, x, extra_cycle);
        },
        AddrMode::AbsoluteIndexedY(extra_cycle) => {
            if c < 1 || c > 3 {
                return Err(CpuFault::WrongCycleCount);
            }
            let y = cpu.y;
            fetch_absolute_indexed(cpu, bus, y, extra_cycle);
        },
        AddrMode::Zeropage => {
            cpu.instruction.operand_addr = cpu.next_byte(bus) as u16;
        },
        AddrMode::ZeropageIndexedX => {
            if c < 1 || c > 2 {
                return Err(CpuFault::WrongCycleCount);
            }
            let x = cpu.x;
            fetch_zeropage_indexed(cpu, bus, x);
        },
        AddrMode::ZeropageIndexedY => {
            if c < 1 || c > 2 {
                return Err(CpuFault::WrongCycleCount);
            }
            let y = cpu.y;
            fetch_zeropage_indexed(cpu, bus, y);
        },
        AddrMode::IndexedIndirectX => {
            if c < 1 || c > 4 {
                return Err(CpuFault::WrongCycleCount);
            }
            fetch_indexed_indirect_x(cpu, bus);
        },
        AddrMode::IndirectIndexedY(extra_cycle) => {
            if c < 1 || c > 4 {
                return Err(CpuFault::WrongCycleCount);
            }
            fetch_indirect_indexed_y(cpu, bus, extra_cycle);
        },
        AddrMode::Indirect => {
            if c == 2 {
                cpu.instruction.operand_addr = cpu.next_byte(bus) as u16;
            } else if c == 1 {
                let hi = cpu.next_byte(bus) as u16;
                let addr = cpu.instruction.operand_addr | (hi << 8);
                match cpu.read_word_le(bus, addr) {
                    Ok(w) => cpu.instruction.operand_addr = w,
                    Err(e) => {
                        return Err(e);
                    },
                }
            } else {
                return Err(CpuFault::WrongCycleCount);
            }
        },
        _ => {},
    }
    cpu.instruction.cycles_to_fetch = cpu.instruction.cycles_to_fetch.wrapping_sub(1);
    Ok(cpu.instruction.cycles_to_fetch == 0)
}

/// The undocumented operations that are not emulated.
pub open spec fn is_unemulated_op(op: Op) -> bool {
    op == Op::XAA || op == Op::ALR || op == Op::ARR || op == Op::AXS || op == Op::LAS
}

/// One cycle of the execution phase, by kind of operation (see the effect of each kind).
pub open spec fn run_effect(o: CPU, ob: Bus, n: CPU, nb: Bus, r: Result<bool, CpuFault>) -> bool {
    let op = o.instruction.opcode;
    &&& is_alu_op(op) ==> alu_effect(o, ob, n, nb, r)
    &&& is_implied_op(op) ==> implied_effect(o, ob, n, nb, r)
    &&& is_store_op(op) ==> store_effect(o, ob, n, nb, r)
    &&& is_rmw_op(op) ==> rmw_effect(o, ob, n, nb, r)
    &&& is_stack_op(op) ==> stack_effect(o, ob, n, nb, r)
    &&& is_branch_op(op) ==> branch_effect(o, ob, n, nb, r)
    &&& op == Op::JMP ==> jmp_effect(o, ob, n, nb, r)
    &&& op == Op::JSR ==> jsr_effect(o, ob, n, nb, r)
    &&& op == Op::RTS ==> return_effect(o, ob, n, nb, r, false)
    &&& op == Op::RTI ==> return_effect(o, ob, n, nb, r, true)
    &&& op == Op::BRK ==> brk_effect(o, ob, n, nb, r)
    &&& op == Op::HLT ==> r == Err::<bool, CpuFault>(CpuFault::Halt(dec16(o.pc))) && n == o && nb == ob
    &&& is_unemulated_op(op) ==> r == Err::<bool, CpuFault>(CpuFault::UnknownInstruction) && n == o && nb == ob
}

/// Executes one cycle of the current instruction's execution phase and counts it down.
/// Returns whether the instruction is complete; `Ok(false)` also when the cycle has to
/// wait because the VIC holds the bus (BA low). HLT stops the CPU; the undocumented XAA,
/// ALR, ARR, AXS and LAS are not emulated.
#[verifier::rlimit(60)]
#[verifier::spinoff_prover]
pub fn run(cpu: &mut CPU, bus: &mut Bus) -> (r: Result<bool, CpuFault>)
    requires
        old(bus).wf(),
    ensures
        final(bus).wf(),
        final(cpu).state == old(cpu).state || final(cpu).state == CPUState::ProcessNMI,
        run_effect(*old(cpu), *old(bus), *final(cpu), *final(bus), r),
{
    let op = cpu.instruction.opcode;
    match op {
        Op::LDA | Op::LDX | Op::LDY | Op::AND | Op::EOR | Op::ORA | Op::BIT | Op::ADC | Op::SBC
        | Op::CMP | Op::CPX | Op::CPY | Op::LAX | Op::ANC => run_alu(cpu, bus),
        Op::TAX | Op::TAY | Op::TXA | Op::TYA | Op::TSX | Op::TXS | Op::INX | Op::INY | Op::DEX
        | Op::DEY | Op::CLC | Op::CLD | Op::CLI | Op::CLV | Op::SEC | Op::SED | Op::SEI
        | Op::NOP => run_implied(cpu, bus),
        Op::STA | Op::STX | Op::STY | Op::SAX | Op::AHX | Op::TAS | Op::SHY | Op::SHX => run_store(cpu, bus),
        Op::INC | Op::DEC | Op::ASL | Op::LSR | Op::ROL | Op::ROR | Op::SLO | Op::RLA | Op::SRE
        | Op::RRA | Op::DCP | Op::ISC => run_rmw(cpu, bus),
        Op::PHA | Op::PHP | Op::PLA | Op::PLP => run_stack(cpu, bus),
        Op::BCC | Op::BCS | Op::BEQ | Op::BNE | Op::BMI | Op::BPL | Op::BVC | Op::BVS => run_branch(cpu, bus),
        Op::JMP => run_jmp(cpu, bus),
        Op::JSR => run_jsr(cpu, bus),
        Op::RTS => run_return(cpu, bus, false),
        Op::RTI => run_return(cpu, bus, true),
        Op::BRK => run_brk(cpu, bus),
        Op::HLT => Err(CpuFault::Halt(cpu.pc.wrapping_sub(1))),
        _ => Err(CpuFault::UnknownInstruction),
    }
}

/// The decoding table: operation, maximal cycle count (including page-crossing and branch
/// extra cycles), read-modify-write flag and addressing mode of every opcode.
pub open spec fn spec_decode(opcode: u8) -> (Op, u8, bool, AddrMode) {
    match opcode {
        0x00 => (Op::BRK, 7, false, AddrMode::Implied),
        0x01 => (Op::ORA, 6, false, AddrMode::IndexedIndirectX),
        0x05 => (Op::ORA, 3, false, AddrMode::Zeropage),
        0x06 => (Op::ASL, 5, true, AddrMode::Zeropage),
        0x08 => (Op::PHP, 3, false, AddrMode::Implied),
        0x09 => (Op::ORA, 2, false, AddrMode::Immediate),
        0x0A => (Op::ASL, 2, false, AddrMode::Accumulator),
        0x0D => (Op::ORA, 4, false, AddrMode::Absolute),
        0x0E => (Op::ASL, 6, true, AddrMode::Absolute),
        0x10 => (Op::BPL, 4, false, AddrMode::Relative),
        0x11 => (Op::ORA, 6, false, AddrMode::IndirectIndexedY(true)),
        0x15 => (Op::ORA, 4, false, AddrMode::ZeropageIndexedX),
        0x16 => (Op::ASL, 6, true, AddrMode::ZeropageIndexedX),
        0x18 => (Op::CLC, 2, false, AddrMode::Implied),
        0x19 => (Op::ORA, 5, false, AddrMode::AbsoluteIndexedY(true)),
        0x1D => (Op::ORA, 5, false, AddrMode::AbsoluteIndexedX(true)),
        0x1E => (Op::ASL, 7, true, AddrMode::AbsoluteIndexedX(false)),
        0x20 => (Op::JSR, 6, false, AddrMode::Absolute),
        0x21 => (Op::AND, 6, false, AddrMode::IndexedIndirectX),
        0x24 => (Op::BIT, 3, false, AddrMode::Zeropage),
        0x25 => (Op::AND, 3, false, AddrMode::Zeropage),
        0x26 => (Op::ROL, 5, true, AddrMode::Zeropage),
        0x28 => (Op::PLP, 4, false, AddrMode::Implied),
        0x29 => (Op::AND, 2, false, AddrMode::Immediate),
        0x2A => (Op::ROL, 2, false, AddrMode::Accumulator),
        0x2C => (Op::BIT, 4, false, AddrMode::Absolute),
        0x2D => (Op::AND, 4, false, AddrMode::Absolute),
        0x2E => (Op::ROL, 6, true, AddrMode::Absolute),
        0x30 => (Op::BMI, 4, false, AddrMode::Relative),
        0x31 => (Op::AND, 6, false, AddrMode::IndirectIndexedY(true)),
        0x35 => (Op::AND, 4, false, AddrMode::ZeropageIndexedX),
        0x36 => (Op::ROL, 6, true, AddrMode::ZeropageIndexedX),
        0x38 => (Op::SEC, 2, false, AddrMode::Implied),
        0x39 => (Op::AND, 5, false, AddrMode::AbsoluteIndexedY(true)),
        0x3D => (Op::AND, 5, false, AddrMode::AbsoluteIndexedX(true)),
        0x3E => (Op::ROL, 7, true, AddrMode::AbsoluteIndexedX(false)),
        0x40 => (Op::RTI, 6, false, AddrMode::Implied),
        0x41 => (Op::EOR, 6, false, AddrMode::IndexedIndirectX),
        0x45 => (Op::EOR, 3, false, AddrMode::Zeropage),
        0x46 => (Op::LSR, 5, true, AddrMode::Zeropage),
        0x48 => (Op::PHA, 3, false, AddrMode::Implied),
        0x49 => (Op::EOR, 2, false, AddrMode::Immediate),
        0x4A => (Op::LSR, 2, false, AddrMode::Accumulator),
        0x4C => (Op::JMP, 3, false, AddrMode::Absolute),
        0x4D => (Op::EOR, 4, false, AddrMode::Absolute),
        0x4E => (Op::LSR, 6, true, AddrMode::Absolute),
        0x50 => (Op::BVC, 4, false, AddrMode::Relative),
        0x51 => (Op::EOR, 6, false, AddrMode::IndirectIndexedY(true)),
        0x55 => (Op::EOR, 4, false, AddrMode::ZeropageIndexedX),
        0x56 => (Op::LSR, 6, true, AddrMode::ZeropageIndexedX),
        0x58 => (Op::CLI, 2, false, AddrMode::Implied),
        0x59 => (Op::EOR, 5, false, AddrMode::AbsoluteIndexedY(true)),
        0x5D => (Op::EOR, 5, false, AddrMode::AbsoluteIndexedX(true)),
        0x5E => (Op::LSR, 7, true, AddrMode::AbsoluteIndexedX(false)),
        0x60 => (Op::RTS, 6, false, AddrMode::Implied),
        0x61 => (Op::ADC, 6, false, AddrMode::IndexedIndirectX),
        0x65 => (Op::ADC, 3, false, AddrMode::Zeropage),
        0x66 => (Op::ROR, 5, true, AddrMode::Zeropage),
        0x68 => (Op::PLA, 4, false, AddrMode::Implied),
        0x69 => (Op::ADC, 2, false, AddrMode::Immediate),
        0x6A => (Op::ROR, 2, false, AddrMode::Accumulator),
        0x6C => (Op::JMP, 5, false, AddrMode::Indirect),
        0x6D => (Op::ADC, 4, false, AddrMode::Absolute),
        0x6E => (Op::ROR, 6, true, AddrMode::Absolute),
        0x70 => (Op::BVS, 4, false, AddrMode::Relative),
        0x71 => (Op::ADC, 6, false, AddrMode::IndirectIndexedY(true)),
        0x75 => (Op::ADC, 4, false, AddrMode::ZeropageIndexedX),
        0x76 => (Op::ROR, 6, true, AddrMode::ZeropageIndexedX),
        0x78 => (Op::SEI, 2, false, AddrMode::Implied),
        0x79 => (Op::ADC, 5, false, AddrMode::AbsoluteIndexedY(true)),
        0x7D => (Op::ADC, 5, false, AddrMode::AbsoluteIndexedX(true)),
        0x7E => (Op::ROR, 7, true, AddrMode::AbsoluteIndexedX(false)),
        0x81 => (Op::STA, 6, false, AddrMode::IndexedIndirectX),
        0x84 => (Op::STY, 3, false, AddrMode::Zeropage),
        0x85 => (Op::STA, 3, false, AddrMode::Zeropage),
        0x86 => (Op::STX, 3, false, AddrMode::Zeropage),
        0x88 => (Op::DEY, 2, false, AddrMode::Implied),
        0x8A => (Op::TXA, 2, false, AddrMode::Implied),
        0x8C => (Op::STY, 4, false, AddrMode::Absolute),
        0x8D => (Op::STA, 4, false, AddrMode::Absolute),
        0x8E => (Op::STX, 4, false, AddrMode::Absolute),
        0x90 => (Op::BCC, 4, false, AddrMode::Relative),
        0x91 => (Op::STA, 6, false, AddrMode::IndirectIndexedY(false)),
        0x94 => (Op::STY, 4, false, AddrMode::ZeropageIndexedX),
        0x95 => (Op::STA, 4, false, AddrMode::ZeropageIndexedX),
        0x96 => (Op::STX, 4, false, AddrMode::ZeropageIndexedY),
        0x98 => (Op::TYA, 2, false, AddrMode::Implied),
        0x99 => (Op::STA, 5, false, AddrMode::AbsoluteIndexedY(false)),
        0x9A => (Op::TXS, 2, false, AddrMode::Implied),
        0x9D => (Op::STA, 5, false, AddrMode::AbsoluteIndexedX(false)),
        0xA0 => (Op::LDY, 2, false, AddrMode::Immediate),
        0xA1 => (Op::LDA, 6, false, AddrMode::IndexedIndirectX),
        0xA2 => (Op::LDX, 2, false, AddrMode::Immediate),
        0xA4 => (Op::LDY, 3, false, AddrMode::Zeropage),
        0xA5 => (Op::LDA, 3, false, AddrMode::Zeropage),
        0xA6 => (Op::LDX, 3, false, AddrMode::Zeropage),
        0xA8 => (Op::TAY, 2, false, AddrMode::Implied),
        0xA9 => (Op::LDA, 2, false, AddrMode::Immediate),
        0xAA => (Op::TAX, 2, false, AddrMode::Implied),
        0xAC => (Op::LDY, 4, false, AddrMode::Absolute),
        0xAD => (Op::LDA, 4, false, AddrMode::Absolute),
        0xAE => (Op::LDX, 4, false, AddrMode::Absolute),
        0xB0 => (Op::BCS, 4, false, AddrMode::Relative),
        0xB1 => (Op::LDA, 6, false, AddrMode::IndirectIndexedY(true)),
        0xB4 => (Op::LDY, 4, false, AddrMode::ZeropageIndexedX),
        0xB5 => (Op::LDA, 4, false, AddrMode::ZeropageIndexedX),
        0xB6 => (Op::LDX, 4, false, AddrMode::ZeropageIndexedY),
        0xB8 => (Op::CLV, 2, false, AddrMode::Implied),
        0xB9 => (Op::LDA, 5, false, AddrMode::AbsoluteIndexedY(true)),
        0xBA => (Op::TSX, 2, false, AddrMode::Implied),
        0xBC => (Op::LDY, 5, false, AddrMode::AbsoluteIndexedX(true)),
        0xBD => (Op::LDA, 5, false, AddrMode::AbsoluteIndexedX(true)),
        0xBE => (Op::LDX, 5, false, AddrMode::AbsoluteIndexedY(true)),
        0xC0 => (Op::CPY, 2, false, AddrMode::Immediate),
        0xC1 => (Op::CMP, 6, false, AddrMode::IndexedIndirectX),
        0xC4 => (Op::CPY, 3, false, AddrMode::Zeropage),
        0xC5 => (Op::CMP, 3, false, AddrMode::Zeropage),
        0xC6 => (Op::DEC, 5, true, AddrMode::Zeropage),
        0xC8 => (Op::INY, 2, false, AddrMode::Implied),
        0xC9 => (Op::CMP, 2, false, AddrMode::Immediate),
        0xCA => (Op::DEX, 2, false, AddrMode::Implied),
        0xCC => (Op::CPY, 4, false, AddrMode::Absolute),
        0xCD => (Op::CMP, 4, false, AddrMode::Absolute),
        0xCE => (Op::DEC, 6, true, AddrMode::Absolute),
        0xD0 => (Op::BNE, 4, false, AddrMode::Relative),
        0xD1 => (Op::CMP, 6, false, AddrMode::IndirectIndexedY(true)),
        0xD5 => (Op::CMP, 4, false, AddrMode::ZeropageIndexedX),
        0xD6 => (Op::DEC, 6, true, AddrMode::ZeropageIndexedX),
        0xD8 => (Op::CLD, 2, false, AddrMode::Implied),
        0xD9 => (Op::CMP, 5, false, AddrMode::AbsoluteIndexedY(true)),
        0xDD => (Op::CMP, 5, false, AddrMode::AbsoluteIndexedX(true)),
        0xDE => (Op::DEC, 7, true, AddrMode::AbsoluteIndexedX(false)),
        0xE0 => (Op::CPX, 2, false, AddrMode::Immediate),
        0xE1 => (Op::SBC, 6, false, AddrMode::IndexedIndirectX),
        0xE4 => (Op::CPX, 3, false, AddrMode::Zeropage),
        0xE5 => (Op::SBC, 3, false, AddrMode::Zeropage),
        0xE6 => (Op::INC, 5, true, AddrMode::Zeropage),
        0xE8 => (Op::INX, 2, false, AddrMode::Implied),
        0xE9 => (Op::SBC, 2, false, AddrMode::Immediate),
        0xEA => (Op::NOP, 2, false, AddrMode::Implied),
        0xEC => (Op::CPX, 4, false, AddrMode::Absolute),
        0xED => (Op::SBC, 4, false, AddrMode::Absolute),
        0xEE => (Op::INC, 6, true, AddrMode::Absolute),
        0xF0 => (Op::BEQ, 4, false, AddrMode::Relative),
        0xF1 => (Op::SBC, 6, false, AddrMode::IndirectIndexedY(true)),
        0xF5 => (Op::SBC, 4, false, AddrMode::ZeropageIndexedX),
        0xF6 => (Op::INC, 6, true, AddrMode::ZeropageIndexedX),
        0xF8 => (Op::SED, 2, false, AddrMode::Implied),
        0xF9 => (Op::SBC, 5, false, AddrMode::AbsoluteIndexedY(true)),
        0xFD => (Op::SBC, 5, false, AddrMode::AbsoluteIndexedX(true)),
        0xFE => (Op::INC, 7, true, AddrMode::AbsoluteIndexedX(false)),
        0x02 => (Op::HLT, 1, false, AddrMode::Implied),
        0x03 => (Op::SLO, 8, true, AddrMode::IndexedIndirectX),
        0x04 => (Op::NOP, 3, false, AddrMode::Zeropage),
        0x07 => (Op::SLO, 5, true, AddrMode::Zeropage),
        0x0B => (Op::ANC, 2, false, AddrMode::Immediate),
        0x0C => (Op::NOP, 4, false, AddrMode::Absolute),
        0x0F => (Op::SLO, 6, true, AddrMode::Absolute),
        0x12 => (Op::HLT, 1, false, AddrMode::Implied),
        0x13 => (Op::SLO, 8, true, AddrMode::IndirectIndexedY(false)),
        0x14 => (Op::NOP, 4, false, AddrMode::ZeropageIndexedX),
        0x17 => (Op::SLO, 6, true, AddrMode::ZeropageIndexedX),
        0x1A => (Op::NOP, 2, false, AddrMode::Implied),
        0x1B => (Op::SLO, 7, true, AddrMode::AbsoluteIndexedY(false)),
        0x1C => (Op::NOP, 5, false, AddrMode::AbsoluteIndexedX(true)),
        0x1F => (Op::SLO, 7, true, AddrMode::AbsoluteIndexedX(false)),
        0x22 => (Op::HLT, 1, false, AddrMode::Implied),
        0x23 => (Op::RLA, 8, true, AddrMode::IndexedIndirectX),
        0x27 => (Op::RLA, 5, true, AddrMode::Zeropage),
        0x2B => (Op::ANC, 2, false, AddrMode::Immediate),
        0x2F => (Op::RLA, 6, true, AddrMode::Absolute),
        0x32 => (Op::HLT, 1, false, AddrMode::Implied),
        0x33 => (Op::RLA, 8, true, AddrMode::IndirectIndexedY(false)),
        0x34 => (Op::NOP, 4, false, AddrMode::ZeropageIndexedX),
        0x37 => (Op::RLA, 6, true, AddrMode::ZeropageIndexedX),
        0x3A => (Op::NOP, 2, false, AddrMode::Implied),
        0x3B => (Op::RLA, 7, true, AddrMode::AbsoluteIndexedY(false)),
        0x3C => (Op::NOP, 5, false, AddrMode::AbsoluteIndexedX(true)),
        0x3F => (Op::RLA, 7, true, AddrMode::AbsoluteIndexedX(false)),
        0x42 => (Op::HLT, 1, false, AddrMode::Implied),
        0x43 => (Op::SRE, 8, true, AddrMode::IndexedIndirectX),
        0x44 => (Op::NOP, 3, false, AddrMode::Implied),
        0x47 => (Op::SRE, 5, true, AddrMode::Zeropage),
        0x4B => (Op::ALR, 2, false, AddrMode::Immediate),
        0x4F => (Op::SRE, 6, true, AddrMode::Absolute),
        0x52 => (Op::HLT, 1, false, AddrMode::Implied),
        0x53 => (Op::SRE, 8, true, AddrMode::IndirectIndexedY(false)),
        0x54 => (Op::NOP, 4, false, AddrMode::ZeropageIndexedX),
        0x57 => (Op::SRE, 6, true, AddrMode::ZeropageIndexedX),
        0x5A => (Op::NOP, 2, false, AddrMode::Implied),
        0x5B => (Op::SRE, 7, true, AddrMode::AbsoluteIndexedY(false)),
        0x5C => (Op::NOP, 5, false, AddrMode::AbsoluteIndexedX(true)),
        0x5F => (Op::SRE, 7, true, AddrMode::AbsoluteIndexedX(false)),
        0x62 => (Op::HLT, 1, false, AddrMode::Implied),
        0x63 => (Op::RRA, 8, true, AddrMode::IndexedIndirectX),
        0x64 => (Op::NOP, 3, false, AddrMode::Zeropage),
        0x67 => (Op::RRA, 5, true, AddrMode::Zeropage),
        0x6B => (Op::ARR, 2, false, AddrMode::Implied),
        0x6F => (Op::RRA, 6, true, AddrMode::Absolute),
        0x72 => (Op::HLT, 1, false, AddrMode::Implied),
        0x73 => (Op::RRA, 8, false, AddrMode::IndirectIndexedY(false)),
        0x74 => (Op::NOP, 4, false, AddrMode::ZeropageIndexedX),
        0x77 => (Op::RRA, 6, true, AddrMode::ZeropageIndexedX),
        0x7A => (Op::NOP, 2, false, AddrMode::Implied),
        0x7B => (Op::RRA, 7, true, AddrMode::AbsoluteIndexedY(false)),
        0x7C => (Op::NOP, 5, false, AddrMode::AbsoluteIndexedX(true)),
        0x7F => (Op::RRA, 7, true, AddrMode::AbsoluteIndexedX(false)),
        0x80 => (Op::NOP, 2, false, AddrMode::Immediate),
        0x82 => (Op::NOP, 2, false, AddrMode::Immediate),
        0x83 => (Op::SAX, 6, false, AddrMode::IndexedIndirectX),
        0x87 => (Op::SAX, 3, false, AddrMode::Zeropage),
        0x89 => (Op::NOP, 2, false, AddrMode::Immediate),
        0x8B => (Op::XAA, 2, false, AddrMode::Immediate),
        0x8F => (Op::SAX, 4, false, AddrMode::Absolute),
        0x92 => (Op::HLT, 1, false, AddrMode::Implied),
        0x93 => (Op::AHX, 6, false, AddrMode::IndirectIndexedY(false)),
        0x97 => (Op::SAX, 4, false, AddrMode::ZeropageIndexedY),
        0x9B => (Op::TAS, 5, false, AddrMode::AbsoluteIndexedY(false)),
        0x9C => (Op::SHY, 5, false, AddrMode::AbsoluteIndexedX(false)),
        0x9E => (Op::SHX, 5, false, AddrMode::AbsoluteIndexedY(false)),
        0x9F => (Op::AHX, 5, false, AddrMode::AbsoluteIndexedY(false)),
        0xA3 => (Op::LAX, 6, false, AddrMode::IndexedIndirectX),
        0xA7 => (Op::LAX, 3, false, AddrMode::Zeropage),
        0xAB => (Op::LAX, 2, false, AddrMode::Immediate),
        0xAF => (Op::LAX, 4, false, AddrMode::Absolute),
        0xB2 => (Op::HLT, 1, false, AddrMode::Implied),
        0xB3 => (Op::LAX, 6, false, AddrMode::IndirectIndexedY(true)),
        0xB7 => (Op::LAX, 4, false, AddrMode::ZeropageIndexedY),
        0xBB => (Op::LAS, 5, false, AddrMode::AbsoluteIndexedY(true)),
        0xBF => (Op::LAX, 5, false, AddrMode::AbsoluteIndexedY(true)),
        0xC2 => (Op::NOP, 2, false, AddrMode::Immediate),
        0xC3 => (Op::DCP, 8, true, AddrMode::IndexedIndirectX),
        0xC7 => (Op::DCP, 5, true, AddrMode::Zeropage),
        0xCB => (Op::AXS, 2, false, AddrMode::Immediate),
        0xCF => (Op::DCP, 6, true, AddrMode::Absolute),
        0xD2 => (Op::HLT, 1, false, AddrMode::Implied),
        0xD3 => (Op::DCP, 8, true, AddrMode::IndirectIndexedY(false)),
        0xD4 => (Op::NOP, 4, false, AddrMode::ZeropageIndexedX),
        0xD7 => (Op::DCP, 6, true, AddrMode::ZeropageIndexedX),
        0xDA => (Op::NOP, 2, false, AddrMode::Implied),
        0xDB => (Op::DCP, 7, true, AddrMode::AbsoluteIndexedY(false)),
        0xDC => (Op::NOP, 5, false, AddrMode::AbsoluteIndexedX(true)),
        0xDF => (Op::DCP, 7, true, AddrMode::AbsoluteIndexedX(false)),
        0xE2 => (Op::NOP, 2, false, AddrMode::Immediate),
        0xE3 => (Op::ISC, 8, true, AddrMode::IndexedIndirectX),
        0xE7 => (Op::ISC, 5, true, AddrMode::Zeropage),
        0xEB => (Op::SBC, 2, false, AddrMode::Immediate),
        0xEF => (Op::ISC, 6, true, AddrMode::Absolute),
        0xF2 => (Op::HLT, 1, false, AddrMode::Implied),
        0xF3 => (Op::ISC, 8, true, AddrMode::IndirectIndexedY(false)),
        0xF4 => (Op::NOP, 4, false, AddrMode::ZeropageIndexedX),
        0xF7 => (Op::ISC, 6, true, AddrMode::ZeropageIndexedX),
        0xFA => (Op::NOP, 2, false, AddrMode::Implied),
        0xFB => (Op::ISC, 7, true, AddrMode::AbsoluteIndexedY(false)),
        0xFC => (Op::NOP, 5, false, AddrMode::AbsoluteIndexedX(true)),
        0xFF => (Op::ISC, 7, true, AddrMode::AbsoluteIndexedX(false)),
    }
}

/// Decodes an opcode; every one of the 256 opcodes has an entry.
pub fn get_instruction(opcode: u8) -> (r: Option<(Op, u8, bool, AddrMode)>)
    ensures
        r == Some(spec_decode(opcode)),
{
    match opcode {
        0x00 => Some((Op::BRK, 7, false, AddrMode::Implied)),
        0x01 => Some((Op::ORA, 6, false, AddrMode::IndexedIndirectX)),
        0x05 => Some((Op::ORA, 3, false, AddrMode::Zeropage)),
        0x06 => Some((Op::ASL, 5, true, AddrMode::Zeropage)),
        0x08 => Some((Op::PHP, 3, false, AddrMode::Implied)),
        0x09 => Some((Op::ORA, 2, false, AddrMode::Immediate)),
        0x0A => Some((Op::ASL, 2, false, AddrMode::Accumulator)),
        0x0D => Some((Op::ORA, 4, false, AddrMode::Absolute)),
        0x0E => Some((Op::ASL, 6, true, AddrMode::Absolute)),
        0x10 => Some((Op::BPL, 4, false, AddrMode::Relative)),
        0x11 => Some((Op::ORA, 6, false, AddrMode::IndirectIndexedY(true))),
        0x15 => Some((Op::ORA, 4, false, AddrMode::ZeropageIndexedX)),
        0x16 => Some((Op::ASL, 6, true, AddrMode::ZeropageIndexedX)),
        0x18 => Some((Op::CLC, 2, false, AddrMode::Implied)),
        0x19 => Some((Op::ORA, 5, false, AddrMode::AbsoluteIndexedY(true))),
        0x1D => Some((Op::ORA, 5, false, AddrMode::AbsoluteIndexedX(true))),
        0x1E => Some((Op::ASL, 7, true, AddrMode::AbsoluteIndexedX(false))),
        0x20 => Some((Op::JSR, 6, false, AddrMode::Absolute)),
        0x21 => Some((Op::AND, 6, false, AddrMode::IndexedIndirectX)),
        0x24 => Some((Op::BIT, 3, false, AddrMode::Zeropage)),
        0x25 => Some((Op::AND, 3, false, AddrMode::Zeropage)),
        0x26 => Some((Op::ROL, 5, true, AddrMode::Zeropage)),
        0x28 => Some((Op::PLP, 4, false, AddrMode::Implied)),
        0x29 => Some((Op::AND, 2, false, AddrMode::Immediate)),
        0x2A => Some((Op::ROL, 2, false, AddrMode::Accumulator)),
        0x2C => Some((Op::BIT, 4, false, AddrMode::Absolute)),
        0x2D => Some((Op::AND, 4, false, AddrMode::Absolute)),
        0x2E => Some((Op::ROL, 6, true, AddrMode::Absolute)),
        0x30 => Some((Op::BMI, 4, false, AddrMode::Relative)),
        0x31 => Some((Op::AND, 6, false, AddrMode::IndirectIndexedY(true))),
        0x35 => Some((Op::AND, 4, false, AddrMode::ZeropageIndexedX)),
        0x36 => Some((Op::ROL, 6, true, AddrMode::ZeropageIndexedX)),
        0x38 => Some((Op::SEC, 2, false, AddrMode::Implied)),
        0x39 => Some((Op::AND, 5, false, AddrMode::AbsoluteIndexedY(true))),
        0x3D => Some((Op::AND, 5, false, AddrMode::AbsoluteIndexedX(true))),
        0x3E => Some((Op::ROL, 7, true, AddrMode::AbsoluteIndexedX(false))),
        0x40 => Some((Op::RTI, 6, false, AddrMode::Implied)),
        0x41 => Some((Op::EOR, 6, false, AddrMode::IndexedIndirectX)),
        0x45 => Some((Op::EOR, 3, false, AddrMode::Zeropage)),
        0x46 => Some((Op::LSR, 5, true, AddrMode::Zeropage)),
        0x48 => Some((Op::PHA, 3, false, AddrMode::Implied)),
        0x49 => Some((Op::EOR, 2, false, AddrMode::Immediate)),
        0x4A => Some((Op::LSR, 2, false, AddrMode::Accumulator)),
        0x4C => Some((Op::JMP, 3, false, AddrMode::Absolute)),
        0x4D => Some((Op::EOR, 4, false, AddrMode::Absolute)),
        0x4E => Some((Op::LSR, 6, true, AddrMode::Absolute)),
        0x50 => Some((Op::BVC, 4, false, AddrMode::Relative)),
        0x51 => Some((Op::EOR, 6, false, AddrMode::IndirectIndexedY(true))),
        0x55 => Some((Op::EOR, 4, false, AddrMode::ZeropageIndexedX)),
        0x56 => Some((Op::LSR, 6, true, AddrMode::ZeropageIndexedX)),
        0x58 => Some((Op::CLI, 2, false, AddrMode::Implied)),
        0x59 => Some((Op::EOR, 5, false, AddrMode::AbsoluteIndexedY(true))),
        0x5D => Some((Op::EOR, 5, false, AddrMode::AbsoluteIndexedX(true))),
        0x5E => Some((Op::LSR, 7, true, AddrMode::AbsoluteIndexedX(false))),
        0x60 => Some((Op::RTS, 6, false, AddrMode::Implied)),
        0x61 => Some((Op::ADC, 6, false, AddrMode::IndexedIndirectX)),
        0x65 => Some((Op::ADC, 3, false, AddrMode::Zeropage)),
        0x66 => Some((Op::ROR, 5, true, AddrMode::Zeropage)),
        0x68 => Some((Op::PLA, 4, false, AddrMode::Implied)),
        0x69 => Some((Op::ADC, 2, false, AddrMode::Immediate)),
        0x6A => Some((Op::ROR, 2, false, AddrMode::Accumulator)),
        0x6C => Some((Op::JMP, 5, false, AddrMode::Indirect)),
        0x6D => Some((Op::ADC, 4, false, AddrMode::Absolute)),
        0x6E => Some((Op::ROR, 6, true, AddrMode::Absolute)),
        0x70 => Some((Op::BVS, 4, false, AddrMode::Relative)),
        0x71 => Some((Op::ADC, 6, false, AddrMode::IndirectIndexedY(true))),
        0x75 => Some((Op::ADC, 4, false, AddrMode::ZeropageIndexedX)),
        0x76 => Some((Op::ROR, 6, true, AddrMode::ZeropageIndexedX)),
        0x78 => Some((Op::SEI, 2, false, AddrMode::Implied)),
        0x79 => Some((Op::ADC, 5, false, AddrMode::AbsoluteIndexedY(true))),
        0x7D => Some((Op::ADC, 5, false, AddrMode::AbsoluteIndexedX(true))),
        0x7E => Some((Op::ROR, 7, true, AddrMode::AbsoluteIndexedX(false))),
        0x81 => Some((Op::STA, 6, false, AddrMode::IndexedIndirectX)),
        0x84 => Some((Op::STY, 3, false, AddrMode::Zeropage)),
        0x85 => Some((Op::STA, 3, false, AddrMode::Zeropage)),
        0x86 => Some((Op::STX, 3, false, AddrMode::Zeropage)),
        0x88 => Some((Op::DEY, 2, false, AddrMode::Implied)),
        0x8A => Some((Op::TXA, 2, false, AddrMode::Implied)),
        0x8C => Some((Op::STY, 4, false, AddrMode::Absolute)),
        0x8D => Some((Op::STA, 4, false, AddrMode::Absolute)),
        0x8E => Some((Op::STX, 4, false, AddrMode::Absolute)),
        0x90 => Some((Op::BCC, 4, false, AddrMode::Relative)),
        0x91 => Some((Op::STA, 6, false, AddrMode::IndirectIndexedY(false))),
        0x94 => Some((Op::STY, 4, false, AddrMode::ZeropageIndexedX)),
        0x95 => Some((Op::STA, 4, false, AddrMode::ZeropageIndexedX)),
        0x96 => Some((Op::STX, 4, false, AddrMode::ZeropageIndexedY)),
        0x98 => Some((Op::TYA, 2, false, AddrMode::Implied)),
        0x99 => Some((Op::STA, 5, false, AddrMode::AbsoluteIndexedY(false))),
        0x9A => Some((Op::TXS, 2, false, AddrMode::Implied)),
        0x9D => Some((Op::STA, 5, false, AddrMode::AbsoluteIndexedX(false))),
        0xA0 => Some((Op::LDY, 2, false, AddrMode::Immediate)),
        0xA1 => Some((Op::LDA, 6, false, AddrMode::IndexedIndirectX)),
        0xA2 => Some((Op::LDX, 2, false, AddrMode::Immediate)),
        0xA4 => Some((Op::LDY, 3, false, AddrMode::Zeropage)),
        0xA5 => Some((Op::LDA, 3, false, AddrMode::Zeropage)),
        0xA6 => Some((Op::LDX, 3, false, AddrMode::Zeropage)),
        0xA8 => Some((Op::TAY, 2, false, AddrMode::Implied)),
        0xA9 => Some((Op::LDA, 2, false, AddrMode::Immediate)),
        0xAA => Some((Op::TAX, 2, false, AddrMode::Implied)),
        0xAC => Some((Op::LDY, 4, false, AddrMode::Absolute)),
        0xAD => Some((Op::LDA, 4, false, AddrMode::Absolute)),
        0xAE => Some((Op::LDX, 4, false, AddrMode::Absolute)),
        0xB0 => Some((Op::BCS, 4, false, AddrMode::Relative)),
        0xB1 => Some((Op::LDA, 6, false, AddrMode::IndirectIndexedY(true))),
        0xB4 => Some((Op::LDY, 4, false, AddrMode::ZeropageIndexedX)),
        0xB5 => Some((Op::LDA, 4, false, AddrMode::ZeropageIndexedX)),
        0xB6 => Some((Op::LDX, 4, false, AddrMode::ZeropageIndexedY)),
        0xB8 => Some((Op::CLV, 2, false, AddrMode::Implied)),
        0xB9 => Some((Op::LDA, 5, false, AddrMode::AbsoluteIndexedY(true))),
        0xBA => Some((Op::TSX, 2, false, AddrMode::Implied)),
        0xBC => Some((Op::LDY, 5, false, AddrMode::AbsoluteIndexedX(true))),
        0xBD => Some((Op::LDA, 5, false, AddrMode::AbsoluteIndexedX(true))),
        0xBE => Some((Op::LDX, 5, false, AddrMode::AbsoluteIndexedY(true))),
        0xC0 => Some((Op::CPY, 2, false, AddrMode::Immediate)),
        0xC1 => Some((Op::CMP, 6, false, AddrMode::IndexedIndirectX)),
        0xC4 => Some((Op::CPY, 3, false, AddrMode::Zeropage)),
        0xC5 => Some((Op::CMP, 3, false, AddrMode::Zeropage)),
        0xC6 => Some((Op::DEC, 5, true, AddrMode::Zeropage)),
        0xC8 => Some((Op::INY, 2, false, AddrMode::Implied)),
        0xC9 => Some((Op::CMP, 2, false, AddrMode::Immediate)),
        0xCA => Some((Op::DEX, 2, false, AddrMode::Implied)),
        0xCC => Some((Op::CPY, 4, false, AddrMode::Absolute)),
        0xCD => Some((Op::CMP, 4, false, AddrMode::Absolute)),
        0xCE => Some((Op::DEC, 6, true, AddrMode::Absolute)),
        0xD0 => Some((Op::BNE, 4, false, AddrMode::Relative)),
        0xD1 => Some((Op::CMP, 6, false, AddrMode::IndirectIndexedY(true))),
        0xD5 => Some((Op::CMP, 4, false, AddrMode::ZeropageIndexedX)),
        0xD6 => Some((Op::DEC, 6, true, AddrMode::ZeropageIndexedX)),
        0xD8 => Some((Op::CLD, 2, false, AddrMode::Implied)),
        0xD9 => Some((Op::CMP, 5, false, AddrMode::AbsoluteIndexedY(true))),
        0xDD => Some((Op::CMP, 5, false, AddrMode::AbsoluteIndexedX(true))),
        0xDE => Some((Op::DEC, 7, true, AddrMode::AbsoluteIndexedX(false))),
        0xE0 => Some((Op::CPX, 2, false, AddrMode::Immediate)),
        0xE1 => Some((Op::SBC, 6, false, AddrMode::IndexedIndirectX)),
        0xE4 => Some((Op::CPX, 3, false, AddrMode::Zeropage)),
        0xE5 => Some((Op::SBC, 3, false, AddrMode::Zeropage)),
        0xE6 => Some((Op::INC, 5, true, AddrMode::Zeropage)),
        0xE8 => Some((Op::INX, 2, false, AddrMode::Implied)),
        0xE9 => Some((Op::SBC, 2, false, AddrMode::Immediate)),
        0xEA => Some((Op::NOP, 2, false, AddrMode::Implied)),
        0xEC => Some((Op::CPX, 4, false, AddrMode::Absolute)),
        0xED => Some((Op::SBC, 4, false, AddrMode::Absolute)),
        0xEE => Some((Op::INC, 6, true, AddrMode::Absolute)),
        0xF0 => Some((Op::BEQ, 4, false, AddrMode::Relative)),
        0xF1 => Some((Op::SBC, 6, false, AddrMode::IndirectIndexedY(true))),
        0xF5 => Some((Op::SBC, 4, false, AddrMode::ZeropageIndexedX)),
        0xF6 => Some((Op::INC, 6, true, AddrMode::ZeropageIndexedX)),
        0xF8 => Some((Op::SED, 2, false, AddrMode::Implied)),
        0xF9 => Some((Op::SBC, 5, false, AddrMode::AbsoluteIndexedY(true))),
        0xFD => Some((Op::SBC, 5, false, AddrMode::AbsoluteIndexedX(true))),
        0xFE => Some((Op::INC, 7, true, AddrMode::AbsoluteIndexedX(false))),
        0x02 => Some((Op::HLT, 1, false, AddrMode::Implied)),
        0x03 => Some((Op::SLO, 8, true, AddrMode::IndexedIndirectX)),
        0x04 => Some((Op::NOP, 3, false, AddrMode::Zeropage)),
        0x07 => Some((Op::SLO, 5, true, AddrMode::Zeropage)),
        0x0B => Some((Op::ANC, 2, false, AddrMode::Immediate)),
        0x0C => Some((Op::NOP, 4, false, AddrMode::Absolute)),
        0x0F => Some((Op::SLO, 6, true, AddrMode::Absolute)),
        0x12 => Some((Op::HLT, 1, false, AddrMode::Implied)),
        0x13 => Some((Op::SLO, 8, true, AddrMode::IndirectIndexedY(false))),
        0x14 => Some((Op::NOP, 4, false, AddrMode::ZeropageIndexedX)),
        0x17 => Some((Op::SLO, 6, true, AddrMode::ZeropageIndexedX)),
        0x1A => Some((Op::NOP, 2, false, AddrMode::Implied)),
        0x1B => Some((Op::SLO, 7, true, AddrMode::AbsoluteIndexedY(false))),
        0x1C => Some((Op::NOP, 5, false, AddrMode::AbsoluteIndexedX(true))),
        0x1F => Some((Op::SLO, 7, true, AddrMode::AbsoluteIndexedX(false))),
        0x22 => Some((Op::HLT, 1, false, AddrMode::Implied)),
        0x23 => Some((Op::RLA, 8, true, AddrMode::IndexedIndirectX)),
        0x27 => Some((Op::RLA, 5, true, AddrMode::Zeropage)),
        0x2B => Some((Op::ANC, 2, false, AddrMode::Immediate)),
        0x2F => Some((Op::RLA, 6, true, AddrMode::Absolute)),
        0x32 => Some((Op::HLT, 1, false, AddrMode::Implied)),
        0x33 => Some((Op::RLA, 8, true, AddrMode::IndirectIndexedY(false))),
        0x34 => Some((Op::NOP, 4, false, AddrMode::ZeropageIndexedX)),
        0x37 => Some((Op::RLA, 6, true, AddrMode::ZeropageIndexedX)),
        0x3A => Some((Op::NOP, 2, false, AddrMode::Implied)),
        0x3B => Some((Op::RLA, 7, true, AddrMode::AbsoluteIndexedY(false))),
        0x3C => Some((Op::NOP, 5, false, AddrMode::AbsoluteIndexedX(true))),
        0x3F => Some((Op::RLA, 7, true, AddrMode::AbsoluteIndexedX(false))),
        0x42 => Some((Op::HLT, 1, false, AddrMode::Implied)),
        0x43 => Some((Op::SRE, 8, true, AddrMode::IndexedIndirectX)),
        0x44 => Some((Op::NOP, 3, false, AddrMode::Implied)),
        0x47 => Some((Op::SRE, 5, true, AddrMode::Zeropage)),
        0x4B => Some((Op::ALR, 2, false, AddrMode::Immediate)),
        0x4F => Some((Op::SRE, 6, true, AddrMode::Absolute)),
        0x52 => Some((Op::HLT, 1, false, AddrMode::Implied)),
        0x53 => Some((Op::SRE, 8, true, AddrMode::IndirectIndexedY(false))),
        0x54 => Some((Op::NOP, 4, false, AddrMode::ZeropageIndexedX)),
        0x57 => Some((Op::SRE, 6, true, AddrMode::ZeropageIndexedX)),
        0x5A => Some((Op::NOP, 2, false, AddrMode::Implied)),
        0x5B => Some((Op::SRE, 7, true, AddrMode::AbsoluteIndexedY(false))),
        0x5C => Some((Op::NOP, 5, false, AddrMode::AbsoluteIndexedX(true))),
        0x5F => Some((Op::SRE, 7, true, AddrMode::AbsoluteIndexedX(false))),
        0x62 => Some((Op::HLT, 1, false, AddrMode::Implied)),
        0x63 => Some((Op::RRA, 8, true, AddrMode::IndexedIndirectX)),
        0x64 => Some((Op::NOP, 3, false, AddrMode::Zeropage)),
        0x67 => Some((Op::RRA, 5, true, AddrMode::Zeropage)),
        0x6B => Some((Op::ARR, 2, false, AddrMode::Implied)),
        0x6F => Some((Op::RRA, 6, true, AddrMode::Absolute)),
        0x72 => Some((Op::HLT, 1, false, AddrMode::Implied)),
        0x73 => Some((Op::RRA, 8, false, AddrMode::IndirectIndexedY(false))),
        0x74 => Some((Op::NOP, 4, false, AddrMode::ZeropageIndexedX)),
        0x77 => Some((Op::RRA, 6, true, AddrMode::ZeropageIndexedX)),
        0x7A => Some((Op::NOP, 2, false, AddrMode::Implied)),
        0x7B => Some((Op::RRA, 7, true, AddrMode::AbsoluteIndexedY(false))),
        0x7C => Some((Op::NOP, 5, false, AddrMode::AbsoluteIndexedX(true))),
        0x7F => Some((Op::RRA, 7, true, AddrMode::AbsoluteIndexedX(false))),
        0x80 => Some((Op::NOP, 2, false, AddrMode::Immediate)),
        0x82 => Some((Op::NOP, 2, false, AddrMode::Immediate)),
        0x83 => Some((Op::SAX, 6, false, AddrMode::IndexedIndirectX)),
        0x87 => Some((Op::SAX, 3, false, AddrMode::Zeropage)),
        0x89 => Some((Op::NOP, 2, false, AddrMode::Immediate)),
        0x8B => Some((Op::XAA, 2, false, AddrMode::Immediate)),
        0x8F => Some((Op::SAX, 4, false, AddrMode::Absolute)),
        0x92 => Some((Op::HLT, 1, false, AddrMode::Implied)),
        0x93 => Some((Op::AHX, 6, false, AddrMode::IndirectIndexedY(false))),
        0x97 => Some((Op::SAX, 4, false, AddrMode::ZeropageIndexedY)),
        0x9B => Some((Op::TAS, 5, false, AddrMode::AbsoluteIndexedY(false))),
        0x9C => Some((Op::SHY, 5, false, AddrMode::AbsoluteIndexedX(false))),
        0x9E => Some((Op::SHX, 5, false, AddrMode::AbsoluteIndexedY(false))),
        0x9F => Some((Op::AHX, 5, false, AddrMode::AbsoluteIndexedY(false))),
        0xA3 => Some((Op::LAX, 6, false, AddrMode::IndexedIndirectX)),
        0xA7 => Some((Op::LAX, 3, false, AddrMode::Zeropage)),
        0xAB => Some((Op::LAX, 2, false, AddrMode::Immediate)),
        0xAF => Some((Op::LAX, 4, false, AddrMode::Absolute)),
        0xB2 => Some((Op::HLT, 1, false, AddrMode::Implied)),
        0xB3 => Some((Op::LAX, 6, false, AddrMode::IndirectIndexedY(true))),
        0xB7 => Some((Op::LAX, 4, false, AddrMode::ZeropageIndexedY)),
        0xBB => Some((Op::LAS, 5, false, AddrMode::AbsoluteIndexedY(true))),
        0xBF => Some((Op::LAX, 5, false, AddrMode::AbsoluteIndexedY(true))),
        0xC2 => Some((Op::NOP, 2, false, AddrMode::Immediate)),
        0xC3 => Some((Op::DCP, 8, true, AddrMode::IndexedIndirectX)),
        0xC7 => Some((Op::DCP, 5, true, AddrMode::Zeropage)),
        0xCB => Some((Op::AXS, 2, false, AddrMode::Immediate)),
        0xCF => Some((Op::DCP, 6, true, AddrMode::Absolute)),
        0xD2 => Some((Op::HLT, 1, false, AddrMode::Implied)),
        0xD3 => Some((Op::DCP, 8, true, AddrMode::IndirectIndexedY(false))),
        0xD4 => Some((Op::NOP, 4, false, AddrMode::ZeropageIndexedX)),
        0xD7 => Some((Op::DCP, 6, true, AddrMode::ZeropageIndexedX)),
        0xDA => Some((Op::NOP, 2, false, AddrMode::Implied)),
        0xDB => Some((Op::DCP, 7, true, AddrMode::AbsoluteIndexedY(false))),
        0xDC => Some((Op::NOP, 5, false, AddrMode::AbsoluteIndexedX(true))),
        0xDF => Some((Op::DCP, 7, true, AddrMode::AbsoluteIndexedX(false))),
        0xE2 => Some((Op::NOP, 2, false, AddrMode::Immediate)),
        0xE3 => Some((Op::ISC, 8, true, AddrMode::IndexedIndirectX)),
        0xE7 => Some((Op::ISC, 5, true, AddrMode::Zeropage)),
        0xEB => Some((Op::SBC, 2, false, AddrMode::Immediate)),
        0xEF => Some((Op::ISC, 6, true, AddrMode::Absolute)),
        0xF2 => Some((Op::HLT, 1, false, AddrMode::Implied)),
        0xF3 => Some((Op::ISC, 8, true, AddrMode::IndirectIndexedY(false))),
        0xF4 => Some((Op::NOP, 4, false, AddrMode::ZeropageIndexedX)),
        0xF7 => Some((Op::ISC, 6, true, AddrMode::ZeropageIndexedX)),
        0xFA => Some((Op::NOP, 2, false, AddrMode::Implied)),
        0xFB => Some((Op::ISC, 7, true, AddrMode::AbsoluteIndexedY(false))),
        0xFC => Some((Op::NOP, 5, false, AddrMode::AbsoluteIndexedX(true))),
        0xFF => Some((Op::ISC, 7, true, AddrMode::AbsoluteIndexedX(false))),
    }
}

/// An operand-reading operation run while it holds the bus, with its operand byte fixed
/// to `m`, sets the registers as `alu_regs` says for `m`; SP stays.
proof fn lemma_alu_run_regs(o: CPU, ob: Bus, n: CPU, nb: Bus, r: Result<bool, CpuFault>, m: u8)
    requires
        run_effect(o, ob, n, nb, r),
        is_alu_op(o.instruction.opcode),
        !o.ba_low,
        has_operand(o),
        forall|v: u8| #[trigger] operand_candidate(o, ob, v) ==> v == m,
    ensures
        (n.a, n.x, n.y, n.p) == alu_regs(o.instruction.opcode, o.a, o.x, o.y, o.p, m),
        n.sp == o.sp,
        r == Ok::<bool, CpuFault>(n.instruction.cycles_to_run == 0),
{
    reveal(alu_effect);
    let v = choose|v: u8| #[trigger] operand_candidate(o, ob, v)
        && (n.a, n.x, n.y, n.p) == alu_regs(o.instruction.opcode, o.a, o.x, o.y, o.p, v);
    assert(v == m);
}

/// Law: a load (LDA, LDX, LDY) run while it holds the bus, whose operand byte is `m`,
/// puts `m` into its register, sets Z exactly when `m` is 0 and N to bit 7 of `m`, and
/// keeps the other flags, the other two registers and SP.
pub proof fn lemma_load_run(o: CPU, ob: Bus, n: CPU, nb: Bus, r: Result<bool, CpuFault>, m: u8)
    requires
        run_effect(o, ob, n, nb, r),
        o.instruction.opcode == Op::LDA || o.instruction.opcode == Op::LDX || o.instruction.opcode == Op::LDY,
        !o.ba_low,
        has_operand(o),
        forall|v: u8| #[trigger] operand_candidate(o, ob, v) ==> v == m,
    ensures
        o.instruction.opcode == Op::LDA ==> n.a == m && n.x == o.x && n.y == o.y,
        o.instruction.opcode == Op::LDX ==> n.a == o.a && n.x == m && n.y == o.y,
        o.instruction.opcode == Op::LDY ==> n.a == o.a && n.x == o.x && n.y == m,
        ((n.p & 0x02) != 0) == (m == 0),
        ((n.p & 0x80) != 0) == ((m & 0x80) != 0),
        n.p & 0x7D == o.p & 0x7D,
        n.sp == o.sp,
{
    lemma_alu_run_regs(o, ob, n, nb, r, m);
    lemma_load_flags(o.instruction.opcode, o.a, o.x, o.y, o.p, m);
}

/// Law: a compare (CMP with A, CPX with X, CPY with Y) run while it holds the bus, whose
/// operand byte is `m`, sets C exactly when the register is at least `m`, Z exactly when
/// they are equal and N to bit 7 of their difference; A, X, Y, SP and the other flags stay.
pub proof fn lemma_compare_run(o: CPU, ob: Bus, n: CPU, nb: Bus, r: Result<bool, CpuFault>, m: u8)
    requires
        run_effect(o, ob, n, nb, r),
        o.instruction.opcode == Op::CMP || o.instruction.opcode == Op::CPX || o.instruction.opcode == Op::CPY,
        !o.ba_low,
        has_operand(o),
        forall|v: u8| #[trigger] operand_candidate(o, ob, v) ==> v == m,
    ensures
        ({
            let reg = if o.instruction.opcode == Op::CMP { o.a } else if o.instruction.opcode == Op::CPX {
                o.x } else { o.y };
            &&& n.a == o.a && n.x == o.x && n.y == o.y && n.sp == o.sp
            &&& ((n.p & 0x01) != 0) == (reg >= m)
            &&& ((n.p & 0x02) != 0) == (reg == m)
            &&& ((n.p & 0x80) != 0) == ((sub8(reg, m) & 0x80) != 0)
            &&& n.p & 0x7C == o.p & 0x7C
        }),
{
    lemma_alu_run_regs(o, ob, n, nb, r, m);
    lemma_compare_flags(o.instruction.opcode, o.a, o.x, o.y, o.p, m);
}

/// Law: EOR run while it holds the bus, whose operand byte is `m`, leaves in A the
/// bitwise exclusive or of the old A and `m` (each bit set exactly when the two bits
/// differ), sets Z and N from that result and keeps X, Y, SP and the other flags.
pub proof fn lemma_eor_run(o: CPU, ob: Bus, n: CPU, nb: Bus, r: Result<bool, CpuFault>, m: u8)
    requires
        run_effect(o, ob, n, nb, r),
        o.instruction.opcode == Op::EOR,
        !o.ba_low,
        has_operand(o),
        forall|v: u8| #[trigger] operand_candidate(o, ob, v) ==> v == m,
    ensures
        forall|i: u8| #![trigger (n.a >> i)] i < 8 ==> (((n.a >> i) & 1) == 1) == (((o.a >> i) & 1) != ((m >> i) & 1)),
        n.x == o.x && n.y == o.y && n.sp == o.sp,
        ((n.p & 0x02) != 0) == (n.a == 0),
        ((n.p & 0x80) != 0) == ((n.a & 0x80) != 0),
        n.p & 0x7D == o.p & 0x7D,
{
    lemma_alu_run_regs(o, ob, n, nb, r, m);
    lemma_eor_bits(o.a, o.x, o.y, o.p, m);
}

/// Law: a branch whose execution starts with three cycles to run and is never held by BA
/// ends after one cycle when it is not taken (PC stays), after two when it is taken to a
/// target in the same page, and after three when the target lies in another page; a
/// taken branch ends with PC at the target, and every earlier cycle reports "not done".
pub proof fn lemma_branch_timing(
    o: CPU, ob: Bus,
    n1: CPU, nb1: Bus, r1: Result<bool, CpuFault>,
    n2: CPU, nb2: Bus, r2: Result<bool, CpuFault>,
    n3: CPU, nb3: Bus, r3: Result<bool, CpuFault>,
)
    requires
        is_branch_op(o.instruction.opcode),
        o.instruction.cycles_to_run == 3,
        !o.ba_low,
        run_effect(o, ob, n1, nb1, r1),
        r1 == Ok::<bool, CpuFault>(false) ==> run_effect(n1, nb1, n2, nb2, r2),
        r1 == Ok::<bool, CpuFault>(false) && r2 == Ok::<bool, CpuFault>(false) ==> run_effect(n2, nb2, n3, nb3, r3),
    ensures
        ({
            let target = o.instruction.operand_addr;
            let taken = branch_taken(o.instruction.opcode, o.p);
            let same_page = (target >> 8) == (o.pc >> 8);
            &&& !taken ==> r1 == Ok::<bool, CpuFault>(true) && n1.pc == o.pc
            &&& taken && same_page ==> r1 == Ok::<bool, CpuFault>(false) && r2 == Ok::<bool, CpuFault>(true)
                && n2.pc == target
            &&& taken && !same_page ==> r1 == Ok::<bool, CpuFault>(false) && r2 == Ok::<bool, CpuFault>(false)
                && r3 == Ok::<bool, CpuFault>(true) && n3.pc == target
        }),
{
    reveal(branch_effect);
}

/// Law: every entry of the decoding table leaves room for its operand fetch, its
/// read-modify-write cycles and the opcode fetch, so splitting its cycles never underflows
/// once the previous operand fetch has completed.
pub proof fn lemma_decode_cycles_fit(opcode: u8)
    ensures
        ({
            let (op, total, rmw, mode) = spec_decode(opcode);
            cycles_fit(total, rmw, mode, 0)
        }),
{
}

/// Law: read-modify-write entries always have an operand address to read from and write to.
pub proof fn lemma_decode_rmw_has_address(opcode: u8)
    ensures
        spec_decode(opcode).2 ==> fetch_cycles(spec_decode(opcode).3) > 0,
{
}

} // verus!
