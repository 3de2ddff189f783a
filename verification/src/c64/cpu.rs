// the 6510 CPU: registers, interrupt lines and the cycle-by-cycle state machine
use vstd::prelude::*;
use crate::c64::memory::{Memory, MemoryView, MemType, io_mirror, io_read_value, lemma_read_outside_io_is_pure};
use crate::c64::vic::VIC;
use crate::c64::sid::{SID, SidFault, sid_mirror};
use crate::c64::cia::{CIA, CIACallbackAction};
use crate::c64::opcodes::{Instruction, AddrMode, Op, spec_decode, effective_fetch, get_instruction, fetch_effect, run_effect, fetch_operand_addr, run};
use crate::utils::OpDebugger;

verus! {

pub const NMI_VECTOR: u16 = 0xFFFA;
pub const RESET_VECTOR: u16 = 0xFFFC;
pub const IRQ_VECTOR: u16 = 0xFFFE;

/// Flags of the processor status register P.
#[derive(PartialEq, Eq, Structural, Clone, Copy, Debug)]
pub enum StatusFlag {
    Carry,
    Zero,
    InterruptDisable,
    DecimalMode,
    Break,
    Unused,
    Overflow,
    Negative,
}

/// The bit of P that holds a flag.
pub open spec fn spec_flag_mask(flag: StatusFlag) -> u8 {
    match flag {
        StatusFlag::Carry => 0x01,
        StatusFlag::Zero => 0x02,
        StatusFlag::InterruptDisable => 0x04,
        StatusFlag::DecimalMode => 0x08,
        StatusFlag::Break => 0x10,
        StatusFlag::Unused => 0x20,
        StatusFlag::Overflow => 0x40,
        StatusFlag::Negative => 0x80,
    }
}

/// The bit of P that holds a flag.
pub fn flag_mask(flag: StatusFlag) -> (m: u8)
    ensures
        m == spec_flag_mask(flag),
{
    match flag {
        StatusFlag::Carry => 0x01,
        StatusFlag::Zero => 0x02,
        StatusFlag::InterruptDisable => 0x04,
        StatusFlag::DecimalMode => 0x08,
        StatusFlag::Break => 0x10,
        StatusFlag::Unused => 0x20,
        StatusFlag::Overflow => 0x40,
        StatusFlag::Negative => 0x80,
    }
}

/// Action to perform on the CPU after a VIC or CIA register access.
#[derive(PartialEq, Eq, Structural, Clone, Copy, Debug)]
pub enum Callback {
    Nothing,
    TriggerVICIrq,
    ClearVICIrq,
    TriggerCIAIrq,
    ClearCIAIrq,
    TriggerNMI,
    ClearNMI,
}

/// Phase of the CPU's cycle-by-cycle state machine.
#[derive(PartialEq, Eq, Structural, Clone, Copy, Debug)]
pub enum CPUState {
    FetchOp,
    FetchOperandAddr,
    PerformRMW,
    ProcessIRQ,
    ProcessNMI,
    ExecuteOp,
}


/// The 6510 CPU: registers, interrupt lines and the state of the instruction in flight.
pub struct CPU {
    pub pc: u16,
    pub sp: u8,
    pub p: u8,
    pub a: u8,
    pub x: u8,
    pub y: u8,
    pub instruction: Instruction,
    pub ba_low: bool,
    pub cia_irq: bool,
    pub vic_irq: bool,
    pub irq_cycles_left: u8,
    pub nmi_cycles_left: u8,
    pub first_nmi_cycle: u32,
    pub first_irq_cycle: u32,
    pub state: CPUState,
    pub nmi: bool,
    pub debug_instr: bool,
    pub prev_pc: u16,
    pub op_debugger: OpDebugger,
    pub dfff_byte: u8,
}


/// Why the CPU had to stop: the situations in which the emulation cannot go on.
#[derive(PartialEq, Eq, Structural, Clone, Copy, Debug)]
pub enum CpuFault {
    /// A HLT (jam) opcode was executed; the address is that of the opcode.
    Halt(u16),
    /// An undocumented opcode that is not emulated (XAA, ALR, ARR, AXS, LAS).
    UnknownInstruction,
    /// The instruction's cycle counter was outside the range its operation handles.
    WrongCycleCount,
    /// An operand was read or written in an addressing mode that has none.
    NoOperand,
    /// An indirect vector straddled the end of a memory bank.
    WordAcrossBanks,
    /// A SID control register write selected a waveform above 8.
    ImpossibleWaveform,
}

/// Everything the CPU reaches over its address and data bus.
pub struct Bus {
    pub memory: Memory,
    pub vic: VIC,
    pub sid: SID,
    pub cia1: CIA,
    pub cia2: CIA,
}

impl Bus {
    pub open spec fn wf(&self) -> bool {
        &&& self.memory.wf()
        &&& self.vic.wf()
        &&& self.sid.audio_device.wf()
    }
}

/// The value of the status register after setting or clearing one flag.
pub open spec fn p_with(p: u8, flag: StatusFlag, value: bool) -> u8 {
    if value { p | spec_flag_mask(flag) } else { p & !spec_flag_mask(flag) }
}

/// Whether a flag is set in a status register value.
pub open spec fn p_has(p: u8, flag: StatusFlag) -> bool {
    p & spec_flag_mask(flag) != 0
}

/// The status register after setting Z and N from a result value.
pub open spec fn p_with_zn(p: u8, value: u8) -> u8 {
    p_with(p_with(p, StatusFlag::Zero, value == 0), StatusFlag::Negative, value >= 0x80)
}

/// The byte a CPU read at `addr` gives back, when it is determined by the machine state
/// (`None`: the SID's oscillator 3 and envelope 3 registers, which read a random byte).
pub open spec fn bus_read_value(bus: &Bus, dfff_byte: u8, addr: u16) -> Option<u8> {
    let m = bus.memory@;
    if !m.io_on {
        Some(m.read_value(addr))
    } else if 0xD000 <= addr <= 0xD3FF {
        Some(bus.vic.reg_value(m.io.data, addr))
    } else if 0xD400 <= addr <= 0xD7FF {
        let a = sid_mirror(addr);
        if a == 0xD419 || a == 0xD41A {
            Some(0xFFu8)
        } else if a == 0xD41B || a == 0xD41C {
            None
        } else {
            Some(0u8)
        }
    } else if 0xD800 <= addr <= 0xDBFF {
        Some((m.read_value(addr) & 0x0F) | (bus.vic.last_byte & 0xF0))
    } else if 0xDC00 <= addr <= 0xDDFF {
        Some(0u8)
    } else if 0xDF00 <= addr <= 0xDF9F {
        Some(bus.vic.last_byte)
    } else if addr == 0xDFFF {
        Some(!dfff_byte)
    } else {
        Some(m.read_value(addr))
    }
}

/// Whether a CPU read at `addr` is answered by memory alone (no chip register involved).
pub open spec fn is_plain_read(m: MemoryView, addr: u16) -> bool {
    !m.io_on || !(0xD000 <= addr <= 0xDDFF || 0xDF00 <= addr <= 0xDF9F || addr == 0xDFFF)
}

/// The memory after a CPU write of `value` at `addr` that does not go to the VIC or SID.
pub open spec fn bus_plain_write(m: MemoryView, addr: u16, value: u8) -> MemoryView {
    if m.io_on && 0xD800 <= addr <= 0xDBFF {
        m.after_write(addr, value & 0x0F)
    } else {
        m.after_write(addr, value)
    }
}

/// Whether a CPU write at `addr` goes to RAM, color RAM or a ROM (not to the VIC, SID or CIAs).
pub open spec fn is_plain_write(m: MemoryView, addr: u16) -> bool {
    !m.io_on || !(0xD000 <= addr <= 0xD7FF || 0xDC00 <= addr <= 0xDDFF)
}

/// A CPU write of `value` at `addr` took bus `ob` and CPU `oc` to `nb` and `nc` with result
/// `r`: RAM, color RAM and ROM areas take a plain write; the VIC, SID and CIA areas (with
/// I/O visible) go to the chips, and a VIC write may raise or clear the VIC interrupt line.
pub open spec fn bus_write(ob: Bus, oc: CPU, nb: Bus, nc: CPU, addr: u16, value: u8, r: Result<bool, CpuFault>) -> bool {
    &&& r is Err ==> r == Err::<bool, CpuFault>(CpuFault::ImpossibleWaveform)
    &&& nc == (CPU { vic_irq: nc.vic_irq, cia_irq: nc.cia_irq, nmi: nc.nmi, ..oc })
    &&& is_plain_write(ob.memory@, addr) ==> {
        &&& r == Ok::<bool, CpuFault>(ob.memory@.write_hits_visible(addr))
        &&& nb.memory@ == bus_plain_write(ob.memory@, addr, value)
        &&& nc == oc
        &&& nb.vic == ob.vic
        &&& nb.sid.audio_device == ob.sid.audio_device
    }
    &&& ob.memory@.io_on && 0xD000 <= addr <= 0xD3FF ==> {
        let (regs, cb) = crate::c64::vic::regs_after_write(ob.vic.regs(), ob.vic.raster_cnt,
            VIC::io_before_write(ob.memory@.io.data, addr), io_mirror(addr), value);
        &&& r == Ok::<bool, CpuFault>(true)
        &&& nb.vic.regs() == regs
        &&& nc.vic_irq == (match cb {
            Some(Callback::TriggerVICIrq) => true,
            Some(Callback::ClearVICIrq) => false,
            _ => oc.vic_irq,
        })
    }
    &&& ob.memory@.io_on && 0xD400 <= addr <= 0xD7FF ==> {
        &&& (r is Err) == (r == Err::<bool, CpuFault>(CpuFault::ImpossibleWaveform))
        &&& crate::c64::sid::SIDAudioDevice::write_effect(ob.sid.audio_device, nb.sid.audio_device,
            sid_mirror(addr), value,
            match r {
                Ok(_) => Ok(ob.sid.audio_device.filter_changed(sid_mirror(addr), value)),
                Err(_) => Err(SidFault::ImpossibleWaveform),
            })
        &&& nc == oc
    }
    &&& ob.memory@.io_on && 0xDC00 <= addr <= 0xDDFF ==> r == Ok::<bool, CpuFault>(true) && nc == oc
        && nb.memory@ == ob.memory@
    &&& nb.cia1 == ob.cia1 && nb.cia2 == ob.cia2
}

/// 1 when the carry flag is set in `p`, else 0.
pub open spec fn carry_in(p: u8) -> int {
    if p_has(p, StatusFlag::Carry) { 1 } else { 0 }
}

/// Bit 7 of a byte.
pub open spec fn sign_bit(x: u8) -> bool {
    x >= 0x80
}

/// Binary ADC: A + M + C; C is the carry out of bit 7, V the signed overflow.
pub open spec fn adc_binary(a: u8, v: u8, p: u8) -> (u8, u8) {
    let sum = a + v + carry_in(p);
    let r = (sum % 256) as u8;
    let ov = sign_bit(a) == sign_bit(v) && sign_bit(r) != sign_bit(a);
    (r, p_with_zn(p_with(p_with(p, StatusFlag::Carry, sum > 255), StatusFlag::Overflow, ov), r))
}

/// Decimal ADC as the 6510 computes it: BCD digit sums with N and V taken from the
/// intermediate high digit and Z from the binary sum.
pub open spec fn adc_decimal(a: u8, v: u8, p: u8) -> (u8, u8) {
    let c = carry_in(p);
    let lo0 = a % 16 + v % 16 + c;
    let lo = if lo0 > 9 { lo0 + 6 } else { lo0 };
    let hi0 = a / 16 + v / 16 + (if lo > 15 { 1int } else { 0int });
    let ov = ((hi0 / 8) % 2 == 1) != sign_bit(a) && sign_bit(a) == sign_bit(v);
    let z = a + v + c == 0;
    let n = hi0 != 0;
    let hi = if hi0 > 9 { hi0 + 6 } else { hi0 };
    let r = ((hi % 16) * 16 + lo % 16) as u8;
    let p1 = p_with(p_with(p_with(p, StatusFlag::Negative, n), StatusFlag::Overflow, ov), StatusFlag::Zero, z);
    (r, p_with(p1, StatusFlag::Carry, hi > 15))
}

/// Binary SBC: A - M - (1 - C); C is set when no borrow occurred.
pub open spec fn sbc_binary(a: u8, v: u8, p: u8) -> (u8, u8) {
    let d = a - v - (1 - carry_in(p));
    let r = (if d < 0 { d + 256 } else { d }) as u8;
    let ov = sign_bit(a) != sign_bit(v) && sign_bit(r) != sign_bit(a);
    (r, p_with_zn(p_with(p_with(p, StatusFlag::Carry, d >= 0), StatusFlag::Overflow, ov), r))
}

/// The BCD digit differences of A - M - b with decimal adjustment.
pub open spec fn bcd_sub(a: u8, v: u8, b: int) -> u8 {
    let lo0 = a % 16 - v % 16 - b;
    let hi0 = a / 16 - v / 16;
    let lo1 = if lo0 < 0 { lo0 - 6 } else { lo0 };
    let hi1 = if lo0 < 0 { hi0 - 1 } else { hi0 };
    let hi2 = if hi1 < 0 { hi1 - 6 } else { hi1 };
    (((hi2 % 16) * 16) + lo1 % 16) as u8
}

/// Decimal SBC: flags as in binary mode, the accumulator gets the BCD digit differences.
pub open spec fn sbc_decimal(a: u8, v: u8, p: u8) -> (u8, u8) {
    (bcd_sub(a, v, 1 - carry_in(p)), sbc_binary(a, v, p).1)
}

/// ADC in the mode selected by the decimal flag.
pub open spec fn adc_result(a: u8, v: u8, p: u8) -> (u8, u8) {
    if p_has(p, StatusFlag::DecimalMode) { adc_decimal(a, v, p) } else { adc_binary(a, v, p) }
}

/// SBC in the mode selected by the decimal flag.
pub open spec fn sbc_result(a: u8, v: u8, p: u8) -> (u8, u8) {
    if p_has(p, StatusFlag::DecimalMode) { sbc_decimal(a, v, p) } else { sbc_binary(a, v, p) }
}

/// Increment with wrap-around.
pub open spec fn inc16(x: u16) -> u16 {
    if x == 0xFFFF { 0 } else { (x + 1) as u16 }
}

/// 16-bit addition with wrap-around.
pub open spec fn add16(x: u16, y: u16) -> u16 {
    if x + y > 0xFFFF { (x + y - 0x10000) as u16 } else { (x + y) as u16 }
}

/// Increment with wrap-around.
pub open spec fn inc32(x: u32) -> u32 {
    if x == 0xFFFF_FFFF { 0 } else { (x + 1) as u32 }
}

/// Increment with wrap-around.
pub open spec fn inc8(x: u8) -> u8 {
    if x == 0xFF { 0 } else { (x + 1) as u8 }
}

/// Decrement with wrap-around.
pub open spec fn dec8(x: u8) -> u8 {
    if x == 0 { 0xFF } else { (x - 1) as u8 }
}

/// The stack address for a stack pointer value.
pub open spec fn stack_addr(sp: u8) -> u16 {
    (0x0100 + sp as int) as u16
}

/// The BCD digit differences of a decimal-mode SBC (borrow in from the carry flag).
#[verifier::rlimit(50)]
#[verifier::spinoff_prover]
fn bcd_sub_digits(a: u16, v: u16, borrow: bool) -> (r: u8)
    requires
        a < 256 && v < 256,
    ensures
        r == bcd_sub(a as u8, v as u8, if borrow { 1int } else { 0int }),
{
    assert((a & 0x0F) == a % 16 && (v & 0x0F) == v % 16 && (a >> 4) == a / 16 && (v >> 4) == v / 16)
        by (bit_vector)
        requires
            a < 256 && v < 256,
    ;
    let mut lo = (a & 0x0F).wrapping_sub(v & 0x0F);
    let mut hi = (a >> 4).wrapping_sub(v >> 4);
    if borrow {
        lo = lo.wrapping_sub(0x01);
    }
    let ghost lo0: int = a % 16 - v % 16 - (if borrow { 1int } else { 0int });
    let ghost hi0: int = a / 16 - v / 16;
    assert(lo as int == if lo0 < 0 { lo0 + 65536 } else { lo0 });
    assert(hi as int == if hi0 < 0 { hi0 + 65536 } else { hi0 });
    assert(((lo & 0x10) != 0) == (lo >= 65520)) by (bit_vector)
        requires
            lo < 16 || lo >= 65520,
    ;
    if (lo & 0x10) != 0 {
        lo = lo.wrapping_sub(0x06);
        hi = hi.wrapping_sub(0x01);
    }
    proof {
        if lo0 < 0 {
            assert(lo as int == lo0 - 6 + 65536);
            assert((lo0 - 6 + 65536) % 16 == (lo0 - 6) % 16);
        }
    }
    let ghost lo1: int = if lo0 < 0 { lo0 - 6 } else { lo0 };
    let ghost hi1: int = if lo0 < 0 { hi0 - 1 } else { hi0 };
    assert(lo as int == if lo1 < 0 { lo1 + 65536 } else { lo1 });
    assert(hi as int == if hi1 < 0 { hi1 + 65536 } else { hi1 });
    assert(((hi & 0x10) != 0) == (hi >= 65520)) by (bit_vector)
        requires
            hi < 16 || hi >= 65520,
    ;
    if (hi & 0x10) != 0 {
        hi = hi.wrapping_sub(0x06);
    }
    let ghost hi2: int = if hi1 < 0 { hi1 - 6 } else { hi1 };
    assert(hi as int == if hi2 < 0 { hi2 + 65536 } else { hi2 });
    proof {
        if hi2 < 0 {
            assert((hi2 + 65536) % 16 == hi2 % 16);
        }
    }
    assert(hi % 16 == hi2 % 16);
    assert(lo % 16 == lo1 % 16);
    assert((((hi << 4) | (lo & 0xF)) as u8) == (((hi % 16) * 16 + lo % 16) as u8)) by (bit_vector);
    ((hi << 4) | (lo & 0xF)) as u8
}

/// One cycle of the interrupt sequence (see `CPU::process_irq`).
#[verifier::opaque]
pub open spec fn irq_effect(o: CPU, ob: Bus, n: CPU, nb: Bus, r: Result<bool, CpuFault>, is_nmi: bool) -> bool {
    let cnt = if is_nmi { o.nmi_cycles_left } else { o.irq_cycles_left };
    let vector = if is_nmi { NMI_VECTOR } else { IRQ_VECTOR };
    let waits = o.ba_low && (cnt == 7 || cnt == 6 || cnt == 2 || cnt == 1);
    let left = (cnt - 1) as u8;
    &&& nb.wf()
    &&& !(1 <= cnt <= 7) ==> r == Err::<bool, CpuFault>(CpuFault::WrongCycleCount) && n == o && nb == ob
    &&& waits ==> r == Ok::<bool, CpuFault>(false) && n == o && nb == ob
    &&& 1 <= cnt <= 7 && !waits ==> {
        &&& r == Ok::<bool, CpuFault>(left == 0)
        &&& (if is_nmi { n.nmi_cycles_left } else { n.irq_cycles_left }) == left
        &&& (if is_nmi { n.irq_cycles_left == o.irq_cycles_left }
            else { n.nmi_cycles_left == o.nmi_cycles_left })
        &&& cnt == 5 ==> n.sp == dec8(o.sp)
            && nb.memory@ == ob.memory@.after_write(stack_addr(o.sp), (o.pc >> 8) as u8)
        &&& cnt == 4 ==> n.sp == dec8(o.sp)
            && nb.memory@ == ob.memory@.after_write(stack_addr(o.sp), o.pc as u8)
        &&& cnt == 3 ==> n.sp == dec8(o.sp)
            && nb.memory@ == ob.memory@.after_write(stack_addr(o.sp),
                p_with(o.p, StatusFlag::Break, false))
            && n.p == p_with(p_with(o.p, StatusFlag::Break, false), StatusFlag::InterruptDisable, true)
        &&& cnt == 1 ==> n.pc == ob.memory@.word_le_value(vector)
        &&& cnt != 1 ==> n.pc == o.pc
        &&& cnt != 3 ==> n.p == o.p
        &&& !(3 <= cnt <= 5) ==> n.sp == o.sp
        &&& n == (CPU {
            pc: n.pc,
            sp: n.sp,
            p: n.p,
            nmi_cycles_left: n.nmi_cycles_left,
            irq_cycles_left: n.irq_cycles_left,
            ..o
        })
    }
}

/// The cycles between two readings of the 32-bit cycle counter (wrapping around).
pub open spec fn cycles_since(now: u32, then: u32) -> int {
    if now >= then { now - then } else { now - then + 0x1_0000_0000 }
}

/// Whether a pending NMI is taken before the next opcode fetch: the NMI line is set, no
/// NMI sequence is running and the NMI arrived at least two cycles ago.
pub open spec fn nmi_due(c: CPU, cnt: u32) -> bool {
    c.nmi && c.nmi_cycles_left == 0 && cycles_since(cnt, c.first_nmi_cycle) >= 2
}

/// Whether a pending IRQ (from a CIA or the VIC) is taken before the next opcode fetch:
/// interrupts are enabled, no IRQ sequence is running and the IRQ arrived at least two
/// cycles ago.
pub open spec fn irq_due(c: CPU, cnt: u32) -> bool {
    (c.cia_irq || c.vic_irq) && c.irq_cycles_left == 0 && !p_has(c.p, StatusFlag::InterruptDisable)
        && cycles_since(cnt, c.first_irq_cycle) >= 2
}

/// The CPU after the interrupt check that precedes an opcode fetch (NMI first).
pub open spec fn after_interrupt_check(c: CPU, cnt: u32) -> CPU {
    if c.state == CPUState::FetchOp && nmi_due(c, cnt) {
        CPU { nmi_cycles_left: 7, state: CPUState::ProcessNMI, ..c }
    } else if c.state == CPUState::FetchOp && irq_due(c, cnt) {
        CPU { irq_cycles_left: 7, state: CPUState::ProcessIRQ, ..c }
    } else {
        c
    }
}

/// The instruction decoded from `opcode`, with its cycles split up.
pub open spec fn decoded_instruction(i: Instruction, opcode: u8) -> Instruction {
    let (op, total, rmw, mode) = spec_decode(opcode);
    let fetch = effective_fetch(mode, i.cycles_to_fetch);
    let rmw_cycles: u8 = if rmw { 2 } else { 0 };
    Instruction {
        opcode: op,
        addr_mode: mode,
        is_rmw: rmw,
        cycles_to_fetch: fetch,
        cycles_to_rmw: rmw_cycles,
        cycles_to_run: ((total - fetch - rmw_cycles - 1 + 512) % 256) as u8,
        ..i
    }
}

/// The target of a relative branch: the offset, sign extended, added to the address that
/// follows the branch.
pub open spec fn branch_target(next_pc: u16, offset: u8) -> u16 {
    add16(next_pc, if offset >= 0x80 { (offset + 0xFF00) as u16 } else { offset as u16 })
}

/// Addressing modes without an operand address to fetch.
pub open spec fn executes_at_once(mode: AddrMode) -> bool {
    mode == AddrMode::Implied || mode == AddrMode::Accumulator || mode == AddrMode::Immediate
        || mode == AddrMode::Relative
}

/// The CPU after an opcode fetch: the decoded instruction, PC past the opcode (and past
/// the offset byte of a branch, whose target is then known) and the next state.
pub open spec fn fetched(o: CPU, opcode: u8, offset: u8) -> CPU {
    let i = decoded_instruction(o.instruction, opcode);
    let pc1 = inc16(o.pc);
    if i.addr_mode == AddrMode::Relative {
        CPU {
            pc: inc16(pc1),
            state: CPUState::ExecuteOp,
            instruction: Instruction { operand_addr: branch_target(inc16(pc1), offset), ..i },
            ..o
        }
    } else {
        CPU {
            pc: pc1,
            state: if executes_at_once(i.addr_mode) { CPUState::ExecuteOp } else { CPUState::FetchOperandAddr },
            instruction: i,
            ..o
        }
    }
}

/// Whether `opcode` and `offset` can be the bytes an opcode fetch reads at PC and PC + 1:
/// the opcode is the byte at PC where the bus determines it; the offset is the byte in
/// memory when PC is outside the I/O area.
pub open spec fn fetch_bytes(o: CPU, ob: Bus, opcode: u8, offset: u8) -> bool {
    &&& bus_read_value(&ob, o.dfff_byte, o.pc) matches Some(x) ==> opcode == x
    &&& !(0xCFFF <= o.pc <= 0xDFFF) ==> offset == ob.memory@.read_value(inc16(o.pc))
}

/// Turns a cycle result into the result of the CPU's update.
pub open spec fn unit_result(r: Result<bool, CpuFault>) -> Result<(), CpuFault> {
    match r {
        Ok(_) => Ok(()),
        Err(e) => Err(e),
    }
}

/// A step result seen from the update: `done` when the CPU went back to fetching.
pub open spec fn lift_result(r: Result<(), CpuFault>, done: bool) -> Result<bool, CpuFault> {
    match r {
        Ok(_) => Ok(done),
        Err(e) => Err(e),
    }
}

/// One cycle of the operand address fetch, which moves on to the RMW cycles or execution
/// once the address is complete; an instruction without execution cycles left (JMP
/// absolute) executes at once and the CPU goes back to fetching.
pub open spec fn operand_cycle_effect(m: CPU, ob: Bus, n: CPU, nb: Bus, r: Result<(), CpuFault>) -> bool {
    exists|n1: CPU, nb1: Bus, r1: Result<bool, CpuFault>| #[trigger] fetch_effect(m, ob, n1, nb1, r1) && {
        let n2 = after_address_fetch(n1, r1);
        if r1 is Err {
            r == unit_result(r1) && n == n1 && nb == nb1
        } else if n2.instruction.cycles_to_run == 0 && n2.instruction.cycles_to_fetch == 0 {
            exists|n3: CPU, r3: Result<bool, CpuFault>| #[trigger] run_effect(n2, nb1, n3, nb, r3)
                && n == (CPU { state: CPUState::FetchOp, ..n3 }) && r == unit_result(r3)
        } else {
            n == n2 && nb == nb1 && r == Ok::<(), CpuFault>(())
        }
    }
}

/// The state after an address fetch cycle: on to the RMW cycles or execution once the
/// address is complete.
pub open spec fn after_address_fetch(n1: CPU, r1: Result<bool, CpuFault>) -> CPU {
    if r1 == Ok::<bool, CpuFault>(true) {
        CPU { state: if n1.instruction.is_rmw { CPUState::PerformRMW } else { CPUState::ExecuteOp }, ..n1 }
    } else {
        n1
    }
}

/// One of the two RMW cycles: the read of the operand byte (waiting while BA is low), then
/// the write of the unchanged byte back, after which execution begins.
pub open spec fn rmw_cycle_effect(m: CPU, ob: Bus, n: CPU, nb: Bus, r: Result<(), CpuFault>) -> bool {
    let c = m.instruction.cycles_to_rmw;
    let addr = m.instruction.operand_addr;
    let v = m.instruction.rmw_buffer;
    if c == 2 {
        if m.ba_low {
            r == Ok::<(), CpuFault>(()) && n == m && nb == ob
        } else {
            &&& r == Ok::<(), CpuFault>(())
            &&& n == (CPU {
                dfff_byte: n.dfff_byte,
                instruction: Instruction { rmw_buffer: n.instruction.rmw_buffer, cycles_to_rmw: 1, ..m.instruction },
                ..m
            })
            &&& bus_read_value(&ob, m.dfff_byte, addr) matches Some(x) ==> n.instruction.rmw_buffer == x
            &&& nb.wf() && nb.memory@.ram == ob.memory@.ram && nb.memory@.io_on == ob.memory@.io_on
        }
    } else if c == 1 {
        &&& nb.wf()
        &&& r is Err ==> r == Err::<(), CpuFault>(CpuFault::ImpossibleWaveform)
        &&& r is Ok ==> n == (CPU {
            vic_irq: n.vic_irq,
            cia_irq: n.cia_irq,
            nmi: n.nmi,
            state: CPUState::ExecuteOp,
            instruction: Instruction { cycles_to_rmw: 0, ..m.instruction },
            ..m
        })
        &&& is_plain_write(ob.memory@, addr) ==> r is Ok && nb.memory@ == bus_plain_write(ob.memory@, addr, v)
            && n == (CPU { state: CPUState::ExecuteOp, instruction: Instruction { cycles_to_rmw: 0, ..m.instruction }, ..m })
    } else {
        r == Err::<(), CpuFault>(CpuFault::WrongCycleCount) && n == m && nb == ob
    }
}

/// One cycle of the CPU (see `CPU::update`).
pub open spec fn update_effect(o: CPU, ob: Bus, n: CPU, nb: Bus, r: Result<(), CpuFault>, cnt: u32) -> bool {
    let m = after_interrupt_check(o, cnt);
    let done = n.state == CPUState::FetchOp;
    match m.state {
        CPUState::FetchOp => if m.ba_low {
            r == Ok::<(), CpuFault>(()) && n == m && nb == ob
        } else {
            &&& r == Ok::<(), CpuFault>(())
            &&& exists|opcode: u8, offset: u8| #[trigger] fetch_bytes(m, ob, opcode, offset)
                && n == (CPU { dfff_byte: n.dfff_byte, ..fetched(m, opcode, offset) })
            &&& nb.wf() && nb.memory@.ram == ob.memory@.ram && nb.memory@.io_on == ob.memory@.io_on
        },
        CPUState::FetchOperandAddr => if m.ba_low {
            r == Ok::<(), CpuFault>(()) && n == m && nb == ob
        } else {
            operand_cycle_effect(m, ob, n, nb, r)
        },
        CPUState::ProcessIRQ => {
            &&& irq_effect(m, ob, if done { CPU { cia_irq: m.cia_irq, vic_irq: m.vic_irq, state: m.state, ..n } } else { n },
                nb, lift_result(r, done), false)
            &&& done ==> !n.cia_irq && !n.vic_irq
            &&& !done ==> n.state == m.state
        },
        CPUState::ProcessNMI => {
            &&& irq_effect(m, ob, if done { CPU { nmi: m.nmi, state: m.state, ..n } } else { n }, nb,
                lift_result(r, done), true)
            &&& done ==> !n.nmi
            &&& !done ==> n.state == m.state
        },
        CPUState::PerformRMW => rmw_cycle_effect(m, ob, n, nb, r),
        CPUState::ExecuteOp => exists|n1: CPU, r1: Result<bool, CpuFault>| #[trigger] run_effect(m, ob, n1, nb, r1)
            && n == (if r1 == Ok::<bool, CpuFault>(true) { CPU { state: CPUState::FetchOp, ..n1 } } else { n1 })
            && r == unit_result(r1),
    }
}

impl CPU {
    pub open spec fn has_flag(&self, flag: StatusFlag) -> bool {
        p_has(self.p, flag)
    }

    /// A CPU in its power-up state: all registers zero, stack pointer $FF, fetching an opcode.
    pub fn new_shared() -> (c: CPU)
        ensures
            c.pc == 0 && c.sp == 0xFF && c.p == 0 && c.a == 0 && c.x == 0 && c.y == 0,
            c.state == CPUState::FetchOp,
            !c.ba_low && !c.cia_irq && !c.vic_irq && !c.nmi && !c.debug_instr,
            c.irq_cycles_left == 0 && c.nmi_cycles_left == 0,
            c.first_nmi_cycle == 0 && c.first_irq_cycle == 0,
            c.prev_pc == 0 && c.dfff_byte == 0x55,
            c.instruction.cycles_to_fetch == 0,
    {
        CPU {
            pc: 0,
            sp: 0xFF,
            p: 0,
            a: 0,
            x: 0,
            y: 0,
            ba_low: false,
            cia_irq: false,
            vic_irq: false,
            irq_cycles_left: 0,
            nmi_cycles_left: 0,
            first_nmi_cycle: 0,
            first_irq_cycle: 0,
            state: CPUState::FetchOp,
            instruction: Instruction::new(),
            nmi: false,
            debug_instr: false,
            prev_pc: 0,
            op_debugger: OpDebugger::new(),
            dfff_byte: 0x55,
        }
    }

    /// Sets or clears one flag of P.
    pub fn set_status_flag(&mut self, flag: StatusFlag, value: bool)
        ensures
            *final(self) == (CPU { p: p_with(old(self).p, flag, value), ..*old(self) }),
    {
        if value {
            self.p |= flag_mask(flag);
        } else {
            self.p &= !flag_mask(flag);
        }
    }

    /// Whether one flag of P is set.
    pub fn get_status_flag(&self, flag: StatusFlag) -> (b: bool)
        ensures
            b == p_has(self.p, flag),
    {
        self.p & flag_mask(flag) != 0x00
    }

    /// Sets Z and N from a result value.
    pub fn set_zn_flags(&mut self, value: u8)
        ensures
            *final(self) == (CPU { p: p_with_zn(old(self).p, value), ..*old(self) }),
    {
        self.set_status_flag(StatusFlag::Zero, value == 0x00);
        assert(((value as i8) < 0) == (value >= 0x80)) by (bit_vector);
        self.set_status_flag(StatusFlag::Negative, (value as i8) < 0);
    }

    pub fn set_vic_irq(&mut self, val: bool)
        ensures
            *final(self) == (CPU { vic_irq: val, ..*old(self) }),
    {
        self.vic_irq = val;
    }

    pub fn set_nmi(&mut self, val: bool)
        ensures
            *final(self) == (CPU { nmi: val, ..*old(self) }),
    {
        self.nmi = val;
    }

    pub fn set_cia_irq(&mut self, val: bool)
        ensures
            *final(self) == (CPU { cia_irq: val, ..*old(self) }),
    {
        self.cia_irq = val;
    }

    /// Performs the action a VIC or CIA register access asked for.
    fn apply_callback(&mut self, cb: Callback)
        ensures
            *final(self) == (match cb {
                Callback::TriggerVICIrq => CPU { vic_irq: true, ..*old(self) },
                Callback::ClearVICIrq => CPU { vic_irq: false, ..*old(self) },
                Callback::TriggerCIAIrq => CPU { cia_irq: true, ..*old(self) },
                Callback::ClearCIAIrq => CPU { cia_irq: false, ..*old(self) },
                Callback::TriggerNMI => CPU { nmi: true, ..*old(self) },
                Callback::ClearNMI => CPU { nmi: false, ..*old(self) },
                Callback::Nothing => *old(self),
            }),
    {
        match cb {
            Callback::TriggerVICIrq => self.set_vic_irq(true),
            Callback::ClearVICIrq => self.set_vic_irq(false),
            Callback::TriggerCIAIrq => self.set_cia_irq(true),
            Callback::ClearCIAIrq => self.set_cia_irq(false),
            Callback::TriggerNMI => self.set_nmi(true),
            Callback::ClearNMI => self.set_nmi(false),
            Callback::Nothing => {},
        }
    }

    /// A CPU read over the bus: with I/O visible, $D000-$DFFF reach the VIC, SID, color RAM
    /// and CIAs; $DF00-$DF9F read the VIC's last byte, $DFFF a toggling byte.
    pub fn read_byte(&mut self, bus: &mut Bus, addr: u16) -> (v: u8)
        requires
            old(bus).wf(),
        ensures
            final(bus).wf(),
            bus_read_value(old(bus), old(self).dfff_byte, addr) matches Some(x) ==> v == x,
            final(self).dfff_byte == (if old(bus).memory@.io_on && addr == 0xDFFF { !old(self).dfff_byte } else { old(self).dfff_byte }),
            *final(self) == (CPU { dfff_byte: final(self).dfff_byte, ..*old(self) }),
            final(bus).vic == old(bus).vic,
            final(bus).cia1 == old(bus).cia1,
            final(bus).cia2 == old(bus).cia2,
            final(bus).memory@.io_on == old(bus).memory@.io_on,
            final(bus).memory@.ram == old(bus).memory@.ram,
            is_plain_read(old(bus).memory@, addr) ==> final(bus).memory@ == old(bus).memory@.after_read(addr)
                && final(bus).sid.audio_device == old(bus).sid.audio_device,
    {
        let byte: u8;
        let io_enabled = bus.memory.is_io_on();
        if io_enabled {
            if 0xD000 <= addr && addr <= 0xD3FF {
                byte = bus.vic.read_register(&mut bus.memory, addr);
            } else if 0xD400 <= addr && addr <= 0xD7FF {
                byte = bus.sid.read_register(&mut bus.memory, addr);
            } else if 0xD800 <= addr && addr <= 0xDBFF {
                byte = (bus.memory.read_byte(addr) & 0x0F) | (bus.vic.last_byte & 0xF0);
            } else if 0xDC00 <= addr && addr <= 0xDCFF {
                byte = bus.cia1.read_register(addr);
            } else if 0xDD00 <= addr && addr <= 0xDDFF {
                byte = bus.cia2.read_register(addr);
            } else if 0xDF00 <= addr && addr <= 0xDF9F {
                byte = bus.vic.last_byte;
            } else if addr == 0xDFFF {
                self.dfff_byte = !self.dfff_byte;
                byte = self.dfff_byte;
            } else {
                byte = bus.memory.read_byte(addr);
            }
        } else {
            byte = bus.memory.read_byte(addr);
        }
        byte
    }

    /// Reads a byte and discards it (a dummy bus cycle; reads can have side effects).
    pub fn read_idle(&mut self, bus: &mut Bus, addr: u16)
        requires
            old(bus).wf(),
        ensures
            final(bus).wf(),
            *final(self) == (CPU { dfff_byte: final(self).dfff_byte, ..*old(self) }),
            final(self).dfff_byte == (if old(bus).memory@.io_on && addr == 0xDFFF { !old(self).dfff_byte } else {
                old(self).dfff_byte }),
            final(bus).memory@.ram == old(bus).memory@.ram,
            final(bus).memory@.io_on == old(bus).memory@.io_on,
    {
        let _ = self.read_byte(bus, addr);
    }

    /// Fetches the byte at PC and advances PC.
    pub fn next_byte(&mut self, bus: &mut Bus) -> (v: u8)
        requires
            old(bus).wf(),
        ensures
            final(bus).wf(),
            bus_read_value(old(bus), old(self).dfff_byte, old(self).pc) matches Some(x) ==> v == x,
            *final(self) == (CPU { pc: inc16(old(self).pc), dfff_byte: final(self).dfff_byte, ..*old(self) }),
            final(bus).memory@.ram == old(bus).memory@.ram,
            final(bus).memory@.io_on == old(bus).memory@.io_on,
            final(bus).vic == old(bus).vic,
            final(bus).cia1 == old(bus).cia1,
            final(bus).cia2 == old(bus).cia2,
            is_plain_read(old(bus).memory@, old(self).pc) ==> final(bus).memory@ == old(bus).memory@.after_read(old(self).pc)
                && final(self).dfff_byte == old(self).dfff_byte,
            final(self).dfff_byte == (if old(bus).memory@.io_on && old(self).pc == 0xDFFF { !old(self).dfff_byte } else {
                old(self).dfff_byte }),
    {
        let pc = self.pc;
        let op = self.read_byte(bus, pc);
        self.pc = self.pc.wrapping_add(1);
        op
    }

    /// A CPU write over the bus; returns false when it went to the RAM under a visible ROM.
    /// A SID control register write with an impossible waveform is refused.
    pub fn write_byte(&mut self, bus: &mut Bus, addr: u16, value: u8) -> (r: Result<bool, CpuFault>)
        requires
            old(bus).wf(),
        ensures
            final(bus).wf(),
            bus_write(*old(bus), *old(self), *final(bus), *final(self), addr, value, r),
    {
        let mut on_write = Callback::Nothing;
        let mut mem_write_ok = true;
        let io_enabled = bus.memory.is_io_on();
        if io_enabled {
            if 0xD000 <= addr && addr <= 0xD3FF {
                bus.vic.write_register(&mut bus.memory, addr, value, &mut on_write);
            } else if 0xD400 <= addr && addr <= 0xD7FF {
                match bus.sid.write_register(&mut bus.memory, addr, value) {
                    Ok(_) => {},
                    Err(_) => {
                        return Err(CpuFault::ImpossibleWaveform);
                    },
                }
            } else if 0xD800 <= addr && addr <= 0xDBFF {
                mem_write_ok = bus.memory.write_byte(addr, value & 0x0F);
            } else if 0xDC00 <= addr && addr <= 0xDCFF {
                let mut cia_action = CIACallbackAction::CIA_NONE;
                bus.cia1.write_register(addr, value, &mut cia_action);
            } else if 0xDD00 <= addr && addr <= 0xDDFF {
                let mut cia_action = CIACallbackAction::CIA_NONE;
                bus.cia2.write_register(addr, value, &mut cia_action);
            } else {
                mem_write_ok = bus.memory.write_byte(addr, value);
            }
        } else {
            mem_write_ok = bus.memory.write_byte(addr, value);
        }
        self.apply_callback(on_write);
        Ok(mem_write_ok)
    }

    /// Reads a little endian word from memory; refuses a word that straddles a bank end.
    pub fn read_word_le(&self, bus: &mut Bus, addr: u16) -> (r: Result<u16, CpuFault>)
        requires
            old(bus).wf(),
        ensures
            final(bus).wf(),
            old(bus).memory@.word_in_one_bank(addr) ==> r == Ok::<u16, CpuFault>(old(bus).memory@.word_le_value(addr)),
            !old(bus).memory@.word_in_one_bank(addr) ==> r == Err::<u16, CpuFault>(CpuFault::WordAcrossBanks),
            final(bus).vic == old(bus).vic,
            final(bus).memory@.ram == old(bus).memory@.ram,
            final(bus).memory@.io_on == old(bus).memory@.io_on,
    {
        if bus.memory.word_in_one_bank(addr) {
            Ok(bus.memory.read_word_le(addr))
        } else {
            Err(CpuFault::WordAcrossBanks)
        }
    }

    /// Pushes a byte onto the stack page ($0100-$01FF).
    pub fn push_byte(&mut self, bus: &mut Bus, value: u8)
        requires
            old(bus).wf(),
        ensures
            final(bus).wf(),
            final(self).sp == dec8(old(self).sp),
            *final(self) == (CPU { sp: final(self).sp, ..*old(self) }),
            final(bus).memory@ == old(bus).memory@.after_write(stack_addr(old(self).sp), value),
            final(bus).vic == old(bus).vic,
            final(bus).sid.audio_device == old(bus).sid.audio_device,
    {
        self.sp = self.sp.wrapping_sub(0x01);
        let new_sp = self.sp.wrapping_add(0x01) as u16;
        let _ = self.write_byte(bus, 0x0100 + new_sp, value);
    }

    /// Pops a byte from the stack page.
    pub fn pop_byte(&mut self, bus: &mut Bus) -> (v: u8)
        requires
            old(bus).wf(),
        ensures
            final(bus).wf(),
            v == old(bus).memory@.read_value(stack_addr(inc8(old(self).sp))),
            final(self).sp == inc8(old(self).sp),
            *final(self) == (CPU { sp: final(self).sp, ..*old(self) }),
            final(bus).memory@ == old(bus).memory@,
            final(bus).vic == old(bus).vic,
    {
        let addr = 0x0100 + self.sp.wrapping_add(0x01) as u16;
        let value = self.read_byte(bus, addr);
        self.sp = self.sp.wrapping_add(0x01);
        value
    }

    /// Pushes a word, high byte first.
    pub fn push_word(&mut self, bus: &mut Bus, value: u16)
        requires
            old(bus).wf(),
        ensures
            final(bus).wf(),
            final(self).sp == dec8(dec8(old(self).sp)),
            *final(self) == (CPU { sp: final(self).sp, ..*old(self) }),
            final(bus).memory@ == old(bus).memory@.after_write(stack_addr(old(self).sp), (value >> 8) as u8)
                .after_write(stack_addr(dec8(old(self).sp)), value as u8),
            final(bus).vic == old(bus).vic,
    {
        self.push_byte(bus, ((value >> 8) & 0xFF) as u8);
        self.push_byte(bus, (value & 0xFF) as u8);
        assert(((value >> 8) & 0xFF) as u8 == (value >> 8) as u8 && (value & 0xFF) as u8 == value as u8) by (bit_vector);
    }

    /// Add with carry, in BCD when the decimal flag is set.
    pub fn adc(&mut self, value: u8)
        ensures
            (final(self).a, final(self).p) == adc_result(old(self).a, value, old(self).p),
            *final(self) == (CPU { a: final(self).a, p: final(self).p, ..*old(self) }),
    {
        let c = self.get_status_flag(StatusFlag::Carry);
        let a = self.a as u16;
        let v = value as u16;
        assert((a & 0x0F) == a % 16 && (v & 0x0F) == v % 16 && (a >> 4) == a / 16 && (v >> 4) == v / 16)
            by (bit_vector)
            requires
                a < 256 && v < 256,
        ;
        assert(((a ^ v) & 0x80 == 0) == ((a >= 128) == (v >= 128))) by (bit_vector)
            requires
                a < 256 && v < 256,
        ;
        if self.get_status_flag(StatusFlag::DecimalMode) {
            let mut lo = (a & 0x0F) + (v & 0x0F);
            if c {
                lo = lo + 0x01;
            }
            if lo > 9 {
                lo = lo + 0x06;
            }
            let mut hi = (a >> 4) + (v >> 4);
            if lo > 0x0F {
                hi = hi + 0x01;
            }
            assert(((((hi << 4) ^ a) & 0x80) != 0) == (((hi / 8) % 2 == 1) != (a >= 128))) by (bit_vector)
                requires
                    hi < 32 && a < 256,
            ;
            assert(((hi << 4) != 0) == (hi != 0)) by (bit_vector)
                requires
                    hi < 32,
            ;
            let is_overflow = ((((hi << 4) ^ a) & 0x80) != 0) && (((a ^ v) & 0x80) == 0);
            let mut is_zero = a + v;
            if c {
                is_zero = is_zero + 0x01;
            }
            self.set_status_flag(StatusFlag::Negative, (hi << 4) != 0);
            self.set_status_flag(StatusFlag::Overflow, is_overflow);
            self.set_status_flag(StatusFlag::Zero, is_zero == 0);
            if hi > 9 {
                hi = hi + 0x06;
            }
            self.set_status_flag(StatusFlag::Carry, hi > 0xF);
            assert((((hi << 4) | (lo & 0xF)) as u8) == (((hi % 16) * 16 + lo % 16) as u8)) by (bit_vector)
                requires
                    hi < 64 && lo < 64,
            ;
            self.a = ((hi << 4) | (lo & 0xF)) as u8;
        } else {
            let mut res = a + v;
            if c {
                res = res + 0x1;
            }
            assert(((res & 0x0100) != 0) == (res > 255)) by (bit_vector)
                requires
                    res < 512,
            ;
            assert(((a ^ res) & 0x80 == 0x80) == ((a >= 128) != ((res as u8) >= 128)) && (res as u8) == res % 256)
                by (bit_vector)
                requires
                    a < 256 && res < 512,
            ;
            self.set_status_flag(StatusFlag::Carry, (res & 0x0100) != 0);
            let is_overflow = (a ^ v) & 0x80 == 0 && (a ^ res) & 0x80 == 0x80;
            self.set_status_flag(StatusFlag::Overflow, is_overflow);
            self.a = res as u8;
            self.set_zn_flags(res as u8);
        }
    }

    /// Subtract with borrow (carry clear = borrow), in BCD when the decimal flag is set.
    pub fn sbc(&mut self, value: u8)
        ensures
            (final(self).a, final(self).p) == sbc_result(old(self).a, value, old(self).p),
            *final(self) == (CPU { a: final(self).a, p: final(self).p, ..*old(self) }),
    {
        let a = self.a as u16;
        let v = value as u16;
        let borrow = !self.get_status_flag(StatusFlag::Carry);
        let mut res: u16 = a.wrapping_sub(v);
        if borrow {
            res = res.wrapping_sub(0x0001);
        }
        let ghost d: int = a - v - (if borrow { 1int } else { 0int });
        assert(res as int == if d < 0 { d + 65536 } else { d });
        assert(((res & 0x0100) == 0) == (res < 256)) by (bit_vector)
            requires
                res < 256 || res >= 65280,
        ;
        assert((res as u8) == (if res < 256 { res } else { (res - 65280) as u16 }) as u8) by (bit_vector)
            requires
                res < 256 || res >= 65280,
        ;
        assert(((a ^ res) & 0x80 != 0) == ((a >= 128) != ((res as u8) >= 128))) by (bit_vector)
            requires
                a < 256,
        ;
        assert(((a ^ v) & 0x80 == 0x80) == ((a >= 128) != (v >= 128))) by (bit_vector)
            requires
                a < 256 && v < 256,
        ;
        if self.get_status_flag(StatusFlag::DecimalMode) {
            let is_overflow = (a ^ res) & 0x80 != 0 && (a ^ v) & 0x80 == 0x80;
            self.set_status_flag(StatusFlag::Carry, (res & 0x0100) == 0);
            self.set_status_flag(StatusFlag::Overflow, is_overflow);
            self.set_zn_flags(res as u8);
            self.a = bcd_sub_digits(a, v, borrow);
        } else {
            self.set_status_flag(StatusFlag::Carry, (res & 0x0100) == 0);
            let is_overflow = (a ^ res) & 0x80 != 0 && (a ^ v) & 0x80 == 0x80;
            self.set_status_flag(StatusFlag::Overflow, is_overflow);
            self.a = res as u8;
            self.set_zn_flags(res as u8);
        }
    }

    /// The address an operand is read from in the current instruction's addressing mode
    /// (`None`: the operand is a register or the RMW buffer, or there is none).
    pub open spec fn operand_read_addr(&self) -> Option<u16> {
        if self.instruction.is_rmw {
            None
        } else {
            match self.instruction.addr_mode {
                AddrMode::Implied => None,
                AddrMode::Accumulator => None,
                AddrMode::Immediate => Some(self.pc),
                _ => Some(self.instruction.operand_addr),
            }
        }
    }

    /// Fetches the operand value: the pre-read byte of a read-modify-write instruction,
    /// the accumulator, the immediate byte, or the byte at the operand address.
    pub fn get_operand(&mut self, bus: &mut Bus) -> (r: Result<u8, CpuFault>)
        requires
            old(bus).wf(),
        ensures
            final(bus).wf(),
            old(self).instruction.is_rmw ==> r == Ok::<u8, CpuFault>(old(self).instruction.rmw_buffer)
                && *final(self) == *old(self) && *final(bus) == *old(bus),
            !old(self).instruction.is_rmw && old(self).instruction.addr_mode == AddrMode::Implied
                ==> r == Err::<u8, CpuFault>(CpuFault::NoOperand) && *final(self) == *old(self) && *final(bus) == *old(bus),
            !old(self).instruction.is_rmw && old(self).instruction.addr_mode == AddrMode::Accumulator
                ==> r == Ok::<u8, CpuFault>(old(self).a) && *final(self) == *old(self) && *final(bus) == *old(bus),
            old(self).operand_read_addr() matches Some(addr) ==> {
                &&& r is Ok
                &&& (bus_read_value(old(bus), old(self).dfff_byte, addr) matches Some(x) ==> r == Ok::<u8, CpuFault>(x))
                &&& final(self).pc == (if old(self).instruction.addr_mode == AddrMode::Immediate { inc16(old(self).pc) } else { old(self).pc })
                &&& *final(self) == (CPU { pc: final(self).pc, dfff_byte: final(self).dfff_byte, ..*old(self) })
                &&& final(bus).memory@.ram == old(bus).memory@.ram
                &&& final(bus).memory@.io_on == old(bus).memory@.io_on
                &&& final(bus).vic == old(bus).vic
                &&& final(self).dfff_byte == (if old(bus).memory@.io_on && addr == 0xDFFF { !old(self).dfff_byte } else {
                    old(self).dfff_byte })
            },
    {
        if self.instruction.is_rmw {
            return Ok(self.instruction.rmw_buffer);
        }
        match self.instruction.addr_mode {
            AddrMode::Implied => Err(CpuFault::NoOperand),
            AddrMode::Accumulator => Ok(self.a),
            AddrMode::Immediate => Ok(self.next_byte(bus)),
            _ => {
                let addr = self.instruction.operand_addr;
                Ok(self.read_byte(bus, addr))
            },
        }
    }

    /// Stores an operand: into the accumulator or at the operand address.
    pub fn set_operand(&mut self, bus: &mut Bus, val: u8) -> (r: Result<(), CpuFault>)
        requires
            old(bus).wf(),
        ensures
            final(bus).wf(),
            ({
                let m = old(self).instruction.addr_mode;
                &&& (m == AddrMode::Implied || m == AddrMode::Immediate || m == AddrMode::Relative)
                    ==> r == Err::<(), CpuFault>(CpuFault::NoOperand) && *final(self) == *old(self) && *final(bus) == *old(bus)
                &&& m == AddrMode::Accumulator ==> r is Ok && *final(self) == (CPU { a: val, ..*old(self) })
                    && *final(bus) == *old(bus)
                &&& !(m == AddrMode::Implied || m == AddrMode::Immediate || m == AddrMode::Relative
                    || m == AddrMode::Accumulator) ==> (r is Err ==> r == Err::<(), CpuFault>(CpuFault::ImpossibleWaveform))
                    && *final(self) == (CPU {
                        vic_irq: final(self).vic_irq,
                        cia_irq: final(self).cia_irq,
                        nmi: final(self).nmi,
                        ..*old(self)
                    })
                &&& !(m == AddrMode::Implied || m == AddrMode::Immediate || m == AddrMode::Relative
                    || m == AddrMode::Accumulator) && is_plain_write(old(bus).memory@, old(self).instruction.operand_addr)
                    ==> r is Ok && *final(self) == *old(self)
                    && final(bus).memory@ == bus_plain_write(old(bus).memory@, old(self).instruction.operand_addr, val)
                &&& !(m == AddrMode::Implied || m == AddrMode::Immediate || m == AddrMode::Relative
                    || m == AddrMode::Accumulator) ==> exists|wr: Result<bool, CpuFault>| #[trigger] bus_write(*old(bus),
                        *old(self), *final(bus), *final(self), old(self).instruction.operand_addr, val, wr)
                        && unit_result(wr) == r
            }),
    {
        match self.instruction.addr_mode {
            AddrMode::Implied => Err(CpuFault::NoOperand),
            AddrMode::Accumulator => {
                self.a = val;
                Ok(())
            },
            AddrMode::Immediate => Err(CpuFault::NoOperand),
            AddrMode::Relative => Err(CpuFault::NoOperand),
            _ => {
                let addr = self.instruction.operand_addr;
                let wr = self.write_byte(bus, addr, val);
                proof {
                    assert(bus_write(*old(bus), *old(self), *bus, *self, addr, val, wr));
                }
                match wr {
                    Ok(_) => Ok(()),
                    Err(e) => Err(e),
                }
            },
        }
    }

    /// One cycle of a branch: cycle 3 decides, cycle 2 jumps, cycle 1 finishes a page
    /// crossing. Returns false when the bus is not available (BA low).
    pub fn branch(&mut self, flag_condition: bool, cycle: u8) -> (r: Result<bool, CpuFault>)
        ensures
            !(1 <= cycle <= 3) ==> r == Err::<bool, CpuFault>(CpuFault::WrongCycleCount) && *final(self) == *old(self),
            cycle == 3 ==> {
                &&& r == Ok::<bool, CpuFault>(!old(self).ba_low)
                &&& old(self).ba_low ==> *final(self) == *old(self)
                &&& !old(self).ba_low && flag_condition ==> *final(self) == (CPU {
                    instruction: Instruction {
                        zp_crossed: (old(self).instruction.operand_addr >> 8) != (old(self).pc >> 8),
                        ..old(self).instruction
                    },
                    ..*old(self)
                })
                &&& !old(self).ba_low && !flag_condition ==> *final(self) == (CPU {
                    instruction: Instruction { cycles_to_run: 1, ..old(self).instruction },
                    ..*old(self)
                })
            },
            cycle == 2 ==> {
                let zc = old(self).instruction.zp_crossed;
                let fi = if zc { old(self).first_irq_cycle } else { inc32(old(self).first_irq_cycle) };
                let fn_ = if zc { old(self).first_nmi_cycle } else { inc32(old(self).first_nmi_cycle) };
                &&& r == Ok::<bool, CpuFault>(!old(self).ba_low)
                &&& old(self).ba_low ==> *final(self) == (CPU { first_irq_cycle: fi, first_nmi_cycle: fn_, ..*old(self) })
                &&& !old(self).ba_low ==> *final(self) == (CPU {
                    first_irq_cycle: fi,
                    first_nmi_cycle: fn_,
                    pc: old(self).instruction.operand_addr,
                    instruction: Instruction {
                        cycles_to_run: if zc { old(self).instruction.cycles_to_run } else { 1 },
                        ..old(self).instruction
                    },
                    ..*old(self)
                })
            },
            cycle == 1 ==> r == Ok::<bool, CpuFault>(!old(self).ba_low) && *final(self) == *old(self),
    {
        if cycle == 3 {
            if self.ba_low {
                return Ok(false);
            }
            if flag_condition {
                let addr = self.instruction.operand_addr;
                let pc = self.pc;
                self.instruction.zp_crossed = (addr >> 8) != (pc >> 8);
            } else {
                self.instruction.cycles_to_run = 1;
            }
        } else if cycle == 2 {
            if !self.instruction.zp_crossed {
                self.first_irq_cycle = self.first_irq_cycle.wrapping_add(1);
                self.first_nmi_cycle = self.first_nmi_cycle.wrapping_add(1);
            }
            if self.ba_low {
                return Ok(false);
            }
            let addr = self.instruction.operand_addr;
            self.pc = addr;
            if !self.instruction.zp_crossed {
                self.instruction.cycles_to_run = 1;
            }
        } else if cycle == 1 {
            if self.ba_low {
                return Ok(false);
            }
        } else {
            return Err(CpuFault::WrongCycleCount);
        }
        Ok(true)
    }

    /// Takes a pending NMI or IRQ before an opcode fetch.
    fn check_interrupts(&mut self, c64_cycle_cnt: u32)
        ensures
            *final(self) == after_interrupt_check(*old(self), c64_cycle_cnt),
    {
        if self.state == CPUState::FetchOp {
            if self.nmi && self.nmi_cycles_left == 0 && c64_cycle_cnt.wrapping_sub(self.first_nmi_cycle) >= 2 {
                self.nmi_cycles_left = 7;
                self.state = CPUState::ProcessNMI;
            } else if (self.cia_irq || self.vic_irq) && self.irq_cycles_left == 0
                && !self.get_status_flag(StatusFlag::InterruptDisable)
                && c64_cycle_cnt.wrapping_sub(self.first_irq_cycle) >= 2 {
                self.irq_cycles_left = 7;
                self.state = CPUState::ProcessIRQ;
            }
        }
    }

    /// Fetches and decodes the next opcode (and the offset of a branch).
    #[verifier::rlimit(40)]
    fn fetch_op(&mut self, bus: &mut Bus)
        requires
            old(bus).wf(),
        ensures
            final(bus).wf(),
            final(bus).memory@.ram == old(bus).memory@.ram,
            final(bus).memory@.io_on == old(bus).memory@.io_on,
            exists|opcode: u8, offset: u8| #[trigger] fetch_bytes(*old(self), *old(bus), opcode, offset)
                && *final(self) == (CPU { dfff_byte: final(self).dfff_byte, ..fetched(*old(self), opcode, offset) }),
    {
        let ghost c0 = *self;
        let ghost b0 = *bus;
        let next_op = self.next_byte(bus);
        let (opcode, total_cycles, is_rmw, addr_mode) = get_instruction(next_op).unwrap();
        self.instruction.opcode = opcode;
        self.instruction.addr_mode = addr_mode;
        self.instruction.is_rmw = is_rmw;
        self.instruction.calculate_cycles(total_cycles, is_rmw);
        let mut offset: u8 = 0;
        if addr_mode == AddrMode::Relative {
            let base = self.pc.wrapping_add(1);
            proof {
                if !(0xCFFF <= c0.pc <= 0xDFFF) {
                    lemma_read_outside_io_is_pure(b0.memory@, c0.pc);
                }
            }
            offset = self.next_byte(bus);
            let ext: u16 = if offset >= 0x80 { offset as u16 + 0xFF00 } else { offset as u16 };
            self.instruction.operand_addr = base.wrapping_add(ext);
            self.state = CPUState::ExecuteOp;
        } else if addr_mode == AddrMode::Implied || addr_mode == AddrMode::Accumulator
            || addr_mode == AddrMode::Immediate {
            self.state = CPUState::ExecuteOp;
        } else {
            self.state = CPUState::FetchOperandAddr;
        }
        // without an offset byte any witness will do, the one in memory in particular
        let ghost witness: u8 = if addr_mode == AddrMode::Relative { offset } else {
            b0.memory@.read_value(inc16(c0.pc))
        };
        assert(fetch_bytes(c0, b0, next_op, witness));
    }

    /// One cycle of the operand address fetch (see `operand_cycle_effect`).
    fn operand_cycle(&mut self, bus: &mut Bus) -> (r: Result<(), CpuFault>)
        requires
            old(bus).wf(),
        ensures
            final(bus).wf(),
            operand_cycle_effect(*old(self), *old(bus), *final(self), *final(bus), r),
    {
        let ghost c0 = *self;
        let ghost b0 = *bus;
        let r1 = fetch_operand_addr(self, bus);
        let ghost n1 = *self;
        let ghost nb1 = *bus;
        match r1 {
            Err(e) => {
                assert(fetch_effect(c0, b0, n1, nb1, r1));
                return Err(e);
            },
            Ok(done) => {
                if done {
                    if self.instruction.is_rmw {
                        self.state = CPUState::PerformRMW;
                    } else {
                        self.state = CPUState::ExecuteOp;
                    }
                }
            },
        }
        assert(*self == after_address_fetch(n1, r1));
        if self.instruction.cycles_to_run == 0 && self.instruction.cycles_to_fetch == 0 {
            let ghost n2 = *self;
            let r3 = run(self, bus);
            let ghost n3 = *self;
            self.state = CPUState::FetchOp;
            assert(run_effect(n2, nb1, n3, *bus, r3));
            assert(fetch_effect(c0, b0, n1, nb1, r1));
            match r3 {
                Ok(_) => Ok(()),
                Err(e) => Err(e),
            }
        } else {
            assert(fetch_effect(c0, b0, n1, nb1, r1));
            Ok(())
        }
    }

    /// One of the two RMW cycles (see `rmw_cycle_effect`).
    fn rmw_cycle(&mut self, bus: &mut Bus) -> (r: Result<(), CpuFault>)
        requires
            old(bus).wf(),
        ensures
            final(bus).wf(),
            rmw_cycle_effect(*old(self), *old(bus), *final(self), *final(bus), r),
    {
        let c = self.instruction.cycles_to_rmw;
        let addr = self.instruction.operand_addr;
        if c == 2 {
            if self.ba_low {
                return Ok(());
            }
            self.instruction.rmw_buffer = self.read_byte(bus, addr);
        } else if c == 1 {
            let v = self.instruction.rmw_buffer;
            match self.write_byte(bus, addr, v) {
                Ok(_) => {},
                Err(e) => {
                    return Err(e);
                },
            }
            self.state = CPUState::ExecuteOp;
        } else {
            return Err(CpuFault::WrongCycleCount);
        }
        self.instruction.cycles_to_rmw = c - 1;
        Ok(())
    }

    /// Runs the CPU for one cycle: takes a due interrupt before an opcode fetch, then works
    /// on the current state: opcode fetch, operand address fetch, RMW cycles, interrupt
    /// sequence or execution. Fetch cycles wait while the VIC holds the bus (BA low).
    pub fn update(&mut self, bus: &mut Bus, c64_cycle_cnt: u32) -> (r: Result<(), CpuFault>)
        requires
            old(bus).wf(),
        ensures
            final(bus).wf(),
            update_effect(*old(self), *old(bus), *final(self), *final(bus), r, c64_cycle_cnt),
    {
        self.check_interrupts(c64_cycle_cnt);
        match self.state {
            CPUState::FetchOp => {
                if self.ba_low {
                    return Ok(());
                }
                self.fetch_op(bus);
                Ok(())
            },
            CPUState::FetchOperandAddr => {
                if self.ba_low {
                    return Ok(());
                }
                self.operand_cycle(bus)
            },
            CPUState::ProcessIRQ => {
                match self.process_irq(bus, false) {
                    Ok(true) => {
                        self.cia_irq = false;
                        self.vic_irq = false;
                        self.state = CPUState::FetchOp;
                        Ok(())
                    },
                    Ok(false) => Ok(()),
                    Err(e) => Err(e),
                }
            },
            CPUState::ProcessNMI => {
                match self.process_irq(bus, true) {
                    Ok(true) => {
                        self.nmi = false;
                        self.state = CPUState::FetchOp;
                        Ok(())
                    },
                    Ok(false) => Ok(()),
                    Err(e) => Err(e),
                }
            },
            CPUState::PerformRMW => self.rmw_cycle(bus),
            CPUState::ExecuteOp => {
                let ghost m = *self;
                let ghost mb = *bus;
                let r1 = run(self, bus);
                assert(run_effect(m, mb, *self, *bus, r1));
                match r1 {
                    Ok(true) => {
                        self.state = CPUState::FetchOp;
                        Ok(())
                    },
                    Ok(false) => Ok(()),
                    Err(e) => Err(e),
                }
            },
        }
    }

    /// Loads PC from the reset vector.
    pub fn reset(&mut self, bus: &mut Bus)
        requires
            old(bus).wf(),
        ensures
            final(bus).wf(),
            final(self).pc == old(bus).memory@.word_le_value(RESET_VECTOR),
            final(self).p == p_with(old(self).p, StatusFlag::Unused, false),
            *final(self) == (CPU { pc: final(self).pc, p: final(self).p, ..*old(self) }),
    {
        let pc = bus.memory.read_word_le(RESET_VECTOR);
        self.pc = pc;
        self.set_status_flag(StatusFlag::Unused, false);
    }

    /// One cycle of the seven-cycle interrupt sequence: two idle cycles, push PC high and
    /// low, push P with B clear and set I, two cycles to fetch the vector. Returns whether
    /// the sequence is complete; cycles that need the bus wait while BA is low.
    pub fn process_irq(&mut self, bus: &mut Bus, is_nmi: bool) -> (r: Result<bool, CpuFault>)
        requires
            old(bus).wf(),
        ensures
            final(bus).wf(),
            final(self).state == old(self).state,
            final(self).cia_irq == old(self).cia_irq && final(self).vic_irq == old(self).vic_irq
                && final(self).nmi == old(self).nmi,
            irq_effect(*old(self), *old(bus), *final(self), *final(bus), r, is_nmi),
    {
        proof {
            reveal(irq_effect);
        }
        let new_pc = if is_nmi { NMI_VECTOR } else { IRQ_VECTOR };
        let cycle_cnt = if is_nmi { self.nmi_cycles_left } else { self.irq_cycles_left };
        if cycle_cnt == 7 || cycle_cnt == 6 {
            if self.ba_low {
                return Ok(false);
            }
        } else if cycle_cnt == 5 {
            let pc_hi = (self.pc >> 8) as u8;
            self.push_byte(bus, pc_hi);
        } else if cycle_cnt == 4 {
            let pc_lo = self.pc as u8;
            self.push_byte(bus, pc_lo);
        } else if cycle_cnt == 3 {
            self.set_status_flag(StatusFlag::Break, false);
            let curr_p = self.p;
            self.push_byte(bus, curr_p);
            self.set_status_flag(StatusFlag::InterruptDisable, true);
        } else if cycle_cnt == 2 {
            if self.ba_low {
                return Ok(false);
            }
        } else if cycle_cnt == 1 {
            if self.ba_low {
                return Ok(false);
            }
            self.pc = bus.memory.read_word_le(new_pc);
        } else {
            return Err(CpuFault::WrongCycleCount);
        }
        if is_nmi {
            self.nmi_cycles_left = self.nmi_cycles_left - 1;
            Ok(self.nmi_cycles_left == 0)
        } else {
            self.irq_cycles_left = self.irq_cycles_left - 1;
            Ok(self.irq_cycles_left == 0)
        }
    }
}

} // verus!
