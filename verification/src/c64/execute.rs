// The execution phase of 6510 instructions, one bus cycle at a time, grouped by the shape
// of their work: register loads and arithmetic, implied register operations, stores,
// read-modify-write operations, stack operations and control flow.
use vstd::prelude::*;
use crate::c64::cpu::{
    CPU, Bus, CpuFault, bus_write, unit_result, StatusFlag, bus_read_value, p_with, p_has, p_with_zn, adc_result,
    sbc_result, inc8, dec8, inc16, inc32, flag_mask, CPUState, IRQ_VECTOR, is_plain_write, bus_plain_write, stack_addr,
};
use crate::c64::opcodes::{Instruction, AddrMode, Op};

verus! {

/// The difference of two bytes, wrapped to a byte.
pub open spec fn sub8(a: u8, b: u8) -> u8 {
    if a >= b { (a - b) as u8 } else { (a - b + 256) as u8 }
}

/// The status register after comparing register value `r` with `v` (CMP, CPX, CPY).
pub open spec fn compare_p(p: u8, r: u8, v: u8) -> u8 {
    p_with_zn(p_with(p, StatusFlag::Carry, r >= v), sub8(r, v))
}

/// Whether the instruction reads an operand at all.
pub open spec fn has_operand(cpu: CPU) -> bool {
    cpu.instruction.is_rmw || cpu.instruction.addr_mode != AddrMode::Implied
}

/// Whether `v` can be the operand the current instruction reads: the pre-read byte of a
/// read-modify-write instruction, A in accumulator mode, or the byte at the operand
/// address (any byte, where that read is not determined by the machine state).
pub open spec fn operand_candidate(cpu: CPU, bus: Bus, v: u8) -> bool {
    if cpu.instruction.is_rmw {
        v == cpu.instruction.rmw_buffer
    } else if cpu.instruction.addr_mode == AddrMode::Accumulator {
        v == cpu.a
    } else {
        match cpu.operand_read_addr() {
            Some(addr) => bus_read_value(&bus, cpu.dfff_byte, addr) matches Some(x) ==> v == x,
            None => false,
        }
    }
}

/// PC after the operand was read: an immediate operand advances it.
pub open spec fn pc_after_operand(cpu: CPU) -> u16 {
    if !cpu.instruction.is_rmw && cpu.instruction.addr_mode == AddrMode::Immediate {
        inc16(cpu.pc)
    } else {
        cpu.pc
    }
}

/// Operations that read an operand into the registers.
pub open spec fn is_alu_op(op: Op) -> bool {
    op == Op::LDA || op == Op::LDX || op == Op::LDY || op == Op::AND || op == Op::EOR
        || op == Op::ORA || op == Op::BIT || op == Op::ADC || op == Op::SBC || op == Op::CMP
        || op == Op::CPX || op == Op::CPY || op == Op::LAX || op == Op::ANC
}

/// Registers (A, X, Y, P) after an operation that reads operand `v`.
pub open spec fn alu_regs(op: Op, a: u8, x: u8, y: u8, p: u8, v: u8) -> (u8, u8, u8, u8) {
    match op {
        Op::LDA => (v, x, y, p_with_zn(p, v)),
        Op::LDX => (a, v, y, p_with_zn(p, v)),
        Op::LDY => (a, x, v, p_with_zn(p, v)),
        Op::AND => (a & v, x, y, p_with_zn(p, a & v)),
        Op::EOR => (a ^ v, x, y, p_with_zn(p, a ^ v)),
        Op::ORA => (a | v, x, y, p_with_zn(p, a | v)),
        Op::BIT => (a, x, y, p_with(p_with(p_with(p, StatusFlag::Negative, (v & 0x80) != 0),
            StatusFlag::Overflow, (v & 0x40) != 0), StatusFlag::Zero, (v & a) == 0)),
        Op::ADC => (adc_result(a, v, p).0, x, y, adc_result(a, v, p).1),
        Op::SBC => (sbc_result(a, v, p).0, x, y, sbc_result(a, v, p).1),
        Op::CMP => (a, x, y, compare_p(p, a, v)),
        Op::CPX => (a, x, y, compare_p(p, x, v)),
        Op::CPY => (a, x, y, compare_p(p, y, v)),
        Op::LAX => (v, v, y, p_with_zn(p, v)),
        // ANC sets the flags from A & v, with C a copy of N, and leaves A as it was
        Op::ANC => (a, x, y, p_with(p_with_zn(p, a & v), StatusFlag::Carry,
            p_has(p_with_zn(p, a & v), StatusFlag::Negative))),
        _ => (a, x, y, p),
    }
}

/// Loading a value (LDA, LDX, LDY) puts it into the target register and keeps the other
/// two; the zero flag is set exactly when the value is 0, the negative flag is the
/// value's bit 7, and the other six bits of P are kept.
pub proof fn lemma_load_flags(op: Op, a: u8, x: u8, y: u8, p: u8, v: u8)
    requires
        op == Op::LDA || op == Op::LDX || op == Op::LDY,
    ensures
        ({
            let (na, nx, ny, np) = alu_regs(op, a, x, y, p, v);
            &&& op == Op::LDA ==> na == v && nx == x && ny == y
            &&& op == Op::LDX ==> na == a && nx == v && ny == y
            &&& op == Op::LDY ==> na == a && nx == x && ny == v
            &&& ((np & 0x02) != 0) == (v == 0)
            &&& ((np & 0x80) != 0) == ((v & 0x80) != 0)
            &&& np & 0x7D == p & 0x7D
        }),
{
    let q: u8 = if v == 0 { p | 0x02 } else { p & !0x02u8 };
    let np: u8 = if v >= 0x80 { q | 0x80 } else { q & !0x80u8 };
    assert(p_with_zn(p, v) == np);
    assert(((np & 0x02) != 0) == (v == 0) && ((np & 0x80) != 0) == ((v & 0x80) != 0) && np & 0x7D == p & 0x7D)
        by (bit_vector)
        requires
            q == (if v == 0 { p | 0x02 } else { p & !0x02u8 }),
            np == (if v >= 0x80 { q | 0x80 } else { q & !0x80u8 }),
    ;
}

/// Comparing (CMP with A, CPX with X, CPY with Y) keeps A, X and Y; the carry is set
/// exactly when the register is at least the value, the zero flag exactly when they are
/// equal, the negative flag is bit 7 of their difference, and the other five bits of P
/// are kept.
pub proof fn lemma_compare_flags(op: Op, a: u8, x: u8, y: u8, p: u8, v: u8)
    requires
        op == Op::CMP || op == Op::CPX || op == Op::CPY,
    ensures
        ({
            let (na, nx, ny, np) = alu_regs(op, a, x, y, p, v);
            let r = if op == Op::CMP { a } else if op == Op::CPX { x } else { y };
            &&& na == a && nx == x && ny == y
            &&& ((np & 0x01) != 0) == (r >= v)
            &&& ((np & 0x02) != 0) == (r == v)
            &&& ((np & 0x80) != 0) == ((sub8(r, v) & 0x80) != 0)
            &&& np & 0x7C == p & 0x7C
        }),
{
    let r = if op == Op::CMP { a } else if op == Op::CPX { x } else { y };
    let d = sub8(r, v);
    let ge = r >= v;
    let z = d == 0;
    assert(z == (r == v));
    let q0: u8 = if ge { p | 0x01 } else { p & !0x01u8 };
    let q: u8 = if z { q0 | 0x02 } else { q0 & !0x02u8 };
    let np: u8 = if d >= 0x80 { q | 0x80 } else { q & !0x80u8 };
    assert(compare_p(p, r, v) == np);
    assert(((np & 0x01) != 0) == ge && ((np & 0x02) != 0) == z && ((np & 0x80) != 0) == ((d & 0x80) != 0)
        && np & 0x7C == p & 0x7C) by (bit_vector)
        requires
            q0 == (if ge { p | 0x01 } else { p & !0x01u8 }),
            q == (if z { q0 | 0x02 } else { q0 & !0x02u8 }),
            np == (if d >= 0x80 { q | 0x80 } else { q & !0x80u8 }),
    ;
}

/// Law: EOR leaves in A the exclusive or of A and the value: each bit of the result is
/// set exactly when the two input bits differ; the zero flag is set exactly when the
/// result is 0, the negative flag is its bit 7, and X, Y and the other six bits of P are
/// kept.
pub proof fn lemma_eor_bits(a: u8, x: u8, y: u8, p: u8, v: u8)
    ensures
        ({
            let (na, nx, ny, np) = alu_regs(Op::EOR, a, x, y, p, v);
            &&& forall|i: u8| #![trigger (na >> i)] i < 8 ==> (((na >> i) & 1) == 1) == (((a >> i) & 1) != ((v >> i) & 1))
            &&& nx == x && ny == y
            &&& ((np & 0x02) != 0) == (na == 0)
            &&& ((np & 0x80) != 0) == ((na & 0x80) != 0)
            &&& np & 0x7D == p & 0x7D
        }),
{
    let na = a ^ v;
    assert(forall|i: u8| i < 8 ==> (((na >> i) & 1) == 1) == (((a >> i) & 1) != ((v >> i) & 1))) by (bit_vector)
        requires
            na == a ^ v,
    ;
    lemma_load_flags(Op::LDA, a, x, y, p, na);
}

/// Law: AND leaves in A the bits set in both A and the value, ORA the bits set in either;
/// X and Y are kept, and Z and N follow the new A as for every load.
pub proof fn lemma_and_ora_bits(a: u8, x: u8, y: u8, p: u8, v: u8)
    ensures
        ({
            let (na, nx, ny, np) = alu_regs(Op::AND, a, x, y, p, v);
            &&& forall|i: u8| #![trigger (na >> i)] i < 8 ==> (((na >> i) & 1) == 1)
                == (((a >> i) & 1) == 1 && ((v >> i) & 1) == 1)
            &&& nx == x && ny == y
            &&& ((np & 0x02) != 0) == (na == 0) && ((np & 0x80) != 0) == ((na & 0x80) != 0)
            &&& np & 0x7D == p & 0x7D
        }),
        ({
            let (na, nx, ny, np) = alu_regs(Op::ORA, a, x, y, p, v);
            &&& forall|i: u8| #![trigger (na >> i)] i < 8 ==> (((na >> i) & 1) == 1)
                == (((a >> i) & 1) == 1 || ((v >> i) & 1) == 1)
            &&& nx == x && ny == y
            &&& ((np & 0x02) != 0) == (na == 0) && ((np & 0x80) != 0) == ((na & 0x80) != 0)
            &&& np & 0x7D == p & 0x7D
        }),
{
    let n1 = a & v;
    let n2 = a | v;
    assert(forall|i: u8| i < 8 ==> (((n1 >> i) & 1) == 1) == (((a >> i) & 1) == 1 && ((v >> i) & 1) == 1)
        && (((n2 >> i) & 1) == 1) == (((a >> i) & 1) == 1 || ((v >> i) & 1) == 1)) by (bit_vector)
        requires
            n1 == a & v,
            n2 == a | v,
    ;
    lemma_load_flags(Op::LDA, a, x, y, p, n1);
    lemma_load_flags(Op::LDA, a, x, y, p, n2);
}

/// One execution cycle of an operand-reading operation: it waits while BA is low (ANC
/// does not), reads the operand, updates the registers and counts the cycle.
#[verifier::opaque]
pub open spec fn alu_effect(o: CPU, ob: Bus, n: CPU, nb: Bus, r: Result<bool, CpuFault>) -> bool {
    let op = o.instruction.opcode;
    if o.ba_low && op != Op::ANC {
        r == Ok::<bool, CpuFault>(false) && n == o && nb == ob
    } else if !has_operand(o) {
        r == Err::<bool, CpuFault>(CpuFault::NoOperand) && n == o && nb == ob
    } else {
        let c = dec8(o.instruction.cycles_to_run);
        &&& r == Ok::<bool, CpuFault>(c == 0)
        &&& exists|v: u8| #[trigger] operand_candidate(o, ob, v)
            && (n.a, n.x, n.y, n.p) == alu_regs(op, o.a, o.x, o.y, o.p, v)
        &&& n == (CPU {
            a: n.a,
            x: n.x,
            y: n.y,
            p: n.p,
            pc: pc_after_operand(o),
            dfff_byte: n.dfff_byte,
            instruction: Instruction { cycles_to_run: c, ..o.instruction },
            ..o
        })
        &&& nb.wf()
        &&& nb.memory@.ram == ob.memory@.ram
        &&& nb.memory@.io_on == ob.memory@.io_on
        &&& nb.vic == ob.vic
    }
}

/// Counts one execution cycle; returns whether the instruction is complete.
fn count_cycle(cpu: &mut CPU) -> (done: bool)
    ensures
        *final(cpu) == (CPU {
            instruction: Instruction {
                cycles_to_run: dec8(old(cpu).instruction.cycles_to_run),
                ..old(cpu).instruction
            },
            ..*old(cpu)
        }),
        done == (dec8(old(cpu).instruction.cycles_to_run) == 0),
{
    cpu.instruction.cycles_to_run = cpu.instruction.cycles_to_run.wrapping_sub(1);
    cpu.instruction.cycles_to_run == 0
}

/// P with one flag set or cleared.
fn with_flag(p: u8, flag: StatusFlag, value: bool) -> (r: u8)
    ensures
        r == p_with(p, flag, value),
{
    if value {
        p | flag_mask(flag)
    } else {
        p & !flag_mask(flag)
    }
}

/// P with Z and N set from a result value.
fn with_zn(p: u8, value: u8) -> (r: u8)
    ensures
        r == p_with_zn(p, value),
{
    with_flag(with_flag(p, StatusFlag::Zero, value == 0), StatusFlag::Negative, value >= 0x80)
}

/// The registers (A, X, Y, P) after an operand-reading operation other than ADC and SBC.
fn alu_compute(op: Op, a: u8, x: u8, y: u8, p: u8, v: u8) -> (r: (u8, u8, u8, u8))
    requires
        is_alu_op(op),
        op != Op::ADC && op != Op::SBC,
    ensures
        r == alu_regs(op, a, x, y, p, v),
{
    match op {
        Op::LDA => (v, x, y, with_zn(p, v)),
        Op::LDX => (a, v, y, with_zn(p, v)),
        Op::LDY => (a, x, v, with_zn(p, v)),
        Op::AND => (a & v, x, y, with_zn(p, a & v)),
        Op::EOR => (a ^ v, x, y, with_zn(p, a ^ v)),
        Op::ORA => (a | v, x, y, with_zn(p, a | v)),
        Op::BIT => {
            let p1 = with_flag(p, StatusFlag::Negative, (v & 0x80) != 0);
            let p2 = with_flag(p1, StatusFlag::Overflow, (v & 0x40) != 0);
            (a, x, y, with_flag(p2, StatusFlag::Zero, (v & a) == 0))
        },
        Op::CMP => (a, x, y, with_zn(with_flag(p, StatusFlag::Carry, a >= v), a.wrapping_sub(v))),
        Op::CPX => (a, x, y, with_zn(with_flag(p, StatusFlag::Carry, x >= v), x.wrapping_sub(v))),
        Op::CPY => (a, x, y, with_zn(with_flag(p, StatusFlag::Carry, y >= v), y.wrapping_sub(v))),
        Op::LAX => (v, v, y, with_zn(p, v)),
        _ => {
            let pz = with_zn(p, a & v);
            let n = pz & flag_mask(StatusFlag::Negative) != 0;
            (a, x, y, with_flag(pz, StatusFlag::Carry, n))
        },
    }
}

/// Executes one cycle of LDA, LDX, LDY, AND, EOR, ORA, BIT, ADC, SBC, CMP, CPX, CPY, LAX
/// or ANC.
pub fn run_alu(cpu: &mut CPU, bus: &mut Bus) -> (r: Result<bool, CpuFault>)
    requires
        old(bus).wf(),
        is_alu_op(old(cpu).instruction.opcode),
    ensures
        final(bus).wf(),
        final(cpu).state == old(cpu).state || final(cpu).state == CPUState::ProcessNMI,
        alu_effect(*old(cpu), *old(bus), *final(cpu), *final(bus), r),
{
    proof {
        reveal(alu_effect);
    }
    let op = cpu.instruction.opcode;
    if cpu.ba_low && op != Op::ANC {
        return Ok(false);
    }
    let ghost c0 = *cpu;
    let ghost b0 = *bus;
    let v = match cpu.get_operand(bus) {
        Ok(v) => v,
        Err(e) => {
            return Err(e);
        },
    };
    assert(operand_candidate(c0, b0, v));
    if op == Op::ADC {
        cpu.adc(v);
    } else if op == Op::SBC {
        cpu.sbc(v);
    } else {
        let (na, nx, ny, np) = alu_compute(op, cpu.a, cpu.x, cpu.y, cpu.p, v);
        cpu.a = na;
        cpu.x = nx;
        cpu.y = ny;
        cpu.p = np;
    }
    Ok(count_cycle(cpu))
}

/// Operations without operand that work on the registers alone (two cycles, the second
/// an idle read at PC).
pub open spec fn is_implied_op(op: Op) -> bool {
    op == Op::TAX || op == Op::TAY || op == Op::TXA || op == Op::TYA || op == Op::TSX
        || op == Op::TXS || op == Op::INX || op == Op::INY || op == Op::DEX || op == Op::DEY
        || op == Op::CLC || op == Op::CLD || op == Op::CLI || op == Op::CLV || op == Op::SEC
        || op == Op::SED || op == Op::SEI || op == Op::NOP
}

/// Registers (A, X, Y, SP, P) after an implied register operation.
pub open spec fn implied_regs(op: Op, a: u8, x: u8, y: u8, sp: u8, p: u8) -> (u8, u8, u8, u8, u8) {
    match op {
        Op::TAX => (a, a, y, sp, p_with_zn(p, a)),
        Op::TAY => (a, x, a, sp, p_with_zn(p, a)),
        Op::TXA => (x, x, y, sp, p_with_zn(p, x)),
        Op::TYA => (y, x, y, sp, p_with_zn(p, y)),
        Op::TSX => (a, sp, y, sp, p_with_zn(p, sp)),
        Op::TXS => (a, x, y, x, p),
        Op::INX => (a, inc8(x), y, sp, p_with_zn(p, inc8(x))),
        Op::INY => (a, x, inc8(y), sp, p_with_zn(p, inc8(y))),
        Op::DEX => (a, dec8(x), y, sp, p_with_zn(p, dec8(x))),
        Op::DEY => (a, x, dec8(y), sp, p_with_zn(p, dec8(y))),
        Op::CLC => (a, x, y, sp, p_with(p, StatusFlag::Carry, false)),
        Op::CLD => (a, x, y, sp, p_with(p, StatusFlag::DecimalMode, false)),
        Op::CLI => (a, x, y, sp, p_with(p, StatusFlag::InterruptDisable, false)),
        Op::CLV => (a, x, y, sp, p_with(p, StatusFlag::Overflow, false)),
        Op::SEC => (a, x, y, sp, p_with(p, StatusFlag::Carry, true)),
        Op::SED => (a, x, y, sp, p_with(p, StatusFlag::DecimalMode, true)),
        Op::SEI => (a, x, y, sp, p_with(p, StatusFlag::InterruptDisable, true)),
        _ => (a, x, y, sp, p),
    }
}

/// What an idle read leaves of the bus: a well-formed bus with RAM and the I/O switch
/// as they were.
pub open spec fn idle_read_bus(ob: Bus, nb: Bus) -> bool {
    nb.wf() && nb.memory@.ram == ob.memory@.ram && nb.memory@.io_on == ob.memory@.io_on
}

/// The CPU with its cycle counter counted down by one.
pub open spec fn counted(c: CPU) -> CPU {
    CPU { instruction: Instruction { cycles_to_run: dec8(c.instruction.cycles_to_run), ..c.instruction }, ..c }
}

/// The result of a cycle that completed on CPU state `n`: whether the instruction is done.
pub open spec fn done_result(n: CPU) -> Result<bool, CpuFault> {
    Ok(n.instruction.cycles_to_run == 0)
}

/// One execution cycle of an implied register operation: it waits while BA is low, makes
/// an idle read at PC and updates the registers.
#[verifier::opaque]
pub open spec fn implied_effect(o: CPU, ob: Bus, n: CPU, nb: Bus, r: Result<bool, CpuFault>) -> bool {
    if o.ba_low {
        r == Ok::<bool, CpuFault>(false) && n == o && nb == ob
    } else {
        let (a, x, y, sp, p) = implied_regs(o.instruction.opcode, o.a, o.x, o.y, o.sp, o.p);
        &&& n == counted(CPU { a, x, y, sp, p, dfff_byte: n.dfff_byte, ..o })
        &&& r == done_result(n)
        &&& idle_read_bus(ob, nb)
    }
}

/// The registers after an implied register operation.
fn implied_compute(op: Op, a: u8, x: u8, y: u8, sp: u8, p: u8) -> (r: (u8, u8, u8, u8, u8))
    requires
        is_implied_op(op),
    ensures
        r == implied_regs(op, a, x, y, sp, p),
{
    match op {
        Op::TAX => (a, a, y, sp, with_zn(p, a)),
        Op::TAY => (a, x, a, sp, with_zn(p, a)),
        Op::TXA => (x, x, y, sp, with_zn(p, x)),
        Op::TYA => (y, x, y, sp, with_zn(p, y)),
        Op::TSX => (a, sp, y, sp, with_zn(p, sp)),
        Op::TXS => (a, x, y, x, p),
        Op::INX => (a, x.wrapping_add(1), y, sp, with_zn(p, x.wrapping_add(1))),
        Op::INY => (a, x, y.wrapping_add(1), sp, with_zn(p, y.wrapping_add(1))),
        Op::DEX => (a, x.wrapping_sub(1), y, sp, with_zn(p, x.wrapping_sub(1))),
        Op::DEY => (a, x, y.wrapping_sub(1), sp, with_zn(p, y.wrapping_sub(1))),
        Op::CLC => (a, x, y, sp, with_flag(p, StatusFlag::Carry, false)),
        Op::CLD => (a, x, y, sp, with_flag(p, StatusFlag::DecimalMode, false)),
        Op::CLI => (a, x, y, sp, with_flag(p, StatusFlag::InterruptDisable, false)),
        Op::CLV => (a, x, y, sp, with_flag(p, StatusFlag::Overflow, false)),
        Op::SEC => (a, x, y, sp, with_flag(p, StatusFlag::Carry, true)),
        Op::SED => (a, x, y, sp, with_flag(p, StatusFlag::DecimalMode, true)),
        Op::SEI => (a, x, y, sp, with_flag(p, StatusFlag::InterruptDisable, true)),
        _ => (a, x, y, sp, p),
    }
}

/// Executes one cycle of a transfer, increment, decrement, flag operation or NOP.
pub fn run_implied(cpu: &mut CPU, bus: &mut Bus) -> (r: Result<bool, CpuFault>)
    requires
        old(bus).wf(),
        is_implied_op(old(cpu).instruction.opcode),
    ensures
        final(bus).wf(),
        final(cpu).state == old(cpu).state || final(cpu).state == CPUState::ProcessNMI,
        implied_effect(*old(cpu), *old(bus), *final(cpu), *final(bus), r),
{
    proof {
        reveal(implied_effect);
    }
    if cpu.ba_low {
        return Ok(false);
    }
    let pc = cpu.pc;
    cpu.read_idle(bus, pc);
    let (a, x, y, sp, p) = implied_compute(cpu.instruction.opcode, cpu.a, cpu.x, cpu.y, cpu.sp, cpu.p);
    cpu.a = a;
    cpu.x = x;
    cpu.y = y;
    cpu.sp = sp;
    cpu.p = p;
    Ok(count_cycle(cpu))
}

/// Operations that store a register combination at the operand address.
pub open spec fn is_store_op(op: Op) -> bool {
    op == Op::STA || op == Op::STX || op == Op::STY || op == Op::SAX || op == Op::AHX
        || op == Op::TAS || op == Op::SHY || op == Op::SHX
}

/// The byte a store operation writes; `hi` is the high byte of the base address, which
/// the undocumented stores AND in after adding one.
pub open spec fn store_value(op: Op, a: u8, x: u8, y: u8, hi: u8) -> u8 {
    match op {
        Op::STA => a,
        Op::STX => x,
        Op::STY => y,
        Op::SAX => a & x,
        Op::AHX => y & inc8(hi),
        Op::TAS => (a & x) & inc8(hi),
        Op::SHY => a & x & inc8(hi),
        _ => x & inc8(hi),
    }
}

/// Modes in which an operand cannot be written.
pub open spec fn unwritable_mode(m: AddrMode) -> bool {
    m == AddrMode::Implied || m == AddrMode::Immediate || m == AddrMode::Relative
}

/// CPU `c` with the interrupt lines of `n`.
pub open spec fn with_irq_lines(c: CPU, n: CPU) -> CPU {
    CPU { vic_irq: n.vic_irq, cia_irq: n.cia_irq, nmi: n.nmi, ..c }
}

/// The CPU as a store writes: TAS has loaded SP with A & X.
pub open spec fn store_writer(o: CPU) -> CPU {
    if o.instruction.opcode == Op::TAS { CPU { sp: o.a & o.x, ..o } } else { o }
}

/// The CPU as a read-modify-write operation writes `w`: ISC keeps it in the RMW buffer.
pub open spec fn rmw_writer(o: CPU, w: u8) -> CPU {
    if o.instruction.opcode == Op::ISC {
        CPU { instruction: Instruction { rmw_buffer: w, ..o.instruction }, ..o }
    } else {
        o
    }
}

/// One execution cycle of a store: SAX goes through the operand (so it can land in A),
/// the others write at the operand address; TAS also loads SP with A & X.
#[verifier::opaque]
pub open spec fn store_effect(o: CPU, ob: Bus, n: CPU, nb: Bus, r: Result<bool, CpuFault>) -> bool {
    let op = o.instruction.opcode;
    let m = o.instruction.addr_mode;
    let addr = o.instruction.operand_addr;
    let v = store_value(op, o.a, o.x, o.y, o.instruction.index_addr as u8);
    let sp = if op == Op::TAS { o.a & o.x } else { o.sp };
    &&& nb.wf()
    &&& op == Op::SAX && unwritable_mode(m) ==> r == Err::<bool, CpuFault>(CpuFault::NoOperand) && n == o && nb == ob
    &&& op == Op::SAX && m == AddrMode::Accumulator ==> n == counted(CPU { a: v, ..o }) && r == done_result(n) && nb == ob
    &&& !(op == Op::SAX && (unwritable_mode(m) || m == AddrMode::Accumulator)) ==> {
        &&& r is Err ==> r == Err::<bool, CpuFault>(CpuFault::ImpossibleWaveform)
        &&& r is Ok ==> n == counted(CPU { sp, vic_irq: n.vic_irq, cia_irq: n.cia_irq, nmi: n.nmi, ..o })
            && r == done_result(n)
        &&& is_plain_write(ob.memory@, addr) ==> r is Ok && n == counted(CPU { sp, ..o })
            && nb.memory@ == bus_plain_write(ob.memory@, addr, v)
        &&& exists|nc: CPU, wr: Result<bool, CpuFault>| #[trigger] bus_write(ob, store_writer(o), nb, nc, addr, v, wr)
            && unit_result(wr) == unit_result(r)
            && n.vic_irq == nc.vic_irq && n.cia_irq == nc.cia_irq && n.nmi == nc.nmi
    }
}

/// The byte a store operation writes.
fn store_compute(op: Op, a: u8, x: u8, y: u8, hi: u8) -> (v: u8)
    ensures
        v == store_value(op, a, x, y, hi),
{
    match op {
        Op::STA => a,
        Op::STX => x,
        Op::STY => y,
        Op::SAX => a & x,
        Op::AHX => y & hi.wrapping_add(1),
        Op::TAS => (a & x) & hi.wrapping_add(1),
        Op::SHY => a & x & hi.wrapping_add(1),
        _ => x & hi.wrapping_add(1),
    }
}

/// Executes the write cycle of STA, STX, STY, SAX, AHX, TAS, SHY or SHX.
#[verifier::rlimit(40)]
#[verifier::rlimit(60)]
#[verifier::spinoff_prover]
pub fn run_store(cpu: &mut CPU, bus: &mut Bus) -> (r: Result<bool, CpuFault>)
    requires
        old(bus).wf(),
        is_store_op(old(cpu).instruction.opcode),
    ensures
        final(bus).wf(),
        final(cpu).state == old(cpu).state || final(cpu).state == CPUState::ProcessNMI,
        store_effect(*old(cpu), *old(bus), *final(cpu), *final(bus), r),
{
    proof {
        reveal(store_effect);
    }
    let op = cpu.instruction.opcode;
    let addr = cpu.instruction.operand_addr;
    let hi: u8 = #[verifier::truncate] (cpu.instruction.index_addr as u8);
    let v = store_compute(op, cpu.a, cpu.x, cpu.y, hi);
    let ghost b0 = *bus;
    if op == Op::SAX {
        let ghost c0 = *cpu;
        let rs = cpu.set_operand(bus, v);
        let ghost c1 = *cpu;
        let ghost b1 = *bus;
        proof {
            let m = c0.instruction.addr_mode;
            if !(m == AddrMode::Implied || m == AddrMode::Immediate || m == AddrMode::Relative
                || m == AddrMode::Accumulator) {
                let wr = choose|wr: Result<bool, CpuFault>| #[trigger] bus_write(b0, c0, b1, c1, addr, v, wr)
                    && unit_result(wr) == rs;
                assert(store_writer(c0) == c0);
                assert(bus_write(b0, store_writer(c0), b1, c1, addr, v, wr));
            }
        }
        match rs {
            Ok(()) => {},
            Err(e) => {
                return Err(e);
            },
        }
    } else {
        let ghost co = *cpu;
        if op == Op::TAS {
            cpu.sp = cpu.a & cpu.x;
        }
        let ghost c0 = *cpu;
        let wr = cpu.write_byte(bus, addr, v);
        proof {
            assert(store_writer(co) == c0);
            assert(bus_write(b0, store_writer(co), *bus, *cpu, addr, v, wr));
        }
        match wr {
            Ok(_) => {},
            Err(e) => {
                return Err(e);
            },
        }
    }
    Ok(count_cycle(cpu))
}

/// Read-modify-write operations (and the shifts, which also work on A).
pub open spec fn is_rmw_op(op: Op) -> bool {
    op == Op::INC || op == Op::DEC || is_shift_op(op) || op == Op::SLO || op == Op::RLA
        || op == Op::SRE || op == Op::RRA || op == Op::DCP || op == Op::ISC
}

/// The shifts and rotates: their operand is read like any other operand.
pub open spec fn is_shift_op(op: Op) -> bool {
    op == Op::ASL || op == Op::LSR || op == Op::ROL || op == Op::ROR
}

/// Operations that store their result through the operand (into A or memory).
pub open spec fn stores_through_operand(op: Op) -> bool {
    is_rmw_op(op) && op != Op::INC && op != Op::DEC && op != Op::RRA
}

/// The value a read-modify-write operation computes from the operand `m`.
pub open spec fn rmw_value(op: Op, m: u8, p: u8) -> u8 {
    match op {
        Op::INC => inc8(m),
        Op::DEC => dec8(m),
        Op::ASL => m << 1,
        Op::SLO => m << 1,
        Op::LSR => m >> 1,
        Op::SRE => m >> 1,
        Op::ROL => (m << 1) | (if p_has(p, StatusFlag::Carry) { 1u8 } else { 0u8 }),
        Op::RLA => (m << 1) | (if p_has(p, StatusFlag::Carry) { 1u8 } else { 0u8 }),
        Op::ROR => (m >> 1) | (if p_has(p, StatusFlag::Carry) { 0x80u8 } else { 0u8 }),
        Op::RRA => (m >> 1) | (if p_has(p, StatusFlag::Carry) { 0x80u8 } else { 0u8 }),
        Op::DCP => dec8(m),
        Op::ISC => inc8(m),
        _ => m,
    }
}

/// The bit shifted out into C.
pub open spec fn rmw_carry(op: Op, m: u8) -> bool {
    if op == Op::ASL || op == Op::ROL || op == Op::SLO || op == Op::RLA {
        (m & 0x80) != 0
    } else {
        (m & 0x01) != 0
    }
}

/// A and P after a read-modify-write operation on operand `m` in addressing mode `mode`
/// (in accumulator mode the stored result is A before the combining step).
pub open spec fn rmw_regs(op: Op, mode: AddrMode, a: u8, p: u8, m: u8) -> (u8, u8) {
    let w = rmw_value(op, m, p);
    let a1 = if mode == AddrMode::Accumulator { w } else { a };
    let pc = p_with(p, StatusFlag::Carry, rmw_carry(op, m));
    match op {
        Op::INC => (a, p_with_zn(p, w)),
        Op::DEC => (a, p_with_zn(p, w)),
        Op::SLO => (a1 | w, p_with_zn(pc, a1 | w)),
        Op::RLA => (a1 & w, p_with_zn(pc, a1 & w)),
        Op::SRE => (a1 ^ w, p_with_zn(pc, a1 ^ w)),
        Op::RRA => adc_result(a, w, pc),
        Op::DCP => (a1, p_with(p_with_zn(p, sub8(a1, w)), StatusFlag::Carry, a1 >= w)),
        Op::ISC => sbc_result(a1, w, p),
        _ => (a1, p_with_zn(pc, w)),
    }
}

/// Whether the operation writes its result to memory (at the operand address).
pub open spec fn rmw_writes_memory(op: Op, mode: AddrMode) -> bool {
    op == Op::INC || op == Op::DEC || (stores_through_operand(op) && !unwritable_mode(mode)
        && mode != AddrMode::Accumulator)
}

/// One execution cycle of a read-modify-write operation. The shifts in accumulator mode
/// wait while BA is low. INC and DEC write at the operand address, RRA writes nothing,
/// the others store through the operand. The operand of the shifts is read as usual, the
/// others work on the byte pre-read in the RMW cycles (ISC keeps its result there).
#[verifier::opaque]
pub open spec fn rmw_effect(o: CPU, ob: Bus, n: CPU, nb: Bus, r: Result<bool, CpuFault>) -> bool {
    let op = o.instruction.opcode;
    let mode = o.instruction.addr_mode;
    let addr = o.instruction.operand_addr;
    if is_shift_op(op) && o.ba_low && mode == AddrMode::Accumulator {
        r == Ok::<bool, CpuFault>(false) && n == o && nb == ob
    } else {
        &&& nb.wf()
        &&& (r == Err::<bool, CpuFault>(CpuFault::NoOperand)) == (stores_through_operand(op) && unwritable_mode(mode))
        &&& r is Err ==> r == Err::<bool, CpuFault>(CpuFault::NoOperand) || r == Err::<bool, CpuFault>(CpuFault::ImpossibleWaveform)
        &&& !(stores_through_operand(op) && unwritable_mode(mode)) && (rmw_writes_memory(op, mode)
            ==> is_plain_write(ob.memory@, addr)) ==> r is Ok
        &&& r is Ok ==> exists|v: u8| #[trigger] rmw_operand(o, ob, v) && rmw_outcome(o, ob, n, nb, v) && r == done_result(n)
    }
}

/// Whether `v` can be the operand of a read-modify-write operation.
pub open spec fn rmw_operand(o: CPU, ob: Bus, v: u8) -> bool {
    if is_shift_op(o.instruction.opcode) { operand_candidate(o, ob, v) } else { v == o.instruction.rmw_buffer }
}

/// The state after a read-modify-write operation on operand `v` completed its cycle.
pub open spec fn rmw_outcome(o: CPU, ob: Bus, n: CPU, nb: Bus, v: u8) -> bool {
    let op = o.instruction.opcode;
    let mode = o.instruction.addr_mode;
    let w = rmw_value(op, v, o.p);
    let (a, p) = rmw_regs(op, mode, o.a, o.p, v);
    &&& n == counted(CPU {
        a,
        p,
        pc: if is_shift_op(op) { pc_after_operand(o) } else { o.pc },
        dfff_byte: n.dfff_byte,
        vic_irq: n.vic_irq,
        cia_irq: n.cia_irq,
        nmi: n.nmi,
        instruction: Instruction {
            rmw_buffer: if op == Op::ISC { w } else { o.instruction.rmw_buffer },
            ..o.instruction
        },
        ..o
    })
    &&& rmw_writes_memory(op, mode) && (o.instruction.is_rmw || !is_shift_op(op))
        && is_plain_write(ob.memory@, o.instruction.operand_addr)
        ==> nb.memory@ == bus_plain_write(ob.memory@, o.instruction.operand_addr, w)
    &&& rmw_writes_memory(op, mode) && (o.instruction.is_rmw || !is_shift_op(op)) ==>
        exists|wr: Result<bool, CpuFault>| #[trigger] bus_write(ob, rmw_writer(o, w), nb,
            with_irq_lines(rmw_writer(o, w), n), o.instruction.operand_addr, w, wr) && wr is Ok
    &&& !rmw_writes_memory(op, mode) && (o.instruction.is_rmw || mode == AddrMode::Accumulator
        || !is_shift_op(op)) ==> nb == ob
}

/// The written value, A and P of a read-modify-write operation other than RRA and ISC.
fn rmw_compute(op: Op, mode: AddrMode, a: u8, p: u8, m: u8) -> (r: (u8, u8, u8))
    requires
        is_rmw_op(op),
        op != Op::RRA && op != Op::ISC,
    ensures
        r.0 == rmw_value(op, m, p),
        (r.1, r.2) == rmw_regs(op, mode, a, p, m),
{
    let c = p & flag_mask(StatusFlag::Carry) != 0;
    let w = match op {
        Op::INC => m.wrapping_add(1),
        Op::DEC => m.wrapping_sub(1),
        Op::ASL => m << 1,
        Op::SLO => m << 1,
        Op::LSR => m >> 1,
        Op::SRE => m >> 1,
        Op::ROL => (m << 1) | (if c { 1u8 } else { 0u8 }),
        Op::RLA => (m << 1) | (if c { 1u8 } else { 0u8 }),
        Op::ROR => (m >> 1) | (if c { 0x80u8 } else { 0u8 }),
        _ => m.wrapping_sub(1),
    };
    let a1 = if mode == AddrMode::Accumulator { w } else { a };
    let carry = if op == Op::ASL || op == Op::ROL || op == Op::SLO || op == Op::RLA {
        (m & 0x80) != 0
    } else {
        (m & 0x01) != 0
    };
    let pc = with_flag(p, StatusFlag::Carry, carry);
    match op {
        Op::INC => (w, a, with_zn(p, w)),
        Op::DEC => (w, a, with_zn(p, w)),
        Op::SLO => (w, a1 | w, with_zn(pc, a1 | w)),
        Op::RLA => (w, a1 & w, with_zn(pc, a1 & w)),
        Op::SRE => (w, a1 ^ w, with_zn(pc, a1 ^ w)),
        Op::DCP => (w, a1, with_flag(with_zn(p, a1.wrapping_sub(w)), StatusFlag::Carry, a1 >= w)),
        _ => (w, a1, with_zn(pc, w)),
    }
}

/// Executes the write cycle of INC or DEC.
fn run_incdec(cpu: &mut CPU, bus: &mut Bus) -> (r: Result<bool, CpuFault>)
    requires
        old(bus).wf(),
        old(cpu).instruction.opcode == Op::INC || old(cpu).instruction.opcode == Op::DEC,
    ensures
        final(bus).wf(),
        final(cpu).state == old(cpu).state || final(cpu).state == CPUState::ProcessNMI,
        rmw_effect(*old(cpu), *old(bus), *final(cpu), *final(bus), r),
{
    proof {
        reveal(rmw_effect);
    }
    let ghost c0 = *cpu;
    let ghost b0 = *bus;
    let m = cpu.instruction.rmw_buffer;
    let (w, a, p) = rmw_compute(cpu.instruction.opcode, cpu.instruction.addr_mode, cpu.a, cpu.p, m);
    let addr = cpu.instruction.operand_addr;
    let wr = cpu.write_byte(bus, addr, w);
    let ghost c1 = *cpu;
    match wr {
        Ok(_) => {},
        Err(e) => {
            return Err(e);
        },
    }
    cpu.a = a;
    cpu.p = p;
    let done = count_cycle(cpu);
    assert(rmw_writer(c0, w) == c0);
    assert(with_irq_lines(c0, *cpu) == c1);
    assert(bus_write(b0, rmw_writer(c0, w), *bus, with_irq_lines(rmw_writer(c0, w), *cpu), addr, w, wr));
    assert(rmw_operand(c0, b0, m) && rmw_outcome(c0, b0, *cpu, *bus, m));
    Ok(done)
}

/// Executes the execution cycle of ASL, LSR, ROL or ROR.
#[verifier::rlimit(40)]
fn run_shift(cpu: &mut CPU, bus: &mut Bus) -> (r: Result<bool, CpuFault>)
    requires
        old(bus).wf(),
        is_shift_op(old(cpu).instruction.opcode),
    ensures
        final(bus).wf(),
        final(cpu).state == old(cpu).state || final(cpu).state == CPUState::ProcessNMI,
        rmw_effect(*old(cpu), *old(bus), *final(cpu), *final(bus), r),
{
    proof {
        reveal(rmw_effect);
    }
    if cpu.ba_low && cpu.instruction.addr_mode == AddrMode::Accumulator {
        return Ok(false);
    }
    let ghost c0 = *cpu;
    let ghost b0 = *bus;
    let m = match cpu.get_operand(bus) {
        Ok(v) => v,
        Err(e) => {
            return Err(e);
        },
    };
    assert(operand_candidate(c0, b0, m));
    let (w, a, p) = rmw_compute(cpu.instruction.opcode, cpu.instruction.addr_mode, cpu.a, cpu.p, m);
    let ghost cp = *cpu;
    let ghost bp = *bus;
    let rs = cpu.set_operand(bus, w);
    let ghost c1 = *cpu;
    let ghost b1 = *bus;
    match rs {
        Ok(()) => {},
        Err(e) => {
            return Err(e);
        },
    }
    cpu.a = a;
    cpu.p = p;
    let done = count_cycle(cpu);
    proof {
        if rmw_writes_memory(c0.instruction.opcode, c0.instruction.addr_mode) && c0.instruction.is_rmw {
            let wr = choose|wr: Result<bool, CpuFault>| #[trigger] bus_write(bp, cp, b1, c1, c0.instruction.operand_addr, w, wr)
                && unit_result(wr) == rs;
            assert(rmw_writer(c0, w) == c0 && cp == c0 && bp == b0);
            assert(with_irq_lines(c0, *cpu) == c1);
            assert(bus_write(b0, rmw_writer(c0, w), b1, with_irq_lines(rmw_writer(c0, w), *cpu),
                c0.instruction.operand_addr, w, wr));
        }
    }
    assert(rmw_operand(c0, b0, m) && rmw_outcome(c0, b0, *cpu, *bus, m));
    Ok(done)
}

/// Executes the write cycle of SLO, RLA, SRE, DCP or ISC.
#[verifier::rlimit(80)]
#[verifier::spinoff_prover]
fn run_illegal_rmw(cpu: &mut CPU, bus: &mut Bus) -> (r: Result<bool, CpuFault>)
    requires
        old(bus).wf(),
        stores_through_operand(old(cpu).instruction.opcode),
        !is_shift_op(old(cpu).instruction.opcode),
    ensures
        final(bus).wf(),
        final(cpu).state == old(cpu).state || final(cpu).state == CPUState::ProcessNMI,
        rmw_effect(*old(cpu), *old(bus), *final(cpu), *final(bus), r),
{
    proof {
        reveal(rmw_effect);
    }
    let ghost c0 = *cpu;
    let ghost b0 = *bus;
    let m = cpu.instruction.rmw_buffer;
    let op = cpu.instruction.opcode;
    if op == Op::ISC {
        let w = m.wrapping_add(1);
        cpu.instruction.rmw_buffer = w;
        let ghost cp = *cpu;
        let rs = cpu.set_operand(bus, w);
        let ghost c1 = *cpu;
        let ghost b1 = *bus;
        match rs {
            Ok(()) => {},
            Err(e) => {
                return Err(e);
            },
        }
        cpu.sbc(w);
        proof {
            if rmw_writes_memory(op, c0.instruction.addr_mode) {
                let wr = choose|wr: Result<bool, CpuFault>| #[trigger] bus_write(b0, cp, b1, c1, c0.instruction.operand_addr, w, wr)
                    && unit_result(wr) == rs;
                assert(rmw_writer(c0, w) == cp);
                assert(with_irq_lines(cp, *cpu) == c1);
                assert(bus_write(b0, rmw_writer(c0, w), b1, with_irq_lines(rmw_writer(c0, w), *cpu),
                    c0.instruction.operand_addr, w, wr));
            }
        }
    } else {
        let (w, a, p) = rmw_compute(op, cpu.instruction.addr_mode, cpu.a, cpu.p, m);
        let rs = cpu.set_operand(bus, w);
        let ghost c1 = *cpu;
        let ghost b1 = *bus;
        match rs {
            Ok(()) => {},
            Err(e) => {
                return Err(e);
            },
        }
        cpu.a = a;
        cpu.p = p;
        proof {
            if rmw_writes_memory(op, c0.instruction.addr_mode) {
                let wr = choose|wr: Result<bool, CpuFault>| #[trigger] bus_write(b0, c0, b1, c1, c0.instruction.operand_addr, w, wr)
                    && unit_result(wr) == rs;
                assert(rmw_writer(c0, w) == c0);
                assert(with_irq_lines(c0, *cpu) == c1);
                assert(bus_write(b0, rmw_writer(c0, w), b1, with_irq_lines(rmw_writer(c0, w), *cpu),
                    c0.instruction.operand_addr, w, wr));
            }
        }
    }
    let done = count_cycle(cpu);
    assert(rmw_operand(c0, b0, m) && rmw_outcome(c0, b0, *cpu, *bus, m));
    Ok(done)
}

/// Executes the execution cycle of RRA: rotate the pre-read byte right and add it to A.
fn run_rra(cpu: &mut CPU, bus: &mut Bus) -> (r: Result<bool, CpuFault>)
    requires
        old(bus).wf(),
        old(cpu).instruction.opcode == Op::RRA,
    ensures
        final(bus).wf(),
        final(cpu).state == old(cpu).state || final(cpu).state == CPUState::ProcessNMI,
        rmw_effect(*old(cpu), *old(bus), *final(cpu), *final(bus), r),
{
    proof {
        reveal(rmw_effect);
    }
    let ghost c0 = *cpu;
    let ghost b0 = *bus;
    let m = cpu.instruction.rmw_buffer;
    let c = cpu.get_status_flag(StatusFlag::Carry);
    let w = (m >> 1) | (if c { 0x80u8 } else { 0u8 });
    cpu.set_status_flag(StatusFlag::Carry, (m & 0x01) != 0);
    cpu.adc(w);
    let done = count_cycle(cpu);
    assert(rmw_operand(c0, b0, m) && rmw_outcome(c0, b0, *cpu, *bus, m));
    Ok(done)
}

/// Executes one cycle of INC, DEC, ASL, LSR, ROL, ROR, SLO, RLA, SRE, RRA, DCP or ISC.
pub fn run_rmw(cpu: &mut CPU, bus: &mut Bus) -> (r: Result<bool, CpuFault>)
    requires
        old(bus).wf(),
        is_rmw_op(old(cpu).instruction.opcode),
    ensures
        final(bus).wf(),
        final(cpu).state == old(cpu).state || final(cpu).state == CPUState::ProcessNMI,
        rmw_effect(*old(cpu), *old(bus), *final(cpu), *final(bus), r),
{
    proof {
        reveal(rmw_effect);
    }
    let op = cpu.instruction.opcode;
    if op == Op::INC || op == Op::DEC {
        run_incdec(cpu, bus)
    } else if op == Op::ASL || op == Op::LSR || op == Op::ROL || op == Op::ROR {
        run_shift(cpu, bus)
    } else if op == Op::RRA {
        run_rra(cpu, bus)
    } else {
        run_illegal_rmw(cpu, bus)
    }
}

/// Decrement with wrap-around.
pub open spec fn dec16(x: u16) -> u16 {
    if x == 0 { 0xFFFF } else { (x - 1) as u16 }
}

/// The stack operations.
pub open spec fn is_stack_op(op: Op) -> bool {
    op == Op::PHA || op == Op::PHP || op == Op::PLA || op == Op::PLP
}

/// One execution cycle of PHA, PHP (an idle read, then the push) or PLA, PLP (two idle
/// reads, then the pull). A push waits for BA only in its idle cycle, a pull in all.
#[verifier::opaque]
pub open spec fn stack_effect(o: CPU, ob: Bus, n: CPU, nb: Bus, r: Result<bool, CpuFault>) -> bool {
    let op = o.instruction.opcode;
    let c = o.instruction.cycles_to_run;
    let push = op == Op::PHA || op == Op::PHP;
    if o.ba_low && (!push || c == 2) {
        r == Ok::<bool, CpuFault>(false) && n == o && nb == ob
    } else if (push && !(1 <= c <= 2)) || (!push && !(1 <= c <= 3)) {
        r == Err::<bool, CpuFault>(CpuFault::WrongCycleCount) && n == o && nb == ob
    } else {
        let v = ob.memory@.read_value(stack_addr(inc8(o.sp)));
        &&& nb.wf()
        &&& r == done_result(n)
        &&& c >= 2 ==> n == counted(CPU { dfff_byte: n.dfff_byte, ..o }) && idle_read_bus(ob, nb)
        &&& push && c == 1 ==> n == counted(CPU { sp: dec8(o.sp), ..o })
            && nb.memory@ == ob.memory@.after_write(stack_addr(o.sp), if op == Op::PHA { o.a } else { o.p })
        &&& op == Op::PLA && c == 1 ==> n == counted(CPU { sp: inc8(o.sp), a: v, p: p_with_zn(o.p, v), ..o })
            && nb.memory@ == ob.memory@
        &&& op == Op::PLP && c == 1 ==> n == counted(CPU { sp: inc8(o.sp), p: v, ..o }) && nb.memory@ == ob.memory@
    }
}

/// Executes one cycle of PHA, PHP, PLA or PLP.
#[verifier::rlimit(40)]
#[verifier::spinoff_prover]
pub fn run_stack(cpu: &mut CPU, bus: &mut Bus) -> (r: Result<bool, CpuFault>)
    requires
        old(bus).wf(),
        is_stack_op(old(cpu).instruction.opcode),
    ensures
        final(bus).wf(),
        final(cpu).state == old(cpu).state || final(cpu).state == CPUState::ProcessNMI,
        stack_effect(*old(cpu), *old(bus), *final(cpu), *final(bus), r),
{
    proof {
        reveal(stack_effect);
    }
    let op = cpu.instruction.opcode;
    let c = cpu.instruction.cycles_to_run;
    let push = op == Op::PHA || op == Op::PHP;
    if cpu.ba_low && (!push || c == 2) {
        return Ok(false);
    }
    if (push && !(1 <= c && c <= 2)) || (!push && !(1 <= c && c <= 3)) {
        return Err(CpuFault::WrongCycleCount);
    }
    if c == 3 || (push && c == 2) {
        let pc = cpu.pc;
        cpu.read_idle(bus, pc);
    } else if c == 2 {
        let sp = cpu.sp as u16;
        cpu.read_idle(bus, sp + 1);
    } else if op == Op::PHA {
        let a = cpu.a;
        cpu.push_byte(bus, a);
    } else if op == Op::PHP {
        let p = cpu.p;
        cpu.push_byte(bus, p);
    } else if op == Op::PLA {
        let a = cpu.pop_byte(bus);
        cpu.a = a;
        cpu.set_zn_flags(a);
    } else {
        let p = cpu.pop_byte(bus);
        cpu.p = p;
    }
    Ok(count_cycle(cpu))
}

/// One execution cycle of JMP: the absolute form finishes in its last fetch cycle (count
/// 0), the indirect one idles one cycle first.
#[verifier::opaque]
pub open spec fn jmp_effect(o: CPU, ob: Bus, n: CPU, nb: Bus, r: Result<bool, CpuFault>) -> bool {
    let c = o.instruction.cycles_to_run;
    if o.ba_low {
        r == Ok::<bool, CpuFault>(false) && n == o && nb == ob
    } else if c == 2 {
        n == counted(o) && r == done_result(n) && nb == ob
    } else if c <= 1 {
        &&& n == (CPU {
            pc: o.instruction.operand_addr,
            instruction: Instruction { cycles_to_run: 0, ..o.instruction },
            ..o
        })
        &&& r == Ok::<bool, CpuFault>(true)
        &&& nb == ob
    } else {
        r == Err::<bool, CpuFault>(CpuFault::WrongCycleCount) && n == o && nb == ob
    }
}

/// Executes one cycle of JMP.
pub fn run_jmp(cpu: &mut CPU, bus: &mut Bus) -> (r: Result<bool, CpuFault>)
    requires
        old(bus).wf(),
    ensures
        final(bus).wf(),
        final(cpu).state == old(cpu).state || final(cpu).state == CPUState::ProcessNMI,
        jmp_effect(*old(cpu), *old(bus), *final(cpu), *final(bus), r),
{
    proof {
        reveal(jmp_effect);
    }
    if cpu.ba_low {
        return Ok(false);
    }
    let c = cpu.instruction.cycles_to_run;
    if c <= 1 {
        cpu.pc = cpu.instruction.operand_addr;
        cpu.instruction.cycles_to_run = 1;
    } else if c != 2 {
        return Err(CpuFault::WrongCycleCount);
    }
    Ok(count_cycle(cpu))
}

/// One execution cycle of JSR: an internal cycle, the push of PC - 1 (high byte first),
/// then an idle read and the jump.
#[verifier::opaque]
pub open spec fn jsr_effect(o: CPU, ob: Bus, n: CPU, nb: Bus, r: Result<bool, CpuFault>) -> bool {
    let c = o.instruction.cycles_to_run;
    let ret = dec16(o.pc);
    if c == 3 {
        n == counted(o) && r == done_result(n) && nb == ob
    } else if c == 2 {
        &&& n == counted(CPU { sp: dec8(dec8(o.sp)), ..o })
        &&& r == done_result(n)
        &&& nb.wf()
        &&& nb.memory@ == ob.memory@.after_write(stack_addr(o.sp), (ret >> 8) as u8)
            .after_write(stack_addr(dec8(o.sp)), ret as u8)
    } else if c == 1 {
        if o.ba_low {
            r == Ok::<bool, CpuFault>(false) && n == o && nb == ob
        } else {
            &&& n == counted(CPU { pc: o.instruction.operand_addr, dfff_byte: n.dfff_byte, ..o })
            &&& r == done_result(n)
            &&& idle_read_bus(ob, nb)
        }
    } else {
        r == Err::<bool, CpuFault>(CpuFault::WrongCycleCount) && n == o && nb == ob
    }
}

/// Executes one cycle of JSR.
#[verifier::rlimit(40)]
#[verifier::spinoff_prover]
pub fn run_jsr(cpu: &mut CPU, bus: &mut Bus) -> (r: Result<bool, CpuFault>)
    requires
        old(bus).wf(),
    ensures
        final(bus).wf(),
        final(cpu).state == old(cpu).state || final(cpu).state == CPUState::ProcessNMI,
        jsr_effect(*old(cpu), *old(bus), *final(cpu), *final(bus), r),
{
    proof {
        reveal(jsr_effect);
    }
    let c = cpu.instruction.cycles_to_run;
    if c == 2 {
        let ret = cpu.pc.wrapping_sub(1);
        cpu.push_word(bus, ret);
    } else if c == 1 {
        if cpu.ba_low {
            return Ok(false);
        }
        let pc = cpu.pc;
        cpu.read_idle(bus, pc);
        cpu.pc = cpu.instruction.operand_addr;
    } else if c != 3 {
        return Err(CpuFault::WrongCycleCount);
    }
    Ok(count_cycle(cpu))
}

/// One execution cycle of RTS (`is_rti` false) or RTI: two idle reads, then RTI pulls P,
/// both pull PC low and high; RTS ends with an idle read and PC + 1.
#[verifier::opaque]
pub open spec fn return_effect(o: CPU, ob: Bus, n: CPU, nb: Bus, r: Result<bool, CpuFault>, is_rti: bool) -> bool {
    let c = o.instruction.cycles_to_run;
    let v = ob.memory@.read_value(stack_addr(inc8(o.sp)));
    let pull_lo = if is_rti { c == 2 } else { c == 3 };
    let pull_hi = if is_rti { c == 1 } else { c == 2 };
    if o.ba_low {
        r == Ok::<bool, CpuFault>(false) && n == o && nb == ob
    } else if !(1 <= c <= 5) {
        r == Err::<bool, CpuFault>(CpuFault::WrongCycleCount) && n == o && nb == ob
    } else {
        &&& nb.wf()
        &&& r == done_result(n)
        &&& c >= 4 ==> n == counted(CPU { dfff_byte: n.dfff_byte, ..o }) && idle_read_bus(ob, nb)
        &&& is_rti && c == 3 ==> n == counted(CPU { sp: inc8(o.sp), p: v, ..o }) && nb.memory@ == ob.memory@
        &&& pull_lo ==> n == counted(CPU { sp: inc8(o.sp), pc: v as u16, ..o }) && nb.memory@ == ob.memory@
        &&& pull_hi ==> n == counted(CPU { sp: inc8(o.sp), pc: o.pc | ((v as u16) << 8), ..o })
            && nb.memory@ == ob.memory@
        &&& !is_rti && c == 1 ==> n == counted(CPU { pc: inc16(o.pc), dfff_byte: n.dfff_byte, ..o })
            && idle_read_bus(ob, nb)
    }
}

/// Executes one cycle of RTS or RTI.
#[verifier::rlimit(40)]
#[verifier::spinoff_prover]
pub fn run_return(cpu: &mut CPU, bus: &mut Bus, is_rti: bool) -> (r: Result<bool, CpuFault>)
    requires
        old(bus).wf(),
    ensures
        final(bus).wf(),
        final(cpu).state == old(cpu).state || final(cpu).state == CPUState::ProcessNMI,
        return_effect(*old(cpu), *old(bus), *final(cpu), *final(bus), r, is_rti),
{
    proof {
        reveal(return_effect);
    }
    if cpu.ba_low {
        return Ok(false);
    }
    let c = cpu.instruction.cycles_to_run;
    if c < 1 || c > 5 {
        return Err(CpuFault::WrongCycleCount);
    }
    if c == 5 {
        let pc = cpu.pc;
        cpu.read_idle(bus, pc);
    } else if c == 4 {
        let sp = cpu.sp as u16;
        cpu.read_idle(bus, sp + 1);
    } else if is_rti && c == 3 {
        let p = cpu.pop_byte(bus);
        cpu.p = p;
    } else if (is_rti && c == 2) || (!is_rti && c == 3) {
        let lo = cpu.pop_byte(bus) as u16;
        cpu.pc = lo;
    } else if (is_rti && c == 1) || (!is_rti && c == 2) {
        let hi = cpu.pop_byte(bus) as u16;
        cpu.pc = cpu.pc | (hi << 8);
    } else {
        let pc = cpu.pc.wrapping_add(1);
        cpu.read_idle(bus, pc);
        cpu.pc = pc;
    }
    Ok(count_cycle(cpu))
}

/// One execution cycle of BRK: an idle read, the push of PC + 1 (high byte first), the
/// push of P with B set (then I is set; a pending NMI takes over the sequence), a cycle
/// that delays the NMI, and the load of PC from the IRQ vector.
#[verifier::opaque]
pub open spec fn brk_effect(o: CPU, ob: Bus, n: CPU, nb: Bus, r: Result<bool, CpuFault>) -> bool {
    let c = o.instruction.cycles_to_run;
    let ret = inc16(o.pc);
    let pb = p_with(o.p, StatusFlag::Break, true);
    if c == 6 && o.ba_low {
        r == Ok::<bool, CpuFault>(false) && n == o && nb == ob
    } else if !(1 <= c <= 6) {
        r == Err::<bool, CpuFault>(CpuFault::WrongCycleCount) && n == o && nb == ob
    } else {
        &&& nb.wf()
        &&& r == done_result(n)
        &&& c == 6 ==> n == counted(CPU { dfff_byte: n.dfff_byte, ..o }) && idle_read_bus(ob, nb)
        &&& c == 5 ==> n == counted(CPU { sp: dec8(o.sp), ..o })
            && nb.memory@ == ob.memory@.after_write(stack_addr(o.sp), (ret >> 8) as u8)
        &&& c == 4 ==> n == counted(CPU { sp: dec8(o.sp), ..o })
            && nb.memory@ == ob.memory@.after_write(stack_addr(o.sp), ret as u8)
        &&& c == 3 ==> n == counted(CPU {
                sp: dec8(o.sp),
                p: p_with(pb, StatusFlag::InterruptDisable, true),
                nmi_cycles_left: if o.nmi { 7 } else { o.nmi_cycles_left },
                state: if o.nmi { CPUState::ProcessNMI } else { o.state },
                ..o
            })
            && nb.memory@ == ob.memory@.after_write(stack_addr(o.sp), pb)
        &&& c == 2 ==> n == counted(CPU { first_nmi_cycle: inc32(o.first_nmi_cycle), ..o }) && nb == ob
        &&& c == 1 ==> n == counted(CPU { pc: ob.memory@.word_le_value(IRQ_VECTOR), ..o })
            && nb.memory@.ram == ob.memory@.ram && nb.memory@.io_on == ob.memory@.io_on
    }
}

/// Executes one cycle of BRK.
#[verifier::rlimit(40)]
#[verifier::spinoff_prover]
pub fn run_brk(cpu: &mut CPU, bus: &mut Bus) -> (r: Result<bool, CpuFault>)
    requires
        old(bus).wf(),
    ensures
        final(bus).wf(),
        final(cpu).state == old(cpu).state || final(cpu).state == CPUState::ProcessNMI,
        brk_effect(*old(cpu), *old(bus), *final(cpu), *final(bus), r),
{
    proof {
        reveal(brk_effect);
    }
    let c = cpu.instruction.cycles_to_run;
    if c == 6 {
        if cpu.ba_low {
            return Ok(false);
        }
        let pc = cpu.pc.wrapping_add(1);
        cpu.read_idle(bus, pc);
    } else if c == 5 {
        let pc = cpu.pc.wrapping_add(1);
        cpu.push_byte(bus, (pc >> 8) as u8);
    } else if c == 4 {
        let pc = cpu.pc.wrapping_add(1);
        cpu.push_byte(bus, pc as u8);
    } else if c == 3 {
        cpu.set_status_flag(StatusFlag::Break, true);
        let p = cpu.p;
        cpu.push_byte(bus, p);
        cpu.set_status_flag(StatusFlag::InterruptDisable, true);
        if cpu.nmi {
            cpu.nmi_cycles_left = 7;
            cpu.state = CPUState::ProcessNMI;
        }
    } else if c == 2 {
        cpu.first_nmi_cycle = cpu.first_nmi_cycle.wrapping_add(1);
    } else if c == 1 {
        cpu.pc = bus.memory.read_word_le(IRQ_VECTOR);
    } else {
        return Err(CpuFault::WrongCycleCount);
    }
    Ok(count_cycle(cpu))
}

/// The conditional branches.
pub open spec fn is_branch_op(op: Op) -> bool {
    op == Op::BCC || op == Op::BCS || op == Op::BEQ || op == Op::BNE || op == Op::BMI
        || op == Op::BPL || op == Op::BVC || op == Op::BVS
}

/// Whether a branch is taken with status register `p`.
pub open spec fn branch_taken(op: Op, p: u8) -> bool {
    match op {
        Op::BCC => !p_has(p, StatusFlag::Carry),
        Op::BCS => p_has(p, StatusFlag::Carry),
        Op::BEQ => p_has(p, StatusFlag::Zero),
        Op::BNE => !p_has(p, StatusFlag::Zero),
        Op::BMI => p_has(p, StatusFlag::Negative),
        Op::BPL => !p_has(p, StatusFlag::Negative),
        Op::BVC => !p_has(p, StatusFlag::Overflow),
        _ => p_has(p, StatusFlag::Overflow),
    }
}

/// One execution cycle of a branch: the decision (an untaken branch ends here), the jump
/// with an idle read at PC (the end, unless a page is crossed; without a page crossing
/// the pending interrupts are delayed by one cycle, also while BA is low), and the idle
/// read of the page crossing fix-up.
#[verifier::opaque]
pub open spec fn branch_effect(o: CPU, ob: Bus, n: CPU, nb: Bus, r: Result<bool, CpuFault>) -> bool {
    let c = o.instruction.cycles_to_run;
    let zc = o.instruction.zp_crossed;
    let fi = if zc { o.first_irq_cycle } else { inc32(o.first_irq_cycle) };
    let fnmi = if zc { o.first_nmi_cycle } else { inc32(o.first_nmi_cycle) };
    if !(1 <= c <= 3) {
        r == Err::<bool, CpuFault>(CpuFault::WrongCycleCount) && n == o && nb == ob
    } else if o.ba_low {
        r == Ok::<bool, CpuFault>(false) && nb == ob
            && n == (if c == 2 { CPU { first_irq_cycle: fi, first_nmi_cycle: fnmi, ..o } } else { o })
    } else if c == 3 {
        &&& branch_taken(o.instruction.opcode, o.p) ==> n == counted(CPU {
            instruction: Instruction {
                zp_crossed: (o.instruction.operand_addr >> 8) != (o.pc >> 8),
                ..o.instruction
            },
            ..o
        })
        &&& !branch_taken(o.instruction.opcode, o.p) ==> n == (CPU {
            instruction: Instruction { cycles_to_run: 0, ..o.instruction },
            ..o
        })
        &&& r == done_result(n)
        &&& nb == ob
    } else if c == 2 {
        &&& n == (CPU {
            first_irq_cycle: fi,
            first_nmi_cycle: fnmi,
            pc: o.instruction.operand_addr,
            dfff_byte: n.dfff_byte,
            instruction: Instruction { cycles_to_run: if zc { 1 } else { 0 }, ..o.instruction },
            ..o
        })
        &&& r == done_result(n)
        &&& idle_read_bus(ob, nb)
    } else {
        n == counted(CPU { dfff_byte: n.dfff_byte, ..o }) && r == done_result(n) && idle_read_bus(ob, nb)
    }
}

/// Whether the branch of the current instruction is taken.
fn branch_condition(op: Op, p: u8) -> (b: bool)
    ensures
        b == branch_taken(op, p),
{
    let c = p & flag_mask(StatusFlag::Carry) != 0;
    let z = p & flag_mask(StatusFlag::Zero) != 0;
    let n = p & flag_mask(StatusFlag::Negative) != 0;
    let v = p & flag_mask(StatusFlag::Overflow) != 0;
    match op {
        Op::BCC => !c,
        Op::BCS => c,
        Op::BEQ => z,
        Op::BNE => !z,
        Op::BMI => n,
        Op::BPL => !n,
        Op::BVC => !v,
        _ => v,
    }
}

/// Executes one cycle of BCC, BCS, BEQ, BNE, BMI, BPL, BVC or BVS.
pub fn run_branch(cpu: &mut CPU, bus: &mut Bus) -> (r: Result<bool, CpuFault>)
    requires
        old(bus).wf(),
    ensures
        final(bus).wf(),
        final(cpu).state == old(cpu).state || final(cpu).state == CPUState::ProcessNMI,
        branch_effect(*old(cpu), *old(bus), *final(cpu), *final(bus), r),
{
    proof {
        reveal(branch_effect);
    }
    let c = cpu.instruction.cycles_to_run;
    let taken = branch_condition(cpu.instruction.opcode, cpu.p);
    if !cpu.ba_low && (c == 2 || c == 1) {
        let pc = cpu.pc;
        cpu.read_idle(bus, pc);
    }
    match cpu.branch(taken, c) {
        Ok(true) => Ok(count_cycle(cpu)),
        Ok(false) => Ok(false),
        Err(e) => Err(e),
    }
}

} // verus!
