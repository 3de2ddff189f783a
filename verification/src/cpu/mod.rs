// The standalone 6510 core over the flat memory: registers, stack and status flags
pub mod opcodes;

use vstd::prelude::*;
use crate::memory::Memory;
use crate::memory::next_addr;
use crate::utils::OpDebugger;

verus! {

pub const NMI_VECTOR: u16 = 0xFFFA;
pub const RESET_VECTOR: u16 = 0xFFFC;
pub const IRQ_VECTOR: u16 = 0xFFFE;

/// The status flags of P; this core keeps Negative in bit 0 up to Carry in bit 7.
#[derive(PartialEq, Eq, Structural, Clone, Copy, Debug)]
pub enum StatusFlag {
    Negative,
    Overflow,
    Unused,
    Break,
    DecimalMode,
    InterruptDisable,
    Zero,
    Carry,
}

/// The bit of P that holds a flag.
pub open spec fn status_mask(flag: StatusFlag) -> u8 {
    match flag {
        StatusFlag::Negative => 0x01,
        StatusFlag::Overflow => 0x02,
        StatusFlag::Unused => 0x04,
        StatusFlag::Break => 0x08,
        StatusFlag::DecimalMode => 0x10,
        StatusFlag::InterruptDisable => 0x20,
        StatusFlag::Zero => 0x40,
        StatusFlag::Carry => 0x80,
    }
}

/// The mask of a flag.
pub fn flag_mask(flag: StatusFlag) -> (m: u8)
    ensures
        m == status_mask(flag),
{
    match flag {
        StatusFlag::Negative => 0x01,
        StatusFlag::Overflow => 0x02,
        StatusFlag::Unused => 0x04,
        StatusFlag::Break => 0x08,
        StatusFlag::DecimalMode => 0x10,
        StatusFlag::InterruptDisable => 0x20,
        StatusFlag::Zero => 0x40,
        StatusFlag::Carry => 0x80,
    }
}

/// Registers, the flat memory and the instruction log state.
pub struct CPU {
    pub pc: u16,
    pub sp: u8,
    pub p: u8,
    pub a: u8,
    pub x: u8,
    pub y: u8,
    pub mem: Memory,
    pub op_debugger: OpDebugger,
}

/// An 8-bit sum or difference wrapped around into 0..=255 (the operands here are never
/// more than one wrap away).
pub open spec fn wrap8(v: int) -> u8 {
    if v >= 0x100 { (v - 0x100) as u8 } else if v < 0 { (v + 0x100) as u8 } else { v as u8 }
}

/// A 16-bit sum or difference wrapped around into 0..=$FFFF (the operands here are never
/// more than one wrap away).
pub open spec fn wrap16(v: int) -> u16 {
    if v >= 0x10000 { (v - 0x10000) as u16 } else if v < 0 { (v + 0x10000) as u16 } else { v as u16 }
}

/// P with one flag set or cleared.
pub open spec fn with_flag(p: u8, flag: StatusFlag, value: bool) -> u8 {
    if value { p | status_mask(flag) } else { p & (0xFF - status_mask(flag)) as u8 }
}

impl CPU {
    /// Registers cleared, the stack pointer at $FF.
    pub fn new(mem: Memory) -> (c: CPU)
        ensures
            c.pc == 0 && c.sp == 0xFF && c.p == 0 && c.a == 0 && c.x == 0 && c.y == 0,
            c.mem == mem,
            c.op_debugger.jump_queue@.len() == 0,
    {
        CPU { pc: 0, sp: 0xFF, p: 0, a: 0, x: 0, y: 0, mem, op_debugger: OpDebugger::new() }
    }

    /// Sets or clears one flag; the other bits of P stay.
    pub fn set_status_flag(&mut self, flag: StatusFlag, value: bool)
        ensures
            final(self).p == with_flag(old(self).p, flag, value),
            *final(self) == (CPU { p: final(self).p, ..*old(self) }),
    {
        let m = flag_mask(flag);
        if value {
            self.p = self.p | m;
        } else {
            self.p = self.p & (0xFF - m);
        }
    }

    /// Whether a flag is set.
    pub fn get_status_flag(&mut self, flag: StatusFlag) -> (set: bool)
        ensures
            set == (old(self).p & status_mask(flag) != 0),
            *final(self) == *old(self),
    {
        self.p & flag_mask(flag) != 0
    }

    /// Sets Zero when the value is 0 and Negative when its bit 7 is set.
    pub fn set_zn_flags(&mut self, value: u8)
        ensures
            final(self).p == with_flag(with_flag(old(self).p, StatusFlag::Zero, value == 0),
                StatusFlag::Negative, value >= 0x80),
            *final(self) == (CPU { p: final(self).p, ..*old(self) }),
    {
        self.set_status_flag(StatusFlag::Zero, value == 0x00);
        self.set_status_flag(StatusFlag::Negative, value >= 0x80);
    }

    /// Power up: the memory latch reset, the memory test in the KERNAL patched out
    /// ($FD86 := $D0), PC from the reset vector and SP at $FF.
    pub fn reset(&mut self)
        requires
            old(self).mem.wf(),
        ensures
            final(self).mem.wf(),
            final(self).mem.ram@ == old(self).mem.ram@.update(0, 0xFF).update(1, 0x07),
            final(self).mem.rom@ == old(self).mem.rom@.update(0xFD86, 0xD0),
            final(self).mem.basic_on && !final(self).mem.chargen_on && final(self).mem.io_on
                && final(self).mem.kernal_on,
            final(self).pc == final(self).mem.word_le_at(RESET_VECTOR),
            final(self).sp == 0xFF,
            final(self).a == old(self).a && final(self).x == old(self).x && final(self).y == old(self).y
                && final(self).p == old(self).p,
    {
        self.mem.reset();
        self.mem.debug_write_rom(0xFD86, 0xD0);
        self.pc = self.mem.read_word_le(RESET_VECTOR);
        self.sp = 0xFF;
    }

    /// The byte at PC; PC moves on by one.
    pub fn next_byte(&mut self) -> (b: u8)
        requires
            old(self).mem.wf(),
        ensures
            b == old(self).mem.value_at(old(self).pc),
            *final(self) == (CPU { pc: wrap16(old(self).pc + 1), ..*old(self) }),
    {
        let b = self.mem.read_byte(self.pc);
        self.pc = self.pc.wrapping_add(1);
        b
    }

    /// The little endian word at PC; PC moves on by two.
    pub fn next_word(&mut self) -> (w: u16)
        requires
            old(self).mem.wf(),
        ensures
            w == old(self).mem.word_le_at(old(self).pc),
            *final(self) == (CPU { pc: wrap16(old(self).pc + 2), ..*old(self) }),
    {
        let w = self.mem.read_word_le(self.pc);
        self.pc = self.pc.wrapping_add(2);
        w
    }

    /// Pushes a byte: it goes to $0100 + SP, then SP goes down by one.
    pub fn push_byte(&mut self, value: u8)
        requires
            old(self).mem.wf(),
        ensures
            final(self).mem.wf(),
            final(self).sp == wrap8(old(self).sp - 1),
            final(self).mem.ram@ == old(self).mem.ram@.update(0x100 + old(self).sp, value),
            final(self).mem.rom == old(self).mem.rom,
            final(self).mem.same_flags(&old(self).mem),
            final(self).pc == old(self).pc && final(self).p == old(self).p && final(self).a == old(self).a
                && final(self).x == old(self).x && final(self).y == old(self).y,
    {
        self.sp = self.sp.wrapping_sub(1);
        let addr: u16 = 0x0100 + self.sp.wrapping_add(1) as u16;
        self.mem.write_byte(addr, value);
    }

    /// Pops a byte: SP goes up by one and the byte at $0100 + SP is read.
    pub fn pop_byte(&mut self) -> (v: u8)
        requires
            old(self).mem.wf(),
        ensures
            v == old(self).mem.ram@[0x100 + wrap8(old(self).sp + 1)],
            *final(self) == (CPU { sp: wrap8(old(self).sp + 1), ..*old(self) }),
    {
        let addr: u16 = 0x0100 + self.sp.wrapping_add(1) as u16;
        let v = self.mem.read_byte(addr);
        self.sp = self.sp.wrapping_add(1);
        v
    }

    /// Pushes a word: SP goes down by two and the word is stored little endian just above it.
    pub fn push_word(&mut self, value: u16)
        requires
            old(self).mem.wf(),
        ensures
            final(self).mem.wf(),
            final(self).sp == wrap8(old(self).sp - 2),
            final(self).mem.ram@ == old(self).mem.ram@
                .update(0x100 + wrap8(old(self).sp - 1), (value % 256) as u8)
                .update(next_addr((0x100 + wrap8(old(self).sp - 1)) as u16) as int, (value / 256) as u8),
            final(self).mem.rom == old(self).mem.rom,
            final(self).mem.same_flags(&old(self).mem),
            final(self).pc == old(self).pc && final(self).p == old(self).p && final(self).a == old(self).a
                && final(self).x == old(self).x && final(self).y == old(self).y,
    {
        self.sp = self.sp.wrapping_sub(2);
        let addr: u16 = 0x0100 + self.sp.wrapping_add(1) as u16;
        self.mem.write_word_le(addr, value);
    }

    /// Pops a word: the little endian word just above SP is read, then SP goes up by two.
    pub fn pop_word(&mut self) -> (v: u16)
        requires
            old(self).mem.wf(),
        ensures
            v == old(self).mem.word_le_at((0x100 + wrap8(old(self).sp + 1)) as u16),
            *final(self) == (CPU { sp: wrap8(old(self).sp + 2), ..*old(self) }),
    {
        let addr: u16 = 0x0100 + self.sp.wrapping_add(1) as u16;
        let v = self.mem.read_word_le(addr);
        self.sp = self.sp.wrapping_add(2);
        v
    }
}

/// Law: a byte pushed on the stack pops back, and SP is restored.
pub proof fn lemma_push_pop_byte(c: CPU, pushed: CPU, value: u8)
    requires
        c.mem.wf(),
        pushed.sp == wrap8(c.sp - 1),
        pushed.mem.ram@ == c.mem.ram@.update(0x100 + c.sp, value),
    ensures
        pushed.mem.ram@[0x100 + wrap8(pushed.sp + 1)] == value,
        wrap8(pushed.sp + 1) == c.sp,
{
}

/// Law: a word pushed on the stack pops back, and SP is restored.
pub proof fn lemma_push_pop_word(c: CPU, pushed: CPU, value: u16)
    requires
        c.mem.wf(),
        pushed.mem.wf(),
        pushed.sp == wrap8(c.sp - 2),
        pushed.mem.ram@ == c.mem.ram@
            .update(0x100 + wrap8(c.sp - 1), (value % 256) as u8)
            .update(next_addr((0x100 + wrap8(c.sp - 1)) as u16) as int, (value / 256) as u8),
    ensures
        pushed.mem.word_le_at((0x100 + wrap8(pushed.sp + 1)) as u16) == value,
        wrap8(pushed.sp + 2) == c.sp,
{
    let a = (0x100 + wrap8(c.sp - 1)) as u16;
    assert(wrap8(pushed.sp + 1) == wrap8(c.sp - 1));
    assert(next_addr(a) != a);
}

} // verus!
