use vstd::prelude::*;
use crate::c64::opcodes::Op;

verus! {

/// The sixteen colors of the C64 palette as 0x00RRGGBB values (WinVICE palette).
pub open spec fn c64_palette() -> Seq<u32> {
    seq![
        0x00000000u32, 0x00FFFFFFu32, 0x00894036u32, 0x007ABFC7u32,
        0x008A46AEu32, 0x0068A941u32, 0x003E31A2u32, 0x00D0DC71u32,
        0x00905F25u32, 0x005C4700u32, 0x00BB776Du32, 0x00555555u32,
        0x00808080u32, 0x00ACEA88u32, 0x007C70DAu32, 0x00ABABABu32,
    ]
}

/// The RGB value of a color index; only the low nibble of the index counts.
pub open spec fn spec_color_rgba(idx: u8) -> u32 {
    c64_palette()[(idx & 0x0F) as int]
}

/// Sets eight consecutive buffer elements to one value (one 8-pixel screen chunk).
pub fn memset8(buffer: &mut [u32], start: usize, value: u32)
    requires
        start + 8 <= old(buffer)@.len(),
    ensures
        final(buffer)@.len() == old(buffer)@.len(),
        forall|i: int| start <= i < start + 8 ==> #[trigger] final(buffer)@[i] == value,
        forall|i: int|
            0 <= i < old(buffer)@.len() && !(start <= i < start + 8) ==> #[trigger] final(buffer)@[i]
                == old(buffer)@[i],
{
    buffer[start] = value;
    buffer[start + 1] = buffer[start];
    buffer[start + 2] = buffer[start];
    buffer[start + 3] = buffer[start];
    buffer[start + 4] = buffer[start];
    buffer[start + 5] = buffer[start];
    buffer[start + 6] = buffer[start];
    buffer[start + 7] = buffer[start];
}

/// Looks up the RGB value of a C64 color index (only its low nibble counts).
pub fn fetch_c64_color_rgba(idx: u8) -> (rgba: u32)
    ensures
        rgba == spec_color_rgba(idx),
{
    let nibble: u8 = idx & 0x0F;
    assert(nibble < 16) by (bit_vector)
        requires
            nibble == idx & 0x0F,
    ;
    match nibble {
        0x00 => 0x00000000,
        0x01 => 0x00FFFFFF,
        0x02 => 0x00894036,
        0x03 => 0x007ABFC7,
        0x04 => 0x008A46AE,
        0x05 => 0x0068A941,
        0x06 => 0x003E31A2,
        0x07 => 0x00D0DC71,
        0x08 => 0x00905F25,
        0x09 => 0x005C4700,
        0x0A => 0x00BB776D,
        0x0B => 0x00555555,
        0x0C => 0x00808080,
        0x0D => 0x00ACEA88,
        0x0E => 0x007C70DA,
        _ => 0x00ABABAB,
    }
}

/// Law: a color lookup depends on the low nibble of the index only.
pub proof fn lemma_color_depends_on_low_nibble(idx: u8)
    ensures
        spec_color_rgba(idx) == spec_color_rgba(idx & 0x0F),
{
    assert((idx & 0x0F) & 0x0F == idx & 0x0F) by (bit_vector);
}

/// Holds the jump queue used to suppress instruction logging inside subroutines.
pub struct OpDebugger {
    pub jump_queue: Vec<u8>,
}

impl OpDebugger {
    pub fn new() -> (d: OpDebugger)
        ensures
            d.jump_queue@ == Seq::<u8>::empty(),
    {
        OpDebugger { jump_queue: Vec::new() }
    }

    /// Whether an instruction is logged: logging stops inside a subroutine. An RTS leaves
    /// one level (and is not logged); a JSR enters one, and is logged only when it is made
    /// outside any subroutine; other instructions are logged outside subroutines only.
    pub fn track(&mut self, op: Op, opcode: u8) -> (log: bool)
        ensures
            op == Op::RTS ==> !log && final(self).jump_queue@ == (if old(self).jump_queue@.len() > 0 {
                old(self).jump_queue@.drop_last() } else { old(self).jump_queue@ }),
            op == Op::JSR ==> log == (old(self).jump_queue@.len() == 0)
                && final(self).jump_queue@ == old(self).jump_queue@.push(opcode),
            op != Op::RTS && op != Op::JSR ==> log == (old(self).jump_queue@.len() == 0)
                && final(self).jump_queue@ == old(self).jump_queue@,
    {
        match op {
            Op::RTS => {
                let _ = self.jump_queue.pop();
                false
            },
            Op::JSR => {
                let log = self.jump_queue.len() == 0;
                self.jump_queue.push(opcode);
                log
            },
            _ => self.jump_queue.len() == 0,
        }
    }
}

/// Law: the instructions of a subroutine called while logging are not logged, and logging
/// resumes after its RTS (the depth is restored).
pub proof fn lemma_subroutine_depth_restored(q: Seq<u8>, opcode: u8)
    ensures
        q.push(opcode).drop_last() == q,
{
    assert(q.push(opcode).drop_last() =~= q);
}

} // verus!
