// A flat 64k memory with ROM overlays: RAM everywhere, BASIC, character and KERNAL ROM
// visible according to the processor port latch
use vstd::prelude::*;

verus! {

/// RAM and a ROM image the size of the address space, with the bank switching flags.
pub struct Memory {
    pub ram: Vec<u8>,
    pub rom: Vec<u8>,
    pub basic_on: bool,
    pub chargen_on: bool,
    pub io_on: bool,
    pub kernal_on: bool,
    pub cart_lo_on: bool,
    pub cart_hi_on: bool,
}

/// The bank switching flags for a latch byte: (BASIC, character ROM, I/O, KERNAL).
pub open spec fn flat_flags(latch: u8) -> (bool, bool, bool, bool) {
    let l = latch % 8;
    let low = l % 4;
    let basic = low == 3;
    (basic, l < 4 && low != 0, l >= 4 && low != 0, basic || low == 2)
}

/// The increment of an address, wrapping around.
pub open spec fn next_addr(addr: u16) -> u16 {
    if addr == 0xFFFF { 0 } else { (addr + 1) as u16 }
}

impl Memory {
    /// Both arrays cover the address space.
    pub open spec fn wf(&self) -> bool {
        self.ram@.len() == 0x10000 && self.rom@.len() == 0x10000
    }

    /// The bank switching flags are the same.
    pub open spec fn same_flags(&self, o: &Memory) -> bool {
        self.basic_on == o.basic_on && self.chargen_on == o.chargen_on && self.io_on == o.io_on
            && self.kernal_on == o.kernal_on
    }

    /// Whether a read at `addr` sees ROM.
    pub open spec fn rom_visible(&self, addr: u16) -> bool {
        if addr <= 0x9FFF {
            false
        } else if addr <= 0xCFFF {
            self.basic_on
        } else if addr <= 0xDFFF {
            self.chargen_on
        } else {
            self.kernal_on
        }
    }

    /// The byte a read at `addr` gives.
    pub open spec fn value_at(&self, addr: u16) -> u8 {
        if self.rom_visible(addr) { self.rom@[addr as int] } else { self.ram@[addr as int] }
    }

    /// The word stored little endian at `addr` (both bytes from the bank visible at `addr`).
    pub open spec fn word_le_at(&self, addr: u16) -> u16 {
        let b = if self.rom_visible(addr) { self.rom@ } else { self.ram@ };
        (b[addr as int] as int + 256 * b[next_addr(addr) as int] as int) as u16
    }

    /// The word stored big endian at `addr`.
    pub open spec fn word_be_at(&self, addr: u16) -> u16 {
        let b = if self.rom_visible(addr) { self.rom@ } else { self.ram@ };
        (b[addr as int] as int * 256 + b[next_addr(addr) as int] as int) as u16
    }

    /// An empty memory with the starts of the ROM images (8K, 4K and 8K bytes) at their
    /// addresses ($A000, $D000, $E000), all ROMs hidden.
    pub fn new(basic: &[u8], chargen: &[u8], kernal: &[u8]) -> (m: Memory)
        requires
            basic@.len() >= 0x2000,
            chargen@.len() >= 0x1000,
            kernal@.len() >= 0x2000,
        ensures
            m.wf(),
            m.ram@ == Seq::new(0x10000, |i: int| 0u8),
            forall|i: int| 0xA000 <= i < 0xC000 ==> m.rom@[i] == basic@[i - 0xA000],
            forall|i: int| 0xD000 <= i < 0xE000 ==> m.rom@[i] == chargen@[i - 0xD000],
            forall|i: int| 0xE000 <= i < 0x10000 ==> m.rom@[i] == kernal@[i - 0xE000],
            !m.basic_on && !m.chargen_on && !m.io_on && !m.kernal_on && !m.cart_lo_on && !m.cart_hi_on,
    {
        let ram = vec![0u8; 0x10000];
        let mut rom = vec![0u8; 0x10000];
        let mut i: usize = 0;
        while i < 0x2000
            invariant
                i <= 0x2000,
                rom@.len() == 0x10000,
                basic@.len() >= 0x2000,
                forall|k: int| 0xA000 <= k < 0xA000 + i ==> rom@[k] == basic@[k - 0xA000],
            decreases 0x2000 - i,
        {
            rom.set(0xA000 + i, basic[i]);
            i = i + 1;
        }
        let mut j: usize = 0;
        while j < 0x1000
            invariant
                j <= 0x1000,
                rom@.len() == 0x10000,
                chargen@.len() >= 0x1000,
                forall|k: int| 0xA000 <= k < 0xC000 ==> rom@[k] == basic@[k - 0xA000],
                forall|k: int| 0xD000 <= k < 0xD000 + j ==> rom@[k] == chargen@[k - 0xD000],
            decreases 0x1000 - j,
        {
            rom.set(0xD000 + j, chargen[j]);
            j = j + 1;
        }
        let mut k: usize = 0;
        while k < 0x2000
            invariant
                k <= 0x2000,
                rom@.len() == 0x10000,
                kernal@.len() >= 0x2000,
                forall|x: int| 0xA000 <= x < 0xC000 ==> rom@[x] == basic@[x - 0xA000],
                forall|x: int| 0xD000 <= x < 0xE000 ==> rom@[x] == chargen@[x - 0xD000],
                forall|x: int| 0xE000 <= x < 0xE000 + k ==> rom@[x] == kernal@[x - 0xE000],
            decreases 0x2000 - k,
        {
            rom.set(0xE000 + k, kernal[k]);
            k = k + 1;
        }
        let m = Memory {
            ram,
            rom,
            basic_on: false,
            chargen_on: false,
            io_on: false,
            kernal_on: false,
            cart_lo_on: false,
            cart_hi_on: false,
        };
        assert(m.ram@ =~= Seq::new(0x10000, |i: int| 0u8));
        m
    }

    /// The bank a read at `addr` sees, and whether it is read-only (a ROM).
    pub fn get_bank(&mut self, addr: u16) -> (bank: (&mut Vec<u8>, bool))
        ensures
            bank.1 == old(self).rom_visible(addr),
            *bank.0 == (if bank.1 { old(self).rom } else { old(self).ram }),
            *final(self) == (if bank.1 {
                Memory { rom: *final(bank.0), ..*old(self) }
            } else {
                Memory { ram: *final(bank.0), ..*old(self) }
            }),
    {
        let rom = if addr <= 0x9FFF {
            false
        } else if addr <= 0xCFFF {
            self.basic_on
        } else if addr <= 0xDFFF {
            self.chargen_on
        } else {
            self.kernal_on
        };
        if rom {
            (&mut self.rom, true)
        } else {
            (&mut self.ram, false)
        }
    }

    /// Sets the processor port latch to $FF/$07: all ROMs visible.
    pub fn reset(&mut self)
        requires
            old(self).wf(),
        ensures
            final(self).wf(),
            final(self).ram@ == old(self).ram@.update(0, 0xFF).update(1, 0x07),
            final(self).rom == old(self).rom,
            final(self).basic_on && !final(self).chargen_on && final(self).io_on && final(self).kernal_on,
    {
        self.write_byte(0x0000, 0xFF);
        self.write_byte(0x0001, 0x07);
    }

    /// Recomputes the bank switching flags from the latch at $0001.
    fn update_bank_flags(&mut self)
        requires
            old(self).wf(),
        ensures
            ({
                let (b, c, i, k) = flat_flags(old(self).ram@[1]);
                *final(self) == (Memory { basic_on: b, chargen_on: c, io_on: i, kernal_on: k, ..*old(self) })
            }),
    {
        let latch = self.ram[1] % 8;
        let low = latch % 4;
        self.chargen_on = latch < 4 && low != 0;
        self.io_on = latch >= 4 && low != 0;
        self.basic_on = low == 3;
        self.kernal_on = self.basic_on || low == 2;
    }

    /// Writes a byte: RAM always takes it (also under a visible ROM, in which case false
    /// is returned); a write to the latch updates the bank switching flags.
    pub fn write_byte(&mut self, addr: u16, value: u8) -> (ram_visible: bool)
        requires
            old(self).wf(),
        ensures
            final(self).wf(),
            ram_visible == !old(self).rom_visible(addr),
            final(self).ram@ == old(self).ram@.update(addr as int, value),
            final(self).rom == old(self).rom,
            ({
                let (b, c, i, k) = flat_flags(value);
                if addr == 1 && ram_visible {
                    final(self).basic_on == b && final(self).chargen_on == c && final(self).io_on == i
                        && final(self).kernal_on == k
                } else {
                    final(self).basic_on == old(self).basic_on && final(self).chargen_on == old(self).chargen_on
                        && final(self).io_on == old(self).io_on && final(self).kernal_on == old(self).kernal_on
                }
            }),
            final(self).cart_lo_on == old(self).cart_lo_on && final(self).cart_hi_on == old(self).cart_hi_on,
    {
        self.ram.set(addr as usize, value);
        let (_, read_only) = self.get_bank(addr);
        if read_only {
            return false;
        }
        if addr == 0x0001 {
            self.update_bank_flags();
        }
        true
    }

    /// Reads a byte from the visible bank.
    pub fn read_byte(&mut self, addr: u16) -> (v: u8)
        requires
            old(self).wf(),
        ensures
            v == old(self).value_at(addr),
            *final(self) == *old(self),
    {
        let (bank, _) = self.get_bank(addr);
        bank[addr as usize]
    }

    /// Reads a little endian word (both bytes from the bank visible at `addr`).
    pub fn read_word_le(&mut self, addr: u16) -> (v: u16)
        requires
            old(self).wf(),
        ensures
            v == old(self).word_le_at(addr),
            *final(self) == *old(self),
    {
        let (bank, _) = self.get_bank(addr);
        let lo = bank[addr as usize] as u16;
        let hi = bank[addr.wrapping_add(1) as usize] as u16;
        lo + 256 * hi
    }

    /// Reads a big endian word (both bytes from the bank visible at `addr`).
    pub fn read_word_be(&mut self, addr: u16) -> (v: u16)
        requires
            old(self).wf(),
        ensures
            v == old(self).word_be_at(addr),
            *final(self) == *old(self),
    {
        let (bank, _) = self.get_bank(addr);
        let hi = bank[addr as usize] as u16;
        let lo = bank[addr.wrapping_add(1) as usize] as u16;
        256 * hi + lo
    }

    /// Writes a little endian word (low byte first); returns whether both bytes went to
    /// visible RAM.
    pub fn write_word_le(&mut self, addr: u16, value: u16) -> (ok: bool)
        requires
            old(self).wf(),
        ensures
            final(self).wf(),
            final(self).ram@ == old(self).ram@.update(addr as int, (value % 256) as u8)
                .update(next_addr(addr) as int, (value / 256) as u8),
            addr != 1 && next_addr(addr) != 1 ==> final(self).same_flags(old(self)),
            final(self).rom == old(self).rom,
            ok == (!old(self).rom_visible(addr) && !old(self).rom_visible(next_addr(addr))),
    {
        let lo = (value % 256) as u8;
        let hi = (value / 256) as u8;
        let a = self.write_byte(addr, lo);
        let b = self.write_byte(addr.wrapping_add(1), hi);
        a && b
    }

    /// Writes a big endian word (high byte first); returns whether both bytes went to
    /// visible RAM.
    pub fn write_word_be(&mut self, addr: u16, value: u16) -> (ok: bool)
        requires
            old(self).wf(),
        ensures
            final(self).wf(),
            final(self).ram@ == old(self).ram@.update(addr as int, (value / 256) as u8)
                .update(next_addr(addr) as int, (value % 256) as u8),
            addr != 1 && next_addr(addr) != 1 ==> final(self).same_flags(old(self)),
            final(self).rom == old(self).rom,
            ok == (!old(self).rom_visible(addr) && !old(self).rom_visible(next_addr(addr))),
    {
        let lo = (value % 256) as u8;
        let hi = (value / 256) as u8;
        let a = self.write_byte(addr, hi);
        let b = self.write_byte(addr.wrapping_add(1), lo);
        a && b
    }

    /// Overwrites a ROM byte (for patching the ROM images).
    pub fn debug_write_rom(&mut self, addr: u16, value: u8)
        requires
            old(self).wf(),
        ensures
            final(self).wf(),
            final(self).rom@ == old(self).rom@.update(addr as int, value),
            *final(self) == (Memory { rom: final(self).rom, ..*old(self) }),
    {
        self.rom.set(addr as usize, value);
    }
}

/// Law: a little endian word written outside the ROM areas and the processor port reads
/// back unchanged.
pub proof fn lemma_word_le_roundtrip(m: Memory, m2: Memory, addr: u16, value: u16)
    requires
        m.wf(),
        2 <= addr <= 0x9FFE,
        m2.ram@ == m.ram@.update(addr as int, (value % 256) as u8).update(next_addr(addr) as int, (value / 256) as u8),
        m2.same_flags(&m),
    ensures
        m2.word_le_at(addr) == value,
{
}

/// Law: a big endian word written outside the ROM areas and the processor port reads
/// back unchanged.
pub proof fn lemma_word_be_roundtrip(m: Memory, m2: Memory, addr: u16, value: u16)
    requires
        m.wf(),
        2 <= addr <= 0x9FFE,
        m2.ram@ == m.ram@.update(addr as int, (value / 256) as u8).update(next_addr(addr) as int, (value % 256) as u8),
        m2.same_flags(&m),
    ensures
        m2.word_be_at(addr) == value,
{
}

} // verus!
