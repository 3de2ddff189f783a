// memory banks of the C64: RAM, BASIC/KERNAL/character ROM and the I/O area
use vstd::prelude::*;

verus! {

/// The kind of a memory bank.
#[derive(PartialEq, Eq, Structural, Clone, Copy, Debug)]
pub enum MemType {
    Ram,
    Basic,
    Chargen,
    Io,
    Kernal,
}

/// First address of a bank in the C64 address space.
pub open spec fn bank_base(t: MemType) -> int {
    match t {
        MemType::Ram => 0,
        MemType::Basic => 0xA000,
        MemType::Chargen => 0xD000,
        MemType::Io => 0xD000,
        MemType::Kernal => 0xE000,
    }
}

/// Number of bytes a bank holds.
pub open spec fn bank_size(t: MemType) -> int {
    match t {
        MemType::Ram => 0x10000,
        MemType::Basic => 0x2000,
        MemType::Chargen => 0x1000,
        MemType::Io => 0x1000,
        MemType::Kernal => 0x2000,
    }
}

/// Whether a bank of this kind is a ROM.
pub open spec fn bank_is_rom(t: MemType) -> bool {
    t == MemType::Basic || t == MemType::Chargen || t == MemType::Kernal
}

/// Whether `addr` lies in the address range of a bank of kind `t`.
pub open spec fn bank_covers(t: MemType, addr: int) -> bool {
    bank_base(t) <= addr < bank_base(t) + bank_size(t)
}

/// I/O registers $D040-$D3FF mirror the VIC registers $D000-$D03F.
pub open spec fn io_mirror(addr: u16) -> u16 {
    if 0xD040 <= addr <= 0xD3FF {
        (0xD000 + addr % 0x40) as u16
    } else {
        addr
    }
}

/// The byte that a read of the I/O bank at `addr` gives back.
pub open spec fn io_read_value(data: Seq<u8>, addr: u16) -> u8 {
    let a = io_mirror(addr);
    let d = data[a - 0xD000];
    if a == 0xD016 {
        0xC0u8 | d
    } else if a == 0xD018 {
        0x01u8 | d
    } else if a == 0xD019 {
        0x70u8 | d
    } else if a == 0xD01A {
        0xF0u8 | d
    } else if 0xD020 <= a <= 0xD02E {
        0xF0u8 | d
    } else if 0xD02F <= a <= 0xD03F {
        0xFFu8
    } else {
        d
    }
}

/// The I/O bank contents after a read at `addr`: the collision registers are cleared on read.
pub open spec fn io_after_read(data: Seq<u8>, addr: u16) -> Seq<u8> {
    let a = io_mirror(addr);
    if a == 0xD01E || a == 0xD01F {
        data.update(a - 0xD000, 0u8)
    } else {
        data
    }
}

/// The I/O bank contents after writing `val` at `addr`.
pub open spec fn io_after_write(data: Seq<u8>, addr: u16, val: u8) -> Seq<u8> {
    let a = io_mirror(addr);
    let i = a - 0xD000;
    if a == 0xD016 {
        data.update(i, 0xC0u8 | val)
    } else if a == 0xD019 {
        data.update(i, 0x70u8 | val)
    } else if a == 0xD01A {
        data.update(i, 0xF0u8 | val)
    } else if 0xD020 <= a <= 0xD02E {
        data.update(i, 0xF0u8 | val)
    } else if 0xD02F <= a <= 0xD03F {
        data
    } else {
        data.update(i, val)
    }
}

/// Abstract state of one memory bank.
pub struct MemBankView {
    pub kind: MemType,
    pub data: Seq<u8>,
}

impl MemBankView {
    pub open spec fn wf(self) -> bool {
        self.data.len() == bank_size(self.kind)
    }

    /// The byte a read at `addr` gives back.
    pub open spec fn read_value(self, addr: u16) -> u8 {
        if self.kind == MemType::Io {
            io_read_value(self.data, addr)
        } else {
            self.data[addr - bank_base(self.kind)]
        }
    }

    /// The bank after a read at `addr`.
    pub open spec fn after_read(self, addr: u16) -> MemBankView {
        if self.kind == MemType::Io {
            MemBankView { kind: self.kind, data: io_after_read(self.data, addr) }
        } else {
            self
        }
    }

    /// The bank after writing `val` at `addr`.
    pub open spec fn after_write(self, addr: u16, val: u8) -> MemBankView {
        if self.kind == MemType::Io {
            MemBankView { kind: self.kind, data: io_after_write(self.data, addr, val) }
        } else {
            MemBankView { kind: self.kind, data: self.data.update(addr - bank_base(self.kind), val) }
        }
    }
}

/// One memory bank: RAM, a ROM or the I/O area.
pub struct MemBank {
    bank_type: MemType,
    read_only: bool,
    offset: u16,
    data: Vec<u8>,
}

impl View for MemBank {
    type V = MemBankView;

    closed spec fn view(&self) -> MemBankView {
        MemBankView { kind: self.bank_type, data: self.data@ }
    }
}

impl MemBank {
    /// Internal consistency: the contents have the bank's size, and the offset and the
    /// read-only flag follow the kind.
    pub open spec fn wf(&self) -> bool {
        &&& self@.wf()
        &&& self.layout_ok()
    }

    /// The offset and the read-only flag follow the kind.
    pub closed spec fn layout_ok(&self) -> bool {
        &&& self.offset as int == bank_base(self.bank_type)
        &&& self.read_only == bank_is_rom(self.bank_type)
    }

    /// Creates a bank of the given kind. RAM and I/O banks start zeroed; a ROM bank takes
    /// its contents from the start of `rom_image`, which must hold at least the bank's size
    /// (what lies beyond is never addressed).
    pub fn new(mem_type: MemType, rom_image: Vec<u8>) -> (bank: MemBank)
        requires
            bank_is_rom(mem_type) ==> rom_image@.len() >= bank_size(mem_type),
        ensures
            bank.wf(),
            bank@.kind == mem_type,
            bank_is_rom(mem_type) ==> bank@.data == rom_image@.subrange(0, bank_size(mem_type)),
            !bank_is_rom(mem_type) ==> bank@.data == Seq::new(bank_size(mem_type) as nat, |i: int| 0u8),
    {
        let mut image = rom_image;
        match mem_type {
            MemType::Basic => {
                image.truncate(0x2000);
                MemBank { bank_type: mem_type, read_only: true, offset: 0xA000, data: image }
            },
            MemType::Chargen => {
                image.truncate(0x1000);
                MemBank { bank_type: mem_type, read_only: true, offset: 0xD000, data: image }
            },
            MemType::Kernal => {
                image.truncate(0x2000);
                MemBank { bank_type: mem_type, read_only: true, offset: 0xE000, data: image }
            },
            MemType::Ram => {
                let mut data: Vec<u8> = Vec::with_capacity(0x10000);
                let mut k: usize = 0;
                while k < 0x10000
                    invariant
                        k <= 0x10000,
                        data@ == Seq::new(k as nat, |i: int| 0u8),
                    decreases 0x10000 - k,
                {
                    data.push(0);
                    k += 1;
                }
                MemBank { bank_type: mem_type, read_only: false, offset: 0x0000, data }
            },
            MemType::Io => {
                let mut data: Vec<u8> = Vec::with_capacity(0x1000);
                let mut k: usize = 0;
                while k < 0x1000
                    invariant
                        k <= 0x1000,
                        data@ == Seq::new(k as nat, |i: int| 0u8),
                    decreases 0x1000 - k,
                {
                    data.push(0);
                    k += 1;
                }
                MemBank { bank_type: mem_type, read_only: false, offset: 0xD000, data }
            },
        }
    }

    /// Whether this bank is a ROM.
    pub fn is_read_only(&self) -> (r: bool)
        requires
            self.wf(),
        ensures
            r == bank_is_rom(self@.kind),
    {
        self.read_only
    }

    /// Writes a byte into a RAM or I/O bank. I/O registers keep their unused bits set,
    /// $D02F-$D03F ignore writes and $D040-$D3FF mirror $D000-$D03F.
    pub fn write(&mut self, addr: u16, val: u8)
        requires
            old(self).wf(),
            !bank_is_rom(old(self)@.kind),
            bank_covers(old(self)@.kind, addr as int),
        ensures
            final(self).wf(),
            final(self)@ == old(self)@.after_write(addr, val),
        decreases addr,
    {
        match self.bank_type {
            MemType::Ram => {
                self.data.set((addr - self.offset) as usize, val);
            },
            _ => {
                if addr == 0xD016 {
                    self.data.set((addr - self.offset) as usize, 0xC0 | val);
                } else if addr == 0xD019 {
                    self.data.set((addr - self.offset) as usize, 0x70 | val);
                } else if addr == 0xD01A {
                    self.data.set((addr - self.offset) as usize, 0xF0 | val);
                } else if 0xD020 <= addr && addr <= 0xD02E {
                    self.data.set((addr - self.offset) as usize, 0xF0 | val);
                } else if 0xD02F <= addr && addr <= 0xD03F {
                } else if 0xD040 <= addr && addr <= 0xD3FF {
                    self.write(0xD000 + (addr % 0x0040), val);
                } else {
                    self.data.set((addr - self.offset) as usize, val);
                }
            },
        }
    }

    /// Reads a byte. On the I/O bank the collision registers $D01E/$D01F are cleared by the read.
    pub fn read(&mut self, addr: u16) -> (val: u8)
        requires
            old(self).wf(),
            bank_covers(old(self)@.kind, addr as int),
        ensures
            final(self).wf(),
            val == old(self)@.read_value(addr),
            final(self)@ == old(self)@.after_read(addr),
        decreases addr,
    {
        match self.bank_type {
            MemType::Io => {
                if addr == 0xD016 {
                    0xC0 | self.data[(addr - self.offset) as usize]
                } else if addr == 0xD018 {
                    0x01 | self.data[(addr - self.offset) as usize]
                } else if addr == 0xD019 {
                    0x70 | self.data[(addr - self.offset) as usize]
                } else if addr == 0xD01A {
                    0xF0 | self.data[(addr - self.offset) as usize]
                } else if 0xD01E <= addr && addr <= 0xD01F {
                    let value = self.data[(addr - self.offset) as usize];
                    self.data.set((addr - self.offset) as usize, 0);
                    value
                } else if 0xD020 <= addr && addr <= 0xD02E {
                    0xF0 | self.data[(addr - self.offset) as usize]
                } else if 0xD02F <= addr && addr <= 0xD03F {
                    0xFF
                } else if 0xD040 <= addr && addr <= 0xD3FF {
                    self.read(0xD000 + (addr % 0x0040))
                } else {
                    self.data[(addr - self.offset) as usize]
                }
            },
            _ => self.data[(addr - self.offset) as usize],
        }
    }
}

} // verus!

verus! {

/// Abstract state of the whole memory: the five banks and the bank switching flags.
pub struct MemoryView {
    pub ram: MemBankView,
    pub basic: MemBankView,
    pub chargen: MemBankView,
    pub io: MemBankView,
    pub kernal: MemBankView,
    pub exrom: bool,
    pub game: bool,
    pub basic_on: bool,
    pub chargen_on: bool,
    pub io_on: bool,
    pub kernal_on: bool,
}

/// CHAREN/HIRAM/LORAM latch value formed from the data direction register and port register.
pub open spec fn latch_value(ddr: u8, pr: u8) -> u8 {
    !ddr | pr
}

pub open spec fn latch_chargen_on(latch: u8) -> bool {
    (latch & 0x04) == 0 && (latch & 0x03) != 0
}

pub open spec fn latch_io_on(latch: u8) -> bool {
    (latch & 0x04) != 0 && (latch & 0x03) != 0
}

pub open spec fn latch_basic_on(latch: u8, exrom: bool, game: bool) -> bool {
    (latch & 0x03) == 3 && !(exrom && !game) && !(!exrom && !game)
}

pub open spec fn latch_kernal_on(latch: u8, exrom: bool, game: bool) -> bool {
    (latch & 0x02) != 0 && !(exrom && !game)
}

impl MemoryView {
    pub open spec fn wf(self) -> bool {
        &&& self.ram.kind == MemType::Ram && self.ram.wf()
        &&& self.basic.kind == MemType::Basic && self.basic.wf()
        &&& self.chargen.kind == MemType::Chargen && self.chargen.wf()
        &&& self.io.kind == MemType::Io && self.io.wf()
        &&& self.kernal.kind == MemType::Kernal && self.kernal.wf()
    }

    /// Which bank answers for `addr` under the current latch setting.
    pub open spec fn bank_for(self, addr: u16) -> MemType {
        if addr <= 0x9FFF {
            MemType::Ram
        } else if addr <= 0xBFFF {
            if self.basic_on { MemType::Basic } else { MemType::Ram }
        } else if addr <= 0xCFFF {
            MemType::Ram
        } else if addr <= 0xDFFF {
            if self.chargen_on {
                MemType::Chargen
            } else if self.io_on {
                MemType::Io
            } else {
                MemType::Ram
            }
        } else {
            if self.kernal_on { MemType::Kernal } else { MemType::Ram }
        }
    }

    pub open spec fn bank(self, t: MemType) -> MemBankView {
        match t {
            MemType::Ram => self.ram,
            MemType::Basic => self.basic,
            MemType::Chargen => self.chargen,
            MemType::Io => self.io,
            MemType::Kernal => self.kernal,
        }
    }

    pub open spec fn with_bank(self, t: MemType, b: MemBankView) -> MemoryView {
        match t {
            MemType::Ram => MemoryView { ram: b, ..self },
            MemType::Basic => MemoryView { basic: b, ..self },
            MemType::Chargen => MemoryView { chargen: b, ..self },
            MemType::Io => MemoryView { io: b, ..self },
            MemType::Kernal => MemoryView { kernal: b, ..self },
        }
    }

    /// The latch byte formed from RAM locations $0000 and $0001.
    pub open spec fn latch(self) -> u8 {
        latch_value(self.ram.data[0], self.ram.data[1])
    }

    /// The bank switching flags recomputed from the latch.
    pub open spec fn with_latch_flags(self) -> MemoryView {
        let l = self.latch();
        MemoryView {
            chargen_on: latch_chargen_on(l),
            io_on: latch_io_on(l),
            basic_on: latch_basic_on(l, self.exrom, self.game),
            kernal_on: latch_kernal_on(l, self.exrom, self.game),
            ..self
        }
    }

    /// The byte a CPU read at `addr` gives back; $0001 reads back the processor port.
    pub open spec fn read_value(self, addr: u16) -> u8 {
        if addr == 1 {
            let ddr = self.ram.data[0];
            let pr = self.ram.data[1];
            (ddr & pr) | (!ddr & 0x17u8)
        } else {
            self.bank(self.bank_for(addr)).read_value(addr)
        }
    }

    /// The memory after a read at `addr`.
    pub open spec fn after_read(self, addr: u16) -> MemoryView {
        if addr == 1 {
            self
        } else {
            let t = self.bank_for(addr);
            self.with_bank(t, self.bank(t).after_read(addr))
        }
    }

    /// Whether a write at `addr` lands in the visible bank (false: it went to RAM under a ROM).
    pub open spec fn write_hits_visible(self, addr: u16) -> bool {
        !bank_is_rom(self.bank_for(addr))
    }

    /// The memory after writing `val` at `addr`.
    pub open spec fn after_write(self, addr: u16, val: u8) -> MemoryView {
        let t = self.bank_for(addr);
        if bank_is_rom(t) {
            self.with_bank(MemType::Ram, self.ram.after_write(addr, val))
        } else {
            let m = self.with_bank(t, self.bank(t).after_write(addr, val));
            if addr < 2 {
                m.with_latch_flags()
            } else {
                m
            }
        }
    }

    /// Little endian word read from the bank that answers for `addr`.
    pub open spec fn word_le_value(self, addr: u16) -> u16 {
        let b = self.bank(self.bank_for(addr));
        let lo = b.read_value(addr);
        let hi = b.after_read(addr).read_value((addr + 1) as u16);
        (lo as u16) | ((hi as u16) << 8)
    }

    /// Whether both bytes of a word at `addr` lie in the bank that answers for `addr`.
    pub open spec fn word_in_one_bank(self, addr: u16) -> bool {
        addr < 0xFFFF && bank_covers(self.bank_for(addr), addr + 1)
    }
}

/// The memory of the C64 with all banks and bank switching support.
pub struct Memory {
    ram: MemBank,
    basic: MemBank,
    chargen: MemBank,
    io: MemBank,
    kernal: MemBank,
    exrom: bool,
    game: bool,
    basic_on: bool,
    chargen_on: bool,
    io_on: bool,
    kernal_on: bool,
}

impl View for Memory {
    type V = MemoryView;

    closed spec fn view(&self) -> MemoryView {
        MemoryView {
            ram: self.ram@,
            basic: self.basic@,
            chargen: self.chargen@,
            io: self.io@,
            kernal: self.kernal@,
            exrom: self.exrom,
            game: self.game,
            basic_on: self.basic_on,
            chargen_on: self.chargen_on,
            io_on: self.io_on,
            kernal_on: self.kernal_on,
        }
    }
}

impl Memory {
    /// Internal consistency: the view is well formed and every bank is consistent.
    pub open spec fn wf(&self) -> bool {
        self@.wf() && self.banks_wf()
    }

    /// Internal consistency of all banks.
    pub closed spec fn banks_wf(&self) -> bool {
        &&& self.ram.wf()
        &&& self.basic.wf()
        &&& self.chargen.wf()
        &&& self.io.wf()
        &&& self.kernal.wf()
    }

    /// Creates the memory from the three ROM images (BASIC 8k, character 4k, KERNAL 8k).
    /// All ROMs start banked out and EXROM/GAME are high.
    pub fn new_shared(basic_rom: Vec<u8>, chargen_rom: Vec<u8>, kernal_rom: Vec<u8>) -> (m: Memory)
        requires
            basic_rom@.len() >= 0x2000,
            chargen_rom@.len() >= 0x1000,
            kernal_rom@.len() >= 0x2000,
        ensures
            m.wf(),
            m@.ram.data == Seq::new(0x10000, |i: int| 0u8),
            m@.io.data == Seq::new(0x1000, |i: int| 0u8),
            m@.basic.data == basic_rom@.subrange(0, 0x2000),
            m@.chargen.data == chargen_rom@.subrange(0, 0x1000),
            m@.kernal.data == kernal_rom@.subrange(0, 0x2000),
            m@.exrom && m@.game,
            !m@.basic_on && !m@.chargen_on && !m@.io_on && !m@.kernal_on,
    {
        Memory {
            ram: MemBank::new(MemType::Ram, Vec::new()),
            basic: MemBank::new(MemType::Basic, basic_rom),
            chargen: MemBank::new(MemType::Chargen, chargen_rom),
            io: MemBank::new(MemType::Io, Vec::new()),
            kernal: MemBank::new(MemType::Kernal, kernal_rom),
            exrom: true,
            game: true,
            basic_on: false,
            chargen_on: false,
            io_on: false,
            kernal_on: false,
        }
    }

    /// Which bank answers for `addr` under the current latch setting.
    pub fn bank_type_for(&self, addr: u16) -> (t: MemType)
        ensures
            t == self@.bank_for(addr),
    {
        if addr <= 0x9FFF {
            MemType::Ram
        } else if addr <= 0xBFFF {
            if self.basic_on { MemType::Basic } else { MemType::Ram }
        } else if addr <= 0xCFFF {
            MemType::Ram
        } else if addr <= 0xDFFF {
            if self.chargen_on {
                MemType::Chargen
            } else if self.io_on {
                MemType::Io
            } else {
                MemType::Ram
            }
        } else {
            if self.kernal_on { MemType::Kernal } else { MemType::Ram }
        }
    }

    /// Whether both bytes of a word at `addr` come from the bank that answers for `addr`.
    pub fn word_in_one_bank(&self, addr: u16) -> (b: bool)
        ensures
            b == self@.word_in_one_bank(addr),
    {
        if addr == 0xFFFF {
            return false;
        }
        let next = addr + 1;
        match self.bank_type_for(addr) {
            MemType::Ram => true,
            MemType::Basic => 0xA000 <= next && next <= 0xBFFF,
            MemType::Chargen => 0xD000 <= next && next <= 0xDFFF,
            MemType::Io => 0xD000 <= next && next <= 0xDFFF,
            MemType::Kernal => 0xE000 <= next,
        }
    }

    /// Whether the I/O area is visible at $D000-$DFFF.
    pub fn is_io_on(&self) -> (b: bool)
        ensures
            b == self@.io_on,
    {
        self.io_on
    }

    /// Whether the BASIC ROM is visible at $A000-$BFFF.
    pub fn basic_on(&self) -> (b: bool)
        ensures
            b == self@.basic_on,
    {
        self.basic_on
    }

    /// Whether the character ROM is visible at $D000-$DFFF.
    pub fn chargen_on(&self) -> (b: bool)
        ensures
            b == self@.chargen_on,
    {
        self.chargen_on
    }

    /// Whether the KERNAL ROM is visible at $E000-$FFFF.
    pub fn kernal_on(&self) -> (b: bool)
        ensures
            b == self@.kernal_on,
    {
        self.kernal_on
    }

    /// Returns the bank that answers for `addr` under the current latch setting.
    pub fn get_bank(&mut self, addr: u16) -> (bank: &mut MemBank)
        requires
            old(self).wf(),
        ensures
            bank.wf(),
            bank@ == old(self)@.bank(old(self)@.bank_for(addr)),
            final(bank).wf() && final(bank)@.kind == bank@.kind ==> final(self).wf(),
            final(self)@ == old(self)@.with_bank(old(self)@.bank_for(addr), final(bank)@),
    {
        if addr <= 0x9FFF {
            &mut self.ram
        } else if addr <= 0xBFFF {
            if self.basic_on { &mut self.basic } else { &mut self.ram }
        } else if addr <= 0xCFFF {
            &mut self.ram
        } else if addr <= 0xDFFF {
            if self.chargen_on {
                &mut self.chargen
            } else if self.io_on {
                &mut self.io
            } else {
                &mut self.ram
            }
        } else {
            if self.kernal_on { &mut self.kernal } else { &mut self.ram }
        }
    }

    /// Returns one of the modifiable banks (RAM or I/O).
    pub fn get_ram_bank(&mut self, bank_type: MemType) -> (bank: &mut MemBank)
        requires
            old(self).wf(),
            bank_type == MemType::Ram || bank_type == MemType::Io,
        ensures
            bank.wf(),
            bank@ == old(self)@.bank(bank_type),
            final(bank).wf() && final(bank)@.kind == bank@.kind ==> final(self).wf(),
            final(self)@ == old(self)@.with_bank(bank_type, final(bank)@),
    {
        match bank_type {
            MemType::Ram => &mut self.ram,
            _ => &mut self.io,
        }
    }

    /// Returns one of the ROM banks (BASIC, character or KERNAL ROM).
    pub fn get_rom_bank(&mut self, bank_type: MemType) -> (bank: &mut MemBank)
        requires
            old(self).wf(),
            bank_is_rom(bank_type),
        ensures
            bank.wf(),
            bank@ == old(self)@.bank(bank_type),
            final(bank).wf() && final(bank)@.kind == bank@.kind ==> final(self).wf(),
            final(self)@ == old(self)@.with_bank(bank_type, final(bank)@),
    {
        match bank_type {
            MemType::Basic => &mut self.basic,
            MemType::Chargen => &mut self.chargen,
            _ => &mut self.kernal,
        }
    }

    /// Powers the processor port up: $0000 = $FF, $0001 = $07 (BASIC, KERNAL and I/O visible).
    pub fn reset(&mut self)
        requires
            old(self).wf(),
        ensures
            final(self).wf(),
            final(self)@ == old(self)@.after_write(0, 0xFF).after_write(1, 0x07),
    {
        self.write_byte(0x0000, 0xFF);
        self.write_byte(0x0001, 0x07);
    }

    /// Writes a byte; returns false when the write went to the RAM under a visible ROM.
    /// A write to $0000/$0001 updates the bank switching flags.
    pub fn write_byte(&mut self, addr: u16, value: u8) -> (visible: bool)
        requires
            old(self).wf(),
        ensures
            final(self).wf(),
            visible == old(self)@.write_hits_visible(addr),
            final(self)@ == old(self)@.after_write(addr, value),
    {
        if self.get_bank(addr).is_read_only() {
            self.ram.write(addr, value);
            return false;
        } else {
            self.get_bank(addr).write(addr, value);
        }
        if addr < 0x0002 {
            self.update_memory_latch();
        }
        true
    }

    /// Reads a byte; $0001 reads back the processor port (DDR-masked latch).
    pub fn read_byte(&mut self, addr: u16) -> (val: u8)
        requires
            old(self).wf(),
        ensures
            final(self).wf(),
            val == old(self)@.read_value(addr),
            final(self)@ == old(self)@.after_read(addr),
    {
        if addr == 0x0001 {
            let ddr = self.ram.read(0x0000);
            let pr = self.ram.read(0x0001);
            return (ddr & pr) | (!ddr & 0x17);
        }
        self.get_bank(addr).read(addr)
    }

    /// Reads a little endian word; both bytes come from the bank that answers for `addr`.
    pub fn read_word_le(&mut self, addr: u16) -> (val: u16)
        requires
            old(self).wf(),
            old(self)@.word_in_one_bank(addr),
        ensures
            final(self).wf(),
            val == old(self)@.word_le_value(addr),
            ({
                let t = old(self)@.bank_for(addr);
                final(self)@ == old(self)@.with_bank(t, old(self)@.bank(t).after_read(addr).after_read((addr + 1) as u16))
            }),
    {
        let bank = self.get_bank(addr);
        let lo = bank.read(addr);
        let hi = bank.read(addr + 0x0001);
        let value_be: u16 = ((lo as u16) << 8 & 0xFF00) | ((hi as u16) & 0x00FF);
        let value_le: u16 = ((value_be << 8) & 0xFF00) | ((value_be >> 8) & 0x00FF);
        assert(value_le == (lo as u16) | ((hi as u16) << 8)) by (bit_vector)
            requires
                value_be == ((lo as u16) << 8 & 0xFF00) | ((hi as u16) & 0x00FF),
                value_le == ((value_be << 8) & 0xFF00) | ((value_be >> 8) & 0x00FF),
        ;
        value_le
    }

    /// Recomputes the bank switching flags from the latch in $0000/$0001.
    fn update_memory_latch(&mut self)
        requires
            old(self).wf(),
        ensures
            final(self).wf(),
            final(self)@ == old(self)@.with_latch_flags(),
    {
        let ddr = self.ram.read(0x0000);
        let pr = self.ram.read(0x0001);
        let latch = !ddr | pr;
        self.chargen_on = ((latch & 0x04) == 0) && ((latch & 0x03) != 0);
        self.io_on = ((latch & 0x04) != 0) && ((latch & 0x03) != 0);
        self.basic_on = (latch & 0x03) == 3;
        self.kernal_on = (latch & 0x02) != 0;
        if self.exrom && !self.game {
            self.basic_on = false;
            self.kernal_on = false;
        }
        if !self.exrom && !self.game {
            self.basic_on = false;
        }
    }
}

/// Law: the bank switching flags follow the latch `!RAM[$0000] | RAM[$0001]`: the
/// character ROM shows when bit 2 is clear and bits 0-1 are not both clear, the I/O area
/// when bit 2 is set and bits 0-1 are not both clear, BASIC when bits 0-1 are both set and
/// GAME is high, the KERNAL when bit 1 is set unless EXROM is high and GAME low; RAM, the
/// ROM banks and EXROM/GAME stay.
pub proof fn lemma_latch_flags(m: MemoryView)
    ensures
        ({
            let n = m.with_latch_flags();
            let l = !m.ram.data[0] | m.ram.data[1];
            &&& n.chargen_on == ((l & 4) == 0 && (l & 3) != 0)
            &&& n.io_on == ((l & 4) != 0 && (l & 3) != 0)
            &&& n.basic_on == ((l & 3) == 3 && m.game)
            &&& n.kernal_on == ((l & 2) != 0 && !(m.exrom && !m.game))
            &&& n.ram == m.ram && n.basic == m.basic && n.chargen == m.chargen && n.io == m.io
                && n.kernal == m.kernal && n.exrom == m.exrom && n.game == m.game
        }),
{
}

/// Reading outside $D000-$DFFF changes nothing: only the I/O area has reads with
/// side effects.
pub proof fn lemma_read_outside_io_is_pure(m: MemoryView, addr: u16)
    requires
        !(0xD000 <= addr <= 0xDFFF),
    ensures
        m.after_read(addr) == m,
{
}

/// Law: a byte written to an address that RAM answers for reads back unchanged
/// (the processor port at $0001 excepted, which reads back through the DDR mask).
pub proof fn lemma_ram_read_after_write(m: MemoryView, addr: u16, val: u8)
    requires
        m.wf(),
        m.bank_for(addr) == MemType::Ram,
        addr != 1,
    ensures
        m.after_write(addr, val).read_value(addr) == val,
        m.after_write(addr, val).wf(),
{
    let m1 = m.with_bank(MemType::Ram, m.ram.after_write(addr, val));
    if addr < 2 {
        assert(m1.with_latch_flags().bank_for(addr) == MemType::Ram);
    }
}

/// Law: a write to an address that a ROM answers for goes to the RAM below it, so a read
/// of that address still gives the ROM byte, and the write reports it as not visible.
pub proof fn lemma_rom_write_invisible(m: MemoryView, addr: u16, val: u8)
    requires
        m.wf(),
        bank_is_rom(m.bank_for(addr)),
    ensures
        !m.write_hits_visible(addr),
        m.after_write(addr, val).read_value(addr) == m.read_value(addr),
        m.after_write(addr, val).ram.data[addr as int] == val,
{
}

/// Law: the latch flags depend only on $0000/$0001 and EXROM/GAME: after a reset with
/// EXROM and GAME high, BASIC, KERNAL and I/O are visible and the character ROM is not.
pub proof fn lemma_reset_banks(m: MemoryView)
    requires
        m.wf(),
        m.exrom,
        m.game,
    ensures
        ({
            let r = m.after_write(0, 0xFF).after_write(1, 0x07);
            &&& r.basic_on && r.kernal_on && r.io_on && !r.chargen_on
            &&& r.ram.data[0] == 0xFF && r.ram.data[1] == 0x07
        }),
{
    let r1 = m.after_write(0, 0xFF);
    assert(r1.ram.data[0] == 0xFF);
    let r = r1.after_write(1, 0x07);
    assert(r.ram.data[1] == 0x07);
    assert(r.ram.data[0] == 0xFF);
    assert(latch_value(0xFF, 0x07) == 0x07) by (bit_vector);
    assert((0x07u8 & 0x04) != 0 && (0x07u8 & 0x03) == 3 && (0x07u8 & 0x02) != 0) by (bit_vector);
}

} // verus!
