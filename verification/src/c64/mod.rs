// The C64: memory, CPU, VIC-II, SID and CIAs wired together, one clock cycle at a time
pub mod memory;
pub mod opcodes;
pub mod execute;
pub mod cia;
pub mod cpu;
pub mod vic;
pub mod vic_draw;
pub mod vic_sprites;
pub mod vic_raster;
pub mod vic_cycles;
pub mod crt;
pub mod io;
pub mod sid;
pub mod sid_wave;

use vstd::prelude::*;
use crate::c64::memory::{Memory, MemoryView};
use crate::c64::cpu::{CPU, Bus, CpuFault, update_effect, unit_result};
use crate::c64::vic::VIC;
use crate::c64::sid::SID;
use crate::c64::cia::{CIA, cia_cycle};
use crate::c64::vic_raster::only_io_changed;
use crate::c64::vic_cycles::next_cycle;
use crate::c64::vic_sprites::only_line_changed;
use crate::c64::sid::NUM_SAMPLES;
use crate::c64::io::Keyboard;
use crate::c64::crt::{bytes_written, write_bytes};

verus! {

/// Width of the emulated screen, borders included.
pub const SCREEN_WIDTH: usize = 384;
/// Height of the emulated screen, borders included.
pub const SCREEN_HEIGHT: usize = 272;
/// The program counter of the BASIC warm start, reached once the machine has booted.
pub const BASIC_WARM_START: u16 = 0xA480;

/// The machine: the chips on the bus, the CPU, the keyboard and the cycle counter.
pub struct C64 {
    pub bus: Bus,
    pub cpu: CPU,
    pub keyboard: Keyboard,
    pub boot_complete: bool,
    pub cycle_count: u32,
}

/// The load address of a PRG image (its first two bytes, little endian).
pub open spec fn prg_start(data: Seq<u8>) -> u16 {
    (data[0] as int + data[1] as int * 256) as u16
}

/// The memory after loading a PRG image: the bytes after the load address go to memory
/// from the load address on.
pub open spec fn prg_loaded(m: MemoryView, data: Seq<u8>) -> MemoryView {
    bytes_written(m, prg_start(data), data.subrange(2, data.len() as int))
}

/// What the chips do in one cycle before the CPU runs: the VIC's cycle (it draws only into
/// the current line of the picture, and may change only the I/O area of memory and, of the
/// CPU, only the BA line and the VIC interrupt line),
/// the SID's volume sample at the end of a raster line, and the CIAs' timers.
pub open spec fn chips_cycle(o: C64, n: C64) -> bool {
    let od = o.bus.sid.audio_device;
    let nd = n.bus.sid.audio_device;
    &&& n.bus.wf()
    &&& n.bus.vic.curr_cycle == next_cycle(o.bus.vic.curr_cycle)
    &&& only_line_changed(o.bus.vic.window_buffer@, n.bus.vic.window_buffer@, o.bus.vic.line_start_offset as int)
    &&& only_io_changed(o.bus.memory@, n.bus.memory@)
    &&& n.cpu == (CPU { ba_low: n.cpu.ba_low, vic_irq: n.cpu.vic_irq, ..o.cpu })
    &&& o.cpu.vic_irq ==> n.cpu.vic_irq
    &&& o.bus.vic.curr_cycle == 63 ==> nd.sample_buffer@ == od.sample_buffer@.update(od.sample_idx as int, od.volume)
        && nd.sample_idx == (od.sample_idx + 1) % (NUM_SAMPLES as int)
    &&& o.bus.vic.curr_cycle != 63 ==> n.bus.sid == o.bus.sid
    &&& cia_cycle(o.bus.cia1, n.bus.cia1)
    &&& cia_cycle(o.bus.cia2, n.bus.cia2)
    &&& n.keyboard == o.keyboard
    &&& n.boot_complete == o.boot_complete
    &&& n.cycle_count == o.cycle_count
}

/// Bytes written from `base` on, inside $0002-$CFFF, land in RAM at their addresses (also
/// under a visible BASIC ROM); the rest of RAM and the bank switching flags stay.
proof fn lemma_bytes_written_ram(m: MemoryView, base: u16, data: Seq<u8>)
    requires
        m.wf(),
        2 <= base,
        base + data.len() <= 0xD000,
    ensures
        ({
            let w = bytes_written(m, base, data);
            &&& w.wf()
            &&& w.basic_on == m.basic_on && w.chargen_on == m.chargen_on && w.io_on == m.io_on
                && w.kernal_on == m.kernal_on
            &&& forall|j: int| 0 <= j < 0x10000 ==> #[trigger] w.ram.data[j] == (if base <= j < base + data.len() {
                data[j - base]
            } else {
                m.ram.data[j]
            })
        }),
    decreases data.len(),
{
    if data.len() > 0 {
        let k = data.len() - 1;
        let d = data.take(k);
        lemma_bytes_written_ram(m, base, d);
        let addr = ((base + k) % 0x10000) as u16;
        assert(addr == base + k);
        let w0 = bytes_written(m, base, d);
        let w = bytes_written(m, base, data);
        assert(w == w0.after_write(addr, data[k]));
        assert forall|j: int| 0 <= j < 0x10000 implies #[trigger] w.ram.data[j] == (if base <= j < base + data.len() {
            data[j - base]
        } else {
            m.ram.data[j]
        }) by {
            if base <= j < base + k {
                assert(d[j - base] == data[j - base]);
            }
        }
    }
}

/// Law: a program whose load address and bytes lie in $0002-$CFFF is in RAM after loading:
/// byte `i` after the load address is at load address + `i`, and the rest of RAM stays.
pub proof fn lemma_prg_lands_in_ram(m: MemoryView, data: Seq<u8>)
    requires
        m.wf(),
        data.len() >= 2,
        2 <= prg_start(data),
        prg_start(data) + data.len() - 2 <= 0xD000,
    ensures
        forall|j: int| 0 <= j < 0x10000 ==> #[trigger] prg_loaded(m, data).ram.data[j] == (
            if prg_start(data) <= j < prg_start(data) + data.len() - 2 {
                data[j - prg_start(data) + 2]
            } else {
                m.ram.data[j]
            }),
{
    let body = data.subrange(2, data.len() as int);
    lemma_bytes_written_ram(m, prg_start(data), body);
    assert forall|j: int| 0 <= j < 0x10000 implies #[trigger] prg_loaded(m, data).ram.data[j] == (
        if prg_start(data) <= j < prg_start(data) + data.len() - 2 {
            data[j - prg_start(data) + 2]
        } else {
            m.ram.data[j]
        }) by {
        if prg_start(data) <= j < prg_start(data) + data.len() - 2 {
            assert(body[j - prg_start(data)] == data[j - prg_start(data) + 2]);
        }
    }
}

impl C64 {
    /// A powered-up machine with the given BASIC, character and KERNAL ROM images (each
    /// at least its bank's size; the banks take their starts).
    pub fn new(basic_rom: Vec<u8>, chargen_rom: Vec<u8>, kernal_rom: Vec<u8>) -> (c: C64)
        requires
            basic_rom@.len() >= 0x2000,
            chargen_rom@.len() >= 0x1000,
            kernal_rom@.len() >= 0x2000,
        ensures
            c.bus.wf(),
            c.cycle_count == 0,
            !c.boot_complete,
            c.bus.memory@.basic.data == basic_rom@.subrange(0, 0x2000),
            c.bus.memory@.chargen.data == chargen_rom@.subrange(0, 0x1000),
            c.bus.memory@.kernal.data == kernal_rom@.subrange(0, 0x2000),
            c.bus.vic.curr_cycle == 1,
    {
        C64 {
            bus: Bus {
                memory: Memory::new_shared(basic_rom, chargen_rom, kernal_rom),
                vic: VIC::new_shared(),
                sid: SID::new_shared(),
                cia1: CIA::new_shared(),
                cia2: CIA::new_shared(),
            },
            cpu: CPU::new_shared(),
            keyboard: Keyboard::new(),
            boot_complete: false,
            cycle_count: 0,
        }
    }

    /// Resets the machine: the processor port latch, the CPU (PC from the reset vector),
    /// the CIAs and the SID.
    pub fn reset(&mut self)
        requires
            old(self).bus.wf(),
        ensures
            final(self).bus.wf(),
            final(self).cpu.pc == old(self).bus.memory@.after_write(0, 0xFF).after_write(1, 0x07).word_le_value(0xFFFC),
    {
        self.bus.memory.reset();
        self.cpu.reset(&mut self.bus);
        self.bus.cia1.reset();
        self.bus.cia2.reset();
        self.bus.sid.reset();
    }

    /// Whether the machine reached the BASIC warm start for the first time in this call
    /// (a program given on the command line is loaded then).
    pub fn check_boot(&mut self) -> (just_booted: bool)
        ensures
            just_booted == (!old(self).boot_complete && old(self).cpu.pc == BASIC_WARM_START),
            final(self).boot_complete == (old(self).boot_complete || old(self).cpu.pc == BASIC_WARM_START),
            final(self).bus == old(self).bus && final(self).cpu == old(self).cpu,
            final(self).cycle_count == old(self).cycle_count,
    {
        if self.boot_complete {
            return false;
        }
        self.boot_complete = self.cpu.pc == BASIC_WARM_START;
        self.boot_complete
    }

    /// Loads a PRG program: the first two bytes are the load address (little endian), the
    /// rest goes to memory from there on.
    pub fn load_prg(&mut self, prg_data: &[u8])
        requires
            old(self).bus.wf(),
            prg_data@.len() >= 2,
        ensures
            final(self).bus.wf(),
            final(self).bus.memory@ == prg_loaded(old(self).bus.memory@, prg_data@),
    {
        let start_address: u16 = (prg_data[1] as u16) * 256 + (prg_data[0] as u16);
        write_bytes(&mut self.bus.memory, start_address, prg_data, 2);
    }

    /// The chips' part of a cycle: the VIC (the SID samples at the end of each raster line),
    /// then the CIA timers. Returns whether the VIC reached the vertical blank.
    #[verifier::spinoff_prover]
    #[verifier::rlimit(60)]
    fn chips_step(&mut self) -> (vblank: bool)
        requires
            old(self).bus.wf(),
        ensures
            chips_cycle(*old(self), *final(self)),
            vblank == (old(self).bus.vic.curr_cycle == 2 && old(self).bus.vic.trigger_vblank),
    {
        let line_end = self.bus.vic.curr_cycle == 63;
        let vblank = self.vic_cycle();
        if line_end {
            self.bus.sid.update();
        }
        self.bus.cia1.update();
        self.bus.cia2.update();
        vblank
    }

    /// The VIC's part of a cycle (see `VIC::update`); the other chips are left alone.
    #[verifier::spinoff_prover]
    #[verifier::rlimit(40)]
    fn vic_cycle(&mut self) -> (vblank: bool)
        requires
            old(self).bus.wf(),
        ensures
            final(self).bus.wf(),
            final(self).bus.vic.curr_cycle == next_cycle(old(self).bus.vic.curr_cycle),
            only_line_changed(old(self).bus.vic.window_buffer@, final(self).bus.vic.window_buffer@,
                old(self).bus.vic.line_start_offset as int),
            only_io_changed(old(self).bus.memory@, final(self).bus.memory@),
            final(self).cpu == (CPU { ba_low: final(self).cpu.ba_low, vic_irq: final(self).cpu.vic_irq, ..old(self).cpu }),
            old(self).cpu.vic_irq ==> final(self).cpu.vic_irq,
            final(self).bus.sid == old(self).bus.sid,
            final(self).bus.cia1 == old(self).bus.cia1,
            final(self).bus.cia2 == old(self).bus.cia2,
            final(self).keyboard == old(self).keyboard,
            final(self).boot_complete == old(self).boot_complete,
            final(self).cycle_count == old(self).cycle_count,
            vblank == (old(self).bus.vic.curr_cycle == 2 && old(self).bus.vic.trigger_vblank),
    {
        let mut should_trigger_vblank = false;
        let cnt = self.cycle_count;
        self.bus.vic.update(&mut self.bus.memory, &mut self.cpu, cnt, &mut should_trigger_vblank)
    }

    /// One clock cycle of the machine: the VIC (the SID takes a sample at the end of each
    /// raster line), the CIA timers, then the CPU on the bus as the chips left it. Returns
    /// whether the VIC reached the vertical blank, when the picture is complete.
    #[verifier::spinoff_prover]
    pub fn step(&mut self) -> (r: Result<bool, CpuFault>)
        requires
            old(self).bus.wf(),
        ensures
            final(self).bus.wf(),
            exists|mid: C64| #[trigger] chips_cycle(*old(self), mid)
                && update_effect(mid.cpu, mid.bus, final(self).cpu, final(self).bus, unit_result(r), old(self).cycle_count),
            r matches Ok(vblank) ==> vblank == (old(self).bus.vic.curr_cycle == 2 && old(self).bus.vic.trigger_vblank)
                && final(self).cycle_count == (if old(self).cycle_count == 0xFFFF_FFFF { 0 } else {
                    old(self).cycle_count + 1 }) as u32,
            r is Err ==> final(self).cycle_count == old(self).cycle_count,
            final(self).keyboard == old(self).keyboard && final(self).boot_complete == old(self).boot_complete,
    {
        let vblank = self.chips_step();
        let ghost mid = *self;
        let cnt = self.cycle_count;
        let res = self.cpu.update(&mut self.bus, cnt);
        proof {
            assert(chips_cycle(*old(self), mid));
        }
        match res {
            Ok(()) => {
                self.cycle_count = self.cycle_count.wrapping_add(1);
                Ok(vblank)
            },
            Err(e) => Err(e),
        }
    }
}

} // verus!
