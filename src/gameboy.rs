use vstd::prelude::*;

use crate::bootrom::Bootrom;
use crate::cartridge::Cartridge;
use crate::constants::M_CYCLE_NANOS;
use crate::cpu::model::{did, m_emu, start};
use crate::cpu::{Cpu, CpuFault};
use crate::mem::Memory;
use crate::ppu::{at, lemma_at_next, Ppu, Timing};

verus! {

/// The console: the processor, and the bus with everything on it.
pub struct Gameboy {
    pub cpu: Cpu,
    pub mem: Memory,
    /// The last M-cycle completed a frame.
    pub frame: bool,
}

impl Gameboy {
    /// A completed frame leaves the PPU at the start of line 0.
    pub open spec fn wf(&self) -> bool {
        &&& self.cpu.wf()
        &&& self.mem.wf()
        &&& self.frame ==> self.mem.ppu.regs.timing() == at(0, 0)
    }

    pub fn new(bootrom: Bootrom, cartridge: Cartridge) -> (r: Gameboy)
        requires
            bootrom.wf(),
            cartridge.wf(),
        ensures
            r.wf(),
            r.mem.bootrom == bootrom,
            r.mem.cartridge == cartridge,
            r.mem.ppu.regs == Ppu::new_regs(),
            !r.frame,
    {
        Gameboy { cpu: Cpu::new(), mem: Memory::new(bootrom, cartridge), frame: false }
    }

    /// Advances the console by one M-cycle: the processor's step (at most
    /// one bus access), then the PPU's, then the interrupt lines the PPU
    /// raised are latched into IF. An unknown opcode stops the step before
    /// the PPU moves and is reported.
    pub fn step_one_m_cycle(&mut self) -> (r: Result<(), CpuFault>)
        requires
            old(self).wf(),
        ensures
            final(self).wf(),
            final(self).cpu.bus_accesses@ <= old(self).cpu.bus_accesses@ + 1,
            r is Err <==> m_emu(start(old(self).cpu), old(self).mem) is None,
            r is Err ==> final(self).mem == old(self).mem && final(self).frame == old(self).frame,
            r is Ok ==> exists|m: Memory|
                did(old(self).cpu, final(self).cpu, old(self).mem, m, m_emu(start(old(self).cpu), old(self).mem)->0)
                    && #[trigger] Memory::ppu_ticked(m, final(self).mem, final(self).frame),
            r is Ok ==> final(self).mem.ppu.regs.irq == 0,
            final(self).frame ==> final(self).mem.ppu.regs.timing() == at(0, 0),
    {
        match self.cpu.emu(&mut self.mem) {
            Ok(()) => {},
            Err(e) => {
                return Err(e);
            },
        }
        proof {
            let t: Timing = self.mem.ppu.regs.timing();
            let (ly, d) = choose|ly: int, d: int| 0 <= ly <= 153 && 0 <= d < 114 && t == at(ly, d);
            lemma_at_next(ly, d);
        }
        let ghost mid = self.mem;
        self.frame = self.mem.ppu_tick();
        assert(Memory::ppu_ticked(mid, self.mem, self.frame));
        Ok(())
    }

    /// Whether the last M-cycle completed a frame; the frame buffer then holds it.
    pub fn frame_ready(&self) -> (r: bool)
        ensures
            r == self.frame,
    {
        self.frame
    }

    /// The frame buffer: 160 x 144 luminance bytes, row by row.
    pub fn pixel_buffer(&self) -> (r: Vec<u8>)
        ensures
            r@ == self.mem.ppu.buffer@,
    {
        self.mem.ppu.pixel_buffer()
    }
}

/// How many M-cycles are owed after `elapsed` nanoseconds of real time, of
/// which `done` have already been run.
pub fn cycles_due(elapsed: u64, done: u64) -> (r: u64)
    requires
        done <= elapsed,
    ensures
        r == (elapsed - done) / (M_CYCLE_NANOS as int),
{
    (elapsed - done) / M_CYCLE_NANOS
}

} // verus!
