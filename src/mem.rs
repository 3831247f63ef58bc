use vstd::prelude::*;

use crate::bootrom::Bootrom;
use crate::cartridge::Cartridge;
use crate::cpu::interrupts::Interrupts;
use crate::hram::Hram;
use crate::ppu::{frame_done, Mode, Ppu, PpuRegs};
use crate::wram::Wram;

verus! {

/// The memory bus: it routes each address to the component that owns it.
pub struct Memory {
    pub bootrom: Bootrom,
    pub wram: Wram,
    pub hram: Hram,
    pub ppu: Ppu,
    pub cartridge: Cartridge,
    pub interrupts: Interrupts,
}

impl Memory {
    pub open spec fn wf(&self) -> bool {
        &&& self.bootrom.wf()
        &&& self.wram.wf()
        &&& self.hram.wf()
        &&& self.ppu.wf()
        &&& self.cartridge.wf()
    }

    /// What a read of `addr` returns.
    pub open spec fn spec_read(&self, addr: u16) -> u8 {
        if addr <= 0x00FF {
            if self.bootrom.active {
                self.bootrom.rom@[addr as int]
            } else {
                self.cartridge.spec_read(addr)
            }
        } else if addr <= 0x7FFF {
            self.cartridge.spec_read(addr)
        } else if addr <= 0x9FFF {
            self.ppu.spec_read(addr)
        } else if addr <= 0xBFFF {
            self.cartridge.spec_read(addr)
        } else if addr <= 0xFDFF {
            self.wram.bytes@[Wram::index(addr)]
        } else if addr <= 0xFE9F {
            self.ppu.spec_read(addr)
        } else if addr == 0xFF0F {
            self.interrupts.i_flag | 0xE0
        } else if 0xFF40 <= addr <= 0xFF4B {
            self.ppu.spec_read(addr)
        } else if 0xFF80 <= addr <= 0xFFFE {
            self.hram.bytes@[Hram::index(addr)]
        } else if addr == 0xFFFF {
            self.interrupts.i_enable
        } else {
            0xFF
        }
    }

    /// Every component but the ones named is the same in `next`.
    pub open spec fn keeps(&self, next: &Memory, cart: bool, ppu: bool, wram: bool, hram: bool, irqs: bool, boot: bool) -> bool {
        &&& (cart || next.cartridge == self.cartridge)
        &&& (ppu || next.ppu == self.ppu)
        &&& (wram || next.wram == self.wram)
        &&& (hram || next.hram == self.hram)
        &&& (irqs || next.interrupts == self.interrupts)
        &&& (boot || next.bootrom == self.bootrom)
    }

    /// The bus after a write of `val` to `addr`.
    pub open spec fn wrote(&self, addr: u16, val: u8, next: &Memory) -> bool {
        if addr <= 0x00FF {
            if self.bootrom.active {
                self.keeps(next, false, false, false, false, false, false)
            } else {
                self.cartridge.wrote(addr, val, &next.cartridge) && self.keeps(next, true, false, false, false, false, false)
            }
        } else if addr <= 0x7FFF || (0xA000 <= addr <= 0xBFFF) {
            self.cartridge.wrote(addr, val, &next.cartridge) && self.keeps(next, true, false, false, false, false, false)
        } else if addr <= 0x9FFF || (0xFE00 <= addr <= 0xFE9F) || (0xFF40 <= addr <= 0xFF4B) {
            self.ppu.wrote(addr, val, &next.ppu) && self.keeps(next, false, true, false, false, false, false)
        } else if 0xC000 <= addr <= 0xFDFF {
            &&& next.wram.bytes@ == self.wram.bytes@.update(Wram::index(addr), val)
            &&& self.keeps(next, false, false, true, false, false, false)
        } else if addr == 0xFF0F {
            &&& next.interrupts == (Interrupts { i_flag: val, ..self.interrupts })
            &&& self.keeps(next, false, false, false, false, true, false)
        } else if addr == 0xFF50 {
            &&& next.bootrom.rom@ == self.bootrom.rom@
            &&& next.bootrom.active == (self.bootrom.active && val == 0)
            &&& self.keeps(next, false, false, false, false, false, true)
        } else if 0xFF80 <= addr <= 0xFFFE {
            &&& next.hram.bytes@ == self.hram.bytes@.update(Hram::index(addr), val)
            &&& self.keeps(next, false, false, false, true, false, false)
        } else if addr == 0xFFFF {
            &&& next.interrupts == (Interrupts { i_enable: val, ..self.interrupts })
            &&& self.keeps(next, false, false, false, false, true, false)
        } else {
            self.keeps(next, false, false, false, false, false, false)
        }
    }

    /// The bus after the PPU's M-cycle, which returned `frame`: an enabled
    /// PPU steps (a disabled one rests), and the interrupt lines it raised are
    /// latched into IF.
    pub open spec fn ppu_ticked(m0: Memory, m1: Memory, frame: bool) -> bool {
        let p = m0.ppu.regs;
        let q = if p.lcd_on() {
            p.step()
        } else {
            p
        };
        &&& m1.ppu.regs == PpuRegs { irq: 0, ..q }
        &&& frame == (p.lcd_on() && frame_done(p.timing()))
        &&& m1.interrupts == Interrupts { i_flag: m0.interrupts.i_flag | q.irq, ..m0.interrupts }
        &&& m1.ppu.vram == m0.ppu.vram
        &&& m1.ppu.oam == m0.ppu.oam
        &&& m1.ppu.buffer@ == if p.lcd_on() && p.mode == Mode::OAMScan && p.cycles == 1 {
            m0.ppu.rendered(p.ly)
        } else {
            m0.ppu.buffer@
        }
        &&& m1.bootrom == m0.bootrom
        &&& m1.wram == m0.wram
        &&& m1.hram == m0.hram
        &&& m1.cartridge == m0.cartridge
    }

    /// The PPU's M-cycle: it steps, then hands its interrupt lines to IF.
    /// Returns whether a frame was completed.
    pub fn ppu_tick(&mut self) -> (frame: bool)
        requires
            old(self).wf(),
        ensures
            final(self).wf(),
            Memory::ppu_ticked(*old(self), *final(self), frame),
    {
        let frame = self.ppu.emu();
        let lines = self.ppu.take_irq();
        self.interrupts.irq(lines);
        frame
    }

    pub fn new(bootrom: Bootrom, cartridge: Cartridge) -> (r: Memory)
        requires
            bootrom.wf(),
            cartridge.wf(),
        ensures
            r.wf(),
            r.bootrom == bootrom,
            r.cartridge == cartridge,
            r.ppu.regs == Ppu::new_regs(),
            r.interrupts == Interrupts::new_spec(),
    {
        Memory {
            bootrom,
            wram: Wram::new(),
            hram: Hram::new(),
            ppu: Ppu::new(),
            cartridge,
            interrupts: Interrupts::new(),
        }
    }

    pub fn read(&self, addr: u16) -> (r: u8)
        requires
            self.wf(),
        ensures
            r == self.spec_read(addr),
    {
        if addr <= 0x00FF {
            if self.bootrom.active() {
                self.bootrom.read(addr)
            } else {
                self.cartridge.read(addr)
            }
        } else if addr <= 0x7FFF {
            self.cartridge.read(addr)
        } else if addr <= 0x9FFF {
            self.ppu.read(addr)
        } else if addr <= 0xBFFF {
            self.cartridge.read(addr)
        } else if addr <= 0xFDFF {
            self.wram.read(addr)
        } else if addr <= 0xFE9F {
            self.ppu.read(addr)
        } else if addr == 0xFF0F {
            self.interrupts.read(addr)
        } else if 0xFF40 <= addr && addr <= 0xFF4B {
            self.ppu.read(addr)
        } else if 0xFF80 <= addr && addr <= 0xFFFE {
            self.hram.read(addr)
        } else if addr == 0xFFFF {
            self.interrupts.read(addr)
        } else {
            0xFF
        }
    }

    pub fn write(&mut self, addr: u16, data: u8)
        requires
            old(self).wf(),
        ensures
            final(self).wf(),
            old(self).wrote(addr, data, final(self)),
    {
        if addr <= 0x00FF {
            if !self.bootrom.active() {
                self.cartridge.write(addr, data);
            }
        } else if addr <= 0x7FFF || (0xA000 <= addr && addr <= 0xBFFF) {
            self.cartridge.write(addr, data);
        } else if addr <= 0x9FFF || (0xFE00 <= addr && addr <= 0xFE9F) || (0xFF40 <= addr && addr
            <= 0xFF4B) {
            self.ppu.write(addr, data);
        } else if 0xC000 <= addr && addr <= 0xFDFF {
            self.wram.write(addr, data);
        } else if addr == 0xFF0F || addr == 0xFFFF {
            self.interrupts.write(addr, data);
        } else if addr == 0xFF50 {
            self.bootrom.write(addr, data);
        } else if 0xFF80 <= addr && addr <= 0xFFFE {
            self.hram.write(addr, data);
        }
    }
}

/// Once a non-zero byte is written to 0xFF50 the boot ROM is off, no later
/// write turns it back on, and reads of 0x0000-0x00FF return cartridge data.
pub proof fn lemma_boot_rom_latch(before: Memory, val: u8, after: Memory, addr: u16, a: u16)
    requires
        before.wrote(addr, val, &after),
        !before.bootrom.active || (addr == 0xFF50 && val != 0),
        a <= 0x00FF,
    ensures
        !after.bootrom.active,
        after.spec_read(a) == after.cartridge.spec_read(a),
{
}

} // verus!
