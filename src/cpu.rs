use vstd::prelude::*;

use crate::cpu::interrupts::Interrupts;
use crate::cpu::model::{did, m_emu, m_fetch, m_finish, start};
use crate::cpu::reg::Registers;
use crate::mem::Memory;

pub mod alu;
pub mod decode;
pub mod instructions;
pub mod interrupts;
pub mod laws;
pub mod model;
pub mod operand;
pub mod reg;

verus! {

/// The step that only fetches the next opcode.
pub const PREFETCH: u8 = 0xFF;

/// The micro-state of the instruction in progress.
#[derive(Clone, Copy, Debug, PartialEq, Eq, Structural)]
pub struct Ctx {
    /// The opcode being executed (the second byte after a CB prefix).
    pub opcode: u8,
    /// The opcode came after a CB prefix.
    pub cb: bool,
    /// The fetch found an interrupt to serve instead of the opcode.
    pub int: bool,
    /// The instruction's step; `PREFETCH` when only the fetch is left.
    pub step: u8,
    /// The operand's step, for operands that take several M-cycles.
    pub sub: u8,
    /// Operand latches: a low byte and an address.
    pub lo: u8,
    pub addr: u16,
    /// Instruction latches: a byte and a word kept between M-cycles.
    pub data8: u8,
    pub data16: u16,
    /// The current M-cycle has been spent, on a bus access or on internal work.
    pub busy: bool,
}

/// An opcode that the decoder does not know.
#[derive(Clone, Copy, Debug, PartialEq, Eq, Structural)]
pub struct CpuFault {
    pub opcode: u8,
    pub cb: bool,
    /// The address the opcode was read from.
    pub pc: u16,
}

/// The processor. `bus_accesses` counts, for proofs only, the reads and
/// writes it has made on the bus.
pub struct Cpu {
    pub regs: Registers,
    pub ctx: Ctx,
    pub bus_accesses: Ghost<nat>,
}

/// Nothing on the bus changed but, possibly, the interrupt master enable
/// (which DI, EI, RETI and the interrupt routine set without a bus access).
pub open spec fn quiet(m0: Memory, m1: Memory) -> bool {
    Memory { interrupts: Interrupts { ime: m0.interrupts.ime, ..m1.interrupts }, ..m1 } == m0
}

/// `r1` is `r0` but for PC, which the fetch of the next opcode moves.
pub open spec fn same_but_pc(r0: Registers, r1: Registers) -> bool {
    r1 == Registers { pc: r1.pc, ..r0 }
}

impl Cpu {
    pub open spec fn wf(&self) -> bool {
        self.regs.wf()
    }

    /// From `c0` to `c1` the CPU made at most one bus access, and only if the
    /// M-cycle was still free; without one the bus saw no change.
    pub open spec fn bus_ok(c0: Cpu, c1: Cpu, m0: Memory, m1: Memory) -> bool {
        &&& m1.wf()
        &&& (c0.ctx.busy ==> c1.ctx.busy)
        &&& {
            ||| c1.bus_accesses@ == c0.bus_accesses@ && quiet(m0, m1)
            ||| c1.bus_accesses@ == c0.bus_accesses@ + 1 && !c0.ctx.busy && c1.ctx.busy
        }
    }

    pub fn new() -> (r: Cpu)
        ensures
            r.wf(),
            r.regs.pc == 0,
            r.regs.sp == 0,
            r.regs.f == 0,
            r.ctx.step == 0,
            r.ctx.opcode == 0,
            !r.ctx.cb,
            !r.ctx.int,
    {
        Cpu {
            regs: Registers::new(),
            ctx: Ctx {
                opcode: 0,
                cb: false,
                int: false,
                step: 0,
                sub: 0,
                lo: 0,
                addr: 0,
                data8: 0,
                data16: 0,
                busy: false,
            },
            bus_accesses: Ghost(0),
        }
    }

    /// One bus read; it spends the M-cycle.
    pub(crate) fn load(&mut self, mem: &Memory, addr: u16) -> (r: u8)
        requires
            !old(self).ctx.busy,
            mem.wf(),
        ensures
            r == mem.spec_read(addr),
            final(self).regs == old(self).regs,
            final(self).ctx == (Ctx { busy: true, ..old(self).ctx }),
            final(self).bus_accesses@ == old(self).bus_accesses@ + 1,
    {
        self.ctx.busy = true;
        self.bus_accesses = Ghost(self.bus_accesses@ + 1);
        mem.read(addr)
    }

    /// One bus write; it spends the M-cycle.
    pub(crate) fn store(&mut self, mem: &mut Memory, addr: u16, val: u8)
        requires
            !old(self).ctx.busy,
            old(mem).wf(),
        ensures
            final(mem).wf(),
            old(mem).wrote(addr, val, final(mem)),
            final(self).regs == old(self).regs,
            final(self).ctx == (Ctx { busy: true, ..old(self).ctx }),
            final(self).bus_accesses@ == old(self).bus_accesses@ + 1,
    {
        self.ctx.busy = true;
        self.bus_accesses = Ghost(self.bus_accesses@ + 1);
        mem.write(addr, val);
    }

    /// An M-cycle of internal work, with no bus access.
    pub(crate) fn idle(&mut self)
        requires
            !old(self).ctx.busy,
        ensures
            final(self).regs == old(self).regs,
            final(self).ctx == (Ctx { busy: true, ..old(self).ctx }),
            final(self).bus_accesses == old(self).bus_accesses,
    {
        self.ctx.busy = true;
    }

    /// Reads the byte at PC and moves PC past it.
    pub(crate) fn imm8(&mut self, mem: &Memory) -> (r: u8)
        requires
            !old(self).ctx.busy,
            mem.wf(),
        ensures
            r == mem.spec_read(old(self).regs.pc),
            final(self).regs == (Registers {
                pc: ((old(self).regs.pc + 1) % 65536) as u16,
                ..old(self).regs
            }),
            final(self).ctx == (Ctx { busy: true, ..old(self).ctx }),
            final(self).bus_accesses@ == old(self).bus_accesses@ + 1,
    {
        let pc = self.regs.pc;
        let v = self.load(mem, pc);
        self.regs.pc = pc.wrapping_add(1);
        v
    }

    /// Reads the opcode at PC. With the master enable on and an interrupt
    /// pending, the next M-cycle serves it and PC stays; otherwise PC moves on.
    pub fn fetch(&mut self, mem: &Memory)
        requires
            !old(self).ctx.busy,
            old(self).wf(),
            mem.wf(),
        ensures
            final(self).wf(),
            final(self).ctx.opcode == mem.spec_read(old(self).regs.pc),
            final(self).ctx.int == (mem.interrupts.ime && mem.interrupts.pending() != 0),
            !final(self).ctx.cb,
            final(self).ctx.step == 0,
            final(self).ctx.sub == 0,
            final(self).ctx.busy,
            final(self).regs == (Registers {
                pc: if final(self).ctx.int {
                    old(self).regs.pc
                } else {
                    ((old(self).regs.pc + 1) % 65536) as u16
                },
                ..old(self).regs
            }),
            final(self).bus_accesses@ == old(self).bus_accesses@ + 1,
            did(*old(self), *final(self), *mem, *mem, m_fetch(start(*old(self)), *mem)),
    {
        let pc = self.regs.pc;
        let opcode = self.load(mem, pc);
        self.ctx.opcode = opcode;
        if mem.interrupts.ime && mem.interrupts.get_int() != 0 {
            self.ctx.int = true;
        } else {
            self.regs.pc = pc.wrapping_add(1);
            self.ctx.int = false;
        }
        self.ctx.cb = false;
        self.ctx.step = 0;
        self.ctx.sub = 0;
    }

    /// Ends an instruction: fetches the next opcode now if this M-cycle is
    /// free, else in the next one.
    pub(crate) fn finish(&mut self, mem: &Memory)
        requires
            old(self).wf(),
            mem.wf(),
        ensures
            final(self).wf(),
            Cpu::bus_ok(*old(self), *final(self), *mem, *mem),
            same_but_pc(old(self).regs, final(self).regs),
            old(self).ctx.busy ==> final(self).ctx.step == PREFETCH,
            !old(self).ctx.busy ==> final(self).ctx.step == 0 && final(self).ctx.opcode
                == mem.spec_read(old(self).regs.pc),
            did(*old(self), *final(self), *mem, *mem, m_finish(start(*old(self)), *mem)),
    {
        if self.ctx.busy {
            self.ctx.step = PREFETCH;
        } else {
            self.fetch(mem);
        }
    }

    /// Advances the processor by one M-cycle. Each M-cycle makes at most one
    /// bus access; one with none leaves everything on the bus but the
    /// interrupt controller as it was. An unknown opcode is reported and
    /// leaves the processor where it was.
    pub fn emu(&mut self, mem: &mut Memory) -> (r: Result<(), CpuFault>)
        requires
            old(self).wf(),
            old(mem).wf(),
        ensures
            final(self).wf(),
            final(mem).wf(),
            final(self).bus_accesses@ <= old(self).bus_accesses@ + 1,
            final(self).bus_accesses@ == old(self).bus_accesses@ ==> quiet(*old(mem), *final(mem)),
            r is Err <==> m_emu(start(*old(self)), *old(mem)) is None,
            r is Ok ==> did(
                *old(self),
                *final(self),
                *old(mem),
                *final(mem),
                m_emu(start(*old(self)), *old(mem))->0,
            ),
            r is Err ==> *final(mem) == *old(mem),
            r is Err ==> final(self).regs == old(self).regs && final(self).ctx == (Ctx {
                busy: false,
                ..old(self).ctx
            }),
            old(self).ctx.step == PREFETCH ==> {
                &&& r is Ok
                &&& final(self).ctx.opcode == old(mem).spec_read(old(self).regs.pc)
                &&& final(self).ctx.int == (old(mem).interrupts.ime && old(mem).interrupts.pending()
                    != 0)
                &&& final(self).ctx.step == 0
                &&& !final(self).ctx.cb
            },
    {
        self.ctx.busy = false;
        if self.ctx.step == PREFETCH {
            self.fetch(mem);
            return Ok(());
        }
        if self.ctx.int {
            self.call_isr(mem);
            Ok(())
        } else if self.ctx.cb {
            self.cb_decode(mem);
            Ok(())
        } else {
            self.decode(mem)
        }
    }
}

} // verus!
