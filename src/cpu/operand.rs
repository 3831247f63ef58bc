use vstd::prelude::*;

use crate::cpu::model::{did, ind_addr, ind_regs, m_read16, m_read8, m_write16, m_write8, start};
use crate::cpu::Cpu;
use crate::mem::Memory;

verus! {

/// An 8-bit register.
#[derive(Clone, Copy, Debug, PartialEq, Eq, Structural)]
pub enum Reg8 {
    A,
    B,
    C,
    D,
    E,
    H,
    L,
}

/// A 16-bit register or register pair.
#[derive(Clone, Copy, Debug, PartialEq, Eq, Structural)]
pub enum Reg16 {
    AF,
    BC,
    DE,
    HL,
    SP,
}

/// The byte that follows the opcode.
#[derive(Clone, Copy, Debug, PartialEq, Eq, Structural)]
pub struct Imm8;

/// The two bytes that follow the opcode, low byte first.
#[derive(Clone, Copy, Debug, PartialEq, Eq, Structural)]
pub struct Imm16;

/// A byte addressed by a register: (BC), (DE), (HL), (0xFF00 + C),
/// (HL) with post-decrement, (HL) with post-increment.
#[derive(Clone, Copy, Debug, PartialEq, Eq, Structural)]
pub enum Indirect {
    BC,
    DE,
    HL,
    CFF,
    HLD,
    HLI,
}

/// A byte addressed by the instruction: a 16-bit immediate address (D),
/// or 0xFF00 plus an 8-bit immediate (DFF).
#[derive(Clone, Copy, Debug, PartialEq, Eq, Structural)]
pub enum Direct8 {
    D,
    DFF,
}

/// Two bytes at a 16-bit immediate address (the target of LD (nn),SP).
#[derive(Clone, Copy, Debug, PartialEq, Eq, Structural)]
pub struct Direct16;

/// Branch condition.
#[derive(Clone, Copy, Debug, PartialEq, Eq, Structural)]
pub enum Cond {
    NZ,
    Z,
    NC,
    C,
}

/// Where an 8-bit operand lives.
#[derive(Clone, Copy, Debug, PartialEq, Eq, Structural)]
pub enum Op8 {
    Reg(Reg8),
    Imm(Imm8),
    Ind(Indirect),
    Dir(Direct8),
}

/// Where a 16-bit operand lives.
#[derive(Clone, Copy, Debug, PartialEq, Eq, Structural)]
pub enum Op16 {
    Reg(Reg16),
    Imm(Imm16),
    Dir(Direct16),
}


impl Cpu {
    /// The address that an indirect operand names; (HL+) and (HL-) then step HL.
    fn indirect(&mut self, i: Indirect) -> (a: u16)
        requires
            old(self).wf(),
        ensures
            final(self).wf(),
            final(self).ctx == old(self).ctx,
            final(self).bus_accesses == old(self).bus_accesses,
            final(self).regs == ind_regs(old(self).regs, i),
            a == ind_addr(old(self).regs, i),
    {
        match i {
            Indirect::BC => self.regs.bc(),
            Indirect::DE => self.regs.de(),
            Indirect::HL => self.regs.hl(),
            Indirect::CFF => 0xFF00 + self.regs.c as u16,
            Indirect::HLD => {
                let a = self.regs.hl();
                self.regs.set_hl(a.wrapping_sub(1));
                a
            },
            Indirect::HLI => {
                let a = self.regs.hl();
                self.regs.set_hl(a.wrapping_add(1));
                a
            },
        }
    }

    /// Reads an 8-bit operand. A register is at hand at once. Otherwise each
    /// call makes at most one bus access and returns `None`; the byte read is
    /// latched and handed over by the next call, which makes no access.
    pub fn read8(&mut self, mem: &Memory, src: Op8) -> (r: Option<u8>)
        requires
            old(self).wf(),
            mem.wf(),
        ensures
            final(self).wf(),
            Cpu::bus_ok(*old(self), *final(self), *mem, *mem),
            did(*old(self), *final(self), *mem, *mem, m_read8(start(*old(self)), *mem, src).0),
            r == m_read8(start(*old(self)), *mem, src).1,
            final(self).bus_accesses@ == old(self).bus_accesses@ + (if final(self).ctx.busy
                && !old(self).ctx.busy {
                1int
            } else {
                0int
            }),
            src matches Op8::Reg(reg) ==> r == Some(old(self).regs.spec_get8(reg)),
            src is Reg ==> *final(self) == *old(self),
    {
        match src {
            Op8::Reg(reg) => Some(self.regs.get8(reg)),
            Op8::Imm(_) => {
                if self.ctx.sub != 0 {
                    self.ctx.sub = 0;
                    return Some(self.ctx.lo);
                }
                if self.ctx.busy {
                    return None;
                }
                self.ctx.lo = self.imm8(mem);
                self.ctx.sub = 1;
                None
            },
            Op8::Ind(i) => {
                if self.ctx.sub != 0 {
                    self.ctx.sub = 0;
                    return Some(self.ctx.lo);
                }
                if self.ctx.busy {
                    return None;
                }
                let a = self.indirect(i);
                self.ctx.lo = self.load(mem, a);
                self.ctx.sub = 1;
                None
            },
            Op8::Dir(d) => {
                if self.ctx.sub >= 3 {
                    self.ctx.sub = 0;
                    return Some(self.ctx.lo);
                }
                if self.ctx.busy {
                    return None;
                }
                if self.ctx.sub == 0 {
                    let lo = self.imm8(mem);
                    match d {
                        Direct8::D => {
                            self.ctx.lo = lo;
                            self.ctx.sub = 1;
                        },
                        Direct8::DFF => {
                            self.ctx.addr = 0xFF00 + lo as u16;
                            self.ctx.sub = 2;
                        },
                    }
                } else if self.ctx.sub == 1 {
                    let hi = self.imm8(mem);
                    self.ctx.addr = hi as u16 * 256 + self.ctx.lo as u16;
                    self.ctx.sub = 2;
                } else {
                    let a = self.ctx.addr;
                    self.ctx.lo = self.load(mem, a);
                    self.ctx.sub = 3;
                }
                None
            },
        }
    }

    /// Writes an 8-bit operand, one bus access per M-cycle: `false` while
    /// the write has not yet been made.
    pub fn write8(&mut self, mem: &mut Memory, dst: Op8, val: u8) -> (done: bool)
        requires
            old(self).wf(),
            old(mem).wf(),
            !(dst is Imm),
        ensures
            final(self).wf(),
            Cpu::bus_ok(*old(self), *final(self), *old(mem), *final(mem)),
            did(*old(self), *final(self), *old(mem), *final(mem), m_write8(start(*old(self)), *old(mem), dst, val).0),
            done == m_write8(start(*old(self)), *old(mem), dst, val).1,
            dst is Reg ==> *final(mem) == *old(mem),
            dst matches Op8::Reg(reg) ==> done && final(self).regs == old(self).regs.spec_set8(
                reg,
                val,
            ) && final(self).ctx == old(self).ctx,
    {
        match dst {
            Op8::Reg(reg) => {
                self.regs.set8(reg, val);
                true
            },
            Op8::Imm(_) => true,
            Op8::Ind(i) => {
                if self.ctx.busy {
                    return false;
                }
                let a = self.indirect(i);
                self.store(mem, a, val);
                true
            },
            Op8::Dir(d) => {
                if self.ctx.busy {
                    return false;
                }
                if self.ctx.sub == 0 {
                    let lo = self.imm8(mem);
                    match d {
                        Direct8::D => {
                            self.ctx.lo = lo;
                            self.ctx.sub = 1;
                        },
                        Direct8::DFF => {
                            self.ctx.addr = 0xFF00 + lo as u16;
                            self.ctx.sub = 2;
                        },
                    }
                    false
                } else if self.ctx.sub == 1 {
                    let hi = self.imm8(mem);
                    self.ctx.addr = hi as u16 * 256 + self.ctx.lo as u16;
                    self.ctx.sub = 2;
                    false
                } else {
                    let a = self.ctx.addr;
                    self.store(mem, a, val);
                    self.ctx.sub = 0;
                    true
                }
            },
        }
    }

    /// Reads a 16-bit operand: a register at once; an immediate word over two
    /// calls that each read a byte, low byte first, handed over by a third
    /// call that makes no access.
    pub fn read16(&mut self, mem: &Memory, src: Op16) -> (r: Option<u16>)
        requires
            old(self).wf(),
            mem.wf(),
            !(src is Dir),
        ensures
            final(self).wf(),
            Cpu::bus_ok(*old(self), *final(self), *mem, *mem),
            did(*old(self), *final(self), *mem, *mem, m_read16(start(*old(self)), *mem, src).0),
            r == m_read16(start(*old(self)), *mem, src).1,
            final(self).bus_accesses@ == old(self).bus_accesses@ + (if final(self).ctx.busy
                && !old(self).ctx.busy {
                1int
            } else {
                0int
            }),
            src matches Op16::Reg(reg) ==> r == Some(old(self).regs.spec_get16(reg)),
            src is Reg ==> *final(self) == *old(self),
    {
        match src {
            Op16::Reg(reg) => Some(self.regs.get16(reg)),
            Op16::Dir(_) => None,
            Op16::Imm(_) => {
                if self.ctx.sub >= 2 {
                    self.ctx.sub = 0;
                    return Some(self.ctx.addr);
                }
                if self.ctx.busy {
                    return None;
                }
                if self.ctx.sub == 0 {
                    self.ctx.lo = self.imm8(mem);
                    self.ctx.sub = 1;
                } else {
                    let hi = self.imm8(mem);
                    self.ctx.addr = hi as u16 * 256 + self.ctx.lo as u16;
                    self.ctx.sub = 2;
                }
                None
            },
        }
    }

    /// Writes a 16-bit operand: a register at once, or the two bytes at an
    /// immediate address, low byte first.
    pub fn write16(&mut self, mem: &mut Memory, dst: Op16, val: u16) -> (done: bool)
        requires
            old(self).wf(),
            old(mem).wf(),
            !(dst is Imm),
        ensures
            final(self).wf(),
            Cpu::bus_ok(*old(self), *final(self), *old(mem), *final(mem)),
            did(*old(self), *final(self), *old(mem), *final(mem), m_write16(start(*old(self)), *old(mem), dst, val).0),
            done == m_write16(start(*old(self)), *old(mem), dst, val).1,
            dst is Reg ==> *final(mem) == *old(mem),
            dst matches Op16::Reg(reg) ==> done && final(self).regs == old(self).regs.spec_set16(
                reg,
                val,
            ) && final(self).ctx == old(self).ctx,
    {
        match dst {
            Op16::Reg(reg) => {
                self.regs.set16(reg, val);
                true
            },
            Op16::Imm(_) => true,
            Op16::Dir(_) => {
                if self.ctx.busy {
                    return false;
                }
                if self.ctx.sub == 0 {
                    let lo = self.imm8(mem);
                    self.ctx.lo = lo;
                    self.ctx.sub = 1;
                    false
                } else if self.ctx.sub == 1 {
                    let hi = self.imm8(mem);
                    self.ctx.addr = hi as u16 * 256 + self.ctx.lo as u16;
                    self.ctx.sub = 2;
                    false
                } else if self.ctx.sub == 2 {
                    let a = self.ctx.addr;
                    self.store(mem, a, (val % 256) as u8);
                    self.ctx.sub = 3;
                    false
                } else {
                    let a = self.ctx.addr.wrapping_add(1);
                    self.store(mem, a, (val / 256) as u8);
                    self.ctx.sub = 0;
                    true
                }
            },
        }
    }
}

} // verus!
