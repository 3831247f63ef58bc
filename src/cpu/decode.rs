use vstd::prelude::*;

use crate::cpu::alu::{AluOp, ShiftOp};
use crate::cpu::model::{did, m_cb_decode, m_decode, m_decode_other, start, undefined};
use crate::cpu::operand::{
    Cond, Direct16, Direct8, Imm16, Imm8, Indirect, Op16, Op8, Reg16, Reg8,
};
use crate::cpu::{Cpu, CpuFault};
use crate::mem::Memory;

verus! {

/// The 8-bit operand that a three-bit field of an opcode names:
/// B, C, D, E, H, L, (HL), A.
pub open spec fn spec_r8(i: u8) -> Op8 {
    if i == 0 {
        Op8::Reg(Reg8::B)
    } else if i == 1 {
        Op8::Reg(Reg8::C)
    } else if i == 2 {
        Op8::Reg(Reg8::D)
    } else if i == 3 {
        Op8::Reg(Reg8::E)
    } else if i == 4 {
        Op8::Reg(Reg8::H)
    } else if i == 5 {
        Op8::Reg(Reg8::L)
    } else if i == 6 {
        Op8::Ind(Indirect::HL)
    } else {
        Op8::Reg(Reg8::A)
    }
}

pub fn r8(i: u8) -> (r: Op8)
    ensures
        r == spec_r8(i),
        !(r is Imm),
{
    match i {
        0 => Op8::Reg(Reg8::B),
        1 => Op8::Reg(Reg8::C),
        2 => Op8::Reg(Reg8::D),
        3 => Op8::Reg(Reg8::E),
        4 => Op8::Reg(Reg8::H),
        5 => Op8::Reg(Reg8::L),
        6 => Op8::Ind(Indirect::HL),
        _ => Op8::Reg(Reg8::A),
    }
}

/// The register pair that bits 4-5 name: BC, DE, HL, SP.
pub open spec fn spec_r16(i: u8) -> Reg16 {
    if i == 0 {
        Reg16::BC
    } else if i == 1 {
        Reg16::DE
    } else if i == 2 {
        Reg16::HL
    } else {
        Reg16::SP
    }
}

pub fn r16(i: u8) -> (r: Reg16)
    ensures
        r == spec_r16(i),
{
    match i {
        0 => Reg16::BC,
        1 => Reg16::DE,
        2 => Reg16::HL,
        _ => Reg16::SP,
    }
}

/// The register pair that bits 4-5 name in PUSH and POP: BC, DE, HL, AF.
pub open spec fn spec_r16_stack(i: u8) -> Reg16 {
    if i == 0 {
        Reg16::BC
    } else if i == 1 {
        Reg16::DE
    } else if i == 2 {
        Reg16::HL
    } else {
        Reg16::AF
    }
}

pub fn r16_stack(i: u8) -> (r: Reg16)
    ensures
        r == spec_r16_stack(i),
{
    match i {
        0 => Reg16::BC,
        1 => Reg16::DE,
        2 => Reg16::HL,
        _ => Reg16::AF,
    }
}

/// The indirect operand that bits 4-5 name in LD (rr),A and LD A,(rr):
/// (BC), (DE), (HL+), (HL-).
pub open spec fn spec_ind(i: u8) -> Indirect {
    if i == 0 {
        Indirect::BC
    } else if i == 1 {
        Indirect::DE
    } else if i == 2 {
        Indirect::HLI
    } else {
        Indirect::HLD
    }
}

pub fn ind(i: u8) -> (r: Indirect)
    ensures
        r == spec_ind(i),
{
    match i {
        0 => Indirect::BC,
        1 => Indirect::DE,
        2 => Indirect::HLI,
        _ => Indirect::HLD,
    }
}

/// The operation that bits 3-5 of an ALU opcode name.
pub open spec fn spec_alu_op(i: u8) -> AluOp {
    if i == 0 {
        AluOp::Add
    } else if i == 1 {
        AluOp::Adc
    } else if i == 2 {
        AluOp::Sub
    } else if i == 3 {
        AluOp::Sbc
    } else if i == 4 {
        AluOp::And
    } else if i == 5 {
        AluOp::Xor
    } else if i == 6 {
        AluOp::Or
    } else {
        AluOp::Cp
    }
}

pub fn alu_op(i: u8) -> (r: AluOp)
    ensures
        r == spec_alu_op(i),
{
    match i {
        0 => AluOp::Add,
        1 => AluOp::Adc,
        2 => AluOp::Sub,
        3 => AluOp::Sbc,
        4 => AluOp::And,
        5 => AluOp::Xor,
        6 => AluOp::Or,
        _ => AluOp::Cp,
    }
}

/// The rotation or shift that bits 3-5 of a CB opcode name.
pub open spec fn spec_shift_op(i: u8) -> ShiftOp {
    if i == 0 {
        ShiftOp::Rlc
    } else if i == 1 {
        ShiftOp::Rrc
    } else if i == 2 {
        ShiftOp::Rl
    } else if i == 3 {
        ShiftOp::Rr
    } else if i == 4 {
        ShiftOp::Sla
    } else if i == 5 {
        ShiftOp::Sra
    } else if i == 6 {
        ShiftOp::Swap
    } else {
        ShiftOp::Srl
    }
}

pub fn shift_op(i: u8) -> (r: ShiftOp)
    ensures
        r == spec_shift_op(i),
{
    match i {
        0 => ShiftOp::Rlc,
        1 => ShiftOp::Rrc,
        2 => ShiftOp::Rl,
        3 => ShiftOp::Rr,
        4 => ShiftOp::Sla,
        5 => ShiftOp::Sra,
        6 => ShiftOp::Swap,
        _ => ShiftOp::Srl,
    }
}

/// The condition that bits 3-4 of a conditional branch name.
pub open spec fn spec_cond_of(i: u8) -> Cond {
    if i == 0 {
        Cond::NZ
    } else if i == 1 {
        Cond::Z
    } else if i == 2 {
        Cond::NC
    } else {
        Cond::C
    }
}

pub fn cond_of(i: u8) -> (r: Cond)
    ensures
        r == spec_cond_of(i),
{
    match i {
        0 => Cond::NZ,
        1 => Cond::Z,
        2 => Cond::NC,
        _ => Cond::C,
    }
}

impl Cpu {
    /// Runs one M-cycle of the opcode in hand, from the primary table, as
    /// `m_decode` says; an undefined opcode is reported and nothing changes.
    pub fn decode(&mut self, mem: &mut Memory) -> (r: Result<(), CpuFault>)
        requires
            old(self).wf(),
            old(mem).wf(),
            !old(self).ctx.busy,
        ensures
            final(self).wf(),
            Cpu::bus_ok(*old(self), *final(self), *old(mem), *final(mem)),
            r is Err <==> undefined(old(self).ctx.opcode),
            r is Err <==> m_decode(start(*old(self)), *old(mem)) is None,
            r is Ok ==> did(
                *old(self),
                *final(self),
                *old(mem),
                *final(mem),
                m_decode(start(*old(self)), *old(mem))->0,
            ),
            r matches Err(e) ==> e == (CpuFault {
                opcode: old(self).ctx.opcode,
                cb: old(self).ctx.cb,
                pc: if old(self).regs.pc == 0 {
                    0xFFFF
                } else {
                    (old(self).regs.pc - 1) as u16
                },
            }),
            r is Err ==> *final(self) == *old(self) && *final(mem) == *old(mem),
    {
        proof {
            reveal(m_decode);
            reveal(m_decode_other);
        }
        let op = self.ctx.opcode;
        if 0x40 <= op && op <= 0x7F && op != 0x76 {
            self.ld(mem, r8((op / 8) % 8), r8(op % 8));
        } else if op <= 0x3F && op % 8 == 4 {
            self.inc(mem, r8(op / 8));
        } else if op <= 0x3F && op % 8 == 5 {
            self.dec(mem, r8(op / 8));
        } else if op <= 0x3F && op % 8 == 6 {
            self.ld(mem, r8(op / 8), Op8::Imm(Imm8));
        } else if 0xB8 <= op && op <= 0xBF {
            self.cp(mem, r8(op % 8));
        } else if 0x80 <= op && op <= 0xB7 {
            self.alu(mem, alu_op((op / 8) % 8), r8(op % 8));
        } else if op >= 0xC0 && op % 8 == 6 && op != 0xFE {
            self.alu(mem, alu_op((op / 8) % 8), Op8::Imm(Imm8));
        } else if op >= 0xC0 && op % 8 == 7 {
            self.rst(mem, (op - 0xC7) as u16);
        } else if op <= 0x3F && op % 16 == 9 {
            self.add_hl(mem, r16((op / 16) % 4));
        } else if op <= 0x1F && op % 8 == 7 {
            self.rot_a(mem, shift_op(op / 8));
        } else if 0xC0 <= op && op <= 0xDF && op % 8 == 0 {
            self.ret_c(mem, cond_of((op / 8) % 4));
        } else if 0xC0 <= op && op <= 0xDF && op % 8 == 2 {
            self.jp_c(mem, cond_of((op / 8) % 4));
        } else if 0xC0 <= op && op <= 0xDF && op % 8 == 4 {
            self.call_c(mem, cond_of((op / 8) % 4));
        } else {
            return self.decode_other(mem);
        }
        Ok(())
    }

    fn decode_other(&mut self, mem: &mut Memory) -> (r: Result<(), CpuFault>)
        requires
            old(self).wf(),
            old(mem).wf(),
            !old(self).ctx.busy,
        ensures
            final(self).wf(),
            Cpu::bus_ok(*old(self), *final(self), *old(mem), *final(mem)),
            r is Err <==> m_decode_other(start(*old(self)), *old(mem)) is None,
            r is Ok ==> did(
                *old(self),
                *final(self),
                *old(mem),
                *final(mem),
                m_decode_other(start(*old(self)), *old(mem))->0,
            ),
            r matches Err(e) ==> e == (CpuFault {
                opcode: old(self).ctx.opcode,
                cb: old(self).ctx.cb,
                pc: if old(self).regs.pc == 0 {
                    0xFFFF
                } else {
                    (old(self).regs.pc - 1) as u16
                },
            }),
            r is Err ==> *final(self) == *old(self) && *final(mem) == *old(mem),
    {
        proof {
            reveal(m_decode_other);
        }
        let op = self.ctx.opcode;
        let a = Op8::Reg(Reg8::A);
        if op == 0x00 {
            self.nop(mem);
        } else if op == 0x10 {
            self.stop(mem);
        } else if op == 0x18 {
            self.jr(mem);
        } else if op == 0x20 || op == 0x28 || op == 0x30 || op == 0x38 {
            self.jr_c(mem, cond_of((op / 8) % 4));
        } else if op == 0x01 || op == 0x11 || op == 0x21 || op == 0x31 {
            self.ld16(mem, Op16::Reg(r16(op / 16)), Op16::Imm(Imm16));
        } else if op == 0x03 || op == 0x13 || op == 0x23 || op == 0x33 {
            self.inc16(mem, r16(op / 16));
        } else if op == 0x0B || op == 0x1B || op == 0x2B || op == 0x3B {
            self.dec16(mem, r16(op / 16));
        } else if op == 0x02 || op == 0x12 || op == 0x22 || op == 0x32 {
            self.ld(mem, Op8::Ind(ind(op / 16)), a);
        } else if op == 0x0A || op == 0x1A || op == 0x2A || op == 0x3A {
            self.ld(mem, a, Op8::Ind(ind(op / 16)));
        } else if op == 0x08 {
            self.ld16(mem, Op16::Dir(Direct16), Op16::Reg(Reg16::SP));
        } else if op == 0xE0 {
            self.ld(mem, Op8::Dir(Direct8::DFF), a);
        } else if op == 0xF0 {
            self.ld(mem, a, Op8::Dir(Direct8::DFF));
        } else if op == 0xEA {
            self.ld(mem, Op8::Dir(Direct8::D), a);
        } else if op == 0xFA {
            self.ld(mem, a, Op8::Dir(Direct8::D));
        } else if op == 0xE2 {
            self.ld(mem, Op8::Ind(Indirect::CFF), a);
        } else if op == 0xF2 {
            self.ld(mem, a, Op8::Ind(Indirect::CFF));
        } else if op == 0xC1 || op == 0xD1 || op == 0xE1 || op == 0xF1 {
            self.pop(mem, r16_stack((op / 16) % 4));
        } else if op == 0xC5 || op == 0xD5 || op == 0xE5 || op == 0xF5 {
            self.push(mem, r16_stack((op / 16) % 4));
        } else if op == 0xC3 {
            self.jp(mem);
        } else if op == 0xC9 {
            self.ret(mem);
        } else if op == 0xD9 {
            self.reti(mem);
        } else if op == 0xCB {
            self.cb_prefixed(mem);
        } else if op == 0xCD {
            self.call(mem);
        } else if op == 0xFE {
            self.cp(mem, Op8::Imm(Imm8));
        } else if op == 0xF3 {
            self.di(mem);
        } else if op == 0xFB {
            self.ei(mem);
        } else if op == 0x27 {
            self.daa(mem);
        } else if op == 0x2F {
            self.cpl(mem);
        } else if op == 0x37 {
            self.scf(mem);
        } else if op == 0x3F {
            self.ccf(mem);
        } else if op == 0x76 {
            self.halt(mem);
        } else if op == 0xE8 {
            self.add_sp(mem);
        } else if op == 0xE9 {
            self.jp_hl(mem);
        } else if op == 0xF8 {
            self.ld_hl_sp(mem);
        } else if op == 0xF9 {
            self.ld_sp_hl(mem);
        } else {
            return Err(
                CpuFault { opcode: op, cb: self.ctx.cb, pc: self.regs.pc.wrapping_sub(1) },
            );
        }
        Ok(())
    }

    /// Runs one M-cycle of a CB-prefixed opcode, as `m_cb_decode` says: the
    /// rotations and shifts (0x00-0x3F), BIT n,r (0x40-0x7F), RES n,r
    /// (0x80-0xBF) and SET n,r (0xC0-0xFF). Every CB opcode is defined.
    pub fn cb_decode(&mut self, mem: &mut Memory)
        requires
            old(self).wf(),
            old(mem).wf(),
            !old(self).ctx.busy,
        ensures
            final(self).wf(),
            Cpu::bus_ok(*old(self), *final(self), *old(mem), *final(mem)),
            did(*old(self), *final(self), *old(mem), *final(mem), m_cb_decode(start(*old(self)), *old(mem))),
    {
        proof {
            reveal(m_cb_decode);
        }
        let op = self.ctx.opcode;
        if op <= 0x3F {
            if op / 8 == 2 {
                self.rl(mem, r8(op % 8));
            } else {
                self.shift(mem, shift_op(op / 8), r8(op % 8));
            }
        } else if op <= 0x7F {
            self.bit(mem, (op / 8) % 8, r8(op % 8));
        } else if op <= 0xBF {
            self.res(mem, (op / 8) % 8, r8(op % 8));
        } else {
            self.set(mem, (op / 8) % 8, r8(op % 8));
        }
    }
}

} // verus!
