use vstd::prelude::*;

use crate::cpu::alu::{
    add16, alu8, bit8, cp8, daa8, dec8, inc8, isr_vector, jr_target, make_flags, res8, rl8, set8,
    shift8, shift_value, sp_offset, AluOp, ShiftOp,
};
use crate::cpu::model::{
    add_hl_regs, dec16_regs, did, inc16_regs, m_acc, m_add_sp, m_call, m_cb_prefix, m_finish, m_halt,
    m_isr, m_jp, m_jr, m_ld16, m_ld_hl_sp, m_pop, m_pop16, m_push, m_push16, m_ret, m_ret_c, m_rmw,
    m_rst, m_stop, m_use, m_wide, start, with_regs, Acc, Rmw, St, Use,
};
use crate::cpu::operand::{Cond, Imm16, Imm8, Op16, Op8, Reg16};
use crate::cpu::reg::Registers;
use crate::cpu::{Cpu, PREFETCH};
use crate::mem::Memory;

verus! {

/// The instruction handlers. The decoder calls one of them on every M-cycle
/// of an instruction; each one does that M-cycle's share of the work, keeping
/// its progress in `ctx.step`, and the last one fetches the next opcode.
impl Cpu {
    /// NOP: only the fetch of the next opcode.
    pub fn nop(&mut self, mem: &mut Memory)
        requires
            old(self).wf(),
            old(mem).wf(),
            !old(self).ctx.busy,
        ensures
            final(self).wf(),
            Cpu::bus_ok(*old(self), *final(self), *old(mem), *final(mem)),
            did(*old(self), *final(self), *old(mem), *final(mem), m_finish(start(*old(self)), *old(mem))),
    {
        self.finish(mem);
    }

    /// LD: reads the source, then writes it to the destination.
    pub fn ld(&mut self, mem: &mut Memory, dst: Op8, src: Op8)
        requires
            old(self).wf(),
            old(mem).wf(),
            !old(self).ctx.busy,
            !(dst is Imm),
        ensures
            final(self).wf(),
            Cpu::bus_ok(*old(self), *final(self), *old(mem), *final(mem)),
            did(*old(self), *final(self), *old(mem), *final(mem), m_rmw(start(*old(self)), *old(mem), dst, src, Rmw::Ld)),
    {
        proof {
            reveal(m_rmw);
        }
        if self.ctx.step == 0 {
            match self.read8(mem, src) {
                Some(v) => {
                    self.ctx.data8 = v;
                    self.ctx.step = 1;
                },
                None => {
                    return ;
                },
            }
        }
        let v = self.ctx.data8;
        if self.write8(mem, dst, v) {
            self.finish(mem);
        }
    }

    /// LD for 16-bit operands.
    pub fn ld16(&mut self, mem: &mut Memory, dst: Op16, src: Op16)
        requires
            old(self).wf(),
            old(mem).wf(),
            !old(self).ctx.busy,
            !(dst is Imm),
            !(src is Dir),
        ensures
            final(self).wf(),
            Cpu::bus_ok(*old(self), *final(self), *old(mem), *final(mem)),
            did(*old(self), *final(self), *old(mem), *final(mem), m_ld16(start(*old(self)), *old(mem), dst, src)),
    {
        proof {
            reveal(m_ld16);
        }
        if self.ctx.step == 0 {
            match self.read16(mem, src) {
                Some(v) => {
                    self.ctx.data16 = v;
                    self.ctx.step = 1;
                },
                None => {
                    return ;
                },
            }
        }
        let v = self.ctx.data16;
        if self.write16(mem, dst, v) {
            self.finish(mem);
        }
    }

    /// RES n: clears bit `bit` of the operand.
    pub fn res(&mut self, mem: &mut Memory, bit: u8, src: Op8)
        requires
            old(self).wf(),
            old(mem).wf(),
            !old(self).ctx.busy,
            bit < 8,
            !(src is Imm),
        ensures
            final(self).wf(),
            Cpu::bus_ok(*old(self), *final(self), *old(mem), *final(mem)),
            did(*old(self), *final(self), *old(mem), *final(mem), m_rmw(start(*old(self)), *old(mem), src, src, Rmw::ResBit(bit))),
    {
        proof {
            reveal(m_rmw);
        }
        if self.ctx.step == 0 {
            match self.read8(mem, src) {
                Some(v) => {
                    self.ctx.data8 = res8(bit, v);
                    self.ctx.step = 1;
                },
                None => {
                    return ;
                },
            }
        }
        let v = self.ctx.data8;
        if self.write8(mem, src, v) {
            self.finish(mem);
        }
    }

    /// JP nn: reads the target, then spends an M-cycle loading PC.
    pub fn jp(&mut self, mem: &mut Memory)
        requires
            old(self).wf(),
            old(mem).wf(),
            !old(self).ctx.busy,
        ensures
            final(self).wf(),
            Cpu::bus_ok(*old(self), *final(self), *old(mem), *final(mem)),
            did(*old(self), *final(self), *old(mem), *final(mem), m_jp(start(*old(self)), *old(mem), None)),
    {
        proof {
            reveal(m_jp);
        }
        if self.ctx.step == 0 {
            match self.read16(mem, Op16::Imm(Imm16)) {
                Some(v) => {
                    self.ctx.data16 = v;
                    self.ctx.step = 1;
                },
                None => {
                    return ;
                },
            }
        }
        self.idle();
        self.regs.pc = self.ctx.data16;
        self.ctx.step = PREFETCH;
    }

    /// CP: compares A with the operand; only the flags change.
    pub fn cp(&mut self, mem: &mut Memory, src: Op8)
        requires
            old(self).wf(),
            old(mem).wf(),
            !old(self).ctx.busy,
        ensures
            final(self).wf(),
            Cpu::bus_ok(*old(self), *final(self), *old(mem), *final(mem)),
            did(*old(self), *final(self), *old(mem), *final(mem), m_use(start(*old(self)), *old(mem), src, Use::Cp)),
    {
        proof {
            reveal(m_use);
        }
        if let Some(v) = self.read8(mem, src) {
            self.regs.f = cp8(self.regs.a, v);
            self.finish(mem);
        }
    }

    /// INC r8 / INC (HL).
    pub fn inc(&mut self, mem: &mut Memory, src: Op8)
        requires
            old(self).wf(),
            old(mem).wf(),
            !old(self).ctx.busy,
            !(src is Imm),
        ensures
            final(self).wf(),
            Cpu::bus_ok(*old(self), *final(self), *old(mem), *final(mem)),
            did(*old(self), *final(self), *old(mem), *final(mem), m_rmw(start(*old(self)), *old(mem), src, src, Rmw::Inc)),
    {
        proof {
            reveal(m_rmw);
        }
        if self.ctx.step == 0 {
            match self.read8(mem, src) {
                Some(v) => {
                    let (res, f) = inc8(v, self.regs.f);
                    self.regs.f = f;
                    self.ctx.data8 = res;
                    self.ctx.step = 1;
                },
                None => {
                    return ;
                },
            }
        }
        let v = self.ctx.data8;
        if self.write8(mem, src, v) {
            self.finish(mem);
        }
    }

    /// DEC r8 / DEC (HL).
    pub fn dec(&mut self, mem: &mut Memory, src: Op8)
        requires
            old(self).wf(),
            old(mem).wf(),
            !old(self).ctx.busy,
            !(src is Imm),
        ensures
            final(self).wf(),
            Cpu::bus_ok(*old(self), *final(self), *old(mem), *final(mem)),
            did(*old(self), *final(self), *old(mem), *final(mem), m_rmw(start(*old(self)), *old(mem), src, src, Rmw::Dec)),
    {
        proof {
            reveal(m_rmw);
        }
        if self.ctx.step == 0 {
            match self.read8(mem, src) {
                Some(v) => {
                    let (res, f) = dec8(v, self.regs.f);
                    self.regs.f = f;
                    self.ctx.data8 = res;
                    self.ctx.step = 1;
                },
                None => {
                    return ;
                },
            }
        }
        let v = self.ctx.data8;
        if self.write8(mem, src, v) {
            self.finish(mem);
        }
    }

    /// INC rr: no flags; the 16-bit increment takes an internal M-cycle.
    pub fn inc16(&mut self, mem: &mut Memory, src: Reg16)
        requires
            old(self).wf(),
            old(mem).wf(),
            !old(self).ctx.busy,
        ensures
            final(self).wf(),
            Cpu::bus_ok(*old(self), *final(self), *old(mem), *final(mem)),
            did(*old(self), *final(self), *old(mem), *final(mem), m_wide(start(*old(self)), inc16_regs(old(self).regs, src))),
    {
        proof {
            reveal(m_wide);
        }
        let v = self.regs.get16(src);
        self.regs.set16(src, v.wrapping_add(1));
        self.idle();
        self.ctx.step = PREFETCH;
    }

    /// DEC rr: no flags; the 16-bit decrement takes an internal M-cycle.
    pub fn dec16(&mut self, mem: &mut Memory, src: Reg16)
        requires
            old(self).wf(),
            old(mem).wf(),
            !old(self).ctx.busy,
        ensures
            final(self).wf(),
            Cpu::bus_ok(*old(self), *final(self), *old(mem), *final(mem)),
            did(*old(self), *final(self), *old(mem), *final(mem), m_wide(start(*old(self)), dec16_regs(old(self).regs, src))),
    {
        proof {
            reveal(m_wide);
        }
        let v = self.regs.get16(src);
        self.regs.set16(src, v.wrapping_sub(1));
        self.idle();
        self.ctx.step = PREFETCH;
    }

    /// RL: rotates the operand left through the carry.
    pub fn rl(&mut self, mem: &mut Memory, src: Op8)
        requires
            old(self).wf(),
            old(mem).wf(),
            !old(self).ctx.busy,
            !(src is Imm),
        ensures
            final(self).wf(),
            Cpu::bus_ok(*old(self), *final(self), *old(mem), *final(mem)),
            did(*old(self), *final(self), *old(mem), *final(mem), m_rmw(start(*old(self)), *old(mem), src, src, Rmw::Shift(ShiftOp::Rl))),
    {
        proof {
            reveal(m_rmw);
        }
        if self.ctx.step == 0 {
            match self.read8(mem, src) {
                Some(v) => {
                    let (res, f) = rl8(v, self.regs.f);
                    self.regs.f = f;
                    self.ctx.data8 = res;
                    self.ctx.step = 1;
                },
                None => {
                    return ;
                },
            }
        }
        let v = self.ctx.data8;
        if self.write8(mem, src, v) {
            self.finish(mem);
        }
    }

    /// BIT n: tests bit `bit` of the operand.
    pub fn bit(&mut self, mem: &mut Memory, bit: u8, src: Op8)
        requires
            old(self).wf(),
            old(mem).wf(),
            !old(self).ctx.busy,
            bit < 8,
        ensures
            final(self).wf(),
            Cpu::bus_ok(*old(self), *final(self), *old(mem), *final(mem)),
            did(*old(self), *final(self), *old(mem), *final(mem), m_use(start(*old(self)), *old(mem), src, Use::Bit(bit))),
    {
        proof {
            reveal(m_use);
        }
        if let Some(v) = self.read8(mem, src) {
            self.regs.f = bit8(bit, v, self.regs.f);
            self.finish(mem);
        }
    }

    /// PUSH rr.
    pub fn push(&mut self, mem: &mut Memory, src: Reg16)
        requires
            old(self).wf(),
            old(mem).wf(),
            !old(self).ctx.busy,
        ensures
            final(self).wf(),
            Cpu::bus_ok(*old(self), *final(self), *old(mem), *final(mem)),
            did(*old(self), *final(self), *old(mem), *final(mem), m_push(start(*old(self)), *old(mem), src)),
    {
        proof {
            reveal(m_push);
        }
        if self.ctx.step == 0 {
            self.ctx.data16 = self.regs.get16(src);
            self.ctx.step = 1;
        }
        let v = self.ctx.data16;
        if self.push16(mem, v) {
            self.finish(mem);
        }
    }

    /// POP rr; POP AF keeps the low nibble of F at zero.
    pub fn pop(&mut self, mem: &mut Memory, dst: Reg16)
        requires
            old(self).wf(),
            old(mem).wf(),
            !old(self).ctx.busy,
        ensures
            final(self).wf(),
            Cpu::bus_ok(*old(self), *final(self), *old(mem), *final(mem)),
            did(*old(self), *final(self), *old(mem), *final(mem), m_pop(start(*old(self)), *old(mem), dst)),
    {
        proof {
            reveal(m_pop);
        }
        if let Some(v) = self.pop16(mem) {
            self.regs.set16(dst, v);
            self.finish(mem);
        }
    }

    /// JR e: reads the offset, then spends an M-cycle adding it to PC.
    pub fn jr(&mut self, mem: &mut Memory)
        requires
            old(self).wf(),
            old(mem).wf(),
            !old(self).ctx.busy,
        ensures
            final(self).wf(),
            Cpu::bus_ok(*old(self), *final(self), *old(mem), *final(mem)),
            did(*old(self), *final(self), *old(mem), *final(mem), m_jr(start(*old(self)), *old(mem), None)),
    {
        proof {
            reveal(m_jr);
        }
        if self.ctx.step == 0 {
            match self.read8(mem, Op8::Imm(Imm8)) {
                Some(v) => {
                    self.ctx.data8 = v;
                    self.ctx.step = 1;
                },
                None => {
                    return ;
                },
            }
        }
        self.idle();
        self.regs.pc = jr_target(self.regs.pc, self.ctx.data8);
        self.ctx.step = PREFETCH;
    }

    /// JR cc,e: always reads the offset; jumps, one M-cycle later, only if the condition holds.
    pub fn jr_c(&mut self, mem: &mut Memory, c: Cond)
        requires
            old(self).wf(),
            old(mem).wf(),
            !old(self).ctx.busy,
        ensures
            final(self).wf(),
            Cpu::bus_ok(*old(self), *final(self), *old(mem), *final(mem)),
            did(*old(self), *final(self), *old(mem), *final(mem), m_jr(start(*old(self)), *old(mem), Some(c))),
    {
        proof {
            reveal(m_jr);
        }
        if self.ctx.step == 0 {
            match self.read8(mem, Op8::Imm(Imm8)) {
                Some(v) => {
                    if self.cond(c) {
                        self.ctx.data8 = v;
                        self.ctx.step = 1;
                    } else {
                        self.finish(mem);
                        return ;
                    }
                },
                None => {
                    return ;
                },
            }
        }
        self.idle();
        self.regs.pc = jr_target(self.regs.pc, self.ctx.data8);
        self.ctx.step = PREFETCH;
    }

    /// CALL nn: reads the target, pushes PC, jumps.
    pub fn call(&mut self, mem: &mut Memory)
        requires
            old(self).wf(),
            old(mem).wf(),
            !old(self).ctx.busy,
        ensures
            final(self).wf(),
            Cpu::bus_ok(*old(self), *final(self), *old(mem), *final(mem)),
            did(*old(self), *final(self), *old(mem), *final(mem), m_call(start(*old(self)), *old(mem), None)),
    {
        proof {
            reveal(m_call);
        }
        if self.ctx.step == 0 {
            match self.read16(mem, Op16::Imm(Imm16)) {
                Some(v) => {
                    self.ctx.data16 = v;
                    self.ctx.step = 1;
                },
                None => {
                    return ;
                },
            }
        }
        let pc = self.regs.pc;
        if self.push16(mem, pc) {
            self.regs.pc = self.ctx.data16;
            self.ctx.step = PREFETCH;
        }
    }

    /// RET: pops PC, then spends an M-cycle loading it.
    pub fn ret(&mut self, mem: &mut Memory)
        requires
            old(self).wf(),
            old(mem).wf(),
            !old(self).ctx.busy,
        ensures
            final(self).wf(),
            Cpu::bus_ok(*old(self), *final(self), *old(mem), *final(mem)),
            did(*old(self), *final(self), *old(mem), *final(mem), m_ret(start(*old(self)), *old(mem), false)),
    {
        proof {
            reveal(m_ret);
        }
        if self.ctx.step == 0 {
            match self.pop16(mem) {
                Some(v) => {
                    self.ctx.data16 = v;
                    self.ctx.step = 1;
                },
                None => {
                    return ;
                },
            }
        }
        self.idle();
        self.regs.pc = self.ctx.data16;
        self.ctx.step = PREFETCH;
    }

    /// RETI: RET that also sets the interrupt master enable.
    pub fn reti(&mut self, mem: &mut Memory)
        requires
            old(self).wf(),
            old(mem).wf(),
            !old(self).ctx.busy,
        ensures
            final(self).wf(),
            Cpu::bus_ok(*old(self), *final(self), *old(mem), *final(mem)),
            did(*old(self), *final(self), *old(mem), *final(mem), m_ret(start(*old(self)), *old(mem), true)),
    {
        proof {
            reveal(m_ret);
        }
        if self.ctx.step == 0 {
            match self.pop16(mem) {
                Some(v) => {
                    self.ctx.data16 = v;
                    self.ctx.step = 1;
                },
                None => {
                    return ;
                },
            }
        }
        self.idle();
        self.regs.pc = self.ctx.data16;
        mem.interrupts.ime = true;
        self.ctx.step = PREFETCH;
    }

    /// DI: clears the interrupt master enable.
    pub fn di(&mut self, mem: &mut Memory)
        requires
            old(self).wf(),
            old(mem).wf(),
            !old(self).ctx.busy,
        ensures
            final(self).wf(),
            Cpu::bus_ok(*old(self), *final(self), *old(mem), *final(mem)),
            did(*old(self), *final(self), *old(mem), *final(mem), m_finish(St { ime: Some(false), ..start(*old(self)) }, *old(mem))),
    {
        mem.interrupts.ime = false;
        self.finish(mem);
    }

    /// EI: sets the interrupt master enable once the next opcode is fetched,
    /// so that opcode runs before any interrupt is served.
    pub fn ei(&mut self, mem: &mut Memory)
        requires
            old(self).wf(),
            old(mem).wf(),
            !old(self).ctx.busy,
        ensures
            final(self).wf(),
            Cpu::bus_ok(*old(self), *final(self), *old(mem), *final(mem)),
            did(*old(self), *final(self), *old(mem), *final(mem), St { ime: Some(true), ..m_finish(start(*old(self)), *old(mem)) }),
    {
        self.finish(mem);
        mem.interrupts.ime = true;
    }

    /// The interrupt service routine: SP is decremented; PC's high byte, then its low byte, is
    /// pushed while the lowest pending source is acknowledged in IF and PC takes its vector; an
    /// M-cycle clears the master enable; then the next opcode is fetched.
    pub fn call_isr(&mut self, mem: &mut Memory)
        requires
            old(self).wf(),
            old(mem).wf(),
            !old(self).ctx.busy,
        ensures
            final(self).wf(),
            Cpu::bus_ok(*old(self), *final(self), *old(mem), *final(mem)),
            did(*old(self), *final(self), *old(mem), *final(mem), m_isr(start(*old(self)), *old(mem))),
    {
        proof {
            reveal(m_isr);
        }
        if self.ctx.step == 0 {
            let pc = self.regs.pc;
            if self.push16(mem, pc) {
                let (bit, vector) = isr_vector(mem.interrupts.get_int());
                mem.interrupts.i_flag = mem.interrupts.i_flag & !bit;
                self.regs.pc = vector;
                self.ctx.step = 1;
            }
        } else {
            self.idle();
            mem.interrupts.ime = false;
            self.ctx.step = PREFETCH;
        }
    }

    /// ADD, ADC, SUB, SBC, AND, XOR, OR and CP on A and the operand.
    pub fn alu(&mut self, mem: &mut Memory, op: AluOp, src: Op8)
        requires
            old(self).wf(),
            old(mem).wf(),
            !old(self).ctx.busy,
        ensures
            final(self).wf(),
            Cpu::bus_ok(*old(self), *final(self), *old(mem), *final(mem)),
            did(*old(self), *final(self), *old(mem), *final(mem), m_use(start(*old(self)), *old(mem), src, Use::Alu(op))),
    {
        proof {
            reveal(m_use);
        }
        if let Some(v) = self.read8(mem, src) {
            let (r, f) = alu8(op, self.regs.a, v, self.regs.f);
            self.regs.a = r;
            self.regs.f = f;
            self.finish(mem);
        }
    }

    /// RLCA, RRCA, RLA, RRA: the rotation on A, with Z always clear.
    pub fn rot_a(&mut self, mem: &mut Memory, op: ShiftOp)
        requires
            old(self).wf(),
            old(mem).wf(),
            !old(self).ctx.busy,
        ensures
            final(self).wf(),
            Cpu::bus_ok(*old(self), *final(self), *old(mem), *final(mem)),
            did(*old(self), *final(self), *old(mem), *final(mem), m_acc(start(*old(self)), *old(mem), Acc::Rot(op))),
    {
        proof {
            reveal(m_acc);
        }
        let (r, f) = shift8(op, self.regs.a, self.regs.f);
        self.regs.a = r;
        self.regs.f = make_flags(false, false, false, f & 0x10 == 0x10);
        proof {
            crate::bits::lemma_flags_read(r == 0, false, false, shift_value(op, old(self).regs.a, old(self).regs.f).1);
        }
        self.finish(mem);
    }

    /// CB rotations and shifts of the operand.
    pub fn shift(&mut self, mem: &mut Memory, op: ShiftOp, src: Op8)
        requires
            old(self).wf(),
            old(mem).wf(),
            !old(self).ctx.busy,
            !(src is Imm),
        ensures
            final(self).wf(),
            Cpu::bus_ok(*old(self), *final(self), *old(mem), *final(mem)),
            did(*old(self), *final(self), *old(mem), *final(mem), m_rmw(start(*old(self)), *old(mem), src, src, Rmw::Shift(op))),
    {
        proof {
            reveal(m_rmw);
        }
        if self.ctx.step == 0 {
            match self.read8(mem, src) {
                Some(v) => {
                    let (res, f) = shift8(op, v, self.regs.f);
                    self.regs.f = f;
                    self.ctx.data8 = res;
                    self.ctx.step = 1;
                },
                None => {
                    return ;
                },
            }
        }
        let v = self.ctx.data8;
        if self.write8(mem, src, v) {
            self.finish(mem);
        }
    }

    /// SET n: sets bit `bit` of the operand.
    pub fn set(&mut self, mem: &mut Memory, bit: u8, src: Op8)
        requires
            old(self).wf(),
            old(mem).wf(),
            !old(self).ctx.busy,
            bit < 8,
            !(src is Imm),
        ensures
            final(self).wf(),
            Cpu::bus_ok(*old(self), *final(self), *old(mem), *final(mem)),
            did(*old(self), *final(self), *old(mem), *final(mem), m_rmw(start(*old(self)), *old(mem), src, src, Rmw::SetBit(bit))),
    {
        proof {
            reveal(m_rmw);
        }
        if self.ctx.step == 0 {
            match self.read8(mem, src) {
                Some(v) => {
                    self.ctx.data8 = set8(bit, v);
                    self.ctx.step = 1;
                },
                None => {
                    return ;
                },
            }
        }
        let v = self.ctx.data8;
        if self.write8(mem, src, v) {
            self.finish(mem);
        }
    }

    /// DAA: decimal adjustment of A.
    pub fn daa(&mut self, mem: &mut Memory)
        requires
            old(self).wf(),
            old(mem).wf(),
            !old(self).ctx.busy,
        ensures
            final(self).wf(),
            Cpu::bus_ok(*old(self), *final(self), *old(mem), *final(mem)),
            did(*old(self), *final(self), *old(mem), *final(mem), m_acc(start(*old(self)), *old(mem), Acc::Daa)),
    {
        proof {
            reveal(m_acc);
        }
        let (r, f) = daa8(self.regs.a, self.regs.f);
        self.regs.a = r;
        self.regs.f = f;
        self.finish(mem);
    }

    /// CPL: complements A; sets N and H.
    pub fn cpl(&mut self, mem: &mut Memory)
        requires
            old(self).wf(),
            old(mem).wf(),
            !old(self).ctx.busy,
        ensures
            final(self).wf(),
            Cpu::bus_ok(*old(self), *final(self), *old(mem), *final(mem)),
            did(*old(self), *final(self), *old(mem), *final(mem), m_acc(start(*old(self)), *old(mem), Acc::Cpl)),
    {
        proof {
            reveal(m_acc);
        }
        self.regs.a = 255 - self.regs.a;
        self.regs.f = make_flags(self.regs.zf(), true, true, self.regs.cf());
        self.finish(mem);
    }

    /// SCF: sets the carry; clears N and H.
    pub fn scf(&mut self, mem: &mut Memory)
        requires
            old(self).wf(),
            old(mem).wf(),
            !old(self).ctx.busy,
        ensures
            final(self).wf(),
            Cpu::bus_ok(*old(self), *final(self), *old(mem), *final(mem)),
            did(*old(self), *final(self), *old(mem), *final(mem), m_acc(start(*old(self)), *old(mem), Acc::Scf)),
    {
        proof {
            reveal(m_acc);
        }
        self.regs.f = make_flags(self.regs.zf(), false, false, true);
        self.finish(mem);
    }

    /// CCF: complements the carry; clears N and H.
    pub fn ccf(&mut self, mem: &mut Memory)
        requires
            old(self).wf(),
            old(mem).wf(),
            !old(self).ctx.busy,
        ensures
            final(self).wf(),
            Cpu::bus_ok(*old(self), *final(self), *old(mem), *final(mem)),
            did(*old(self), *final(self), *old(mem), *final(mem), m_acc(start(*old(self)), *old(mem), Acc::Ccf)),
    {
        proof {
            reveal(m_acc);
        }
        self.regs.f = make_flags(self.regs.zf(), false, false, !self.regs.cf());
        self.finish(mem);
    }

    /// ADD HL,rr: the sum takes an internal M-cycle.
    pub fn add_hl(&mut self, mem: &mut Memory, src: Reg16)
        requires
            old(self).wf(),
            old(mem).wf(),
            !old(self).ctx.busy,
        ensures
            final(self).wf(),
            Cpu::bus_ok(*old(self), *final(self), *old(mem), *final(mem)),
            did(*old(self), *final(self), *old(mem), *final(mem), m_wide(start(*old(self)), add_hl_regs(old(self).regs, src))),
    {
        proof {
            reveal(m_wide);
        }
        let (r, f) = add16(self.regs.hl(), self.regs.get16(src), self.regs.f);
        self.regs.set_hl(r);
        self.regs.f = f;
        self.idle();
        self.ctx.step = PREFETCH;
    }

    /// ADD SP,e: reads the offset, then two internal M-cycles.
    pub fn add_sp(&mut self, mem: &mut Memory)
        requires
            old(self).wf(),
            old(mem).wf(),
            !old(self).ctx.busy,
        ensures
            final(self).wf(),
            Cpu::bus_ok(*old(self), *final(self), *old(mem), *final(mem)),
            did(*old(self), *final(self), *old(mem), *final(mem), m_add_sp(start(*old(self)), *old(mem))),
    {
        proof {
            reveal(m_add_sp);
        }
        if self.ctx.step == 0 {
            match self.read8(mem, Op8::Imm(Imm8)) {
                Some(v) => {
                    self.ctx.data8 = v;
                    self.ctx.step = 1;
                },
                None => {
                    return ;
                },
            }
        }
        if self.ctx.step == 1 {
            self.idle();
            let (r, f) = sp_offset(self.regs.sp, self.ctx.data8);
            self.regs.sp = r;
            self.regs.f = f;
            self.ctx.step = 2;
        } else {
            self.idle();
            self.ctx.step = PREFETCH;
        }
    }

    /// LD HL,SP+e: reads the offset, then an internal M-cycle.
    pub fn ld_hl_sp(&mut self, mem: &mut Memory)
        requires
            old(self).wf(),
            old(mem).wf(),
            !old(self).ctx.busy,
        ensures
            final(self).wf(),
            Cpu::bus_ok(*old(self), *final(self), *old(mem), *final(mem)),
            did(*old(self), *final(self), *old(mem), *final(mem), m_ld_hl_sp(start(*old(self)), *old(mem))),
    {
        proof {
            reveal(m_ld_hl_sp);
        }
        if self.ctx.step == 0 {
            match self.read8(mem, Op8::Imm(Imm8)) {
                Some(v) => {
                    self.ctx.data8 = v;
                    self.ctx.step = 1;
                },
                None => {
                    return ;
                },
            }
        }
        self.idle();
        let (r, f) = sp_offset(self.regs.sp, self.ctx.data8);
        self.regs.set_hl(r);
        self.regs.f = f;
        self.ctx.step = PREFETCH;
    }

    /// LD SP,HL: takes an internal M-cycle.
    pub fn ld_sp_hl(&mut self, mem: &mut Memory)
        requires
            old(self).wf(),
            old(mem).wf(),
            !old(self).ctx.busy,
        ensures
            final(self).wf(),
            Cpu::bus_ok(*old(self), *final(self), *old(mem), *final(mem)),
            did(*old(self), *final(self), *old(mem), *final(mem), m_wide(start(*old(self)), Registers { sp: old(self).regs.spec_get16(Reg16::HL), ..old(self).regs })),
    {
        proof {
            reveal(m_wide);
        }
        self.regs.sp = self.regs.hl();
        self.idle();
        self.ctx.step = PREFETCH;
    }

    /// JP HL: PC takes HL, and the fetch follows in the same M-cycle.
    pub fn jp_hl(&mut self, mem: &mut Memory)
        requires
            old(self).wf(),
            old(mem).wf(),
            !old(self).ctx.busy,
        ensures
            final(self).wf(),
            Cpu::bus_ok(*old(self), *final(self), *old(mem), *final(mem)),
            did(*old(self), *final(self), *old(mem), *final(mem), m_finish(with_regs(start(*old(self)), Registers { pc: old(self).regs.spec_get16(Reg16::HL), ..old(self).regs }), *old(mem))),
    {
        self.regs.pc = self.regs.hl();
        self.finish(mem);
    }

    /// JP cc,nn: always reads the target; jumps, one M-cycle later, only if the condition holds.
    pub fn jp_c(&mut self, mem: &mut Memory, c: Cond)
        requires
            old(self).wf(),
            old(mem).wf(),
            !old(self).ctx.busy,
        ensures
            final(self).wf(),
            Cpu::bus_ok(*old(self), *final(self), *old(mem), *final(mem)),
            did(*old(self), *final(self), *old(mem), *final(mem), m_jp(start(*old(self)), *old(mem), Some(c))),
    {
        proof {
            reveal(m_jp);
        }
        if self.ctx.step == 0 {
            match self.read16(mem, Op16::Imm(Imm16)) {
                Some(v) => {
                    if self.cond(c) {
                        self.ctx.data16 = v;
                        self.ctx.step = 1;
                    } else {
                        self.finish(mem);
                        return ;
                    }
                },
                None => {
                    return ;
                },
            }
        }
        self.idle();
        self.regs.pc = self.ctx.data16;
        self.ctx.step = PREFETCH;
    }

    /// CALL cc,nn: always reads the target; pushes PC and jumps only if the condition holds.
    pub fn call_c(&mut self, mem: &mut Memory, c: Cond)
        requires
            old(self).wf(),
            old(mem).wf(),
            !old(self).ctx.busy,
        ensures
            final(self).wf(),
            Cpu::bus_ok(*old(self), *final(self), *old(mem), *final(mem)),
            did(*old(self), *final(self), *old(mem), *final(mem), m_call(start(*old(self)), *old(mem), Some(c))),
    {
        proof {
            reveal(m_call);
        }
        if self.ctx.step == 0 {
            match self.read16(mem, Op16::Imm(Imm16)) {
                Some(v) => {
                    if self.cond(c) {
                        self.ctx.data16 = v;
                        self.ctx.step = 1;
                    } else {
                        self.finish(mem);
                        return ;
                    }
                },
                None => {
                    return ;
                },
            }
        }
        let pc = self.regs.pc;
        if self.push16(mem, pc) {
            self.regs.pc = self.ctx.data16;
            self.ctx.step = PREFETCH;
        }
    }

    /// RET cc: an M-cycle tests the condition; if it holds, RET follows.
    pub fn ret_c(&mut self, mem: &mut Memory, c: Cond)
        requires
            old(self).wf(),
            old(mem).wf(),
            !old(self).ctx.busy,
        ensures
            final(self).wf(),
            Cpu::bus_ok(*old(self), *final(self), *old(mem), *final(mem)),
            did(*old(self), *final(self), *old(mem), *final(mem), m_ret_c(start(*old(self)), *old(mem), c)),
    {
        proof {
            reveal(m_ret_c);
        }
        if self.ctx.step == 0 {
            self.idle();
            if self.cond(c) {
                self.ctx.step = 1;
            } else {
                self.ctx.step = PREFETCH;
            }
            return ;
        }
        if self.ctx.step == 1 {
            match self.pop16(mem) {
                Some(v) => {
                    self.ctx.data16 = v;
                    self.ctx.step = 2;
                },
                None => {
                    return ;
                },
            }
        }
        self.idle();
        self.regs.pc = self.ctx.data16;
        self.ctx.step = PREFETCH;
    }

    /// RST: pushes PC and jumps to a fixed address.
    pub fn rst(&mut self, mem: &mut Memory, vector: u16)
        requires
            old(self).wf(),
            old(mem).wf(),
            !old(self).ctx.busy,
        ensures
            final(self).wf(),
            Cpu::bus_ok(*old(self), *final(self), *old(mem), *final(mem)),
            did(*old(self), *final(self), *old(mem), *final(mem), m_rst(start(*old(self)), vector)),
    {
        proof {
            reveal(m_rst);
        }
        let pc = self.regs.pc;
        if self.push16(mem, pc) {
            self.regs.pc = vector;
            self.ctx.step = PREFETCH;
        }
    }

    /// HALT: idles until an interrupt is pending, then fetches; with the master enable on, that
    /// fetch leads to the interrupt.
    pub fn halt(&mut self, mem: &mut Memory)
        requires
            old(self).wf(),
            old(mem).wf(),
            !old(self).ctx.busy,
        ensures
            final(self).wf(),
            Cpu::bus_ok(*old(self), *final(self), *old(mem), *final(mem)),
            did(*old(self), *final(self), *old(mem), *final(mem), m_halt(start(*old(self)), *old(mem))),
    {
        proof {
            reveal(m_halt);
        }
        if mem.interrupts.get_int() != 0 {
            self.finish(mem);
        } else {
            self.idle();
        }
    }

    /// STOP: reads the byte that follows and goes on; with no joypad there
    /// is nothing to wake the machine, so it does not stop.
    pub fn stop(&mut self, mem: &mut Memory)
        requires
            old(self).wf(),
            old(mem).wf(),
            !old(self).ctx.busy,
        ensures
            final(self).wf(),
            Cpu::bus_ok(*old(self), *final(self), *old(mem), *final(mem)),
            did(*old(self), *final(self), *old(mem), *final(mem), m_stop(start(*old(self)), *old(mem))),
    {
        proof {
            reveal(m_stop);
        }
        if let Some(_) = self.read8(mem, Op8::Imm(Imm8)) {
            self.finish(mem);
        }
    }

    /// Whether a branch condition holds.
    pub fn cond(&self, c: Cond) -> (r: bool)
        ensures
            r == match c {
                Cond::NZ => !crate::bits::z_of(self.regs.f),
                Cond::Z => crate::bits::z_of(self.regs.f),
                Cond::NC => !crate::bits::c_of(self.regs.f),
                Cond::C => crate::bits::c_of(self.regs.f),
            },
    {
        match c {
            Cond::NZ => !self.regs.zf(),
            Cond::Z => self.regs.zf(),
            Cond::NC => !self.regs.cf(),
            Cond::C => self.regs.cf(),
        }
    }

    /// Pushes a word over three M-cycles: one decrementing SP, one writing
    /// the high byte, one writing the low byte; `true` once done.
    pub fn push16(&mut self, mem: &mut Memory, val: u16) -> (done: bool)
        requires
            old(self).wf(),
            old(mem).wf(),
        ensures
            final(self).wf(),
            Cpu::bus_ok(*old(self), *final(self), *old(mem), *final(mem)),
            did(*old(self), *final(self), *old(mem), *final(mem), m_push16(start(*old(self)), val).0),
            done == m_push16(start(*old(self)), val).1,
            done ==> final(self).bus_accesses@ == old(self).bus_accesses@ + 1,
    {
        if self.ctx.busy {
            return false;
        }
        if self.ctx.sub == 0 {
            self.idle();
            self.regs.sp = self.regs.sp.wrapping_sub(1);
            self.ctx.sub = 1;
            false
        } else if self.ctx.sub == 1 {
            let sp = self.regs.sp;
            self.store(mem, sp, (val / 256) as u8);
            self.regs.sp = sp.wrapping_sub(1);
            self.ctx.sub = 2;
            false
        } else {
            let sp = self.regs.sp;
            self.store(mem, sp, (val % 256) as u8);
            self.ctx.sub = 0;
            true
        }
    }

    /// Pops a word: two calls each read a byte, low byte first, and a third
    /// hands the word over without a bus access.
    pub fn pop16(&mut self, mem: &Memory) -> (r: Option<u16>)
        requires
            old(self).wf(),
            mem.wf(),
        ensures
            final(self).wf(),
            Cpu::bus_ok(*old(self), *final(self), *mem, *mem),
            did(*old(self), *final(self), *mem, *mem, m_pop16(start(*old(self)), *mem).0),
            r == m_pop16(start(*old(self)), *mem).1,
            final(self).bus_accesses@ == old(self).bus_accesses@ + (if final(self).ctx.busy
                && !old(self).ctx.busy {
                1int
            } else {
                0int
            }),
    {
        if self.ctx.sub >= 2 {
            self.ctx.sub = 0;
            return Some(self.ctx.addr);
        }
        if self.ctx.busy {
            return None;
        }
        let sp = self.regs.sp;
        let b = self.load(mem, sp);
        self.regs.sp = sp.wrapping_add(1);
        if self.ctx.sub == 0 {
            self.ctx.lo = b;
            self.ctx.sub = 1;
        } else {
            self.ctx.addr = b as u16 * 256 + self.ctx.lo as u16;
            self.ctx.sub = 2;
        }
        None
    }

    /// The CB prefix: reads the second opcode byte; the M-cycle that hands it
    /// over also runs the first M-cycle of the CB instruction.
    pub(crate) fn cb_prefixed(&mut self, mem: &mut Memory)
        requires
            old(self).wf(),
            old(mem).wf(),
            !old(self).ctx.busy,
        ensures
            final(self).wf(),
            Cpu::bus_ok(*old(self), *final(self), *old(mem), *final(mem)),
            did(*old(self), *final(self), *old(mem), *final(mem), m_cb_prefix(start(*old(self)), *old(mem))),
    {
        proof {
            reveal(m_cb_prefix);
        }
        if let Some(v) = self.read8(mem, Op8::Imm(Imm8)) {
            self.ctx.opcode = v;
            self.ctx.cb = true;
            self.ctx.step = 0;
            self.cb_decode(mem);
        }
    }
}

} // verus!
