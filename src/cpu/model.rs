use vstd::prelude::*;

use crate::bits::{c_of, flags, z_of};
use crate::cpu::alu::{
    add16_spec, alu_spec, bit_spec, cp_spec, daa_spec, dec_spec, inc_spec, isr_choice, jr_target_spec,
    shift_spec, sp_offset_spec, AluOp, ShiftOp,
};
use crate::cpu::interrupts::Interrupts;
use crate::cpu::operand::{Cond, Direct8, Indirect, Op16, Op8, Reg16};
use crate::cpu::reg::{pair, Registers};
use crate::cpu::decode::{
    spec_alu_op, spec_cond_of, spec_ind, spec_r16, spec_r16_stack, spec_r8, spec_shift_op,
};
use crate::cpu::{Cpu, Ctx, PREFETCH};
use crate::mem::Memory;

verus! {

/// What one M-cycle of the processor does: its registers and micro-state
/// after the cycle, the bus write it made (if any), the value it gave the
/// interrupt master enable (if any), and whether it acknowledged the
/// interrupt it is serving in IF.
pub struct St {
    pub regs: Registers,
    pub ctx: Ctx,
    pub write: Option<(u16, u8)>,
    pub ime: Option<bool>,
    pub ack: bool,
}

/// The state a cycle starts from.
pub open spec fn plain(regs: Registers, ctx: Ctx) -> St {
    St { regs, ctx, write: None, ime: None, ack: false }
}

pub open spec fn start(c: Cpu) -> St {
    plain(c.regs, c.ctx)
}

/// The interrupt controller after a bus write.
pub open spec fn written_irqs(i: Interrupts, w: Option<(u16, u8)>) -> Interrupts {
    match w {
        Some((a, v)) => if a == 0xFF0F {
            Interrupts { i_flag: v, ..i }
        } else if a == 0xFFFF {
            Interrupts { i_enable: v, ..i }
        } else {
            i
        },
        None => i,
    }
}

/// The interrupt controller after the whole cycle.
pub open spec fn final_irqs(m0: Memory, e: St) -> Interrupts {
    let i0 = written_irqs(m0.interrupts, e.write);
    Interrupts {
        ime: match e.ime {
            Some(b) => b,
            None => i0.ime,
        },
        i_flag: if e.ack {
            i0.i_flag & !isr_choice(i0.pending()).0
        } else {
            i0.i_flag
        },
        ..i0
    }
}

/// `m1` is the bus `m0` after the cycle `e`: its write, then its changes to
/// the interrupt controller; with no write, nothing else on the bus moved.
pub open spec fn applied(m0: Memory, e: St, m1: Memory) -> bool {
    &&& m1.interrupts == final_irqs(m0, e)
    &&& match e.write {
        Some((a, v)) => m0.wrote(a, v, &Memory { interrupts: written_irqs(m0.interrupts, e.write), ..m1 }),
        None => Memory { interrupts: m0.interrupts, ..m1 } == m0,
    }
}

/// The processor went from `c0` to `c1`, and the bus from `m0` to `m1`, as the cycle `e` says.
pub open spec fn did(c0: Cpu, c1: Cpu, m0: Memory, m1: Memory, e: St) -> bool {
    &&& c1.regs == e.regs
    &&& c1.ctx == e.ctx
    &&& applied(m0, e, m1)
}

pub open spec fn mark(s: St) -> St {
    St { ctx: Ctx { busy: true, ..s.ctx }, ..s }
}

pub open spec fn to_step(s: St, step: u8) -> St {
    St { ctx: Ctx { step, ..s.ctx }, ..s }
}

pub open spec fn with_regs(s: St, regs: Registers) -> St {
    St { regs, ..s }
}

pub open spec fn inc_pc(r: Registers) -> Registers {
    Registers { pc: ((r.pc + 1) % 65536) as u16, ..r }
}

pub open spec fn cond_holds(f: u8, c: Cond) -> bool {
    match c {
        Cond::NZ => !z_of(f),
        Cond::Z => z_of(f),
        Cond::NC => !c_of(f),
        Cond::C => c_of(f),
    }
}

/// Reading the byte at PC, which moves on.
pub open spec fn m_imm8(s: St, m: Memory) -> (St, u8) {
    (with_regs(mark(s), inc_pc(s.regs)), m.spec_read(s.regs.pc))
}

/// The fetch: the opcode at PC; an interrupt is taken instead when the
/// master enable is on and one is pending, and PC then stays.
pub open spec fn m_fetch(s: St, m: Memory) -> St {
    let ime = match s.ime {
        Some(b) => b,
        None => m.interrupts.ime,
    };
    let serve = ime && m.interrupts.pending() != 0;
    St {
        regs: if serve {
            s.regs
        } else {
            inc_pc(s.regs)
        },
        ctx: Ctx {
            opcode: m.spec_read(s.regs.pc),
            int: serve,
            cb: false,
            step: 0,
            sub: 0,
            busy: true,
            ..s.ctx
        },
        ..s
    }
}

/// The end of an instruction: the fetch now if the cycle is free, else in the next one.
pub open spec fn m_finish(s: St, m: Memory) -> St {
    if s.ctx.busy {
        to_step(s, PREFETCH)
    } else {
        m_fetch(s, m)
    }
}

pub open spec fn ind_addr(r: Registers, i: Indirect) -> u16 {
    match i {
        Indirect::BC => r.spec_get16(Reg16::BC),
        Indirect::DE => r.spec_get16(Reg16::DE),
        Indirect::CFF => (0xFF00 + r.c) as u16,
        _ => r.spec_get16(Reg16::HL),
    }
}

pub open spec fn ind_regs(r: Registers, i: Indirect) -> Registers {
    match i {
        Indirect::HLD => r.spec_set16(Reg16::HL, ((r.spec_get16(Reg16::HL) + 65535) % 65536) as u16),
        Indirect::HLI => r.spec_set16(Reg16::HL, ((r.spec_get16(Reg16::HL) + 1) % 65536) as u16),
        _ => r,
    }
}

/// The first two cycles of a direct address: its low byte, then its high
/// byte (for 0xFF00 + n, only the one byte).
pub open spec fn m_dir_addr(s: St, m: Memory, d: Direct8) -> St {
    if s.ctx.sub == 0 {
        let (t, lo) = m_imm8(s, m);
        match d {
            Direct8::D => St { ctx: Ctx { lo, sub: 1, ..t.ctx }, ..t },
            Direct8::DFF => St { ctx: Ctx { addr: (0xFF00 + lo) as u16, sub: 2, ..t.ctx }, ..t },
        }
    } else {
        let (t, hi) = m_imm8(s, m);
        St { ctx: Ctx { addr: (hi * 256 + s.ctx.lo) as u16, sub: 2, ..t.ctx }, ..t }
    }
}

/// Reading an 8-bit operand: a register at once; otherwise the cycle that
/// reads the bus latches the byte (in `ctx.lo`) and yields nothing, and the
/// next call hands it over without a bus access.
pub open spec fn m_read8(s: St, m: Memory, src: Op8) -> (St, Option<u8>) {
    match src {
        Op8::Reg(reg) => (s, Some(s.regs.spec_get8(reg))),
        Op8::Imm(_) => if s.ctx.sub != 0 {
            (St { ctx: Ctx { sub: 0, ..s.ctx }, ..s }, Some(s.ctx.lo))
        } else if s.ctx.busy {
            (s, None)
        } else {
            let (t, v) = m_imm8(s, m);
            (St { ctx: Ctx { lo: v, sub: 1, ..t.ctx }, ..t }, None)
        },
        Op8::Ind(i) => if s.ctx.sub != 0 {
            (St { ctx: Ctx { sub: 0, ..s.ctx }, ..s }, Some(s.ctx.lo))
        } else if s.ctx.busy {
            (s, None)
        } else {
            let t = with_regs(mark(s), ind_regs(s.regs, i));
            (St { ctx: Ctx { lo: m.spec_read(ind_addr(s.regs, i)), sub: 1, ..t.ctx }, ..t }, None)
        },
        Op8::Dir(d) => if s.ctx.sub >= 3 {
            (St { ctx: Ctx { sub: 0, ..s.ctx }, ..s }, Some(s.ctx.lo))
        } else if s.ctx.busy {
            (s, None)
        } else if s.ctx.sub < 2 {
            (m_dir_addr(s, m, d), None)
        } else {
            let t = mark(s);
            (St { ctx: Ctx { lo: m.spec_read(s.ctx.addr), sub: 3, ..t.ctx }, ..t }, None)
        },
    }
}

pub open spec fn m_write8(s: St, m: Memory, dst: Op8, val: u8) -> (St, bool) {
    match dst {
        Op8::Reg(reg) => (with_regs(s, s.regs.spec_set8(reg, val)), true),
        Op8::Imm(_) => (s, true),
        Op8::Ind(i) => if s.ctx.busy {
            (s, false)
        } else {
            (
                St { regs: ind_regs(s.regs, i), write: Some((ind_addr(s.regs, i), val)), ..mark(s) },
                true,
            )
        },
        Op8::Dir(d) => if s.ctx.busy {
            (s, false)
        } else if s.ctx.sub < 2 {
            (m_dir_addr(s, m, d), false)
        } else {
            let t = mark(s);
            (St { ctx: Ctx { sub: 0, ..t.ctx }, write: Some((s.ctx.addr, val)), ..t }, true)
        },
    }
}

pub open spec fn m_read16(s: St, m: Memory, src: Op16) -> (St, Option<u16>) {
    match src {
        Op16::Reg(reg) => (s, Some(s.regs.spec_get16(reg))),
        Op16::Dir(_) => (s, None),
        Op16::Imm(_) => if s.ctx.sub >= 2 {
            (St { ctx: Ctx { sub: 0, ..s.ctx }, ..s }, Some(s.ctx.addr))
        } else if s.ctx.busy {
            (s, None)
        } else if s.ctx.sub == 0 {
            let (t, lo) = m_imm8(s, m);
            (St { ctx: Ctx { lo, sub: 1, ..t.ctx }, ..t }, None)
        } else {
            let (t, hi) = m_imm8(s, m);
            (St { ctx: Ctx { addr: pair(hi, s.ctx.lo), sub: 2, ..t.ctx }, ..t }, None)
        },
    }
}

pub open spec fn m_write16(s: St, m: Memory, dst: Op16, val: u16) -> (St, bool) {
    match dst {
        Op16::Reg(reg) => (with_regs(s, s.regs.spec_set16(reg, val)), true),
        Op16::Imm(_) => (s, true),
        Op16::Dir(_) => if s.ctx.busy {
            (s, false)
        } else if s.ctx.sub == 0 {
            let (t, lo) = m_imm8(s, m);
            (St { ctx: Ctx { lo, sub: 1, ..t.ctx }, ..t }, false)
        } else if s.ctx.sub == 1 {
            let (t, hi) = m_imm8(s, m);
            (St { ctx: Ctx { addr: pair(hi, s.ctx.lo), sub: 2, ..t.ctx }, ..t }, false)
        } else if s.ctx.sub == 2 {
            let t = mark(s);
            (St { ctx: Ctx { sub: 3, ..t.ctx }, write: Some((s.ctx.addr, (val % 256) as u8)), ..t }, false)
        } else {
            let t = mark(s);
            (
                St {
                    ctx: Ctx { sub: 0, ..t.ctx },
                    write: Some((((s.ctx.addr + 1) % 65536) as u16, (val / 256) as u8)),
                    ..t
                },
                true,
            )
        },
    }
}

/// A push over three cycles: SP down by one; the high byte written at SP
/// and SP down by one; the low byte written at SP.
pub open spec fn m_push16(s: St, val: u16) -> (St, bool) {
    let sp = s.regs.sp;
    let down = ((sp + 65535) % 65536) as u16;
    if s.ctx.busy {
        (s, false)
    } else if s.ctx.sub == 0 {
        let t = mark(s);
        (St { regs: Registers { sp: down, ..s.regs }, ctx: Ctx { sub: 1, ..t.ctx }, ..t }, false)
    } else if s.ctx.sub == 1 {
        let t = mark(s);
        (
            St {
                regs: Registers { sp: down, ..s.regs },
                ctx: Ctx { sub: 2, ..t.ctx },
                write: Some((sp, (val / 256) as u8)),
                ..t
            },
            false,
        )
    } else {
        let t = mark(s);
        (St { ctx: Ctx { sub: 0, ..t.ctx }, write: Some((sp, (val % 256) as u8)), ..t }, true)
    }
}

/// A pop: the low byte at SP, then the high byte, SP up by one each time;
/// the word is handed over by a third call that makes no access.
pub open spec fn m_pop16(s: St, m: Memory) -> (St, Option<u16>) {
    let sp = s.regs.sp;
    let b = m.spec_read(sp);
    let t = mark(with_regs(s, Registers { sp: ((sp + 1) % 65536) as u16, ..s.regs }));
    if s.ctx.sub >= 2 {
        (St { ctx: Ctx { sub: 0, ..s.ctx }, ..s }, Some(s.ctx.addr))
    } else if s.ctx.busy {
        (s, None)
    } else if s.ctx.sub == 0 {
        (St { ctx: Ctx { lo: b, sub: 1, ..t.ctx }, ..t }, None)
    } else {
        (St { ctx: Ctx { addr: pair(b, s.ctx.lo), sub: 2, ..t.ctx }, ..t }, None)
    }
}

/// The read-modify-write instructions.
#[derive(Clone, Copy, Debug, PartialEq, Eq, Structural)]
pub enum Rmw {
    Ld,
    Inc,
    Dec,
    ResBit(u8),
    SetBit(u8),
    Shift(ShiftOp),
}

/// The value written back and the new F, for an operand `v`.
pub open spec fn rmw_apply(k: Rmw, v: u8, f: u8) -> (u8, u8) {
    match k {
        Rmw::Ld => (v, f),
        Rmw::Inc => inc_spec(v, f),
        Rmw::Dec => dec_spec(v, f),
        Rmw::ResBit(n) => (v & !(1u8 << n), f),
        Rmw::SetBit(n) => (v | (1u8 << n), f),
        Rmw::Shift(op) => shift_spec(op, v, f),
    }
}

/// Reads `src`, then (from the cycle the value is in hand) writes the
/// transformed value to `dst`, then ends the instruction.
#[verifier::opaque]
pub open spec fn m_rmw(s: St, m: Memory, dst: Op8, src: Op8, k: Rmw) -> St {
    if s.ctx.step == 0 {
        let (t, r) = m_read8(s, m, src);
        match r {
            None => t,
            Some(v) => {
                let (res, f) = rmw_apply(k, v, t.regs.f);
                let u = St {
                    regs: Registers { f, ..t.regs },
                    ctx: Ctx { data8: res, step: 1, ..t.ctx },
                    ..t
                };
                let (w, done) = m_write8(u, m, dst, res);
                if done {
                    m_finish(w, m)
                } else {
                    w
                }
            },
        }
    } else {
        let (w, done) = m_write8(s, m, dst, s.ctx.data8);
        if done {
            m_finish(w, m)
        } else {
            w
        }
    }
}

/// The instructions that read one operand and update A and F.
#[derive(Clone, Copy, Debug, PartialEq, Eq, Structural)]
pub enum Use {
    Cp,
    Bit(u8),
    Alu(AluOp),
}

pub open spec fn use_apply(k: Use, r: Registers, v: u8) -> Registers {
    match k {
        Use::Cp => Registers { f: cp_spec(r.a, v), ..r },
        Use::Bit(n) => Registers { f: bit_spec(n, v, r.f), ..r },
        Use::Alu(op) => Registers { a: alu_spec(op, r.a, v, r.f).0, f: alu_spec(op, r.a, v, r.f).1, ..r },
    }
}

#[verifier::opaque]
pub open spec fn m_use(s: St, m: Memory, src: Op8, k: Use) -> St {
    let (t, r) = m_read8(s, m, src);
    match r {
        None => t,
        Some(v) => m_finish(with_regs(t, use_apply(k, t.regs, v)), m),
    }
}

#[verifier::opaque]
pub open spec fn m_ld16(s: St, m: Memory, dst: Op16, src: Op16) -> St {
    if s.ctx.step == 0 {
        let (t, r) = m_read16(s, m, src);
        match r {
            None => t,
            Some(v) => {
                let u = St { ctx: Ctx { data16: v, step: 1, ..t.ctx }, ..t };
                let (w, done) = m_write16(u, m, dst, v);
                if done {
                    m_finish(w, m)
                } else {
                    w
                }
            },
        }
    } else {
        let (w, done) = m_write16(s, m, dst, s.ctx.data16);
        if done {
            m_finish(w, m)
        } else {
            w
        }
    }
}

/// An internal cycle that ends the instruction, with PC (or another register) set.
pub open spec fn m_idle_to(s: St, regs: Registers) -> St {
    to_step(with_regs(mark(s), regs), PREFETCH)
}

/// JP nn, and JP cc,nn when `taken` says whether the condition holds.
#[verifier::opaque]
pub open spec fn m_jp(s: St, m: Memory, c: Option<Cond>) -> St {
    if s.ctx.step == 0 {
        let (t, r) = m_read16(s, m, Op16::Imm(crate::cpu::operand::Imm16));
        match r {
            None => t,
            Some(v) => if c is None || cond_holds(t.regs.f, c->0) {
                let u = to_step(St { ctx: Ctx { data16: v, ..t.ctx }, ..t }, 1);
                m_idle_to(u, Registers { pc: v, ..u.regs })
            } else {
                m_finish(t, m)
            },
        }
    } else {
        m_idle_to(s, Registers { pc: s.ctx.data16, ..s.regs })
    }
}

/// JR e, and JR cc,e.
#[verifier::opaque]
pub open spec fn m_jr(s: St, m: Memory, c: Option<Cond>) -> St {
    if s.ctx.step == 0 {
        let (t, r) = m_read8(s, m, Op8::Imm(crate::cpu::operand::Imm8));
        match r {
            None => t,
            Some(v) => if c is None || cond_holds(t.regs.f, c->0) {
                let u = to_step(St { ctx: Ctx { data8: v, ..t.ctx }, ..t }, 1);
                m_idle_to(u, Registers { pc: jr_target_spec(u.regs.pc, v), ..u.regs })
            } else {
                m_finish(t, m)
            },
        }
    } else {
        m_idle_to(s, Registers { pc: jr_target_spec(s.regs.pc, s.ctx.data8), ..s.regs })
    }
}

/// CALL nn, and CALL cc,nn.
#[verifier::opaque]
pub open spec fn m_call(s: St, m: Memory, c: Option<Cond>) -> St {
    if s.ctx.step == 0 {
        let (t, r) = m_read16(s, m, Op16::Imm(crate::cpu::operand::Imm16));
        match r {
            None => t,
            Some(v) => if c is None || cond_holds(t.regs.f, c->0) {
                m_call_push(to_step(St { ctx: Ctx { data16: v, ..t.ctx }, ..t }, 1))
            } else {
                m_finish(t, m)
            },
        }
    } else {
        m_call_push(s)
    }
}

/// The push cycles of a call, ending with the jump.
pub open spec fn m_call_push(s: St) -> St {
    let (t, done) = m_push16(s, s.regs.pc);
    if done {
        to_step(with_regs(t, Registers { pc: s.ctx.data16, ..t.regs }), PREFETCH)
    } else {
        t
    }
}

/// RET and RETI (`reti`): pop PC, then an internal cycle.
#[verifier::opaque]
pub open spec fn m_ret(s: St, m: Memory, reti: bool) -> St {
    if s.ctx.step == 0 {
        let (t, r) = m_pop16(s, m);
        match r {
            None => t,
            Some(v) => m_ret_load(to_step(St { ctx: Ctx { data16: v, ..t.ctx }, ..t }, 1), reti),
        }
    } else {
        m_ret_load(s, reti)
    }
}

/// The internal cycle that loads PC with the popped word (and, for RETI,
/// sets the master enable).
pub open spec fn m_ret_load(s: St, reti: bool) -> St {
    let t = m_idle_to(s, Registers { pc: s.ctx.data16, ..s.regs });
    if reti {
        St { ime: Some(true), ..t }
    } else {
        t
    }
}

/// RET cc: an internal cycle tests the condition, then RET's cycles.
#[verifier::opaque]
pub open spec fn m_ret_c(s: St, m: Memory, c: Cond) -> St {
    if s.ctx.step == 0 {
        to_step(mark(s), if cond_holds(s.regs.f, c) {
            1
        } else {
            PREFETCH
        })
    } else if s.ctx.step == 1 {
        let (t, r) = m_pop16(s, m);
        match r {
            None => t,
            Some(v) => m_ret_load(to_step(St { ctx: Ctx { data16: v, ..t.ctx }, ..t }, 2), false),
        }
    } else {
        m_ret_load(s, false)
    }
}

#[verifier::opaque]
pub open spec fn m_push(s: St, m: Memory, src: Reg16) -> St {
    let u = if s.ctx.step == 0 {
        to_step(St { ctx: Ctx { data16: s.regs.spec_get16(src), ..s.ctx }, ..s }, 1)
    } else {
        s
    };
    let (t, done) = m_push16(u, u.ctx.data16);
    if done {
        m_finish(t, m)
    } else {
        t
    }
}

#[verifier::opaque]
pub open spec fn m_pop(s: St, m: Memory, dst: Reg16) -> St {
    let (t, r) = m_pop16(s, m);
    match r {
        None => t,
        Some(v) => m_finish(with_regs(t, t.regs.spec_set16(dst, v)), m),
    }
}

#[verifier::opaque]
pub open spec fn m_rst(s: St, vector: u16) -> St {
    let (t, done) = m_push16(s, s.regs.pc);
    if done {
        to_step(with_regs(t, Registers { pc: vector, ..t.regs }), PREFETCH)
    } else {
        t
    }
}

/// The interrupt routine: the three push cycles, the last of which
/// acknowledges the source in IF and loads its vector; then a cycle that
/// clears the master enable.
#[verifier::opaque]
pub open spec fn m_isr(s: St, m: Memory) -> St {
    if s.ctx.step == 0 {
        let (t, done) = m_push16(s, s.regs.pc);
        if done {
            let i0 = written_irqs(m.interrupts, t.write);
            St {
                regs: Registers { pc: isr_choice(i0.pending()).1, ..t.regs },
                ctx: Ctx { step: 1, ..t.ctx },
                ack: true,
                ..t
            }
        } else {
            t
        }
    } else {
        St { ime: Some(false), ..m_idle_to(s, s.regs) }
    }
}

#[verifier::opaque]
pub open spec fn m_add_sp(s: St, m: Memory) -> St {
    if s.ctx.step == 0 {
        let (t, r) = m_read8(s, m, Op8::Imm(crate::cpu::operand::Imm8));
        match r {
            None => t,
            Some(v) => m_add_sp_sum(to_step(St { ctx: Ctx { data8: v, ..t.ctx }, ..t }, 1)),
        }
    } else if s.ctx.step == 1 {
        m_add_sp_sum(s)
    } else {
        to_step(mark(s), PREFETCH)
    }
}

/// The internal cycle of ADD SP,e that adds the offset.
pub open spec fn m_add_sp_sum(s: St) -> St {
    let (sp, f) = sp_offset_spec(s.regs.sp, s.ctx.data8);
    to_step(with_regs(mark(s), Registers { sp, f, ..s.regs }), 2)
}

#[verifier::opaque]
pub open spec fn m_ld_hl_sp(s: St, m: Memory) -> St {
    if s.ctx.step == 0 {
        let (t, r) = m_read8(s, m, Op8::Imm(crate::cpu::operand::Imm8));
        match r {
            None => t,
            Some(v) => m_ld_hl_sp_sum(to_step(St { ctx: Ctx { data8: v, ..t.ctx }, ..t }, 1)),
        }
    } else {
        m_ld_hl_sp_sum(s)
    }
}

/// The internal cycle of LD HL,SP+e that adds the offset.
pub open spec fn m_ld_hl_sp_sum(s: St) -> St {
    let (hl, f) = sp_offset_spec(s.regs.sp, s.ctx.data8);
    m_idle_to(s, Registers { f, ..s.regs.spec_set16(Reg16::HL, hl) })
}

/// The one-cycle instructions on A and F that read no operand.
#[derive(Clone, Copy, Debug, PartialEq, Eq, Structural)]
pub enum Acc {
    Rot(ShiftOp),
    Daa,
    Cpl,
    Scf,
    Ccf,
}

pub open spec fn acc_apply(k: Acc, r: Registers) -> Registers {
    match k {
        Acc::Rot(op) => Registers {
            a: shift_spec(op, r.a, r.f).0,
            f: flags(false, false, false, c_of(shift_spec(op, r.a, r.f).1)),
            ..r
        },
        Acc::Daa => Registers { a: daa_spec(r.a, r.f).0, f: daa_spec(r.a, r.f).1, ..r },
        Acc::Cpl => Registers { a: (255 - r.a) as u8, f: flags(z_of(r.f), true, true, c_of(r.f)), ..r },
        Acc::Scf => Registers { f: flags(z_of(r.f), false, false, true), ..r },
        Acc::Ccf => Registers { f: flags(z_of(r.f), false, false, !c_of(r.f)), ..r },
    }
}

#[verifier::opaque]
pub open spec fn m_acc(s: St, m: Memory, k: Acc) -> St {
    m_finish(with_regs(s, acc_apply(k, s.regs)), m)
}

/// 16-bit register work that takes one internal cycle: INC rr, DEC rr,
/// ADD HL,rr, LD SP,HL.
#[verifier::opaque]
pub open spec fn m_wide(s: St, regs: Registers) -> St {
    m_idle_to(s, regs)
}

pub open spec fn inc16_regs(r: Registers, rr: Reg16) -> Registers {
    r.spec_set16(rr, ((r.spec_get16(rr) + 1) % 65536) as u16)
}

pub open spec fn dec16_regs(r: Registers, rr: Reg16) -> Registers {
    r.spec_set16(rr, ((r.spec_get16(rr) + 65535) % 65536) as u16)
}

pub open spec fn add_hl_regs(r: Registers, rr: Reg16) -> Registers {
    let (v, f) = add16_spec(r.spec_get16(Reg16::HL), r.spec_get16(rr), r.f);
    Registers { f, ..r.spec_set16(Reg16::HL, v) }
}

#[verifier::opaque]
pub open spec fn m_halt(s: St, m: Memory) -> St {
    if m.interrupts.pending() != 0 {
        m_finish(s, m)
    } else {
        mark(s)
    }
}

#[verifier::opaque]
pub open spec fn m_stop(s: St, m: Memory) -> St {
    let (t, r) = m_read8(s, m, Op8::Imm(crate::cpu::operand::Imm8));
    match r {
        None => t,
        Some(_) => m_finish(t, m),
    }
}

#[verifier::opaque]
pub open spec fn m_cb_prefix(s: St, m: Memory) -> St {
    let (t, r) = m_read8(s, m, Op8::Imm(crate::cpu::operand::Imm8));
    match r {
        None => t,
        Some(v) => m_cb_decode(St { ctx: Ctx { opcode: v, cb: true, step: 0, ..t.ctx }, ..t }, m),
    }
}


/// The opcodes that the processor does not define.
pub open spec fn undefined(op: u8) -> bool {
    op == 0xD3 || op == 0xDB || op == 0xDD || op == 0xE3 || op == 0xE4 || op == 0xEB || op == 0xEC
        || op == 0xED || op == 0xF4 || op == 0xFC || op == 0xFD
}

pub open spec fn reg_a() -> Op8 {
    Op8::Reg(crate::cpu::operand::Reg8::A)
}

pub open spec fn imm8() -> Op8 {
    Op8::Imm(crate::cpu::operand::Imm8)
}

pub open spec fn imm16() -> Op16 {
    Op16::Imm(crate::cpu::operand::Imm16)
}

/// One cycle of a CB-prefixed opcode.
#[verifier::opaque]
pub open spec fn m_cb_decode(s: St, m: Memory) -> St {
    let op = s.ctx.opcode;
    let r = spec_r8(op % 8);
    let n = ((op / 8) % 8) as u8;
    if op <= 0x3F {
        m_rmw(s, m, r, r, Rmw::Shift(spec_shift_op((op / 8) as u8)))
    } else if op <= 0x7F {
        m_use(s, m, r, Use::Bit(n))
    } else if op <= 0xBF {
        m_rmw(s, m, r, r, Rmw::ResBit(n))
    } else {
        m_rmw(s, m, r, r, Rmw::SetBit(n))
    }
}

/// One cycle of an opcode of the primary table; `None` for an undefined one.
#[verifier::opaque]
pub open spec fn m_decode(s: St, m: Memory) -> Option<St> {
    let op = s.ctx.opcode;
    if 0x40 <= op <= 0x7F && op != 0x76 {
        Some(m_rmw(s, m, spec_r8(((op / 8) % 8) as u8), spec_r8(op % 8), Rmw::Ld))
    } else if op <= 0x3F && op % 8 == 4 {
        Some(m_rmw(s, m, spec_r8((op / 8) as u8), spec_r8((op / 8) as u8), Rmw::Inc))
    } else if op <= 0x3F && op % 8 == 5 {
        Some(m_rmw(s, m, spec_r8((op / 8) as u8), spec_r8((op / 8) as u8), Rmw::Dec))
    } else if op <= 0x3F && op % 8 == 6 {
        Some(m_rmw(s, m, spec_r8((op / 8) as u8), imm8(), Rmw::Ld))
    } else if 0xB8 <= op <= 0xBF {
        Some(m_use(s, m, spec_r8(op % 8), Use::Cp))
    } else if 0x80 <= op <= 0xB7 {
        Some(m_use(s, m, spec_r8(op % 8), Use::Alu(spec_alu_op(((op / 8) % 8) as u8))))
    } else if op >= 0xC0 && op % 8 == 6 && op != 0xFE {
        Some(m_use(s, m, imm8(), Use::Alu(spec_alu_op(((op / 8) % 8) as u8))))
    } else if op >= 0xC0 && op % 8 == 7 {
        Some(m_rst(s, (op - 0xC7) as u16))
    } else if op <= 0x3F && op % 16 == 9 {
        Some(m_wide(s, add_hl_regs(s.regs, spec_r16(((op / 16) % 4) as u8))))
    } else if op <= 0x1F && op % 8 == 7 {
        Some(m_acc(s, m, Acc::Rot(spec_shift_op((op / 8) as u8))))
    } else if 0xC0 <= op <= 0xDF && op % 8 == 0 {
        Some(m_ret_c(s, m, spec_cond_of(((op / 8) % 4) as u8)))
    } else if 0xC0 <= op <= 0xDF && op % 8 == 2 {
        Some(m_jp(s, m, Some(spec_cond_of(((op / 8) % 4) as u8))))
    } else if 0xC0 <= op <= 0xDF && op % 8 == 4 {
        Some(m_call(s, m, Some(spec_cond_of(((op / 8) % 4) as u8))))
    } else {
        m_decode_other(s, m)
    }
}

#[verifier::opaque]
pub open spec fn m_decode_other(s: St, m: Memory) -> Option<St> {
    let op = s.ctx.opcode;
    let bc = Op16::Reg(Reg16::BC);
    let de = Op16::Reg(Reg16::DE);
    let hl = Op16::Reg(Reg16::HL);
    let sp = Op16::Reg(Reg16::SP);
    if op == 0x00 {
        Some(m_finish(s, m))
    } else if op == 0x10 {
        Some(m_stop(s, m))
    } else if op == 0x18 {
        Some(m_jr(s, m, None))
    } else if op == 0x20 || op == 0x28 || op == 0x30 || op == 0x38 {
        Some(m_jr(s, m, Some(spec_cond_of(((op / 8) % 4) as u8))))
    } else if op == 0x01 || op == 0x11 || op == 0x21 || op == 0x31 {
        Some(m_ld16(s, m, Op16::Reg(spec_r16((op / 16) as u8)), imm16()))
    } else if op == 0x03 || op == 0x13 || op == 0x23 || op == 0x33 {
        Some(m_wide(s, inc16_regs(s.regs, spec_r16((op / 16) as u8))))
    } else if op == 0x0B || op == 0x1B || op == 0x2B || op == 0x3B {
        Some(m_wide(s, dec16_regs(s.regs, spec_r16((op / 16) as u8))))
    } else if op == 0x02 || op == 0x12 || op == 0x22 || op == 0x32 {
        Some(m_rmw(s, m, Op8::Ind(spec_ind((op / 16) as u8)), reg_a(), Rmw::Ld))
    } else if op == 0x0A || op == 0x1A || op == 0x2A || op == 0x3A {
        Some(m_rmw(s, m, reg_a(), Op8::Ind(spec_ind((op / 16) as u8)), Rmw::Ld))
    } else if op == 0x08 {
        Some(m_ld16(s, m, Op16::Dir(crate::cpu::operand::Direct16), sp))
    } else if op == 0xE0 {
        Some(m_rmw(s, m, Op8::Dir(Direct8::DFF), reg_a(), Rmw::Ld))
    } else if op == 0xF0 {
        Some(m_rmw(s, m, reg_a(), Op8::Dir(Direct8::DFF), Rmw::Ld))
    } else if op == 0xEA {
        Some(m_rmw(s, m, Op8::Dir(Direct8::D), reg_a(), Rmw::Ld))
    } else if op == 0xFA {
        Some(m_rmw(s, m, reg_a(), Op8::Dir(Direct8::D), Rmw::Ld))
    } else if op == 0xE2 {
        Some(m_rmw(s, m, Op8::Ind(Indirect::CFF), reg_a(), Rmw::Ld))
    } else if op == 0xF2 {
        Some(m_rmw(s, m, reg_a(), Op8::Ind(Indirect::CFF), Rmw::Ld))
    } else if op == 0xC1 || op == 0xD1 || op == 0xE1 || op == 0xF1 {
        Some(m_pop(s, m, spec_r16_stack(((op / 16) % 4) as u8)))
    } else if op == 0xC5 || op == 0xD5 || op == 0xE5 || op == 0xF5 {
        Some(m_push(s, m, spec_r16_stack(((op / 16) % 4) as u8)))
    } else if op == 0xC3 {
        Some(m_jp(s, m, None))
    } else if op == 0xC9 {
        Some(m_ret(s, m, false))
    } else if op == 0xD9 {
        Some(m_ret(s, m, true))
    } else if op == 0xCB {
        Some(m_cb_prefix(s, m))
    } else if op == 0xCD {
        Some(m_call(s, m, None))
    } else if op == 0xFE {
        Some(m_use(s, m, imm8(), Use::Cp))
    } else if op == 0xF3 {
        Some(m_finish(St { ime: Some(false), ..s }, m))
    } else if op == 0xFB {
        Some(St { ime: Some(true), ..m_finish(s, m) })
    } else if op == 0x27 {
        Some(m_acc(s, m, Acc::Daa))
    } else if op == 0x2F {
        Some(m_acc(s, m, Acc::Cpl))
    } else if op == 0x37 {
        Some(m_acc(s, m, Acc::Scf))
    } else if op == 0x3F {
        Some(m_acc(s, m, Acc::Ccf))
    } else if op == 0x76 {
        Some(m_halt(s, m))
    } else if op == 0xE8 {
        Some(m_add_sp(s, m))
    } else if op == 0xE9 {
        Some(m_finish(with_regs(s, Registers { pc: s.regs.spec_get16(Reg16::HL), ..s.regs }), m))
    } else if op == 0xF8 {
        Some(m_ld_hl_sp(s, m))
    } else if op == 0xF9 {
        Some(m_wide(s, Registers { sp: s.regs.spec_get16(Reg16::HL), ..s.regs }))
    } else {
        None
    }
}

/// One M-cycle of the processor, from the state it is in: the pending
/// fetch, a cycle of the interrupt routine, or a cycle of the opcode in
/// hand; `None` for an undefined opcode.
pub open spec fn m_emu(s0: St, m: Memory) -> Option<St> {
    let s = St { ctx: Ctx { busy: false, ..s0.ctx }, ..s0 };
    if s.ctx.step == PREFETCH {
        Some(m_fetch(s, m))
    } else if s.ctx.int {
        Some(m_isr(s, m))
    } else if s.ctx.cb {
        Some(m_cb_decode(s, m))
    } else {
        m_decode(s, m)
    }
}
} // verus!
