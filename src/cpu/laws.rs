use vstd::prelude::*;

use crate::cpu::alu::{isr_choice, jr_target_spec};
use crate::cpu::decode::{spec_r16, spec_r16_stack};
use crate::cpu::model::{
    applied, imm8, m_call, m_decode, m_decode_other, m_emu, m_jp, m_jr, m_ld16, m_pop, m_push, m_ret, m_ret_c,
    m_isr, m_rmw, m_rst, m_wide, plain, reg_a, Rmw, St,
};
use crate::cpu::operand::{Cond, Direct8, Op16, Op8, Reg16};
use crate::cpu::reg::Registers;
use crate::cpu::{Ctx, PREFETCH};
use crate::mem::Memory;

verus! {

/// The state the next M-cycle starts from.
pub open spec fn next(e: St) -> St {
    plain(e.regs, e.ctx)
}

/// An M-cycle that leaves the bus alone.
pub open spec fn silent(e: St) -> bool {
    e.write is None && e.ime is None && !e.ack
}

/// At the start of an instruction: the opcode has been fetched, and no
/// step of it has run.
pub open spec fn at_start(s: St, op: u8) -> bool {
    &&& s == plain(s.regs, s.ctx)
    &&& s.ctx.opcode == op
    &&& !s.ctx.int
    &&& !s.ctx.cb
    &&& s.ctx.step == 0
    &&& s.ctx.sub == 0
}

proof fn lemma_decode_jr(s: St, m: Memory)
    requires
        s.ctx.opcode == 0x18,
    ensures
        m_decode(s, m) == Some(m_jr(s, m, None)),
{
    reveal(m_decode);
    reveal(m_decode_other);
}

proof fn lemma_decode_pop(s: St, m: Memory)
    requires
        s.ctx.opcode == 0xC1 || s.ctx.opcode == 0xD1 || s.ctx.opcode == 0xE1 || s.ctx.opcode == 0xF1,
    ensures
        m_decode(s, m) == Some(m_pop(s, m, spec_r16_stack(((s.ctx.opcode / 16) % 4) as u8))),
{
    reveal(m_decode);
    reveal(m_decode_other);
}

/// JR e takes three M-cycles: the first reads the offset, the second moves
/// PC by it, the third fetches the opcode at the target. F does not change
/// and the bus is only read. With offset 0x80 the target is the JR's own
/// address minus 126.
pub proof fn lemma_jr(s: St, m: Memory)
    requires
        at_start(s, 0x18),
    ensures
        ({
            let e1 = m_emu(s, m)->0;
            let e2 = m_emu(next(e1), m)->0;
            let e3 = m_emu(next(e2), m)->0;
            &&& m_emu(s, m) is Some && m_emu(next(e1), m) is Some && m_emu(next(e2), m) is Some
            &&& silent(e1) && silent(e2) && silent(e3)
            &&& e1.ctx.opcode == 0x18 && e2.ctx.opcode == 0x18
            &&& e2.regs.pc == jr_target_spec(((s.regs.pc + 1) % 65536) as u16, m.spec_read(s.regs.pc))
            &&& e1.regs.f == s.regs.f && e2.regs.f == s.regs.f && e3.regs.f == s.regs.f
            &&& e3.ctx.opcode == m.spec_read(e2.regs.pc)
            &&& e3.ctx.step == 0
            &&& (m.spec_read(s.regs.pc) == 0x80 && s.regs.pc >= 127 ==> e2.regs.pc == s.regs.pc - 127)
        }),
{
    let s1 = St { ctx: Ctx { busy: false, ..s.ctx }, ..s };
    lemma_decode_jr(s1, m);
    reveal(m_jr);
    let e1 = m_emu(s, m)->0;
    assert(e1 == m_jr(s1, m, None));
    let s2 = St { ctx: Ctx { busy: false, ..e1.ctx }, ..next(e1) };
    lemma_decode_jr(s2, m);
    let e2 = m_emu(next(e1), m)->0;
    assert(e2 == m_jr(s2, m, None));
}

/// POP rr takes three M-cycles: the low byte at SP, the high byte above
/// it, then an M-cycle that loads the pair and fetches the next opcode. For
/// AF the low nibble of F comes out zero.
pub proof fn lemma_pop(s: St, m: Memory, op: u8)
    requires
        op == 0xC1 || op == 0xD1 || op == 0xE1 || op == 0xF1,
        at_start(s, op),
    ensures
        ({
            let sp = s.regs.sp;
            let rr = spec_r16_stack(((op / 16) % 4) as u8);
            let v = crate::cpu::reg::pair(m.spec_read(((sp + 1) % 65536) as u16), m.spec_read(sp));
            let e1 = m_emu(s, m)->0;
            let e2 = m_emu(next(e1), m)->0;
            let e3 = m_emu(next(e2), m)->0;
            let popped = Registers { sp: ((sp + 2) % 65536) as u16, ..s.regs }.spec_set16(rr, v);
            &&& silent(e1) && silent(e2) && silent(e3)
            &&& e1.regs == Registers { sp: ((sp + 1) % 65536) as u16, ..s.regs }
            &&& e2.regs == Registers { sp: ((sp + 2) % 65536) as u16, ..s.regs }
            &&& e3.regs == Registers { pc: e3.regs.pc, ..popped }
            &&& e3.ctx.opcode == m.spec_read(s.regs.pc)
            &&& e3.ctx.step == 0
        }),
{
    let s1 = St { ctx: Ctx { busy: false, ..s.ctx }, ..s };
    lemma_decode_pop(s1, m);
    reveal(m_pop);
    let e1 = m_emu(s, m)->0;
    assert(e1 == m_pop(s1, m, spec_r16_stack(((op / 16) % 4) as u8)));
    let s2 = St { ctx: Ctx { busy: false, ..e1.ctx }, ..next(e1) };
    lemma_decode_pop(s2, m);
    let e2 = m_emu(next(e1), m)->0;
    assert(e2 == m_pop(s2, m, spec_r16_stack(((op / 16) % 4) as u8)));
    let s3 = St { ctx: Ctx { busy: false, ..e2.ctx }, ..next(e2) };
    lemma_decode_pop(s3, m);
    let e3 = m_emu(next(e2), m)->0;
    assert(e3 == m_pop(s3, m, spec_r16_stack(((op / 16) % 4) as u8)));
}

/// POP AF: A takes the byte above SP, F the byte at SP with its low nibble
/// cleared, SP goes up by two; the M-cycles before leave A and F alone.
pub proof fn lemma_pop_af(s: St, m: Memory)
    requires
        at_start(s, 0xF1),
    ensures
        ({
            let sp = s.regs.sp;
            let e1 = m_emu(s, m)->0;
            let e2 = m_emu(next(e1), m)->0;
            let e3 = m_emu(next(e2), m)->0;
            &&& e1.regs.a == s.regs.a && e1.regs.f == s.regs.f
            &&& e2.regs.a == s.regs.a && e2.regs.f == s.regs.f
            &&& e3.regs.a == m.spec_read(((sp + 1) % 65536) as u16)
            &&& e3.regs.f == m.spec_read(sp) & 0xF0
            &&& e3.regs.sp == ((sp + 2) % 65536) as u16
        }),
{
    lemma_pop(s, m, 0xF1);
    let v = crate::cpu::reg::pair(m.spec_read(((s.regs.sp + 1) % 65536) as u16), m.spec_read(s.regs.sp));
    let hi = m.spec_read(((s.regs.sp + 1) % 65536) as u16);
    let lo = m.spec_read(s.regs.sp);
    assert((v / 256) as u8 == hi && (v % 256) as u8 == lo) by {
        assert(v as int == hi as int * 256 + lo as int);
    }
}

/// The instructions that affect no flag: NOP, the 8- and 16-bit loads,
/// JP, JR, CALL, RET, RETI, RST, PUSH, POP other than AF, DI, EI.
pub open spec fn keeps_flags(op: u8) -> bool {
    ||| op == 0x00
    ||| (0x40 <= op <= 0x7F && op != 0x76)
    ||| (op <= 0x3F && op % 8 == 6)
    ||| op == 0x01 || op == 0x11 || op == 0x21 || op == 0x31
    ||| op == 0x02 || op == 0x12 || op == 0x22 || op == 0x32
    ||| op == 0x0A || op == 0x1A || op == 0x2A || op == 0x3A
    ||| op == 0x08 || op == 0xE0 || op == 0xF0 || op == 0xEA || op == 0xFA || op == 0xE2 || op == 0xF2
    ||| op == 0x18 || op == 0x20 || op == 0x28 || op == 0x30 || op == 0x38
    ||| op == 0xC3 || op == 0xC2 || op == 0xCA || op == 0xD2 || op == 0xDA || op == 0xE9
    ||| op == 0xCD || op == 0xC4 || op == 0xCC || op == 0xD4 || op == 0xDC
    ||| op == 0xC9 || op == 0xD9 || op == 0xC0 || op == 0xC8 || op == 0xD0 || op == 0xD8
    ||| (op >= 0xC0 && op % 8 == 7)
    ||| op == 0xC1 || op == 0xD1 || op == 0xE1
    ||| op == 0xC5 || op == 0xD5 || op == 0xE5 || op == 0xF5
    ||| op == 0xF3 || op == 0xFB || op == 0xF9
}

proof fn lemma_rmw_ld_f(s: St, m: Memory, d: Op8, r: Op8)
    ensures
        m_rmw(s, m, d, r, Rmw::Ld).regs.f == s.regs.f,
{
    reveal(m_rmw);
}

proof fn lemma_ld16_f(s: St, m: Memory, d: Op16, r: Op16)
    requires
        d != Op16::Reg(Reg16::AF),
    ensures
        m_ld16(s, m, d, r).regs.f == s.regs.f,
{
    reveal(m_ld16);
}

proof fn lemma_branch_f(s: St, m: Memory, c: Option<Cond>, reti: bool, cc: Cond, v: u16)
    ensures
        m_jp(s, m, c).regs.f == s.regs.f,
        m_jr(s, m, c).regs.f == s.regs.f,
        m_call(s, m, c).regs.f == s.regs.f,
        m_ret(s, m, reti).regs.f == s.regs.f,
        m_ret_c(s, m, cc).regs.f == s.regs.f,
        m_rst(s, v).regs.f == s.regs.f,
{
    reveal(m_jp);
    reveal(m_jr);
    reveal(m_call);
    reveal(m_ret);
    reveal(m_ret_c);
    reveal(m_rst);
}

proof fn lemma_stack_f(s: St, m: Memory, rr: Reg16)
    ensures
        m_push(s, m, rr).regs.f == s.regs.f,
        rr != Reg16::AF ==> m_pop(s, m, rr).regs.f == s.regs.f,
{
    reveal(m_push);
    reveal(m_pop);
}

/// No M-cycle of an instruction that affects no flag changes F, whatever
/// step it is at.
#[verifier::rlimit(60)]
pub proof fn lemma_keeps_flags(s: St, m: Memory)
    requires
        s == plain(s.regs, s.ctx),
        !s.ctx.cb,
        keeps_flags(s.ctx.opcode),
    ensures
        m_decode(s, m) is Some,
        m_decode(s, m)->0.regs.f == s.regs.f,
{
    assert forall|d: Op8, r: Op8| #[trigger] m_rmw(s, m, d, r, Rmw::Ld).regs.f == s.regs.f by {
        lemma_rmw_ld_f(s, m, d, r);
    }
    assert forall|d: Op16, r: Op16| d != Op16::Reg(Reg16::AF) implies #[trigger] m_ld16(s, m, d, r).regs.f
        == s.regs.f by {
        lemma_ld16_f(s, m, d, r);
    }
    assert forall|c: Option<Cond>| #[trigger] m_jp(s, m, c).regs.f == s.regs.f by {
        lemma_branch_f(s, m, c, false, Cond::Z, 0);
    }
    assert forall|c: Option<Cond>| #[trigger] m_jr(s, m, c).regs.f == s.regs.f by {
        lemma_branch_f(s, m, c, false, Cond::Z, 0);
    }
    assert forall|c: Option<Cond>| #[trigger] m_call(s, m, c).regs.f == s.regs.f by {
        lemma_branch_f(s, m, c, false, Cond::Z, 0);
    }
    assert forall|reti: bool| #[trigger] m_ret(s, m, reti).regs.f == s.regs.f by {
        lemma_branch_f(s, m, None, reti, Cond::Z, 0);
    }
    assert forall|cc: Cond| #[trigger] m_ret_c(s, m, cc).regs.f == s.regs.f by {
        lemma_branch_f(s, m, None, false, cc, 0);
    }
    assert forall|v: u16| #[trigger] m_rst(s, v).regs.f == s.regs.f by {
        lemma_branch_f(s, m, None, false, Cond::Z, v);
    }
    assert forall|rr: Reg16| #[trigger] m_push(s, m, rr).regs.f == s.regs.f by {
        lemma_stack_f(s, m, rr);
    }
    assert forall|rr: Reg16| rr != Reg16::AF implies #[trigger] m_pop(s, m, rr).regs.f == s.regs.f by {
        lemma_stack_f(s, m, rr);
    }
    let op = s.ctx.opcode;
    assert(forall|i: u8| spec_r16(i) != Reg16::AF);
    if op == 0xC1 || op == 0xD1 || op == 0xE1 {
        assert(spec_r16_stack(((op / 16) % 4) as u8) != Reg16::AF);
    }
    reveal(m_decode);
    reveal(m_decode_other);
    reveal(m_wide);
}

/// The interrupt routine takes five M-cycles: SP goes down by one; PC's
/// high byte is written at SP and SP goes down again; PC's low byte is
/// written at SP while the lowest pending source is acknowledged in IF and
/// PC takes its vector; the master enable is cleared; the opcode at the
/// vector is fetched. (The stack is taken to lie away from IF and IE.)
pub proof fn lemma_isr(s: St, m0: Memory, m1: Memory, m2: Memory, m3: Memory, m4: Memory)
    requires
        s == plain(s.regs, s.ctx),
        s.ctx.int,
        s.ctx.step == 0,
        s.ctx.sub == 0,
        applied(m0, m_emu(s, m0)->0, m1),
        applied(m1, m_emu(next(m_emu(s, m0)->0), m1)->0, m2),
        applied(m2, m_emu(next(m_emu(next(m_emu(s, m0)->0), m1)->0), m2)->0, m3),
        applied(m3, m_emu(next(m_emu(next(m_emu(next(m_emu(s, m0)->0), m1)->0), m2)->0), m3)->0, m4),
        ((s.regs.sp + 65535) % 65536) != 0xFF0F && ((s.regs.sp + 65535) % 65536) != 0xFFFF,
        ((s.regs.sp + 65534) % 65536) != 0xFF0F && ((s.regs.sp + 65534) % 65536) != 0xFFFF,
    ensures
        ({
            let sp = s.regs.sp;
            let pc = s.regs.pc;
            let e1 = m_emu(s, m0)->0;
            let e2 = m_emu(next(e1), m1)->0;
            let e3 = m_emu(next(e2), m2)->0;
            let e4 = m_emu(next(e3), m3)->0;
            let e5 = m_emu(next(e4), m4)->0;
            let (bit, vector) = isr_choice(m0.interrupts.pending());
            &&& silent(e1)
            &&& e2.write == Some((((sp + 65535) % 65536) as u16, (pc / 256) as u8))
            &&& e3.write == Some((((sp + 65534) % 65536) as u16, (pc % 256) as u8))
            &&& e3.regs.sp == ((sp + 65534) % 65536) as u16
            &&& e3.regs.pc == vector
            &&& m3.interrupts.i_flag == m0.interrupts.i_flag & !bit
            &&& !m4.interrupts.ime
            &&& e4.ctx.step == PREFETCH
            &&& e5.ctx.opcode == m4.spec_read(vector)
            &&& e5.regs.pc == ((vector + 1) % 65536) as u16
            &&& !e5.ctx.int
            &&& (m0.interrupts.pending() == 0x03 ==> vector == 0x40 && bit == 0x01)
            &&& (m0.interrupts.pending() == 0x02 ==> vector == 0x48 && bit == 0x02)
        }),
{
    reveal(m_isr);
    let e1 = m_emu(s, m0)->0;
    assert(m1 == m0);
    let e2 = m_emu(next(e1), m1)->0;
    assert(m2.interrupts == m0.interrupts);
    let e3 = m_emu(next(e2), m2)->0;
    assert(0x03u8 & 0x01 != 0) by (bit_vector);
    assert(0x02u8 & 0x01 == 0 && 0x02u8 & 0x02 != 0) by (bit_vector);
}

proof fn lemma_decode_reti(s: St, m: Memory)
    requires
        s.ctx.opcode == 0xD9,
    ensures
        m_decode(s, m) == Some(m_ret(s, m, true)),
{
    reveal(m_decode);
    reveal(m_decode_other);
}

/// RETI takes four M-cycles: PC is popped over two, the third loads it and
/// sets the master enable, and the fourth fetches at the return address,
/// where a pending interrupt is taken at once.
pub proof fn lemma_reti(s: St, m0: Memory, m3: Memory)
    requires
        at_start(s, 0xD9),
        applied(m0, m_emu(next(m_emu(next(m_emu(s, m0)->0), m0)->0), m0)->0, m3),
    ensures
        ({
            let sp = s.regs.sp;
            let e1 = m_emu(s, m0)->0;
            let e2 = m_emu(next(e1), m0)->0;
            let e3 = m_emu(next(e2), m0)->0;
            let e4 = m_emu(next(e3), m3)->0;
            &&& silent(e1) && silent(e2)
            &&& e3.write is None && e3.ime == Some(true) && !e3.ack
            &&& e3.regs.pc == crate::cpu::reg::pair(m0.spec_read(((sp + 1) % 65536) as u16), m0.spec_read(sp))
            &&& e3.regs.sp == ((sp + 2) % 65536) as u16
            &&& m3.interrupts == crate::cpu::interrupts::Interrupts { ime: true, ..m0.interrupts }
            &&& e4.ctx.int == (m0.interrupts.pending() != 0)
            &&& e4.ctx.int ==> e4.regs.pc == e3.regs.pc
        }),
{
    reveal(m_ret);
    let s1 = St { ctx: Ctx { busy: false, ..s.ctx }, ..s };
    lemma_decode_reti(s1, m0);
    let e1 = m_emu(s, m0)->0;
    let s2 = St { ctx: Ctx { busy: false, ..e1.ctx }, ..next(e1) };
    lemma_decode_reti(s2, m0);
    let e2 = m_emu(next(e1), m0)->0;
    let s3 = St { ctx: Ctx { busy: false, ..e2.ctx }, ..next(e2) };
    lemma_decode_reti(s3, m0);
    let e3 = m_emu(next(e2), m0)->0;
    assert(e3 == m_ret(s3, m0, true));
}

proof fn lemma_decode_ld_a_n(s: St, m: Memory)
    requires
        s.ctx.opcode == 0x3E,
    ensures
        m_decode(s, m) == Some(m_rmw(s, m, reg_a(), imm8(), Rmw::Ld)),
{
    reveal(m_decode);
}

proof fn lemma_decode_ldh_n_a(s: St, m: Memory)
    requires
        s.ctx.opcode == 0xE0,
    ensures
        m_decode(s, m) == Some(m_rmw(s, m, Op8::Dir(Direct8::DFF), reg_a(), Rmw::Ld)),
{
    reveal(m_decode);
    reveal(m_decode_other);
}

/// LD A,n then LDH (n),A with n = 0x42 and 0x50: the first reads n, then
/// loads A and fetches the second in the same M-cycle; the second reads n
/// and, on its second M-cycle, writes A to 0xFF50, which switches the boot
/// ROM off, after which 0x0000-0x00FF read the cartridge.
pub proof fn lemma_boot_handoff(s: St, m0: Memory, m4: Memory)
    requires
        at_start(s, 0x3E),
        !m0.interrupts.ime,
        s.regs.pc < 0xFF00,
        m0.spec_read(s.regs.pc) == 0x42,
        m0.spec_read(((s.regs.pc + 1) % 65536) as u16) == 0xE0,
        m0.spec_read(((s.regs.pc + 2) % 65536) as u16) == 0x50,
        applied(
            m0,
            m_emu(next(m_emu(next(m_emu(next(m_emu(s, m0)->0), m0)->0), m0)->0), m0)->0,
            m4,
        ),
    ensures
        ({
            let e1 = m_emu(s, m0)->0;
            let e2 = m_emu(next(e1), m0)->0;
            let e3 = m_emu(next(e2), m0)->0;
            let e4 = m_emu(next(e3), m0)->0;
            &&& silent(e1) && silent(e2) && silent(e3)
            &&& e2.regs.a == 0x42
            &&& e2.ctx.opcode == 0xE0
            &&& e4.write == Some((0xFF50u16, 0x42u8))
            &&& !m4.bootrom.active
            &&& forall|a: u16| a <= 0x00FF ==> m4.spec_read(a) == m4.cartridge.spec_read(a)
        }),
{
    reveal(m_rmw);
    let s1 = St { ctx: Ctx { busy: false, ..s.ctx }, ..s };
    lemma_decode_ld_a_n(s1, m0);
    let e1 = m_emu(s, m0)->0;
    assert(e1 == m_rmw(s1, m0, reg_a(), imm8(), Rmw::Ld));
    assert(e1.ctx.sub == 1 && e1.ctx.lo == 0x42 && e1.ctx.step == 0);
    let s2 = St { ctx: Ctx { busy: false, ..e1.ctx }, ..next(e1) };
    lemma_decode_ld_a_n(s2, m0);
    let e2 = m_emu(next(e1), m0)->0;
    assert(e2 == m_rmw(s2, m0, reg_a(), imm8(), Rmw::Ld));
    assert(e2.regs.a == 0x42);
    assert(e2.ctx.opcode == 0xE0 && !e2.ctx.int && !e2.ctx.cb && e2.ctx.step == 0 && e2.ctx.sub == 0);
    let s3 = St { ctx: Ctx { busy: false, ..e2.ctx }, ..next(e2) };
    lemma_decode_ldh_n_a(s3, m0);
    let e3 = m_emu(next(e2), m0)->0;
    assert(e3 == m_rmw(s3, m0, Op8::Dir(Direct8::DFF), reg_a(), Rmw::Ld));
    assert(e3.ctx.step == 1 && e3.ctx.sub == 2 && e3.ctx.addr == 0xFF50 && e3.ctx.data8 == 0x42);
    let s4 = St { ctx: Ctx { busy: false, ..e3.ctx }, ..next(e3) };
    lemma_decode_ldh_n_a(s4, m0);
    let e4 = m_emu(next(e3), m0)->0;
    assert(e4 == m_rmw(s4, m0, Op8::Dir(Direct8::DFF), reg_a(), Rmw::Ld));
    let mid = Memory { interrupts: m0.interrupts, ..m4 };
    assert(m0.wrote(0xFF50, 0x42, &mid));
    assert forall|a: u16| a <= 0x00FF implies m4.spec_read(a) == m4.cartridge.spec_read(a) by {
        crate::mem::lemma_boot_rom_latch(m0, 0x42, mid, 0xFF50, a);
    }
}

} // verus!
