use vstd::prelude::*;

use crate::bits::{c_of, flags, h_of, lemma_flags_read, n_of, z_of};

verus! {

/// The F byte for the given flags.
pub fn make_flags(z: bool, n: bool, h: bool, c: bool) -> (r: u8)
    ensures
        r == flags(z, n, h, c),
        r & 0x0F == 0,
{
    proof {
        lemma_flags_read(z, n, h, c);
    }
    (if z {
        0x80u8
    } else {
        0u8
    }) | (if n {
        0x40u8
    } else {
        0u8
    }) | (if h {
        0x20u8
    } else {
        0u8
    }) | (if c {
        0x10u8
    } else {
        0u8
    })
}

/// The result and the F byte of INC on `v`, with carry taken from `f`.
pub open spec fn inc_spec(v: u8, f: u8) -> (u8, u8) {
    let r = ((v + 1) % 256) as u8;
    (r, flags(r == 0, false, v % 16 == 15, c_of(f)))
}

/// The result and the F byte of DEC on `v`, with carry taken from `f`.
pub open spec fn dec_spec(v: u8, f: u8) -> (u8, u8) {
    let r = ((v + 255) % 256) as u8;
    (r, flags(r == 0, true, v % 16 == 0, c_of(f)))
}

/// The F byte of CP with A = `a` and operand `v`.
pub open spec fn cp_spec(a: u8, v: u8) -> u8 {
    flags(a == v, true, a % 16 < v % 16, a < v)
}

/// The result and the F byte of RL on `v`, with the incoming carry taken from `f`.
pub open spec fn rl_spec(v: u8, f: u8) -> (u8, u8) {
    let r = ((v * 2) % 256 + (if c_of(f) {
        1int
    } else {
        0int
    })) as u8;
    (r, flags(r == 0, false, false, v >= 128))
}

/// The F byte of BIT n on `v`, with carry taken from `f`.
pub open spec fn bit_spec(n: u8, v: u8, f: u8) -> u8 {
    flags((v >> n) & 1 == 0, false, true, c_of(f))
}

/// INC r8: the successor modulo 256; Z from the result, N clear, H when the
/// low nibble wraps, C kept.
pub fn inc8(v: u8, f: u8) -> (r: (u8, u8))
    ensures
        r == inc_spec(v, f),
        r.0 == (v + 1) % 256,
        r.1 & 0x0F == 0,
{
    let res = v.wrapping_add(1);
    (res, make_flags(res == 0, false, v % 16 == 15, f & 0x10 == 0x10))
}

/// DEC r8: the predecessor modulo 256; Z from the result, N set, H when the
/// low nibble borrows, C kept.
pub fn dec8(v: u8, f: u8) -> (r: (u8, u8))
    ensures
        r == dec_spec(v, f),
        r.0 == (v + 255) % 256,
        r.1 & 0x0F == 0,
{
    let res = v.wrapping_sub(1);
    (res, make_flags(res == 0, true, v % 16 == 0, f & 0x10 == 0x10))
}

/// CP: the flags of A - v, with A kept.
pub fn cp8(a: u8, v: u8) -> (r: u8)
    ensures
        r == cp_spec(a, v),
        r & 0x0F == 0,
{
    make_flags(a == v, true, a % 16 < v % 16, a < v)
}

/// RL r8: rotate left through carry.
pub fn rl8(v: u8, f: u8) -> (r: (u8, u8))
    ensures
        r == rl_spec(v, f),
        r.1 & 0x0F == 0,
{
    let carry_in: u8 = if f & 0x10 == 0x10 {
        1
    } else {
        0
    };
    let res = (v % 128) * 2 + carry_in;
    (res, make_flags(res == 0, false, false, v >= 128))
}

/// BIT n: Z when bit `n` of `v` is clear, N clear, H set, C kept.
pub fn bit8(n: u8, v: u8, f: u8) -> (r: u8)
    requires
        n < 8,
    ensures
        r == bit_spec(n, v, f),
        r & 0x0F == 0,
{
    make_flags((v >> n) & 1 == 0, false, true, f & 0x10 == 0x10)
}

/// RES n: `v` with bit `n` cleared.
pub fn res8(n: u8, v: u8) -> (r: u8)
    requires
        n < 8,
    ensures
        r == v & !(1u8 << n),
{
    v & !(1u8 << n)
}

/// A byte read as a two's-complement offset.
pub open spec fn signed8(e: u8) -> int {
    if e < 128 {
        e as int
    } else {
        e as int - 256
    }
}

/// `pc` plus the signed offset `e`, modulo 2^16.
pub open spec fn jr_target_spec(pc: u16, e: u8) -> u16 {
    ((pc + signed8(e) + 65536) % 65536) as u16
}

/// The target of a relative jump: `pc` plus the signed offset `e`, modulo 2^16.
pub fn jr_target(pc: u16, e: u8) -> (r: u16)
    ensures
        r as int == (pc as int + signed8(e)) % 65536,
        r == jr_target_spec(pc, e),
{
    if e < 128 {
        ((pc as u32 + e as u32) % 65536) as u16
    } else {
        ((pc as u32 + 65536 - (256 - e as u32)) % 65536) as u16
    }
}

/// The interrupt that a pending mask selects, lowest bit first, as the bit
/// and the address of its handler; a mask with no source bit yields 0x0000.
pub open spec fn isr_choice(pending: u8) -> (u8, u16) {
    if pending & 0x01 != 0 {
        (0x01, 0x40)
    } else if pending & 0x02 != 0 {
        (0x02, 0x48)
    } else if pending & 0x04 != 0 {
        (0x04, 0x50)
    } else if pending & 0x08 != 0 {
        (0x08, 0x58)
    } else if pending & 0x10 != 0 {
        (0x10, 0x60)
    } else {
        (0, 0)
    }
}

pub fn isr_vector(pending: u8) -> (r: (u8, u16))
    ensures
        r == isr_choice(pending),
{
    if pending & 0x01 != 0 {
        (0x01, 0x40)
    } else if pending & 0x02 != 0 {
        (0x02, 0x48)
    } else if pending & 0x04 != 0 {
        (0x04, 0x50)
    } else if pending & 0x08 != 0 {
        (0x08, 0x58)
    } else if pending & 0x10 != 0 {
        (0x10, 0x60)
    } else {
        (0, 0)
    }
}


/// The eight operations of the 0x80-0xBF block and their immediate forms, in opcode order.
#[derive(Clone, Copy, Debug, PartialEq, Eq, Structural)]
pub enum AluOp {
    Add,
    Adc,
    Sub,
    Sbc,
    And,
    Xor,
    Or,
    Cp,
}

/// The eight rotations and shifts of CB 0x00-0x3F, in opcode order.
#[derive(Clone, Copy, Debug, PartialEq, Eq, Structural)]
pub enum ShiftOp {
    Rlc,
    Rrc,
    Rl,
    Rr,
    Sla,
    Sra,
    Swap,
    Srl,
}

pub open spec fn carry_bit(f: u8) -> int {
    if c_of(f) {
        1
    } else {
        0
    }
}

/// The new A and F of an 8-bit arithmetic or logic operation on A = `a` and operand `v`.
pub open spec fn alu_spec(op: AluOp, a: u8, v: u8, f: u8) -> (u8, u8) {
    let c = carry_bit(f);
    match op {
        AluOp::Add => {
            let r = ((a + v) % 256) as u8;
            (r, flags(r == 0, false, a % 16 + v % 16 > 15, a + v > 255))
        },
        AluOp::Adc => {
            let r = ((a + v + c) % 256) as u8;
            (r, flags(r == 0, false, a % 16 + v % 16 + c > 15, a + v + c > 255))
        },
        AluOp::Sub => {
            let r = ((a - v + 256) % 256) as u8;
            (r, flags(r == 0, true, a % 16 < v % 16, a < v))
        },
        AluOp::Sbc => {
            let r = ((a - v - c + 512) % 256) as u8;
            (r, flags(r == 0, true, a % 16 < v % 16 + c, a < v + c))
        },
        AluOp::And => (a & v, flags(a & v == 0, false, true, false)),
        AluOp::Xor => (a ^ v, flags(a ^ v == 0, false, false, false)),
        AluOp::Or => (a | v, flags(a | v == 0, false, false, false)),
        AluOp::Cp => (a, cp_spec(a, v)),
    }
}

pub fn alu8(op: AluOp, a: u8, v: u8, f: u8) -> (r: (u8, u8))
    ensures
        r == alu_spec(op, a, v, f),
        r.1 & 0x0F == 0,
{
    let c: u16 = if f & 0x10 == 0x10 {
        1
    } else {
        0
    };
    let (a16, v16) = (a as u16, v as u16);
    match op {
        AluOp::Add => {
            let r = ((a16 + v16) % 256) as u8;
            (r, make_flags(r == 0, false, a16 % 16 + v16 % 16 > 15, a16 + v16 > 255))
        },
        AluOp::Adc => {
            let r = ((a16 + v16 + c) % 256) as u8;
            (r, make_flags(r == 0, false, a16 % 16 + v16 % 16 + c > 15, a16 + v16 + c > 255))
        },
        AluOp::Sub => {
            let r = ((a16 + 256 - v16) % 256) as u8;
            (r, make_flags(r == 0, true, a16 % 16 < v16 % 16, a16 < v16))
        },
        AluOp::Sbc => {
            let r = ((a16 + 512 - v16 - c) % 256) as u8;
            (r, make_flags(r == 0, true, a16 % 16 < v16 % 16 + c, a16 < v16 + c))
        },
        AluOp::And => (a & v, make_flags(a & v == 0, false, true, false)),
        AluOp::Xor => (a ^ v, make_flags(a ^ v == 0, false, false, false)),
        AluOp::Or => (a | v, make_flags(a | v == 0, false, false, false)),
        AluOp::Cp => (a, cp8(a, v)),
    }
}

/// The result of a rotation or shift of `v` and the bit that goes to the carry.
pub open spec fn shift_value(op: ShiftOp, v: u8, f: u8) -> (u8, bool) {
    let c = carry_bit(f);
    match op {
        ShiftOp::Rlc => (((v * 2) % 256 + v / 128) as u8, v >= 128),
        ShiftOp::Rrc => ((v / 2 + (v % 2) * 128) as u8, v % 2 == 1),
        ShiftOp::Rl => (((v * 2) % 256 + c) as u8, v >= 128),
        ShiftOp::Rr => ((v / 2 + c * 128) as u8, v % 2 == 1),
        ShiftOp::Sla => (((v * 2) % 256) as u8, v >= 128),
        ShiftOp::Sra => ((v / 2 + (v / 128) * 128) as u8, v % 2 == 1),
        ShiftOp::Swap => (((v % 16) * 16 + v / 16) as u8, false),
        ShiftOp::Srl => ((v / 2) as u8, v % 2 == 1),
    }
}

/// CB rotations and shifts: Z from the result, N and H clear, C the bit shifted out.
pub open spec fn shift_spec(op: ShiftOp, v: u8, f: u8) -> (u8, u8) {
    let (r, c) = shift_value(op, v, f);
    (r, flags(r == 0, false, false, c))
}

pub fn shift8(op: ShiftOp, v: u8, f: u8) -> (r: (u8, u8))
    ensures
        r == shift_spec(op, v, f),
        r.1 & 0x0F == 0,
{
    let c: u16 = if f & 0x10 == 0x10 {
        1
    } else {
        0
    };
    let w = v as u16;
    let (res, carry) = match op {
        ShiftOp::Rlc => (((w * 2) % 256 + w / 128) as u8, v >= 128),
        ShiftOp::Rrc => ((w / 2 + (w % 2) * 128) as u8, v % 2 == 1),
        ShiftOp::Rl => (((w * 2) % 256 + c) as u8, v >= 128),
        ShiftOp::Rr => ((w / 2 + c * 128) as u8, v % 2 == 1),
        ShiftOp::Sla => (((w * 2) % 256) as u8, v >= 128),
        ShiftOp::Sra => ((w / 2 + (w / 128) * 128) as u8, v % 2 == 1),
        ShiftOp::Swap => (((w % 16) * 16 + w / 16) as u8, false),
        ShiftOp::Srl => ((w / 2) as u8, v % 2 == 1),
    };
    (res, make_flags(res == 0, false, false, carry))
}

/// SET n: `v` with bit `n` set.
pub fn set8(n: u8, v: u8) -> (r: u8)
    requires
        n < 8,
    ensures
        r == v | (1u8 << n),
{
    v | (1u8 << n)
}

/// DAA: adjusts A to binary-coded decimal after an addition or a
/// subtraction; Z from the result, N kept, H clear, C set when a hundred
/// was carried out.
pub open spec fn daa_spec(a: u8, f: u8) -> (u8, u8) {
    let n = n_of(f);
    let h = h_of(f);
    let c = c_of(f);
    let hi: int = if (!n && (c || a > 0x99)) || (n && c) {
        0x60
    } else {
        0
    };
    let lo: int = if (!n && (h || a % 16 > 9)) || (n && h) {
        0x06
    } else {
        0
    };
    let r = (if n {
        a - hi - lo + 256
    } else {
        a + hi + lo
    }) % 256;
    (r as u8, flags(r == 0, n, false, c || (!n && a > 0x99)))
}

pub fn daa8(a: u8, f: u8) -> (r: (u8, u8))
    ensures
        r == daa_spec(a, f),
        r.1 & 0x0F == 0,
{
    let n = f & 0x40 == 0x40;
    let h = f & 0x20 == 0x20;
    let c = f & 0x10 == 0x10;
    let hi: u16 = if (!n && (c || a > 0x99)) || (n && c) {
        0x60
    } else {
        0
    };
    let lo: u16 = if (!n && (h || a % 16 > 9)) || (n && h) {
        0x06
    } else {
        0
    };
    let r = if n {
        ((a as u16 + 256 - hi - lo) % 256) as u8
    } else {
        ((a as u16 + hi + lo) % 256) as u8
    };
    (r, make_flags(r == 0, n, false, c || (!n && a > 0x99)))
}

/// ADD HL,rr: the 16-bit sum; Z kept, N clear, H from bit 11, C from bit 15.
pub open spec fn add16_spec(hl: u16, v: u16, f: u8) -> (u16, u8) {
    (((hl + v) % 65536) as u16, flags(z_of(f), false, hl % 4096 + v % 4096 > 4095, hl + v > 65535))
}

pub fn add16(hl: u16, v: u16, f: u8) -> (r: (u16, u8))
    ensures
        r == add16_spec(hl, v, f),
        r.1 & 0x0F == 0,
{
    let sum = hl as u32 + v as u32;
    (
        (sum % 65536) as u16,
        make_flags(f & 0x80 == 0x80, false, hl % 4096 + v % 4096 > 4095, sum > 65535),
    )
}

/// SP plus a signed byte, as ADD SP,e and LD HL,SP+e compute it: Z and N
/// clear, H and C from the unsigned addition of the low byte.
pub open spec fn sp_offset_spec(sp: u16, e: u8) -> (u16, u8) {
    (((sp + signed8(e) + 65536) % 65536) as u16, flags(false, false, sp % 16 + e % 16 > 15, sp % 256 + e > 255))
}

pub fn sp_offset(sp: u16, e: u8) -> (r: (u16, u8))
    ensures
        r == sp_offset_spec(sp, e),
        r.1 & 0x0F == 0,
{
    let target = if e < 128 {
        ((sp as u32 + e as u32) % 65536) as u16
    } else {
        ((sp as u32 + 65536 - (256 - e as u32)) % 65536) as u16
    };
    (target, make_flags(false, false, sp % 16 + (e % 16) as u16 > 15, sp % 256 + e as u16 > 255))
}

} // verus!
