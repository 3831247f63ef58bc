use gemu::cpu::alu::{
    add16, alu8, bit8, cp8, daa8, dec8, inc8, isr_vector, jr_target, res8, rl8, shift8, sp_offset,
    AluOp, ShiftOp,
};
use gemu::cpu::operand::{Reg16, Reg8};
use gemu::cpu::reg::Registers;

#[test]
fn pairs_are_big_endian() {
    let mut r = Registers::new();
    r.set_bc(0x1234);
    assert_eq!((r.b, r.c), (0x12, 0x34));
    assert_eq!(r.bc(), 0x1234);
    r.set_de(0xABCD);
    assert_eq!(r.de(), 0xABCD);
    r.set_hl(0x00FF);
    assert_eq!((r.h, r.l), (0x00, 0xFF));
}

#[test]
fn af_drops_low_nibble() {
    let mut r = Registers::new();
    r.set_af(0x12FF);
    assert_eq!(r.a, 0x12);
    assert_eq!(r.f, 0xF0);
    assert_eq!(r.af(), 0x12F0);
}

#[test]
fn sixteen_bit_round_trip() {
    let mut r = Registers::new();
    for (reg, v) in [(Reg16::BC, 0xBEEFu16), (Reg16::DE, 0x0102), (Reg16::HL, 0xFFFF), (Reg16::SP, 0x8001), (Reg16::AF, 0x5AA0)] {
        r.set16(reg, v);
        assert_eq!(r.get16(reg), v);
    }
    r.set8(Reg8::E, 0x77);
    assert_eq!(r.get8(Reg8::E), 0x77);
}

#[test]
fn flag_setters() {
    let mut r = Registers::new();
    r.set_zf(true);
    r.set_cf(true);
    assert_eq!(r.f, 0x90);
    assert!(r.zf() && r.cf());
    r.set_nf(true);
    r.set_hf(true);
    assert_eq!(r.f, 0xF0);
    r.set_zf(false);
    r.set_nf(false);
    assert_eq!(r.f, 0x30);
    r.set_hf(false);
    r.set_cf(false);
    assert_eq!(r.f, 0x00);
}

#[test]
fn alu_inc_dec_edges() {
    assert_eq!(inc8(0xFF, 0x00), (0x00, 0xA0));
    assert_eq!(inc8(0x0F, 0x10), (0x10, 0x30));
    assert_eq!(inc8(0x01, 0x00), (0x02, 0x00));
    assert_eq!(dec8(0x01, 0x00), (0x00, 0xC0));
    assert_eq!(dec8(0x00, 0x10), (0xFF, 0x70));
}

#[test]
fn alu_cp_and_bit() {
    assert_eq!(cp8(0x42, 0x42), 0xC0);
    assert_eq!(cp8(0x20, 0x01), 0x60);
    assert_eq!(cp8(0x01, 0x02), 0x70);
    assert_eq!(bit8(7, 0x80, 0x00), 0x20);
    assert_eq!(bit8(7, 0x7F, 0x00), 0xA0);
    assert_eq!(bit8(0, 0x01, 0x10), 0x30);
}

#[test]
fn alu_rotate_and_reset() {
    assert_eq!(rl8(0x80, 0x00), (0x00, 0x90));
    assert_eq!(rl8(0x80, 0x10), (0x01, 0x10));
    assert_eq!(rl8(0x40, 0x00), (0x80, 0x00));
    assert_eq!(res8(7, 0xFF), 0x7F);
    assert_eq!(res8(0, 0x01), 0x00);
}

#[test]
fn relative_jump_targets() {
    assert_eq!(jr_target(0x0092, 0x80), 0x0012);
    assert_eq!(jr_target(0x0002, 0xFE), 0x0000);
    assert_eq!(jr_target(0xFFFF, 0x01), 0x0000);
    assert_eq!(jr_target(0x0000, 0xFF), 0xFFFF);
    assert_eq!(jr_target(0x1000, 0x7F), 0x107F);
}

#[test]
fn interrupt_priority_and_vectors() {
    assert_eq!(isr_vector(0x03), (0x01, 0x40));
    assert_eq!(isr_vector(0x02), (0x02, 0x48));
    assert_eq!(isr_vector(0x1C), (0x04, 0x50));
    assert_eq!(isr_vector(0x18), (0x08, 0x58));
    assert_eq!(isr_vector(0x10), (0x10, 0x60));
    assert_eq!(isr_vector(0x00), (0x00, 0x00));
}

#[test]
fn alu_block_flags() {
    assert_eq!(alu8(AluOp::Add, 0x3A, 0xC6, 0x00), (0x00, 0xB0));
    assert_eq!(alu8(AluOp::Add, 0x0F, 0x01, 0x00), (0x10, 0x20));
    assert_eq!(alu8(AluOp::Adc, 0xE1, 0x1E, 0x10), (0x00, 0xB0));
    assert_eq!(alu8(AluOp::Sub, 0x3E, 0x3E, 0x00), (0x00, 0xC0));
    assert_eq!(alu8(AluOp::Sub, 0x3E, 0x40, 0x00), (0xFE, 0x50));
    assert_eq!(alu8(AluOp::Sbc, 0x3B, 0x2A, 0x10), (0x10, 0x40));
    assert_eq!(alu8(AluOp::Sbc, 0x3B, 0x4F, 0x10), (0xEB, 0x70));
    assert_eq!(alu8(AluOp::And, 0x5A, 0x3F, 0x10), (0x1A, 0x20));
    assert_eq!(alu8(AluOp::Xor, 0xFF, 0xFF, 0x10), (0x00, 0x80));
    assert_eq!(alu8(AluOp::Or, 0x5A, 0x0F, 0x10), (0x5F, 0x00));
    assert_eq!(alu8(AluOp::Cp, 0x3C, 0x40, 0x00), (0x3C, 0x50));
}

#[test]
fn cb_shifts() {
    assert_eq!(shift8(ShiftOp::Rlc, 0x85, 0x00), (0x0B, 0x10));
    assert_eq!(shift8(ShiftOp::Rrc, 0x01, 0x00), (0x80, 0x10));
    assert_eq!(shift8(ShiftOp::Rr, 0x01, 0x00), (0x00, 0x90));
    assert_eq!(shift8(ShiftOp::Rr, 0x8A, 0x10), (0xC5, 0x00));
    assert_eq!(shift8(ShiftOp::Sla, 0xFF, 0x00), (0xFE, 0x10));
    assert_eq!(shift8(ShiftOp::Sra, 0x8A, 0x00), (0xC5, 0x00));
    assert_eq!(shift8(ShiftOp::Swap, 0xF0, 0x10), (0x0F, 0x00));
    assert_eq!(shift8(ShiftOp::Srl, 0x01, 0x00), (0x00, 0x90));
}

#[test]
fn decimal_adjust() {
    // 0x45 + 0x38 = 0x7D, H clear -> 0x83.
    assert_eq!(daa8(0x7D, 0x00), (0x83, 0x00));
    // 0x83 - 0x38 = 0x4B with N and H -> 0x45.
    assert_eq!(daa8(0x4B, 0x60), (0x45, 0x40));
    // 0x99 + 0x01 = 0x9A -> 0x00 with carry.
    assert_eq!(daa8(0x9A, 0x00), (0x00, 0x90));
}

#[test]
fn sixteen_bit_sums() {
    assert_eq!(add16(0x8A23, 0x0605, 0x80), (0x9028, 0xA0));
    assert_eq!(add16(0x8A23, 0x8A23, 0x00), (0x1446, 0x30));
    assert_eq!(sp_offset(0xFFF8, 0x02), (0xFFFA, 0x00));
    assert_eq!(sp_offset(0x0005, 0xFE), (0x0003, 0x30));
}
