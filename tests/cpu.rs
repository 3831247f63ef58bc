use gemu::bootrom::Bootrom;
use gemu::cartridge::Cartridge;
use gemu::cpu::operand::{Imm16, Indirect, Op16, Op8};
use gemu::gameboy::Gameboy;

fn cart_image(size: usize, fill: u8) -> Vec<u8> {
    let mut rom = vec![fill; size];
    for b in rom[0x100..0x150].iter_mut() {
        *b = 0;
    }
    rom[0x147] = 0x00;
    rom[0x148] = 0x00;
    rom[0x149] = 0x00;
    let mut chk: u8 = 0;
    for i in 0x134..=0x14C {
        chk = chk.wrapping_sub(rom[i]).wrapping_sub(1);
    }
    rom[0x14D] = chk;
    rom
}

fn console(program: &[u8]) -> Gameboy {
    let mut boot = vec![0u8; 256];
    boot[..program.len()].copy_from_slice(program);
    let cart = Cartridge::new(cart_image(0x8000, 0x77)).unwrap();
    Gameboy::new(Bootrom::new(boot), cart)
}

fn ticks(gb: &mut Gameboy, n: usize) {
    for _ in 0..n {
        gb.step_one_m_cycle().unwrap();
    }
}

#[test]
fn boot_rom_handoff_after_four_cycles() {
    let mut gb = console(&[0x3E, 0x42, 0xE0, 0x50]);
    // The first M-cycle after reset fetches the opcode at 0x0000.
    ticks(&mut gb, 1);
    ticks(&mut gb, 3);
    assert!(gb.mem.bootrom.active());
    ticks(&mut gb, 1);
    assert!(!gb.mem.bootrom.active());
    assert_eq!(gb.cpu.regs.a, 0x42);
    assert_eq!(gb.mem.read(0x0000), 0x77);
}

#[test]
fn jr_with_most_negative_offset() {
    let mut prog = vec![0u8; 0x92];
    prog[0x90] = 0x18;
    prog[0x91] = 0x80;
    let mut gb = console(&prog);
    gb.cpu.regs.pc = 0x90;
    ticks(&mut gb, 1);
    assert_eq!(gb.cpu.regs.pc, 0x91);
    ticks(&mut gb, 2);
    assert_eq!(gb.cpu.regs.pc, 0x90 - 126);
    ticks(&mut gb, 1);
    assert_eq!(gb.cpu.regs.pc, 0x90 - 126 + 1);
}

#[test]
fn inc_wraps_to_zero() {
    // LD B,0xFF ; INC B
    let mut gb = console(&[0x06, 0xFF, 0x04, 0x00]);
    gb.cpu.regs.f = 0x50;
    ticks(&mut gb, 1 + 2 + 1);
    assert_eq!(gb.cpu.regs.b, 0x00);
    assert!(gb.cpu.regs.zf());
    assert_eq!(gb.cpu.regs.f & 0x40, 0);
    assert_eq!(gb.cpu.regs.f & 0x20, 0x20);
    assert!(gb.cpu.regs.cf());
}

#[test]
fn dec_sets_subtract_and_half_borrow() {
    // LD C,0x10 ; DEC C
    let mut gb = console(&[0x0E, 0x10, 0x0D, 0x00]);
    ticks(&mut gb, 1 + 2 + 1);
    assert_eq!(gb.cpu.regs.c, 0x0F);
    assert_eq!(gb.cpu.regs.f, 0x60);
}

#[test]
fn cp_a_with_itself() {
    // LD A,0x3C ; CP A
    let mut gb = console(&[0x3E, 0x3C, 0xBF, 0x00]);
    ticks(&mut gb, 1 + 2 + 1);
    assert_eq!(gb.cpu.regs.f, 0xC0);
    assert_eq!(gb.cpu.regs.a, 0x3C);
}

#[test]
fn cp_immediate_borrow_flags() {
    // LD A,0x10 ; CP 0x21
    let mut gb = console(&[0x3E, 0x10, 0xFE, 0x21, 0x00]);
    ticks(&mut gb, 1 + 2 + 2);
    assert_eq!(gb.cpu.regs.f, 0x70);
}

#[test]
fn bit_seven_of_0x80_and_0x7f() {
    // LD B,0x80 ; BIT 7,B ; LD B,0x7F ; BIT 7,B
    let mut gb = console(&[0x06, 0x80, 0xCB, 0x78, 0x06, 0x7F, 0xCB, 0x78, 0x00]);
    ticks(&mut gb, 1 + 2 + 2);
    assert!(!gb.cpu.regs.zf());
    assert_eq!(gb.cpu.regs.f & 0x60, 0x20);
    ticks(&mut gb, 2 + 2);
    assert!(gb.cpu.regs.zf());
    assert_eq!(gb.cpu.regs.f & 0x60, 0x20);
}

#[test]
fn rl_through_carry() {
    // LD C,0x85 ; RL C (carry clear)
    let mut gb = console(&[0x0E, 0x85, 0xCB, 0x11, 0x00]);
    ticks(&mut gb, 1 + 2 + 2);
    assert_eq!(gb.cpu.regs.c, 0x0A);
    assert_eq!(gb.cpu.regs.f, 0x10);
}

#[test]
fn res_clears_one_bit() {
    // LD A,0xFF ; RES 3,A
    let mut gb = console(&[0x3E, 0xFF, 0xCB, 0x9F, 0x00]);
    ticks(&mut gb, 1 + 2 + 2);
    assert_eq!(gb.cpu.regs.a, 0xF7);
}

#[test]
fn isr_order_vblank_then_stat() {
    let mut prog = vec![0u8; 0x50];
    prog[0x40] = 0xD9; // RETI
    prog[0x48] = 0xD9; // RETI
    let mut gb = console(&prog);
    gb.cpu.regs.sp = 0xFFFE;
    gb.cpu.regs.pc = 0x10;
    gb.mem.interrupts.ime = true;
    gb.mem.interrupts.i_enable = 0x03;
    gb.mem.interrupts.i_flag = 0x03;
    // Fetch at 0x10 finds both pending.
    ticks(&mut gb, 1);
    assert!(gb.cpu.ctx.int);
    assert_eq!(gb.cpu.regs.pc, 0x10);
    ticks(&mut gb, 3);
    assert_eq!(gb.cpu.regs.pc, 0x40);
    assert_eq!(gb.mem.interrupts.i_flag, 0x02);
    assert_eq!(gb.cpu.regs.sp, 0xFFFC);
    assert_eq!(gb.mem.read(0xFFFD), 0x00);
    assert_eq!(gb.mem.read(0xFFFC), 0x10);
    ticks(&mut gb, 1);
    assert!(!gb.mem.interrupts.ime);
    // Prefetch of RETI at 0x40.
    ticks(&mut gb, 1);
    assert_eq!(gb.cpu.regs.pc, 0x41);
    // RETI: two pops, an internal cycle, then the fetch that finds STAT pending.
    ticks(&mut gb, 4);
    assert!(gb.mem.interrupts.ime);
    assert!(gb.cpu.ctx.int);
    assert_eq!(gb.cpu.regs.pc, 0x10);
    ticks(&mut gb, 3);
    assert_eq!(gb.cpu.regs.pc, 0x48);
    assert_eq!(gb.mem.interrupts.i_flag, 0x00);
}

#[test]
fn call_and_ret_take_six_and_four_cycles() {
    let mut prog = vec![0u8; 0x40];
    // CALL 0x0030 at 0x0000
    prog[0] = 0xCD;
    prog[1] = 0x30;
    prog[2] = 0x00;
    prog[0x30] = 0xC9; // RET
    let mut gb = console(&prog);
    gb.cpu.regs.sp = 0xFFFE;
    ticks(&mut gb, 1);
    ticks(&mut gb, 5);
    assert_eq!(gb.cpu.regs.pc, 0x30);
    assert_eq!(gb.cpu.regs.sp, 0xFFFC);
    ticks(&mut gb, 1);
    assert_eq!(gb.cpu.regs.pc, 0x31);
    ticks(&mut gb, 3);
    assert_eq!(gb.cpu.regs.pc, 0x03);
    assert_eq!(gb.cpu.regs.sp, 0xFFFE);
}

#[test]
fn push_pop_af_keeps_low_nibble_zero() {
    // LD BC,0x12FF ; PUSH BC ; POP AF
    let mut gb = console(&[0x01, 0xFF, 0x12, 0xC5, 0xF1, 0x00]);
    gb.cpu.regs.sp = 0xFFFE;
    ticks(&mut gb, 1 + 3 + 4 + 3);
    assert_eq!(gb.cpu.regs.a, 0x12);
    assert_eq!(gb.cpu.regs.f, 0xF0);
    assert_eq!(gb.cpu.regs.sp, 0xFFFE);
}

#[test]
fn ld_direct_and_ldh_round_trip() {
    // LD A,0x5A ; LD (0xC123),A ; LD A,0x00 ; LD A,(0xC123) ; LDH (0x80),A ; LD A,(C) with C=0x80
    let mut gb = console(&[
        0x3E, 0x5A, 0xEA, 0x23, 0xC1, 0x3E, 0x00, 0xFA, 0x23, 0xC1, 0xE0, 0x80, 0x0E, 0x80, 0xF2,
        0x00,
    ]);
    ticks(&mut gb, 1 + 2 + 4);
    assert_eq!(gb.mem.read(0xC123), 0x5A);
    ticks(&mut gb, 2 + 4);
    assert_eq!(gb.cpu.regs.a, 0x5A);
    ticks(&mut gb, 3);
    assert_eq!(gb.mem.read(0xFF80), 0x5A);
    ticks(&mut gb, 2 + 2);
    assert_eq!(gb.cpu.regs.a, 0x5A);
}

#[test]
fn ld_sp_to_direct_address_takes_five_cycles() {
    // LD SP,0xBEEF ; LD (0xC000),SP
    let mut gb = console(&[0x31, 0xEF, 0xBE, 0x08, 0x00, 0xC0, 0x00]);
    ticks(&mut gb, 1 + 3);
    assert_eq!(gb.cpu.regs.sp, 0xBEEF);
    ticks(&mut gb, 3);
    assert_eq!(gb.mem.read(0xC000), 0xEF);
    assert_eq!(gb.mem.read(0xC001), 0x00);
    ticks(&mut gb, 1);
    assert_eq!(gb.mem.read(0xC001), 0xBE);
    ticks(&mut gb, 1);
    assert_eq!(gb.cpu.regs.pc, 0x07);
}

#[test]
fn hl_increment_and_decrement_stores() {
    // LD HL,0xC010 ; LD A,7 ; LD (HL+),A ; LD (HL-),A ; INC HL ; DEC HL
    let mut gb = console(&[0x21, 0x10, 0xC0, 0x3E, 0x07, 0x22, 0x32, 0x23, 0x2B, 0x00]);
    ticks(&mut gb, 1 + 3 + 2 + 2);
    assert_eq!(gb.cpu.regs.hl(), 0xC011);
    ticks(&mut gb, 2);
    assert_eq!(gb.cpu.regs.hl(), 0xC010);
    assert_eq!(gb.mem.read(0xC010), 7);
    assert_eq!(gb.mem.read(0xC011), 7);
    ticks(&mut gb, 2);
    assert_eq!(gb.cpu.regs.hl(), 0xC011);
    ticks(&mut gb, 2);
    assert_eq!(gb.cpu.regs.hl(), 0xC010);
}

#[test]
fn inc_indirect_hl_in_memory() {
    // LD HL,0xC000 ; INC (HL) ; DEC (HL) ; DEC (HL)
    let mut gb = console(&[0x21, 0x00, 0xC0, 0x34, 0x35, 0x35, 0x00]);
    ticks(&mut gb, 1 + 3 + 3);
    assert_eq!(gb.mem.read(0xC000), 1);
    ticks(&mut gb, 3 + 3);
    assert_eq!(gb.mem.read(0xC000), 0xFF);
    assert_eq!(gb.cpu.regs.f & 0xE0, 0x60);
}

#[test]
fn conditional_jr_not_taken_takes_two_cycles() {
    // XOR-free setup: CP A sets Z ; JR NZ,+5 (not taken) ; JR Z,+2 (taken)
    let mut gb = console(&[0xBF, 0x20, 0x05, 0x28, 0x02, 0x00, 0x00, 0x00]);
    ticks(&mut gb, 1 + 1);
    ticks(&mut gb, 2);
    assert_eq!(gb.cpu.regs.pc, 0x04);
    ticks(&mut gb, 2);
    assert_eq!(gb.cpu.regs.pc, 0x07);
}

#[test]
fn jp_absolute_takes_four_cycles() {
    let mut gb = console(&[0xC3, 0x34, 0x12]);
    ticks(&mut gb, 1 + 3);
    assert_eq!(gb.cpu.regs.pc, 0x1234);
}

#[test]
fn unknown_opcode_is_reported() {
    let mut gb = console(&[0x00, 0xD3]);
    ticks(&mut gb, 2);
    let e = gb.step_one_m_cycle().unwrap_err();
    assert_eq!(e.opcode, 0xD3);
    assert!(!e.cb);
    assert_eq!(e.pc, 0x0001);
    assert!(gb.step_one_m_cycle().is_err());
}

#[test]
fn every_cb_opcode_is_known() {
    for op in 0..=255u8 {
        let mut gb = console(&[0x21, 0x00, 0xC0, 0xCB, op, 0x00]);
        for _ in 0..12 {
            gb.step_one_m_cycle().unwrap();
        }
    }
}

#[test]
fn illegal_opcodes_are_reported() {
    for op in [0xD3u8, 0xDB, 0xDD, 0xE3, 0xE4, 0xEB, 0xEC, 0xED, 0xF4, 0xFC, 0xFD] {
        let mut gb = console(&[op]);
        ticks(&mut gb, 1);
        let e = gb.step_one_m_cycle().unwrap_err();
        assert_eq!(e.opcode, op);
        assert_eq!(e.pc, 0x0000);
    }
}

#[test]
fn di_and_ei_set_master_enable() {
    let mut gb = console(&[0xFB, 0xF3, 0x00]);
    ticks(&mut gb, 2);
    assert!(gb.mem.interrupts.ime);
    ticks(&mut gb, 1);
    assert!(!gb.mem.interrupts.ime);
}

#[test]
fn xor_a_and_add_immediate() {
    // XOR A ; ADD A,0x0F ; ADD A,0x01
    let mut gb = console(&[0xAF, 0xC6, 0x0F, 0xC6, 0x01, 0x00]);
    ticks(&mut gb, 1 + 1);
    assert_eq!(gb.cpu.regs.a, 0);
    assert_eq!(gb.cpu.regs.f, 0x80);
    ticks(&mut gb, 2 + 2);
    assert_eq!(gb.cpu.regs.a, 0x10);
    assert_eq!(gb.cpu.regs.f, 0x20);
}

#[test]
fn rst_pushes_and_jumps() {
    let mut prog = vec![0u8; 0x40];
    prog[0x20] = 0xEF; // RST 0x28
    let mut gb = console(&prog);
    gb.cpu.regs.sp = 0xFFFE;
    gb.cpu.regs.pc = 0x20;
    ticks(&mut gb, 1 + 3);
    assert_eq!(gb.cpu.regs.pc, 0x28);
    assert_eq!(gb.mem.read(0xFFFC), 0x21);
    assert_eq!(gb.cpu.regs.sp, 0xFFFC);
}

#[test]
fn conditional_call_and_return() {
    let mut prog = vec![0u8; 0x40];
    // CP A (Z set) ; CALL NZ,0x0030 (not taken) ; CALL Z,0x0030 (taken)
    prog[0..7].copy_from_slice(&[0xBF, 0xC4, 0x30, 0x00, 0xCC, 0x30, 0x00]);
    prog[0x30] = 0xC0; // RET NZ (not taken)
    prog[0x31] = 0xC8; // RET Z (taken)
    let mut gb = console(&prog);
    gb.cpu.regs.sp = 0xFFFE;
    ticks(&mut gb, 1 + 1);
    ticks(&mut gb, 3);
    assert_eq!(gb.cpu.regs.pc, 0x05);
    assert_eq!(gb.cpu.regs.sp, 0xFFFE);
    ticks(&mut gb, 5);
    assert_eq!(gb.cpu.regs.pc, 0x30);
    ticks(&mut gb, 1);
    assert_eq!(gb.cpu.regs.pc, 0x31);
    ticks(&mut gb, 2);
    assert_eq!(gb.cpu.regs.pc, 0x32);
    ticks(&mut gb, 4);
    assert_eq!(gb.cpu.regs.pc, 0x07);
    assert_eq!(gb.cpu.regs.sp, 0xFFFE);
}

#[test]
fn halt_waits_for_interrupt() {
    let mut prog = vec![0u8; 0x50];
    prog[0] = 0x76; // HALT
    prog[0x48] = 0xD9;
    let mut gb = console(&prog);
    gb.cpu.regs.sp = 0xFFFE;
    gb.mem.interrupts.ime = true;
    gb.mem.interrupts.i_enable = 0x02;
    ticks(&mut gb, 1 + 10);
    assert_eq!(gb.cpu.regs.pc, 0x01);
    gb.mem.interrupts.irq(0x02);
    ticks(&mut gb, 1);
    assert!(gb.cpu.ctx.int);
    ticks(&mut gb, 3);
    assert_eq!(gb.cpu.regs.pc, 0x48);
    assert_eq!(gb.mem.read(0xFFFC), 0x01);
}

#[test]
fn set_and_swap_on_hl() {
    // LD HL,0xC000 ; SET 7,(HL) ; SWAP (HL)
    let mut gb = console(&[0x21, 0x00, 0xC0, 0xCB, 0xFE, 0xCB, 0x36, 0x00]);
    ticks(&mut gb, 1 + 3 + 4);
    assert_eq!(gb.mem.read(0xC000), 0x80);
    ticks(&mut gb, 4);
    assert_eq!(gb.mem.read(0xC000), 0x08);
}

#[test]
fn indirect_read_hands_byte_over_on_next_call() {
    let mut gb = console(&[0x00]);
    gb.mem.write(0xC010, 0x5A);
    gb.cpu.regs.set_hl(0xC010);
    assert_eq!(gb.cpu.read8(&gb.mem, Op8::Ind(Indirect::HLI)), None);
    assert_eq!(gb.cpu.regs.hl(), 0xC011);
    assert!(gb.cpu.ctx.busy);
    gb.cpu.ctx.busy = false;
    assert_eq!(gb.cpu.read8(&gb.mem, Op8::Ind(Indirect::HLI)), Some(0x5A));
    assert!(!gb.cpu.ctx.busy);
    assert_eq!(gb.cpu.regs.hl(), 0xC011);
}

#[test]
fn pop16_reads_twice_then_hands_word_over() {
    let mut gb = console(&[0x00]);
    gb.cpu.regs.sp = 0xFFFC;
    gb.mem.write(0xFFFC, 0x34);
    gb.mem.write(0xFFFD, 0x12);
    assert_eq!(gb.cpu.pop16(&gb.mem), None);
    gb.cpu.ctx.busy = false;
    assert_eq!(gb.cpu.pop16(&gb.mem), None);
    gb.cpu.ctx.busy = false;
    assert_eq!(gb.cpu.pop16(&gb.mem), Some(0x1234));
    assert!(!gb.cpu.ctx.busy);
    assert_eq!(gb.cpu.regs.sp, 0xFFFE);
}

#[test]
fn immediate_word_takes_two_reads() {
    let mut gb = console(&[0x00]);
    gb.mem.write(0xC000, 0xCD);
    gb.mem.write(0xC001, 0xAB);
    gb.cpu.regs.pc = 0xC000;
    assert_eq!(gb.cpu.read16(&gb.mem, Op16::Imm(Imm16)), None);
    gb.cpu.ctx.busy = false;
    assert_eq!(gb.cpu.read16(&gb.mem, Op16::Imm(Imm16)), None);
    gb.cpu.ctx.busy = false;
    assert_eq!(gb.cpu.read16(&gb.mem, Op16::Imm(Imm16)), Some(0xABCD));
    assert_eq!(gb.cpu.regs.pc, 0xC002);
}
