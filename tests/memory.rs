use gemu::bootrom::Bootrom;
use gemu::cartridge::Cartridge;
use gemu::cpu::interrupts::Interrupts;
use gemu::gameboy::{cycles_due, Gameboy};
use gemu::hram::Hram;
use gemu::mem::Memory;
use gemu::wram::Wram;

fn rom_image() -> Vec<u8> {
    let mut rom: Vec<u8> = (0..0x8000usize).map(|i| (i as u8).wrapping_mul(3)).collect();
    for b in rom[0x100..0x150].iter_mut() {
        *b = 0;
    }
    let mut chk: u8 = 0;
    for i in 0x134..=0x14C {
        chk = chk.wrapping_sub(rom[i]).wrapping_sub(1);
    }
    rom[0x14D] = chk;
    rom
}

fn bus() -> Memory {
    let boot: Vec<u8> = (0..256).map(|i| 0xFF - i as u8).collect();
    Memory::new(Bootrom::new(boot), Cartridge::new(rom_image()).unwrap())
}

#[test]
fn boot_rom_overlay_until_latch() {
    let mut m = bus();
    assert_eq!(m.read(0x0000), 0xFF);
    assert_eq!(m.read(0x00FF), 0x00);
    assert_eq!(m.read(0x0100), 0x00);
    m.write(0xFF50, 0x00);
    assert!(m.bootrom.active());
    m.write(0xFF50, 0x01);
    assert!(!m.bootrom.active());
    assert_eq!(m.read(0x0001), 3);
    assert_eq!(m.read(0x00FF), 0xFD);
    m.write(0xFF50, 0x00);
    assert!(!m.bootrom.active());
    assert_eq!(m.read(0x0001), 3);
}

#[test]
fn bootrom_latch_is_one_way() {
    let mut b = Bootrom::new(vec![7u8; 256]);
    assert!(b.active());
    assert_eq!(b.read(0x10), 7);
    b.write(0xFF50, 0);
    assert!(b.active());
    b.write(0xFF50, 0x80);
    assert!(!b.active());
    b.write(0xFF50, 0);
    assert!(!b.active());
}

#[test]
fn work_ram_and_echo() {
    let mut m = bus();
    m.write(0xC005, 0xAB);
    assert_eq!(m.read(0xE005), 0xAB);
    m.write(0xFDFF, 0xCD);
    assert_eq!(m.read(0xDDFF), 0xCD);
}

#[test]
fn prohibited_and_unmapped_regions() {
    let mut m = bus();
    m.write(0xFEA0, 0x12);
    assert_eq!(m.read(0xFEA0), 0xFF);
    assert_eq!(m.read(0xFEFF), 0xFF);
    assert_eq!(m.read(0xFF00), 0xFF);
    assert_eq!(m.read(0xFF50), 0xFF);
    assert_eq!(m.read(0xFF7F), 0xFF);
}

#[test]
fn interrupt_registers_on_bus() {
    let mut m = bus();
    m.write(0xFF0F, 0x05);
    assert_eq!(m.read(0xFF0F), 0xE5);
    m.write(0xFFFF, 0x1F);
    assert_eq!(m.read(0xFFFF), 0x1F);
    assert_eq!(m.interrupts.get_int(), 0x05);
}

#[test]
fn interrupt_controller_alone() {
    let mut i = Interrupts::new();
    i.irq(0x02);
    i.irq(0x08);
    assert_eq!(i.read(0xFF0F), 0xEA);
    assert_eq!(i.get_int(), 0);
    i.write(0xFFFF, 0xFF);
    assert_eq!(i.get_int(), 0x0A);
    i.write(0xFF0F, 0xE0);
    assert_eq!(i.get_int(), 0);
}

#[test]
fn high_ram_on_bus() {
    let mut m = bus();
    m.write(0xFF80, 1);
    m.write(0xFFFE, 2);
    assert_eq!(m.read(0xFF80), 1);
    assert_eq!(m.read(0xFFFE), 2);
    let mut h = Hram::new();
    h.write(0xFF81, 9);
    assert_eq!(h.read(0xFF81), 9);
    assert_eq!(h.read(0x0001), 9);
    let mut w = Wram::new();
    w.write(0xC001, 4);
    assert_eq!(w.read(0xE001), 4);
}

#[test]
fn rom_writes_do_not_change_rom() {
    let mut m = bus();
    m.write(0xFF50, 1);
    let before = m.read(0x1234);
    m.write(0x1234, 0x00);
    assert_eq!(m.read(0x1234), before);
}

#[test]
fn writes_to_rom_area_ignored_while_boot_rom_active() {
    let mut m = bus();
    m.write(0x0010, 0x42);
    assert_eq!(m.read(0x0010), 0xEF);
}

#[test]
fn console_frame_ready_once_per_frame() {
    let boot: Vec<u8> = {
        // JR -2: spin forever.
        let mut b = vec![0u8; 256];
        b[0] = 0x18;
        b[1] = 0xFE;
        b
    };
    let mut gb = Gameboy::new(Bootrom::new(boot), Cartridge::new(rom_image()).unwrap());
    gb.mem.write(0xFF40, 0x80);
    let mut frames = 0;
    for _ in 0..114 * 154 {
        gb.step_one_m_cycle().unwrap();
        if gb.frame_ready() {
            frames += 1;
        }
    }
    assert_eq!(frames, 1);
    assert_eq!(gb.mem.read(0xFF44), 0);
    assert_eq!(gb.mem.interrupts.i_flag & 0x01, 0x01);
    assert_eq!(gb.pixel_buffer().len(), 160 * 144);
}

#[test]
fn pacing_counts_whole_cycles() {
    assert_eq!(cycles_due(0, 0), 0);
    assert_eq!(cycles_due(952, 0), 0);
    assert_eq!(cycles_due(953, 0), 1);
    assert_eq!(cycles_due(10_000, 953), 9);
}

#[test]
fn ppu_tick_latches_vblank_into_if() {
    let mut m = bus();
    m.write(0xFF40, 0x80);
    let mut frames = 0;
    for _ in 0..114 * 144 {
        if m.ppu_tick() {
            frames += 1;
        }
    }
    assert_eq!(frames, 0);
    assert_eq!(m.interrupts.i_flag & 0x01, 0x01);
    assert_eq!(m.ppu.regs.irq, 0);
    assert_eq!(m.read(0xFF44), 144);
}
