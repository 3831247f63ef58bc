use gemu::ppu::Ppu;

fn lcd_on(ppu: &mut Ppu, lcdc: u8) {
    ppu.write(0xFF40, lcdc);
}

fn stat_mode(ppu: &Ppu) -> u8 {
    ppu.read(0xFF41) & 0x03
}

#[test]
fn line_takes_114_cycles() {
    let mut ppu = Ppu::new();
    lcd_on(&mut ppu, 0x80);
    assert_eq!(stat_mode(&ppu), 2);
    for _ in 0..20 {
        assert!(!ppu.emu());
    }
    assert_eq!(stat_mode(&ppu), 3);
    for _ in 0..43 {
        ppu.emu();
    }
    assert_eq!(stat_mode(&ppu), 0);
    for _ in 0..50 {
        ppu.emu();
    }
    assert_eq!(ppu.read(0xFF44), 0);
    ppu.emu();
    assert_eq!(ppu.read(0xFF44), 1);
    assert_eq!(stat_mode(&ppu), 2);
    assert_eq!(ppu.read(0xFF41) & 0x04, 0);
}

#[test]
fn coincidence_bit_follows_lyc() {
    let mut ppu = Ppu::new();
    ppu.write(0xFF45, 1);
    lcd_on(&mut ppu, 0x80);
    for _ in 0..114 {
        ppu.emu();
    }
    assert_eq!(ppu.read(0xFF44), 1);
    assert_eq!(ppu.read(0xFF41) & 0x04, 0x04);
    ppu.write(0xFF45, 2);
    assert_eq!(ppu.read(0xFF41) & 0x04, 0);
}

#[test]
fn frame_takes_114_times_154_cycles() {
    let mut ppu = Ppu::new();
    lcd_on(&mut ppu, 0x80);
    let mut frames = 0;
    let mut vblank = false;
    for i in 0..114 * 154 {
        if ppu.emu() {
            frames += 1;
            assert_eq!(i, 114 * 154 - 1);
        }
        if ppu.regs.irq & 0x01 != 0 {
            vblank = true;
        }
    }
    assert_eq!(frames, 1);
    assert!(vblank);
    assert_eq!(ppu.read(0xFF44), 0);
    assert_eq!(stat_mode(&ppu), 2);
}

#[test]
fn vblank_starts_at_line_144() {
    let mut ppu = Ppu::new();
    lcd_on(&mut ppu, 0x80);
    for _ in 0..114 * 144 - 1 {
        ppu.emu();
    }
    assert_eq!(ppu.regs.irq & 0x01, 0);
    ppu.emu();
    assert_eq!(ppu.read(0xFF44), 144);
    assert_eq!(stat_mode(&ppu), 1);
    assert_eq!(ppu.take_irq() & 0x01, 0x01);
    assert_eq!(ppu.regs.irq, 0);
}

#[test]
fn tile_row_renders_through_palette() {
    let mut ppu = Ppu::new();
    ppu.write(0x8000, 0xFF);
    ppu.write(0x8001, 0x00);
    ppu.write(0xFF47, 0xE4);
    lcd_on(&mut ppu, 0x91);
    for _ in 0..20 {
        ppu.emu();
    }
    let buf = ppu.pixel_buffer();
    assert_eq!(buf.len(), 160 * 144);
    for px in &buf[0..8] {
        assert_eq!(*px, 0xAA);
    }
    for _ in 0..114 {
        ppu.emu();
    }
    let buf = ppu.pixel_buffer();
    assert_eq!(buf[160], 0xFF);
}

#[test]
fn signed_tile_data_and_scroll() {
    let mut ppu = Ppu::new();
    // Tile map entry (1, 0) names tile 0x80; with LCDC bit 4 clear it lies at 0x8800.
    ppu.write(0x9801, 0x80);
    ppu.write(0x8800, 0x00);
    ppu.write(0x8801, 0xFF);
    ppu.write(0xFF47, 0xE4);
    ppu.write(0xFF43, 8);
    lcd_on(&mut ppu, 0x81);
    for _ in 0..20 {
        ppu.emu();
    }
    let buf = ppu.pixel_buffer();
    // Colour 2 -> shade 2 -> 0x55; tile 0 at 0x9000 is blank -> 0xFF.
    assert_eq!(buf[0], 0x55);
    assert_eq!(buf[7], 0x55);
    assert_eq!(buf[8], 0xFF);
}

#[test]
fn background_disabled_leaves_line() {
    let mut ppu = Ppu::new();
    ppu.write(0x8000, 0xFF);
    ppu.write(0xFF47, 0xE4);
    lcd_on(&mut ppu, 0x90);
    for _ in 0..20 {
        ppu.emu();
    }
    assert_eq!(ppu.pixel_buffer()[0], 0x00);
}

#[test]
fn disabling_lcd_resets_line_without_interrupts() {
    let mut ppu = Ppu::new();
    ppu.write(0xFF41, 0x78);
    lcd_on(&mut ppu, 0x80);
    for _ in 0..(114 * 3 + 30) {
        ppu.emu();
    }
    ppu.take_irq();
    assert_eq!(ppu.read(0xFF44), 3);
    ppu.write(0xFF40, 0x00);
    assert_eq!(ppu.read(0xFF44), 0);
    assert_eq!(ppu.regs.irq, 0);
    for _ in 0..500 {
        assert!(!ppu.emu());
    }
    assert_eq!(ppu.read(0xFF44), 0);
    assert_eq!(ppu.regs.irq, 0);
}

#[test]
fn stat_interrupt_on_hblank_entry() {
    let mut ppu = Ppu::new();
    ppu.write(0xFF41, 0x08);
    lcd_on(&mut ppu, 0x80);
    for _ in 0..62 {
        ppu.emu();
    }
    assert_eq!(ppu.regs.irq, 0);
    ppu.emu();
    assert_eq!(ppu.regs.irq, 0x02);
}

#[test]
fn stat_interrupt_on_lyc_match() {
    let mut ppu = Ppu::new();
    ppu.write(0xFF41, 0x40);
    ppu.write(0xFF45, 2);
    lcd_on(&mut ppu, 0x80);
    for _ in 0..114 * 2 - 1 {
        ppu.emu();
    }
    assert_eq!(ppu.regs.irq, 0);
    ppu.emu();
    assert_eq!(ppu.regs.irq, 0x02);
}

#[test]
fn stat_write_keeps_mode_and_coincidence() {
    let mut ppu = Ppu::new();
    // LY == LYC == 0 after a LYC write.
    ppu.write(0xFF45, 0);
    assert_eq!(ppu.read(0xFF41), 0x80 | 0x04 | 0x02);
    ppu.write(0xFF41, 0xFF);
    assert_eq!(ppu.read(0xFF41), 0xFE);
    ppu.write(0xFF41, 0x00);
    assert_eq!(ppu.read(0xFF41), 0x86);
}

#[test]
fn ly_is_read_only() {
    let mut ppu = Ppu::new();
    ppu.write(0xFF44, 0x55);
    assert_eq!(ppu.read(0xFF44), 0);
    assert_eq!(ppu.read(0xFF46), 0xFF);
}

#[test]
fn vram_and_oam_locked_while_drawing() {
    let mut ppu = Ppu::new();
    ppu.write(0x8000, 0x11);
    ppu.write(0xFE00, 0x22);
    lcd_on(&mut ppu, 0x80);
    assert_eq!(ppu.read(0x8000), 0x11);
    assert_eq!(ppu.read(0xFE00), 0xFF);
    ppu.write(0xFE00, 0x33);
    for _ in 0..20 {
        ppu.emu();
    }
    assert_eq!(ppu.read(0x8000), 0xFF);
    ppu.write(0x8000, 0x44);
    for _ in 0..43 {
        ppu.emu();
    }
    assert_eq!(ppu.read(0x8000), 0x11);
    assert_eq!(ppu.read(0xFE00), 0x22);
}

#[test]
fn registers_read_back() {
    let mut ppu = Ppu::new();
    for (addr, v) in [(0xFF42u16, 1u8), (0xFF43, 2), (0xFF47, 3), (0xFF48, 4), (0xFF49, 5), (0xFF4A, 6), (0xFF4B, 7)] {
        ppu.write(addr, v);
        assert_eq!(ppu.read(addr), v);
    }
}
