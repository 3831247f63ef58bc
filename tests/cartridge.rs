use gemu::cartridge::{Cartridge, CartridgeError, Header};
use gemu::mbc::Mbc;

fn image(size: usize, kind: u8, rom_code: u8, sram_code: u8) -> Vec<u8> {
    let mut rom: Vec<u8> = (0..size).map(|i| ((i >> 14) as u8) ^ (i as u8)).collect();
    for b in rom[0x100..0x150].iter_mut() {
        *b = 0;
    }
    for (i, c) in b"TESTCART".iter().enumerate() {
        rom[0x134 + i] = *c;
    }
    rom[0x147] = kind;
    rom[0x148] = rom_code;
    rom[0x149] = sram_code;
    let mut chk: u8 = 0;
    for i in 0x134..=0x14C {
        chk = chk.wrapping_sub(rom[i]).wrapping_sub(1);
    }
    rom[0x14D] = chk;
    rom
}

#[test]
fn header_fields_by_offset() {
    let rom = image(0x8000, 0x01, 0x00, 0x02);
    let h = Header::new(&rom).unwrap();
    assert_eq!(&h.title[..8], b"TESTCART");
    assert_eq!(h.title.len(), 11);
    assert_eq!(h.cartridge_type, 0x01);
    assert_eq!(h.rom_size().unwrap(), 0x8000);
    assert_eq!(h.sram_size().unwrap(), 0x2000);
}

#[test]
fn header_checksum_of_zero_bytes() {
    // 25 zero bytes: 25 * (-1) mod 256 = 0xE7.
    let mut rom = vec![0u8; 0x150];
    rom[0x14D] = 0xE7;
    assert!(Header::new(&rom).is_ok());
    rom[0x14D] = 0xE6;
    assert_eq!(
        Header::new(&rom).unwrap_err(),
        CartridgeError::ChecksumMismatch { stored: 0xE6, computed: 0xE7 }
    );
}

#[test]
fn short_image_is_refused() {
    let rom = vec![0u8; 0x14F];
    assert_eq!(Cartridge::new(rom).err(), Some(CartridgeError::TooShort));
}

#[test]
fn bad_checksum_is_refused() {
    let mut rom = image(0x8000, 0x00, 0x00, 0x00);
    rom[0x14D] = rom[0x14D].wrapping_add(1);
    assert!(matches!(Cartridge::new(rom), Err(CartridgeError::ChecksumMismatch { .. })));
}

#[test]
fn unsupported_type_is_refused() {
    let rom = image(0x8000, 0x05, 0x00, 0x00);
    assert_eq!(Cartridge::new(rom).err(), Some(CartridgeError::UnsupportedType(0x05)));
}

#[test]
fn invalid_rom_size_is_refused() {
    let rom = image(0x8000, 0x00, 0x09, 0x00);
    assert_eq!(Cartridge::new(rom).err(), Some(CartridgeError::InvalidRomSize(0x09)));
}

#[test]
fn invalid_sram_size_is_refused() {
    let rom = image(0x8000, 0x00, 0x00, 0x06);
    assert_eq!(Cartridge::new(rom).err(), Some(CartridgeError::InvalidSramSize(0x06)));
}

#[test]
fn rom_and_sram_sizes_per_code() {
    let expected_rom = [0x8000usize, 0x10000, 0x20000, 0x40000, 0x80000, 0x100000, 0x200000, 0x400000, 0x800000];
    for (code, size) in expected_rom.iter().enumerate() {
        let mut rom = vec![0u8; 0x150];
        rom[0x148] = code as u8;
        let mut chk: u8 = 0;
        for i in 0x134..=0x14C {
            chk = chk.wrapping_sub(rom[i]).wrapping_sub(1);
        }
        rom[0x14D] = chk;
        assert_eq!(Header::new(&rom).unwrap().rom_size().unwrap(), *size);
    }
    let expected_sram = [0usize, 0x800, 0x2000, 0x8000, 0x20000, 0x10000];
    for (code, size) in expected_sram.iter().enumerate() {
        let c = Cartridge::new(image(0x8000, 0x00, 0x00, code as u8)).unwrap();
        assert_eq!(c.sram.len(), *size);
    }
}

#[test]
fn mbc1_power_on_state() {
    let c = Cartridge::new(image(0x10000, 0x01, 0x01, 0x00)).unwrap();
    assert_eq!(
        c.mbc,
        Mbc::Mbc1 { sram_enable: false, low_bank: 1, high_bank: 0, bank_mode: false, rom_banks: 4 }
    );
}

#[test]
fn mbc1_high_bank_two_mib() {
    let rom = image(0x200000, 0x01, 0x06, 0x00);
    let expected = rom[(1 << 19) | (5 << 14)];
    let mut c = Cartridge::new(rom).unwrap();
    c.write(0x2000, 0x05);
    c.write(0x4000, 0x01);
    assert_eq!(c.read(0x4000), expected);
    assert_eq!(c.mbc.get_addr(0x4000), 0x94000);
    assert_eq!(c.read(0x4000), c.rom[0x94000]);
    assert_ne!(c.rom[0x94000], c.rom[0x84000]);
}

#[test]
fn mbc1_low_bank_zero_selects_one() {
    let mut m = Mbc::new(0x01, 32);
    m.write(0x2000, 0x00);
    assert!(matches!(m, Mbc::Mbc1 { low_bank: 1, .. }));
    m.write(0x3FFF, 0xE0);
    assert!(matches!(m, Mbc::Mbc1 { low_bank: 1, .. }));
    m.write(0x2000, 0x1F);
    assert!(matches!(m, Mbc::Mbc1 { low_bank: 0x1F, .. }));
    assert_eq!(m.get_addr(0x4000), 0x1F << 14);
}

#[test]
fn mbc1_bank_mode_maps_low_window_and_ram() {
    let mut m = Mbc::new(0x03, 128);
    m.write(0x4000, 0x02);
    assert_eq!(m.get_addr(0x0123), 0x0123);
    assert_eq!(m.get_addr(0xA123), 0x0123);
    m.write(0x6000, 0x01);
    assert_eq!(m.get_addr(0x0123), (2 << 19) | 0x0123);
    assert_eq!(m.get_addr(0xA123), (2 << 13) | 0x0123);
}

#[test]
fn no_mbc_maps_identity_and_ignores_control() {
    let mut m = Mbc::new(0x00, 2);
    m.write(0x2000, 0x05);
    assert_eq!(m, Mbc::NoMbc);
    assert_eq!(m.get_addr(0x4567), 0x4567);
}

#[test]
fn mbc1_sram_gated_by_enable() {
    let mut c = Cartridge::new(image(0x8000, 0x03, 0x00, 0x02)).unwrap();
    c.write(0xA010, 0x42);
    assert_eq!(c.read(0xA010), 0xFF);
    c.write(0x0000, 0x0A);
    c.write(0xA010, 0x42);
    assert_eq!(c.read(0xA010), 0x42);
    c.write(0x1000, 0x00);
    assert_eq!(c.read(0xA010), 0xFF);
    c.write(0x0000, 0x1A);
    assert_eq!(c.read(0xA010), 0x42);
}

#[test]
fn cartridge_without_sram_reads_ff() {
    let mut c = Cartridge::new(image(0x8000, 0x00, 0x00, 0x00)).unwrap();
    c.write(0xA000, 0x12);
    assert_eq!(c.read(0xA000), 0xFF);
}
