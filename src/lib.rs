//! A cycle-stepped emulator core for the original handheld console: the
//! LR35902 processor, advanced one M-cycle at a time with at most one bus
//! access per M-cycle; the memory bus and its map; the MBC1 bank controller;
//! and the PPU's scanline machine with its background renderer.

pub mod bits;
pub mod bootrom;
pub mod cartridge;
pub mod constants;
pub mod cpu;
pub mod gameboy;
pub mod hram;
pub mod mbc;
pub mod mem;
pub mod ppu;
pub mod wram;
