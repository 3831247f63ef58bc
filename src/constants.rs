use vstd::prelude::*;

verus! {

/// LCDC bit 7: the display and the PPU run.
pub const PPU_ENABLE: u8 = 0x80;

/// LCDC bit 4: background tiles are addressed from 0x8000 with unsigned indices.
pub const BG_WINDOW_TILE_DATA_SELECT: u8 = 0x10;

/// LCDC bit 3: the background tile map starts at 0x9C00 instead of 0x9800.
pub const BG_TILE_MAP_SELECT: u8 = 0x08;

/// LCDC bit 0: the background is drawn.
pub const BG_DISPLAY_ENABLE: u8 = 0x01;

/// STAT bit 2: LY equals LYC.
pub const LYC_EQ_LY: u8 = 0x04;

pub const LCD_WIDTH: usize = 160;

pub const LCD_HEIGHT: usize = 144;

pub const LCD_PIXELS: usize = 23040;

/// Nanoseconds in one M-cycle (four clocks of the 4.194304 MHz master clock), rounded down.
pub const M_CYCLE_NANOS: u64 = 953;

/// Interrupt sources, as bits of IE and IF.
pub const VBLANK: u8 = 0x01;

pub const LCD_STAT: u8 = 0x02;

pub const TIMER: u8 = 0x04;

pub const SERIAL: u8 = 0x08;

pub const JOYPAD: u8 = 0x10;

} // verus!
