use vstd::prelude::*;

use crate::constants::{
    BG_DISPLAY_ENABLE, BG_TILE_MAP_SELECT, BG_WINDOW_TILE_DATA_SELECT, LCD_PIXELS, LCD_STAT,
    LCD_WIDTH, LYC_EQ_LY, PPU_ENABLE, VBLANK,
};

verus! {

/// What the PPU is doing on the current line.
#[derive(Clone, Copy, Debug, PartialEq, Eq, Structural)]
pub enum Mode {
    HBlank,
    VBlank,
    OAMScan,
    Drawing,
}

/// The mode number that STAT bits 0-1 show.
pub open spec fn mode_bits(m: Mode) -> u8 {
    match m {
        Mode::HBlank => 0,
        Mode::VBlank => 1,
        Mode::OAMScan => 2,
        Mode::Drawing => 3,
    }
}

/// The PPU's registers and its place in the frame: the mode, the line, and
/// the M-cycles left in the mode. `irq` collects the interrupt lines the PPU
/// raised and that the system has not yet latched into IF.
#[derive(Clone, Copy, Debug, PartialEq, Eq, Structural)]
pub struct PpuRegs {
    pub mode: Mode,
    pub lcdc: u8,
    pub stat: u8,
    pub scy: u8,
    pub scx: u8,
    pub ly: u8,
    pub lyc: u8,
    pub bgp: u8,
    pub obp0: u8,
    pub obp1: u8,
    pub wy: u8,
    pub wx: u8,
    pub cycles: u8,
    pub irq: u8,
}

/// A point of the frame: the mode, the line, and the M-cycles left in the mode.
#[derive(Clone, Copy, Debug, PartialEq, Eq, Structural)]
pub struct Timing {
    pub mode: Mode,
    pub ly: u8,
    pub cycles: u8,
}

/// The point of the frame that lies `d` M-cycles into line `ly`: 20 cycles of
/// OAM scan, 43 of drawing and 51 of horizontal blank on lines 0-143, and 114
/// of vertical blank on lines 144-153.
pub open spec fn at(ly: int, d: int) -> Timing {
    if ly < 144 {
        if d < 20 {
            Timing { mode: Mode::OAMScan, ly: ly as u8, cycles: (20 - d) as u8 }
        } else if d < 63 {
            Timing { mode: Mode::Drawing, ly: ly as u8, cycles: (63 - d) as u8 }
        } else {
            Timing { mode: Mode::HBlank, ly: ly as u8, cycles: (114 - d) as u8 }
        }
    } else {
        Timing { mode: Mode::VBlank, ly: ly as u8, cycles: (114 - d) as u8 }
    }
}

/// The PPU's point in the frame after one M-cycle.
pub open spec fn timing_next(t: Timing) -> Timing {
    if t.cycles > 1 {
        Timing { cycles: (t.cycles - 1) as u8, ..t }
    } else {
        match t.mode {
            Mode::OAMScan => Timing { mode: Mode::Drawing, ly: t.ly, cycles: 43 },
            Mode::Drawing => Timing { mode: Mode::HBlank, ly: t.ly, cycles: 51 },
            Mode::HBlank => if t.ly + 1 < 144 {
                Timing { mode: Mode::OAMScan, ly: (t.ly + 1) as u8, cycles: 20 }
            } else {
                Timing { mode: Mode::VBlank, ly: (t.ly + 1) as u8, cycles: 114 }
            },
            Mode::VBlank => if t.ly + 1 > 153 {
                Timing { mode: Mode::OAMScan, ly: 0, cycles: 20 }
            } else {
                Timing { mode: Mode::VBlank, ly: (t.ly + 1) as u8, cycles: 114 }
            },
        }
    }
}

/// Whether the M-cycle taken from `t` completes a frame.
pub open spec fn frame_done(t: Timing) -> bool {
    t.mode == Mode::VBlank && t.cycles == 1 && t.ly == 153
}

/// The frame point after `n` M-cycles.
pub open spec fn run(t: Timing, n: nat) -> Timing
    decreases n,
{
    if n == 0 {
        t
    } else {
        run(timing_next(t), (n - 1) as nat)
    }
}

/// How many frames complete in `n` M-cycles from `t`.
pub open spec fn frames(t: Timing, n: nat) -> nat
    decreases n,
{
    if n == 0 {
        0
    } else {
        (if frame_done(t) {
            1nat
        } else {
            0nat
        }) + frames(timing_next(t), (n - 1) as nat)
    }
}

pub open spec fn timing_ok(t: Timing) -> bool {
    exists|ly: int, d: int| 0 <= ly <= 153 && 0 <= d < 114 && t == at(ly, d)
}

impl PpuRegs {
    pub open spec fn timing(&self) -> Timing {
        Timing { mode: self.mode, ly: self.ly, cycles: self.cycles }
    }

    pub open spec fn lcd_on(&self) -> bool {
        self.lcdc & PPU_ENABLE == PPU_ENABLE
    }

    /// STAT with bit 2 set exactly when LY equals LYC.
    pub open spec fn stat_with_coincidence(&self) -> u8 {
        if self.ly == self.lyc {
            self.stat | LYC_EQ_LY
        } else {
            self.stat & !LYC_EQ_LY
        }
    }

    /// Recomputes the coincidence bit and raises LCD-STAT when it rises while STAT bit 6 is set.
    pub open spec fn check_lyc(self) -> PpuRegs {
        let rises = self.ly == self.lyc && self.stat & LYC_EQ_LY == 0 && self.stat & 0x40 != 0;
        PpuRegs {
            stat: self.stat_with_coincidence(),
            irq: if rises {
                self.irq | LCD_STAT
            } else {
                self.irq
            },
            ..self
        }
    }

    /// Raises the LCD-STAT line when the STAT bit that selects it is set.
    pub open spec fn raise_if(self, select: u8) -> PpuRegs {
        if self.stat & select != 0 {
            PpuRegs { irq: self.irq | LCD_STAT, ..self }
        } else {
            self
        }
    }

    /// The registers after one M-cycle of an enabled PPU: the frame point
    /// advances; entering HBlank, VBlank or OAM scan raises LCD-STAT when
    /// STAT bit 3, 4 or 5 selects it; entering VBlank raises VBlank; a new
    /// line recomputes the coincidence bit.
    pub open spec fn step(self) -> PpuRegs {
        let t = timing_next(self.timing());
        let moved = PpuRegs { mode: t.mode, ly: t.ly, cycles: t.cycles, ..self };
        if self.cycles > 1 {
            moved
        } else {
            match self.mode {
                Mode::OAMScan => moved,
                Mode::Drawing => moved.raise_if(0x08),
                Mode::HBlank => if t.mode == Mode::OAMScan {
                    moved.raise_if(0x20).check_lyc()
                } else {
                    PpuRegs { irq: moved.irq | VBLANK, ..moved }.raise_if(0x10).check_lyc()
                },
                Mode::VBlank => if t.mode == Mode::OAMScan {
                    moved.raise_if(0x20).check_lyc()
                } else {
                    moved.check_lyc()
                },
            }
        }
    }
}

/// The luminance of background shade 0 to 3.
pub open spec fn shade_luminance(shade: u8) -> u8 {
    if shade == 0 {
        0xFF
    } else if shade == 1 {
        0xAA
    } else if shade == 2 {
        0x55
    } else {
        0x00
    }
}

/// The four luminance values a pixel can take.
pub open spec fn is_luminance(v: u8) -> bool {
    v == 0x00 || v == 0x55 || v == 0xAA || v == 0xFF
}

/// STAT bits 0-1 stay clear in the stored register: writes keep them out and
/// the coincidence bit is bit 2.
proof fn lemma_stat_bits(s: u8, d: u8)
    by (bit_vector)
    requires
        s & 0x03 == 0,
    ensures
        ((s & 0x04) | (d & 0xF8)) & 0x03 == 0,
        (s | 0x04) & 0x03 == 0,
        (s & !0x04u8) & 0x03 == 0,
{
}

/// The pixel processing unit: registers, video RAM, sprite memory and the frame buffer.
pub struct Ppu {
    pub regs: PpuRegs,
    pub vram: Vec<u8>,
    pub oam: Vec<u8>,
    pub buffer: Vec<u8>,
}

/// Addresses that the PPU answers.
pub open spec fn ppu_addr(addr: u16) -> bool {
    (0x8000 <= addr <= 0x9FFF) || (0xFE00 <= addr <= 0xFE9F) || (0xFF40 <= addr <= 0xFF4B)
}

impl Ppu {
    pub open spec fn wf(&self) -> bool {
        &&& self.vram@.len() == 0x2000
        &&& self.oam@.len() == 0xA0
        &&& self.buffer@.len() == LCD_PIXELS
        &&& timing_ok(self.regs.timing())
        &&& !self.regs.lcd_on() ==> self.regs.timing() == at(0, 0)
        &&& self.regs.stat & 0x03 == 0
        &&& forall|i: int| 0 <= i < self.buffer@.len() ==> is_luminance(#[trigger] self.buffer@[i])
    }

    /// Video RAM is closed to the CPU while an enabled PPU draws.
    pub open spec fn vram_locked(&self) -> bool {
        self.regs.lcd_on() && self.regs.mode == Mode::Drawing
    }

    /// Sprite memory is closed to the CPU while an enabled PPU scans or draws.
    pub open spec fn oam_locked(&self) -> bool {
        self.regs.lcd_on() && (self.regs.mode == Mode::OAMScan || self.regs.mode == Mode::Drawing)
    }

    pub open spec fn spec_read(&self, addr: u16) -> u8 {
        let r = self.regs;
        if 0x8000 <= addr <= 0x9FFF {
            if self.vram_locked() {
                0xFF
            } else {
                self.vram@[addr as int - 0x8000]
            }
        } else if 0xFE00 <= addr <= 0xFE9F {
            if self.oam_locked() {
                0xFF
            } else {
                self.oam@[addr as int - 0xFE00]
            }
        } else if addr == 0xFF40 {
            r.lcdc
        } else if addr == 0xFF41 {
            0x80 | r.stat | mode_bits(r.mode)
        } else if addr == 0xFF42 {
            r.scy
        } else if addr == 0xFF43 {
            r.scx
        } else if addr == 0xFF44 {
            r.ly
        } else if addr == 0xFF45 {
            r.lyc
        } else if addr == 0xFF47 {
            r.bgp
        } else if addr == 0xFF48 {
            r.obp0
        } else if addr == 0xFF49 {
            r.obp1
        } else if addr == 0xFF4A {
            r.wy
        } else if addr == 0xFF4B {
            r.wx
        } else {
            0xFF
        }
    }

    /// The registers after a CPU write to an LCD register (0xFF40-0xFF4B).
    pub open spec fn write_regs(r: PpuRegs, addr: u16, val: u8) -> PpuRegs {
        if addr == 0xFF40 {
            if r.lcd_on() && val & PPU_ENABLE == 0 {
                let off = PpuRegs { lcdc: val, mode: Mode::OAMScan, ly: 0, cycles: 20, ..r };
                PpuRegs { stat: off.stat_with_coincidence(), ..off }
            } else {
                PpuRegs { lcdc: val, ..r }
            }
        } else if addr == 0xFF41 {
            PpuRegs { stat: (r.stat & LYC_EQ_LY) | (val & 0xF8), ..r }
        } else if addr == 0xFF42 {
            PpuRegs { scy: val, ..r }
        } else if addr == 0xFF43 {
            PpuRegs { scx: val, ..r }
        } else if addr == 0xFF45 {
            PpuRegs { lyc: val, ..r }.check_lyc()
        } else if addr == 0xFF47 {
            PpuRegs { bgp: val, ..r }
        } else if addr == 0xFF48 {
            PpuRegs { obp0: val, ..r }
        } else if addr == 0xFF49 {
            PpuRegs { obp1: val, ..r }
        } else if addr == 0xFF4A {
            PpuRegs { wy: val, ..r }
        } else if addr == 0xFF4B {
            PpuRegs { wx: val, ..r }
        } else {
            r
        }
    }

    /// The PPU after a CPU write: video RAM and sprite memory take the byte
    /// unless locked; LY and 0xFF46 ignore it.
    pub open spec fn wrote(&self, addr: u16, val: u8, next: &Ppu) -> bool {
        &&& next.buffer@ == self.buffer@
        &&& if 0x8000 <= addr <= 0x9FFF {
            &&& next.regs == self.regs
            &&& next.oam@ == self.oam@
            &&& next.vram@ == if self.vram_locked() {
                self.vram@
            } else {
                self.vram@.update(addr as int - 0x8000, val)
            }
        } else if 0xFE00 <= addr <= 0xFE9F {
            &&& next.regs == self.regs
            &&& next.vram@ == self.vram@
            &&& next.oam@ == if self.oam_locked() {
                self.oam@
            } else {
                self.oam@.update(addr as int - 0xFE00, val)
            }
        } else {
            &&& next.regs == Self::write_regs(self.regs, addr, val)
            &&& next.vram@ == self.vram@
            &&& next.oam@ == self.oam@
        }
    }

    /// The index of the tile that covers background point (`x`, `y`), in
    /// units of 16 bytes from the start of video RAM.
    pub open spec fn tile_index(&self, y: u8, x: u8) -> int {
        let map_base: int = if self.regs.lcdc & BG_TILE_MAP_SELECT != 0 {
            0x1C00
        } else {
            0x1800
        };
        let id = self.vram@[map_base + (y / 8) * 32 + x / 8];
        if self.regs.lcdc & BG_WINDOW_TILE_DATA_SELECT != 0 {
            id as int
        } else {
            0x100 + (id as i8) as int
        }
    }

    /// The two-bit colour number of background point (`x`, `y`).
    pub open spec fn bg_colour(&self, y: u8, x: u8) -> u8 {
        let row = self.tile_index(y, x) * 16 + (y % 8) * 2;
        let low = self.vram@[row];
        let high = self.vram@[row + 1];
        let c = (7 - x % 8) as u8;
        (((high >> c) & 1) * 2 + ((low >> c) & 1)) as u8
    }

    /// The luminance that column `col` of line `ly` shows: the background
    /// point, scrolled by SCX and SCY, through the BGP palette.
    pub open spec fn bg_pixel(&self, ly: u8, col: int) -> u8 {
        let y = ((ly + self.regs.scy) % 256) as u8;
        let x = ((col + self.regs.scx) % 256) as u8;
        let colour = self.bg_colour(y, x);
        shade_luminance((self.regs.bgp >> (2 * colour) as u8) & 3)
    }

    /// The frame buffer after line `ly` is drawn, when the background is enabled.
    pub open spec fn rendered(&self, ly: u8) -> Seq<u8> {
        Seq::new(
            self.buffer@.len(),
            |i: int|
                if ly * 160 <= i < ly * 160 + 160 && self.regs.lcdc & BG_DISPLAY_ENABLE != 0 {
                    self.bg_pixel(ly, i - ly * 160)
                } else {
                    self.buffer@[i]
                },
        )
    }

    /// The registers at power-on.
    pub open spec fn new_regs() -> PpuRegs {
        PpuRegs {
            mode: Mode::OAMScan,
            lcdc: 0,
            stat: 0,
            scy: 0,
            scx: 0,
            ly: 0,
            lyc: 0,
            bgp: 0,
            obp0: 0,
            obp1: 0,
            wy: 0,
            wx: 0,
            cycles: 20,
            irq: 0,
        }
    }

    pub fn new() -> (r: Ppu)
        ensures
            r.wf(),
            r.regs == Ppu::new_regs(),
            forall|i: int| 0 <= i < 0x2000 ==> r.vram@[i] == 0,
            forall|i: int| 0 <= i < 0xA0 ==> r.oam@[i] == 0,
            forall|i: int| 0 <= i < LCD_PIXELS ==> r.buffer@[i] == 0,
    {
        let regs = PpuRegs {
            mode: Mode::OAMScan,
            lcdc: 0,
            stat: 0,
            scy: 0,
            scx: 0,
            ly: 0,
            lyc: 0,
            bgp: 0,
            obp0: 0,
            obp1: 0,
            wy: 0,
            wx: 0,
            cycles: 20,
            irq: 0,
        };
        let r = Ppu {
            regs,
            vram: vec![0u8; 0x2000],
            oam: vec![0u8; 0xA0],
            buffer: vec![0u8; LCD_PIXELS],
        };
        assert(r.regs.timing() == at(0, 0));
        assert(0u8 & 0x03 == 0) by (bit_vector);
        assert forall|i: int| 0 <= i < r.buffer@.len() implies is_luminance(#[trigger] r.buffer@[i]) by {
            assert(r.buffer@[i] == 0);
        }
        r
    }

    pub fn read(&self, addr: u16) -> (r: u8)
        requires
            self.wf(),
            ppu_addr(addr),
        ensures
            r == self.spec_read(addr),
    {
        let on = self.regs.lcdc & PPU_ENABLE == PPU_ENABLE;
        if 0x8000 <= addr && addr <= 0x9FFF {
            if on && self.regs.mode == Mode::Drawing {
                0xFF
            } else {
                self.vram[(addr - 0x8000) as usize]
            }
        } else if 0xFE00 <= addr && addr <= 0xFE9F {
            if on && (self.regs.mode == Mode::OAMScan || self.regs.mode == Mode::Drawing) {
                0xFF
            } else {
                self.oam[(addr - 0xFE00) as usize]
            }
        } else {
            match addr {
                0xFF40 => self.regs.lcdc,
                0xFF41 => {
                    let m: u8 = match self.regs.mode {
                        Mode::HBlank => 0,
                        Mode::VBlank => 1,
                        Mode::OAMScan => 2,
                        Mode::Drawing => 3,
                    };
                    0x80 | self.regs.stat | m
                },
                0xFF42 => self.regs.scy,
                0xFF43 => self.regs.scx,
                0xFF44 => self.regs.ly,
                0xFF45 => self.regs.lyc,
                0xFF47 => self.regs.bgp,
                0xFF48 => self.regs.obp0,
                0xFF49 => self.regs.obp1,
                0xFF4A => self.regs.wy,
                0xFF4B => self.regs.wx,
                _ => 0xFF,
            }
        }
    }

    pub fn write(&mut self, addr: u16, data: u8)
        requires
            old(self).wf(),
            ppu_addr(addr),
        ensures
            final(self).wf(),
            old(self).wrote(addr, data, final(self)),
    {
        let on = self.regs.lcdc & PPU_ENABLE == PPU_ENABLE;
        proof {
            lemma_u8_parts(self.regs.lcdc);
            lemma_u8_parts(data);
            lemma_stat_bits(self.regs.stat, data);
        }
        if 0x8000 <= addr && addr <= 0x9FFF {
            if !(on && self.regs.mode == Mode::Drawing) {
                self.vram.set((addr - 0x8000) as usize, data);
            }
        } else if 0xFE00 <= addr && addr <= 0xFE9F {
            if !(on && (self.regs.mode == Mode::OAMScan || self.regs.mode == Mode::Drawing)) {
                self.oam.set((addr - 0xFE00) as usize, data);
            }
        } else {
            match addr {
                0xFF40 => {
                    if on && data & PPU_ENABLE == 0 {
                        self.regs.mode = Mode::OAMScan;
                        self.regs.ly = 0;
                        self.regs.cycles = 20;
                        self.regs.lcdc = data;
                        self.set_coincidence();
                    } else {
                        self.regs.lcdc = data;
                    }
                    assert(self.regs.timing() == at(0, 0) || self.regs.timing()
                        == old(self).regs.timing());
                },
                0xFF41 => self.regs.stat = (self.regs.stat & LYC_EQ_LY) | (data & 0xF8),
                0xFF42 => self.regs.scy = data,
                0xFF43 => self.regs.scx = data,
                0xFF45 => {
                    self.regs.lyc = data;
                    self.check_lyc_eq_ly();
                },
                0xFF47 => self.regs.bgp = data,
                0xFF48 => self.regs.obp0 = data,
                0xFF49 => self.regs.obp1 = data,
                0xFF4A => self.regs.wy = data,
                0xFF4B => self.regs.wx = data,
                _ => {},
            }
        }
    }

    fn set_coincidence(&mut self)
        ensures
            final(self).regs == (PpuRegs {
                stat: old(self).regs.stat_with_coincidence(),
                ..old(self).regs
            }),
            final(self).vram == old(self).vram,
            final(self).oam == old(self).oam,
            final(self).buffer == old(self).buffer,
            old(self).regs.stat & 0x03 == 0 ==> final(self).regs.stat & 0x03 == 0,
    {
        proof {
            if self.regs.stat & 0x03 == 0 {
                lemma_stat_bits(self.regs.stat, 0);
            }
        }
        if self.regs.ly == self.regs.lyc {
            self.regs.stat = self.regs.stat | LYC_EQ_LY;
        } else {
            self.regs.stat = self.regs.stat & !LYC_EQ_LY;
        }
    }

    fn check_lyc_eq_ly(&mut self)
        ensures
            final(self).regs == old(self).regs.check_lyc(),
            final(self).vram == old(self).vram,
            final(self).oam == old(self).oam,
            final(self).buffer == old(self).buffer,
            old(self).regs.stat & 0x03 == 0 ==> final(self).regs.stat & 0x03 == 0,
    {
        if self.regs.ly == self.regs.lyc && self.regs.stat & LYC_EQ_LY == 0 && self.regs.stat
            & 0x40 != 0 {
            self.regs.irq = self.regs.irq | LCD_STAT;
        }
        self.set_coincidence();
    }

    fn raise_stat_if(&mut self, select: u8)
        ensures
            final(self).regs == old(self).regs.raise_if(select),
            final(self).vram == old(self).vram,
            final(self).oam == old(self).oam,
            final(self).buffer == old(self).buffer,
    {
        if self.regs.stat & select != 0 {
            self.regs.irq = self.regs.irq | LCD_STAT;
        }
    }

    /// The index, in 16-byte units from the start of video RAM, of the tile
    /// at tile-map position (`x`, `y`).
    fn get_tile_idx_from_tile_map(&self, tile_map: bool, y: u8, x: u8) -> (r: usize)
        requires
            self.wf(),
            y < 32,
            x < 32,
        ensures
            r < 0x180,
            forall|py: u8, px: u8|
                py / 8 == y && px / 8 == x && tile_map == (self.regs.lcdc & BG_TILE_MAP_SELECT
                    != 0) ==> #[trigger] self.tile_index(py, px) == r,
    {
        let base: usize = if tile_map {
            0x1C00
        } else {
            0x1800
        };
        let id = self.vram[base + (y as usize) * 32 + (x as usize)];
        if self.regs.lcdc & BG_WINDOW_TILE_DATA_SELECT != 0 {
            id as usize
        } else {
            ((id as i8) as i16 + 0x100) as usize
        }
    }

    /// The colour number of pixel (`x`, `y`) of tile `tile_ind`.
    fn get_pixel_from_tile(&self, tile_ind: usize, y: u8, x: u8) -> (r: u8)
        requires
            self.wf(),
            tile_ind < 0x180,
            y < 8,
            x < 8,
        ensures
            r <= 3,
            r == (((self.vram@[tile_ind * 16 + y * 2 + 1] >> (7 - x) as u8) & 1) * 2 + ((
            self.vram@[tile_ind * 16 + y * 2] >> (7 - x) as u8) & 1)) as u8,
    {
        let row = tile_ind * 16 + (y as usize) * 2;
        let c = 7 - x;
        let low = self.vram[row];
        let high = self.vram[row + 1];
        proof {
            lemma_u8_parts(high >> c);
            lemma_u8_parts(low >> c);
        }
        ((high >> c) & 1) * 2 + ((low >> c) & 1)
    }

    /// Draws line LY of the background into the frame buffer, when the background is enabled.
    #[verifier::rlimit(40)]
    fn render(&mut self)
        requires
            old(self).wf(),
            old(self).regs.ly < 144,
        ensures
            final(self).wf(),
            final(self).regs == old(self).regs,
            final(self).vram == old(self).vram,
            final(self).oam == old(self).oam,
            final(self).buffer@ == old(self).rendered(old(self).regs.ly),
    {
        if self.regs.lcdc & BG_DISPLAY_ENABLE == 0 {
            assert(self.buffer@ =~= old(self).rendered(old(self).regs.ly));
            return ;
        }
        let ly = self.regs.ly;
        let y = ly.wrapping_add(self.regs.scy);
        let tile_map = self.regs.lcdc & BG_TILE_MAP_SELECT != 0;
        proof {
            lemma_u8_parts(y);
        }
        let mut i: usize = 0;
        while i < LCD_WIDTH
            invariant
                0 <= i <= LCD_WIDTH,
                ly == old(self).regs.ly,
                ly < 144,
                y == ((ly + old(self).regs.scy) % 256) as u8,
                y >> 3 == y / 8,
                y & 7 == y % 8,
                tile_map == (old(self).regs.lcdc & BG_TILE_MAP_SELECT != 0),
                old(self).regs.lcdc & BG_DISPLAY_ENABLE != 0,
                self.wf(),
                self.regs == old(self).regs,
                self.vram == old(self).vram,
                self.oam == old(self).oam,
                self.buffer@.len() == old(self).buffer@.len(),
                forall|j: int| 0 <= j < self.buffer@.len() ==> is_luminance(#[trigger] self.buffer@[j]),
                forall|j: int|
                    0 <= j < self.buffer@.len() ==> #[trigger] self.buffer@[j] == if ly * 160 <= j
                        < ly * 160 + i {
                        old(self).bg_pixel(ly, j - ly * 160)
                    } else {
                        old(self).buffer@[j]
                    },
            decreases LCD_WIDTH - i,
        {
            let x = (i as u8).wrapping_add(self.regs.scx);
            proof {
                lemma_u8_parts(x);
            }
            let tile = self.get_tile_idx_from_tile_map(tile_map, y >> 3, x >> 3);
            let pixel = self.get_pixel_from_tile(tile, y & 7, x & 7);
            let shade = (self.regs.bgp >> (pixel * 2)) & 3;
            let lum: u8 = if shade == 0 {
                0xFF
            } else if shade == 1 {
                0xAA
            } else if shade == 2 {
                0x55
            } else {
                0x00
            };
            proof {
                assert(self.tile_index(y, x) == tile);
                assert(lum == old(self).bg_pixel(ly, i as int));
            }
            self.buffer.set(ly as usize * LCD_WIDTH + i, lum);
            i = i + 1;
        }
        assert(self.buffer@ =~= old(self).rendered(old(self).regs.ly));
    }

    /// Advances the PPU by one M-cycle; returns whether a frame was completed.
    pub fn emu(&mut self) -> (r: bool)
        requires
            old(self).wf(),
        ensures
            final(self).wf(),
            final(self).vram == old(self).vram,
            final(self).oam == old(self).oam,
            !old(self).regs.lcd_on() ==> !r && final(self).regs == old(self).regs,
            !old(self).regs.lcd_on() ==> final(self).buffer == old(self).buffer,
            old(self).regs.lcd_on() ==> {
                &&& r == frame_done(old(self).regs.timing())
                &&& final(self).regs == old(self).regs.step()
                &&& final(self).regs.timing() == timing_next(old(self).regs.timing())
                &&& final(self).buffer@ == if old(self).regs.mode == Mode::OAMScan
                    && old(self).regs.cycles == 1 {
                    old(self).rendered(old(self).regs.ly)
                } else {
                    old(self).buffer@
                }
            },
    {
        proof {
            lemma_u8_parts(self.regs.lcdc);
        }
        if self.regs.lcdc & PPU_ENABLE == 0 {
            return false;
        }
        proof {
            lemma_timing_ok_next(self.regs.timing());
            let (ly, d) = choose|ly: int, d: int|
                0 <= ly <= 153 && 0 <= d < 114 && self.regs.timing() == at(ly, d);
            lemma_at_next(ly, d);
        }
        if self.regs.cycles > 1 {
            self.regs.cycles = self.regs.cycles - 1;
            return false;
        }
        match self.regs.mode {
            Mode::OAMScan => {
                self.render();
                self.regs.mode = Mode::Drawing;
                self.regs.cycles = 43;
                false
            },
            Mode::Drawing => {
                self.regs.mode = Mode::HBlank;
                self.regs.cycles = 51;
                self.raise_stat_if(0x08);
                false
            },
            Mode::HBlank => {
                self.regs.ly = self.regs.ly + 1;
                if self.regs.ly < 144 {
                    self.regs.mode = Mode::OAMScan;
                    self.regs.cycles = 20;
                    self.raise_stat_if(0x20);
                } else {
                    self.regs.mode = Mode::VBlank;
                    self.regs.cycles = 114;
                    self.regs.irq = self.regs.irq | VBLANK;
                    self.raise_stat_if(0x10);
                }
                self.check_lyc_eq_ly();
                false
            },
            Mode::VBlank => {
                if self.regs.ly >= 153 {
                    self.regs.ly = 0;
                    self.regs.mode = Mode::OAMScan;
                    self.regs.cycles = 20;
                    self.raise_stat_if(0x20);
                    self.check_lyc_eq_ly();
                    true
                } else {
                    self.regs.ly = self.regs.ly + 1;
                    self.regs.cycles = 114;
                    self.check_lyc_eq_ly();
                    false
                }
            },
        }
    }

    /// A copy of the frame buffer: 160 x 144 luminance bytes, row by row.
    pub fn pixel_buffer(&self) -> (r: Vec<u8>)
        ensures
            r@ == self.buffer@,
    {
        let r = self.buffer.clone();
        assert(r@ =~= self.buffer@);
        r
    }

    /// Hands over the interrupt lines raised since the last call, and clears them.
    pub fn take_irq(&mut self) -> (r: u8)
        ensures
            r == old(self).regs.irq,
            final(self).regs == (PpuRegs { irq: 0, ..old(self).regs }),
            final(self).vram == old(self).vram,
            final(self).oam == old(self).oam,
            final(self).buffer == old(self).buffer,
    {
        let r = self.regs.irq;
        self.regs.irq = 0;
        r
    }
}


proof fn lemma_u8_parts(v: u8)
    by (bit_vector)
    ensures
        v >> 3 == v / 8,
        v & 7 == v % 8,
        v & 1 <= 1,
        v & 3 <= 3,
        (v & 0x80 == 0) == (v & 0x80 != 0x80),
{
}

/// One M-cycle moves a frame point one cycle on in its line, or to the
/// start of the next line, or from the last cycle of line 153 back to the
/// start of line 0; only that last step completes a frame.
pub proof fn lemma_at_next(ly: int, d: int)
    requires
        0 <= ly <= 153,
        0 <= d < 114,
    ensures
        timing_next(at(ly, d)) == if d < 113 {
            at(ly, d + 1)
        } else if ly < 153 {
            at(ly + 1, 0)
        } else {
            at(0, 0)
        },
        frame_done(at(ly, d)) <==> (ly == 153 && d == 113),
{
}

/// A valid frame point stays valid after an M-cycle.
pub proof fn lemma_timing_ok_next(t: Timing)
    requires
        timing_ok(t),
    ensures
        timing_ok(timing_next(t)),
{
    let (ly, d) = choose|ly: int, d: int| 0 <= ly <= 153 && 0 <= d < 114 && t == at(ly, d);
    lemma_at_next(ly, d);
    if d < 113 {
        assert(timing_next(t) == at(ly, d + 1));
    } else if ly < 153 {
        assert(timing_next(t) == at(ly + 1, 0));
    } else {
        assert(timing_next(t) == at(0, 0));
    }
}

proof fn lemma_run_split(t: Timing, a: nat, b: nat)
    ensures
        run(t, a + b) == run(run(t, a), b),
        frames(t, a + b) == frames(t, a) + frames(run(t, a), b),
    decreases a,
{
    if a > 0 {
        lemma_run_split(timing_next(t), (a - 1) as nat, b);
        assert((a + b - 1) as nat == (a - 1) as nat + b);
    }
}

/// Within a line, `k` M-cycles move `k` cycles on and complete no frame.
proof fn lemma_within_line(ly: int, d: int, k: nat)
    requires
        0 <= ly <= 153,
        0 <= d,
        d + k <= 113,
    ensures
        run(at(ly, d), k) == at(ly, d + k),
        frames(at(ly, d), k) == 0,
    decreases k,
{
    if k > 0 {
        lemma_at_next(ly, d);
        lemma_within_line(ly, d + 1, (k - 1) as nat);
    }
}

/// A line lasts exactly 114 M-cycles: from the start of line `ly`, LY keeps
/// its value for 113 M-cycles and the 114th reaches the start of the next
/// line (line 0 after line 153); only the line that ends at 153 completes a frame.
pub proof fn lemma_line_length(ly: int)
    requires
        0 <= ly <= 153,
    ensures
        forall|k: nat| k < 114 ==> #[trigger] run(at(ly, 0), k).ly == ly,
        run(at(ly, 0), 114) == if ly < 153 {
            at(ly + 1, 0)
        } else {
            at(0, 0)
        },
        frames(at(ly, 0), 114) == if ly == 153 {
            1nat
        } else {
            0nat
        },
{
    assert forall|k: nat| k < 114 implies #[trigger] run(at(ly, 0), k).ly == ly by {
        lemma_within_line(ly, 0, k);
    }
    lemma_within_line(ly, 0, 113);
    lemma_run_split(at(ly, 0), 113, 1);
    lemma_at_next(ly, 113);
    assert(run(at(ly, 113), 1) == run(timing_next(at(ly, 113)), 0));
    assert(frames(at(ly, 113), 1) == (if frame_done(at(ly, 113)) {
        1nat
    } else {
        0nat
    }) + frames(timing_next(at(ly, 113)), 0));
}

proof fn lemma_lines(m: nat)
    requires
        m <= 153,
    ensures
        run(at(0, 0), 114 * m) == at(m as int, 0),
        frames(at(0, 0), 114 * m) == 0,
    decreases m,
{
    if m > 0 {
        let p = (m - 1) as nat;
        lemma_lines(p);
        lemma_run_split(at(0, 0), 114 * p, 114);
        lemma_line_length(p as int);
        assert(114 * p + 114 == 114 * m);
    }
}

/// A frame lasts exactly 114 x 154 M-cycles: from the start of line 0 the PPU
/// comes back to the start of line 0 and completes exactly one frame.
pub proof fn lemma_frame_length()
    ensures
        run(at(0, 0), 114 * 154) == at(0, 0),
        frames(at(0, 0), 114 * 154) == 1,
{
    lemma_lines(153);
    lemma_run_split(at(0, 0), 114 * 153, 114);
    lemma_line_length(153);
}


/// Turning the LCD off (LCDC bit 7 from 1 to 0): LY reads 0 at once, the PPU
/// rests at the start of line 0, and no interrupt line is raised.
pub proof fn lemma_lcd_off(before: Ppu, val: u8, after: Ppu)
    requires
        before.regs.lcd_on(),
        val & PPU_ENABLE == 0,
        before.wrote(0xFF40, val, &after),
    ensures
        !after.regs.lcd_on(),
        after.spec_read(0xFF44) == 0,
        after.regs.timing() == at(0, 0),
        after.regs.irq == before.regs.irq,
{
}

/// The registers after `n` M-cycles of an enabled PPU.
pub open spec fn steps(r: PpuRegs, n: nat) -> PpuRegs
    decreases n,
{
    if n == 0 {
        r
    } else {
        steps(r.step(), (n - 1) as nat)
    }
}

/// `Ppu::emu` moves the frame point as the timing model does, so `n` calls
/// on an enabled PPU reach `run(timing, n)`: by `lemma_line_length` and
/// `lemma_frame_length`, a line of 114 calls and a frame of 114 x 154.
pub proof fn lemma_steps_timing(r: PpuRegs, n: nat)
    ensures
        steps(r, n).timing() == run(r.timing(), n),
    decreases n,
{
    if n > 0 {
        lemma_steps_timing(r.step(), (n - 1) as nat);
    }
}

} // verus!
