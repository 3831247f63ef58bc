use vstd::prelude::*;

use crate::mbc::{mapped, supported_type, Mbc};

verus! {

/// Why a cartridge image cannot be loaded.
#[derive(Clone, Copy, Debug, PartialEq, Eq, Structural)]
pub enum CartridgeError {
    /// The image ends before the header does (0x150 bytes).
    TooShort,
    /// The header checksum at 0x14D disagrees with the one computed over 0x134-0x14C.
    ChecksumMismatch { stored: u8, computed: u8 },
    /// The cartridge type at 0x147 names a controller that is not supported.
    UnsupportedType(u8),
    /// The ROM size code at 0x148 is above 0x08.
    InvalidRomSize(u8),
    /// The RAM size code at 0x149 is above 0x05.
    InvalidSramSize(u8),
}

/// The header checksum over bytes 0x134 up to (not including) `end`:
/// each byte `b` adds `-b - 1`, modulo 256.
pub open spec fn checksum_upto(rom: Seq<u8>, end: int) -> int
    decreases end - 0x134,
{
    if end <= 0x134 {
        0
    } else {
        (checksum_upto(rom, end - 1) - rom[end - 1] - 1) % 256
    }
}

/// The checksum that byte 0x14D must hold.
pub open spec fn header_checksum(rom: Seq<u8>) -> u8 {
    checksum_upto(rom, 0x14D) as u8
}

/// ROM bytes for a size code: `1 << (15 + code)`.
pub open spec fn rom_bytes(code: u8) -> usize {
    1usize << (15 + code) as usize
}

/// External RAM bytes for a size code.
pub open spec fn sram_bytes(code: u8) -> usize {
    if code == 0x00 {
        0
    } else if code == 0x01 {
        0x800
    } else if code == 0x02 {
        0x2000
    } else if code == 0x03 {
        0x8000
    } else if code == 0x04 {
        0x20000
    } else {
        0x10000
    }
}

/// The first check, in the order they are made, that an image fails.
pub open spec fn load_error(rom: Seq<u8>) -> Option<CartridgeError> {
    if rom.len() < 0x150 {
        Some(CartridgeError::TooShort)
    } else if header_checksum(rom) != rom[0x14D] {
        Some(CartridgeError::ChecksumMismatch { stored: rom[0x14D], computed: header_checksum(rom) })
    } else if rom[0x148] > 0x08 {
        Some(CartridgeError::InvalidRomSize(rom[0x148]))
    } else if rom[0x149] > 0x05 {
        Some(CartridgeError::InvalidSramSize(rom[0x149]))
    } else if !supported_type(rom[0x147]) {
        Some(CartridgeError::UnsupportedType(rom[0x147]))
    } else {
        None
    }
}

proof fn lemma_mask_below(x: usize, m: usize)
    by (bit_vector)
    ensures
        x & m <= m,
{
}

proof fn lemma_rom_banks(code: u8)
    by (bit_vector)
    requires
        code <= 8,
    ensures
        (1usize << (15 + code) as usize) >> 14usize >= 2,
        (1usize << (15 + code) as usize) >> 14usize <= 512,
{
}

/// The fields of the cartridge header (0x100-0x14F) that loading uses.
#[derive(Debug)]
pub struct Header {
    pub title: Vec<u8>,
    pub cartridge_type: u8,
    pub rom_size: u8,
    pub sram_size: u8,
    pub header_checksum: u8,
}

impl Header {
    /// Reads the header by offset and checks its checksum.
    pub fn new(rom: &Vec<u8>) -> (r: Result<Header, CartridgeError>)
        ensures
            rom@.len() < 0x150 ==> r == Err::<Header, CartridgeError>(CartridgeError::TooShort),
            rom@.len() >= 0x150 && header_checksum(rom@) != rom@[0x14D] ==> r == Err::<
                Header,
                CartridgeError,
            >(CartridgeError::ChecksumMismatch {
                stored: rom@[0x14D],
                computed: header_checksum(rom@),
            }),
            r is Ok <==> rom@.len() >= 0x150 && header_checksum(rom@) == rom@[0x14D],
            r matches Ok(h) ==> {
                &&& h.title@ == rom@.subrange(0x134, 0x13F)
                &&& h.cartridge_type == rom@[0x147]
                &&& h.rom_size == rom@[0x148]
                &&& h.sram_size == rom@[0x149]
                &&& h.header_checksum == rom@[0x14D]
            },
    {
        if rom.len() < 0x150 {
            return Err(CartridgeError::TooShort);
        }
        let mut chksum: u8 = 0;
        let mut i: usize = 0x134;
        while i <= 0x14C
            invariant
                rom@.len() >= 0x150,
                0x134 <= i <= 0x14D,
                chksum as int == checksum_upto(rom@, i as int),
            decreases 0x14D - i,
        {
            chksum = chksum.wrapping_sub(rom[i]).wrapping_sub(1);
            i = i + 1;
        }
        let stored = rom[0x14D];
        if chksum != stored {
            return Err(CartridgeError::ChecksumMismatch { stored, computed: chksum });
        }
        let mut title: Vec<u8> = Vec::new();
        let mut j: usize = 0x134;
        while j < 0x13F
            invariant
                rom@.len() >= 0x150,
                0x134 <= j <= 0x13F,
                title@ == rom@.subrange(0x134, j as int),
            decreases 0x13F - j,
        {
            title.push(rom[j]);
            j = j + 1;
            assert(title@ =~= rom@.subrange(0x134, j as int));
        }
        Ok(
            Header {
                title,
                cartridge_type: rom[0x147],
                rom_size: rom[0x148],
                sram_size: rom[0x149],
                header_checksum: stored,
            },
        )
    }

    pub fn rom_size(&self) -> (r: Result<usize, CartridgeError>)
        ensures
            self.rom_size <= 0x08 ==> r == Ok::<usize, CartridgeError>(rom_bytes(self.rom_size)),
            self.rom_size > 0x08 ==> r == Err::<usize, CartridgeError>(
                CartridgeError::InvalidRomSize(self.rom_size),
            ),
    {
        if self.rom_size > 0x08 {
            Err(CartridgeError::InvalidRomSize(self.rom_size))
        } else {
            Ok(1usize << (15 + self.rom_size) as usize)
        }
    }

    pub fn sram_size(&self) -> (r: Result<usize, CartridgeError>)
        ensures
            self.sram_size <= 0x05 ==> r == Ok::<usize, CartridgeError>(sram_bytes(self.sram_size)),
            self.sram_size > 0x05 ==> r == Err::<usize, CartridgeError>(
                CartridgeError::InvalidSramSize(self.sram_size),
            ),
    {
        match self.sram_size {
            0x00 => Ok(0),
            0x01 => Ok(0x800),
            0x02 => Ok(0x2000),
            0x03 => Ok(0x8000),
            0x04 => Ok(0x20000),
            0x05 => Ok(0x10000),
            _ => Err(CartridgeError::InvalidSramSize(self.sram_size)),
        }
    }
}

/// A cartridge: its ROM image, its external RAM and its bank controller.
pub struct Cartridge {
    pub rom: Vec<u8>,
    pub sram: Vec<u8>,
    pub mbc: Mbc,
}

impl Cartridge {
    pub open spec fn wf(&self) -> bool {
        &&& self.rom@.len() > 0
        &&& self.mbc.wf()
    }

    /// Where a ROM address lands in the image: the translated offset masked to its size.
    pub open spec fn rom_index(&self, addr: u16) -> int {
        (self.mbc.spec_get_addr(addr) & (self.rom@.len() - 1) as usize) as int
    }

    /// Where an external RAM address lands in the RAM.
    pub open spec fn sram_index(&self, addr: u16) -> int {
        (self.mbc.spec_get_addr(addr) & (self.sram@.len() - 1) as usize) as int
    }

    /// Whether external RAM is present and, for MBC1, switched on.
    pub open spec fn sram_open(&self) -> bool {
        self.sram@.len() > 0 && match self.mbc {
            Mbc::NoMbc => true,
            Mbc::Mbc1 { sram_enable, .. } => sram_enable,
        }
    }

    /// What a read of a ROM or external RAM address returns.
    pub open spec fn spec_read(&self, addr: u16) -> u8 {
        if addr <= 0x7FFF {
            self.rom@[self.rom_index(addr)]
        } else if self.sram_open() {
            self.sram@[self.sram_index(addr)]
        } else {
            0xFF
        }
    }

    /// The cartridge after a write: a control write for addresses up to
    /// 0x7FFF, else a RAM write that lands only while RAM is open.
    pub open spec fn wrote(&self, addr: u16, val: u8, next: &Cartridge) -> bool {
        &&& next.rom@ == self.rom@
        &&& if addr <= 0x7FFF {
            next.mbc == self.mbc.spec_write(addr, val) && next.sram@ == self.sram@
        } else {
            &&& next.mbc == self.mbc
            &&& next.sram@ == if self.sram_open() {
                self.sram@.update(self.sram_index(addr), val)
            } else {
                self.sram@
            }
        }
    }

    /// Checks the header, then builds the controller that it names, with zeroed external RAM.
    pub fn new(rom: Vec<u8>) -> (r: Result<Cartridge, CartridgeError>)
        ensures
            r is Err <==> load_error(rom@) is Some,
            r matches Err(e) ==> load_error(rom@) == Some(e),
            r matches Ok(c) ==> {
                &&& c.wf()
                &&& c.rom@ == rom@
                &&& c.sram@.len() == sram_bytes(rom@[0x149])
                &&& forall|i: int| 0 <= i < c.sram@.len() ==> c.sram@[i] == 0
                &&& c.mbc == Mbc::new_spec(rom@[0x147], rom_bytes(rom@[0x148]) >> 14usize)
            },
    {
        let header = match Header::new(&rom) {
            Ok(h) => h,
            Err(e) => {
                return Err(e);
            },
        };
        let rom_size = match header.rom_size() {
            Ok(n) => n,
            Err(e) => {
                return Err(e);
            },
        };
        let sram_size = match header.sram_size() {
            Ok(n) => n,
            Err(e) => {
                return Err(e);
            },
        };
        let cartridge_type = header.cartridge_type;
        if !(cartridge_type == 0x00 || cartridge_type == 0x08 || cartridge_type == 0x09 || (0x01
            <= cartridge_type && cartridge_type <= 0x03)) {
            return Err(CartridgeError::UnsupportedType(cartridge_type));
        }
        proof {
            lemma_rom_banks(header.rom_size);
        }
        let rom_banks = rom_size >> 14usize;
        let mbc = Mbc::new(cartridge_type, rom_banks);
        Ok(Cartridge { rom, sram: vec![0u8; sram_size], mbc })
    }

    pub fn read(&self, addr: u16) -> (r: u8)
        requires
            self.wf(),
            mapped(addr),
        ensures
            r == self.spec_read(addr),
    {
        if addr <= 0x7FFF {
            let a = self.mbc.get_addr(addr);
            proof {
                lemma_mask_below(a, (self.rom@.len() - 1) as usize);
            }
            self.rom[a & (self.rom.len() - 1)]
        } else {
            if self.sram.len() == 0 {
                return 0xFF;
            }
            let open = match self.mbc {
                Mbc::NoMbc => true,
                Mbc::Mbc1 { sram_enable, .. } => sram_enable,
            };
            if open {
                let a = self.mbc.get_addr(addr);
                proof {
                    lemma_mask_below(a, (self.sram@.len() - 1) as usize);
                }
                self.sram[a & (self.sram.len() - 1)]
            } else {
                0xFF
            }
        }
    }

    pub fn write(&mut self, addr: u16, val: u8)
        requires
            old(self).wf(),
            mapped(addr),
        ensures
            final(self).wf(),
            old(self).wrote(addr, val, final(self)),
    {
        if addr <= 0x7FFF {
            self.mbc.write(addr, val);
        } else {
            if self.sram.len() == 0 {
                return ;
            }
            let open = match self.mbc {
                Mbc::NoMbc => true,
                Mbc::Mbc1 { sram_enable, .. } => sram_enable,
            };
            if open {
                let a = self.mbc.get_addr(addr);
                proof {
                    lemma_mask_below(a, (self.sram@.len() - 1) as usize);
                }
                let i = a & (self.sram.len() - 1);
                self.sram.set(i, val);
            }
        }
    }
}

} // verus!
