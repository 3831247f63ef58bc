use vstd::prelude::*;

verus! {

/// The memory-bank controller of a cartridge.
#[derive(Clone, Copy, Debug, PartialEq, Eq, Structural)]
pub enum Mbc {
    NoMbc,
    Mbc1 { sram_enable: bool, low_bank: usize, high_bank: usize, bank_mode: bool, rom_banks: usize },
}

/// Cartridge type codes (header byte 0x147) that this controller model supports.
pub open spec fn supported_type(cartridge_type: u8) -> bool {
    cartridge_type == 0x00 || cartridge_type == 0x08 || cartridge_type == 0x09 || (0x01
        <= cartridge_type <= 0x03)
}

/// Addresses that the controller translates: ROM and external RAM.
pub open spec fn mapped(addr: u16) -> bool {
    addr <= 0x7FFF || (0xA000 <= addr <= 0xBFFF)
}

impl Mbc {
    /// MBC1's low bank register holds 1 to 31, its high bank register 0 to 3.
    pub open spec fn wf(&self) -> bool {
        match *self {
            Mbc::NoMbc => true,
            Mbc::Mbc1 { low_bank, high_bank, rom_banks, .. } => 1 <= low_bank <= 31 && high_bank
                <= 3 && rom_banks >= 1,
        }
    }

    /// The controller after a control write (to 0x0000-0x7FFF).
    pub open spec fn spec_write(self, addr: u16, val: u8) -> Mbc {
        match self {
            Mbc::NoMbc => Mbc::NoMbc,
            Mbc::Mbc1 { sram_enable, low_bank, high_bank, bank_mode, rom_banks } => {
                if addr <= 0x1FFF {
                    Mbc::Mbc1 {
                        sram_enable: val & 0x0F == 0x0A,
                        low_bank,
                        high_bank,
                        bank_mode,
                        rom_banks,
                    }
                } else if addr <= 0x3FFF {
                    Mbc::Mbc1 {
                        sram_enable,
                        low_bank: if val & 0x1F == 0 {
                            1
                        } else {
                            (val & 0x1F) as usize
                        },
                        high_bank,
                        bank_mode,
                        rom_banks,
                    }
                } else if addr <= 0x5FFF {
                    Mbc::Mbc1 {
                        sram_enable,
                        low_bank,
                        high_bank: (val & 0x03) as usize,
                        bank_mode,
                        rom_banks,
                    }
                } else {
                    Mbc::Mbc1 { sram_enable, low_bank, high_bank, bank_mode: val & 1 != 0, rom_banks }
                }
            },
        }
    }

    /// The byte offset, in ROM or in external RAM, that an address maps to.
    pub open spec fn spec_get_addr(self, addr: u16) -> usize {
        match self {
            Mbc::NoMbc => addr as usize,
            Mbc::Mbc1 { low_bank, high_bank, bank_mode, rom_banks, .. } => {
                if addr <= 0x3FFF {
                    if bank_mode {
                        (high_bank << 19usize) | ((addr & 0x3FFF) as usize)
                    } else {
                        (addr & 0x3FFF) as usize
                    }
                } else if addr <= 0x7FFF {
                    (high_bank << 19usize) | ((low_bank & (rom_banks - 1) as usize) << 14usize) | ((
                    addr & 0x3FFF) as usize)
                } else if bank_mode {
                    (high_bank << 13usize) | ((addr & 0x1FFF) as usize)
                } else {
                    (addr & 0x1FFF) as usize
                }
            },
        }
    }

    /// The controller that a cartridge type names, in its power-on state.
    pub open spec fn new_spec(cartridge_type: u8, rom_banks: usize) -> Mbc {
        if 0x01 <= cartridge_type <= 0x03 {
            Mbc::Mbc1 { sram_enable: false, low_bank: 1, high_bank: 0, bank_mode: false, rom_banks }
        } else {
            Mbc::NoMbc
        }
    }

    pub fn new(cartridge_type: u8, rom_banks: usize) -> (r: Mbc)
        requires
            supported_type(cartridge_type),
            rom_banks >= 1,
        ensures
            r.wf(),
            r == Mbc::new_spec(cartridge_type, rom_banks),
    {
        if cartridge_type == 0x00 || cartridge_type == 0x08 || cartridge_type == 0x09 {
            Mbc::NoMbc
        } else {
            Mbc::Mbc1 { sram_enable: false, low_bank: 1, high_bank: 0, bank_mode: false, rom_banks }
        }
    }

    /// A write to 0x0000-0x7FFF sets a control register; memory is not written.
    pub fn write(&mut self, addr: u16, val: u8)
        requires
            old(self).wf(),
            addr <= 0x7FFF,
        ensures
            final(self).wf(),
            *final(self) == old(self).spec_write(addr, val),
    {
        match self {
            Mbc::NoMbc => {},
            Mbc::Mbc1 { sram_enable, low_bank, high_bank, bank_mode, .. } => {
                if addr <= 0x1FFF {
                    *sram_enable = val & 0x0F == 0x0A;
                } else if addr <= 0x3FFF {
                    let low = val & 0x1F;
                    assert(val & 0x1F <= 31) by (bit_vector);
                    *low_bank = if low == 0 {
                        1
                    } else {
                        low as usize
                    };
                } else if addr <= 0x5FFF {
                    assert(val & 0x03 <= 3) by (bit_vector);
                    *high_bank = (val & 0x03) as usize;
                } else {
                    *bank_mode = val & 1 != 0;
                }
            },
        }
    }

    pub fn get_addr(&self, addr: u16) -> (r: usize)
        requires
            self.wf(),
            mapped(addr),
        ensures
            r == self.spec_get_addr(addr),
    {
        match *self {
            Mbc::NoMbc => addr as usize,
            Mbc::Mbc1 { low_bank, high_bank, bank_mode, rom_banks, .. } => {
                if addr <= 0x3FFF {
                    if bank_mode {
                        (high_bank << 19usize) | ((addr & 0x3FFF) as usize)
                    } else {
                        (addr & 0x3FFF) as usize
                    }
                } else if addr <= 0x7FFF {
                    (high_bank << 19usize) | ((low_bank & (rom_banks - 1)) << 14usize) | ((addr
                        & 0x3FFF) as usize)
                } else if bank_mode {
                    (high_bank << 13usize) | ((addr & 0x1FFF) as usize)
                } else {
                    (addr & 0x1FFF) as usize
                }
            },
        }
    }
}

/// MBC1 never selects bank 0 through its low bank register: a write of a
/// value whose low five bits are zero selects bank 1.
pub proof fn lemma_low_bank_never_zero(m: Mbc, addr: u16, val: u8)
    requires
        m.wf(),
        addr <= 0x7FFF,
        m is Mbc1,
    ensures
        m.spec_write(addr, val)->low_bank != 0,
        0x2000 <= addr <= 0x3FFF && val & 0x1F == 0 ==> m.spec_write(addr, val)->low_bank == 1,
{
}

} // verus!
