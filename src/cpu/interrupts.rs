use vstd::prelude::*;

verus! {

/// The interrupt controller: the master enable and the IE and IF registers.
/// Bits 0 to 4 stand for VBlank, LCD-STAT, Timer, Serial and Joypad.
#[derive(Clone, Copy, Debug)]
pub struct Interrupts {
    pub ime: bool,
    pub i_enable: u8,
    pub i_flag: u8,
}

impl Interrupts {
    /// The sources that are both requested and enabled.
    pub open spec fn pending(&self) -> u8 {
        self.i_flag & self.i_enable & 0x1F
    }

    pub open spec fn new_spec() -> Interrupts {
        Interrupts { ime: false, i_enable: 0, i_flag: 0 }
    }

    pub fn new() -> (r: Interrupts)
        ensures
            r == Interrupts::new_spec(),
    {
        Interrupts { ime: false, i_enable: 0, i_flag: 0 }
    }

    /// Requests the sources whose bits are set in `val`.
    pub fn irq(&mut self, val: u8)
        ensures
            *final(self) == (Interrupts { i_flag: old(self).i_flag | val, ..*old(self) }),
    {
        self.i_flag = self.i_flag | val;
    }

    /// IF (0xFF0F) reads with its three unused high bits set; IE (0xFFFF) reads as written.
    pub fn read(&self, addr: u16) -> (r: u8)
        requires
            addr == 0xFF0F || addr == 0xFFFF,
        ensures
            addr == 0xFF0F ==> r == self.i_flag | 0xE0,
            addr == 0xFFFF ==> r == self.i_enable,
    {
        if addr == 0xFF0F {
            self.i_flag | 0xE0
        } else {
            self.i_enable
        }
    }

    pub fn write(&mut self, addr: u16, val: u8)
        requires
            addr == 0xFF0F || addr == 0xFFFF,
        ensures
            addr == 0xFF0F ==> *final(self) == (Interrupts { i_flag: val, ..*old(self) }),
            addr == 0xFFFF ==> *final(self) == (Interrupts { i_enable: val, ..*old(self) }),
    {
        if addr == 0xFF0F {
            self.i_flag = val;
        } else {
            self.i_enable = val;
        }
    }

    pub fn get_int(&self) -> (r: u8)
        ensures
            r == self.pending(),
    {
        self.i_flag & self.i_enable & 0x1F
    }
}

} // verus!
