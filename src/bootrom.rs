use vstd::prelude::*;

verus! {

/// The 256-byte boot program, mapped over the start of the cartridge until
/// a non-zero write to 0xFF50 switches it off for good.
pub struct Bootrom {
    pub rom: Vec<u8>,
    pub active: bool,
}

impl Bootrom {
    pub open spec fn wf(&self) -> bool {
        self.rom@.len() == 256
    }

    pub fn new(rom: Vec<u8>) -> (r: Bootrom)
        requires
            rom@.len() == 256,
        ensures
            r.wf(),
            r.rom@ == rom@,
            r.active,
    {
        Bootrom { rom, active: true }
    }

    pub fn active(&self) -> (r: bool)
        ensures
            r == self.active,
    {
        self.active
    }

    pub fn read(&self, addr: u16) -> (r: u8)
        requires
            self.wf(),
            addr < 256,
        ensures
            r == self.rom@[addr as int],
    {
        self.rom[addr as usize]
    }

    /// The disable latch: a non-zero value switches the overlay off; nothing switches it on.
    pub fn write(&mut self, _addr: u16, data: u8)
        ensures
            final(self).rom@ == old(self).rom@,
            final(self).active == (old(self).active && data == 0),
    {
        self.active = self.active && data == 0;
    }
}

} // verus!
