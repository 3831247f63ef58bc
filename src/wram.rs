use vstd::prelude::*;

verus! {

/// Work RAM: 8 KiB at 0xC000, mirrored at 0xE000, addressed by the low 13 bits.
pub struct Wram {
    pub bytes: Vec<u8>,
}

impl Wram {
    pub open spec fn wf(&self) -> bool {
        self.bytes@.len() == 0x2000
    }

    pub open spec fn index(addr: u16) -> int {
        addr as int % 0x2000
    }

    pub fn new() -> (r: Wram)
        ensures
            r.wf(),
            forall|i: int| 0 <= i < 0x2000 ==> r.bytes@[i] == 0,
    {
        Wram { bytes: vec![0u8; 0x2000] }
    }

    pub fn read(&self, addr: u16) -> (r: u8)
        requires
            self.wf(),
        ensures
            r == self.bytes@[Self::index(addr)],
    {
        self.bytes[(addr % 0x2000) as usize]
    }

    pub fn write(&mut self, addr: u16, data: u8)
        requires
            old(self).wf(),
        ensures
            final(self).bytes@ == old(self).bytes@.update(Self::index(addr), data),
    {
        self.bytes.set((addr % 0x2000) as usize, data);
    }
}

} // verus!
