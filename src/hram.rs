use vstd::prelude::*;

verus! {

/// High RAM: 128 bytes at 0xFF80, addressed by the low seven bits.
pub struct Hram {
    pub bytes: Vec<u8>,
}

impl Hram {
    pub open spec fn wf(&self) -> bool {
        self.bytes@.len() == 0x80
    }

    pub open spec fn index(addr: u16) -> int {
        addr as int % 0x80
    }

    pub fn new() -> (r: Hram)
        ensures
            r.wf(),
            forall|i: int| 0 <= i < 0x80 ==> r.bytes@[i] == 0,
    {
        Hram { bytes: vec![0u8; 0x80] }
    }

    pub fn read(&self, addr: u16) -> (r: u8)
        requires
            self.wf(),
        ensures
            r == self.bytes@[Self::index(addr)],
    {
        self.bytes[(addr % 0x80) as usize]
    }

    pub fn write(&mut self, addr: u16, data: u8)
        requires
            old(self).wf(),
        ensures
            final(self).bytes@ == old(self).bytes@.update(Self::index(addr), data),
    {
        self.bytes.set((addr % 0x80) as usize, data);
    }
}

} // verus!
