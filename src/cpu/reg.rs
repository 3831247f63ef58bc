use vstd::prelude::*;

use crate::bits::{c_of, flags, h_of, lemma_flag_bits, lemma_flags_read, n_of, z_of};
use crate::cpu::operand::{Reg16, Reg8};

verus! {

/// The register file: eight 8-bit registers, the program counter and the stack pointer.
#[derive(Clone, Copy, Debug)]
pub struct Registers {
    pub pc: u16,
    pub sp: u16,
    pub a: u8,
    pub f: u8,
    pub b: u8,
    pub c: u8,
    pub d: u8,
    pub e: u8,
    pub h: u8,
    pub l: u8,
}

/// The 16-bit value of a register pair, high register first.
pub open spec fn pair(hi: u8, lo: u8) -> u16 {
    (hi as int * 256 + lo as int) as u16
}

impl Registers {
    /// The low nibble of F is always zero.
    pub open spec fn wf(&self) -> bool {
        self.f & 0x0F == 0
    }

    pub open spec fn spec_get8(&self, r: Reg8) -> u8 {
        match r {
            Reg8::A => self.a,
            Reg8::B => self.b,
            Reg8::C => self.c,
            Reg8::D => self.d,
            Reg8::E => self.e,
            Reg8::H => self.h,
            Reg8::L => self.l,
        }
    }

    pub open spec fn spec_set8(self, r: Reg8, v: u8) -> Registers {
        match r {
            Reg8::A => Registers { a: v, ..self },
            Reg8::B => Registers { b: v, ..self },
            Reg8::C => Registers { c: v, ..self },
            Reg8::D => Registers { d: v, ..self },
            Reg8::E => Registers { e: v, ..self },
            Reg8::H => Registers { h: v, ..self },
            Reg8::L => Registers { l: v, ..self },
        }
    }

    pub open spec fn spec_get16(&self, r: Reg16) -> u16 {
        match r {
            Reg16::AF => pair(self.a, self.f),
            Reg16::BC => pair(self.b, self.c),
            Reg16::DE => pair(self.d, self.e),
            Reg16::HL => pair(self.h, self.l),
            Reg16::SP => self.sp,
        }
    }

    /// Writing a pair stores the high byte in the first register and the low
    /// byte in the second; for AF the low nibble of F is dropped.
    pub open spec fn spec_set16(self, r: Reg16, v: u16) -> Registers {
        let hi = (v / 256) as u8;
        let lo = (v % 256) as u8;
        match r {
            Reg16::AF => Registers { a: hi, f: lo & 0xF0, ..self },
            Reg16::BC => Registers { b: hi, c: lo, ..self },
            Reg16::DE => Registers { d: hi, e: lo, ..self },
            Reg16::HL => Registers { h: hi, l: lo, ..self },
            Reg16::SP => Registers { sp: v, ..self },
        }
    }

    /// All registers zero, as at reset.
    pub fn new() -> (r: Registers)
        ensures
            r.wf(),
            r.pc == 0 && r.sp == 0 && r.a == 0 && r.f == 0 && r.b == 0 && r.c == 0,
            r.d == 0 && r.e == 0 && r.h == 0 && r.l == 0,
    {
        let r = Registers { pc: 0, sp: 0, a: 0, f: 0, b: 0, c: 0, d: 0, e: 0, h: 0, l: 0 };
        assert(0u8 & 0x0F == 0) by (bit_vector);
        r
    }

    pub fn af(&self) -> (r: u16)
        ensures
            r == pair(self.a, self.f),
    {
        (self.a as u16) * 256 + (self.f as u16)
    }

    pub fn bc(&self) -> (r: u16)
        ensures
            r == pair(self.b, self.c),
    {
        (self.b as u16) * 256 + (self.c as u16)
    }

    pub fn de(&self) -> (r: u16)
        ensures
            r == pair(self.d, self.e),
    {
        (self.d as u16) * 256 + (self.e as u16)
    }

    pub fn hl(&self) -> (r: u16)
        ensures
            r == pair(self.h, self.l),
    {
        (self.h as u16) * 256 + (self.l as u16)
    }

    pub fn set_af(&mut self, val: u16)
        ensures
            *final(self) == old(self).spec_set16(Reg16::AF, val),
            final(self).wf(),
    {
        self.a = (val / 256) as u8;
        let lo = (val % 256) as u8;
        self.f = lo & 0xF0;
        assert(lo & 0xF0 & 0x0F == 0) by (bit_vector);
    }

    pub fn set_bc(&mut self, val: u16)
        ensures
            *final(self) == old(self).spec_set16(Reg16::BC, val),
    {
        self.b = (val / 256) as u8;
        self.c = (val % 256) as u8;
    }

    pub fn set_de(&mut self, val: u16)
        ensures
            *final(self) == old(self).spec_set16(Reg16::DE, val),
    {
        self.d = (val / 256) as u8;
        self.e = (val % 256) as u8;
    }

    pub fn set_hl(&mut self, val: u16)
        ensures
            *final(self) == old(self).spec_set16(Reg16::HL, val),
    {
        self.h = (val / 256) as u8;
        self.l = (val % 256) as u8;
    }

    pub fn get8(&self, r: Reg8) -> (v: u8)
        ensures
            v == self.spec_get8(r),
    {
        match r {
            Reg8::A => self.a,
            Reg8::B => self.b,
            Reg8::C => self.c,
            Reg8::D => self.d,
            Reg8::E => self.e,
            Reg8::H => self.h,
            Reg8::L => self.l,
        }
    }

    pub fn set8(&mut self, r: Reg8, v: u8)
        ensures
            *final(self) == old(self).spec_set8(r, v),
    {
        match r {
            Reg8::A => self.a = v,
            Reg8::B => self.b = v,
            Reg8::C => self.c = v,
            Reg8::D => self.d = v,
            Reg8::E => self.e = v,
            Reg8::H => self.h = v,
            Reg8::L => self.l = v,
        }
    }

    pub fn get16(&self, r: Reg16) -> (v: u16)
        ensures
            v == self.spec_get16(r),
    {
        match r {
            Reg16::AF => self.af(),
            Reg16::BC => self.bc(),
            Reg16::DE => self.de(),
            Reg16::HL => self.hl(),
            Reg16::SP => self.sp,
        }
    }

    pub fn set16(&mut self, r: Reg16, v: u16)
        ensures
            *final(self) == old(self).spec_set16(r, v),
            old(self).wf() ==> final(self).wf(),
    {
        match r {
            Reg16::AF => self.set_af(v),
            Reg16::BC => self.set_bc(v),
            Reg16::DE => self.set_de(v),
            Reg16::HL => self.set_hl(v),
            Reg16::SP => self.sp = v,
        }
    }

    pub fn zf(&self) -> (r: bool)
        ensures
            r == z_of(self.f),
    {
        (self.f & 0x80) == 0x80
    }

    pub fn cf(&self) -> (r: bool)
        ensures
            r == c_of(self.f),
    {
        (self.f & 0x10) == 0x10
    }

    pub fn set_zf(&mut self, val: bool)
        requires
            old(self).wf(),
        ensures
            final(self).wf(),
            *final(self) == (Registers {
                f: flags(val, n_of(old(self).f), h_of(old(self).f), c_of(old(self).f)),
                ..*old(self)
            }),
    {
        proof {
            lemma_flag_bits(self.f);
            lemma_flags_read(val, n_of(self.f), h_of(self.f), c_of(self.f));
        }
        if val {
            self.f = self.f | 0x80;
        } else {
            self.f = self.f & 0x7F;
        }
    }

    pub fn set_nf(&mut self, val: bool)
        requires
            old(self).wf(),
        ensures
            final(self).wf(),
            *final(self) == (Registers {
                f: flags(z_of(old(self).f), val, h_of(old(self).f), c_of(old(self).f)),
                ..*old(self)
            }),
    {
        proof {
            lemma_flag_bits(self.f);
            lemma_flags_read(z_of(self.f), val, h_of(self.f), c_of(self.f));
        }
        if val {
            self.f = self.f | 0x40;
        } else {
            self.f = self.f & 0xBF;
        }
    }

    pub fn set_hf(&mut self, val: bool)
        requires
            old(self).wf(),
        ensures
            final(self).wf(),
            *final(self) == (Registers {
                f: flags(z_of(old(self).f), n_of(old(self).f), val, c_of(old(self).f)),
                ..*old(self)
            }),
    {
        proof {
            lemma_flag_bits(self.f);
            lemma_flags_read(z_of(self.f), n_of(self.f), val, c_of(self.f));
        }
        if val {
            self.f = self.f | 0x20;
        } else {
            self.f = self.f & 0xDF;
        }
    }

    pub fn set_cf(&mut self, val: bool)
        requires
            old(self).wf(),
        ensures
            final(self).wf(),
            *final(self) == (Registers {
                f: flags(z_of(old(self).f), n_of(old(self).f), h_of(old(self).f), val),
                ..*old(self)
            }),
    {
        proof {
            lemma_flag_bits(self.f);
            lemma_flags_read(z_of(self.f), n_of(self.f), h_of(self.f), val);
        }
        if val {
            self.f = self.f | 0x10;
        } else {
            self.f = self.f & 0xEF;
        }
    }
}

/// Writing a 16-bit register and reading it back gives the value written;
/// for AF this holds of every value whose low nibble is clear.
pub proof fn lemma_reg16_round_trip(regs: Registers, r: Reg16, v: u16)
    requires
        r == Reg16::AF ==> v & 0x0F == 0,
    ensures
        regs.spec_set16(r, v).spec_get16(r) == v,
{
    let lo = (v % 256) as u8;
    assert(v & 0x0F == 0 ==> (v % 256) as u8 & 0xF0 == (v % 256) as u8) by (bit_vector);
    assert(lo as int == v % 256);
}

/// Every write of a 16-bit register keeps the low nibble of F at zero.
pub proof fn lemma_set16_keeps_f_low_nibble(regs: Registers, r: Reg16, v: u16)
    requires
        regs.wf(),
    ensures
        regs.spec_set16(r, v).wf(),
{
    let lo = (v % 256) as u8;
    assert(lo & 0xF0 & 0x0F == 0) by (bit_vector);
}

} // verus!
