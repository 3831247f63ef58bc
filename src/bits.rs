use vstd::prelude::*;

verus! {

/// Zero flag: bit 7 of F.
pub open spec fn z_of(f: u8) -> bool {
    f & 0x80 == 0x80
}

/// Subtract flag: bit 6 of F.
pub open spec fn n_of(f: u8) -> bool {
    f & 0x40 == 0x40
}

/// Half-carry flag: bit 5 of F.
pub open spec fn h_of(f: u8) -> bool {
    f & 0x20 == 0x20
}

/// Carry flag: bit 4 of F.
pub open spec fn c_of(f: u8) -> bool {
    f & 0x10 == 0x10
}

/// The F byte whose four flag bits are the given ones and whose low nibble is zero.
pub open spec fn flags(z: bool, n: bool, h: bool, c: bool) -> u8 {
    ((if z { 0x80u8 } else { 0u8 }) | (if n { 0x40u8 } else { 0u8 }) | (if h { 0x20u8 } else { 0u8 })
        | (if c { 0x10u8 } else { 0u8 }))
}

/// An F byte with a zero low nibble is given by its four flags, and
/// setting or clearing one flag bit changes that flag alone.
pub proof fn lemma_flag_bits(f: u8)
    by (bit_vector)
    requires
        f & 0x0F == 0,
    ensures
        f == flags(z_of(f), n_of(f), h_of(f), c_of(f)),
        (f | 0x80) == flags(true, n_of(f), h_of(f), c_of(f)),
        (f & 0x7F) == flags(false, n_of(f), h_of(f), c_of(f)),
        (f | 0x40) == flags(z_of(f), true, h_of(f), c_of(f)),
        (f & 0xBF) == flags(z_of(f), false, h_of(f), c_of(f)),
        (f | 0x20) == flags(z_of(f), n_of(f), true, c_of(f)),
        (f & 0xDF) == flags(z_of(f), n_of(f), false, c_of(f)),
        (f | 0x10) == flags(z_of(f), n_of(f), h_of(f), true),
        (f & 0xEF) == flags(z_of(f), n_of(f), h_of(f), false),
{
}

/// What the four flags of a composed F byte read back as.
pub proof fn lemma_flags_read(z: bool, n: bool, h: bool, c: bool)
    by (bit_vector)
    ensures
        z_of(flags(z, n, h, c)) == z,
        n_of(flags(z, n, h, c)) == n,
        h_of(flags(z, n, h, c)) == h,
        c_of(flags(z, n, h, c)) == c,
        flags(z, n, h, c) & 0x0F == 0,
{
}

} // verus!
