//! The register file: eight 8-bit registers, the flag nibble packed into F,
//! and the 16-bit register-pair views AF, BC, DE and HL.

use vstd::prelude::*;
use crate::words::{spec_word, spec_hi, spec_lo, make_word, hi_byte, lo_byte};

verus! {

/// True iff the Zero flag bit (bit 7) of a flag byte is set.
pub open spec fn spec_flag_z(f: u8) -> bool {
    (f / 0x80) % 2 == 1
}

/// True iff the Subtract flag bit (bit 6) of a flag byte is set.
pub open spec fn spec_flag_n(f: u8) -> bool {
    (f / 0x40) % 2 == 1
}

/// True iff the Half-Carry flag bit (bit 5) of a flag byte is set.
pub open spec fn spec_flag_h(f: u8) -> bool {
    (f / 0x20) % 2 == 1
}

/// True iff the Carry flag bit (bit 4) of a flag byte is set.
pub open spec fn spec_flag_c(f: u8) -> bool {
    (f / 0x10) % 2 == 1
}

/// The flag byte encoding the four flags in the high nibble, low nibble zero.
pub open spec fn spec_flags_byte(z: bool, n: bool, h: bool, c: bool) -> u8 {
    ((if z { 0x80u8 } else { 0u8 }) + (if n { 0x40u8 } else { 0u8 })
        + (if h { 0x20u8 } else { 0u8 }) + (if c { 0x10u8 } else { 0u8 })) as u8
}

/// A well-formed flag byte keeps its low nibble zero.
pub open spec fn spec_flags_wf(f: u8) -> bool {
    f % 0x10 == 0
}

/// Clearing the low nibble of a byte, as a write to F does.
pub open spec fn spec_mask_flags(v: u8) -> u8 {
    (v / 0x10 * 0x10) as u8
}

/// Packing four flags and reading a bit back agree, and the packed byte is
/// well formed.
pub proof fn lemma_flags_byte(z: bool, n: bool, h: bool, c: bool)
    ensures
        spec_flag_z(spec_flags_byte(z, n, h, c)) == z,
        spec_flag_n(spec_flags_byte(z, n, h, c)) == n,
        spec_flag_h(spec_flags_byte(z, n, h, c)) == h,
        spec_flag_c(spec_flags_byte(z, n, h, c)) == c,
        spec_flags_wf(spec_flags_byte(z, n, h, c)),
{
}

#[derive(Clone, Copy, PartialEq, Eq, Structural, Debug)]
pub struct Registers {
    pub a: u8,
    pub b: u8,
    pub c: u8,
    pub d: u8,
    pub e: u8,
    pub f: u8,
    pub h: u8,
    pub l: u8,
}

impl Registers {
    /// The register file is well formed when the low nibble of F is zero.
    pub open spec fn wf(self) -> bool {
        spec_flags_wf(self.f)
    }

    pub open spec fn spec_af(self) -> u16 {
        spec_word(self.a, self.f)
    }

    pub open spec fn spec_bc(self) -> u16 {
        spec_word(self.b, self.c)
    }

    pub open spec fn spec_de(self) -> u16 {
        spec_word(self.d, self.e)
    }

    pub open spec fn spec_hl(self) -> u16 {
        spec_word(self.h, self.l)
    }

    pub open spec fn spec_z(self) -> bool {
        spec_flag_z(self.f)
    }

    pub open spec fn spec_n(self) -> bool {
        spec_flag_n(self.f)
    }

    pub open spec fn spec_h_flag(self) -> bool {
        spec_flag_h(self.f)
    }

    pub open spec fn spec_c_flag(self) -> bool {
        spec_flag_c(self.f)
    }

    /// The register file after a 16-bit write to AF: F keeps a zero low
    /// nibble.
    pub open spec fn spec_with_af(self, v: u16) -> Registers {
        Registers { a: spec_hi(v), f: spec_mask_flags(spec_lo(v)), ..self }
    }

    pub open spec fn spec_with_bc(self, v: u16) -> Registers {
        Registers { b: spec_hi(v), c: spec_lo(v), ..self }
    }

    pub open spec fn spec_with_de(self, v: u16) -> Registers {
        Registers { d: spec_hi(v), e: spec_lo(v), ..self }
    }

    pub open spec fn spec_with_hl(self, v: u16) -> Registers {
        Registers { h: spec_hi(v), l: spec_lo(v), ..self }
    }

    /// The register file with the four flags replaced.
    pub open spec fn spec_with_flags(self, z: bool, n: bool, h: bool, c: bool) -> Registers {
        Registers { f: spec_flags_byte(z, n, h, c), ..self }
    }

    /// All eight registers cleared, as at power-on.
    pub fn new() -> (r: Registers)
        ensures
            r == (Registers { a: 0u8, b: 0u8, c: 0u8, d: 0u8, e: 0u8, f: 0u8, h: 0u8, l: 0u8 }),
            r.wf(),
    {
        Registers { a: 0, b: 0, c: 0, d: 0, e: 0, f: 0, h: 0, l: 0 }
    }

    pub fn get_af(&self) -> (r: u16)
        ensures
            r == self.spec_af(),
    {
        make_word(self.a, self.f)
    }

    pub fn get_bc(&self) -> (r: u16)
        ensures
            r == self.spec_bc(),
    {
        make_word(self.b, self.c)
    }

    pub fn get_de(&self) -> (r: u16)
        ensures
            r == self.spec_de(),
    {
        make_word(self.d, self.e)
    }

    pub fn get_hl(&self) -> (r: u16)
        ensures
            r == self.spec_hl(),
    {
        make_word(self.h, self.l)
    }

    /// Writing AF masks F so its low nibble stays zero.
    pub fn set_af(&mut self, v: u16)
        ensures
            *final(self) == (Registers { a: spec_hi(v), f: spec_mask_flags(spec_lo(v)), ..*old(self) }),
            final(self).wf(),
    {
        self.a = hi_byte(v);
        let lo: u8 = lo_byte(v);
        self.f = lo / 0x10 * 0x10;
    }

    pub fn set_bc(&mut self, v: u16)
        ensures
            *final(self) == (Registers { b: spec_hi(v), c: spec_lo(v), ..*old(self) }),
    {
        self.b = hi_byte(v);
        self.c = lo_byte(v);
    }

    pub fn set_de(&mut self, v: u16)
        ensures
            *final(self) == (Registers { d: spec_hi(v), e: spec_lo(v), ..*old(self) }),
    {
        self.d = hi_byte(v);
        self.e = lo_byte(v);
    }

    pub fn set_hl(&mut self, v: u16)
        ensures
            *final(self) == (Registers { h: spec_hi(v), l: spec_lo(v), ..*old(self) }),
    {
        self.h = hi_byte(v);
        self.l = lo_byte(v);
    }

    /// Write all four flags at once; the low nibble of F becomes zero.
    pub fn set_flags(&mut self, z: bool, n: bool, h: bool, c: bool)
        ensures
            *final(self) == (Registers { f: spec_flags_byte(z, n, h, c), ..*old(self) }),
            final(self).wf(),
    {
        let f: u8 = (if z { 0x80u8 } else { 0u8 }) + (if n { 0x40u8 } else { 0u8 })
            + (if h { 0x20u8 } else { 0u8 }) + (if c { 0x10u8 } else { 0u8 });
        self.f = f;
        proof {
            lemma_flags_byte(z, n, h, c);
        }
    }

    pub fn flag_z(&self) -> (r: bool)
        ensures
            r == self.spec_z(),
    {
        (self.f / 0x80) % 2 == 1
    }

    pub fn flag_n(&self) -> (r: bool)
        ensures
            r == self.spec_n(),
    {
        (self.f / 0x40) % 2 == 1
    }

    pub fn flag_h(&self) -> (r: bool)
        ensures
            r == self.spec_h_flag(),
    {
        (self.f / 0x20) % 2 == 1
    }

    pub fn flag_c(&self) -> (r: bool)
        ensures
            r == self.spec_c_flag(),
    {
        (self.f / 0x10) % 2 == 1
    }
}

} // verus!
