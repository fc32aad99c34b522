//! The 8-bit arithmetic/logic unit and the 16-bit additions, with the flag
//! rules the hardware documents: Z set iff the result byte is zero, N set
//! for the subtract class, H from the low-nibble carry or borrow, C from the
//! full-width carry or borrow; AND sets H and clears C, OR and XOR clear
//! both, INC and DEC leave C untouched.

use vstd::prelude::*;
use crate::words::{spec_wrap_add8, spec_wrap_sub8};

verus! {

/// Result byte and the four flag outputs of one 8-bit operation.
#[derive(Clone, Copy, PartialEq, Eq, Structural, Debug)]
pub struct AluOut {
    pub v: u8,
    pub z: bool,
    pub n: bool,
    pub h: bool,
    pub c: bool,
}

/// ADD / ADC: Z iff the result byte is zero, N clear, H iff the low nibbles
/// (plus carry-in) overflow past 0xF, C iff the full byte overflows.
pub open spec fn spec_add8(a: u8, b: u8, cin: bool) -> AluOut {
    let cv: int = if cin { 1 } else { 0 };
    let sum: int = a + b + cv;
    AluOut {
        v: (sum % 0x100) as u8,
        z: sum % 0x100 == 0,
        n: false,
        h: a % 0x10 + b % 0x10 + cv > 0xF,
        c: sum > 0xFF,
    }
}

/// SUB / SBC / CP: Z iff the result byte is zero, N set, H iff the low
/// nibble borrows, C iff the full byte borrows.
pub open spec fn spec_sub8(a: u8, b: u8, cin: bool) -> AluOut {
    let cv: int = if cin { 1 } else { 0 };
    let diff: int = a - b - cv;
    AluOut {
        v: ((diff + 0x200) % 0x100) as u8,
        z: (diff + 0x200) % 0x100 == 0,
        n: true,
        h: a % 0x10 - b % 0x10 - cv < 0,
        c: diff < 0,
    }
}

/// AND: H set, C clear.
pub open spec fn spec_and8(a: u8, b: u8) -> AluOut {
    AluOut { v: a & b, z: (a & b) == 0, n: false, h: true, c: false }
}

/// OR: H and C clear.
pub open spec fn spec_or8(a: u8, b: u8) -> AluOut {
    AluOut { v: a | b, z: (a | b) == 0, n: false, h: false, c: false }
}

/// XOR: H and C clear.
pub open spec fn spec_xor8(a: u8, b: u8) -> AluOut {
    AluOut { v: a ^ b, z: (a ^ b) == 0, n: false, h: false, c: false }
}

/// INC: updates Z, N, H; the carry flag is not an output (it stays as it
/// was), the required asymmetry versus the add/sub family.
pub open spec fn spec_inc8(t: u8) -> (u8, bool, bool, bool) {
    (spec_wrap_add8(t, 1), spec_wrap_add8(t, 1) == 0, false, t % 0x10 == 0xF)
}

/// DEC: updates Z, N, H; the carry flag is not an output.
pub open spec fn spec_dec8(t: u8) -> (u8, bool, bool, bool) {
    (spec_wrap_sub8(t, 1), spec_wrap_sub8(t, 1) == 0, true, t % 0x10 == 0)
}

/// 16-bit ADD to HL: H from the carry out of bit 11, C from bit 15, N
/// cleared, Z left unaffected (it is not an output).
pub open spec fn spec_add16(hl: u16, rr: u16) -> (u16, bool, bool) {
    (
        ((hl + rr) % 0x10000) as u16,
        hl % 0x1000 + rr % 0x1000 > 0xFFF,
        hl + rr > 0xFFFF,
    )
}

/// The BCD correction DAA applies to the accumulator, given the N, H and C
/// flags left by the previous operation: result byte and carry-out.  After
/// DAA, Z is set iff the result is zero, H is cleared, N is unchanged.
pub open spec fn spec_daa(a: u8, n: bool, h: bool, c: bool) -> (u8, bool) {
    if !n {
        let adj: u8 = ((if h || a % 0x10 > 0x09 { 0x06u8 } else { 0u8 })
            + (if c || a > 0x99 { 0x60u8 } else { 0u8 })) as u8;
        (spec_wrap_add8(a, adj), c || a > 0x99)
    } else {
        let adj: u8 = ((if h { 0x06u8 } else { 0u8 }) + (if c { 0x60u8 } else { 0u8 })) as u8;
        (spec_wrap_sub8(a, adj), c)
    }
}

pub fn add8(a: u8, b: u8, cin: bool) -> (r: AluOut)
    ensures
        r == spec_add8(a, b, cin),
{
    let cv: u16 = if cin { 1 } else { 0 };
    let sum: u16 = a as u16 + b as u16 + cv;
    AluOut {
        v: (sum % 0x100) as u8,
        z: sum % 0x100 == 0,
        n: false,
        h: a % 0x10 + b % 0x10 + cv as u8 > 0xF,
        c: sum > 0xFF,
    }
}

pub fn sub8(a: u8, b: u8, cin: bool) -> (r: AluOut)
    ensures
        r == spec_sub8(a, b, cin),
{
    let cv: u16 = if cin { 1 } else { 0 };
    let diff: u16 = 0x200 + a as u16 - b as u16 - cv;
    AluOut {
        v: (diff % 0x100) as u8,
        z: diff % 0x100 == 0,
        n: true,
        h: 0x10 + a % 0x10 - b % 0x10 < 0x10 + cv as u8,
        c: diff < 0x200,
    }
}

pub fn and8(a: u8, b: u8) -> (r: AluOut)
    ensures
        r == spec_and8(a, b),
{
    AluOut { v: a & b, z: (a & b) == 0, n: false, h: true, c: false }
}

pub fn or8(a: u8, b: u8) -> (r: AluOut)
    ensures
        r == spec_or8(a, b),
{
    AluOut { v: a | b, z: (a | b) == 0, n: false, h: false, c: false }
}

pub fn xor8(a: u8, b: u8) -> (r: AluOut)
    ensures
        r == spec_xor8(a, b),
{
    AluOut { v: a ^ b, z: (a ^ b) == 0, n: false, h: false, c: false }
}

pub fn daa_adjust(a: u8, n: bool, h: bool, c: bool) -> (r: (u8, bool))
    ensures
        r == spec_daa(a, n, h, c),
{
    if !n {
        let adj: u8 = (if h || a % 0x10 > 0x09 { 0x06u8 } else { 0u8 })
            + (if c || a > 0x99 { 0x60u8 } else { 0u8 });
        (a.wrapping_add(adj), c || a > 0x99)
    } else {
        let adj: u8 = (if h { 0x06u8 } else { 0u8 }) + (if c { 0x60u8 } else { 0u8 });
        (a.wrapping_sub(adj), c)
    }
}

} // verus!
