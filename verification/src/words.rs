//! Byte and word helpers: composing 16-bit values from high and low bytes,
//! and wrapping 16-bit arithmetic for program-counter and pointer movement.

use vstd::prelude::*;

verus! {

/// The 16-bit word whose high byte is `hi` and whose low byte is `lo`.
pub open spec fn spec_word(hi: u8, lo: u8) -> u16 {
    (hi * 0x100 + lo) as u16
}

/// High byte of a 16-bit word.
pub open spec fn spec_hi(w: u16) -> u8 {
    (w / 0x100) as u8
}

/// Low byte of a 16-bit word.
pub open spec fn spec_lo(w: u16) -> u8 {
    (w % 0x100) as u8
}

/// 16-bit addition that wraps around at 0x10000.
pub open spec fn spec_wrap_add16(x: u16, y: u16) -> u16 {
    ((x + y) % 0x10000) as u16
}

/// 16-bit subtraction that wraps around below zero.
pub open spec fn spec_wrap_sub16(x: u16, y: u16) -> u16 {
    ((x - y + 0x10000) % 0x10000) as u16
}

/// 8-bit addition that wraps around at 0x100.
pub open spec fn spec_wrap_add8(x: u8, y: u8) -> u8 {
    ((x + y) % 0x100) as u8
}

/// 8-bit subtraction that wraps around below zero.
pub open spec fn spec_wrap_sub8(x: u8, y: u8) -> u8 {
    ((x - y + 0x100) % 0x100) as u8
}

pub fn make_word(hi: u8, lo: u8) -> (r: u16)
    ensures
        r == spec_word(hi, lo),
        spec_hi(r) == hi,
        spec_lo(r) == lo,
{
    let r: u16 = hi as u16 * 0x100 + lo as u16;
    proof {
        assert(r / 0x100 == hi) by (nonlinear_arith)
            requires r == hi * 0x100 + lo && lo < 0x100 && hi < 0x100;
        assert(r % 0x100 == lo) by (nonlinear_arith)
            requires r == hi * 0x100 + lo && lo < 0x100 && hi < 0x100;
    }
    r
}

pub fn hi_byte(w: u16) -> (r: u8)
    ensures
        r == spec_hi(w),
{
    (w / 0x100) as u8
}

pub fn lo_byte(w: u16) -> (r: u8)
    ensures
        r == spec_lo(w),
{
    (w % 0x100) as u8
}

/// A word equals the composition of its own high and low bytes.
pub proof fn lemma_word_decompose(w: u16)
    ensures
        spec_word(spec_hi(w), spec_lo(w)) == w,
{
    assert(w / 0x100 * 0x100 + w % 0x100 == w) by (nonlinear_arith);
}

/// True iff the bit selected by `mask` (a power of two) is set in `b`.
pub open spec fn spec_bit_set(b: u8, mask: u8) -> bool {
    (b / mask) % 2 == 1
}

/// `b` with the bit selected by `mask` (a power of two) cleared.
pub open spec fn spec_clear_bit(b: u8, mask: u8) -> u8 {
    if spec_bit_set(b, mask) {
        (b - mask) as u8
    } else {
        b
    }
}

/// `b` with the bit selected by `mask` (a power of two) set.
pub open spec fn spec_set_bit(b: u8, mask: u8) -> u8 {
    if spec_bit_set(b, mask) {
        b
    } else {
        (b + mask) as u8
    }
}

/// True of the eight single-bit masks of a byte.
pub open spec fn spec_is_bit_mask(m: u8) -> bool {
    m == 1 || m == 2 || m == 4 || m == 8 || m == 0x10 || m == 0x20 || m == 0x40 || m == 0x80
}

pub fn test_bit8(b: u8, mask: u8) -> (r: bool)
    requires
        mask > 0,
    ensures
        r == spec_bit_set(b, mask),
{
    (b / mask) % 2 == 1
}

pub fn clear_bit8(b: u8, mask: u8) -> (r: u8)
    requires
        mask > 0,
    ensures
        r == spec_clear_bit(b, mask),
{
    if (b / mask) % 2 == 1 {
        proof {
            assert(mask <= b) by (nonlinear_arith)
                requires (b / mask) % 2 == 1 && mask > 0;
        }
        b - mask
    } else {
        b
    }
}

pub fn set_bit8(b: u8, mask: u8) -> (r: u8)
    requires
        spec_is_bit_mask(mask),
    ensures
        r == spec_set_bit(b, mask),
{
    if (b / mask) % 2 == 1 {
        b
    } else {
        proof {
            let m = mask;
            assert((m == 1 || m == 2 || m == 4 || m == 8 || m == 0x10 || m == 0x20 || m == 0x40
                || m == 0x80) && (b / m) % 2 != 1 ==> b + m < 256) by (bit_vector);
        }
        b + mask
    }
}

/// Two single wrapping decrements land where one decrement by two does.
pub proof fn lemma_sub16_twice(x: u16)
    ensures
        spec_wrap_sub16(spec_wrap_sub16(x, 1), 1) == spec_wrap_sub16(x, 2),
{
}

/// Two single wrapping increments land where one increment by two does.
pub proof fn lemma_add16_twice(x: u16)
    ensures
        spec_wrap_add16(spec_wrap_add16(x, 1), 1) == spec_wrap_add16(x, 2),
{
}

pub fn wrap_add16(x: u16, y: u16) -> (r: u16)
    ensures
        r == spec_wrap_add16(x, y),
{
    x.wrapping_add(y)
}

pub fn wrap_sub16(x: u16, y: u16) -> (r: u16)
    ensures
        r == spec_wrap_sub16(x, y),
{
    x.wrapping_sub(y)
}

pub fn wrap_add8(x: u8, y: u8) -> (r: u8)
    ensures
        r == spec_wrap_add8(x, y),
{
    x.wrapping_add(y)
}

pub fn wrap_sub8(x: u8, y: u8) -> (r: u8)
    ensures
        r == spec_wrap_sub8(x, y),
{
    x.wrapping_sub(y)
}

} // verus!
