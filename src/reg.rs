//! Bit-field access to 32-bit peripheral registers.
//!
//! A field is a run of `width` bits starting at bit `lo`. Writing a field is a
//! read-modify-write: the field's bits take the new value and every other bit
//! of the register keeps its old value.

use vstd::prelude::*;

verus! {

/// Holds when `lo` and `width` describe a field inside a 32-bit register.
pub open spec fn valid_field(lo: u32, width: u32) -> bool {
    1 <= width < 32 && lo + width <= 32
}

/// The low `width` bits set.
pub open spec fn low_mask(width: u32) -> u32 {
    !(0xffff_ffffu32 << width)
}

/// Holds when `value` can be stored in a field of `width` bits.
pub open spec fn fits(value: u32, width: u32) -> bool {
    value <= low_mask(width)
}

/// The value held by the field `(lo, width)` of `reg`.
pub open spec fn field_of(reg: u32, lo: u32, width: u32) -> u32 {
    (reg >> lo) & low_mask(width)
}

/// `reg` with the field `(lo, width)` replaced by `value`.
pub open spec fn with_field(reg: u32, lo: u32, width: u32, value: u32) -> u32 {
    (reg & !(low_mask(width) << lo)) | (value << lo)
}

/// Holds when the two fields share no bit.
pub open spec fn disjoint(lo1: u32, w1: u32, lo2: u32, w2: u32) -> bool {
    lo1 + w1 <= lo2 || lo2 + w2 <= lo1
}

/// Reading a field back after writing it gives the value written.
pub proof fn lemma_get_set(reg: u32, lo: u32, width: u32, value: u32)
    requires
        valid_field(lo, width),
        fits(value, width),
    ensures
        field_of(with_field(reg, lo, width, value), lo, width) == value,
{
    assert((((reg & !(!(0xffff_ffffu32 << width) << lo)) | (value << lo)) >> lo) & !(
    0xffff_ffffu32 << width) == value) by (bit_vector)
        requires
            1 <= width < 32,
            lo + width <= 32,
            value <= !(0xffff_ffffu32 << width),
    ;
}

/// Writing a field leaves every bit outside it as it was.
pub proof fn lemma_set_keeps_other_bits(reg: u32, lo: u32, width: u32, value: u32)
    requires
        valid_field(lo, width),
        fits(value, width),
    ensures
        with_field(reg, lo, width, value) & !(low_mask(width) << lo) == reg & !(low_mask(width)
            << lo),
{
    assert(((reg & !(!(0xffff_ffffu32 << width) << lo)) | (value << lo)) & !(!(0xffff_ffffu32
        << width) << lo) == reg & !(!(0xffff_ffffu32 << width) << lo)) by (bit_vector)
        requires
            1 <= width < 32,
            lo + width <= 32,
            value <= !(0xffff_ffffu32 << width),
    ;
}

/// Writing one field does not change another field that shares no bit with it,
/// so writes to different fields of one register compose.
pub proof fn lemma_set_keeps_disjoint_field(
    reg: u32,
    lo: u32,
    width: u32,
    value: u32,
    lo2: u32,
    width2: u32,
)
    requires
        valid_field(lo, width),
        valid_field(lo2, width2),
        disjoint(lo, width, lo2, width2),
        fits(value, width),
    ensures
        field_of(with_field(reg, lo, width, value), lo2, width2) == field_of(reg, lo2, width2),
{
    assert((((reg & !(!(0xffff_ffffu32 << width) << lo)) | (value << lo)) >> lo2) & !(
    0xffff_ffffu32 << width2) == (reg >> lo2) & !(0xffff_ffffu32 << width2)) by (bit_vector)
        requires
            1 <= width < 32,
            lo + width <= 32,
            1 <= width2 < 32,
            lo2 + width2 <= 32,
            lo + width <= lo2 || lo2 + width2 <= lo,
            value <= !(0xffff_ffffu32 << width),
    ;
}

/// The masks of the field widths in common use.
pub proof fn lemma_low_masks()
    ensures
        low_mask(1) == 1,
        low_mask(2) == 3,
        low_mask(4) == 0xf,
        low_mask(8) == 0xff,
        low_mask(16) == 0xffff,
{
    assert(!(0xffff_ffffu32 << 1u32) == 1) by (bit_vector);
    assert(!(0xffff_ffffu32 << 2u32) == 3) by (bit_vector);
    assert(!(0xffff_ffffu32 << 4u32) == 0xf) by (bit_vector);
    assert(!(0xffff_ffffu32 << 8u32) == 0xff) by (bit_vector);
    assert(!(0xffff_ffffu32 << 16u32) == 0xffff) by (bit_vector);
}

/// Reads the field `(lo, width)` of `reg`.
pub fn get_field(reg: u32, lo: u32, width: u32) -> (r: u32)
    requires
        valid_field(lo, width),
    ensures
        r == field_of(reg, lo, width),
        fits(r, width),
{
    let r = (reg >> lo) & !(0xffff_ffffu32 << width);
    assert(r <= !(0xffff_ffffu32 << width)) by (bit_vector)
        requires
            r == (reg >> lo) & !(0xffff_ffffu32 << width),
    ;
    r
}

/// Returns `reg` with the field `(lo, width)` set to `value`, all other bits
/// kept.
pub fn set_field(reg: u32, lo: u32, width: u32, value: u32) -> (r: u32)
    requires
        valid_field(lo, width),
        fits(value, width),
    ensures
        r == with_field(reg, lo, width, value),
        field_of(r, lo, width) == value,
        r & !(low_mask(width) << lo) == reg & !(low_mask(width) << lo),
{
    proof {
        lemma_get_set(reg, lo, width, value);
        lemma_set_keeps_other_bits(reg, lo, width, value);
    }
    (reg & !(!(0xffff_ffffu32 << width) << lo)) | (value << lo)
}

} // verus!
