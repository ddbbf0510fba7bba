//! Bit-field helpers shared by the register and descriptor types.
//!
//! A field is described by its mask (already shifted into place) and the
//! position of its lowest bit. Reading a field masks and shifts down; writing
//! a field clears the mask and ors in the shifted value.
use vstd::prelude::*;

verus! {

/// The value of the field `mask` (lowest bit at `shift`) of `x`.
pub open spec fn get_field32(x: u32, mask: u32, shift: u32) -> u32 {
    (x & mask) >> shift
}

/// `x` with the field `mask` (lowest bit at `shift`) replaced by `v`, cut to the field.
pub open spec fn set_field32(x: u32, mask: u32, shift: u32, v: u32) -> u32 {
    (x & !mask) | ((v << shift) & mask)
}

/// `x` with the field `mask` cleared and `v << shift` ored in, without cutting `v`
/// to the field.
pub open spec fn place_field32(x: u32, mask: u32, shift: u32, v: u32) -> u32 {
    (x & !mask) | (v << shift)
}

/// Whether any bit of `mask` is set in `x`.
pub open spec fn has_bits32(x: u32, mask: u32) -> bool {
    x & mask != 0
}

/// `x` with every bit of `mask` set (`on`) or cleared (`!on`).
pub open spec fn set_bits32(x: u32, mask: u32, on: bool) -> u32 {
    if on {
        x | mask
    } else {
        x & !mask
    }
}

/// The value of the field `mask` (lowest bit at `shift`) of `x`.
pub open spec fn get_field64(x: u64, mask: u64, shift: u64) -> u64 {
    (x & mask) >> shift
}

/// `x` with the field `mask` cleared and `v << shift` ored in.
pub open spec fn place_field64(x: u64, mask: u64, shift: u64, v: u64) -> u64 {
    (x & !mask) | (v << shift)
}

/// `x` with the field `mask` cleared and `v << shift` ored in.
pub open spec fn place_field16(x: u16, mask: u16, shift: u16, v: u16) -> u16 {
    (x & !mask) | (v << shift)
}

/// `x` with every bit of `mask` set (`on`) or cleared (`!on`).
pub open spec fn set_bits16(x: u16, mask: u16, on: bool) -> u16 {
    if on {
        x | mask
    } else {
        x & !mask
    }
}

pub fn field_get32(x: u32, mask: u32, shift: u32) -> (r: u32)
    requires
        shift < 32,
    ensures
        r == get_field32(x, mask, shift),
{
    (x & mask) >> shift
}

pub fn field_set32(x: u32, mask: u32, shift: u32, v: u32) -> (r: u32)
    requires
        shift < 32,
    ensures
        r == set_field32(x, mask, shift, v),
{
    (x & !mask) | ((v << shift) & mask)
}

pub fn field_place32(x: u32, mask: u32, shift: u32, v: u32) -> (r: u32)
    requires
        shift < 32,
    ensures
        r == place_field32(x, mask, shift, v),
{
    (x & !mask) | (v << shift)
}

pub fn bits_test32(x: u32, mask: u32) -> (r: bool)
    ensures
        r == has_bits32(x, mask),
{
    x & mask != 0
}

pub fn bits_update32(x: u32, mask: u32, on: bool) -> (r: u32)
    ensures
        r == set_bits32(x, mask, on),
{
    if on {
        x | mask
    } else {
        x & !mask
    }
}

pub fn field_get64(x: u64, mask: u64, shift: u64) -> (r: u64)
    requires
        shift < 64,
    ensures
        r == get_field64(x, mask, shift),
{
    (x & mask) >> shift
}

pub fn field_place64(x: u64, mask: u64, shift: u64, v: u64) -> (r: u64)
    requires
        shift < 64,
    ensures
        r == place_field64(x, mask, shift, v),
{
    (x & !mask) | (v << shift)
}

pub fn bits_update16(x: u16, mask: u16, on: bool) -> (r: u16)
    ensures
        r == set_bits16(x, mask, on),
{
    if on {
        x | mask
    } else {
        x & !mask
    }
}

/// Reading back a field that was just written gives the written value cut to
/// the field's width.
pub proof fn lemma_field32_roundtrip(x: u32, mask: u32, shift: u32, v: u32)
    by (bit_vector)
    requires
        shift < 32,
    ensures
        get_field32(set_field32(x, mask, shift, v), mask, shift) == v & (mask >> shift),
{
}

/// Writing a field leaves every bit outside the field as it was.
pub proof fn lemma_field32_frame(x: u32, mask: u32, shift: u32, v: u32)
    by (bit_vector)
    requires
        shift < 32,
    ensures
        set_field32(x, mask, shift, v) & !mask == x & !mask,
        place_field32(x, mask, shift, v) & !mask == (x & !mask) | ((v << shift) & !mask),
{
}

/// Placing a value that fits the field is writing it.
pub proof fn lemma_place32_fits(x: u32, mask: u32, shift: u32, v: u32)
    by (bit_vector)
    requires
        shift < 32,
        (v << shift) & !mask == 0,
    ensures
        place_field32(x, mask, shift, v) == set_field32(x, mask, shift, v),
{
}

/// Setting or clearing the bits of a mask is seen by the test of that mask, and
/// leaves every other bit as it was.
pub proof fn lemma_bits32(x: u32, mask: u32, on: bool)
    by (bit_vector)
    requires
        mask != 0,
    ensures
        has_bits32(set_bits32(x, mask, on), mask) == on,
        set_bits32(x, mask, on) & !mask == x & !mask,
{
}

/// Reading a 64-bit field back after placing a value that fits gives the value.
pub proof fn lemma_field64_roundtrip(x: u64, mask: u64, shift: u64, v: u64)
    by (bit_vector)
    requires
        shift < 64,
        (v << shift) & !mask == 0,
        (v << shift) >> shift == v,
    ensures
        get_field64(place_field64(x, mask, shift, v), mask, shift) == v,
        place_field64(x, mask, shift, v) & !mask == x & !mask,
{
}

/// Setting or clearing the bits of a 16-bit mask leaves every other bit as it was.
pub proof fn lemma_bits16(x: u16, mask: u16, on: bool)
    by (bit_vector)
    requires
        mask != 0,
    ensures
        (set_bits16(x, mask, on) & mask != 0) == on,
        set_bits16(x, mask, on) & !mask == x & !mask,
{
}

/// Masking never gives more than the mask.
pub proof fn lemma_and_le16(x: u16, m: u16)
    by (bit_vector)
    ensures
        x & m <= m,
{
}

/// Masking never gives more than the mask.
pub proof fn lemma_and_le32(x: u32, m: u32)
    by (bit_vector)
    ensures
        x & m <= m,
{
}

/// Masking never gives more than the mask.
pub proof fn lemma_and_le64(x: u64, m: u64)
    by (bit_vector)
    ensures
        x & m <= m,
{
}

} // verus!
