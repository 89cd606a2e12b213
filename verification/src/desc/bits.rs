//! Bit fields of 64-bit descriptor words.
use vstd::prelude::*;

verus! {

/// The mask of the low `width` bits.
pub open spec fn low_mask(width: u64) -> u64 {
    if width >= 64 {
        0xffff_ffff_ffff_ffffu64
    } else {
        ((1u64 << width) - 1) as u64
    }
}

/// The `width`-bit field of `w` that starts at bit `off`.
pub open spec fn field_get(w: u64, off: u64, width: u64) -> u64 {
    (w >> off) & low_mask(width)
}

/// `w` with its `width`-bit field at bit `off` replaced by the low `width` bits of `v`.
pub open spec fn field_set(w: u64, off: u64, width: u64, v: u64) -> u64 {
    (w & !(low_mask(width) << off)) | ((v & low_mask(width)) << off)
}

/// A field fits in a word.
pub open spec fn field_ok(off: u64, width: u64) -> bool {
    0 < width && off + width <= 64
}

/// Reads the `width`-bit field of `w` at bit `off`.
pub fn get_field(w: u64, off: u64, width: u64) -> (r: u64)
    requires
        field_ok(off, width),
    ensures
        r == field_get(w, off, width),
{
    proof {
        lemma_low_mask_ok(width);
    }
    let m = if width >= 64 {
        0xffff_ffff_ffff_ffffu64
    } else {
        (1u64 << width) - 1
    };
    (w >> off) & m
}

/// Writes the low `width` bits of `v` into the field of `w` at bit `off`.
pub fn set_field(w: u64, off: u64, width: u64, v: u64) -> (r: u64)
    requires
        field_ok(off, width),
    ensures
        r == field_set(w, off, width, v),
{
    proof {
        lemma_low_mask_ok(width);
    }
    let m = if width >= 64 {
        0xffff_ffff_ffff_ffffu64
    } else {
        (1u64 << width) - 1
    };
    (w & !(m << off)) | ((v & m) << off)
}

/// The mask of a field narrower than a word is one less than a power of two.
proof fn lemma_low_mask_ok(width: u64)
    ensures
        width < 64 ==> (1u64 << width) >= 1,
{
    assert(width < 64 ==> (1u64 << width) >= 1) by (bit_vector);
}

/// Reading a field after writing it gives the written value, cut to the field's width.
pub proof fn lemma_field_get_set_same(w: u64, v: u64, off: u64, width: u64)
    requires
        field_ok(off, width),
    ensures
        field_get(field_set(w, off, width, v), off, width) == v & low_mask(width),
{
    let m = low_mask(width);
    lemma_low_mask_ok(width);
    assert(width < 64 ==> m == (1u64 << width) - 1);
    assert(width >= 64 ==> m == 0xffff_ffff_ffff_ffffu64);
    assert((((w & !(m << off)) | ((v & m) << off)) >> off) & m == v & m) by (bit_vector)
        requires
            0 < width,
            off + width <= 64,
            width < 64 ==> m == (1u64 << width) - 1,
            width >= 64 ==> m == 0xffff_ffff_ffff_ffffu64,
    ;
}

/// Writing a field leaves every field that does not overlap it.
pub proof fn lemma_field_get_set_other(
    w: u64,
    v: u64,
    off: u64,
    width: u64,
    off2: u64,
    width2: u64,
)
    requires
        field_ok(off, width),
        field_ok(off2, width2),
        off + width <= off2 || off2 + width2 <= off,
    ensures
        field_get(field_set(w, off, width, v), off2, width2) == field_get(w, off2, width2),
{
    let m = low_mask(width);
    let m2 = low_mask(width2);
    lemma_low_mask_ok(width);
    lemma_low_mask_ok(width2);
    assert(width < 64 ==> m == (1u64 << width) - 1);
    assert(width >= 64 ==> m == 0xffff_ffff_ffff_ffffu64);
    assert(width2 < 64 ==> m2 == (1u64 << width2) - 1);
    assert(width2 >= 64 ==> m2 == 0xffff_ffff_ffff_ffffu64);
    assert((((w & !(m << off)) | ((v & m) << off)) >> off2) & m2 == (w >> off2) & m2)
        by (bit_vector)
        requires
            0 < width,
            off + width <= 64,
            0 < width2,
            off2 + width2 <= 64,
            off + width <= off2 || off2 + width2 <= off,
            width < 64 ==> m == (1u64 << width) - 1,
            width >= 64 ==> m == 0xffff_ffff_ffff_ffffu64,
            width2 < 64 ==> m2 == (1u64 << width2) - 1,
            width2 >= 64 ==> m2 == 0xffff_ffff_ffff_ffffu64,
    ;
}

/// A field read never exceeds the field's mask.
pub proof fn lemma_field_get_bound(w: u64, off: u64, width: u64)
    requires
        field_ok(off, width),
    ensures
        field_get(w, off, width) <= low_mask(width),
{
    let m = low_mask(width);
    assert(((w >> off) & m) <= m) by (bit_vector);
}


/// The bit that stands for a flag.
pub open spec fn bool_bit(b: bool) -> u64 {
    if b {
        1
    } else {
        0
    }
}

/// The masks of the field widths that descriptors use.
pub proof fn lemma_low_mask_values()
    ensures
        low_mask(1) == 0x1,
        low_mask(2) == 0x3,
        low_mask(3) == 0x7,
        low_mask(4) == 0xf,
        low_mask(5) == 0x1f,
        low_mask(6) == 0x3f,
        low_mask(7) == 0x7f,
        low_mask(8) == 0xff,
        low_mask(16) == 0xffff,
        low_mask(17) == 0x1_ffff,
        low_mask(24) == 0xff_ffff,
        low_mask(32) == 0xffff_ffff,
        low_mask(48) == 0xffff_ffff_ffff,
        low_mask(64) == 0xffff_ffff_ffff_ffff,
{
    assert((1u64 << 1u64) - 1 == 0x1u64
        && (1u64 << 2u64) - 1 == 0x3u64
        && (1u64 << 3u64) - 1 == 0x7u64
        && (1u64 << 4u64) - 1 == 0xfu64
        && (1u64 << 5u64) - 1 == 0x1fu64
        && (1u64 << 6u64) - 1 == 0x3fu64
        && (1u64 << 7u64) - 1 == 0x7fu64
        && (1u64 << 8u64) - 1 == 0xffu64
        && (1u64 << 16u64) - 1 == 0xffffu64
        && (1u64 << 17u64) - 1 == 0x1_ffffu64
        && (1u64 << 24u64) - 1 == 0xff_ffffu64
        && (1u64 << 32u64) - 1 == 0xffff_ffffu64
        && (1u64 << 48u64) - 1 == 0xffff_ffff_ffffu64) by (bit_vector);
}

/// A value that fits in a field is kept whole by the field's mask.
pub proof fn lemma_mask_small(x: u64, width: u64)
    requires
        0 < width <= 64,
        x <= low_mask(width),
    ensures
        x & low_mask(width) == x,
{
    let m = low_mask(width);
    lemma_low_mask_ok(width);
    assert(width < 64 ==> m == (1u64 << width) - 1);
    assert(width >= 64 ==> m == 0xffff_ffff_ffff_ffffu64);
    assert(x & m == x) by (bit_vector)
        requires
            0 < width <= 64,
            x <= m,
            width < 64 ==> m == (1u64 << width) - 1,
            width >= 64 ==> m == 0xffff_ffff_ffff_ffffu64,
    ;
}

/// Every field of the zero word is zero.
pub proof fn lemma_field_get_zero(off: u64, width: u64)
    requires
        field_ok(off, width),
    ensures
        field_get(0, off, width) == 0,
{
    let m = low_mask(width);
    assert(((0u64 >> off) & m) == 0) by (bit_vector);
}

/// A mask no wider than a smaller integer type fits in it.
proof fn lemma_low_mask_fits(width: u64)
    requires
        0 < width <= 64,
    ensures
        width <= 8 ==> low_mask(width) <= 0xff,
        width <= 16 ==> low_mask(width) <= 0xffff,
        width <= 32 ==> low_mask(width) <= 0xffff_ffff,
{
    let m = low_mask(width);
    lemma_low_mask_ok(width);
    assert(width < 64 ==> m == (1u64 << width) - 1);
    assert((width <= 8 ==> m <= 0xff) && (width <= 16 ==> m <= 0xffff) && (width <= 32 ==> m
        <= 0xffff_ffff)) by (bit_vector)
        requires
            0 < width <= 64,
            width < 64 ==> m == (1u64 << width) - 1,
    ;
}

/// Reads a one-bit flag of `w` at bit `off`.
pub fn get_bool(w: u64, off: u64) -> (r: bool)
    requires
        off < 64,
    ensures
        r == (field_get(w, off, 1) == 1),
{
    get_field(w, off, 1) == 1
}

/// Reads a field of at most eight bits.
pub fn get_u8(w: u64, off: u64, width: u64) -> (r: u8)
    requires
        field_ok(off, width),
        width <= 8,
    ensures
        r as u64 == field_get(w, off, width),
{
    let v = get_field(w, off, width);
    proof {
        lemma_field_get_bound(w, off, width);
        lemma_low_mask_fits(width);
    }
    v as u8
}

/// Reads a field of at most sixteen bits.
pub fn get_u16(w: u64, off: u64, width: u64) -> (r: u16)
    requires
        field_ok(off, width),
        width <= 16,
    ensures
        r as u64 == field_get(w, off, width),
{
    let v = get_field(w, off, width);
    proof {
        lemma_field_get_bound(w, off, width);
        lemma_low_mask_fits(width);
    }
    v as u16
}

/// Reads a field of at most thirty-two bits.
pub fn get_u32(w: u64, off: u64, width: u64) -> (r: u32)
    requires
        field_ok(off, width),
        width <= 32,
    ensures
        r as u64 == field_get(w, off, width),
{
    let v = get_field(w, off, width);
    proof {
        lemma_field_get_bound(w, off, width);
        lemma_low_mask_fits(width);
    }
    v as u32
}

/// The bit of a flag, as a word.
pub fn bit_of(b: bool) -> (r: u64)
    ensures
        r == bool_bit(b),
{
    if b {
        1
    } else {
        0
    }
}


/// The mask of a field narrower than a word is one less than a power of two; a full word's is all ones.
pub proof fn lemma_low_mask_shape(width: u64)
    ensures
        width < 64 ==> low_mask(width) == (1u64 << width) - 1,
        width >= 64 ==> low_mask(width) == 0xffff_ffff_ffff_ffffu64,
{
    lemma_low_mask_ok(width);
}

} // verus!
