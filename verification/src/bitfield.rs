//! Bit fields of 32 bit register and message words.
use vstd::prelude::*;
use vstd::arithmetic::power2::pow2;
use vstd::bits::lemma_u32_pow2_no_overflow;
use vstd::bits::lemma_u32_shl_is_mul;

verus! {

/// The mask of the `w` low bits (`1 <= w <= 31`).
pub open spec fn field_mask(w: u32) -> u32 {
    ((1u32 << w) - 1) as u32
}

/// The `w` bits of `raw` that start at bit `lo`.
pub open spec fn get_field(raw: u32, lo: u32, w: u32) -> u32 {
    (raw >> lo) & field_mask(w)
}

/// `raw` with the `w` bits that start at bit `lo` replaced by `v`.
pub open spec fn set_field(raw: u32, lo: u32, w: u32, v: u32) -> u32 {
    (raw & !(field_mask(w) << lo)) | ((v & field_mask(w)) << lo)
}

/// Whether a field of `w` bits at `lo` fits in a 32 bit word.
pub open spec fn field_ok(lo: u32, w: u32) -> bool {
    1 <= w <= 31 && lo + w <= 32
}

/// Reads the `w` bits of `raw` that start at bit `lo`.
pub fn read_field(raw: u32, lo: u32, w: u32) -> (r: u32)
    requires
        field_ok(lo, w),
    ensures
        r == get_field(raw, lo, w),
        r < (1u32 << w),
        (r as nat) < pow2(w as nat),
{
    proof {
        lemma_u32_pow2_no_overflow(w as nat);
        lemma_u32_shl_is_mul(1u32, w);
        assert(((raw >> lo) & (((1u32 << w) - 1) as u32)) < (1u32 << w)) by (bit_vector)
            requires
                1 <= w <= 31,
        ;
    }
    (raw >> lo) & ((1u32 << w) - 1)
}

/// Replaces the `w` bits of `raw` that start at bit `lo` by `v`.
pub fn write_field(raw: u32, lo: u32, w: u32, v: u32) -> (r: u32)
    requires
        field_ok(lo, w),
    ensures
        r == set_field(raw, lo, w, v),
{
    proof {
        assert((1u32 << w) >= 1) by (bit_vector)
            requires
                1 <= w <= 31,
        ;
    }
    (raw & !(((1u32 << w) - 1) << lo)) | ((v & ((1u32 << w) - 1)) << lo)
}

/// Reading a field that was just written gives the value written, when
/// it fits the field.
pub proof fn lemma_get_set_same(raw: u32, lo: u32, w: u32, v: u32)
    requires
        field_ok(lo, w),
        v < (1u32 << w),
    ensures
        get_field(set_field(raw, lo, w, v), lo, w) == v,
{
    assert(((((raw & !((((1u32 << w) - 1) as u32) << lo)) | ((v & (((1u32 << w) - 1) as u32)) << lo)) >> lo) & (((1u32 << w) - 1) as u32)) == v) by (bit_vector)
        requires
            1 <= w <= 31,
            lo + w <= 32,
            v < (1u32 << w),
    ;
}

/// Writing a field leaves every field that does not overlap it as it
/// was.
pub proof fn lemma_get_set_other(raw: u32, lo: u32, w: u32, v: u32, lo2: u32, w2: u32)
    requires
        field_ok(lo, w),
        field_ok(lo2, w2),
        lo + w <= lo2 || lo2 + w2 <= lo,
    ensures
        get_field(set_field(raw, lo, w, v), lo2, w2) == get_field(raw, lo2, w2),
{
    assert(((((raw & !((((1u32 << w) - 1) as u32) << lo)) | ((v & (((1u32 << w) - 1) as u32)) << lo)) >> lo2) & (((1u32 << w2) - 1) as u32)) == ((raw >> lo2) & (((1u32 << w2) - 1) as u32))) by (bit_vector)
        requires
            1 <= w <= 31,
            lo + w <= 32,
            1 <= w2 <= 31,
            lo2 + w2 <= 32,
            lo + w <= lo2 || lo2 + w2 <= lo,
    ;
}

} // verus!
