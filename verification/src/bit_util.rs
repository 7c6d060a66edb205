//! Small helpers for reading bit fields out of hardware register words.

use vstd::prelude::*;

verus! {

/// Bit `n` of `v`, as 0 or 1.
pub open spec fn sp_bit(v: u32, n: u32) -> u32
    recommends
        n < 32,
{
    (v >> n) & 1
}

/// The `len`-bit field of `v` starting at bit `off`.
pub open spec fn sp_extract(v: u32, off: u32, len: u32) -> u32
    recommends
        off + len <= 32,
        0 < len < 32,
{
    (v >> off) & (((1u32 << len) - 1) as u32)
}

/// `v` with its low `bits` bits kept and the sign bit at `bits - 1`
/// propagated through the high bits.
pub open spec fn sp_sign_extend(v: u32, bits: u32) -> u32
    recommends
        0 < bits < 32,
{
    if sp_bit(v, (bits - 1) as u32) == 1 {
        v | !(((1u32 << bits) - 1) as u32)
    } else {
        v & (((1u32 << bits) - 1) as u32)
    }
}

/// `v` rotated right by `n` bit positions.
pub open spec fn sp_ror(v: u32, n: u32) -> u32
    recommends
        n < 32,
{
    if n == 0 {
        v
    } else {
        (v >> n) | (v << ((32 - n) as u32))
    }
}

/// A masked value never exceeds the mask.
pub broadcast proof fn lemma_and_mask_le(x: u32, m: u32)
    ensures
        #[trigger] (x & m) <= m,
{
    assert(x & m <= m) by (bit_vector);
}

/// A masked 16-bit value never exceeds the mask.
pub broadcast proof fn lemma_and_mask_le_u16(x: u16, m: u16)
    ensures
        #[trigger] (x & m) <= m,
{
    assert(x & m <= m) by (bit_vector);
}

/// A small left-shifted mask bound: `1 << len` for field widths is positive.
pub broadcast proof fn lemma_shl1_pos(len: u32)
    requires
        len < 32,
    ensures
        #[trigger] (1u32 << len) >= 1,
{
    assert(len < 32 ==> (1u32 << len) >= 1) by (bit_vector);
}

/// Bit `n` of `v`, as 0 or 1.
pub fn bit(v: u32, n: u32) -> (r: u32)
    requires
        n < 32,
    ensures
        r == sp_bit(v, n),
        r <= 1,
{
    broadcast use lemma_and_mask_le;

    (v >> n) & 1
}

/// The `len`-bit field of `v` starting at bit `off`.
pub fn extract(v: u32, off: u32, len: u32) -> (r: u32)
    requires
        off + len <= 32,
        0 < len < 32,
    ensures
        r == sp_extract(v, off, len),
        r <= ((1u32 << len) - 1),
{
    broadcast use lemma_and_mask_le, lemma_shl1_pos;

    let mask: u32 = (1u32 << len) - 1;
    (v >> off) & mask
}

/// Sign-extends the low `bits` bits of `v` to the full word.
pub fn sign_extend(v: u32, bits: u32) -> (r: u32)
    requires
        0 < bits < 32,
    ensures
        r == sp_sign_extend(v, bits),
{
    broadcast use lemma_shl1_pos;

    let mask: u32 = (1u32 << bits) - 1;
    if bit(v, bits - 1) == 1 {
        v | !mask
    } else {
        v & mask
    }
}

/// Rotates `v` right by `n` bit positions.
pub fn ror(v: u32, n: u32) -> (r: u32)
    requires
        n < 32,
    ensures
        r == sp_ror(v, n),
{
    if n == 0 {
        v
    } else {
        (v >> n) | (v << (32 - n))
    }
}

} // verus!
