//! The bit-level register constants and tables.
//!
//! The backends steer lanes with three kinds of bit pattern: per-lane
//! select masks (all-one bits in the kept lanes), per-lane sign-flip masks
//! (only the sign bit of one lane set), and shuffle descriptors — a packed
//! two-bit immediate on the families that take one, a 16-entry byte table on
//! the family that permutes bytes. Their content is architecture-independent;
//! only the register type carrying them differs. This module pins that
//! content exactly, together with the two bit tricks the patterns exist for.

use vstd::prelude::*;

verus! {

/// A lane with every bit set: AND with it keeps the lane.
pub const ALL_BITS: u32 = 0xFFFF_FFFF;

/// Only the sign bit of a lane: XOR with it flips the lane's sign.
pub const SIGN_BIT: u32 = 0x8000_0000;

/// The select mask that keeps the first `k` lanes and zeroes the rest:
/// the cumulative x / xy / xyz / xyzw prefixes.
pub fn mask_prefix_bits(k: usize) -> (r: [u32; 4])
    requires
        k <= 4,
    ensures
        forall|i: int| 0 <= i < 4 ==> r@[i] == (if i < k { ALL_BITS } else { 0u32 }),
{
    let mut m: [u32; 4] = [0, 0, 0, 0];
    if k > 0 {
        m[0] = ALL_BITS;
    }
    if k > 1 {
        m[1] = ALL_BITS;
    }
    if k > 2 {
        m[2] = ALL_BITS;
    }
    if k > 3 {
        m[3] = ALL_BITS;
    }
    m
}

/// The select mask that keeps exactly one lane.
pub fn mask_single_bits(lane: usize) -> (r: [u32; 4])
    requires
        lane < 4,
    ensures
        forall|i: int| 0 <= i < 4 ==> r@[i] == (if i == lane { ALL_BITS } else { 0u32 }),
{
    let mut m: [u32; 4] = [0, 0, 0, 0];
    m[lane] = ALL_BITS;
    m
}

/// The sign-flip mask for one lane.
pub fn flip_single_bits(lane: usize) -> (r: [u32; 4])
    requires
        lane < 4,
    ensures
        forall|i: int| 0 <= i < 4 ==> r@[i] == (if i == lane { SIGN_BIT } else { 0u32 }),
{
    let mut m: [u32; 4] = [0, 0, 0, 0];
    m[lane] = SIGN_BIT;
    m
}

/// AND with the all-one pattern passes a lane's bits through unchanged; AND
/// with the all-zero pattern clears them. This is why the select masks
/// above implement "keep these lanes, neutralize those".
pub proof fn lemma_mask_selects(bits: u32)
    ensures
        bits & ALL_BITS == bits,
        bits & 0u32 == 0u32,
{
    assert(bits & 0xFFFF_FFFFu32 == bits) by (bit_vector);
    assert(bits & 0u32 == 0u32) by (bit_vector);
}

/// XOR with the sign-only pattern toggles exactly the top bit of a lane and
/// leaves the lower 31 bits — the encoded magnitude — untouched. This is
/// why one XOR negates a lane in place.
pub proof fn lemma_flip_toggles_sign(bits: u32)
    ensures
        (bits ^ SIGN_BIT) & 0x7FFF_FFFFu32 == bits & 0x7FFF_FFFFu32,
        (bits ^ SIGN_BIT) >> 31u32 == 1u32 - (bits >> 31u32),
{
    assert((bits ^ 0x8000_0000u32) & 0x7FFF_FFFFu32 == bits & 0x7FFF_FFFFu32) by (bit_vector);
    assert(bits >> 31u32 == 0u32 || bits >> 31u32 == 1u32) by (bit_vector);
    assert((bits ^ 0x8000_0000u32) >> 31u32 == 1u32 - (bits >> 31u32)) by (bit_vector);
}

/// The byte table that permutes lanes `(i0, i1, i2, i3)` on the
/// byte-shuffling family: result byte `j` must fetch source byte
/// `4 * i(j / 4) + j % 4`, so each group of four entries walks one source
/// lane's four bytes in order.
pub fn shuffle_mask<const I0: u8, const I1: u8, const I2: u8, const I3: u8>() -> (r: [u8; 16])
    requires
        I0 < 4,
        I1 < 4,
        I2 < 4,
        I3 < 4,
    ensures
        forall|j: int| 0 <= j < 4 ==> r@[j] == I0 * 4 + j,
        forall|j: int| 4 <= j < 8 ==> r@[j] == I1 * 4 + (j - 4),
        forall|j: int| 8 <= j < 12 ==> r@[j] == I2 * 4 + (j - 8),
        forall|j: int| 12 <= j < 16 ==> r@[j] == I3 * 4 + (j - 12),
{
    [
        (I0 * 4),
        (I0 * 4) + 1,
        (I0 * 4) + 2,
        (I0 * 4) + 3,
        (I1 * 4),
        (I1 * 4) + 1,
        (I1 * 4) + 2,
        (I1 * 4) + 3,
        (I2 * 4),
        (I2 * 4) + 1,
        (I2 * 4) + 2,
        (I2 * 4) + 3,
        (I3 * 4),
        (I3 * 4) + 1,
        (I3 * 4) + 2,
        (I3 * 4) + 3,
    ]
}

/// Unpacks a two-bit-per-lane shuffle immediate: result lane `k` of the
/// shuffle is source lane `(imm >> 2k) & 3`.
pub fn decode_shuffle_imm(imm: u8) -> (r: [u8; 4])
    ensures
        r@[0] == imm & 3u8,
        r@[1] == (imm >> 2u8) & 3u8,
        r@[2] == (imm >> 4u8) & 3u8,
        r@[3] == (imm >> 6u8) & 3u8,
        forall|k: int| 0 <= k < 4 ==> r@[k] < 4,
{
    let r = [imm & 3, (imm >> 2) & 3, (imm >> 4) & 3, (imm >> 6) & 3];
    proof {
        assert(imm & 3u8 < 4u8) by (bit_vector);
        assert((imm >> 2u8) & 3u8 < 4u8) by (bit_vector);
        assert((imm >> 4u8) & 3u8 < 4u8) by (bit_vector);
        assert((imm >> 6u8) & 3u8 < 4u8) by (bit_vector);
    }
    r
}

/// Packs four lane indices into the two-bit-per-lane immediate;
/// `decode_shuffle_imm` recovers them exactly.
pub fn encode_shuffle_imm(i0: u8, i1: u8, i2: u8, i3: u8) -> (r: u8)
    requires
        i0 < 4,
        i1 < 4,
        i2 < 4,
        i3 < 4,
    ensures
        r & 3u8 == i0,
        (r >> 2u8) & 3u8 == i1,
        (r >> 4u8) & 3u8 == i2,
        (r >> 6u8) & 3u8 == i3,
{
    let r = i0 | (i1 << 2) | (i2 << 4) | (i3 << 6);
    proof {
        assert((i0 | (i1 << 2u8) | (i2 << 4u8) | (i3 << 6u8)) & 3u8 == i0 && ((i0 | (i1 << 2u8)
            | (i2 << 4u8) | (i3 << 6u8)) >> 2u8) & 3u8 == i1 && ((i0 | (i1 << 2u8) | (i2 << 4u8)
            | (i3 << 6u8)) >> 4u8) & 3u8 == i2 && ((i0 | (i1 << 2u8) | (i2 << 4u8) | (i3
            << 6u8)) >> 6u8) & 3u8 == i3) by (bit_vector)
            requires
                i0 < 4u8 && i1 < 4u8 && i2 < 4u8 && i3 < 4u8,
        ;
    }
    r
}

/// The immediate the 3-component cross product shuffles with, `0b00001001`,
/// decodes to the lane rotation (1, 2, 0) — (y, z, x) — with lane 0 again
/// in the padding slot.
pub proof fn lemma_cross_shuffle_immediate()
    ensures
        0b00_00_10_01u8 & 3u8 == 1u8,
        (0b00_00_10_01u8 >> 2u8) & 3u8 == 2u8,
        (0b00_00_10_01u8 >> 4u8) & 3u8 == 0u8,
        (0b00_00_10_01u8 >> 6u8) & 3u8 == 0u8,
{
    assert(0b00_00_10_01u8 & 3u8 == 1u8) by (bit_vector);
    assert((0b00_00_10_01u8 >> 2u8) & 3u8 == 2u8) by (bit_vector);
    assert((0b00_00_10_01u8 >> 4u8) & 3u8 == 0u8) by (bit_vector);
    assert((0b00_00_10_01u8 >> 6u8) & 3u8 == 0u8) by (bit_vector);
}

} // verus!
