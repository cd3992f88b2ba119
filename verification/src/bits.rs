//! Bit-level and byte-lane arithmetic shared by the register blocks.
//!
//! The GIC packs per-interrupt state into 32-bit registers two ways: one
//! bit per interrupt id (group, enable, pending, active) and one priority
//! byte per interrupt id, four ids per register.  The spec functions here
//! name those encodings, and the lemmas state the read-back and isolation
//! facts the driver contracts rely on.

use vstd::prelude::*;

verus! {

/// True when bit `i` of `w` is set.
pub open spec fn bit_set(w: u32, i: u32) -> bool
    recommends
        i < 32,
{
    w & (1u32 << i) != 0
}

/// `w` with bit `i` set (the effect of a write-one-to-set register).
pub open spec fn with_bit_set(w: u32, i: u32) -> u32
    recommends
        i < 32,
{
    w | (1u32 << i)
}

/// `w` with bit `i` cleared (the effect of a write-one-to-clear register).
pub open spec fn with_bit_clear(w: u32, i: u32) -> u32
    recommends
        i < 32,
{
    w & !(1u32 << i)
}

/// Byte lane `k` of register `w`: the priority byte of the `k`-th of the
/// four interrupt ids sharing that register.
pub open spec fn lane(w: u32, k: u32) -> u8
    recommends
        k < 4,
{
    ((w >> (8 * k)) & 0xFF) as u8
}

/// `w` with byte lane `k` replaced by `p` and the other three lanes kept.
pub open spec fn with_lane(w: u32, k: u32, p: u8) -> u32
    recommends
        k < 4,
{
    (w & !(0xFFu32 << (8 * k))) | ((p as u32) << (8 * k))
}

/// A priority register holding the same priority byte `p` in all four lanes.
pub open spec fn uniform_priority_word(p: u8) -> u32 {
    ((p as u32) << 24) | ((p as u32) << 16) | ((p as u32) << 8) | (p as u32)
}

/// Setting bit `i` makes bit `i` read back set and leaves every other bit
/// unchanged; clearing bit `i` makes it read back clear, likewise without
/// disturbing any other bit.
pub proof fn lemma_bit_update(w: u32, i: u32, j: u32)
    by (bit_vector)
    requires
        i < 32,
        j < 32,
    ensures
        bit_set(with_bit_set(w, i), i),
        !bit_set(with_bit_clear(w, i), i),
        i != j ==> bit_set(with_bit_set(w, i), j) == bit_set(w, j),
        i != j ==> bit_set(with_bit_clear(w, i), j) == bit_set(w, j),
{
}

/// Writing priority `p` into lane `k` yields `p` on read-back of that lane
/// and leaves the other three lanes of the register unchanged.
pub proof fn lemma_lane_update(w: u32, k: u32, k2: u32, p: u8)
    by (bit_vector)
    requires
        k < 4,
        k2 < 4,
    ensures
        lane(with_lane(w, k, p), k) == p,
        k != k2 ==> lane(with_lane(w, k, p), k2) == lane(w, k2),
{
}

/// Masking facts for whole-register writes: or-ing a mask in makes the
/// mask read back set, and a mask covers itself.
pub proof fn lemma_or_mask(w: u32, m: u32)
    by (bit_vector)
    ensures
        (w | m) & m == m,
        m & m == m,
{
}

/// Or-ing all ones saturates a register, and or-ing anything into an
/// all-ones register leaves it all ones.
pub proof fn lemma_or_all_ones(w: u32)
    by (bit_vector)
    ensures
        w | 0xFFFF_FFFFu32 == 0xFFFF_FFFFu32,
        0xFFFF_FFFFu32 | w == 0xFFFF_FFFFu32,
{
}

/// Every lane of a uniform priority word reads back the common byte.
pub proof fn lemma_uniform_lanes(p: u8, k: u32)
    by (bit_vector)
    requires
        k < 4,
    ensures
        lane(uniform_priority_word(p), k) == p,
{
}

} // verus!
