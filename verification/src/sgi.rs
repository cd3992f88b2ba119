//! Software-generated-interrupt routing-word encoding.
//!
//! An SGI is issued by one 64-bit coprocessor write whose low word packs
//! the interrupt id, the routing mode and the target list, and whose
//! high word carries the affinity (cluster-selection) fields, fixed at
//! zero in this single-cluster design.  Three addressing modes exist:
//! an explicit per-core target list, all cores except the issuing one
//! (routing-mode bit set, target list ignored by receivers), and the
//! issuing core alone.

use vstd::prelude::*;
use crate::bits::bit_set;

verus! {

/// Filter selecting explicit target-list addressing.
pub const SGI_TARGET_LIST: u32 = 0x0 << 24;

/// Filter selecting delivery to every core in the cluster but the
/// issuing one.
pub const SGI_TARGET_ALL_EXCEPT_SELF: u32 = 0x1 << 24;

/// Filter selecting delivery to the issuing core alone.
pub const SGI_TARGET_SELF: u32 = 0x2 << 24;

/// Bit position of the SGI id byte in the routing word.
pub const SGI_ID_SHIFT: u32 = 24;

/// Bit position of the routing-mode (broadcast) bit in the routing word.
pub const SGI_ROUTING_MODE_SHIFT: u32 = 16;

/// One issued SGI: the routing word and the affinity word of the 64-bit
/// coprocessor write.
#[derive(Clone, Copy, Debug, PartialEq, Eq, Structural)]
pub struct SgiRequest {
    /// Low word: id byte, routing-mode bit, 16-bit target mask.
    pub routing: u32,
    /// High word: affinity fields, zero in this single-cluster design.
    pub affinity: u32,
}

/// The routing word for SGI `sgi_id`: the id in the top byte, the
/// routing-mode bit when broadcasting to all other cores, and the
/// per-core target mask in the low 16 bits (ignored by receivers when
/// the routing-mode bit is set).
pub open spec fn sgi_routing_word(sgi_id: u8, broadcast: bool, targets: u16) -> u32 {
    ((sgi_id as u32) << SGI_ID_SHIFT) | (if broadcast {
        1u32 << SGI_ROUTING_MODE_SHIFT
    } else {
        0u32
    }) | (targets as u32)
}

/// The id byte a receiver decodes from a routing word.
pub open spec fn routing_word_id(word: u32) -> u32 {
    (word >> SGI_ID_SHIFT) & 0xFF
}

/// Whether a routing word selects all-except-self routing.
pub open spec fn routing_word_is_broadcast(word: u32) -> bool {
    bit_set(word, SGI_ROUTING_MODE_SHIFT)
}

/// The target mask a receiver decodes from a routing word.
pub open spec fn routing_word_targets(word: u32) -> u16 {
    (word & 0xFFFF) as u16
}

/// The target mask an SGI send actually addresses: the issuing core
/// alone under the self filter, the caller's mask otherwise.
pub open spec fn effective_target_mask(target_list: u16, filter: u32) -> u16 {
    if filter == SGI_TARGET_SELF {
        1u16
    } else {
        target_list
    }
}

/// Whether a filter selects all-except-self routing.
pub open spec fn is_broadcast_filter(filter: u32) -> bool {
    filter == SGI_TARGET_ALL_EXCEPT_SELF
}

/// Whether an SGI send addresses the issuing core itself (core 0 of the
/// single modelled cluster): broadcast routing excludes the issuer, and
/// target-list routing includes it exactly when bit 0 of the effective
/// mask is set.
pub open spec fn targets_executing_core(target_list: u16, filter: u32) -> bool {
    !is_broadcast_filter(filter) && (effective_target_mask(target_list, filter) & 1) != 0
}

/// Build the routing word for an SGI send.
pub fn encode_routing_word(sgi_id: u8, broadcast: bool, targets: u16) -> (word: u32)
    ensures
        word == sgi_routing_word(sgi_id, broadcast, targets),
        routing_word_id(word) == sgi_id,
        routing_word_is_broadcast(word) == broadcast,
        routing_word_targets(word) == targets,
{
    let mode: u32 = if broadcast {
        1u32 << SGI_ROUTING_MODE_SHIFT
    } else {
        0u32
    };
    let word = ((sgi_id as u32) << SGI_ID_SHIFT) | mode | (targets as u32);
    proof {
        lemma_routing_word_fields(sgi_id, broadcast, targets);
    }
    word
}

/// Decoding a routing word recovers exactly what was encoded: the id
/// byte, the routing-mode bit and the target mask do not disturb one
/// another.
pub proof fn lemma_routing_word_fields(sgi_id: u8, broadcast: bool, targets: u16)
    by (bit_vector)
    ensures
        routing_word_id(sgi_routing_word(sgi_id, broadcast, targets)) == sgi_id,
        routing_word_is_broadcast(sgi_routing_word(sgi_id, broadcast, targets)) == broadcast,
        routing_word_targets(sgi_routing_word(sgi_id, broadcast, targets)) == targets,
{
}

/// The three addressing-mode filter values are pairwise distinct.
pub proof fn lemma_filter_constants()
    by (bit_vector)
    ensures
        SGI_TARGET_LIST != SGI_TARGET_ALL_EXCEPT_SELF,
        SGI_TARGET_LIST != SGI_TARGET_SELF,
        SGI_TARGET_ALL_EXCEPT_SELF != SGI_TARGET_SELF,
{
}

/// A single-core target mask addresses the issuing core exactly when it
/// names core 0.
pub proof fn lemma_single_target_bit(cpu_id: u16)
    by (bit_vector)
    requires
        cpu_id < 16,
    ensures
        ((1u16 << cpu_id) & 1 != 0) == (cpu_id == 0),
{
}

} // verus!
