//! Consensus group identifiers.
//!
//! A group identifier packs the collection identifier into the high 32 bits
//! and the partition identifier into the low 32 bits of a `u64`.

use vstd::prelude::*;

verus! {

/// The group identifier of partition `partition_id` of collection
/// `collection_id`, as a mathematical integer.
pub open spec fn group_id(collection_id: u32, partition_id: u32) -> int {
    collection_id as int * 0x1_0000_0000 + partition_id as int
}

/// Packs `high` and `low` into one `u64`: `high` in the upper half, `low` in
/// the lower half.
pub fn merge_u32(high: u32, low: u32) -> (id: u64)
    ensures
        id as int == group_id(high, low),
        id >> 32 == high,
        id & 0xffff_ffff == low,
{
    let wide_high: u64 = high as u64;
    let wide_low: u64 = low as u64;
    let id: u64 = (wide_high << 32) | wide_low;
    assert(((wide_high << 32) | wide_low) == wide_high * 0x1_0000_0000 + wide_low) by (bit_vector)
        requires
            wide_high <= 0xffff_ffff,
            wide_low <= 0xffff_ffff,
    ;
    assert(((wide_high << 32) | wide_low) >> 32 == wide_high) by (bit_vector)
        requires
            wide_high <= 0xffff_ffff,
            wide_low <= 0xffff_ffff,
    ;
    assert(((wide_high << 32) | wide_low) & 0xffff_ffff == wide_low) by (bit_vector)
        requires
            wide_high <= 0xffff_ffff,
            wide_low <= 0xffff_ffff,
    ;
    id
}

/// Splits a group identifier into the collection and partition identifiers
/// that it was packed from.
pub fn split_u64(id: u64) -> (parts: (u32, u32))
    ensures
        group_id(parts.0, parts.1) == id as int,
{
    let high: u64 = id >> 32;
    let low: u64 = id & 0xffff_ffff;
    assert(id >> 32 <= 0xffff_ffff) by (bit_vector);
    assert(id & 0xffff_ffff <= 0xffff_ffff) by (bit_vector);
    assert((id >> 32) * 0x1_0000_0000 + (id & 0xffff_ffff) == id) by (bit_vector);
    (high as u32, low as u32)
}

/// Group identifiers are collision-free: two pairs of collection and
/// partition identifiers that give the same group identifier are the same
/// pair.
pub proof fn lemma_group_id_injective(
    collection_id: u32,
    partition_id: u32,
    other_collection_id: u32,
    other_partition_id: u32,
)
    requires
        group_id(collection_id, partition_id) == group_id(other_collection_id, other_partition_id),
    ensures
        collection_id == other_collection_id,
        partition_id == other_partition_id,
{
}

/// Every group identifier fits in 64 bits.
pub proof fn lemma_group_id_fits(collection_id: u32, partition_id: u32)
    ensures
        0 <= group_id(collection_id, partition_id) <= u64::MAX,
{
}

} // verus!
