//! The bit layout of an identifier.
use vstd::prelude::*;

verus! {

/// Number of sequence values in one millisecond slot.
pub const SEQUENCE_SPAN: u16 = 4096;

/// The identifier for a timestamp, a machine, a node and a sequence number:
/// bits 63 to 22 hold the timestamp, 21 to 17 the machine, 16 to 12 the node
/// and 11 to 0 the sequence number. Values out of their field spill into the
/// neighbouring ones.
pub open spec fn pack(time: i64, machine_id: i32, node_id: i32, idx: u16) -> i64 {
    (time << 22u64) | ((machine_id << 17u32) as i64) | ((node_id << 12u32) as i64) | (idx as i64)
}

/// The identifier, computed.
pub fn pack_id(time: i64, machine_id: i32, node_id: i32, idx: u16) -> (r: i64)
    ensures
        r == pack(time, machine_id, node_id, idx),
{
    time << 22u64 | ((machine_id << 17u32) as i64) | ((node_id << 12u32) as i64) | (idx as i64)
}

/// Largest timestamp, exclusive, that leaves the sign bit of an identifier clear.
pub const TIME_LIMIT: i64 = 0x200_0000_0000;

/// The identifier's value as a number, when every field fits its bits.
pub open spec fn id_value(time: int, machine_id: int, node_id: int, idx: int) -> int {
    time * 0x40_0000 + machine_id * 0x2_0000 + node_id * 0x1000 + idx
}

/// Whether a machine or node identity fits its five bits.
pub open spec fn fits_identity(x: i32) -> bool {
    0 <= x < 32
}

/// Whether a timestamp fits its field with the sign bit clear.
pub open spec fn fits_time(t: i64) -> bool {
    0 <= t < TIME_LIMIT
}

/// When every field fits, the layout is plain positional notation.
pub proof fn lemma_pack_value(time: i64, machine_id: i32, node_id: i32, idx: u16)
    requires
        fits_time(time),
        fits_identity(machine_id),
        fits_identity(node_id),
        idx < SEQUENCE_SPAN,
    ensures
        pack(time, machine_id, node_id, idx) as int == id_value(
            time as int,
            machine_id as int,
            node_id as int,
            idx as int,
        ),
{
    assert(pack(time, machine_id, node_id, idx) == time * 0x40_0000 + machine_id * 0x2_0000
        + node_id * 0x1000 + idx) by (bit_vector)
        requires
            0 <= time < 0x200_0000_0000i64,
            0 <= machine_id < 32i32,
            0 <= node_id < 32i32,
            idx < 4096u16,
    ;
}

/// Bits 16 to 12 of an identifier hold the node identity, truncated to five
/// bits, whatever the other fields hold.
pub proof fn lemma_node_field(time: i64, machine_id: i32, node_id: i32, idx: u16)
    requires
        idx < SEQUENCE_SPAN,
    ensures
        (pack(time, machine_id, node_id, idx) >> 12u64) & 31 == (node_id & 31) as i64,
{
    assert((pack(time, machine_id, node_id, idx) >> 12u64) & 31 == (node_id & 31) as i64)
        by (bit_vector)
        requires
            idx < 4096u16,
    ;
}

/// Bits 21 to 17 of an identifier hold the machine identity, truncated to
/// five bits, when the node identity fits its own field.
pub proof fn lemma_machine_field(time: i64, machine_id: i32, node_id: i32, idx: u16)
    requires
        fits_identity(node_id),
        idx < SEQUENCE_SPAN,
    ensures
        (pack(time, machine_id, node_id, idx) >> 17u64) & 31 == (machine_id & 31) as i64,
{
    assert((pack(time, machine_id, node_id, idx) >> 17u64) & 31 == (machine_id & 31) as i64)
        by (bit_vector)
        requires
            0 <= node_id < 32i32,
            idx < 4096u16,
    ;
}

} // verus!
