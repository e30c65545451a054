//! Fixed shape of one event-table step: its height, its columns and the
//! rotation ranges that the regions of the allocator occupy.
use vstd::prelude::*;

verus! {

/// Number of rows of one step.
pub const ETABLE_STEP_SIZE: i32 = 20;

/// Number of dedicated nibble columns, one per 64-bit cell.
pub const U4_COLUMNS: usize = 3;

/// Nibbles written for one 64-bit value.
pub const U64_NIBBLES: usize = 16;

/// First free rotation of the bit column (rotation 0 holds the enable flag).
pub const BIT_START: i32 = 1;

/// First free rotation of the common-range column (rotations below it hold
/// the shared state: remaining ops, input index, eid, moid, fid, iid, sp, opcode).
pub const COMMON_RANGE_START: i32 = 9;

/// Rotation of the single jump-table lookup slot of the aux column
/// (rotation 0 holds the instruction-table lookup).
pub const JTABLE_LOOKUP: i32 = 1;

/// First memory-table lookup rotation of the aux column.
pub const MTABLE_LOOKUP_START: i32 = 2;

/// Number of memory-table lookup slots.
pub const MTABLE_LOOKUPS_SIZE: i32 = 6;

/// First 64-bit value rotation of the aux column.
pub const U64_START: i32 = MTABLE_LOOKUP_START + MTABLE_LOOKUPS_SIZE;

/// First rotation of the aux column that is free for plain values.
pub const SHARED_START: i32 = U64_START + 3;

/// A handle to one advice column of the circuit.
#[derive(Clone, Copy, PartialEq, Eq, Structural, Debug)]
pub struct Column {
    pub index: usize,
}

/// The columns that every opcode of the event table shares.
#[derive(Clone, Copy, Debug)]
pub struct EventTableCommonConfig {
    pub shared_bits: Column,
    pub state: Column,
    pub aux: Column,
    pub u4_shared: [Column; U4_COLUMNS],
}

impl EventTableCommonConfig {
    /// The nibble column with the given position.
    pub open spec fn u4(&self, i: int) -> Column {
        self.u4_shared@[i]
    }

    /// All columns are pairwise distinct.
    pub open spec fn wf(&self) -> bool {
        &&& self.shared_bits.index != self.state.index
        &&& self.shared_bits.index != self.aux.index
        &&& self.state.index != self.aux.index
        &&& forall|i: int|
            0 <= i < U4_COLUMNS ==> {
                &&& self.u4(i).index != self.shared_bits.index
                &&& self.u4(i).index != self.state.index
                &&& self.u4(i).index != self.aux.index
            }
        &&& forall|i: int, j: int|
            0 <= i < j < U4_COLUMNS ==> self.u4(i).index != self.u4(j).index
    }
}

} // verus!
