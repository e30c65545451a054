//! The host-input opcode: a host call that reads one 64-bit input, optionally
//! revealed as a public input.
use vstd::prelude::*;
use crate::allocator::{EventTableCellAllocator, Region};
use crate::cell::{nibble_sum, pow16, BitCell, MTableLookupCell, U64Cell};
use crate::opcode::{default_next_iid, digits_value, opcode_tag, opcode_tag_digits, FOREIGN_PLUGIN_START};

verus! {

/// Value types of WebAssembly.
#[derive(Clone, Copy, PartialEq, Eq, Structural, Debug)]
pub enum VarType {
    I32,
    I64,
}

/// Host plugins that a host call can reach.
#[derive(Clone, Copy, PartialEq, Eq, Structural, Debug)]
pub enum HostPlugin {
    HostInput,
    Context,
    Require,
}

/// Where a memory access lands.
#[derive(Clone, Copy, PartialEq, Eq, Structural, Debug)]
pub enum LocationType {
    Stack,
    Heap,
    Global,
}

/// Execution ids that bound one memory access of a step.
#[derive(Clone, Copy, PartialEq, Eq, Structural, Debug)]
pub struct MemoryRwEntry {
    pub start_eid: u32,
    pub end_eid: u32,
}

/// A host call of the trace, with the memory accesses it makes.
pub struct CallHostEntry {
    pub plugin: HostPlugin,
    /// The flag that marks the input as public (1) or private (0).
    pub public_flag: u64,
    pub args: Vec<u64>,
    pub param_types: Vec<VarType>,
    pub ret_val: Option<u64>,
    pub return_type: Option<VarType>,
    pub memory_rw_entries: Vec<MemoryRwEntry>,
}

/// The shared state of the row being assigned.
#[derive(Clone, Copy, PartialEq, Eq, Structural, Debug)]
pub struct StepStatus {
    pub eid: u32,
    pub sp: u32,
    pub iid: u32,
    pub input_index: u64,
}

/// A memory-table read that a row binds.
#[derive(Clone, Copy, PartialEq, Eq, Structural, Debug)]
pub struct MemoryReadLookup {
    pub start_eid: u32,
    pub eid: u32,
    pub end_eid: u32,
    pub offset: u64,
    pub location: LocationType,
    pub is_i32: bool,
    pub value: u64,
}

/// A memory-table write that a row binds.
#[derive(Clone, Copy, PartialEq, Eq, Structural, Debug)]
pub struct MemoryWriteLookup {
    pub eid: u32,
    pub end_eid: u32,
    pub offset: u64,
    pub location: LocationType,
    pub is_i32: bool,
    pub value: u64,
}

/// The values that one row of the host-input opcode writes.
pub struct WasmInputAssignment {
    pub is_public: bool,
    pub value: u64,
    pub value_nibbles: Vec<u64>,
    pub read_stack: MemoryReadLookup,
    pub write_stack: MemoryWriteLookup,
    /// How far the public-input cursor advances.
    pub input_index_delta: u64,
    /// The operand of the public-input table lookup: zero when the input is
    /// private, which every table contains.
    pub input_table_key: u128,
}

/// Builds the host-input opcode for the plugin at `index`.
pub struct ETableWasmInputHelperTableConfigBuilder {
    pub index: usize,
}

/// The cells of the host-input opcode.
pub struct ETableWasmInputHelperTableConfig {
    pub plugin_index: usize,
    pub is_public: BitCell,
    pub value: U64Cell,
    pub lookup_read_stack: MTableLookupCell,
    pub lookup_write_stack: MTableLookupCell,
}

/// The public-input table's encoding of the input at `index` with `value`.
pub open spec fn input_table_encoding(index: nat, value: nat) -> nat {
    index * 0x1_0000_0000_0000_0000 + value
}

/// Encodes the input at `index` with `value` as one public-input table entry.
pub fn encode_for_lookup(index: u64, value: u64) -> (r: u128)
    ensures
        r == input_table_encoding(index as nat, value as nat),
{
    assert((index as nat) * 0x1_0000_0000_0000_0000 + (value as nat) <= u128::MAX) by (nonlinear_arith)
        requires
            index <= u64::MAX,
            value <= u64::MAX,
    ;
    index as u128 * 0x1_0000_0000_0000_0000u128 + value as u128
}

/// Whether a host call is of the shape that the host-input opcode assigns:
/// one `i32` argument, an `i64` result, a stack read and a stack write.
pub open spec fn well_shaped(entry: &CallHostEntry) -> bool {
    &&& entry.args@.len() == 1
    &&& entry.param_types@.len() >= 1
    &&& entry.param_types@[0] == VarType::I32
    &&& entry.ret_val.is_some()
    &&& entry.return_type == Some(VarType::I64)
    &&& entry.memory_rw_entries@.len() >= 2
}

impl ETableWasmInputHelperTableConfigBuilder {
    pub fn new(index: usize) -> (r: Self)
        ensures
            r.index == index,
    {
        Self { index }
    }

    /// Allocates the opcode's cells: a public flag, a 64-bit value and two
    /// memory-table lookups, one reading the stack slot and one writing it.
    pub fn configure(self, allocator: &mut EventTableCellAllocator) -> (r: ETableWasmInputHelperTableConfig)
        requires
            old(allocator).wf(),
            old(allocator).can_alloc(Region::Bit),
            old(allocator).can_alloc(Region::U64),
            old(allocator).remaining(Region::MTableLookup) >= 2,
        ensures
            *final(allocator) == old(allocator).after(Region::Bit).after(Region::U64).after(
                Region::MTableLookup,
            ).after(Region::MTableLookup),
            final(allocator).wf(),
            r.plugin_index == self.index,
            (r.is_public.col.index as int, r.is_public.rot as int) == old(allocator).next_slot(Region::Bit),
            (r.value.value_col.index as int, r.value.value_rot as int) == old(allocator).next_slot(Region::U64),
            r.value.u4_col == old(allocator).config.u4(old(allocator).u64_index as int),
            r.lookup_read_stack.col == old(allocator).config.aux,
            r.lookup_read_stack.rot == old(allocator).mtable_lookup_index,
            r.lookup_write_stack.col == old(allocator).config.aux,
            r.lookup_write_stack.rot == old(allocator).mtable_lookup_index + 1,
    {
        let is_public = allocator.alloc_bit_value();
        let value = allocator.alloc_u64();
        let lookup_read_stack = allocator.alloc_mtable_lookup();
        let lookup_write_stack = allocator.alloc_mtable_lookup();
        ETableWasmInputHelperTableConfig {
            plugin_index: self.index,
            is_public,
            value,
            lookup_read_stack,
            lookup_write_stack,
        }
    }
}

impl ETableWasmInputHelperTableConfig {
    /// The opcode's tag, as base-2^64 digits, least significant first.
    pub fn opcode(&self) -> (r: Vec<u64>)
        requires
            FOREIGN_PLUGIN_START + self.plugin_index <= u64::MAX,
        ensures
            digits_value(r@) == opcode_tag((FOREIGN_PLUGIN_START + self.plugin_index) as nat),
    {
        opcode_tag_digits(FOREIGN_PLUGIN_START + self.plugin_index as u64)
    }

    /// The values that the row of `entry` writes: the flag, the result and
    /// its nibbles, a read of the argument from the stack slot above `sp`
    /// and a write of the result to that slot.
    pub fn assign(&self, step: &StepStatus, entry: &CallHostEntry) -> (r: WasmInputAssignment)
        requires
            well_shaped(entry),
        ensures
            r.is_public == (entry.public_flag == 1),
            r.value == entry.ret_val->0,
            nibble_sum(r.value_nibbles@) == r.value,
            r.value_nibbles@.len() == 16,
            forall|i: int| 0 <= i < 16 ==> r.value_nibbles@[i] == (r.value as nat / pow16(i as nat)) % 16,
            r.read_stack == (MemoryReadLookup {
                start_eid: entry.memory_rw_entries@[0].start_eid,
                eid: step.eid,
                end_eid: entry.memory_rw_entries@[0].end_eid,
                offset: (step.sp + 1) as u64,
                location: LocationType::Stack,
                is_i32: true,
                value: entry.args@[0],
            }),
            r.write_stack == (MemoryWriteLookup {
                eid: step.eid,
                end_eid: entry.memory_rw_entries@[1].end_eid,
                offset: (step.sp + 1) as u64,
                location: LocationType::Stack,
                is_i32: false,
                value: entry.ret_val->0,
            }),
            r.input_index_delta == (if r.is_public { 1u64 } else { 0u64 }),
            r.input_table_key == (if r.is_public {
                input_table_encoding(step.input_index as nat, r.value as nat)
            } else {
                0
            }),
    {
        let is_public = entry.public_flag == 1;
        let value = match entry.ret_val {
            Some(v) => v,
            None => 0,
        };
        let offset = step.sp as u64 + 1;
        let read_stack = MemoryReadLookup {
            start_eid: entry.memory_rw_entries[0].start_eid,
            eid: step.eid,
            end_eid: entry.memory_rw_entries[0].end_eid,
            offset,
            location: LocationType::Stack,
            is_i32: true,
            value: entry.args[0],
        };
        let write_stack = MemoryWriteLookup {
            eid: step.eid,
            end_eid: entry.memory_rw_entries[1].end_eid,
            offset,
            location: LocationType::Stack,
            is_i32: false,
            value,
        };
        let input_table_key = if is_public {
            encode_for_lookup(step.input_index, value)
        } else {
            0
        };
        WasmInputAssignment {
            is_public,
            value,
            value_nibbles: U64Cell::nibbles(value),
            read_stack,
            write_stack,
            input_index_delta: BitCell::encode(is_public),
            input_table_key,
        }
    }

    /// Memory operations of the row: one.
    pub fn mops(&self) -> (r: u64)
        ensures
            r == 1,
    {
        1
    }

    /// Memory writes of the row: one.
    pub fn memory_writing_ops(&self, entry: &CallHostEntry) -> (r: u32)
        ensures
            r == 1,
    {
        1
    }

    /// How far the public-input cursor advances: the value of the flag.
    pub fn input_index_increase(&self, is_public: bool) -> (r: u64)
        ensures
            r == (if is_public { 1u64 } else { 0u64 }),
    {
        BitCell::encode(is_public)
    }

    /// Whether the call reveals its input: any nonzero flag.
    pub fn is_host_public_input(&self, entry: &CallHostEntry) -> (r: bool)
        requires
            entry.plugin == HostPlugin::HostInput,
            entry.args@.len() == 1,
        ensures
            r == (entry.public_flag != 0),
    {
        entry.public_flag != 0
    }

    /// The next instruction id: the opcode does not change the flow of
    /// control, so the row falls through to the following instruction.
    pub fn next_iid(&self, iid: u32) -> (r: u64)
        ensures
            r == iid + 1,
    {
        default_next_iid(iid)
    }
}

} // verus!
