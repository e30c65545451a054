use etable_cells::allocator::EventTableCellAllocator;
use etable_cells::layout::{Column, EventTableCommonConfig};
use etable_cells::opcode::{opcode_tag_digits, FOREIGN_PLUGIN_START};
use etable_cells::wasm_input::{
    encode_for_lookup, CallHostEntry, ETableWasmInputHelperTableConfig,
    ETableWasmInputHelperTableConfigBuilder, HostPlugin, LocationType, MemoryRwEntry, StepStatus,
    VarType,
};

fn configured(index: usize) -> (ETableWasmInputHelperTableConfig, EventTableCellAllocator) {
    let config = EventTableCommonConfig {
        shared_bits: Column { index: 0 },
        state: Column { index: 1 },
        aux: Column { index: 2 },
        u4_shared: [Column { index: 3 }, Column { index: 4 }, Column { index: 5 }],
    };
    let mut a = EventTableCellAllocator::new(&config);
    let c = ETableWasmInputHelperTableConfigBuilder::new(index).configure(&mut a);
    (c, a)
}

fn entry(public_flag: u64) -> CallHostEntry {
    CallHostEntry {
        plugin: HostPlugin::HostInput,
        public_flag,
        args: vec![5],
        param_types: vec![VarType::I32],
        ret_val: Some(42),
        return_type: Some(VarType::I64),
        memory_rw_entries: vec![
            MemoryRwEntry { start_eid: 3, end_eid: 11 },
            MemoryRwEntry { start_eid: 7, end_eid: 19 },
        ],
    }
}

fn step() -> StepStatus {
    StepStatus { eid: 7, sp: 100, iid: 4, input_index: 2 }
}

#[test]
fn configure_allocates_flag_value_and_two_lookups() {
    let (c, a) = configured(0);
    assert_eq!((c.is_public.col.index, c.is_public.rot), (0, 1));
    assert_eq!((c.value.value_col.index, c.value.value_rot, c.value.u4_col.index), (2, 8, 3));
    assert_eq!(c.lookup_read_stack.rot, 2);
    assert_eq!(c.lookup_write_stack.rot, 3);
    assert_eq!(a.bit_index, 2);
    assert_eq!(a.u64_index, 1);
    assert_eq!(a.mtable_lookup_index, 4);
}

#[test]
fn public_host_call() {
    let (c, _) = configured(0);
    let s = step();
    let r = c.assign(&s, &entry(1));
    assert!(r.is_public);
    assert_eq!(r.value, 42);
    assert_eq!(r.read_stack.offset, 101);
    assert_eq!(r.read_stack.location, LocationType::Stack);
    assert!(r.read_stack.is_i32);
    assert_eq!(r.read_stack.value, 5);
    assert_eq!((r.read_stack.start_eid, r.read_stack.eid, r.read_stack.end_eid), (3, 7, 11));
    assert_eq!(r.write_stack.offset, 101);
    assert_eq!(r.write_stack.location, LocationType::Stack);
    assert!(!r.write_stack.is_i32);
    assert_eq!(r.write_stack.value, 42);
    assert_eq!((r.write_stack.eid, r.write_stack.end_eid), (7, 19));
    assert_eq!(r.input_index_delta, 1);
    assert_eq!(r.input_table_key, (2u128 << 64) + 42);
    assert_eq!(r.value_nibbles[..2], [10, 2]);
    assert_eq!(c.input_index_increase(r.is_public), 1);
}

#[test]
fn private_host_call() {
    let (c, _) = configured(0);
    let r = c.assign(&step(), &entry(0));
    assert!(!r.is_public);
    assert_eq!(r.value, 42);
    assert_eq!(r.input_index_delta, 0);
    assert_eq!(r.input_table_key, 0);
    assert_eq!(c.input_index_increase(r.is_public), 0);
    assert_eq!(r.write_stack.value, 42);
}

#[test]
fn accounting_and_flow() {
    let (c, _) = configured(2);
    assert_eq!(c.mops(), 1);
    assert_eq!(c.memory_writing_ops(&entry(1)), 1);
    assert_eq!(c.next_iid(9), 10);
    assert!(c.is_host_public_input(&entry(1)));
    assert!(!c.is_host_public_input(&entry(0)));
}

#[test]
fn opcode_tag_of_plugin() {
    let (c, _) = configured(2);
    assert_eq!(c.opcode(), opcode_tag_digits(FOREIGN_PLUGIN_START + 2));
    assert_eq!(c.opcode(), vec![0, (FOREIGN_PLUGIN_START + 2) << 32]);
}

#[test]
fn input_table_encoding() {
    assert_eq!(encode_for_lookup(0, 42), 42);
    assert_eq!(encode_for_lookup(3, 1), (3u128 << 64) + 1);
    assert_eq!(encode_for_lookup(u64::MAX, u64::MAX), u128::MAX);
}
