use etable_cells::allocator::EventTableCellAllocator;
use etable_cells::layout::{
    Column, EventTableCommonConfig, BIT_START, COMMON_RANGE_START, ETABLE_STEP_SIZE,
    JTABLE_LOOKUP, MTABLE_LOOKUP_START, SHARED_START, U4_COLUMNS, U64_START,
};
use std::collections::HashSet;

fn config() -> EventTableCommonConfig {
    EventTableCommonConfig {
        shared_bits: Column { index: 0 },
        state: Column { index: 1 },
        aux: Column { index: 2 },
        u4_shared: [Column { index: 3 }, Column { index: 4 }, Column { index: 5 }],
    }
}

#[test]
fn fresh_allocator_starts_each_region_at_its_start() {
    let a = EventTableCellAllocator::new(&config());
    assert_eq!(a.bit_index, BIT_START);
    assert_eq!(a.common_range_index, COMMON_RANGE_START);
    assert_eq!(a.unlimit_index, SHARED_START);
    assert_eq!(a.u64_index, 0);
    assert_eq!(a.mtable_lookup_index, MTABLE_LOOKUP_START);
    assert_eq!(a.jtable_lookup_index, JTABLE_LOOKUP);
}

#[test]
fn cells_come_in_order_from_their_columns() {
    let mut a = EventTableCellAllocator::new(&config());
    let b0 = a.alloc_bit_value();
    let b1 = a.alloc_bit_value();
    assert_eq!((b0.col.index, b0.rot), (0, 1));
    assert_eq!((b1.col.index, b1.rot), (0, 2));
    let c = a.alloc_common_range_value();
    assert_eq!((c.col.index, c.rot), (1, 9));
    let u = a.alloc_unlimited_value();
    assert_eq!((u.col.index, u.rot), (2, 11));
    let v0 = a.alloc_u64();
    let v1 = a.alloc_u64();
    assert_eq!((v0.value_col.index, v0.value_rot, v0.u4_col.index), (2, 8, 3));
    assert_eq!((v1.value_col.index, v1.value_rot, v1.u4_col.index), (2, 9, 4));
    let m = a.alloc_mtable_lookup();
    assert_eq!((m.col.index, m.rot), (2, 2));
    let j = a.alloc_jtable_lookup();
    assert_eq!((j.col.index, j.rot), (2, 1));
    assert_eq!(a.bit_index, 3);
    assert_eq!(a.u64_index, 2);
}

#[test]
fn filling_every_region_never_repeats_a_cell() {
    let mut a = EventTableCellAllocator::new(&config());
    let mut seen: HashSet<(usize, i32)> = HashSet::new();
    let mut count = 0;
    while a.bit_index < ETABLE_STEP_SIZE {
        let c = a.alloc_bit_value();
        assert!(seen.insert((c.col.index, c.rot)));
        count += 1;
    }
    while a.common_range_index < ETABLE_STEP_SIZE {
        let c = a.alloc_common_range_value();
        assert!(seen.insert((c.col.index, c.rot)));
        count += 1;
    }
    while a.unlimit_index < ETABLE_STEP_SIZE {
        let c = a.alloc_unlimited_value();
        assert!(seen.insert((c.col.index, c.rot)));
        count += 1;
    }
    let mut u4: HashSet<usize> = HashSet::new();
    while (a.u64_index as usize) < U4_COLUMNS {
        let c = a.alloc_u64();
        assert!(seen.insert((c.value_col.index, c.value_rot)));
        assert!(u4.insert(c.u4_col.index));
        count += 1;
    }
    while a.mtable_lookup_index < U64_START {
        let c = a.alloc_mtable_lookup();
        assert!(seen.insert((c.col.index, c.rot)));
        count += 1;
    }
    while a.jtable_lookup_index < MTABLE_LOOKUP_START {
        let c = a.alloc_jtable_lookup();
        assert!(seen.insert((c.col.index, c.rot)));
        count += 1;
    }
    // 19 bits, 11 common-range values, 9 plain values, 3 64-bit values,
    // 6 memory lookups and 1 jump lookup.
    assert_eq!(count, 19 + 11 + 9 + 3 + 6 + 1);
}

#[test]
fn bit_region_holds_exactly_its_capacity() {
    let mut a = EventTableCellAllocator::new(&config());
    let capacity = ETABLE_STEP_SIZE - BIT_START;
    for _ in 0..capacity {
        assert!(a.bit_index < ETABLE_STEP_SIZE);
        a.alloc_bit_value();
    }
    assert_eq!(a.bit_index, ETABLE_STEP_SIZE);
}

#[test]
fn u64_region_holds_one_value_per_nibble_column() {
    let mut a = EventTableCellAllocator::new(&config());
    for i in 0..U4_COLUMNS {
        let c = a.alloc_u64();
        assert_eq!(c.u4_col.index, 3 + i);
    }
    assert_eq!(a.u64_index as usize, U4_COLUMNS);
}

#[test]
fn jump_lookup_region_holds_one_cell() {
    let mut a = EventTableCellAllocator::new(&config());
    a.alloc_jtable_lookup();
    assert_eq!(a.jtable_lookup_index, MTABLE_LOOKUP_START);
}
