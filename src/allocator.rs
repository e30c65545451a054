//! The cell allocator: one cursor per region of a step, each handing out the
//! next free rotation and never one twice.
use vstd::prelude::*;
use crate::cell::{BitCell, Cell, CommonRangeCell, JTableLookupCell, MTableLookupCell, U64Cell};
use crate::layout::{
    EventTableCommonConfig, BIT_START, COMMON_RANGE_START, ETABLE_STEP_SIZE, JTABLE_LOOKUP,
    MTABLE_LOOKUP_START, SHARED_START, U4_COLUMNS, U64_START,
};

verus! {

/// The regions of a step that cells are allocated from.
#[derive(Clone, Copy, PartialEq, Eq, Structural, Debug)]
pub enum Region {
    Bit,
    CommonRange,
    Unlimited,
    U64,
    MTableLookup,
    JTableLookup,
}

/// Hands out the cells of one step shape, in order, without reuse.
pub struct EventTableCellAllocator {
    pub config: EventTableCommonConfig,
    pub bit_index: i32,
    pub common_range_index: i32,
    pub unlimit_index: i32,
    pub u64_index: i32,
    pub mtable_lookup_index: i32,
    pub jtable_lookup_index: i32,
    /// The (column, rotation) pairs handed out so far, in order; for a 64-bit
    /// cell its value cell (its nibble column is the one at its position).
    pub issued: Ghost<Seq<(int, int)>>,
}

/// First index of a region's cursor.
pub open spec fn region_start(r: Region) -> int {
    match r {
        Region::Bit => BIT_START as int,
        Region::CommonRange => COMMON_RANGE_START as int,
        Region::Unlimited => SHARED_START as int,
        Region::U64 => 0,
        Region::MTableLookup => MTABLE_LOOKUP_START as int,
        Region::JTableLookup => JTABLE_LOOKUP as int,
    }
}

/// Bound of a region's cursor: the allocation at this index is refused.
pub open spec fn region_bound(r: Region) -> int {
    match r {
        Region::Bit => ETABLE_STEP_SIZE as int,
        Region::CommonRange => ETABLE_STEP_SIZE as int,
        Region::Unlimited => ETABLE_STEP_SIZE as int,
        Region::U64 => U4_COLUMNS as int,
        Region::MTableLookup => U64_START as int,
        Region::JTableLookup => MTABLE_LOOKUP_START as int,
    }
}

/// How many cells a region holds.
pub open spec fn region_capacity(r: Region) -> int {
    region_bound(r) - region_start(r)
}

impl EventTableCellAllocator {
    /// The cursor of a region.
    pub open spec fn cursor(&self, r: Region) -> int {
        match r {
            Region::Bit => self.bit_index as int,
            Region::CommonRange => self.common_range_index as int,
            Region::Unlimited => self.unlimit_index as int,
            Region::U64 => self.u64_index as int,
            Region::MTableLookup => self.mtable_lookup_index as int,
            Region::JTableLookup => self.jtable_lookup_index as int,
        }
    }

    /// Cells that a region still has.
    pub open spec fn remaining(&self, r: Region) -> int {
        region_bound(r) - self.cursor(r)
    }

    /// Whether one more cell can be allocated from a region.
    pub open spec fn can_alloc(&self, r: Region) -> bool {
        self.cursor(r) < region_bound(r)
    }

    /// The (column, rotation) pair of the next cell of a region.
    pub open spec fn next_slot(&self, r: Region) -> (int, int) {
        match r {
            Region::Bit => (self.config.shared_bits.index as int, self.bit_index as int),
            Region::CommonRange => (self.config.state.index as int, self.common_range_index as int),
            Region::U64 => (self.config.aux.index as int, U64_START + self.u64_index),
            _ => (self.config.aux.index as int, self.cursor(r)),
        }
    }

    /// The allocator after one allocation from a region.
    pub open spec fn after(self, r: Region) -> Self {
        let issued = Ghost(self.issued@.push(self.next_slot(r)));
        match r {
            Region::Bit => Self { bit_index: (self.bit_index + 1) as i32, issued, ..self },
            Region::CommonRange => Self {
                common_range_index: (self.common_range_index + 1) as i32,
                issued,
                ..self
            },
            Region::Unlimited => Self { unlimit_index: (self.unlimit_index + 1) as i32, issued, ..self },
            Region::U64 => Self { u64_index: (self.u64_index + 1) as i32, issued, ..self },
            Region::MTableLookup => Self {
                mtable_lookup_index: (self.mtable_lookup_index + 1) as i32,
                issued,
                ..self
            },
            Region::JTableLookup => Self {
                jtable_lookup_index: (self.jtable_lookup_index + 1) as i32,
                issued,
                ..self
            },
        }
    }

    /// The allocator after `n` allocations from a region.
    pub open spec fn after_n(self, r: Region, n: nat) -> Self
        decreases n,
    {
        if n == 0 {
            self
        } else {
            self.after_n(r, (n - 1) as nat).after(r)
        }
    }

    /// Whether a (column, rotation) pair lies below the cursor of some region.
    pub open spec fn used(&self, s: (int, int)) -> bool {
        let (c, rot) = s;
        ||| c == self.config.shared_bits.index && BIT_START <= rot < self.bit_index
        ||| c == self.config.state.index && COMMON_RANGE_START <= rot < self.common_range_index
        ||| c == self.config.aux.index && SHARED_START <= rot < self.unlimit_index
        ||| c == self.config.aux.index && U64_START <= rot < U64_START + self.u64_index
        ||| c == self.config.aux.index && MTABLE_LOOKUP_START <= rot < self.mtable_lookup_index
        ||| c == self.config.aux.index && JTABLE_LOOKUP <= rot < self.jtable_lookup_index
    }

    /// Cursors lie within their regions and the issued pairs are pairwise
    /// distinct and all lie below the cursors.
    pub open spec fn wf(&self) -> bool {
        &&& self.config.wf()
        &&& BIT_START <= self.bit_index <= ETABLE_STEP_SIZE
        &&& COMMON_RANGE_START <= self.common_range_index <= ETABLE_STEP_SIZE
        &&& SHARED_START <= self.unlimit_index <= ETABLE_STEP_SIZE
        &&& 0 <= self.u64_index <= U4_COLUMNS
        &&& MTABLE_LOOKUP_START <= self.mtable_lookup_index <= U64_START
        &&& JTABLE_LOOKUP <= self.jtable_lookup_index <= MTABLE_LOOKUP_START
        &&& forall|i: int, j: int|
            0 <= i < j < self.issued@.len() ==> self.issued@[i] != self.issued@[j]
        &&& forall|i: int| 0 <= i < self.issued@.len() ==> self.used(#[trigger] self.issued@[i])
    }

    /// The allocator of a step shape before any cell is handed out.
    pub open spec fn fresh(config: EventTableCommonConfig) -> Self {
        Self {
            config,
            bit_index: BIT_START,
            common_range_index: COMMON_RANGE_START,
            unlimit_index: SHARED_START,
            u64_index: 0,
            mtable_lookup_index: MTABLE_LOOKUP_START,
            jtable_lookup_index: JTABLE_LOOKUP,
            issued: Ghost(Seq::empty()),
        }
    }

    proof fn lemma_after_wf(self, r: Region)
        requires
            self.wf(),
            self.can_alloc(r),
        ensures
            self.after(r).wf(),
            !self.used(self.next_slot(r)),
            self.after(r).cursor(r) == self.cursor(r) + 1,
            forall|q: Region| q != r ==> self.after(r).cursor(q) == self.cursor(q),
    {
        let a = self.after(r);
        let s = self.next_slot(r);
        assert(self.cursor(r) == self.cursor(r));
        assert(a.config == self.config);
        assert(a.issued@ == self.issued@.push(s));
        assert(a.cursor(r) == self.cursor(r) + 1) by {
            match r {
                Region::Bit => {},
                Region::CommonRange => {},
                Region::Unlimited => {},
                Region::U64 => {},
                Region::MTableLookup => {},
                Region::JTableLookup => {},
            }
        }
        assert forall|q: Region| q != r implies a.cursor(q) == self.cursor(q) by {
            match r {
                Region::Bit => {},
                Region::CommonRange => {},
                Region::Unlimited => {},
                Region::U64 => {},
                Region::MTableLookup => {},
                Region::JTableLookup => {},
            }
        }
        assert(!self.used(s)) by {
            match r {
                Region::Bit => {},
                Region::CommonRange => {},
                Region::Unlimited => {},
                Region::U64 => {},
                Region::MTableLookup => {},
                Region::JTableLookup => {},
            }
        }
        assert forall|t: (int, int)| self.used(t) implies a.used(t) by {
            assert(self.cursor(Region::Bit) == self.cursor(Region::Bit));
            assert(self.cursor(Region::CommonRange) == self.cursor(Region::CommonRange));
            assert(self.cursor(Region::Unlimited) == self.cursor(Region::Unlimited));
            assert(self.cursor(Region::U64) == self.cursor(Region::U64));
            assert(self.cursor(Region::MTableLookup) == self.cursor(Region::MTableLookup));
            assert(self.cursor(Region::JTableLookup) == self.cursor(Region::JTableLookup));
        }
        assert(a.used(s)) by {
            assert(self.cursor(Region::Bit) == self.cursor(Region::Bit));
        }
        assert forall|i: int| 0 <= i < a.issued@.len() implies a.used(#[trigger] a.issued@[i]) by {
            if i < self.issued@.len() {
                assert(self.used(self.issued@[i]));
            }
        }
        assert forall|i: int, j: int| 0 <= i < j < a.issued@.len() implies a.issued@[i] != a.issued@[j] by {
            if j == self.issued@.len() {
                assert(self.used(self.issued@[i]));
            }
        }
    }

    /// An allocator for the columns of `config`, with every region empty.
    pub fn new(config: &EventTableCommonConfig) -> (r: Self)
        requires
            config.wf(),
        ensures
            r == Self::fresh(*config),
            r.wf(),
    {
        let r = Self {
            config: *config,
            bit_index: BIT_START,
            common_range_index: COMMON_RANGE_START,
            unlimit_index: SHARED_START,
            u64_index: 0,
            mtable_lookup_index: MTABLE_LOOKUP_START,
            jtable_lookup_index: JTABLE_LOOKUP,
            issued: Ghost(Seq::empty()),
        };
        r
    }

    /// The next bit cell.
    pub fn alloc_bit_value(&mut self) -> (r: BitCell)
        requires
            old(self).wf(),
            old(self).can_alloc(Region::Bit),
        ensures
            *final(self) == old(self).after(Region::Bit),
            final(self).wf(),
            (r.col.index as int, r.rot as int) == old(self).next_slot(Region::Bit),
            r.col == old(self).config.shared_bits,
    {
        proof {
            self.lemma_after_wf(Region::Bit);
        }
        let allocated_index = self.bit_index;
        self.bit_index = self.bit_index + 1;
        self.issued = Ghost(self.issued@.push((self.config.shared_bits.index as int, allocated_index as int)));
        BitCell { col: self.config.shared_bits, rot: allocated_index }
    }

    /// The next common-range cell.
    pub fn alloc_common_range_value(&mut self) -> (r: CommonRangeCell)
        requires
            old(self).wf(),
            old(self).can_alloc(Region::CommonRange),
        ensures
            *final(self) == old(self).after(Region::CommonRange),
            final(self).wf(),
            (r.col.index as int, r.rot as int) == old(self).next_slot(Region::CommonRange),
            r.col == old(self).config.state,
    {
        proof {
            self.lemma_after_wf(Region::CommonRange);
        }
        let allocated_index = self.common_range_index;
        self.common_range_index = self.common_range_index + 1;
        self.issued = Ghost(self.issued@.push((self.config.state.index as int, allocated_index as int)));
        CommonRangeCell { col: self.config.state, rot: allocated_index }
    }

    /// The next plain cell.
    pub fn alloc_unlimited_value(&mut self) -> (r: Cell)
        requires
            old(self).wf(),
            old(self).can_alloc(Region::Unlimited),
        ensures
            *final(self) == old(self).after(Region::Unlimited),
            final(self).wf(),
            (r.col.index as int, r.rot as int) == old(self).next_slot(Region::Unlimited),
            r.col == old(self).config.aux,
    {
        proof {
            self.lemma_after_wf(Region::Unlimited);
        }
        let allocated_index = self.unlimit_index;
        self.unlimit_index = self.unlimit_index + 1;
        self.issued = Ghost(self.issued@.push((self.config.aux.index as int, allocated_index as int)));
        Cell { col: self.config.aux, rot: allocated_index }
    }

    /// The next 64-bit cell: a value cell and the next nibble column.
    pub fn alloc_u64(&mut self) -> (r: U64Cell)
        requires
            old(self).wf(),
            old(self).can_alloc(Region::U64),
        ensures
            *final(self) == old(self).after(Region::U64),
            final(self).wf(),
            (r.value_col.index as int, r.value_rot as int) == old(self).next_slot(Region::U64),
            r.value_col == old(self).config.aux,
            r.u4_col == old(self).config.u4(old(self).u64_index as int),
    {
        proof {
            self.lemma_after_wf(Region::U64);
        }
        let allocated_index = self.u64_index;
        self.u64_index = self.u64_index + 1;
        let value_rot = allocated_index + U64_START;
        self.issued = Ghost(self.issued@.push((self.config.aux.index as int, value_rot as int)));
        U64Cell {
            value_col: self.config.aux,
            value_rot,
            u4_col: self.config.u4_shared[allocated_index as usize],
        }
    }

    /// The next memory-table lookup cell.
    pub fn alloc_mtable_lookup(&mut self) -> (r: MTableLookupCell)
        requires
            old(self).wf(),
            old(self).can_alloc(Region::MTableLookup),
        ensures
            *final(self) == old(self).after(Region::MTableLookup),
            final(self).wf(),
            (r.col.index as int, r.rot as int) == old(self).next_slot(Region::MTableLookup),
            r.col == old(self).config.aux,
    {
        proof {
            self.lemma_after_wf(Region::MTableLookup);
        }
        let allocated_index = self.mtable_lookup_index;
        self.mtable_lookup_index = self.mtable_lookup_index + 1;
        self.issued = Ghost(self.issued@.push((self.config.aux.index as int, allocated_index as int)));
        MTableLookupCell { col: self.config.aux, rot: allocated_index }
    }

    /// The next jump-table lookup cell.
    pub fn alloc_jtable_lookup(&mut self) -> (r: JTableLookupCell)
        requires
            old(self).wf(),
            old(self).can_alloc(Region::JTableLookup),
        ensures
            *final(self) == old(self).after(Region::JTableLookup),
            final(self).wf(),
            (r.col.index as int, r.rot as int) == old(self).next_slot(Region::JTableLookup),
            r.col == old(self).config.aux,
    {
        proof {
            self.lemma_after_wf(Region::JTableLookup);
        }
        let allocated_index = self.jtable_lookup_index;
        self.jtable_lookup_index = self.jtable_lookup_index + 1;
        self.issued = Ghost(self.issued@.push((self.config.aux.index as int, allocated_index as int)));
        JTableLookupCell { col: self.config.aux, rot: allocated_index }
    }
}

/// Every (column, rotation) pair that a well-formed allocator has handed out
/// is distinct from every other: cells never collide, whatever sequence of
/// allocations produced the allocator.
pub proof fn lemma_cells_disjoint(a: EventTableCellAllocator)
    requires
        a.wf(),
    ensures
        a.issued@.no_duplicates(),
{
}

proof fn lemma_after_n_cursor(config: EventTableCommonConfig, r: Region, n: nat)
    requires
        config.wf(),
        n <= region_capacity(r),
    ensures
        EventTableCellAllocator::fresh(config).after_n(r, n).wf(),
        EventTableCellAllocator::fresh(config).after_n(r, n).cursor(r) == region_start(r) + n,
    decreases n,
{
    let f = EventTableCellAllocator::fresh(config);
    if n > 0 {
        lemma_after_n_cursor(config, r, (n - 1) as nat);
        f.after_n(r, (n - 1) as nat).lemma_after_wf(r);
    }
}

/// A fresh allocator admits exactly a region's capacity of allocations from
/// it: each of the first `region_capacity(r)` succeeds, and the one after
/// them is refused.
pub proof fn lemma_capacity_boundary(config: EventTableCommonConfig, r: Region, n: nat)
    requires
        config.wf(),
    ensures
        n < region_capacity(r) ==> EventTableCellAllocator::fresh(config).after_n(r, n).wf()
            && EventTableCellAllocator::fresh(config).after_n(r, n).can_alloc(r),
        n == region_capacity(r) ==> EventTableCellAllocator::fresh(config).after_n(r, n).wf()
            && !EventTableCellAllocator::fresh(config).after_n(r, n).can_alloc(r),
{
    if n <= region_capacity(r) {
        lemma_after_n_cursor(config, r, n);
    }
}

} // verus!
