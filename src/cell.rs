//! Typed cells: a column and a rotation relative to the first row of a step,
//! with what each kind writes there.
use vstd::prelude::*;
use vstd::arithmetic::div_mod::*;
use vstd::arithmetic::mul::*;
use crate::layout::{Column, U64_NIBBLES};

verus! {

/// A cell that holds any field element.
pub struct Cell {
    pub col: Column,
    pub rot: i32,
}

/// A cell that holds a memory-table lookup key.
pub struct MTableLookupCell {
    pub col: Column,
    pub rot: i32,
}

/// A cell that holds a jump-table lookup key.
pub struct JTableLookupCell {
    pub col: Column,
    pub rot: i32,
}

/// A cell that holds 0 or 1.
pub struct BitCell {
    pub col: Column,
    pub rot: i32,
}

/// A cell that holds a value below 2^16.
pub struct CommonRangeCell {
    pub col: Column,
    pub rot: i32,
}

/// A 64-bit value together with its nibble column, whose first sixteen rows
/// of the step hold the value's nibbles, least significant first.
pub struct U64Cell {
    pub value_col: Column,
    pub value_rot: i32,
    pub u4_col: Column,
}

/// The absolute row of a cell at `rot` in the step that starts at `offset`.
pub fn rotated_row(offset: usize, rot: i32) -> (r: usize)
    requires
        0 <= offset + rot <= usize::MAX,
    ensures
        r == offset + rot,
{
    if rot >= 0 {
        offset + rot as usize
    } else {
        let back: i64 = -(rot as i64);
        offset - back as usize
    }
}

/// 16 to the power `i`.
pub open spec fn pow16(i: nat) -> nat
    decreases i,
{
    if i == 0 {
        1
    } else {
        16 * pow16((i - 1) as nat)
    }
}

/// The number whose nibbles, least significant first, are `s`.
pub open spec fn nibble_sum(s: Seq<u64>) -> int
    decreases s.len(),
{
    if s.len() == 0 {
        0
    } else {
        nibble_sum(s.drop_last()) + s.last() * pow16((s.len() - 1) as nat)
    }
}

proof fn lemma_pow16_positive(i: nat)
    ensures
        pow16(i) > 0,
    decreases i,
{
    if i > 0 {
        lemma_pow16_positive((i - 1) as nat);
    }
}

impl BitCell {
    /// The value written for a flag.
    pub fn encode(value: bool) -> (r: u64)
        ensures
            r == (if value { 1u64 } else { 0u64 }),
    {
        if value {
            1
        } else {
            0
        }
    }
}

impl U64Cell {
    /// The sixteen nibbles of `value`, least significant first: the values
    /// written to the first sixteen rows of the nibble column.
    pub fn nibbles(value: u64) -> (r: Vec<u64>)
        ensures
            r@.len() == U64_NIBBLES,
            forall|i: int| 0 <= i < 16 ==> r@[i] == (value as nat / pow16(i as nat)) % 16,
            nibble_sum(r@) == value,
    {
        let mut r: Vec<u64> = Vec::new();
        let mut rest: u64 = value;
        let mut i: usize = 0;
        proof {
            lemma_pow16_positive(0);
        }
        while i < U64_NIBBLES
            invariant
                i <= 16,
                r@.len() == i,
                pow16(i as nat) > 0,
                rest == value as nat / pow16(i as nat),
                forall|k: int| 0 <= k < i ==> r@[k] == (value as nat / pow16(k as nat)) % 16,
                value == nibble_sum(r@) + rest * pow16(i as nat),
            decreases 16 - i,
        {
            let nibble: u64 = rest % 16;
            let ghost old_r = r@;
            let ghost p = pow16(i as nat);
            r.push(nibble);
            proof {
                assert(r@.drop_last() =~= old_r);
                lemma_fundamental_div_mod(rest as int, 16);
                lemma_div_denominator(value as int, p as int, 16);
                lemma_mul_is_commutative(16, p as int);
                assert(rest * p == nibble * p + (rest / 16) * (16 * p)) by (nonlinear_arith)
                    requires
                        rest == 16 * (rest / 16) + nibble,
                ;
                lemma_pow16_positive((i + 1) as nat);
            }
            rest = rest / 16;
            i = i + 1;
        }
        proof {
            reveal_with_fuel(pow16, 17);
            assert(pow16(16) == 0x1_0000_0000_0000_0000);
            lemma_basic_div(value as int, pow16(16) as int);
        }
        r
    }
}

} // verus!
