//! What every opcode of the event table shares: its tag, from which the row
//! dispatch is decided, and the instruction id that a row hands on.
use vstd::prelude::*;
use vstd::arithmetic::power2::{lemma_pow2_pos, pow2};

verus! {

/// Bit position of the opcode class within an opcode tag.
pub const OPCODE_CLASS_SHIFT: usize = 96;

/// Class code of the first foreign (host) plugin; plugin `i` has class
/// code `FOREIGN_PLUGIN_START + i`.
pub const FOREIGN_PLUGIN_START: u64 = 23;

/// The tag of an opcode whose class code is `class_code`.
pub open spec fn opcode_tag(class_code: nat) -> nat {
    class_code * pow2(OPCODE_CLASS_SHIFT as nat)
}

/// The number whose base-2^64 digits, least significant first, are `d`.
pub open spec fn digits_value(d: Seq<u64>) -> nat
    decreases d.len(),
{
    if d.len() == 0 {
        0
    } else {
        (d[0] + pow2(64) * digits_value(d.subrange(1, d.len() as int))) as nat
    }
}

/// Relies on num_bigint's `BigUint`: `from(u64)` holds the integer, `<<`
/// multiplies it by 2^shift, and `to_u64_digits` lists its base-2^64 digits,
/// least significant first.
#[verifier::external_body]
fn shifted_digits(x: u64, shift: usize) -> (r: Vec<u64>)
    ensures
        digits_value(r@) == x * pow2(shift as nat),
{
    (num_bigint::BigUint::from(x) << shift).to_u64_digits()
}

/// The tag of the opcode with class code `class_code`, as base-2^64 digits,
/// least significant first.
pub fn opcode_tag_digits(class_code: u64) -> (r: Vec<u64>)
    ensures
        digits_value(r@) == opcode_tag(class_code as nat),
{
    shifted_digits(class_code, OPCODE_CLASS_SHIFT)
}

/// The instruction id that a row hands on when its opcode does not change
/// the flow of control.
pub fn default_next_iid(iid: u32) -> (r: u64)
    ensures
        r == iid + 1,
{
    iid as u64 + 1
}

/// Opcodes with distinct class codes have distinct tags, so no row's opcode
/// value dispatches to two of them.
pub proof fn lemma_tag_uniqueness(a: nat, b: nat, row_opcode: nat)
    requires
        a != b,
    ensures
        opcode_tag(a) != opcode_tag(b),
        !(row_opcode == opcode_tag(a) && row_opcode == opcode_tag(b)),
{
    let p = pow2(OPCODE_CLASS_SHIFT as nat);
    lemma_pow2_pos(OPCODE_CLASS_SHIFT as nat);
    assert(a * p != b * p) by (nonlinear_arith)
        requires
            a != b,
            p > 0,
    ;
}

} // verus!
