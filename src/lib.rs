//! Cell layout and allocation for one step of the event table, the typed
//! cells it hands out, and the witness plan of the host-input opcode.
use vstd::prelude::*;

pub mod layout;
pub mod cell;
pub mod allocator;
pub mod opcode;
pub mod wasm_input;

verus! {

} // verus!
