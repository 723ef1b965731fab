//! Marks in a descriptor's size field for sizes that the format does not give.

use vstd::prelude::*;

verus! {

/// The size depends on the payload that follows the opcode.
#[allow(non_upper_case_globals)]
pub const Complex: u8 = 0xFF;

/// The format has no size of its own.
#[allow(non_upper_case_globals)]
pub const Custom: u8 = 0xFE;

} // verus!
