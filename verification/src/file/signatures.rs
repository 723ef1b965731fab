//! First code unit of each payload pseudo-instruction.

use vstd::prelude::*;

verus! {

/// Starts a packed-switch payload.
#[allow(non_upper_case_globals)]
pub const PackedSwitchSignature: u16 = 0x0100;

/// Starts a sparse-switch payload.
#[allow(non_upper_case_globals)]
pub const SparseSwitchSignature: u16 = 0x0200;

/// Starts a fill-array-data payload.
#[allow(non_upper_case_globals)]
pub const ArrayDataSignature: u16 = 0x0300;

} // verus!
