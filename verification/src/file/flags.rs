//! Control-flow flags of an opcode, one bit each.

use vstd::prelude::*;

verus! {

/// Conditional or unconditional branch.
#[allow(non_upper_case_globals)]
pub const Branch: u8 = 0x01;

/// Flow can continue to the next statement.
#[allow(non_upper_case_globals)]
pub const Continue: u8 = 0x02;

/// Switch statement.
#[allow(non_upper_case_globals)]
pub const Switch: u8 = 0x04;

/// Could cause an exception to be thrown.
#[allow(non_upper_case_globals)]
pub const Throw: u8 = 0x08;

/// Returns, no additional statements.
#[allow(non_upper_case_globals)]
pub const Return: u8 = 0x10;

/// A flavor of invoke.
#[allow(non_upper_case_globals)]
pub const Invoke: u8 = 0x20;

/// Unconditional branch.
#[allow(non_upper_case_globals)]
pub const Unconditional: u8 = 0x40;

/// An experimental opcode.
#[allow(non_upper_case_globals)]
pub const Experimental: u8 = 0x80;

} // verus!
