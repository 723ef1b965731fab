//! Opcodes of the debug info state machine.

use vstd::prelude::*;

verus! {

/// Ends the sequence.
pub const DBG_END_SEQUENCE: u8 = 0x00;

/// Adds an unsigned LEB128 operand to the address.
pub const DBG_ADVANCE_PC: u8 = 0x01;

/// Adds a signed LEB128 operand to the line.
pub const DBG_ADVANCE_LINE: u8 = 0x02;

/// Starts a local variable: register, name and type.
pub const DBG_START_LOCAL: u8 = 0x03;

/// Starts a local variable: register, name, type and signature.
pub const DBG_START_LOCAL_EXTENDED: u8 = 0x04;

/// Ends the local variable in a register.
pub const DBG_END_LOCAL: u8 = 0x05;

/// Starts the local variable that a register held last once more.
pub const DBG_RESTART_LOCAL: u8 = 0x06;

/// Marks the next position entry as the end of the prologue.
pub const DBG_SET_PROLOGUE_END: u8 = 0x07;

/// Marks the next position entry as the start of the epilogue.
pub const DBG_SET_EPILOGUE_BEGIN: u8 = 0x08;

/// Names the source file of the entries that follow.
pub const DBG_SET_FILE: u8 = 0x09;

/// The first of the special opcodes, which move address and line at once.
pub const DBG_FIRST_SPECIAL: u8 = 0x0a;

/// The smallest line change of a special opcode.
pub const DBG_LINE_BASE: i8 = -4;

/// The number of line changes that the special opcodes tell apart.
pub const DBG_LINE_RANGE: u8 = 15;

} // verus!
