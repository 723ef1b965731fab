//! Flags that tell a bytecode verifier what to check of an instruction.

use vstd::prelude::*;

verus! {

/// Nothing to check.
#[allow(non_upper_case_globals)]
pub const VerifyNothing: u32 = 0x0000000;

/// Operand A names a register.
#[allow(non_upper_case_globals)]
pub const VerifyRegA: u32 = 0x0000001;

/// Operand A names the first register of a pair.
#[allow(non_upper_case_globals)]
pub const VerifyRegAWide: u32 = 0x0000002;

/// Operand B names a register.
#[allow(non_upper_case_globals)]
pub const VerifyRegB: u32 = 0x0000004;

/// Operand B is an index into the field ids.
#[allow(non_upper_case_globals)]
pub const VerifyRegBField: u32 = 0x0000008;

/// Operand B is an index into the method ids.
#[allow(non_upper_case_globals)]
pub const VerifyRegBMethod: u32 = 0x0000010;

/// Operand B is the type of a new instance.
#[allow(non_upper_case_globals)]
pub const VerifyRegBNewInstance: u32 = 0x0000020;

/// Operand B is an index into the string ids.
#[allow(non_upper_case_globals)]
pub const VerifyRegBString: u32 = 0x0000040;

/// Operand B is an index into the type ids.
#[allow(non_upper_case_globals)]
pub const VerifyRegBType: u32 = 0x0000080;

/// Operand B names the first register of a pair.
#[allow(non_upper_case_globals)]
pub const VerifyRegBWide: u32 = 0x0000100;

/// Operand C names a register.
#[allow(non_upper_case_globals)]
pub const VerifyRegC: u32 = 0x0000200;

/// Operand C is an index into the field ids.
#[allow(non_upper_case_globals)]
pub const VerifyRegCField: u32 = 0x0000400;

/// Operand C is the type of a new array.
#[allow(non_upper_case_globals)]
pub const VerifyRegCNewArray: u32 = 0x0000800;

/// Operand C is an index into the type ids.
#[allow(non_upper_case_globals)]
pub const VerifyRegCType: u32 = 0x0001000;

/// Operand C names the first register of a pair.
#[allow(non_upper_case_globals)]
pub const VerifyRegCWide: u32 = 0x0002000;

/// The instruction points at an array data payload.
#[allow(non_upper_case_globals)]
pub const VerifyArrayData: u32 = 0x0004000;

/// The instruction holds a branch target.
#[allow(non_upper_case_globals)]
pub const VerifyBranchTarget: u32 = 0x0008000;

/// The instruction points at a switch payload.
#[allow(non_upper_case_globals)]
pub const VerifySwitchTargets: u32 = 0x0010000;

/// The instruction holds a register list.
#[allow(non_upper_case_globals)]
pub const VerifyVarArg: u32 = 0x0020000;

/// The instruction holds a register list that is not empty.
#[allow(non_upper_case_globals)]
pub const VerifyVarArgNonZero: u32 = 0x0040000;

/// The instruction holds a register range.
#[allow(non_upper_case_globals)]
pub const VerifyVarArgRange: u32 = 0x0080000;

/// The instruction holds a register range that is not empty.
#[allow(non_upper_case_globals)]
pub const VerifyVarArgRangeNonZero: u32 = 0x0100000;

/// The opcode is never valid.
#[allow(non_upper_case_globals)]
pub const VerifyError: u32 = 0x0200000;

/// Operand H is an index into the proto ids.
#[allow(non_upper_case_globals)]
pub const VerifyRegHPrototype: u32 = 0x0400000;

/// Operand B is an index into the call site ids.
#[allow(non_upper_case_globals)]
pub const VerifyRegBCallSite: u32 = 0x0800000;

/// Operand B is an index into the method handles.
#[allow(non_upper_case_globals)]
pub const VerifyRegBMethodHandle: u32 = 0x1000000;

/// Operand B is an index into the proto ids.
#[allow(non_upper_case_globals)]
pub const VerifyRegBPrototype: u32 = 0x2000000;

} // verus!
