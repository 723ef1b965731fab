use vstd::prelude::*;

use crate::file::instruction::Format;

verus! {

/// Why a variable-length integer could not be decoded.
#[derive(Debug, Clone, Copy, PartialEq, Eq, Structural)]
pub enum VarIntError {
    /// The encoding does not fit the target width.
    Overflow,
    /// The input ends before the encoding does.
    NotEnoughBytes,
}

/// Every failure the reader can report.
#[allow(inconsistent_fields)]
#[derive(Debug, Clone, PartialEq, Eq)]
pub enum DexError {
    TruncatedFile,
    BadFileMagic,
    UnknownDexVersion { version: u32 },
    FileSizeAtLeast { actual: usize, expected: usize },
    FileSizeAtMost { actual: usize, expected: usize },
    BadHeaderSize { size: u32, expected: u32 },
    UnexpectedEndianess(u32),
    BadChecksum { actual: u32, expected: u32 },
    BadOffsetTooLarge { offset: u32, size: usize, section: &'static str },
    BadOffsetInHeader { offset: u32, header_size: usize, section: &'static str },
    BadOffsetNoSize { offset: u32, section: &'static str },
    BadSection { offset: u32, size: usize, section: &'static str },
    DexFileError(String),
    DexIndexError { index: u32, max: usize, item_ty: &'static str },
    BadStringDataMissingNullByte(usize),
    Mutf8DecodeError,
    DexLayoutError {
        location: String,
        offset: u32,
        item_ty: &'static str,
        array_len: usize,
        file_size: usize,
    },
    OperandAccessError { insn_name: &'static str, operand: &'static str },
    VarIntError(VarIntError),
    BadStringData { offset: usize, kind: VarIntError },
    BadEncodedIndex { index: u32, next_index: u32, item_ty: &'static str },
    BadInstructionOffset { opcode: &'static str, offset: usize, size: usize },
    BadInstruction { opcode: &'static str, offset: usize, size: usize, target_type: &'static str },
    InvalidArgCount { opcode: &'static str, format: Format, count: u8 },
    InvalidArgRange { opcode: &'static str, format: Format, start: u16, end: u16 },
    EmptyEncodedValue,
    BadEncodedValueType(u8),
    InvalidEncodedValue { value_type: u8, offset: usize, size: usize },
    BadEncodedValueSize { value_type: u8, size: usize, max: usize },
    BadEncodedArrayLength { value_type: u8, size: usize, offset: usize, max: usize },
    UnknownObjectRef { offset: usize, start: usize, end: usize },
    MalformedMUTF8Sequence { idx: usize, len: usize },
}

} // verus!
