use vstd::prelude::*;

use crate::file::instruction::{entry, new_entry, Format, IndexType, InstructionDescriptor};

verus! {

/// The 256 opcodes, in the order of their byte values.
#[allow(non_camel_case_types)]
#[derive(Debug, Clone, Copy, PartialEq, Eq, Structural)]
pub enum Code {
    NOP,
    MOVE,
    MOVE_FROM16,
    MOVE_16,
    MOVE_WIDE,
    MOVE_WIDE_FROM16,
    MOVE_WIDE_16,
    MOVE_OBJECT,
    MOVE_OBJECT_FROM16,
    MOVE_OBJECT_16,
    MOVE_RESULT,
    MOVE_RESULT_WIDE,
    MOVE_RESULT_OBJECT,
    MOVE_EXCEPTION,
    RETURN_VOID,
    RETURN,
    RETURN_WIDE,
    RETURN_OBJECT,
    CONST_4,
    CONST_16,
    CONST,
    CONST_HIGH16,
    CONST_WIDE_16,
    CONST_WIDE_32,
    CONST_WIDE,
    CONST_WIDE_HIGH16,
    CONST_STRING,
    CONST_STRING_JUMBO,
    CONST_CLASS,
    MONITOR_ENTER,
    MONITOR_EXIT,
    CHECK_CAST,
    INSTANCE_OF,
    ARRAY_LENGTH,
    NEW_INSTANCE,
    NEW_ARRAY,
    FILLED_NEW_ARRAY,
    FILLED_NEW_ARRAY_RANGE,
    FILL_ARRAY_DATA,
    THROW,
    GOTO,
    GOTO_16,
    GOTO_32,
    PACKED_SWITCH,
    SPARSE_SWITCH,
    CMPL_FLOAT,
    CMPG_FLOAT,
    CMPL_DOUBLE,
    CMPG_DOUBLE,
    CMP_LONG,
    IF_EQ,
    IF_NE,
    IF_LT,
    IF_GE,
    IF_GT,
    IF_LE,
    IF_EQZ,
    IF_NEZ,
    IF_LTZ,
    IF_GEZ,
    IF_GTZ,
    IF_LEZ,
    UNUSED_3E,
    UNUSED_3F,
    UNUSED_40,
    UNUSED_41,
    UNUSED_42,
    UNUSED_43,
    AGET,
    AGET_WIDE,
    AGET_OBJECT,
    AGET_BOOLEAN,
    AGET_BYTE,
    AGET_CHAR,
    AGET_SHORT,
    APUT,
    APUT_WIDE,
    APUT_OBJECT,
    APUT_BOOLEAN,
    APUT_BYTE,
    APUT_CHAR,
    APUT_SHORT,
    IGET,
    IGET_WIDE,
    IGET_OBJECT,
    IGET_BOOLEAN,
    IGET_BYTE,
    IGET_CHAR,
    IGET_SHORT,
    IPUT,
    IPUT_WIDE,
    IPUT_OBJECT,
    IPUT_BOOLEAN,
    IPUT_BYTE,
    IPUT_CHAR,
    IPUT_SHORT,
    SGET,
    SGET_WIDE,
    SGET_OBJECT,
    SGET_BOOLEAN,
    SGET_BYTE,
    SGET_CHAR,
    SGET_SHORT,
    SPUT,
    SPUT_WIDE,
    SPUT_OBJECT,
    SPUT_BOOLEAN,
    SPUT_BYTE,
    SPUT_CHAR,
    SPUT_SHORT,
    INVOKE_VIRTUAL,
    INVOKE_SUPER,
    INVOKE_DIRECT,
    INVOKE_STATIC,
    INVOKE_INTERFACE,
    UNUSED_73,
    INVOKE_VIRTUAL_RANGE,
    INVOKE_SUPER_RANGE,
    INVOKE_DIRECT_RANGE,
    INVOKE_STATIC_RANGE,
    INVOKE_INTERFACE_RANGE,
    UNUSED_79,
    UNUSED_7A,
    NEG_INT,
    NOT_INT,
    NEG_LONG,
    NOT_LONG,
    NEG_FLOAT,
    NEG_DOUBLE,
    INT_TO_LONG,
    INT_TO_FLOAT,
    INT_TO_DOUBLE,
    LONG_TO_INT,
    LONG_TO_FLOAT,
    LONG_TO_DOUBLE,
    FLOAT_TO_INT,
    FLOAT_TO_LONG,
    FLOAT_TO_DOUBLE,
    DOUBLE_TO_INT,
    DOUBLE_TO_LONG,
    DOUBLE_TO_FLOAT,
    INT_TO_BYTE,
    INT_TO_CHAR,
    INT_TO_SHORT,
    ADD_INT,
    SUB_INT,
    MUL_INT,
    DIV_INT,
    REM_INT,
    AND_INT,
    OR_INT,
    XOR_INT,
    SHL_INT,
    SHR_INT,
    USHR_INT,
    ADD_LONG,
    SUB_LONG,
    MUL_LONG,
    DIV_LONG,
    REM_LONG,
    AND_LONG,
    OR_LONG,
    XOR_LONG,
    SHL_LONG,
    SHR_LONG,
    USHR_LONG,
    ADD_FLOAT,
    SUB_FLOAT,
    MUL_FLOAT,
    DIV_FLOAT,
    REM_FLOAT,
    ADD_DOUBLE,
    SUB_DOUBLE,
    MUL_DOUBLE,
    DIV_DOUBLE,
    REM_DOUBLE,
    ADD_INT_2ADDR,
    SUB_INT_2ADDR,
    MUL_INT_2ADDR,
    DIV_INT_2ADDR,
    REM_INT_2ADDR,
    AND_INT_2ADDR,
    OR_INT_2ADDR,
    XOR_INT_2ADDR,
    SHL_INT_2ADDR,
    SHR_INT_2ADDR,
    USHR_INT_2ADDR,
    ADD_LONG_2ADDR,
    SUB_LONG_2ADDR,
    MUL_LONG_2ADDR,
    DIV_LONG_2ADDR,
    REM_LONG_2ADDR,
    AND_LONG_2ADDR,
    OR_LONG_2ADDR,
    XOR_LONG_2ADDR,
    SHL_LONG_2ADDR,
    SHR_LONG_2ADDR,
    USHR_LONG_2ADDR,
    ADD_FLOAT_2ADDR,
    SUB_FLOAT_2ADDR,
    MUL_FLOAT_2ADDR,
    DIV_FLOAT_2ADDR,
    REM_FLOAT_2ADDR,
    ADD_DOUBLE_2ADDR,
    SUB_DOUBLE_2ADDR,
    MUL_DOUBLE_2ADDR,
    DIV_DOUBLE_2ADDR,
    REM_DOUBLE_2ADDR,
    ADD_INT_LIT16,
    RSUB_INT,
    MUL_INT_LIT16,
    DIV_INT_LIT16,
    REM_INT_LIT16,
    AND_INT_LIT16,
    OR_INT_LIT16,
    XOR_INT_LIT16,
    ADD_INT_LIT8,
    RSUB_INT_LIT8,
    MUL_INT_LIT8,
    DIV_INT_LIT8,
    REM_INT_LIT8,
    AND_INT_LIT8,
    OR_INT_LIT8,
    XOR_INT_LIT8,
    SHL_INT_LIT8,
    SHR_INT_LIT8,
    USHR_INT_LIT8,
    UNUSED_E3,
    UNUSED_E4,
    UNUSED_E5,
    UNUSED_E6,
    UNUSED_E7,
    UNUSED_E8,
    UNUSED_E9,
    UNUSED_EA,
    UNUSED_EB,
    UNUSED_EC,
    UNUSED_ED,
    UNUSED_EE,
    UNUSED_EF,
    UNUSED_F0,
    UNUSED_F1,
    UNUSED_F2,
    UNUSED_F3,
    UNUSED_F4,
    UNUSED_F5,
    UNUSED_F6,
    UNUSED_F7,
    UNUSED_F8,
    UNUSED_F9,
    INVOKE_POLYMORPHIC,
    INVOKE_POLYMORPHIC_RANGE,
    INVOKE_CUSTOM,
    INVOKE_CUSTOM_RANGE,
    CONST_METHOD_HANDLE,
    CONST_METHOD_TYPE,
}

/// The opcode whose byte value is `byte`.
pub open spec fn code_of(byte: u8) -> Code {
    match byte {
        0x00 => Code::NOP,
        0x01 => Code::MOVE,
        0x02 => Code::MOVE_FROM16,
        0x03 => Code::MOVE_16,
        0x04 => Code::MOVE_WIDE,
        0x05 => Code::MOVE_WIDE_FROM16,
        0x06 => Code::MOVE_WIDE_16,
        0x07 => Code::MOVE_OBJECT,
        0x08 => Code::MOVE_OBJECT_FROM16,
        0x09 => Code::MOVE_OBJECT_16,
        0x0a => Code::MOVE_RESULT,
        0x0b => Code::MOVE_RESULT_WIDE,
        0x0c => Code::MOVE_RESULT_OBJECT,
        0x0d => Code::MOVE_EXCEPTION,
        0x0e => Code::RETURN_VOID,
        0x0f => Code::RETURN,
        0x10 => Code::RETURN_WIDE,
        0x11 => Code::RETURN_OBJECT,
        0x12 => Code::CONST_4,
        0x13 => Code::CONST_16,
        0x14 => Code::CONST,
        0x15 => Code::CONST_HIGH16,
        0x16 => Code::CONST_WIDE_16,
        0x17 => Code::CONST_WIDE_32,
        0x18 => Code::CONST_WIDE,
        0x19 => Code::CONST_WIDE_HIGH16,
        0x1a => Code::CONST_STRING,
        0x1b => Code::CONST_STRING_JUMBO,
        0x1c => Code::CONST_CLASS,
        0x1d => Code::MONITOR_ENTER,
        0x1e => Code::MONITOR_EXIT,
        0x1f => Code::CHECK_CAST,
        0x20 => Code::INSTANCE_OF,
        0x21 => Code::ARRAY_LENGTH,
        0x22 => Code::NEW_INSTANCE,
        0x23 => Code::NEW_ARRAY,
        0x24 => Code::FILLED_NEW_ARRAY,
        0x25 => Code::FILLED_NEW_ARRAY_RANGE,
        0x26 => Code::FILL_ARRAY_DATA,
        0x27 => Code::THROW,
        0x28 => Code::GOTO,
        0x29 => Code::GOTO_16,
        0x2a => Code::GOTO_32,
        0x2b => Code::PACKED_SWITCH,
        0x2c => Code::SPARSE_SWITCH,
        0x2d => Code::CMPL_FLOAT,
        0x2e => Code::CMPG_FLOAT,
        0x2f => Code::CMPL_DOUBLE,
        0x30 => Code::CMPG_DOUBLE,
        0x31 => Code::CMP_LONG,
        0x32 => Code::IF_EQ,
        0x33 => Code::IF_NE,
        0x34 => Code::IF_LT,
        0x35 => Code::IF_GE,
        0x36 => Code::IF_GT,
        0x37 => Code::IF_LE,
        0x38 => Code::IF_EQZ,
        0x39 => Code::IF_NEZ,
        0x3a => Code::IF_LTZ,
        0x3b => Code::IF_GEZ,
        0x3c => Code::IF_GTZ,
        0x3d => Code::IF_LEZ,
        0x3e => Code::UNUSED_3E,
        0x3f => Code::UNUSED_3F,
        0x40 => Code::UNUSED_40,
        0x41 => Code::UNUSED_41,
        0x42 => Code::UNUSED_42,
        0x43 => Code::UNUSED_43,
        0x44 => Code::AGET,
        0x45 => Code::AGET_WIDE,
        0x46 => Code::AGET_OBJECT,
        0x47 => Code::AGET_BOOLEAN,
        0x48 => Code::AGET_BYTE,
        0x49 => Code::AGET_CHAR,
        0x4a => Code::AGET_SHORT,
        0x4b => Code::APUT,
        0x4c => Code::APUT_WIDE,
        0x4d => Code::APUT_OBJECT,
        0x4e => Code::APUT_BOOLEAN,
        0x4f => Code::APUT_BYTE,
        0x50 => Code::APUT_CHAR,
        0x51 => Code::APUT_SHORT,
        0x52 => Code::IGET,
        0x53 => Code::IGET_WIDE,
        0x54 => Code::IGET_OBJECT,
        0x55 => Code::IGET_BOOLEAN,
        0x56 => Code::IGET_BYTE,
        0x57 => Code::IGET_CHAR,
        0x58 => Code::IGET_SHORT,
        0x59 => Code::IPUT,
        0x5a => Code::IPUT_WIDE,
        0x5b => Code::IPUT_OBJECT,
        0x5c => Code::IPUT_BOOLEAN,
        0x5d => Code::IPUT_BYTE,
        0x5e => Code::IPUT_CHAR,
        0x5f => Code::IPUT_SHORT,
        0x60 => Code::SGET,
        0x61 => Code::SGET_WIDE,
        0x62 => Code::SGET_OBJECT,
        0x63 => Code::SGET_BOOLEAN,
        0x64 => Code::SGET_BYTE,
        0x65 => Code::SGET_CHAR,
        0x66 => Code::SGET_SHORT,
        0x67 => Code::SPUT,
        0x68 => Code::SPUT_WIDE,
        0x69 => Code::SPUT_OBJECT,
        0x6a => Code::SPUT_BOOLEAN,
        0x6b => Code::SPUT_BYTE,
        0x6c => Code::SPUT_CHAR,
        0x6d => Code::SPUT_SHORT,
        0x6e => Code::INVOKE_VIRTUAL,
        0x6f => Code::INVOKE_SUPER,
        0x70 => Code::INVOKE_DIRECT,
        0x71 => Code::INVOKE_STATIC,
        0x72 => Code::INVOKE_INTERFACE,
        0x73 => Code::UNUSED_73,
        0x74 => Code::INVOKE_VIRTUAL_RANGE,
        0x75 => Code::INVOKE_SUPER_RANGE,
        0x76 => Code::INVOKE_DIRECT_RANGE,
        0x77 => Code::INVOKE_STATIC_RANGE,
        0x78 => Code::INVOKE_INTERFACE_RANGE,
        0x79 => Code::UNUSED_79,
        0x7a => Code::UNUSED_7A,
        0x7b => Code::NEG_INT,
        0x7c => Code::NOT_INT,
        0x7d => Code::NEG_LONG,
        0x7e => Code::NOT_LONG,
        0x7f => Code::NEG_FLOAT,
        0x80 => Code::NEG_DOUBLE,
        0x81 => Code::INT_TO_LONG,
        0x82 => Code::INT_TO_FLOAT,
        0x83 => Code::INT_TO_DOUBLE,
        0x84 => Code::LONG_TO_INT,
        0x85 => Code::LONG_TO_FLOAT,
        0x86 => Code::LONG_TO_DOUBLE,
        0x87 => Code::FLOAT_TO_INT,
        0x88 => Code::FLOAT_TO_LONG,
        0x89 => Code::FLOAT_TO_DOUBLE,
        0x8a => Code::DOUBLE_TO_INT,
        0x8b => Code::DOUBLE_TO_LONG,
        0x8c => Code::DOUBLE_TO_FLOAT,
        0x8d => Code::INT_TO_BYTE,
        0x8e => Code::INT_TO_CHAR,
        0x8f => Code::INT_TO_SHORT,
        0x90 => Code::ADD_INT,
        0x91 => Code::SUB_INT,
        0x92 => Code::MUL_INT,
        0x93 => Code::DIV_INT,
        0x94 => Code::REM_INT,
        0x95 => Code::AND_INT,
        0x96 => Code::OR_INT,
        0x97 => Code::XOR_INT,
        0x98 => Code::SHL_INT,
        0x99 => Code::SHR_INT,
        0x9a => Code::USHR_INT,
        0x9b => Code::ADD_LONG,
        0x9c => Code::SUB_LONG,
        0x9d => Code::MUL_LONG,
        0x9e => Code::DIV_LONG,
        0x9f => Code::REM_LONG,
        0xa0 => Code::AND_LONG,
        0xa1 => Code::OR_LONG,
        0xa2 => Code::XOR_LONG,
        0xa3 => Code::SHL_LONG,
        0xa4 => Code::SHR_LONG,
        0xa5 => Code::USHR_LONG,
        0xa6 => Code::ADD_FLOAT,
        0xa7 => Code::SUB_FLOAT,
        0xa8 => Code::MUL_FLOAT,
        0xa9 => Code::DIV_FLOAT,
        0xaa => Code::REM_FLOAT,
        0xab => Code::ADD_DOUBLE,
        0xac => Code::SUB_DOUBLE,
        0xad => Code::MUL_DOUBLE,
        0xae => Code::DIV_DOUBLE,
        0xaf => Code::REM_DOUBLE,
        0xb0 => Code::ADD_INT_2ADDR,
        0xb1 => Code::SUB_INT_2ADDR,
        0xb2 => Code::MUL_INT_2ADDR,
        0xb3 => Code::DIV_INT_2ADDR,
        0xb4 => Code::REM_INT_2ADDR,
        0xb5 => Code::AND_INT_2ADDR,
        0xb6 => Code::OR_INT_2ADDR,
        0xb7 => Code::XOR_INT_2ADDR,
        0xb8 => Code::SHL_INT_2ADDR,
        0xb9 => Code::SHR_INT_2ADDR,
        0xba => Code::USHR_INT_2ADDR,
        0xbb => Code::ADD_LONG_2ADDR,
        0xbc => Code::SUB_LONG_2ADDR,
        0xbd => Code::MUL_LONG_2ADDR,
        0xbe => Code::DIV_LONG_2ADDR,
        0xbf => Code::REM_LONG_2ADDR,
        0xc0 => Code::AND_LONG_2ADDR,
        0xc1 => Code::OR_LONG_2ADDR,
        0xc2 => Code::XOR_LONG_2ADDR,
        0xc3 => Code::SHL_LONG_2ADDR,
        0xc4 => Code::SHR_LONG_2ADDR,
        0xc5 => Code::USHR_LONG_2ADDR,
        0xc6 => Code::ADD_FLOAT_2ADDR,
        0xc7 => Code::SUB_FLOAT_2ADDR,
        0xc8 => Code::MUL_FLOAT_2ADDR,
        0xc9 => Code::DIV_FLOAT_2ADDR,
        0xca => Code::REM_FLOAT_2ADDR,
        0xcb => Code::ADD_DOUBLE_2ADDR,
        0xcc => Code::SUB_DOUBLE_2ADDR,
        0xcd => Code::MUL_DOUBLE_2ADDR,
        0xce => Code::DIV_DOUBLE_2ADDR,
        0xcf => Code::REM_DOUBLE_2ADDR,
        0xd0 => Code::ADD_INT_LIT16,
        0xd1 => Code::RSUB_INT,
        0xd2 => Code::MUL_INT_LIT16,
        0xd3 => Code::DIV_INT_LIT16,
        0xd4 => Code::REM_INT_LIT16,
        0xd5 => Code::AND_INT_LIT16,
        0xd6 => Code::OR_INT_LIT16,
        0xd7 => Code::XOR_INT_LIT16,
        0xd8 => Code::ADD_INT_LIT8,
        0xd9 => Code::RSUB_INT_LIT8,
        0xda => Code::MUL_INT_LIT8,
        0xdb => Code::DIV_INT_LIT8,
        0xdc => Code::REM_INT_LIT8,
        0xdd => Code::AND_INT_LIT8,
        0xde => Code::OR_INT_LIT8,
        0xdf => Code::XOR_INT_LIT8,
        0xe0 => Code::SHL_INT_LIT8,
        0xe1 => Code::SHR_INT_LIT8,
        0xe2 => Code::USHR_INT_LIT8,
        0xe3 => Code::UNUSED_E3,
        0xe4 => Code::UNUSED_E4,
        0xe5 => Code::UNUSED_E5,
        0xe6 => Code::UNUSED_E6,
        0xe7 => Code::UNUSED_E7,
        0xe8 => Code::UNUSED_E8,
        0xe9 => Code::UNUSED_E9,
        0xea => Code::UNUSED_EA,
        0xeb => Code::UNUSED_EB,
        0xec => Code::UNUSED_EC,
        0xed => Code::UNUSED_ED,
        0xee => Code::UNUSED_EE,
        0xef => Code::UNUSED_EF,
        0xf0 => Code::UNUSED_F0,
        0xf1 => Code::UNUSED_F1,
        0xf2 => Code::UNUSED_F2,
        0xf3 => Code::UNUSED_F3,
        0xf4 => Code::UNUSED_F4,
        0xf5 => Code::UNUSED_F5,
        0xf6 => Code::UNUSED_F6,
        0xf7 => Code::UNUSED_F7,
        0xf8 => Code::UNUSED_F8,
        0xf9 => Code::UNUSED_F9,
        0xfa => Code::INVOKE_POLYMORPHIC,
        0xfb => Code::INVOKE_POLYMORPHIC_RANGE,
        0xfc => Code::INVOKE_CUSTOM,
        0xfd => Code::INVOKE_CUSTOM_RANGE,
        0xfe => Code::CONST_METHOD_HANDLE,
        _ => Code::CONST_METHOD_TYPE,
    }
}

/// The opcode whose byte value is `byte`.
pub fn code_from_byte(byte: u8) -> (r: Code)
    ensures
        r == code_of(byte),
{
    match byte {
        0x00 => Code::NOP,
        0x01 => Code::MOVE,
        0x02 => Code::MOVE_FROM16,
        0x03 => Code::MOVE_16,
        0x04 => Code::MOVE_WIDE,
        0x05 => Code::MOVE_WIDE_FROM16,
        0x06 => Code::MOVE_WIDE_16,
        0x07 => Code::MOVE_OBJECT,
        0x08 => Code::MOVE_OBJECT_FROM16,
        0x09 => Code::MOVE_OBJECT_16,
        0x0a => Code::MOVE_RESULT,
        0x0b => Code::MOVE_RESULT_WIDE,
        0x0c => Code::MOVE_RESULT_OBJECT,
        0x0d => Code::MOVE_EXCEPTION,
        0x0e => Code::RETURN_VOID,
        0x0f => Code::RETURN,
        0x10 => Code::RETURN_WIDE,
        0x11 => Code::RETURN_OBJECT,
        0x12 => Code::CONST_4,
        0x13 => Code::CONST_16,
        0x14 => Code::CONST,
        0x15 => Code::CONST_HIGH16,
        0x16 => Code::CONST_WIDE_16,
        0x17 => Code::CONST_WIDE_32,
        0x18 => Code::CONST_WIDE,
        0x19 => Code::CONST_WIDE_HIGH16,
        0x1a => Code::CONST_STRING,
        0x1b => Code::CONST_STRING_JUMBO,
        0x1c => Code::CONST_CLASS,
        0x1d => Code::MONITOR_ENTER,
        0x1e => Code::MONITOR_EXIT,
        0x1f => Code::CHECK_CAST,
        0x20 => Code::INSTANCE_OF,
        0x21 => Code::ARRAY_LENGTH,
        0x22 => Code::NEW_INSTANCE,
        0x23 => Code::NEW_ARRAY,
        0x24 => Code::FILLED_NEW_ARRAY,
        0x25 => Code::FILLED_NEW_ARRAY_RANGE,
        0x26 => Code::FILL_ARRAY_DATA,
        0x27 => Code::THROW,
        0x28 => Code::GOTO,
        0x29 => Code::GOTO_16,
        0x2a => Code::GOTO_32,
        0x2b => Code::PACKED_SWITCH,
        0x2c => Code::SPARSE_SWITCH,
        0x2d => Code::CMPL_FLOAT,
        0x2e => Code::CMPG_FLOAT,
        0x2f => Code::CMPL_DOUBLE,
        0x30 => Code::CMPG_DOUBLE,
        0x31 => Code::CMP_LONG,
        0x32 => Code::IF_EQ,
        0x33 => Code::IF_NE,
        0x34 => Code::IF_LT,
        0x35 => Code::IF_GE,
        0x36 => Code::IF_GT,
        0x37 => Code::IF_LE,
        0x38 => Code::IF_EQZ,
        0x39 => Code::IF_NEZ,
        0x3a => Code::IF_LTZ,
        0x3b => Code::IF_GEZ,
        0x3c => Code::IF_GTZ,
        0x3d => Code::IF_LEZ,
        0x3e => Code::UNUSED_3E,
        0x3f => Code::UNUSED_3F,
        0x40 => Code::UNUSED_40,
        0x41 => Code::UNUSED_41,
        0x42 => Code::UNUSED_42,
        0x43 => Code::UNUSED_43,
        0x44 => Code::AGET,
        0x45 => Code::AGET_WIDE,
        0x46 => Code::AGET_OBJECT,
        0x47 => Code::AGET_BOOLEAN,
        0x48 => Code::AGET_BYTE,
        0x49 => Code::AGET_CHAR,
        0x4a => Code::AGET_SHORT,
        0x4b => Code::APUT,
        0x4c => Code::APUT_WIDE,
        0x4d => Code::APUT_OBJECT,
        0x4e => Code::APUT_BOOLEAN,
        0x4f => Code::APUT_BYTE,
        0x50 => Code::APUT_CHAR,
        0x51 => Code::APUT_SHORT,
        0x52 => Code::IGET,
        0x53 => Code::IGET_WIDE,
        0x54 => Code::IGET_OBJECT,
        0x55 => Code::IGET_BOOLEAN,
        0x56 => Code::IGET_BYTE,
        0x57 => Code::IGET_CHAR,
        0x58 => Code::IGET_SHORT,
        0x59 => Code::IPUT,
        0x5a => Code::IPUT_WIDE,
        0x5b => Code::IPUT_OBJECT,
        0x5c => Code::IPUT_BOOLEAN,
        0x5d => Code::IPUT_BYTE,
        0x5e => Code::IPUT_CHAR,
        0x5f => Code::IPUT_SHORT,
        0x60 => Code::SGET,
        0x61 => Code::SGET_WIDE,
        0x62 => Code::SGET_OBJECT,
        0x63 => Code::SGET_BOOLEAN,
        0x64 => Code::SGET_BYTE,
        0x65 => Code::SGET_CHAR,
        0x66 => Code::SGET_SHORT,
        0x67 => Code::SPUT,
        0x68 => Code::SPUT_WIDE,
        0x69 => Code::SPUT_OBJECT,
        0x6a => Code::SPUT_BOOLEAN,
        0x6b => Code::SPUT_BYTE,
        0x6c => Code::SPUT_CHAR,
        0x6d => Code::SPUT_SHORT,
        0x6e => Code::INVOKE_VIRTUAL,
        0x6f => Code::INVOKE_SUPER,
        0x70 => Code::INVOKE_DIRECT,
        0x71 => Code::INVOKE_STATIC,
        0x72 => Code::INVOKE_INTERFACE,
        0x73 => Code::UNUSED_73,
        0x74 => Code::INVOKE_VIRTUAL_RANGE,
        0x75 => Code::INVOKE_SUPER_RANGE,
        0x76 => Code::INVOKE_DIRECT_RANGE,
        0x77 => Code::INVOKE_STATIC_RANGE,
        0x78 => Code::INVOKE_INTERFACE_RANGE,
        0x79 => Code::UNUSED_79,
        0x7a => Code::UNUSED_7A,
        0x7b => Code::NEG_INT,
        0x7c => Code::NOT_INT,
        0x7d => Code::NEG_LONG,
        0x7e => Code::NOT_LONG,
        0x7f => Code::NEG_FLOAT,
        0x80 => Code::NEG_DOUBLE,
        0x81 => Code::INT_TO_LONG,
        0x82 => Code::INT_TO_FLOAT,
        0x83 => Code::INT_TO_DOUBLE,
        0x84 => Code::LONG_TO_INT,
        0x85 => Code::LONG_TO_FLOAT,
        0x86 => Code::LONG_TO_DOUBLE,
        0x87 => Code::FLOAT_TO_INT,
        0x88 => Code::FLOAT_TO_LONG,
        0x89 => Code::FLOAT_TO_DOUBLE,
        0x8a => Code::DOUBLE_TO_INT,
        0x8b => Code::DOUBLE_TO_LONG,
        0x8c => Code::DOUBLE_TO_FLOAT,
        0x8d => Code::INT_TO_BYTE,
        0x8e => Code::INT_TO_CHAR,
        0x8f => Code::INT_TO_SHORT,
        0x90 => Code::ADD_INT,
        0x91 => Code::SUB_INT,
        0x92 => Code::MUL_INT,
        0x93 => Code::DIV_INT,
        0x94 => Code::REM_INT,
        0x95 => Code::AND_INT,
        0x96 => Code::OR_INT,
        0x97 => Code::XOR_INT,
        0x98 => Code::SHL_INT,
        0x99 => Code::SHR_INT,
        0x9a => Code::USHR_INT,
        0x9b => Code::ADD_LONG,
        0x9c => Code::SUB_LONG,
        0x9d => Code::MUL_LONG,
        0x9e => Code::DIV_LONG,
        0x9f => Code::REM_LONG,
        0xa0 => Code::AND_LONG,
        0xa1 => Code::OR_LONG,
        0xa2 => Code::XOR_LONG,
        0xa3 => Code::SHL_LONG,
        0xa4 => Code::SHR_LONG,
        0xa5 => Code::USHR_LONG,
        0xa6 => Code::ADD_FLOAT,
        0xa7 => Code::SUB_FLOAT,
        0xa8 => Code::MUL_FLOAT,
        0xa9 => Code::DIV_FLOAT,
        0xaa => Code::REM_FLOAT,
        0xab => Code::ADD_DOUBLE,
        0xac => Code::SUB_DOUBLE,
        0xad => Code::MUL_DOUBLE,
        0xae => Code::DIV_DOUBLE,
        0xaf => Code::REM_DOUBLE,
        0xb0 => Code::ADD_INT_2ADDR,
        0xb1 => Code::SUB_INT_2ADDR,
        0xb2 => Code::MUL_INT_2ADDR,
        0xb3 => Code::DIV_INT_2ADDR,
        0xb4 => Code::REM_INT_2ADDR,
        0xb5 => Code::AND_INT_2ADDR,
        0xb6 => Code::OR_INT_2ADDR,
        0xb7 => Code::XOR_INT_2ADDR,
        0xb8 => Code::SHL_INT_2ADDR,
        0xb9 => Code::SHR_INT_2ADDR,
        0xba => Code::USHR_INT_2ADDR,
        0xbb => Code::ADD_LONG_2ADDR,
        0xbc => Code::SUB_LONG_2ADDR,
        0xbd => Code::MUL_LONG_2ADDR,
        0xbe => Code::DIV_LONG_2ADDR,
        0xbf => Code::REM_LONG_2ADDR,
        0xc0 => Code::AND_LONG_2ADDR,
        0xc1 => Code::OR_LONG_2ADDR,
        0xc2 => Code::XOR_LONG_2ADDR,
        0xc3 => Code::SHL_LONG_2ADDR,
        0xc4 => Code::SHR_LONG_2ADDR,
        0xc5 => Code::USHR_LONG_2ADDR,
        0xc6 => Code::ADD_FLOAT_2ADDR,
        0xc7 => Code::SUB_FLOAT_2ADDR,
        0xc8 => Code::MUL_FLOAT_2ADDR,
        0xc9 => Code::DIV_FLOAT_2ADDR,
        0xca => Code::REM_FLOAT_2ADDR,
        0xcb => Code::ADD_DOUBLE_2ADDR,
        0xcc => Code::SUB_DOUBLE_2ADDR,
        0xcd => Code::MUL_DOUBLE_2ADDR,
        0xce => Code::DIV_DOUBLE_2ADDR,
        0xcf => Code::REM_DOUBLE_2ADDR,
        0xd0 => Code::ADD_INT_LIT16,
        0xd1 => Code::RSUB_INT,
        0xd2 => Code::MUL_INT_LIT16,
        0xd3 => Code::DIV_INT_LIT16,
        0xd4 => Code::REM_INT_LIT16,
        0xd5 => Code::AND_INT_LIT16,
        0xd6 => Code::OR_INT_LIT16,
        0xd7 => Code::XOR_INT_LIT16,
        0xd8 => Code::ADD_INT_LIT8,
        0xd9 => Code::RSUB_INT_LIT8,
        0xda => Code::MUL_INT_LIT8,
        0xdb => Code::DIV_INT_LIT8,
        0xdc => Code::REM_INT_LIT8,
        0xdd => Code::AND_INT_LIT8,
        0xde => Code::OR_INT_LIT8,
        0xdf => Code::XOR_INT_LIT8,
        0xe0 => Code::SHL_INT_LIT8,
        0xe1 => Code::SHR_INT_LIT8,
        0xe2 => Code::USHR_INT_LIT8,
        0xe3 => Code::UNUSED_E3,
        0xe4 => Code::UNUSED_E4,
        0xe5 => Code::UNUSED_E5,
        0xe6 => Code::UNUSED_E6,
        0xe7 => Code::UNUSED_E7,
        0xe8 => Code::UNUSED_E8,
        0xe9 => Code::UNUSED_E9,
        0xea => Code::UNUSED_EA,
        0xeb => Code::UNUSED_EB,
        0xec => Code::UNUSED_EC,
        0xed => Code::UNUSED_ED,
        0xee => Code::UNUSED_EE,
        0xef => Code::UNUSED_EF,
        0xf0 => Code::UNUSED_F0,
        0xf1 => Code::UNUSED_F1,
        0xf2 => Code::UNUSED_F2,
        0xf3 => Code::UNUSED_F3,
        0xf4 => Code::UNUSED_F4,
        0xf5 => Code::UNUSED_F5,
        0xf6 => Code::UNUSED_F6,
        0xf7 => Code::UNUSED_F7,
        0xf8 => Code::UNUSED_F8,
        0xf9 => Code::UNUSED_F9,
        0xfa => Code::INVOKE_POLYMORPHIC,
        0xfb => Code::INVOKE_POLYMORPHIC_RANGE,
        0xfc => Code::INVOKE_CUSTOM,
        0xfd => Code::INVOKE_CUSTOM_RANGE,
        0xfe => Code::CONST_METHOD_HANDLE,
        _ => Code::CONST_METHOD_TYPE,
    }
}

/// The byte value of an opcode.
pub open spec fn byte_of(code: Code) -> u8 {
    match code {
        Code::NOP => 0x00,
        Code::MOVE => 0x01,
        Code::MOVE_FROM16 => 0x02,
        Code::MOVE_16 => 0x03,
        Code::MOVE_WIDE => 0x04,
        Code::MOVE_WIDE_FROM16 => 0x05,
        Code::MOVE_WIDE_16 => 0x06,
        Code::MOVE_OBJECT => 0x07,
        Code::MOVE_OBJECT_FROM16 => 0x08,
        Code::MOVE_OBJECT_16 => 0x09,
        Code::MOVE_RESULT => 0x0a,
        Code::MOVE_RESULT_WIDE => 0x0b,
        Code::MOVE_RESULT_OBJECT => 0x0c,
        Code::MOVE_EXCEPTION => 0x0d,
        Code::RETURN_VOID => 0x0e,
        Code::RETURN => 0x0f,
        Code::RETURN_WIDE => 0x10,
        Code::RETURN_OBJECT => 0x11,
        Code::CONST_4 => 0x12,
        Code::CONST_16 => 0x13,
        Code::CONST => 0x14,
        Code::CONST_HIGH16 => 0x15,
        Code::CONST_WIDE_16 => 0x16,
        Code::CONST_WIDE_32 => 0x17,
        Code::CONST_WIDE => 0x18,
        Code::CONST_WIDE_HIGH16 => 0x19,
        Code::CONST_STRING => 0x1a,
        Code::CONST_STRING_JUMBO => 0x1b,
        Code::CONST_CLASS => 0x1c,
        Code::MONITOR_ENTER => 0x1d,
        Code::MONITOR_EXIT => 0x1e,
        Code::CHECK_CAST => 0x1f,
        Code::INSTANCE_OF => 0x20,
        Code::ARRAY_LENGTH => 0x21,
        Code::NEW_INSTANCE => 0x22,
        Code::NEW_ARRAY => 0x23,
        Code::FILLED_NEW_ARRAY => 0x24,
        Code::FILLED_NEW_ARRAY_RANGE => 0x25,
        Code::FILL_ARRAY_DATA => 0x26,
        Code::THROW => 0x27,
        Code::GOTO => 0x28,
        Code::GOTO_16 => 0x29,
        Code::GOTO_32 => 0x2a,
        Code::PACKED_SWITCH => 0x2b,
        Code::SPARSE_SWITCH => 0x2c,
        Code::CMPL_FLOAT => 0x2d,
        Code::CMPG_FLOAT => 0x2e,
        Code::CMPL_DOUBLE => 0x2f,
        Code::CMPG_DOUBLE => 0x30,
        Code::CMP_LONG => 0x31,
        Code::IF_EQ => 0x32,
        Code::IF_NE => 0x33,
        Code::IF_LT => 0x34,
        Code::IF_GE => 0x35,
        Code::IF_GT => 0x36,
        Code::IF_LE => 0x37,
        Code::IF_EQZ => 0x38,
        Code::IF_NEZ => 0x39,
        Code::IF_LTZ => 0x3a,
        Code::IF_GEZ => 0x3b,
        Code::IF_GTZ => 0x3c,
        Code::IF_LEZ => 0x3d,
        Code::UNUSED_3E => 0x3e,
        Code::UNUSED_3F => 0x3f,
        Code::UNUSED_40 => 0x40,
        Code::UNUSED_41 => 0x41,
        Code::UNUSED_42 => 0x42,
        Code::UNUSED_43 => 0x43,
        Code::AGET => 0x44,
        Code::AGET_WIDE => 0x45,
        Code::AGET_OBJECT => 0x46,
        Code::AGET_BOOLEAN => 0x47,
        Code::AGET_BYTE => 0x48,
        Code::AGET_CHAR => 0x49,
        Code::AGET_SHORT => 0x4a,
        Code::APUT => 0x4b,
        Code::APUT_WIDE => 0x4c,
        Code::APUT_OBJECT => 0x4d,
        Code::APUT_BOOLEAN => 0x4e,
        Code::APUT_BYTE => 0x4f,
        Code::APUT_CHAR => 0x50,
        Code::APUT_SHORT => 0x51,
        Code::IGET => 0x52,
        Code::IGET_WIDE => 0x53,
        Code::IGET_OBJECT => 0x54,
        Code::IGET_BOOLEAN => 0x55,
        Code::IGET_BYTE => 0x56,
        Code::IGET_CHAR => 0x57,
        Code::IGET_SHORT => 0x58,
        Code::IPUT => 0x59,
        Code::IPUT_WIDE => 0x5a,
        Code::IPUT_OBJECT => 0x5b,
        Code::IPUT_BOOLEAN => 0x5c,
        Code::IPUT_BYTE => 0x5d,
        Code::IPUT_CHAR => 0x5e,
        Code::IPUT_SHORT => 0x5f,
        Code::SGET => 0x60,
        Code::SGET_WIDE => 0x61,
        Code::SGET_OBJECT => 0x62,
        Code::SGET_BOOLEAN => 0x63,
        Code::SGET_BYTE => 0x64,
        Code::SGET_CHAR => 0x65,
        Code::SGET_SHORT => 0x66,
        Code::SPUT => 0x67,
        Code::SPUT_WIDE => 0x68,
        Code::SPUT_OBJECT => 0x69,
        Code::SPUT_BOOLEAN => 0x6a,
        Code::SPUT_BYTE => 0x6b,
        Code::SPUT_CHAR => 0x6c,
        Code::SPUT_SHORT => 0x6d,
        Code::INVOKE_VIRTUAL => 0x6e,
        Code::INVOKE_SUPER => 0x6f,
        Code::INVOKE_DIRECT => 0x70,
        Code::INVOKE_STATIC => 0x71,
        Code::INVOKE_INTERFACE => 0x72,
        Code::UNUSED_73 => 0x73,
        Code::INVOKE_VIRTUAL_RANGE => 0x74,
        Code::INVOKE_SUPER_RANGE => 0x75,
        Code::INVOKE_DIRECT_RANGE => 0x76,
        Code::INVOKE_STATIC_RANGE => 0x77,
        Code::INVOKE_INTERFACE_RANGE => 0x78,
        Code::UNUSED_79 => 0x79,
        Code::UNUSED_7A => 0x7a,
        Code::NEG_INT => 0x7b,
        Code::NOT_INT => 0x7c,
        Code::NEG_LONG => 0x7d,
        Code::NOT_LONG => 0x7e,
        Code::NEG_FLOAT => 0x7f,
        Code::NEG_DOUBLE => 0x80,
        Code::INT_TO_LONG => 0x81,
        Code::INT_TO_FLOAT => 0x82,
        Code::INT_TO_DOUBLE => 0x83,
        Code::LONG_TO_INT => 0x84,
        Code::LONG_TO_FLOAT => 0x85,
        Code::LONG_TO_DOUBLE => 0x86,
        Code::FLOAT_TO_INT => 0x87,
        Code::FLOAT_TO_LONG => 0x88,
        Code::FLOAT_TO_DOUBLE => 0x89,
        Code::DOUBLE_TO_INT => 0x8a,
        Code::DOUBLE_TO_LONG => 0x8b,
        Code::DOUBLE_TO_FLOAT => 0x8c,
        Code::INT_TO_BYTE => 0x8d,
        Code::INT_TO_CHAR => 0x8e,
        Code::INT_TO_SHORT => 0x8f,
        Code::ADD_INT => 0x90,
        Code::SUB_INT => 0x91,
        Code::MUL_INT => 0x92,
        Code::DIV_INT => 0x93,
        Code::REM_INT => 0x94,
        Code::AND_INT => 0x95,
        Code::OR_INT => 0x96,
        Code::XOR_INT => 0x97,
        Code::SHL_INT => 0x98,
        Code::SHR_INT => 0x99,
        Code::USHR_INT => 0x9a,
        Code::ADD_LONG => 0x9b,
        Code::SUB_LONG => 0x9c,
        Code::MUL_LONG => 0x9d,
        Code::DIV_LONG => 0x9e,
        Code::REM_LONG => 0x9f,
        Code::AND_LONG => 0xa0,
        Code::OR_LONG => 0xa1,
        Code::XOR_LONG => 0xa2,
        Code::SHL_LONG => 0xa3,
        Code::SHR_LONG => 0xa4,
        Code::USHR_LONG => 0xa5,
        Code::ADD_FLOAT => 0xa6,
        Code::SUB_FLOAT => 0xa7,
        Code::MUL_FLOAT => 0xa8,
        Code::DIV_FLOAT => 0xa9,
        Code::REM_FLOAT => 0xaa,
        Code::ADD_DOUBLE => 0xab,
        Code::SUB_DOUBLE => 0xac,
        Code::MUL_DOUBLE => 0xad,
        Code::DIV_DOUBLE => 0xae,
        Code::REM_DOUBLE => 0xaf,
        Code::ADD_INT_2ADDR => 0xb0,
        Code::SUB_INT_2ADDR => 0xb1,
        Code::MUL_INT_2ADDR => 0xb2,
        Code::DIV_INT_2ADDR => 0xb3,
        Code::REM_INT_2ADDR => 0xb4,
        Code::AND_INT_2ADDR => 0xb5,
        Code::OR_INT_2ADDR => 0xb6,
        Code::XOR_INT_2ADDR => 0xb7,
        Code::SHL_INT_2ADDR => 0xb8,
        Code::SHR_INT_2ADDR => 0xb9,
        Code::USHR_INT_2ADDR => 0xba,
        Code::ADD_LONG_2ADDR => 0xbb,
        Code::SUB_LONG_2ADDR => 0xbc,
        Code::MUL_LONG_2ADDR => 0xbd,
        Code::DIV_LONG_2ADDR => 0xbe,
        Code::REM_LONG_2ADDR => 0xbf,
        Code::AND_LONG_2ADDR => 0xc0,
        Code::OR_LONG_2ADDR => 0xc1,
        Code::XOR_LONG_2ADDR => 0xc2,
        Code::SHL_LONG_2ADDR => 0xc3,
        Code::SHR_LONG_2ADDR => 0xc4,
        Code::USHR_LONG_2ADDR => 0xc5,
        Code::ADD_FLOAT_2ADDR => 0xc6,
        Code::SUB_FLOAT_2ADDR => 0xc7,
        Code::MUL_FLOAT_2ADDR => 0xc8,
        Code::DIV_FLOAT_2ADDR => 0xc9,
        Code::REM_FLOAT_2ADDR => 0xca,
        Code::ADD_DOUBLE_2ADDR => 0xcb,
        Code::SUB_DOUBLE_2ADDR => 0xcc,
        Code::MUL_DOUBLE_2ADDR => 0xcd,
        Code::DIV_DOUBLE_2ADDR => 0xce,
        Code::REM_DOUBLE_2ADDR => 0xcf,
        Code::ADD_INT_LIT16 => 0xd0,
        Code::RSUB_INT => 0xd1,
        Code::MUL_INT_LIT16 => 0xd2,
        Code::DIV_INT_LIT16 => 0xd3,
        Code::REM_INT_LIT16 => 0xd4,
        Code::AND_INT_LIT16 => 0xd5,
        Code::OR_INT_LIT16 => 0xd6,
        Code::XOR_INT_LIT16 => 0xd7,
        Code::ADD_INT_LIT8 => 0xd8,
        Code::RSUB_INT_LIT8 => 0xd9,
        Code::MUL_INT_LIT8 => 0xda,
        Code::DIV_INT_LIT8 => 0xdb,
        Code::REM_INT_LIT8 => 0xdc,
        Code::AND_INT_LIT8 => 0xdd,
        Code::OR_INT_LIT8 => 0xde,
        Code::XOR_INT_LIT8 => 0xdf,
        Code::SHL_INT_LIT8 => 0xe0,
        Code::SHR_INT_LIT8 => 0xe1,
        Code::USHR_INT_LIT8 => 0xe2,
        Code::UNUSED_E3 => 0xe3,
        Code::UNUSED_E4 => 0xe4,
        Code::UNUSED_E5 => 0xe5,
        Code::UNUSED_E6 => 0xe6,
        Code::UNUSED_E7 => 0xe7,
        Code::UNUSED_E8 => 0xe8,
        Code::UNUSED_E9 => 0xe9,
        Code::UNUSED_EA => 0xea,
        Code::UNUSED_EB => 0xeb,
        Code::UNUSED_EC => 0xec,
        Code::UNUSED_ED => 0xed,
        Code::UNUSED_EE => 0xee,
        Code::UNUSED_EF => 0xef,
        Code::UNUSED_F0 => 0xf0,
        Code::UNUSED_F1 => 0xf1,
        Code::UNUSED_F2 => 0xf2,
        Code::UNUSED_F3 => 0xf3,
        Code::UNUSED_F4 => 0xf4,
        Code::UNUSED_F5 => 0xf5,
        Code::UNUSED_F6 => 0xf6,
        Code::UNUSED_F7 => 0xf7,
        Code::UNUSED_F8 => 0xf8,
        Code::UNUSED_F9 => 0xf9,
        Code::INVOKE_POLYMORPHIC => 0xfa,
        Code::INVOKE_POLYMORPHIC_RANGE => 0xfb,
        Code::INVOKE_CUSTOM => 0xfc,
        Code::INVOKE_CUSTOM_RANGE => 0xfd,
        Code::CONST_METHOD_HANDLE => 0xfe,
        Code::CONST_METHOD_TYPE => 0xff,
    }
}

impl Code {
    /// The byte value of the opcode.
    pub fn value(self) -> (r: u8)
        ensures
            r == byte_of(self),
    {
        match self {
            Code::NOP => 0x00,
            Code::MOVE => 0x01,
            Code::MOVE_FROM16 => 0x02,
            Code::MOVE_16 => 0x03,
            Code::MOVE_WIDE => 0x04,
            Code::MOVE_WIDE_FROM16 => 0x05,
            Code::MOVE_WIDE_16 => 0x06,
            Code::MOVE_OBJECT => 0x07,
            Code::MOVE_OBJECT_FROM16 => 0x08,
            Code::MOVE_OBJECT_16 => 0x09,
            Code::MOVE_RESULT => 0x0a,
            Code::MOVE_RESULT_WIDE => 0x0b,
            Code::MOVE_RESULT_OBJECT => 0x0c,
            Code::MOVE_EXCEPTION => 0x0d,
            Code::RETURN_VOID => 0x0e,
            Code::RETURN => 0x0f,
            Code::RETURN_WIDE => 0x10,
            Code::RETURN_OBJECT => 0x11,
            Code::CONST_4 => 0x12,
            Code::CONST_16 => 0x13,
            Code::CONST => 0x14,
            Code::CONST_HIGH16 => 0x15,
            Code::CONST_WIDE_16 => 0x16,
            Code::CONST_WIDE_32 => 0x17,
            Code::CONST_WIDE => 0x18,
            Code::CONST_WIDE_HIGH16 => 0x19,
            Code::CONST_STRING => 0x1a,
            Code::CONST_STRING_JUMBO => 0x1b,
            Code::CONST_CLASS => 0x1c,
            Code::MONITOR_ENTER => 0x1d,
            Code::MONITOR_EXIT => 0x1e,
            Code::CHECK_CAST => 0x1f,
            Code::INSTANCE_OF => 0x20,
            Code::ARRAY_LENGTH => 0x21,
            Code::NEW_INSTANCE => 0x22,
            Code::NEW_ARRAY => 0x23,
            Code::FILLED_NEW_ARRAY => 0x24,
            Code::FILLED_NEW_ARRAY_RANGE => 0x25,
            Code::FILL_ARRAY_DATA => 0x26,
            Code::THROW => 0x27,
            Code::GOTO => 0x28,
            Code::GOTO_16 => 0x29,
            Code::GOTO_32 => 0x2a,
            Code::PACKED_SWITCH => 0x2b,
            Code::SPARSE_SWITCH => 0x2c,
            Code::CMPL_FLOAT => 0x2d,
            Code::CMPG_FLOAT => 0x2e,
            Code::CMPL_DOUBLE => 0x2f,
            Code::CMPG_DOUBLE => 0x30,
            Code::CMP_LONG => 0x31,
            Code::IF_EQ => 0x32,
            Code::IF_NE => 0x33,
            Code::IF_LT => 0x34,
            Code::IF_GE => 0x35,
            Code::IF_GT => 0x36,
            Code::IF_LE => 0x37,
            Code::IF_EQZ => 0x38,
            Code::IF_NEZ => 0x39,
            Code::IF_LTZ => 0x3a,
            Code::IF_GEZ => 0x3b,
            Code::IF_GTZ => 0x3c,
            Code::IF_LEZ => 0x3d,
            Code::UNUSED_3E => 0x3e,
            Code::UNUSED_3F => 0x3f,
            Code::UNUSED_40 => 0x40,
            Code::UNUSED_41 => 0x41,
            Code::UNUSED_42 => 0x42,
            Code::UNUSED_43 => 0x43,
            Code::AGET => 0x44,
            Code::AGET_WIDE => 0x45,
            Code::AGET_OBJECT => 0x46,
            Code::AGET_BOOLEAN => 0x47,
            Code::AGET_BYTE => 0x48,
            Code::AGET_CHAR => 0x49,
            Code::AGET_SHORT => 0x4a,
            Code::APUT => 0x4b,
            Code::APUT_WIDE => 0x4c,
            Code::APUT_OBJECT => 0x4d,
            Code::APUT_BOOLEAN => 0x4e,
            Code::APUT_BYTE => 0x4f,
            Code::APUT_CHAR => 0x50,
            Code::APUT_SHORT => 0x51,
            Code::IGET => 0x52,
            Code::IGET_WIDE => 0x53,
            Code::IGET_OBJECT => 0x54,
            Code::IGET_BOOLEAN => 0x55,
            Code::IGET_BYTE => 0x56,
            Code::IGET_CHAR => 0x57,
            Code::IGET_SHORT => 0x58,
            Code::IPUT => 0x59,
            Code::IPUT_WIDE => 0x5a,
            Code::IPUT_OBJECT => 0x5b,
            Code::IPUT_BOOLEAN => 0x5c,
            Code::IPUT_BYTE => 0x5d,
            Code::IPUT_CHAR => 0x5e,
            Code::IPUT_SHORT => 0x5f,
            Code::SGET => 0x60,
            Code::SGET_WIDE => 0x61,
            Code::SGET_OBJECT => 0x62,
            Code::SGET_BOOLEAN => 0x63,
            Code::SGET_BYTE => 0x64,
            Code::SGET_CHAR => 0x65,
            Code::SGET_SHORT => 0x66,
            Code::SPUT => 0x67,
            Code::SPUT_WIDE => 0x68,
            Code::SPUT_OBJECT => 0x69,
            Code::SPUT_BOOLEAN => 0x6a,
            Code::SPUT_BYTE => 0x6b,
            Code::SPUT_CHAR => 0x6c,
            Code::SPUT_SHORT => 0x6d,
            Code::INVOKE_VIRTUAL => 0x6e,
            Code::INVOKE_SUPER => 0x6f,
            Code::INVOKE_DIRECT => 0x70,
            Code::INVOKE_STATIC => 0x71,
            Code::INVOKE_INTERFACE => 0x72,
            Code::UNUSED_73 => 0x73,
            Code::INVOKE_VIRTUAL_RANGE => 0x74,
            Code::INVOKE_SUPER_RANGE => 0x75,
            Code::INVOKE_DIRECT_RANGE => 0x76,
            Code::INVOKE_STATIC_RANGE => 0x77,
            Code::INVOKE_INTERFACE_RANGE => 0x78,
            Code::UNUSED_79 => 0x79,
            Code::UNUSED_7A => 0x7a,
            Code::NEG_INT => 0x7b,
            Code::NOT_INT => 0x7c,
            Code::NEG_LONG => 0x7d,
            Code::NOT_LONG => 0x7e,
            Code::NEG_FLOAT => 0x7f,
            Code::NEG_DOUBLE => 0x80,
            Code::INT_TO_LONG => 0x81,
            Code::INT_TO_FLOAT => 0x82,
            Code::INT_TO_DOUBLE => 0x83,
            Code::LONG_TO_INT => 0x84,
            Code::LONG_TO_FLOAT => 0x85,
            Code::LONG_TO_DOUBLE => 0x86,
            Code::FLOAT_TO_INT => 0x87,
            Code::FLOAT_TO_LONG => 0x88,
            Code::FLOAT_TO_DOUBLE => 0x89,
            Code::DOUBLE_TO_INT => 0x8a,
            Code::DOUBLE_TO_LONG => 0x8b,
            Code::DOUBLE_TO_FLOAT => 0x8c,
            Code::INT_TO_BYTE => 0x8d,
            Code::INT_TO_CHAR => 0x8e,
            Code::INT_TO_SHORT => 0x8f,
            Code::ADD_INT => 0x90,
            Code::SUB_INT => 0x91,
            Code::MUL_INT => 0x92,
            Code::DIV_INT => 0x93,
            Code::REM_INT => 0x94,
            Code::AND_INT => 0x95,
            Code::OR_INT => 0x96,
            Code::XOR_INT => 0x97,
            Code::SHL_INT => 0x98,
            Code::SHR_INT => 0x99,
            Code::USHR_INT => 0x9a,
            Code::ADD_LONG => 0x9b,
            Code::SUB_LONG => 0x9c,
            Code::MUL_LONG => 0x9d,
            Code::DIV_LONG => 0x9e,
            Code::REM_LONG => 0x9f,
            Code::AND_LONG => 0xa0,
            Code::OR_LONG => 0xa1,
            Code::XOR_LONG => 0xa2,
            Code::SHL_LONG => 0xa3,
            Code::SHR_LONG => 0xa4,
            Code::USHR_LONG => 0xa5,
            Code::ADD_FLOAT => 0xa6,
            Code::SUB_FLOAT => 0xa7,
            Code::MUL_FLOAT => 0xa8,
            Code::DIV_FLOAT => 0xa9,
            Code::REM_FLOAT => 0xaa,
            Code::ADD_DOUBLE => 0xab,
            Code::SUB_DOUBLE => 0xac,
            Code::MUL_DOUBLE => 0xad,
            Code::DIV_DOUBLE => 0xae,
            Code::REM_DOUBLE => 0xaf,
            Code::ADD_INT_2ADDR => 0xb0,
            Code::SUB_INT_2ADDR => 0xb1,
            Code::MUL_INT_2ADDR => 0xb2,
            Code::DIV_INT_2ADDR => 0xb3,
            Code::REM_INT_2ADDR => 0xb4,
            Code::AND_INT_2ADDR => 0xb5,
            Code::OR_INT_2ADDR => 0xb6,
            Code::XOR_INT_2ADDR => 0xb7,
            Code::SHL_INT_2ADDR => 0xb8,
            Code::SHR_INT_2ADDR => 0xb9,
            Code::USHR_INT_2ADDR => 0xba,
            Code::ADD_LONG_2ADDR => 0xbb,
            Code::SUB_LONG_2ADDR => 0xbc,
            Code::MUL_LONG_2ADDR => 0xbd,
            Code::DIV_LONG_2ADDR => 0xbe,
            Code::REM_LONG_2ADDR => 0xbf,
            Code::AND_LONG_2ADDR => 0xc0,
            Code::OR_LONG_2ADDR => 0xc1,
            Code::XOR_LONG_2ADDR => 0xc2,
            Code::SHL_LONG_2ADDR => 0xc3,
            Code::SHR_LONG_2ADDR => 0xc4,
            Code::USHR_LONG_2ADDR => 0xc5,
            Code::ADD_FLOAT_2ADDR => 0xc6,
            Code::SUB_FLOAT_2ADDR => 0xc7,
            Code::MUL_FLOAT_2ADDR => 0xc8,
            Code::DIV_FLOAT_2ADDR => 0xc9,
            Code::REM_FLOAT_2ADDR => 0xca,
            Code::ADD_DOUBLE_2ADDR => 0xcb,
            Code::SUB_DOUBLE_2ADDR => 0xcc,
            Code::MUL_DOUBLE_2ADDR => 0xcd,
            Code::DIV_DOUBLE_2ADDR => 0xce,
            Code::REM_DOUBLE_2ADDR => 0xcf,
            Code::ADD_INT_LIT16 => 0xd0,
            Code::RSUB_INT => 0xd1,
            Code::MUL_INT_LIT16 => 0xd2,
            Code::DIV_INT_LIT16 => 0xd3,
            Code::REM_INT_LIT16 => 0xd4,
            Code::AND_INT_LIT16 => 0xd5,
            Code::OR_INT_LIT16 => 0xd6,
            Code::XOR_INT_LIT16 => 0xd7,
            Code::ADD_INT_LIT8 => 0xd8,
            Code::RSUB_INT_LIT8 => 0xd9,
            Code::MUL_INT_LIT8 => 0xda,
            Code::DIV_INT_LIT8 => 0xdb,
            Code::REM_INT_LIT8 => 0xdc,
            Code::AND_INT_LIT8 => 0xdd,
            Code::OR_INT_LIT8 => 0xde,
            Code::XOR_INT_LIT8 => 0xdf,
            Code::SHL_INT_LIT8 => 0xe0,
            Code::SHR_INT_LIT8 => 0xe1,
            Code::USHR_INT_LIT8 => 0xe2,
            Code::UNUSED_E3 => 0xe3,
            Code::UNUSED_E4 => 0xe4,
            Code::UNUSED_E5 => 0xe5,
            Code::UNUSED_E6 => 0xe6,
            Code::UNUSED_E7 => 0xe7,
            Code::UNUSED_E8 => 0xe8,
            Code::UNUSED_E9 => 0xe9,
            Code::UNUSED_EA => 0xea,
            Code::UNUSED_EB => 0xeb,
            Code::UNUSED_EC => 0xec,
            Code::UNUSED_ED => 0xed,
            Code::UNUSED_EE => 0xee,
            Code::UNUSED_EF => 0xef,
            Code::UNUSED_F0 => 0xf0,
            Code::UNUSED_F1 => 0xf1,
            Code::UNUSED_F2 => 0xf2,
            Code::UNUSED_F3 => 0xf3,
            Code::UNUSED_F4 => 0xf4,
            Code::UNUSED_F5 => 0xf5,
            Code::UNUSED_F6 => 0xf6,
            Code::UNUSED_F7 => 0xf7,
            Code::UNUSED_F8 => 0xf8,
            Code::UNUSED_F9 => 0xf9,
            Code::INVOKE_POLYMORPHIC => 0xfa,
            Code::INVOKE_POLYMORPHIC_RANGE => 0xfb,
            Code::INVOKE_CUSTOM => 0xfc,
            Code::INVOKE_CUSTOM_RANGE => 0xfd,
            Code::CONST_METHOD_HANDLE => 0xfe,
            Code::CONST_METHOD_TYPE => 0xff,
        }
    }
}

/// Rows `0x00` to `0x0f` of the opcode table.
pub open spec fn rows_0(byte: u8) -> InstructionDescriptor {
    match byte {
        0x00 => entry("nop", Format::k10x, IndexType::NoIndex, 0x02, Code::NOP, 0x0000000),
        0x01 => entry("move", Format::k12x, IndexType::NoIndex, 0x02, Code::MOVE, 0x0000005),
        0x02 => entry("move/from16", Format::k22x, IndexType::NoIndex, 0x02, Code::MOVE_FROM16, 0x0000005),
        0x03 => entry("move/16", Format::k32x, IndexType::NoIndex, 0x02, Code::MOVE_16, 0x0000005),
        0x04 => entry("move-wide", Format::k12x, IndexType::NoIndex, 0x02, Code::MOVE_WIDE, 0x0000102),
        0x05 => entry("move-wide/from16", Format::k22x, IndexType::NoIndex, 0x02, Code::MOVE_WIDE_FROM16, 0x0000102),
        0x06 => entry("move-wide/16", Format::k32x, IndexType::NoIndex, 0x02, Code::MOVE_WIDE_16, 0x0000102),
        0x07 => entry("move-object", Format::k12x, IndexType::NoIndex, 0x02, Code::MOVE_OBJECT, 0x0000005),
        0x08 => entry("move-object/from16", Format::k22x, IndexType::NoIndex, 0x02, Code::MOVE_OBJECT_FROM16, 0x0000005),
        0x09 => entry("move-object/16", Format::k32x, IndexType::NoIndex, 0x02, Code::MOVE_OBJECT_16, 0x0000005),
        0x0a => entry("move-result", Format::k11x, IndexType::NoIndex, 0x02, Code::MOVE_RESULT, 0x0000001),
        0x0b => entry("move-result-wide", Format::k11x, IndexType::NoIndex, 0x02, Code::MOVE_RESULT_WIDE, 0x0000002),
        0x0c => entry("move-result-object", Format::k11x, IndexType::NoIndex, 0x02, Code::MOVE_RESULT_OBJECT, 0x0000001),
        0x0d => entry("move-exception", Format::k11x, IndexType::NoIndex, 0x02, Code::MOVE_EXCEPTION, 0x0000001),
        0x0e => entry("return-void", Format::k10x, IndexType::NoIndex, 0x10, Code::RETURN_VOID, 0x0000000),
        _ => entry("return", Format::k11x, IndexType::NoIndex, 0x10, Code::RETURN, 0x0000001),
    }
}

fn rows_0_of(byte: u8) -> (r: InstructionDescriptor)
    ensures
        r == rows_0(byte),
{
    match byte {
        0x00 => new_entry("nop", Format::k10x, IndexType::NoIndex, 0x02, Code::NOP, 0x0000000),
        0x01 => new_entry("move", Format::k12x, IndexType::NoIndex, 0x02, Code::MOVE, 0x0000005),
        0x02 => new_entry("move/from16", Format::k22x, IndexType::NoIndex, 0x02, Code::MOVE_FROM16, 0x0000005),
        0x03 => new_entry("move/16", Format::k32x, IndexType::NoIndex, 0x02, Code::MOVE_16, 0x0000005),
        0x04 => new_entry("move-wide", Format::k12x, IndexType::NoIndex, 0x02, Code::MOVE_WIDE, 0x0000102),
        0x05 => new_entry("move-wide/from16", Format::k22x, IndexType::NoIndex, 0x02, Code::MOVE_WIDE_FROM16, 0x0000102),
        0x06 => new_entry("move-wide/16", Format::k32x, IndexType::NoIndex, 0x02, Code::MOVE_WIDE_16, 0x0000102),
        0x07 => new_entry("move-object", Format::k12x, IndexType::NoIndex, 0x02, Code::MOVE_OBJECT, 0x0000005),
        0x08 => new_entry("move-object/from16", Format::k22x, IndexType::NoIndex, 0x02, Code::MOVE_OBJECT_FROM16, 0x0000005),
        0x09 => new_entry("move-object/16", Format::k32x, IndexType::NoIndex, 0x02, Code::MOVE_OBJECT_16, 0x0000005),
        0x0a => new_entry("move-result", Format::k11x, IndexType::NoIndex, 0x02, Code::MOVE_RESULT, 0x0000001),
        0x0b => new_entry("move-result-wide", Format::k11x, IndexType::NoIndex, 0x02, Code::MOVE_RESULT_WIDE, 0x0000002),
        0x0c => new_entry("move-result-object", Format::k11x, IndexType::NoIndex, 0x02, Code::MOVE_RESULT_OBJECT, 0x0000001),
        0x0d => new_entry("move-exception", Format::k11x, IndexType::NoIndex, 0x02, Code::MOVE_EXCEPTION, 0x0000001),
        0x0e => new_entry("return-void", Format::k10x, IndexType::NoIndex, 0x10, Code::RETURN_VOID, 0x0000000),
        _ => new_entry("return", Format::k11x, IndexType::NoIndex, 0x10, Code::RETURN, 0x0000001),
    }
}

/// Rows `0x10` to `0x1f` of the opcode table.
pub open spec fn rows_1(byte: u8) -> InstructionDescriptor {
    match byte {
        0x10 => entry("return-wide", Format::k11x, IndexType::NoIndex, 0x10, Code::RETURN_WIDE, 0x0000002),
        0x11 => entry("return-object", Format::k11x, IndexType::NoIndex, 0x10, Code::RETURN_OBJECT, 0x0000001),
        0x12 => entry("const/4", Format::k11n, IndexType::NoIndex, 0x02, Code::CONST_4, 0x0000001),
        0x13 => entry("const/16", Format::k21s, IndexType::NoIndex, 0x02, Code::CONST_16, 0x0000001),
        0x14 => entry("const", Format::k31i, IndexType::NoIndex, 0x02, Code::CONST, 0x0000001),
        0x15 => entry("const/high16", Format::k21h, IndexType::NoIndex, 0x02, Code::CONST_HIGH16, 0x0000001),
        0x16 => entry("const-wide/16", Format::k21s, IndexType::NoIndex, 0x02, Code::CONST_WIDE_16, 0x0000002),
        0x17 => entry("const-wide/32", Format::k31i, IndexType::NoIndex, 0x02, Code::CONST_WIDE_32, 0x0000002),
        0x18 => entry("const-wide", Format::k51l, IndexType::NoIndex, 0x02, Code::CONST_WIDE, 0x0000002),
        0x19 => entry("const-wide/high16", Format::k21h, IndexType::NoIndex, 0x02, Code::CONST_WIDE_HIGH16, 0x0000002),
        0x1a => entry("const-string", Format::k21c, IndexType::StringRef, 0x0a, Code::CONST_STRING, 0x0000041),
        0x1b => entry("const-string/jumbo", Format::k31c, IndexType::StringRef, 0x0a, Code::CONST_STRING_JUMBO, 0x0000041),
        0x1c => entry("const-class", Format::k21c, IndexType::TypeRef, 0x0a, Code::CONST_CLASS, 0x0000081),
        0x1d => entry("monitor-enter", Format::k11x, IndexType::NoIndex, 0x0a, Code::MONITOR_ENTER, 0x0000001),
        0x1e => entry("monitor-exit", Format::k11x, IndexType::NoIndex, 0x0a, Code::MONITOR_EXIT, 0x0000001),
        _ => entry("check-cast", Format::k21c, IndexType::TypeRef, 0x0a, Code::CHECK_CAST, 0x0000081),
    }
}

fn rows_1_of(byte: u8) -> (r: InstructionDescriptor)
    ensures
        r == rows_1(byte),
{
    match byte {
        0x10 => new_entry("return-wide", Format::k11x, IndexType::NoIndex, 0x10, Code::RETURN_WIDE, 0x0000002),
        0x11 => new_entry("return-object", Format::k11x, IndexType::NoIndex, 0x10, Code::RETURN_OBJECT, 0x0000001),
        0x12 => new_entry("const/4", Format::k11n, IndexType::NoIndex, 0x02, Code::CONST_4, 0x0000001),
        0x13 => new_entry("const/16", Format::k21s, IndexType::NoIndex, 0x02, Code::CONST_16, 0x0000001),
        0x14 => new_entry("const", Format::k31i, IndexType::NoIndex, 0x02, Code::CONST, 0x0000001),
        0x15 => new_entry("const/high16", Format::k21h, IndexType::NoIndex, 0x02, Code::CONST_HIGH16, 0x0000001),
        0x16 => new_entry("const-wide/16", Format::k21s, IndexType::NoIndex, 0x02, Code::CONST_WIDE_16, 0x0000002),
        0x17 => new_entry("const-wide/32", Format::k31i, IndexType::NoIndex, 0x02, Code::CONST_WIDE_32, 0x0000002),
        0x18 => new_entry("const-wide", Format::k51l, IndexType::NoIndex, 0x02, Code::CONST_WIDE, 0x0000002),
        0x19 => new_entry("const-wide/high16", Format::k21h, IndexType::NoIndex, 0x02, Code::CONST_WIDE_HIGH16, 0x0000002),
        0x1a => new_entry("const-string", Format::k21c, IndexType::StringRef, 0x0a, Code::CONST_STRING, 0x0000041),
        0x1b => new_entry("const-string/jumbo", Format::k31c, IndexType::StringRef, 0x0a, Code::CONST_STRING_JUMBO, 0x0000041),
        0x1c => new_entry("const-class", Format::k21c, IndexType::TypeRef, 0x0a, Code::CONST_CLASS, 0x0000081),
        0x1d => new_entry("monitor-enter", Format::k11x, IndexType::NoIndex, 0x0a, Code::MONITOR_ENTER, 0x0000001),
        0x1e => new_entry("monitor-exit", Format::k11x, IndexType::NoIndex, 0x0a, Code::MONITOR_EXIT, 0x0000001),
        _ => new_entry("check-cast", Format::k21c, IndexType::TypeRef, 0x0a, Code::CHECK_CAST, 0x0000081),
    }
}

/// Rows `0x20` to `0x2f` of the opcode table.
pub open spec fn rows_2(byte: u8) -> InstructionDescriptor {
    match byte {
        0x20 => entry("instance-of", Format::k22c, IndexType::TypeRef, 0x0a, Code::INSTANCE_OF, 0x0001005),
        0x21 => entry("array-length", Format::k12x, IndexType::NoIndex, 0x0a, Code::ARRAY_LENGTH, 0x0000005),
        0x22 => entry("new-instance", Format::k21c, IndexType::TypeRef, 0x0a, Code::NEW_INSTANCE, 0x0000021),
        0x23 => entry("new-array", Format::k22c, IndexType::TypeRef, 0x0a, Code::NEW_ARRAY, 0x0000805),
        0x24 => entry("filled-new-array", Format::k35c, IndexType::TypeRef, 0x0a, Code::FILLED_NEW_ARRAY, 0x0020080),
        0x25 => entry("filled-new-array/range", Format::k3rc, IndexType::TypeRef, 0x0a, Code::FILLED_NEW_ARRAY_RANGE, 0x0080080),
        0x26 => entry("fill-array-data", Format::k31t, IndexType::NoIndex, 0x0a, Code::FILL_ARRAY_DATA, 0x0004001),
        0x27 => entry("throw", Format::k11x, IndexType::NoIndex, 0x08, Code::THROW, 0x0000001),
        0x28 => entry("goto", Format::k10t, IndexType::NoIndex, 0x41, Code::GOTO, 0x0008000),
        0x29 => entry("goto/16", Format::k20t, IndexType::NoIndex, 0x41, Code::GOTO_16, 0x0008000),
        0x2a => entry("goto/32", Format::k30t, IndexType::NoIndex, 0x41, Code::GOTO_32, 0x0008000),
        0x2b => entry("packed-switch", Format::k31t, IndexType::NoIndex, 0x06, Code::PACKED_SWITCH, 0x0010001),
        0x2c => entry("sparse-switch", Format::k31t, IndexType::NoIndex, 0x06, Code::SPARSE_SWITCH, 0x0010001),
        0x2d => entry("cmpl-float", Format::k23x, IndexType::NoIndex, 0x02, Code::CMPL_FLOAT, 0x0000205),
        0x2e => entry("cmpg-float", Format::k23x, IndexType::NoIndex, 0x02, Code::CMPG_FLOAT, 0x0000205),
        _ => entry("cmpl-double", Format::k23x, IndexType::NoIndex, 0x02, Code::CMPL_DOUBLE, 0x0002101),
    }
}

fn rows_2_of(byte: u8) -> (r: InstructionDescriptor)
    ensures
        r == rows_2(byte),
{
    match byte {
        0x20 => new_entry("instance-of", Format::k22c, IndexType::TypeRef, 0x0a, Code::INSTANCE_OF, 0x0001005),
        0x21 => new_entry("array-length", Format::k12x, IndexType::NoIndex, 0x0a, Code::ARRAY_LENGTH, 0x0000005),
        0x22 => new_entry("new-instance", Format::k21c, IndexType::TypeRef, 0x0a, Code::NEW_INSTANCE, 0x0000021),
        0x23 => new_entry("new-array", Format::k22c, IndexType::TypeRef, 0x0a, Code::NEW_ARRAY, 0x0000805),
        0x24 => new_entry("filled-new-array", Format::k35c, IndexType::TypeRef, 0x0a, Code::FILLED_NEW_ARRAY, 0x0020080),
        0x25 => new_entry("filled-new-array/range", Format::k3rc, IndexType::TypeRef, 0x0a, Code::FILLED_NEW_ARRAY_RANGE, 0x0080080),
        0x26 => new_entry("fill-array-data", Format::k31t, IndexType::NoIndex, 0x0a, Code::FILL_ARRAY_DATA, 0x0004001),
        0x27 => new_entry("throw", Format::k11x, IndexType::NoIndex, 0x08, Code::THROW, 0x0000001),
        0x28 => new_entry("goto", Format::k10t, IndexType::NoIndex, 0x41, Code::GOTO, 0x0008000),
        0x29 => new_entry("goto/16", Format::k20t, IndexType::NoIndex, 0x41, Code::GOTO_16, 0x0008000),
        0x2a => new_entry("goto/32", Format::k30t, IndexType::NoIndex, 0x41, Code::GOTO_32, 0x0008000),
        0x2b => new_entry("packed-switch", Format::k31t, IndexType::NoIndex, 0x06, Code::PACKED_SWITCH, 0x0010001),
        0x2c => new_entry("sparse-switch", Format::k31t, IndexType::NoIndex, 0x06, Code::SPARSE_SWITCH, 0x0010001),
        0x2d => new_entry("cmpl-float", Format::k23x, IndexType::NoIndex, 0x02, Code::CMPL_FLOAT, 0x0000205),
        0x2e => new_entry("cmpg-float", Format::k23x, IndexType::NoIndex, 0x02, Code::CMPG_FLOAT, 0x0000205),
        _ => new_entry("cmpl-double", Format::k23x, IndexType::NoIndex, 0x02, Code::CMPL_DOUBLE, 0x0002101),
    }
}

/// Rows `0x30` to `0x3f` of the opcode table.
pub open spec fn rows_3(byte: u8) -> InstructionDescriptor {
    match byte {
        0x30 => entry("cmpg-double", Format::k23x, IndexType::NoIndex, 0x02, Code::CMPG_DOUBLE, 0x0002101),
        0x31 => entry("cmp-long", Format::k23x, IndexType::NoIndex, 0x02, Code::CMP_LONG, 0x0002101),
        0x32 => entry("if-eq", Format::k22t, IndexType::NoIndex, 0x03, Code::IF_EQ, 0x0008005),
        0x33 => entry("if-ne", Format::k22t, IndexType::NoIndex, 0x03, Code::IF_NE, 0x0008005),
        0x34 => entry("if-lt", Format::k22t, IndexType::NoIndex, 0x03, Code::IF_LT, 0x0008005),
        0x35 => entry("if-ge", Format::k22t, IndexType::NoIndex, 0x03, Code::IF_GE, 0x0008005),
        0x36 => entry("if-gt", Format::k22t, IndexType::NoIndex, 0x03, Code::IF_GT, 0x0008005),
        0x37 => entry("if-le", Format::k22t, IndexType::NoIndex, 0x03, Code::IF_LE, 0x0008005),
        0x38 => entry("if-eqz", Format::k21t, IndexType::NoIndex, 0x03, Code::IF_EQZ, 0x0008001),
        0x39 => entry("if-nez", Format::k21t, IndexType::NoIndex, 0x03, Code::IF_NEZ, 0x0008001),
        0x3a => entry("if-ltz", Format::k21t, IndexType::NoIndex, 0x03, Code::IF_LTZ, 0x0008001),
        0x3b => entry("if-gez", Format::k21t, IndexType::NoIndex, 0x03, Code::IF_GEZ, 0x0008001),
        0x3c => entry("if-gtz", Format::k21t, IndexType::NoIndex, 0x03, Code::IF_GTZ, 0x0008001),
        0x3d => entry("if-lez", Format::k21t, IndexType::NoIndex, 0x03, Code::IF_LEZ, 0x0008001),
        0x3e => entry("unused-3e", Format::k10x, IndexType::Unknown, 0x00, Code::UNUSED_3E, 0x0200000),
        _ => entry("unused-3f", Format::k10x, IndexType::Unknown, 0x00, Code::UNUSED_3F, 0x0200000),
    }
}

fn rows_3_of(byte: u8) -> (r: InstructionDescriptor)
    ensures
        r == rows_3(byte),
{
    match byte {
        0x30 => new_entry("cmpg-double", Format::k23x, IndexType::NoIndex, 0x02, Code::CMPG_DOUBLE, 0x0002101),
        0x31 => new_entry("cmp-long", Format::k23x, IndexType::NoIndex, 0x02, Code::CMP_LONG, 0x0002101),
        0x32 => new_entry("if-eq", Format::k22t, IndexType::NoIndex, 0x03, Code::IF_EQ, 0x0008005),
        0x33 => new_entry("if-ne", Format::k22t, IndexType::NoIndex, 0x03, Code::IF_NE, 0x0008005),
        0x34 => new_entry("if-lt", Format::k22t, IndexType::NoIndex, 0x03, Code::IF_LT, 0x0008005),
        0x35 => new_entry("if-ge", Format::k22t, IndexType::NoIndex, 0x03, Code::IF_GE, 0x0008005),
        0x36 => new_entry("if-gt", Format::k22t, IndexType::NoIndex, 0x03, Code::IF_GT, 0x0008005),
        0x37 => new_entry("if-le", Format::k22t, IndexType::NoIndex, 0x03, Code::IF_LE, 0x0008005),
        0x38 => new_entry("if-eqz", Format::k21t, IndexType::NoIndex, 0x03, Code::IF_EQZ, 0x0008001),
        0x39 => new_entry("if-nez", Format::k21t, IndexType::NoIndex, 0x03, Code::IF_NEZ, 0x0008001),
        0x3a => new_entry("if-ltz", Format::k21t, IndexType::NoIndex, 0x03, Code::IF_LTZ, 0x0008001),
        0x3b => new_entry("if-gez", Format::k21t, IndexType::NoIndex, 0x03, Code::IF_GEZ, 0x0008001),
        0x3c => new_entry("if-gtz", Format::k21t, IndexType::NoIndex, 0x03, Code::IF_GTZ, 0x0008001),
        0x3d => new_entry("if-lez", Format::k21t, IndexType::NoIndex, 0x03, Code::IF_LEZ, 0x0008001),
        0x3e => new_entry("unused-3e", Format::k10x, IndexType::Unknown, 0x00, Code::UNUSED_3E, 0x0200000),
        _ => new_entry("unused-3f", Format::k10x, IndexType::Unknown, 0x00, Code::UNUSED_3F, 0x0200000),
    }
}

/// Rows `0x40` to `0x4f` of the opcode table.
pub open spec fn rows_4(byte: u8) -> InstructionDescriptor {
    match byte {
        0x40 => entry("unused-40", Format::k10x, IndexType::Unknown, 0x00, Code::UNUSED_40, 0x0200000),
        0x41 => entry("unused-41", Format::k10x, IndexType::Unknown, 0x00, Code::UNUSED_41, 0x0200000),
        0x42 => entry("unused-42", Format::k10x, IndexType::Unknown, 0x00, Code::UNUSED_42, 0x0200000),
        0x43 => entry("unused-43", Format::k10x, IndexType::Unknown, 0x00, Code::UNUSED_43, 0x0200000),
        0x44 => entry("aget", Format::k23x, IndexType::NoIndex, 0x0a, Code::AGET, 0x0000205),
        0x45 => entry("aget-wide", Format::k23x, IndexType::NoIndex, 0x0a, Code::AGET_WIDE, 0x0000206),
        0x46 => entry("aget-object", Format::k23x, IndexType::NoIndex, 0x0a, Code::AGET_OBJECT, 0x0000205),
        0x47 => entry("aget-boolean", Format::k23x, IndexType::NoIndex, 0x0a, Code::AGET_BOOLEAN, 0x0000205),
        0x48 => entry("aget-byte", Format::k23x, IndexType::NoIndex, 0x0a, Code::AGET_BYTE, 0x0000205),
        0x49 => entry("aget-char", Format::k23x, IndexType::NoIndex, 0x0a, Code::AGET_CHAR, 0x0000205),
        0x4a => entry("aget-short", Format::k23x, IndexType::NoIndex, 0x0a, Code::AGET_SHORT, 0x0000205),
        0x4b => entry("aput", Format::k23x, IndexType::NoIndex, 0x0a, Code::APUT, 0x0000205),
        0x4c => entry("aput-wide", Format::k23x, IndexType::NoIndex, 0x0a, Code::APUT_WIDE, 0x0000206),
        0x4d => entry("aput-object", Format::k23x, IndexType::NoIndex, 0x0a, Code::APUT_OBJECT, 0x0000205),
        0x4e => entry("aput-boolean", Format::k23x, IndexType::NoIndex, 0x0a, Code::APUT_BOOLEAN, 0x0000205),
        _ => entry("aput-byte", Format::k23x, IndexType::NoIndex, 0x0a, Code::APUT_BYTE, 0x0000205),
    }
}

fn rows_4_of(byte: u8) -> (r: InstructionDescriptor)
    ensures
        r == rows_4(byte),
{
    match byte {
        0x40 => new_entry("unused-40", Format::k10x, IndexType::Unknown, 0x00, Code::UNUSED_40, 0x0200000),
        0x41 => new_entry("unused-41", Format::k10x, IndexType::Unknown, 0x00, Code::UNUSED_41, 0x0200000),
        0x42 => new_entry("unused-42", Format::k10x, IndexType::Unknown, 0x00, Code::UNUSED_42, 0x0200000),
        0x43 => new_entry("unused-43", Format::k10x, IndexType::Unknown, 0x00, Code::UNUSED_43, 0x0200000),
        0x44 => new_entry("aget", Format::k23x, IndexType::NoIndex, 0x0a, Code::AGET, 0x0000205),
        0x45 => new_entry("aget-wide", Format::k23x, IndexType::NoIndex, 0x0a, Code::AGET_WIDE, 0x0000206),
        0x46 => new_entry("aget-object", Format::k23x, IndexType::NoIndex, 0x0a, Code::AGET_OBJECT, 0x0000205),
        0x47 => new_entry("aget-boolean", Format::k23x, IndexType::NoIndex, 0x0a, Code::AGET_BOOLEAN, 0x0000205),
        0x48 => new_entry("aget-byte", Format::k23x, IndexType::NoIndex, 0x0a, Code::AGET_BYTE, 0x0000205),
        0x49 => new_entry("aget-char", Format::k23x, IndexType::NoIndex, 0x0a, Code::AGET_CHAR, 0x0000205),
        0x4a => new_entry("aget-short", Format::k23x, IndexType::NoIndex, 0x0a, Code::AGET_SHORT, 0x0000205),
        0x4b => new_entry("aput", Format::k23x, IndexType::NoIndex, 0x0a, Code::APUT, 0x0000205),
        0x4c => new_entry("aput-wide", Format::k23x, IndexType::NoIndex, 0x0a, Code::APUT_WIDE, 0x0000206),
        0x4d => new_entry("aput-object", Format::k23x, IndexType::NoIndex, 0x0a, Code::APUT_OBJECT, 0x0000205),
        0x4e => new_entry("aput-boolean", Format::k23x, IndexType::NoIndex, 0x0a, Code::APUT_BOOLEAN, 0x0000205),
        _ => new_entry("aput-byte", Format::k23x, IndexType::NoIndex, 0x0a, Code::APUT_BYTE, 0x0000205),
    }
}

/// Rows `0x50` to `0x5f` of the opcode table.
pub open spec fn rows_5(byte: u8) -> InstructionDescriptor {
    match byte {
        0x50 => entry("aput-char", Format::k23x, IndexType::NoIndex, 0x0a, Code::APUT_CHAR, 0x0000205),
        0x51 => entry("aput-short", Format::k23x, IndexType::NoIndex, 0x0a, Code::APUT_SHORT, 0x0000205),
        0x52 => entry("iget", Format::k22c, IndexType::FieldRef, 0x0a, Code::IGET, 0x0000405),
        0x53 => entry("iget-wide", Format::k22c, IndexType::FieldRef, 0x0a, Code::IGET_WIDE, 0x0000406),
        0x54 => entry("iget-object", Format::k22c, IndexType::FieldRef, 0x0a, Code::IGET_OBJECT, 0x0000405),
        0x55 => entry("iget-boolean", Format::k22c, IndexType::FieldRef, 0x0a, Code::IGET_BOOLEAN, 0x0000405),
        0x56 => entry("iget-byte", Format::k22c, IndexType::FieldRef, 0x0a, Code::IGET_BYTE, 0x0000405),
        0x57 => entry("iget-char", Format::k22c, IndexType::FieldRef, 0x0a, Code::IGET_CHAR, 0x0000405),
        0x58 => entry("iget-short", Format::k22c, IndexType::FieldRef, 0x0a, Code::IGET_SHORT, 0x0000405),
        0x59 => entry("iput", Format::k22c, IndexType::FieldRef, 0x0a, Code::IPUT, 0x0000405),
        0x5a => entry("iput-wide", Format::k22c, IndexType::FieldRef, 0x0a, Code::IPUT_WIDE, 0x0000406),
        0x5b => entry("iput-object", Format::k22c, IndexType::FieldRef, 0x0a, Code::IPUT_OBJECT, 0x0000405),
        0x5c => entry("iput-boolean", Format::k22c, IndexType::FieldRef, 0x0a, Code::IPUT_BOOLEAN, 0x0000405),
        0x5d => entry("iput-byte", Format::k22c, IndexType::FieldRef, 0x0a, Code::IPUT_BYTE, 0x0000405),
        0x5e => entry("iput-char", Format::k22c, IndexType::FieldRef, 0x0a, Code::IPUT_CHAR, 0x0000405),
        _ => entry("iput-short", Format::k22c, IndexType::FieldRef, 0x0a, Code::IPUT_SHORT, 0x0000405),
    }
}

fn rows_5_of(byte: u8) -> (r: InstructionDescriptor)
    ensures
        r == rows_5(byte),
{
    match byte {
        0x50 => new_entry("aput-char", Format::k23x, IndexType::NoIndex, 0x0a, Code::APUT_CHAR, 0x0000205),
        0x51 => new_entry("aput-short", Format::k23x, IndexType::NoIndex, 0x0a, Code::APUT_SHORT, 0x0000205),
        0x52 => new_entry("iget", Format::k22c, IndexType::FieldRef, 0x0a, Code::IGET, 0x0000405),
        0x53 => new_entry("iget-wide", Format::k22c, IndexType::FieldRef, 0x0a, Code::IGET_WIDE, 0x0000406),
        0x54 => new_entry("iget-object", Format::k22c, IndexType::FieldRef, 0x0a, Code::IGET_OBJECT, 0x0000405),
        0x55 => new_entry("iget-boolean", Format::k22c, IndexType::FieldRef, 0x0a, Code::IGET_BOOLEAN, 0x0000405),
        0x56 => new_entry("iget-byte", Format::k22c, IndexType::FieldRef, 0x0a, Code::IGET_BYTE, 0x0000405),
        0x57 => new_entry("iget-char", Format::k22c, IndexType::FieldRef, 0x0a, Code::IGET_CHAR, 0x0000405),
        0x58 => new_entry("iget-short", Format::k22c, IndexType::FieldRef, 0x0a, Code::IGET_SHORT, 0x0000405),
        0x59 => new_entry("iput", Format::k22c, IndexType::FieldRef, 0x0a, Code::IPUT, 0x0000405),
        0x5a => new_entry("iput-wide", Format::k22c, IndexType::FieldRef, 0x0a, Code::IPUT_WIDE, 0x0000406),
        0x5b => new_entry("iput-object", Format::k22c, IndexType::FieldRef, 0x0a, Code::IPUT_OBJECT, 0x0000405),
        0x5c => new_entry("iput-boolean", Format::k22c, IndexType::FieldRef, 0x0a, Code::IPUT_BOOLEAN, 0x0000405),
        0x5d => new_entry("iput-byte", Format::k22c, IndexType::FieldRef, 0x0a, Code::IPUT_BYTE, 0x0000405),
        0x5e => new_entry("iput-char", Format::k22c, IndexType::FieldRef, 0x0a, Code::IPUT_CHAR, 0x0000405),
        _ => new_entry("iput-short", Format::k22c, IndexType::FieldRef, 0x0a, Code::IPUT_SHORT, 0x0000405),
    }
}

/// Rows `0x60` to `0x6f` of the opcode table.
pub open spec fn rows_6(byte: u8) -> InstructionDescriptor {
    match byte {
        0x60 => entry("sget", Format::k21c, IndexType::FieldRef, 0x0a, Code::SGET, 0x0000009),
        0x61 => entry("sget-wide", Format::k21c, IndexType::FieldRef, 0x0a, Code::SGET_WIDE, 0x000000a),
        0x62 => entry("sget-object", Format::k21c, IndexType::FieldRef, 0x0a, Code::SGET_OBJECT, 0x0000009),
        0x63 => entry("sget-boolean", Format::k21c, IndexType::FieldRef, 0x0a, Code::SGET_BOOLEAN, 0x0000009),
        0x64 => entry("sget-byte", Format::k21c, IndexType::FieldRef, 0x0a, Code::SGET_BYTE, 0x0000009),
        0x65 => entry("sget-char", Format::k21c, IndexType::FieldRef, 0x0a, Code::SGET_CHAR, 0x0000009),
        0x66 => entry("sget-short", Format::k21c, IndexType::FieldRef, 0x0a, Code::SGET_SHORT, 0x0000009),
        0x67 => entry("sput", Format::k21c, IndexType::FieldRef, 0x0a, Code::SPUT, 0x0000009),
        0x68 => entry("sput-wide", Format::k21c, IndexType::FieldRef, 0x0a, Code::SPUT_WIDE, 0x000000a),
        0x69 => entry("sput-object", Format::k21c, IndexType::FieldRef, 0x0a, Code::SPUT_OBJECT, 0x0000009),
        0x6a => entry("sput-boolean", Format::k21c, IndexType::FieldRef, 0x0a, Code::SPUT_BOOLEAN, 0x0000009),
        0x6b => entry("sput-byte", Format::k21c, IndexType::FieldRef, 0x0a, Code::SPUT_BYTE, 0x0000009),
        0x6c => entry("sput-char", Format::k21c, IndexType::FieldRef, 0x0a, Code::SPUT_CHAR, 0x0000009),
        0x6d => entry("sput-short", Format::k21c, IndexType::FieldRef, 0x0a, Code::SPUT_SHORT, 0x0000009),
        0x6e => entry("invoke-virtual", Format::k35c, IndexType::MethodRef, 0x2a, Code::INVOKE_VIRTUAL, 0x0040010),
        _ => entry("invoke-super", Format::k35c, IndexType::MethodRef, 0x2a, Code::INVOKE_SUPER, 0x0040010),
    }
}

fn rows_6_of(byte: u8) -> (r: InstructionDescriptor)
    ensures
        r == rows_6(byte),
{
    match byte {
        0x60 => new_entry("sget", Format::k21c, IndexType::FieldRef, 0x0a, Code::SGET, 0x0000009),
        0x61 => new_entry("sget-wide", Format::k21c, IndexType::FieldRef, 0x0a, Code::SGET_WIDE, 0x000000a),
        0x62 => new_entry("sget-object", Format::k21c, IndexType::FieldRef, 0x0a, Code::SGET_OBJECT, 0x0000009),
        0x63 => new_entry("sget-boolean", Format::k21c, IndexType::FieldRef, 0x0a, Code::SGET_BOOLEAN, 0x0000009),
        0x64 => new_entry("sget-byte", Format::k21c, IndexType::FieldRef, 0x0a, Code::SGET_BYTE, 0x0000009),
        0x65 => new_entry("sget-char", Format::k21c, IndexType::FieldRef, 0x0a, Code::SGET_CHAR, 0x0000009),
        0x66 => new_entry("sget-short", Format::k21c, IndexType::FieldRef, 0x0a, Code::SGET_SHORT, 0x0000009),
        0x67 => new_entry("sput", Format::k21c, IndexType::FieldRef, 0x0a, Code::SPUT, 0x0000009),
        0x68 => new_entry("sput-wide", Format::k21c, IndexType::FieldRef, 0x0a, Code::SPUT_WIDE, 0x000000a),
        0x69 => new_entry("sput-object", Format::k21c, IndexType::FieldRef, 0x0a, Code::SPUT_OBJECT, 0x0000009),
        0x6a => new_entry("sput-boolean", Format::k21c, IndexType::FieldRef, 0x0a, Code::SPUT_BOOLEAN, 0x0000009),
        0x6b => new_entry("sput-byte", Format::k21c, IndexType::FieldRef, 0x0a, Code::SPUT_BYTE, 0x0000009),
        0x6c => new_entry("sput-char", Format::k21c, IndexType::FieldRef, 0x0a, Code::SPUT_CHAR, 0x0000009),
        0x6d => new_entry("sput-short", Format::k21c, IndexType::FieldRef, 0x0a, Code::SPUT_SHORT, 0x0000009),
        0x6e => new_entry("invoke-virtual", Format::k35c, IndexType::MethodRef, 0x2a, Code::INVOKE_VIRTUAL, 0x0040010),
        _ => new_entry("invoke-super", Format::k35c, IndexType::MethodRef, 0x2a, Code::INVOKE_SUPER, 0x0040010),
    }
}

/// Rows `0x70` to `0x7f` of the opcode table.
pub open spec fn rows_7(byte: u8) -> InstructionDescriptor {
    match byte {
        0x70 => entry("invoke-direct", Format::k35c, IndexType::MethodRef, 0x2a, Code::INVOKE_DIRECT, 0x0040010),
        0x71 => entry("invoke-static", Format::k35c, IndexType::MethodRef, 0x2a, Code::INVOKE_STATIC, 0x0020010),
        0x72 => entry("invoke-interface", Format::k35c, IndexType::MethodRef, 0x2a, Code::INVOKE_INTERFACE, 0x0040010),
        0x73 => entry("unused-73", Format::k10x, IndexType::Unknown, 0x00, Code::UNUSED_73, 0x0200000),
        0x74 => entry("invoke-virtual/range", Format::k3rc, IndexType::MethodRef, 0x2a, Code::INVOKE_VIRTUAL_RANGE, 0x0100010),
        0x75 => entry("invoke-super/range", Format::k3rc, IndexType::MethodRef, 0x2a, Code::INVOKE_SUPER_RANGE, 0x0100010),
        0x76 => entry("invoke-direct/range", Format::k3rc, IndexType::MethodRef, 0x2a, Code::INVOKE_DIRECT_RANGE, 0x0100010),
        0x77 => entry("invoke-static/range", Format::k3rc, IndexType::MethodRef, 0x2a, Code::INVOKE_STATIC_RANGE, 0x0080010),
        0x78 => entry("invoke-interface/range", Format::k3rc, IndexType::MethodRef, 0x2a, Code::INVOKE_INTERFACE_RANGE, 0x0100010),
        0x79 => entry("unused-79", Format::k10x, IndexType::Unknown, 0x00, Code::UNUSED_79, 0x0200000),
        0x7a => entry("unused-7a", Format::k10x, IndexType::Unknown, 0x00, Code::UNUSED_7A, 0x0200000),
        0x7b => entry("neg-int", Format::k12x, IndexType::NoIndex, 0x02, Code::NEG_INT, 0x0000005),
        0x7c => entry("not-int", Format::k12x, IndexType::NoIndex, 0x02, Code::NOT_INT, 0x0000005),
        0x7d => entry("neg-long", Format::k12x, IndexType::NoIndex, 0x02, Code::NEG_LONG, 0x0000102),
        0x7e => entry("not-long", Format::k12x, IndexType::NoIndex, 0x02, Code::NOT_LONG, 0x0000102),
        _ => entry("neg-float", Format::k12x, IndexType::NoIndex, 0x02, Code::NEG_FLOAT, 0x0000005),
    }
}

fn rows_7_of(byte: u8) -> (r: InstructionDescriptor)
    ensures
        r == rows_7(byte),
{
    match byte {
        0x70 => new_entry("invoke-direct", Format::k35c, IndexType::MethodRef, 0x2a, Code::INVOKE_DIRECT, 0x0040010),
        0x71 => new_entry("invoke-static", Format::k35c, IndexType::MethodRef, 0x2a, Code::INVOKE_STATIC, 0x0020010),
        0x72 => new_entry("invoke-interface", Format::k35c, IndexType::MethodRef, 0x2a, Code::INVOKE_INTERFACE, 0x0040010),
        0x73 => new_entry("unused-73", Format::k10x, IndexType::Unknown, 0x00, Code::UNUSED_73, 0x0200000),
        0x74 => new_entry("invoke-virtual/range", Format::k3rc, IndexType::MethodRef, 0x2a, Code::INVOKE_VIRTUAL_RANGE, 0x0100010),
        0x75 => new_entry("invoke-super/range", Format::k3rc, IndexType::MethodRef, 0x2a, Code::INVOKE_SUPER_RANGE, 0x0100010),
        0x76 => new_entry("invoke-direct/range", Format::k3rc, IndexType::MethodRef, 0x2a, Code::INVOKE_DIRECT_RANGE, 0x0100010),
        0x77 => new_entry("invoke-static/range", Format::k3rc, IndexType::MethodRef, 0x2a, Code::INVOKE_STATIC_RANGE, 0x0080010),
        0x78 => new_entry("invoke-interface/range", Format::k3rc, IndexType::MethodRef, 0x2a, Code::INVOKE_INTERFACE_RANGE, 0x0100010),
        0x79 => new_entry("unused-79", Format::k10x, IndexType::Unknown, 0x00, Code::UNUSED_79, 0x0200000),
        0x7a => new_entry("unused-7a", Format::k10x, IndexType::Unknown, 0x00, Code::UNUSED_7A, 0x0200000),
        0x7b => new_entry("neg-int", Format::k12x, IndexType::NoIndex, 0x02, Code::NEG_INT, 0x0000005),
        0x7c => new_entry("not-int", Format::k12x, IndexType::NoIndex, 0x02, Code::NOT_INT, 0x0000005),
        0x7d => new_entry("neg-long", Format::k12x, IndexType::NoIndex, 0x02, Code::NEG_LONG, 0x0000102),
        0x7e => new_entry("not-long", Format::k12x, IndexType::NoIndex, 0x02, Code::NOT_LONG, 0x0000102),
        _ => new_entry("neg-float", Format::k12x, IndexType::NoIndex, 0x02, Code::NEG_FLOAT, 0x0000005),
    }
}

/// Rows `0x80` to `0x8f` of the opcode table.
pub open spec fn rows_8(byte: u8) -> InstructionDescriptor {
    match byte {
        0x80 => entry("neg-double", Format::k12x, IndexType::NoIndex, 0x02, Code::NEG_DOUBLE, 0x0000102),
        0x81 => entry("int-to-long", Format::k12x, IndexType::NoIndex, 0x02, Code::INT_TO_LONG, 0x0000006),
        0x82 => entry("int-to-float", Format::k12x, IndexType::NoIndex, 0x02, Code::INT_TO_FLOAT, 0x0000005),
        0x83 => entry("int-to-double", Format::k12x, IndexType::NoIndex, 0x02, Code::INT_TO_DOUBLE, 0x0000006),
        0x84 => entry("long-to-int", Format::k12x, IndexType::NoIndex, 0x02, Code::LONG_TO_INT, 0x0000101),
        0x85 => entry("long-to-float", Format::k12x, IndexType::NoIndex, 0x02, Code::LONG_TO_FLOAT, 0x0000101),
        0x86 => entry("long-to-double", Format::k12x, IndexType::NoIndex, 0x02, Code::LONG_TO_DOUBLE, 0x0000102),
        0x87 => entry("float-to-int", Format::k12x, IndexType::NoIndex, 0x02, Code::FLOAT_TO_INT, 0x0000005),
        0x88 => entry("float-to-long", Format::k12x, IndexType::NoIndex, 0x02, Code::FLOAT_TO_LONG, 0x0000006),
        0x89 => entry("float-to-double", Format::k12x, IndexType::NoIndex, 0x02, Code::FLOAT_TO_DOUBLE, 0x0000006),
        0x8a => entry("double-to-int", Format::k12x, IndexType::NoIndex, 0x02, Code::DOUBLE_TO_INT, 0x0000101),
        0x8b => entry("double-to-long", Format::k12x, IndexType::NoIndex, 0x02, Code::DOUBLE_TO_LONG, 0x0000102),
        0x8c => entry("double-to-float", Format::k12x, IndexType::NoIndex, 0x02, Code::DOUBLE_TO_FLOAT, 0x0000101),
        0x8d => entry("int-to-byte", Format::k12x, IndexType::NoIndex, 0x02, Code::INT_TO_BYTE, 0x0000005),
        0x8e => entry("int-to-char", Format::k12x, IndexType::NoIndex, 0x02, Code::INT_TO_CHAR, 0x0000005),
        _ => entry("int-to-short", Format::k12x, IndexType::NoIndex, 0x02, Code::INT_TO_SHORT, 0x0000005),
    }
}

fn rows_8_of(byte: u8) -> (r: InstructionDescriptor)
    ensures
        r == rows_8(byte),
{
    match byte {
        0x80 => new_entry("neg-double", Format::k12x, IndexType::NoIndex, 0x02, Code::NEG_DOUBLE, 0x0000102),
        0x81 => new_entry("int-to-long", Format::k12x, IndexType::NoIndex, 0x02, Code::INT_TO_LONG, 0x0000006),
        0x82 => new_entry("int-to-float", Format::k12x, IndexType::NoIndex, 0x02, Code::INT_TO_FLOAT, 0x0000005),
        0x83 => new_entry("int-to-double", Format::k12x, IndexType::NoIndex, 0x02, Code::INT_TO_DOUBLE, 0x0000006),
        0x84 => new_entry("long-to-int", Format::k12x, IndexType::NoIndex, 0x02, Code::LONG_TO_INT, 0x0000101),
        0x85 => new_entry("long-to-float", Format::k12x, IndexType::NoIndex, 0x02, Code::LONG_TO_FLOAT, 0x0000101),
        0x86 => new_entry("long-to-double", Format::k12x, IndexType::NoIndex, 0x02, Code::LONG_TO_DOUBLE, 0x0000102),
        0x87 => new_entry("float-to-int", Format::k12x, IndexType::NoIndex, 0x02, Code::FLOAT_TO_INT, 0x0000005),
        0x88 => new_entry("float-to-long", Format::k12x, IndexType::NoIndex, 0x02, Code::FLOAT_TO_LONG, 0x0000006),
        0x89 => new_entry("float-to-double", Format::k12x, IndexType::NoIndex, 0x02, Code::FLOAT_TO_DOUBLE, 0x0000006),
        0x8a => new_entry("double-to-int", Format::k12x, IndexType::NoIndex, 0x02, Code::DOUBLE_TO_INT, 0x0000101),
        0x8b => new_entry("double-to-long", Format::k12x, IndexType::NoIndex, 0x02, Code::DOUBLE_TO_LONG, 0x0000102),
        0x8c => new_entry("double-to-float", Format::k12x, IndexType::NoIndex, 0x02, Code::DOUBLE_TO_FLOAT, 0x0000101),
        0x8d => new_entry("int-to-byte", Format::k12x, IndexType::NoIndex, 0x02, Code::INT_TO_BYTE, 0x0000005),
        0x8e => new_entry("int-to-char", Format::k12x, IndexType::NoIndex, 0x02, Code::INT_TO_CHAR, 0x0000005),
        _ => new_entry("int-to-short", Format::k12x, IndexType::NoIndex, 0x02, Code::INT_TO_SHORT, 0x0000005),
    }
}

/// Rows `0x90` to `0x9f` of the opcode table.
pub open spec fn rows_9(byte: u8) -> InstructionDescriptor {
    match byte {
        0x90 => entry("add-int", Format::k23x, IndexType::NoIndex, 0x02, Code::ADD_INT, 0x0000205),
        0x91 => entry("sub-int", Format::k23x, IndexType::NoIndex, 0x02, Code::SUB_INT, 0x0000205),
        0x92 => entry("mul-int", Format::k23x, IndexType::NoIndex, 0x02, Code::MUL_INT, 0x0000205),
        0x93 => entry("div-int", Format::k23x, IndexType::NoIndex, 0x0a, Code::DIV_INT, 0x0000205),
        0x94 => entry("rem-int", Format::k23x, IndexType::NoIndex, 0x0a, Code::REM_INT, 0x0000205),
        0x95 => entry("and-int", Format::k23x, IndexType::NoIndex, 0x02, Code::AND_INT, 0x0000205),
        0x96 => entry("or-int", Format::k23x, IndexType::NoIndex, 0x02, Code::OR_INT, 0x0000205),
        0x97 => entry("xor-int", Format::k23x, IndexType::NoIndex, 0x02, Code::XOR_INT, 0x0000205),
        0x98 => entry("shl-int", Format::k23x, IndexType::NoIndex, 0x02, Code::SHL_INT, 0x0000205),
        0x99 => entry("shr-int", Format::k23x, IndexType::NoIndex, 0x02, Code::SHR_INT, 0x0000205),
        0x9a => entry("ushr-int", Format::k23x, IndexType::NoIndex, 0x02, Code::USHR_INT, 0x0000205),
        0x9b => entry("add-long", Format::k23x, IndexType::NoIndex, 0x02, Code::ADD_LONG, 0x0002102),
        0x9c => entry("sub-long", Format::k23x, IndexType::NoIndex, 0x02, Code::SUB_LONG, 0x0002102),
        0x9d => entry("mul-long", Format::k23x, IndexType::NoIndex, 0x02, Code::MUL_LONG, 0x0002102),
        0x9e => entry("div-long", Format::k23x, IndexType::NoIndex, 0x0a, Code::DIV_LONG, 0x0002102),
        _ => entry("rem-long", Format::k23x, IndexType::NoIndex, 0x0a, Code::REM_LONG, 0x0002102),
    }
}

fn rows_9_of(byte: u8) -> (r: InstructionDescriptor)
    ensures
        r == rows_9(byte),
{
    match byte {
        0x90 => new_entry("add-int", Format::k23x, IndexType::NoIndex, 0x02, Code::ADD_INT, 0x0000205),
        0x91 => new_entry("sub-int", Format::k23x, IndexType::NoIndex, 0x02, Code::SUB_INT, 0x0000205),
        0x92 => new_entry("mul-int", Format::k23x, IndexType::NoIndex, 0x02, Code::MUL_INT, 0x0000205),
        0x93 => new_entry("div-int", Format::k23x, IndexType::NoIndex, 0x0a, Code::DIV_INT, 0x0000205),
        0x94 => new_entry("rem-int", Format::k23x, IndexType::NoIndex, 0x0a, Code::REM_INT, 0x0000205),
        0x95 => new_entry("and-int", Format::k23x, IndexType::NoIndex, 0x02, Code::AND_INT, 0x0000205),
        0x96 => new_entry("or-int", Format::k23x, IndexType::NoIndex, 0x02, Code::OR_INT, 0x0000205),
        0x97 => new_entry("xor-int", Format::k23x, IndexType::NoIndex, 0x02, Code::XOR_INT, 0x0000205),
        0x98 => new_entry("shl-int", Format::k23x, IndexType::NoIndex, 0x02, Code::SHL_INT, 0x0000205),
        0x99 => new_entry("shr-int", Format::k23x, IndexType::NoIndex, 0x02, Code::SHR_INT, 0x0000205),
        0x9a => new_entry("ushr-int", Format::k23x, IndexType::NoIndex, 0x02, Code::USHR_INT, 0x0000205),
        0x9b => new_entry("add-long", Format::k23x, IndexType::NoIndex, 0x02, Code::ADD_LONG, 0x0002102),
        0x9c => new_entry("sub-long", Format::k23x, IndexType::NoIndex, 0x02, Code::SUB_LONG, 0x0002102),
        0x9d => new_entry("mul-long", Format::k23x, IndexType::NoIndex, 0x02, Code::MUL_LONG, 0x0002102),
        0x9e => new_entry("div-long", Format::k23x, IndexType::NoIndex, 0x0a, Code::DIV_LONG, 0x0002102),
        _ => new_entry("rem-long", Format::k23x, IndexType::NoIndex, 0x0a, Code::REM_LONG, 0x0002102),
    }
}

/// Rows `0xa0` to `0xaf` of the opcode table.
pub open spec fn rows_a(byte: u8) -> InstructionDescriptor {
    match byte {
        0xa0 => entry("and-long", Format::k23x, IndexType::NoIndex, 0x02, Code::AND_LONG, 0x0002102),
        0xa1 => entry("or-long", Format::k23x, IndexType::NoIndex, 0x02, Code::OR_LONG, 0x0002102),
        0xa2 => entry("xor-long", Format::k23x, IndexType::NoIndex, 0x02, Code::XOR_LONG, 0x0002102),
        0xa3 => entry("shl-long", Format::k23x, IndexType::NoIndex, 0x02, Code::SHL_LONG, 0x0000302),
        0xa4 => entry("shr-long", Format::k23x, IndexType::NoIndex, 0x02, Code::SHR_LONG, 0x0000302),
        0xa5 => entry("ushr-long", Format::k23x, IndexType::NoIndex, 0x02, Code::USHR_LONG, 0x0000302),
        0xa6 => entry("add-float", Format::k23x, IndexType::NoIndex, 0x02, Code::ADD_FLOAT, 0x0000205),
        0xa7 => entry("sub-float", Format::k23x, IndexType::NoIndex, 0x02, Code::SUB_FLOAT, 0x0000205),
        0xa8 => entry("mul-float", Format::k23x, IndexType::NoIndex, 0x02, Code::MUL_FLOAT, 0x0000205),
        0xa9 => entry("div-float", Format::k23x, IndexType::NoIndex, 0x02, Code::DIV_FLOAT, 0x0000205),
        0xaa => entry("rem-float", Format::k23x, IndexType::NoIndex, 0x02, Code::REM_FLOAT, 0x0000205),
        0xab => entry("add-double", Format::k23x, IndexType::NoIndex, 0x02, Code::ADD_DOUBLE, 0x0002102),
        0xac => entry("sub-double", Format::k23x, IndexType::NoIndex, 0x02, Code::SUB_DOUBLE, 0x0002102),
        0xad => entry("mul-double", Format::k23x, IndexType::NoIndex, 0x02, Code::MUL_DOUBLE, 0x0002102),
        0xae => entry("div-double", Format::k23x, IndexType::NoIndex, 0x02, Code::DIV_DOUBLE, 0x0002102),
        _ => entry("rem-double", Format::k23x, IndexType::NoIndex, 0x02, Code::REM_DOUBLE, 0x0002102),
    }
}

fn rows_a_of(byte: u8) -> (r: InstructionDescriptor)
    ensures
        r == rows_a(byte),
{
    match byte {
        0xa0 => new_entry("and-long", Format::k23x, IndexType::NoIndex, 0x02, Code::AND_LONG, 0x0002102),
        0xa1 => new_entry("or-long", Format::k23x, IndexType::NoIndex, 0x02, Code::OR_LONG, 0x0002102),
        0xa2 => new_entry("xor-long", Format::k23x, IndexType::NoIndex, 0x02, Code::XOR_LONG, 0x0002102),
        0xa3 => new_entry("shl-long", Format::k23x, IndexType::NoIndex, 0x02, Code::SHL_LONG, 0x0000302),
        0xa4 => new_entry("shr-long", Format::k23x, IndexType::NoIndex, 0x02, Code::SHR_LONG, 0x0000302),
        0xa5 => new_entry("ushr-long", Format::k23x, IndexType::NoIndex, 0x02, Code::USHR_LONG, 0x0000302),
        0xa6 => new_entry("add-float", Format::k23x, IndexType::NoIndex, 0x02, Code::ADD_FLOAT, 0x0000205),
        0xa7 => new_entry("sub-float", Format::k23x, IndexType::NoIndex, 0x02, Code::SUB_FLOAT, 0x0000205),
        0xa8 => new_entry("mul-float", Format::k23x, IndexType::NoIndex, 0x02, Code::MUL_FLOAT, 0x0000205),
        0xa9 => new_entry("div-float", Format::k23x, IndexType::NoIndex, 0x02, Code::DIV_FLOAT, 0x0000205),
        0xaa => new_entry("rem-float", Format::k23x, IndexType::NoIndex, 0x02, Code::REM_FLOAT, 0x0000205),
        0xab => new_entry("add-double", Format::k23x, IndexType::NoIndex, 0x02, Code::ADD_DOUBLE, 0x0002102),
        0xac => new_entry("sub-double", Format::k23x, IndexType::NoIndex, 0x02, Code::SUB_DOUBLE, 0x0002102),
        0xad => new_entry("mul-double", Format::k23x, IndexType::NoIndex, 0x02, Code::MUL_DOUBLE, 0x0002102),
        0xae => new_entry("div-double", Format::k23x, IndexType::NoIndex, 0x02, Code::DIV_DOUBLE, 0x0002102),
        _ => new_entry("rem-double", Format::k23x, IndexType::NoIndex, 0x02, Code::REM_DOUBLE, 0x0002102),
    }
}

/// Rows `0xb0` to `0xbf` of the opcode table.
pub open spec fn rows_b(byte: u8) -> InstructionDescriptor {
    match byte {
        0xb0 => entry("add-int/2addr", Format::k12x, IndexType::NoIndex, 0x02, Code::ADD_INT_2ADDR, 0x0000005),
        0xb1 => entry("sub-int/2addr", Format::k12x, IndexType::NoIndex, 0x02, Code::SUB_INT_2ADDR, 0x0000005),
        0xb2 => entry("mul-int/2addr", Format::k12x, IndexType::NoIndex, 0x02, Code::MUL_INT_2ADDR, 0x0000005),
        0xb3 => entry("div-int/2addr", Format::k12x, IndexType::NoIndex, 0x0a, Code::DIV_INT_2ADDR, 0x0000005),
        0xb4 => entry("rem-int/2addr", Format::k12x, IndexType::NoIndex, 0x0a, Code::REM_INT_2ADDR, 0x0000005),
        0xb5 => entry("and-int/2addr", Format::k12x, IndexType::NoIndex, 0x02, Code::AND_INT_2ADDR, 0x0000005),
        0xb6 => entry("or-int/2addr", Format::k12x, IndexType::NoIndex, 0x02, Code::OR_INT_2ADDR, 0x0000005),
        0xb7 => entry("xor-int/2addr", Format::k12x, IndexType::NoIndex, 0x02, Code::XOR_INT_2ADDR, 0x0000005),
        0xb8 => entry("shl-int/2addr", Format::k12x, IndexType::NoIndex, 0x02, Code::SHL_INT_2ADDR, 0x0000005),
        0xb9 => entry("shr-int/2addr", Format::k12x, IndexType::NoIndex, 0x02, Code::SHR_INT_2ADDR, 0x0000005),
        0xba => entry("ushr-int/2addr", Format::k12x, IndexType::NoIndex, 0x02, Code::USHR_INT_2ADDR, 0x0000005),
        0xbb => entry("add-long/2addr", Format::k12x, IndexType::NoIndex, 0x02, Code::ADD_LONG_2ADDR, 0x0000102),
        0xbc => entry("sub-long/2addr", Format::k12x, IndexType::NoIndex, 0x02, Code::SUB_LONG_2ADDR, 0x0000102),
        0xbd => entry("mul-long/2addr", Format::k12x, IndexType::NoIndex, 0x02, Code::MUL_LONG_2ADDR, 0x0000102),
        0xbe => entry("div-long/2addr", Format::k12x, IndexType::NoIndex, 0x0a, Code::DIV_LONG_2ADDR, 0x0000102),
        _ => entry("rem-long/2addr", Format::k12x, IndexType::NoIndex, 0x0a, Code::REM_LONG_2ADDR, 0x0000102),
    }
}

fn rows_b_of(byte: u8) -> (r: InstructionDescriptor)
    ensures
        r == rows_b(byte),
{
    match byte {
        0xb0 => new_entry("add-int/2addr", Format::k12x, IndexType::NoIndex, 0x02, Code::ADD_INT_2ADDR, 0x0000005),
        0xb1 => new_entry("sub-int/2addr", Format::k12x, IndexType::NoIndex, 0x02, Code::SUB_INT_2ADDR, 0x0000005),
        0xb2 => new_entry("mul-int/2addr", Format::k12x, IndexType::NoIndex, 0x02, Code::MUL_INT_2ADDR, 0x0000005),
        0xb3 => new_entry("div-int/2addr", Format::k12x, IndexType::NoIndex, 0x0a, Code::DIV_INT_2ADDR, 0x0000005),
        0xb4 => new_entry("rem-int/2addr", Format::k12x, IndexType::NoIndex, 0x0a, Code::REM_INT_2ADDR, 0x0000005),
        0xb5 => new_entry("and-int/2addr", Format::k12x, IndexType::NoIndex, 0x02, Code::AND_INT_2ADDR, 0x0000005),
        0xb6 => new_entry("or-int/2addr", Format::k12x, IndexType::NoIndex, 0x02, Code::OR_INT_2ADDR, 0x0000005),
        0xb7 => new_entry("xor-int/2addr", Format::k12x, IndexType::NoIndex, 0x02, Code::XOR_INT_2ADDR, 0x0000005),
        0xb8 => new_entry("shl-int/2addr", Format::k12x, IndexType::NoIndex, 0x02, Code::SHL_INT_2ADDR, 0x0000005),
        0xb9 => new_entry("shr-int/2addr", Format::k12x, IndexType::NoIndex, 0x02, Code::SHR_INT_2ADDR, 0x0000005),
        0xba => new_entry("ushr-int/2addr", Format::k12x, IndexType::NoIndex, 0x02, Code::USHR_INT_2ADDR, 0x0000005),
        0xbb => new_entry("add-long/2addr", Format::k12x, IndexType::NoIndex, 0x02, Code::ADD_LONG_2ADDR, 0x0000102),
        0xbc => new_entry("sub-long/2addr", Format::k12x, IndexType::NoIndex, 0x02, Code::SUB_LONG_2ADDR, 0x0000102),
        0xbd => new_entry("mul-long/2addr", Format::k12x, IndexType::NoIndex, 0x02, Code::MUL_LONG_2ADDR, 0x0000102),
        0xbe => new_entry("div-long/2addr", Format::k12x, IndexType::NoIndex, 0x0a, Code::DIV_LONG_2ADDR, 0x0000102),
        _ => new_entry("rem-long/2addr", Format::k12x, IndexType::NoIndex, 0x0a, Code::REM_LONG_2ADDR, 0x0000102),
    }
}

/// Rows `0xc0` to `0xcf` of the opcode table.
pub open spec fn rows_c(byte: u8) -> InstructionDescriptor {
    match byte {
        0xc0 => entry("and-long/2addr", Format::k12x, IndexType::NoIndex, 0x02, Code::AND_LONG_2ADDR, 0x0000102),
        0xc1 => entry("or-long/2addr", Format::k12x, IndexType::NoIndex, 0x02, Code::OR_LONG_2ADDR, 0x0000102),
        0xc2 => entry("xor-long/2addr", Format::k12x, IndexType::NoIndex, 0x02, Code::XOR_LONG_2ADDR, 0x0000102),
        0xc3 => entry("shl-long/2addr", Format::k12x, IndexType::NoIndex, 0x02, Code::SHL_LONG_2ADDR, 0x0000006),
        0xc4 => entry("shr-long/2addr", Format::k12x, IndexType::NoIndex, 0x02, Code::SHR_LONG_2ADDR, 0x0000006),
        0xc5 => entry("ushr-long/2addr", Format::k12x, IndexType::NoIndex, 0x02, Code::USHR_LONG_2ADDR, 0x0000006),
        0xc6 => entry("add-float/2addr", Format::k12x, IndexType::NoIndex, 0x02, Code::ADD_FLOAT_2ADDR, 0x0000005),
        0xc7 => entry("sub-float/2addr", Format::k12x, IndexType::NoIndex, 0x02, Code::SUB_FLOAT_2ADDR, 0x0000005),
        0xc8 => entry("mul-float/2addr", Format::k12x, IndexType::NoIndex, 0x02, Code::MUL_FLOAT_2ADDR, 0x0000005),
        0xc9 => entry("div-float/2addr", Format::k12x, IndexType::NoIndex, 0x02, Code::DIV_FLOAT_2ADDR, 0x0000005),
        0xca => entry("rem-float/2addr", Format::k12x, IndexType::NoIndex, 0x02, Code::REM_FLOAT_2ADDR, 0x0000005),
        0xcb => entry("add-double/2addr", Format::k12x, IndexType::NoIndex, 0x02, Code::ADD_DOUBLE_2ADDR, 0x0000102),
        0xcc => entry("sub-double/2addr", Format::k12x, IndexType::NoIndex, 0x02, Code::SUB_DOUBLE_2ADDR, 0x0000102),
        0xcd => entry("mul-double/2addr", Format::k12x, IndexType::NoIndex, 0x02, Code::MUL_DOUBLE_2ADDR, 0x0000102),
        0xce => entry("div-double/2addr", Format::k12x, IndexType::NoIndex, 0x02, Code::DIV_DOUBLE_2ADDR, 0x0000102),
        _ => entry("rem-double/2addr", Format::k12x, IndexType::NoIndex, 0x02, Code::REM_DOUBLE_2ADDR, 0x0000102),
    }
}

fn rows_c_of(byte: u8) -> (r: InstructionDescriptor)
    ensures
        r == rows_c(byte),
{
    match byte {
        0xc0 => new_entry("and-long/2addr", Format::k12x, IndexType::NoIndex, 0x02, Code::AND_LONG_2ADDR, 0x0000102),
        0xc1 => new_entry("or-long/2addr", Format::k12x, IndexType::NoIndex, 0x02, Code::OR_LONG_2ADDR, 0x0000102),
        0xc2 => new_entry("xor-long/2addr", Format::k12x, IndexType::NoIndex, 0x02, Code::XOR_LONG_2ADDR, 0x0000102),
        0xc3 => new_entry("shl-long/2addr", Format::k12x, IndexType::NoIndex, 0x02, Code::SHL_LONG_2ADDR, 0x0000006),
        0xc4 => new_entry("shr-long/2addr", Format::k12x, IndexType::NoIndex, 0x02, Code::SHR_LONG_2ADDR, 0x0000006),
        0xc5 => new_entry("ushr-long/2addr", Format::k12x, IndexType::NoIndex, 0x02, Code::USHR_LONG_2ADDR, 0x0000006),
        0xc6 => new_entry("add-float/2addr", Format::k12x, IndexType::NoIndex, 0x02, Code::ADD_FLOAT_2ADDR, 0x0000005),
        0xc7 => new_entry("sub-float/2addr", Format::k12x, IndexType::NoIndex, 0x02, Code::SUB_FLOAT_2ADDR, 0x0000005),
        0xc8 => new_entry("mul-float/2addr", Format::k12x, IndexType::NoIndex, 0x02, Code::MUL_FLOAT_2ADDR, 0x0000005),
        0xc9 => new_entry("div-float/2addr", Format::k12x, IndexType::NoIndex, 0x02, Code::DIV_FLOAT_2ADDR, 0x0000005),
        0xca => new_entry("rem-float/2addr", Format::k12x, IndexType::NoIndex, 0x02, Code::REM_FLOAT_2ADDR, 0x0000005),
        0xcb => new_entry("add-double/2addr", Format::k12x, IndexType::NoIndex, 0x02, Code::ADD_DOUBLE_2ADDR, 0x0000102),
        0xcc => new_entry("sub-double/2addr", Format::k12x, IndexType::NoIndex, 0x02, Code::SUB_DOUBLE_2ADDR, 0x0000102),
        0xcd => new_entry("mul-double/2addr", Format::k12x, IndexType::NoIndex, 0x02, Code::MUL_DOUBLE_2ADDR, 0x0000102),
        0xce => new_entry("div-double/2addr", Format::k12x, IndexType::NoIndex, 0x02, Code::DIV_DOUBLE_2ADDR, 0x0000102),
        _ => new_entry("rem-double/2addr", Format::k12x, IndexType::NoIndex, 0x02, Code::REM_DOUBLE_2ADDR, 0x0000102),
    }
}

/// Rows `0xd0` to `0xdf` of the opcode table.
pub open spec fn rows_d(byte: u8) -> InstructionDescriptor {
    match byte {
        0xd0 => entry("add-int/lit16", Format::k22s, IndexType::NoIndex, 0x02, Code::ADD_INT_LIT16, 0x0000005),
        0xd1 => entry("rsub-int", Format::k22s, IndexType::NoIndex, 0x02, Code::RSUB_INT, 0x0000005),
        0xd2 => entry("mul-int/lit16", Format::k22s, IndexType::NoIndex, 0x02, Code::MUL_INT_LIT16, 0x0000005),
        0xd3 => entry("div-int/lit16", Format::k22s, IndexType::NoIndex, 0x0a, Code::DIV_INT_LIT16, 0x0000005),
        0xd4 => entry("rem-int/lit16", Format::k22s, IndexType::NoIndex, 0x0a, Code::REM_INT_LIT16, 0x0000005),
        0xd5 => entry("and-int/lit16", Format::k22s, IndexType::NoIndex, 0x02, Code::AND_INT_LIT16, 0x0000005),
        0xd6 => entry("or-int/lit16", Format::k22s, IndexType::NoIndex, 0x02, Code::OR_INT_LIT16, 0x0000005),
        0xd7 => entry("xor-int/lit16", Format::k22s, IndexType::NoIndex, 0x02, Code::XOR_INT_LIT16, 0x0000005),
        0xd8 => entry("add-int/lit8", Format::k22b, IndexType::NoIndex, 0x02, Code::ADD_INT_LIT8, 0x0000005),
        0xd9 => entry("rsub-int/lit8", Format::k22b, IndexType::NoIndex, 0x02, Code::RSUB_INT_LIT8, 0x0000005),
        0xda => entry("mul-int/lit8", Format::k22b, IndexType::NoIndex, 0x02, Code::MUL_INT_LIT8, 0x0000005),
        0xdb => entry("div-int/lit8", Format::k22b, IndexType::NoIndex, 0x0a, Code::DIV_INT_LIT8, 0x0000005),
        0xdc => entry("rem-int/lit8", Format::k22b, IndexType::NoIndex, 0x0a, Code::REM_INT_LIT8, 0x0000005),
        0xdd => entry("and-int/lit8", Format::k22b, IndexType::NoIndex, 0x02, Code::AND_INT_LIT8, 0x0000005),
        0xde => entry("or-int/lit8", Format::k22b, IndexType::NoIndex, 0x02, Code::OR_INT_LIT8, 0x0000005),
        _ => entry("xor-int/lit8", Format::k22b, IndexType::NoIndex, 0x02, Code::XOR_INT_LIT8, 0x0000005),
    }
}

fn rows_d_of(byte: u8) -> (r: InstructionDescriptor)
    ensures
        r == rows_d(byte),
{
    match byte {
        0xd0 => new_entry("add-int/lit16", Format::k22s, IndexType::NoIndex, 0x02, Code::ADD_INT_LIT16, 0x0000005),
        0xd1 => new_entry("rsub-int", Format::k22s, IndexType::NoIndex, 0x02, Code::RSUB_INT, 0x0000005),
        0xd2 => new_entry("mul-int/lit16", Format::k22s, IndexType::NoIndex, 0x02, Code::MUL_INT_LIT16, 0x0000005),
        0xd3 => new_entry("div-int/lit16", Format::k22s, IndexType::NoIndex, 0x0a, Code::DIV_INT_LIT16, 0x0000005),
        0xd4 => new_entry("rem-int/lit16", Format::k22s, IndexType::NoIndex, 0x0a, Code::REM_INT_LIT16, 0x0000005),
        0xd5 => new_entry("and-int/lit16", Format::k22s, IndexType::NoIndex, 0x02, Code::AND_INT_LIT16, 0x0000005),
        0xd6 => new_entry("or-int/lit16", Format::k22s, IndexType::NoIndex, 0x02, Code::OR_INT_LIT16, 0x0000005),
        0xd7 => new_entry("xor-int/lit16", Format::k22s, IndexType::NoIndex, 0x02, Code::XOR_INT_LIT16, 0x0000005),
        0xd8 => new_entry("add-int/lit8", Format::k22b, IndexType::NoIndex, 0x02, Code::ADD_INT_LIT8, 0x0000005),
        0xd9 => new_entry("rsub-int/lit8", Format::k22b, IndexType::NoIndex, 0x02, Code::RSUB_INT_LIT8, 0x0000005),
        0xda => new_entry("mul-int/lit8", Format::k22b, IndexType::NoIndex, 0x02, Code::MUL_INT_LIT8, 0x0000005),
        0xdb => new_entry("div-int/lit8", Format::k22b, IndexType::NoIndex, 0x0a, Code::DIV_INT_LIT8, 0x0000005),
        0xdc => new_entry("rem-int/lit8", Format::k22b, IndexType::NoIndex, 0x0a, Code::REM_INT_LIT8, 0x0000005),
        0xdd => new_entry("and-int/lit8", Format::k22b, IndexType::NoIndex, 0x02, Code::AND_INT_LIT8, 0x0000005),
        0xde => new_entry("or-int/lit8", Format::k22b, IndexType::NoIndex, 0x02, Code::OR_INT_LIT8, 0x0000005),
        _ => new_entry("xor-int/lit8", Format::k22b, IndexType::NoIndex, 0x02, Code::XOR_INT_LIT8, 0x0000005),
    }
}

/// Rows `0xe0` to `0xef` of the opcode table.
pub open spec fn rows_e(byte: u8) -> InstructionDescriptor {
    match byte {
        0xe0 => entry("shl-int/lit8", Format::k22b, IndexType::NoIndex, 0x02, Code::SHL_INT_LIT8, 0x0000005),
        0xe1 => entry("shr-int/lit8", Format::k22b, IndexType::NoIndex, 0x02, Code::SHR_INT_LIT8, 0x0000005),
        0xe2 => entry("ushr-int/lit8", Format::k22b, IndexType::NoIndex, 0x02, Code::USHR_INT_LIT8, 0x0000005),
        0xe3 => entry("unused-e3", Format::k10x, IndexType::Unknown, 0x00, Code::UNUSED_E3, 0x0200000),
        0xe4 => entry("unused-e4", Format::k10x, IndexType::Unknown, 0x00, Code::UNUSED_E4, 0x0200000),
        0xe5 => entry("unused-e5", Format::k10x, IndexType::Unknown, 0x00, Code::UNUSED_E5, 0x0200000),
        0xe6 => entry("unused-e6", Format::k10x, IndexType::Unknown, 0x00, Code::UNUSED_E6, 0x0200000),
        0xe7 => entry("unused-e7", Format::k10x, IndexType::Unknown, 0x00, Code::UNUSED_E7, 0x0200000),
        0xe8 => entry("unused-e8", Format::k10x, IndexType::Unknown, 0x00, Code::UNUSED_E8, 0x0200000),
        0xe9 => entry("unused-e9", Format::k10x, IndexType::Unknown, 0x00, Code::UNUSED_E9, 0x0200000),
        0xea => entry("unused-ea", Format::k10x, IndexType::Unknown, 0x00, Code::UNUSED_EA, 0x0200000),
        0xeb => entry("unused-eb", Format::k10x, IndexType::Unknown, 0x00, Code::UNUSED_EB, 0x0200000),
        0xec => entry("unused-ec", Format::k10x, IndexType::Unknown, 0x00, Code::UNUSED_EC, 0x0200000),
        0xed => entry("unused-ed", Format::k10x, IndexType::Unknown, 0x00, Code::UNUSED_ED, 0x0200000),
        0xee => entry("unused-ee", Format::k10x, IndexType::Unknown, 0x00, Code::UNUSED_EE, 0x0200000),
        _ => entry("unused-ef", Format::k10x, IndexType::Unknown, 0x00, Code::UNUSED_EF, 0x0200000),
    }
}

fn rows_e_of(byte: u8) -> (r: InstructionDescriptor)
    ensures
        r == rows_e(byte),
{
    match byte {
        0xe0 => new_entry("shl-int/lit8", Format::k22b, IndexType::NoIndex, 0x02, Code::SHL_INT_LIT8, 0x0000005),
        0xe1 => new_entry("shr-int/lit8", Format::k22b, IndexType::NoIndex, 0x02, Code::SHR_INT_LIT8, 0x0000005),
        0xe2 => new_entry("ushr-int/lit8", Format::k22b, IndexType::NoIndex, 0x02, Code::USHR_INT_LIT8, 0x0000005),
        0xe3 => new_entry("unused-e3", Format::k10x, IndexType::Unknown, 0x00, Code::UNUSED_E3, 0x0200000),
        0xe4 => new_entry("unused-e4", Format::k10x, IndexType::Unknown, 0x00, Code::UNUSED_E4, 0x0200000),
        0xe5 => new_entry("unused-e5", Format::k10x, IndexType::Unknown, 0x00, Code::UNUSED_E5, 0x0200000),
        0xe6 => new_entry("unused-e6", Format::k10x, IndexType::Unknown, 0x00, Code::UNUSED_E6, 0x0200000),
        0xe7 => new_entry("unused-e7", Format::k10x, IndexType::Unknown, 0x00, Code::UNUSED_E7, 0x0200000),
        0xe8 => new_entry("unused-e8", Format::k10x, IndexType::Unknown, 0x00, Code::UNUSED_E8, 0x0200000),
        0xe9 => new_entry("unused-e9", Format::k10x, IndexType::Unknown, 0x00, Code::UNUSED_E9, 0x0200000),
        0xea => new_entry("unused-ea", Format::k10x, IndexType::Unknown, 0x00, Code::UNUSED_EA, 0x0200000),
        0xeb => new_entry("unused-eb", Format::k10x, IndexType::Unknown, 0x00, Code::UNUSED_EB, 0x0200000),
        0xec => new_entry("unused-ec", Format::k10x, IndexType::Unknown, 0x00, Code::UNUSED_EC, 0x0200000),
        0xed => new_entry("unused-ed", Format::k10x, IndexType::Unknown, 0x00, Code::UNUSED_ED, 0x0200000),
        0xee => new_entry("unused-ee", Format::k10x, IndexType::Unknown, 0x00, Code::UNUSED_EE, 0x0200000),
        _ => new_entry("unused-ef", Format::k10x, IndexType::Unknown, 0x00, Code::UNUSED_EF, 0x0200000),
    }
}

/// Rows `0xf0` to `0xff` of the opcode table.
pub open spec fn rows_f(byte: u8) -> InstructionDescriptor {
    match byte {
        0xf0 => entry("unused-f0", Format::k10x, IndexType::Unknown, 0x00, Code::UNUSED_F0, 0x0200000),
        0xf1 => entry("unused-f1", Format::k10x, IndexType::Unknown, 0x00, Code::UNUSED_F1, 0x0200000),
        0xf2 => entry("unused-f2", Format::k10x, IndexType::Unknown, 0x00, Code::UNUSED_F2, 0x0200000),
        0xf3 => entry("unused-f3", Format::k10x, IndexType::Unknown, 0x00, Code::UNUSED_F3, 0x0200000),
        0xf4 => entry("unused-f4", Format::k10x, IndexType::Unknown, 0x00, Code::UNUSED_F4, 0x0200000),
        0xf5 => entry("unused-f5", Format::k10x, IndexType::Unknown, 0x00, Code::UNUSED_F5, 0x0200000),
        0xf6 => entry("unused-f6", Format::k10x, IndexType::Unknown, 0x00, Code::UNUSED_F6, 0x0200000),
        0xf7 => entry("unused-f7", Format::k10x, IndexType::Unknown, 0x00, Code::UNUSED_F7, 0x0200000),
        0xf8 => entry("unused-f8", Format::k10x, IndexType::Unknown, 0x00, Code::UNUSED_F8, 0x0200000),
        0xf9 => entry("unused-f9", Format::k10x, IndexType::Unknown, 0x00, Code::UNUSED_F9, 0x0200000),
        0xfa => entry("invoke-polymorphic", Format::k45cc, IndexType::MethodAndProtoRef, 0x2a, Code::INVOKE_POLYMORPHIC, 0x0440010),
        0xfb => entry("invoke-polymorphic/range", Format::k4rcc, IndexType::MethodAndProtoRef, 0x2a, Code::INVOKE_POLYMORPHIC_RANGE, 0x0500010),
        0xfc => entry("invoke-custom", Format::k35c, IndexType::CallSiteRef, 0x0a, Code::INVOKE_CUSTOM, 0x0820000),
        0xfd => entry("invoke-custom/range", Format::k3rc, IndexType::CallSiteRef, 0x0a, Code::INVOKE_CUSTOM_RANGE, 0x0880000),
        0xfe => entry("const-method-handle", Format::k21c, IndexType::MethodHandleRef, 0x0a, Code::CONST_METHOD_HANDLE, 0x1000001),
        _ => entry("const-method-type", Format::k21c, IndexType::ProtoRef, 0x0a, Code::CONST_METHOD_TYPE, 0x2000001),
    }
}

fn rows_f_of(byte: u8) -> (r: InstructionDescriptor)
    ensures
        r == rows_f(byte),
{
    match byte {
        0xf0 => new_entry("unused-f0", Format::k10x, IndexType::Unknown, 0x00, Code::UNUSED_F0, 0x0200000),
        0xf1 => new_entry("unused-f1", Format::k10x, IndexType::Unknown, 0x00, Code::UNUSED_F1, 0x0200000),
        0xf2 => new_entry("unused-f2", Format::k10x, IndexType::Unknown, 0x00, Code::UNUSED_F2, 0x0200000),
        0xf3 => new_entry("unused-f3", Format::k10x, IndexType::Unknown, 0x00, Code::UNUSED_F3, 0x0200000),
        0xf4 => new_entry("unused-f4", Format::k10x, IndexType::Unknown, 0x00, Code::UNUSED_F4, 0x0200000),
        0xf5 => new_entry("unused-f5", Format::k10x, IndexType::Unknown, 0x00, Code::UNUSED_F5, 0x0200000),
        0xf6 => new_entry("unused-f6", Format::k10x, IndexType::Unknown, 0x00, Code::UNUSED_F6, 0x0200000),
        0xf7 => new_entry("unused-f7", Format::k10x, IndexType::Unknown, 0x00, Code::UNUSED_F7, 0x0200000),
        0xf8 => new_entry("unused-f8", Format::k10x, IndexType::Unknown, 0x00, Code::UNUSED_F8, 0x0200000),
        0xf9 => new_entry("unused-f9", Format::k10x, IndexType::Unknown, 0x00, Code::UNUSED_F9, 0x0200000),
        0xfa => new_entry("invoke-polymorphic", Format::k45cc, IndexType::MethodAndProtoRef, 0x2a, Code::INVOKE_POLYMORPHIC, 0x0440010),
        0xfb => new_entry("invoke-polymorphic/range", Format::k4rcc, IndexType::MethodAndProtoRef, 0x2a, Code::INVOKE_POLYMORPHIC_RANGE, 0x0500010),
        0xfc => new_entry("invoke-custom", Format::k35c, IndexType::CallSiteRef, 0x0a, Code::INVOKE_CUSTOM, 0x0820000),
        0xfd => new_entry("invoke-custom/range", Format::k3rc, IndexType::CallSiteRef, 0x0a, Code::INVOKE_CUSTOM_RANGE, 0x0880000),
        0xfe => new_entry("const-method-handle", Format::k21c, IndexType::MethodHandleRef, 0x0a, Code::CONST_METHOD_HANDLE, 0x1000001),
        _ => new_entry("const-method-type", Format::k21c, IndexType::ProtoRef, 0x0a, Code::CONST_METHOD_TYPE, 0x2000001),
    }
}

/// The opcode table by byte value: for each opcode its mnemonic, operand
/// format, the kind of index its reference operand holds, its control-flow
/// flags, the opcode itself and its verify flags. The size follows from the
/// format.
pub open spec fn table_row(byte: u8) -> InstructionDescriptor {
    if byte < 0x10 {
        rows_0(byte)
    } else if byte < 0x20 {
        rows_1(byte)
    } else if byte < 0x30 {
        rows_2(byte)
    } else if byte < 0x40 {
        rows_3(byte)
    } else if byte < 0x50 {
        rows_4(byte)
    } else if byte < 0x60 {
        rows_5(byte)
    } else if byte < 0x70 {
        rows_6(byte)
    } else if byte < 0x80 {
        rows_7(byte)
    } else if byte < 0x90 {
        rows_8(byte)
    } else if byte < 0xa0 {
        rows_9(byte)
    } else if byte < 0xb0 {
        rows_a(byte)
    } else if byte < 0xc0 {
        rows_b(byte)
    } else if byte < 0xd0 {
        rows_c(byte)
    } else if byte < 0xe0 {
        rows_d(byte)
    } else if byte < 0xf0 {
        rows_e(byte)
    } else {
        rows_f(byte)
    }
}

/// The row of the opcode table for `code`.
pub open spec fn descriptor(code: Code) -> InstructionDescriptor {
    table_row(byte_of(code))
}

/// Looks an opcode up in the opcode table.
pub fn descriptor_of(code: Code) -> (r: InstructionDescriptor)
    ensures
        r == descriptor(code),
{
    descriptor_at(code.value())
}

/// Looks a byte value up in the opcode table.
pub fn descriptor_at(byte: u8) -> (r: InstructionDescriptor)
    ensures
        r == table_row(byte),
{
    if byte < 0x10 {
        rows_0_of(byte)
    } else if byte < 0x20 {
        rows_1_of(byte)
    } else if byte < 0x30 {
        rows_2_of(byte)
    } else if byte < 0x40 {
        rows_3_of(byte)
    } else if byte < 0x50 {
        rows_4_of(byte)
    } else if byte < 0x60 {
        rows_5_of(byte)
    } else if byte < 0x70 {
        rows_6_of(byte)
    } else if byte < 0x80 {
        rows_7_of(byte)
    } else if byte < 0x90 {
        rows_8_of(byte)
    } else if byte < 0xa0 {
        rows_9_of(byte)
    } else if byte < 0xb0 {
        rows_a_of(byte)
    } else if byte < 0xc0 {
        rows_b_of(byte)
    } else if byte < 0xd0 {
        rows_c_of(byte)
    } else if byte < 0xe0 {
        rows_d_of(byte)
    } else if byte < 0xf0 {
        rows_e_of(byte)
    } else {
        rows_f_of(byte)
    }
}

proof fn lemma_names_0(byte: u8)
    ensures
        rows_0(byte).name@.len() > 0,
{
    reveal_strlit("nop");
    reveal_strlit("move");
    reveal_strlit("move/from16");
    reveal_strlit("move/16");
    reveal_strlit("move-wide");
    reveal_strlit("move-wide/from16");
    reveal_strlit("move-wide/16");
    reveal_strlit("move-object");
    reveal_strlit("move-object/from16");
    reveal_strlit("move-object/16");
    reveal_strlit("move-result");
    reveal_strlit("move-result-wide");
    reveal_strlit("move-result-object");
    reveal_strlit("move-exception");
    reveal_strlit("return-void");
    reveal_strlit("return");
}

proof fn lemma_names_1(byte: u8)
    ensures
        rows_1(byte).name@.len() > 0,
{
    reveal_strlit("return-wide");
    reveal_strlit("return-object");
    reveal_strlit("const/4");
    reveal_strlit("const/16");
    reveal_strlit("const");
    reveal_strlit("const/high16");
    reveal_strlit("const-wide/16");
    reveal_strlit("const-wide/32");
    reveal_strlit("const-wide");
    reveal_strlit("const-wide/high16");
    reveal_strlit("const-string");
    reveal_strlit("const-string/jumbo");
    reveal_strlit("const-class");
    reveal_strlit("monitor-enter");
    reveal_strlit("monitor-exit");
    reveal_strlit("check-cast");
}

proof fn lemma_names_2(byte: u8)
    ensures
        rows_2(byte).name@.len() > 0,
{
    reveal_strlit("instance-of");
    reveal_strlit("array-length");
    reveal_strlit("new-instance");
    reveal_strlit("new-array");
    reveal_strlit("filled-new-array");
    reveal_strlit("filled-new-array/range");
    reveal_strlit("fill-array-data");
    reveal_strlit("throw");
    reveal_strlit("goto");
    reveal_strlit("goto/16");
    reveal_strlit("goto/32");
    reveal_strlit("packed-switch");
    reveal_strlit("sparse-switch");
    reveal_strlit("cmpl-float");
    reveal_strlit("cmpg-float");
    reveal_strlit("cmpl-double");
}

proof fn lemma_names_3(byte: u8)
    ensures
        rows_3(byte).name@.len() > 0,
{
    reveal_strlit("cmpg-double");
    reveal_strlit("cmp-long");
    reveal_strlit("if-eq");
    reveal_strlit("if-ne");
    reveal_strlit("if-lt");
    reveal_strlit("if-ge");
    reveal_strlit("if-gt");
    reveal_strlit("if-le");
    reveal_strlit("if-eqz");
    reveal_strlit("if-nez");
    reveal_strlit("if-ltz");
    reveal_strlit("if-gez");
    reveal_strlit("if-gtz");
    reveal_strlit("if-lez");
    reveal_strlit("unused-3e");
    reveal_strlit("unused-3f");
}

proof fn lemma_names_4(byte: u8)
    ensures
        rows_4(byte).name@.len() > 0,
{
    reveal_strlit("unused-40");
    reveal_strlit("unused-41");
    reveal_strlit("unused-42");
    reveal_strlit("unused-43");
    reveal_strlit("aget");
    reveal_strlit("aget-wide");
    reveal_strlit("aget-object");
    reveal_strlit("aget-boolean");
    reveal_strlit("aget-byte");
    reveal_strlit("aget-char");
    reveal_strlit("aget-short");
    reveal_strlit("aput");
    reveal_strlit("aput-wide");
    reveal_strlit("aput-object");
    reveal_strlit("aput-boolean");
    reveal_strlit("aput-byte");
}

proof fn lemma_names_5(byte: u8)
    ensures
        rows_5(byte).name@.len() > 0,
{
    reveal_strlit("aput-char");
    reveal_strlit("aput-short");
    reveal_strlit("iget");
    reveal_strlit("iget-wide");
    reveal_strlit("iget-object");
    reveal_strlit("iget-boolean");
    reveal_strlit("iget-byte");
    reveal_strlit("iget-char");
    reveal_strlit("iget-short");
    reveal_strlit("iput");
    reveal_strlit("iput-wide");
    reveal_strlit("iput-object");
    reveal_strlit("iput-boolean");
    reveal_strlit("iput-byte");
    reveal_strlit("iput-char");
    reveal_strlit("iput-short");
}

proof fn lemma_names_6(byte: u8)
    ensures
        rows_6(byte).name@.len() > 0,
{
    reveal_strlit("sget");
    reveal_strlit("sget-wide");
    reveal_strlit("sget-object");
    reveal_strlit("sget-boolean");
    reveal_strlit("sget-byte");
    reveal_strlit("sget-char");
    reveal_strlit("sget-short");
    reveal_strlit("sput");
    reveal_strlit("sput-wide");
    reveal_strlit("sput-object");
    reveal_strlit("sput-boolean");
    reveal_strlit("sput-byte");
    reveal_strlit("sput-char");
    reveal_strlit("sput-short");
    reveal_strlit("invoke-virtual");
    reveal_strlit("invoke-super");
}

proof fn lemma_names_7(byte: u8)
    ensures
        rows_7(byte).name@.len() > 0,
{
    reveal_strlit("invoke-direct");
    reveal_strlit("invoke-static");
    reveal_strlit("invoke-interface");
    reveal_strlit("unused-73");
    reveal_strlit("invoke-virtual/range");
    reveal_strlit("invoke-super/range");
    reveal_strlit("invoke-direct/range");
    reveal_strlit("invoke-static/range");
    reveal_strlit("invoke-interface/range");
    reveal_strlit("unused-79");
    reveal_strlit("unused-7a");
    reveal_strlit("neg-int");
    reveal_strlit("not-int");
    reveal_strlit("neg-long");
    reveal_strlit("not-long");
    reveal_strlit("neg-float");
}

proof fn lemma_names_8(byte: u8)
    ensures
        rows_8(byte).name@.len() > 0,
{
    reveal_strlit("neg-double");
    reveal_strlit("int-to-long");
    reveal_strlit("int-to-float");
    reveal_strlit("int-to-double");
    reveal_strlit("long-to-int");
    reveal_strlit("long-to-float");
    reveal_strlit("long-to-double");
    reveal_strlit("float-to-int");
    reveal_strlit("float-to-long");
    reveal_strlit("float-to-double");
    reveal_strlit("double-to-int");
    reveal_strlit("double-to-long");
    reveal_strlit("double-to-float");
    reveal_strlit("int-to-byte");
    reveal_strlit("int-to-char");
    reveal_strlit("int-to-short");
}

proof fn lemma_names_9(byte: u8)
    ensures
        rows_9(byte).name@.len() > 0,
{
    reveal_strlit("add-int");
    reveal_strlit("sub-int");
    reveal_strlit("mul-int");
    reveal_strlit("div-int");
    reveal_strlit("rem-int");
    reveal_strlit("and-int");
    reveal_strlit("or-int");
    reveal_strlit("xor-int");
    reveal_strlit("shl-int");
    reveal_strlit("shr-int");
    reveal_strlit("ushr-int");
    reveal_strlit("add-long");
    reveal_strlit("sub-long");
    reveal_strlit("mul-long");
    reveal_strlit("div-long");
    reveal_strlit("rem-long");
}

proof fn lemma_names_a(byte: u8)
    ensures
        rows_a(byte).name@.len() > 0,
{
    reveal_strlit("and-long");
    reveal_strlit("or-long");
    reveal_strlit("xor-long");
    reveal_strlit("shl-long");
    reveal_strlit("shr-long");
    reveal_strlit("ushr-long");
    reveal_strlit("add-float");
    reveal_strlit("sub-float");
    reveal_strlit("mul-float");
    reveal_strlit("div-float");
    reveal_strlit("rem-float");
    reveal_strlit("add-double");
    reveal_strlit("sub-double");
    reveal_strlit("mul-double");
    reveal_strlit("div-double");
    reveal_strlit("rem-double");
}

proof fn lemma_names_b(byte: u8)
    ensures
        rows_b(byte).name@.len() > 0,
{
    reveal_strlit("add-int/2addr");
    reveal_strlit("sub-int/2addr");
    reveal_strlit("mul-int/2addr");
    reveal_strlit("div-int/2addr");
    reveal_strlit("rem-int/2addr");
    reveal_strlit("and-int/2addr");
    reveal_strlit("or-int/2addr");
    reveal_strlit("xor-int/2addr");
    reveal_strlit("shl-int/2addr");
    reveal_strlit("shr-int/2addr");
    reveal_strlit("ushr-int/2addr");
    reveal_strlit("add-long/2addr");
    reveal_strlit("sub-long/2addr");
    reveal_strlit("mul-long/2addr");
    reveal_strlit("div-long/2addr");
    reveal_strlit("rem-long/2addr");
}

proof fn lemma_names_c(byte: u8)
    ensures
        rows_c(byte).name@.len() > 0,
{
    reveal_strlit("and-long/2addr");
    reveal_strlit("or-long/2addr");
    reveal_strlit("xor-long/2addr");
    reveal_strlit("shl-long/2addr");
    reveal_strlit("shr-long/2addr");
    reveal_strlit("ushr-long/2addr");
    reveal_strlit("add-float/2addr");
    reveal_strlit("sub-float/2addr");
    reveal_strlit("mul-float/2addr");
    reveal_strlit("div-float/2addr");
    reveal_strlit("rem-float/2addr");
    reveal_strlit("add-double/2addr");
    reveal_strlit("sub-double/2addr");
    reveal_strlit("mul-double/2addr");
    reveal_strlit("div-double/2addr");
    reveal_strlit("rem-double/2addr");
}

proof fn lemma_names_d(byte: u8)
    ensures
        rows_d(byte).name@.len() > 0,
{
    reveal_strlit("add-int/lit16");
    reveal_strlit("rsub-int");
    reveal_strlit("mul-int/lit16");
    reveal_strlit("div-int/lit16");
    reveal_strlit("rem-int/lit16");
    reveal_strlit("and-int/lit16");
    reveal_strlit("or-int/lit16");
    reveal_strlit("xor-int/lit16");
    reveal_strlit("add-int/lit8");
    reveal_strlit("rsub-int/lit8");
    reveal_strlit("mul-int/lit8");
    reveal_strlit("div-int/lit8");
    reveal_strlit("rem-int/lit8");
    reveal_strlit("and-int/lit8");
    reveal_strlit("or-int/lit8");
    reveal_strlit("xor-int/lit8");
}

proof fn lemma_names_e(byte: u8)
    ensures
        rows_e(byte).name@.len() > 0,
{
    reveal_strlit("shl-int/lit8");
    reveal_strlit("shr-int/lit8");
    reveal_strlit("ushr-int/lit8");
    reveal_strlit("unused-e3");
    reveal_strlit("unused-e4");
    reveal_strlit("unused-e5");
    reveal_strlit("unused-e6");
    reveal_strlit("unused-e7");
    reveal_strlit("unused-e8");
    reveal_strlit("unused-e9");
    reveal_strlit("unused-ea");
    reveal_strlit("unused-eb");
    reveal_strlit("unused-ec");
    reveal_strlit("unused-ed");
    reveal_strlit("unused-ee");
    reveal_strlit("unused-ef");
}

proof fn lemma_names_f(byte: u8)
    ensures
        rows_f(byte).name@.len() > 0,
{
    reveal_strlit("unused-f0");
    reveal_strlit("unused-f1");
    reveal_strlit("unused-f2");
    reveal_strlit("unused-f3");
    reveal_strlit("unused-f4");
    reveal_strlit("unused-f5");
    reveal_strlit("unused-f6");
    reveal_strlit("unused-f7");
    reveal_strlit("unused-f8");
    reveal_strlit("unused-f9");
    reveal_strlit("invoke-polymorphic");
    reveal_strlit("invoke-polymorphic/range");
    reveal_strlit("invoke-custom");
    reveal_strlit("invoke-custom/range");
    reveal_strlit("const-method-handle");
    reveal_strlit("const-method-type");
}

proof fn lemma_bytes_0(byte: u8)
    requires
        0x00 <= byte <= 0x0f,
    ensures
        byte_of(code_of(byte)) == byte,
        table_row(byte).opcode == code_of(byte),
{
}

proof fn lemma_bytes_1(byte: u8)
    requires
        0x10 <= byte <= 0x1f,
    ensures
        byte_of(code_of(byte)) == byte,
        table_row(byte).opcode == code_of(byte),
{
}

proof fn lemma_bytes_2(byte: u8)
    requires
        0x20 <= byte <= 0x2f,
    ensures
        byte_of(code_of(byte)) == byte,
        table_row(byte).opcode == code_of(byte),
{
}

proof fn lemma_bytes_3(byte: u8)
    requires
        0x30 <= byte <= 0x3f,
    ensures
        byte_of(code_of(byte)) == byte,
        table_row(byte).opcode == code_of(byte),
{
}

proof fn lemma_bytes_4(byte: u8)
    requires
        0x40 <= byte <= 0x4f,
    ensures
        byte_of(code_of(byte)) == byte,
        table_row(byte).opcode == code_of(byte),
{
}

proof fn lemma_bytes_5(byte: u8)
    requires
        0x50 <= byte <= 0x5f,
    ensures
        byte_of(code_of(byte)) == byte,
        table_row(byte).opcode == code_of(byte),
{
}

proof fn lemma_bytes_6(byte: u8)
    requires
        0x60 <= byte <= 0x6f,
    ensures
        byte_of(code_of(byte)) == byte,
        table_row(byte).opcode == code_of(byte),
{
}

proof fn lemma_bytes_7(byte: u8)
    requires
        0x70 <= byte <= 0x7f,
    ensures
        byte_of(code_of(byte)) == byte,
        table_row(byte).opcode == code_of(byte),
{
}

proof fn lemma_bytes_8(byte: u8)
    requires
        0x80 <= byte <= 0x8f,
    ensures
        byte_of(code_of(byte)) == byte,
        table_row(byte).opcode == code_of(byte),
{
}

proof fn lemma_bytes_9(byte: u8)
    requires
        0x90 <= byte <= 0x9f,
    ensures
        byte_of(code_of(byte)) == byte,
        table_row(byte).opcode == code_of(byte),
{
}

proof fn lemma_bytes_a(byte: u8)
    requires
        0xa0 <= byte <= 0xaf,
    ensures
        byte_of(code_of(byte)) == byte,
        table_row(byte).opcode == code_of(byte),
{
}

proof fn lemma_bytes_b(byte: u8)
    requires
        0xb0 <= byte <= 0xbf,
    ensures
        byte_of(code_of(byte)) == byte,
        table_row(byte).opcode == code_of(byte),
{
}

proof fn lemma_bytes_c(byte: u8)
    requires
        0xc0 <= byte <= 0xcf,
    ensures
        byte_of(code_of(byte)) == byte,
        table_row(byte).opcode == code_of(byte),
{
}

proof fn lemma_bytes_d(byte: u8)
    requires
        0xd0 <= byte <= 0xdf,
    ensures
        byte_of(code_of(byte)) == byte,
        table_row(byte).opcode == code_of(byte),
{
}

proof fn lemma_bytes_e(byte: u8)
    requires
        0xe0 <= byte <= 0xef,
    ensures
        byte_of(code_of(byte)) == byte,
        table_row(byte).opcode == code_of(byte),
{
}

proof fn lemma_bytes_f(byte: u8)
    requires
        0xf0 <= byte <= 0xff,
    ensures
        byte_of(code_of(byte)) == byte,
        table_row(byte).opcode == code_of(byte),
{
}

/// Byte value and opcode name each other, and the row of an opcode holds
/// that opcode.
pub proof fn lemma_code_of_byte(byte: u8)
    ensures
        byte_of(code_of(byte)) == byte,
        table_row(byte).opcode == code_of(byte),
{
    if byte <= 0x0f {
        lemma_bytes_0(byte);
    } else if byte <= 0x1f {
        lemma_bytes_1(byte);
    } else if byte <= 0x2f {
        lemma_bytes_2(byte);
    } else if byte <= 0x3f {
        lemma_bytes_3(byte);
    } else if byte <= 0x4f {
        lemma_bytes_4(byte);
    } else if byte <= 0x5f {
        lemma_bytes_5(byte);
    } else if byte <= 0x6f {
        lemma_bytes_6(byte);
    } else if byte <= 0x7f {
        lemma_bytes_7(byte);
    } else if byte <= 0x8f {
        lemma_bytes_8(byte);
    } else if byte <= 0x9f {
        lemma_bytes_9(byte);
    } else if byte <= 0xaf {
        lemma_bytes_a(byte);
    } else if byte <= 0xbf {
        lemma_bytes_b(byte);
    } else if byte <= 0xcf {
        lemma_bytes_c(byte);
    } else if byte <= 0xdf {
        lemma_bytes_d(byte);
    } else if byte <= 0xef {
        lemma_bytes_e(byte);
    } else if byte <= 0xff {
        lemma_bytes_f(byte);
    }
}

/// Every opcode has a name of at least one character.
pub proof fn lemma_names_not_empty(byte: u8)
    ensures
        table_row(byte).name@.len() > 0,
{
    lemma_names_0(byte);
    lemma_names_1(byte);
    lemma_names_2(byte);
    lemma_names_3(byte);
    lemma_names_4(byte);
    lemma_names_5(byte);
    lemma_names_6(byte);
    lemma_names_7(byte);
    lemma_names_8(byte);
    lemma_names_9(byte);
    lemma_names_a(byte);
    lemma_names_b(byte);
    lemma_names_c(byte);
    lemma_names_d(byte);
    lemma_names_e(byte);
    lemma_names_f(byte);
}

} // verus!
