use dexrs::error::DexError;
use dexrs::file::instruction::{Format, IndexType, Instruction, VarArgs};
use dexrs::file::opcodes::{code_from_byte, descriptor_of, Code};
use dexrs::file::vreg;

#[test]
fn const4_operands() {
    // const/4 v0, #+3: bytes 12 30, one little-endian code unit.
    let units = [0x3012u16];
    let inst = Instruction::at(&units);
    assert_eq!(inst.name(), "const/4");
    assert_eq!(inst.opcode(), Code::CONST_4);
    assert_eq!(inst.format(), Format::k11n);
    assert_eq!(vreg::A(&inst), Ok(0));
    assert_eq!(vreg::B(&inst), Ok(3));
    assert_eq!(inst.size_in_code_units(), 1);
}

#[test]
fn const4_negative_literal() {
    let units = [0xf112u16];
    let inst = Instruction::at(&units);
    assert_eq!(vreg::A(&inst), Ok(1));
    assert_eq!(vreg::B(&inst), Ok(-1));
    let units = [0x8212u16];
    let inst = Instruction::at(&units);
    assert_eq!(vreg::A(&inst), Ok(2));
    assert_eq!(vreg::B(&inst), Ok(-8));
}

#[test]
fn opcode_is_low_byte() {
    assert_eq!(Instruction::opcode_of(0x1230), Code::CMPG_DOUBLE);
    assert_eq!(Instruction::opcode_of(0x3012), Code::CONST_4);
    assert_eq!(Instruction::opcode_of(0xff00), Code::NOP);
    assert_eq!(Instruction::opcode_of(0x00ff), Code::CONST_METHOD_TYPE);
}

#[test]
fn code_byte_values_agree() {
    for b in 0..=255u8 {
        assert_eq!(code_from_byte(b).value(), b);
        assert_eq!(descriptor_of(code_from_byte(b)).opcode, code_from_byte(b));
    }
}

#[test]
fn table_lookups() {
    assert_eq!(Instruction::name_of(Code::INVOKE_VIRTUAL), "invoke-virtual");
    assert_eq!(Instruction::format_of(Code::INVOKE_VIRTUAL), Format::k35c);
    assert_eq!(Instruction::index_type_of(Code::INVOKE_VIRTUAL), IndexType::MethodRef);
    assert_eq!(Instruction::flags_of(Code::INVOKE_VIRTUAL), 0x02 | 0x08 | 0x20);
    assert_eq!(Instruction::verify_flags_of(Code::INVOKE_VIRTUAL), 0x10 | 0x40000);
    assert_eq!(Instruction::name_of(Code::UNUSED_3E), "unused-3e");
    assert_eq!(Instruction::index_type_of(Code::UNUSED_3E), IndexType::Unknown);
    assert_eq!(Instruction::flags_of(Code::GOTO), 0x01 | 0x40);
    assert_eq!(Instruction::index_type_of(Code::NOP), IndexType::NoIndex);
    assert_eq!(Instruction::verify_flags_of(Code::CONST_METHOD_TYPE), 0x1 | 0x2000000);
}

#[test]
fn sizes_follow_formats() {
    assert_eq!(Instruction::code_size_in_code_units_by_opcode(Code::NOP, Format::k10x), 0xff);
    assert_eq!(Instruction::code_size_in_code_units_by_opcode(Code::MOVE, Format::k12x), 1);
    assert_eq!(Instruction::code_size_in_code_units_by_opcode(Code::GOTO_16, Format::k20t), 2);
    assert_eq!(Instruction::code_size_in_code_units_by_opcode(Code::MOVE_16, Format::k32x), 3);
    assert_eq!(Instruction::code_size_in_code_units_by_opcode(Code::GOTO_32, Format::k30t), 3);
    assert_eq!(
        Instruction::code_size_in_code_units_by_opcode(Code::INVOKE_POLYMORPHIC, Format::k45cc),
        4
    );
    assert_eq!(Instruction::code_size_in_code_units_by_opcode(Code::CONST_WIDE, Format::k51l), 5);
    assert_eq!(
        Instruction::code_size_in_code_units_by_opcode(Code::MOVE, Format::kInvalidFormat),
        0xfe
    );
    assert_eq!(descriptor_of(Code::CONST_WIDE).size_in_code_units, 5);
    assert_eq!(descriptor_of(Code::NOP).size_in_code_units, 0xff);
}

#[test]
fn packed_switch_payload_size() {
    let units = [0x0100u16, 0x0003, 0x0010, 0x0000, 1, 0, 2, 0, 3, 0];
    let inst = Instruction::at(&units);
    assert_eq!(inst.opcode(), Code::NOP);
    assert_eq!(inst.size_in_code_units_complex(), Ok(10));
    assert_eq!(inst.size_in_code_units(), 10);
}

#[test]
fn sparse_switch_payload_size() {
    let units = [0x0200u16, 0x0002, 0, 0, 0, 0, 0, 0, 0, 0];
    let inst = Instruction::at(&units);
    assert_eq!(inst.size_in_code_units(), 2 + 2 * 4);
}

#[test]
fn array_data_payload_size() {
    // three elements of one byte: 4 + ceil(3 / 2) = 6
    let units = [0x0300u16, 0x0001, 0x0003, 0x0000, 0x0201, 0x0003];
    let inst = Instruction::at(&units);
    assert_eq!(inst.size_in_code_units(), 6);
    // four elements of four bytes: 4 + 8
    let units = [0x0300u16, 0x0004, 0x0004, 0x0000];
    let inst = Instruction::at(&units);
    assert_eq!(inst.size_in_code_units(), 12);
    // 65536 elements of two bytes
    let units = [0x0300u16, 0x0002, 0x0000, 0x0001];
    let inst = Instruction::at(&units);
    assert_eq!(inst.size_in_code_units(), 4 + 65536);
}

#[test]
fn truncated_payload_header_counts_one_unit() {
    let units = [0x0100u16];
    let inst = Instruction::at(&units);
    assert_eq!(
        inst.size_in_code_units_complex(),
        Err(DexError::BadInstruction { opcode: "nop", offset: 1, size: 1, target_type: "u16" })
    );
    assert_eq!(inst.size_in_code_units(), 1);
    let units = [0x0300u16, 2, 7];
    let inst = Instruction::at(&units);
    assert_eq!(
        inst.size_in_code_units_complex(),
        Err(DexError::BadInstruction { opcode: "nop", offset: 3, size: 3, target_type: "u16" })
    );
    let units = [0x0300u16, 2];
    let inst = Instruction::at(&units);
    assert_eq!(
        inst.size_in_code_units_complex(),
        Err(DexError::BadInstruction { opcode: "nop", offset: 2, size: 2, target_type: "u32" })
    );
}

#[test]
fn plain_nop_is_one_unit() {
    let units = [0x0000u16, 0x0000];
    let inst = Instruction::at(&units);
    assert_eq!(inst.size_in_code_units_complex(), Ok(1));
    assert_eq!(inst.size_in_code_units(), 1);
    let units = [0x0400u16];
    assert_eq!(Instruction::at(&units).size_in_code_units(), 1);
}

#[test]
fn fetch_bounds() {
    let units = [0x000eu16, 0x1234, 0xabcd];
    let inst = Instruction::at(&units);
    assert_eq!(inst.fetch16(2), Ok(0xabcd));
    assert_eq!(
        inst.fetch16(3),
        Err(DexError::BadInstruction {
            opcode: "return-void",
            offset: 3,
            size: 3,
            target_type: "u16"
        })
    );
    assert_eq!(inst.fetch32(1), Ok(0xabcd1234));
    assert_eq!(
        inst.fetch32(2),
        Err(DexError::BadInstruction {
            opcode: "return-void",
            offset: 3,
            size: 3,
            target_type: "u16"
        })
    );
    assert_eq!(
        inst.fetch32(3),
        Err(DexError::BadInstruction {
            opcode: "return-void",
            offset: 3,
            size: 3,
            target_type: "u32"
        })
    );
    assert_eq!(inst.raw(), &units[..]);
}

#[test]
fn relative_at_and_next() {
    let units = [0x0001u16, 0x000e, 0x0000];
    let inst = Instruction::at(&units);
    let second = inst.next().unwrap();
    assert_eq!(second.name(), "return-void");
    assert_eq!(second.raw(), &units[1..]);
    assert_eq!(
        second.next().err(),
        Some(DexError::BadInstructionOffset { opcode: "return-void", offset: 1, size: 2 })
    );
    assert_eq!(
        inst.relative_at(2).err(),
        Some(DexError::BadInstructionOffset { opcode: "move", offset: 2, size: 3 })
    );
    assert_eq!(
        inst.relative_at(usize::MAX).err(),
        Some(DexError::BadInstructionOffset { opcode: "move", offset: usize::MAX, size: 3 })
    );
}

#[test]
fn operands_of_wide_formats() {
    // move/16 v0x1234, v0x5678
    let units = [0x0003u16, 0x1234, 0x5678];
    let inst = Instruction::at(&units);
    assert_eq!(inst.format(), Format::k32x);
    assert_eq!(vreg::A(&inst), Ok(0x1234));
    assert_eq!(vreg::B(&inst), Ok(0x5678));
    assert_eq!(inst.size_in_code_units(), 3);
    // goto/32 -2
    let units = [0x002au16, 0xfffe, 0xffff];
    let inst = Instruction::at(&units);
    assert_eq!(vreg::A(&inst), Ok(-2));
    // const-wide v1, 0x1122334455667788
    let units = [0x0118u16, 0x7788, 0x5566, 0x3344, 0x1122];
    let inst = Instruction::at(&units);
    assert!(vreg::has_wide_b(&inst));
    assert_eq!(vreg::A(&inst), Ok(1));
    assert_eq!(vreg::wide_b(&inst), Ok(0x1122334455667788));
    assert_eq!(vreg::B(&inst), Ok(0x55667788));
    let units = [0x0118u16, 0xffff, 0xffff, 0, 0];
    assert_eq!(vreg::B(&Instruction::at(&units)), Ok(-1));
}

#[test]
fn operands_of_three_register_formats() {
    // add-int v1, v2, v3
    let units = [0x0190u16, 0x0302];
    let inst = Instruction::at(&units);
    assert_eq!(vreg::A(&inst), Ok(1));
    assert_eq!(vreg::B(&inst), Ok(2));
    assert_eq!(vreg::C(&inst), Ok(3));
    // iget v1, v2, field@0x1234
    let units = [0x2152u16, 0x1234];
    let inst = Instruction::at(&units);
    assert_eq!(vreg::A(&inst), Ok(1));
    assert_eq!(vreg::B(&inst), Ok(2));
    assert_eq!(vreg::C(&inst), Ok(0x1234));
    assert!(!vreg::has_h(&inst));
}

#[test]
fn missing_operands_are_errors() {
    let units = [0x000eu16];
    let inst = Instruction::at(&units);
    assert!(vreg::has_a(&inst));
    assert!(!vreg::has_b(&inst));
    assert!(!vreg::has_c(&inst));
    assert_eq!(vreg::A(&inst), Ok(0));
    assert_eq!(
        vreg::B(&inst),
        Err(DexError::OperandAccessError { insn_name: "return-void", operand: "B" })
    );
    assert_eq!(
        vreg::C(&inst),
        Err(DexError::OperandAccessError { insn_name: "return-void", operand: "C" })
    );
    assert_eq!(
        vreg::H(&inst),
        Err(DexError::OperandAccessError { insn_name: "return-void", operand: "H" })
    );
    assert_eq!(
        vreg::wide_b(&inst),
        Err(DexError::OperandAccessError { insn_name: "return-void", operand: "B" })
    );
    assert_eq!(
        vreg::var_args(&inst).err(),
        Some(DexError::OperandAccessError { insn_name: "return-void", operand: "var_args" })
    );
    assert_eq!(
        vreg::args_range(&inst).err(),
        Some(DexError::OperandAccessError { insn_name: "return-void", operand: "args_range" })
    );
}

#[test]
fn operand_beyond_stream_is_bad_instruction() {
    let units = [0x0013u16];
    let inst = Instruction::at(&units);
    assert_eq!(
        vreg::B(&inst),
        Err(DexError::BadInstruction { opcode: "const/16", offset: 1, size: 1, target_type: "u16" })
    );
}

#[test]
fn var_args_lists() {
    // invoke-virtual {v1, v2, v3}, method@0x0010
    let units = [0x306eu16, 0x0010, 0x0321];
    let inst = Instruction::at(&units);
    assert!(vreg::has_var_args(&inst));
    let args = vreg::var_args(&inst).unwrap();
    assert_eq!(args.count, 3);
    assert_eq!(args.arg, vec![1, 2, 3]);
    assert_eq!(vreg::A(&inst), Ok(3));
    assert_eq!(vreg::B(&inst), Ok(0x10));
    assert_eq!(vreg::C(&inst), Ok(1));
    // five registers: G sits in the first unit
    let units = [0x596eu16, 0x0010, 0x4321];
    let args = vreg::var_args(&Instruction::at(&units)).unwrap();
    assert_eq!(args.count, 5);
    assert_eq!(args.arg, vec![1, 2, 3, 4, 9]);
    let units = [0x006eu16, 0x0010, 0x4321];
    let args = vreg::var_args(&Instruction::at(&units)).unwrap();
    assert_eq!(args.count, 0);
    assert!(args.arg.is_empty());
}

#[test]
fn var_args_count_above_five() {
    let units = [0x606eu16, 0x0010, 0x4321];
    assert_eq!(
        vreg::var_args(&Instruction::at(&units)).err(),
        Some(DexError::InvalidArgCount { opcode: "invoke-virtual", format: Format::k35c, count: 6 })
    );
}

#[test]
fn args_ranges() {
    // invoke-virtual/range {v10 .. v12}, method@1
    let units = [0x0374u16, 0x0001, 0x000a];
    let inst = Instruction::at(&units);
    assert!(vreg::has_args_range(&inst));
    assert_eq!(vreg::args_range(&inst), Ok(10..=12));
    let units = [0x0174u16, 0x0001, 0xfffe];
    assert_eq!(vreg::args_range(&Instruction::at(&units)), Ok(0xfffe..=0xfffe));
}

#[test]
fn args_range_rejections() {
    let units = [0x0074u16, 0x0001, 0x000a];
    assert_eq!(
        vreg::args_range(&Instruction::at(&units)).err(),
        Some(DexError::InvalidArgRange {
            opcode: "invoke-virtual/range",
            format: Format::k3rc,
            start: 10,
            end: 0
        })
    );
    let units = [0x0274u16, 0x0001, 0xfffe];
    assert_eq!(
        vreg::args_range(&Instruction::at(&units)).err(),
        Some(DexError::InvalidArgRange {
            opcode: "invoke-virtual/range",
            format: Format::k3rc,
            start: 0xfffe,
            end: 2
        })
    );
}

#[test]
fn polymorphic_invoke_operands() {
    let units = [0x20fau16, 0x0007, 0x0043, 0x0009];
    let inst = Instruction::at(&units);
    assert_eq!(inst.format(), Format::k45cc);
    assert_eq!(inst.size_in_code_units(), 4);
    assert_eq!(vreg::H(&inst), Ok(9));
    assert_eq!(vreg::B(&inst), Ok(7));
    let args = vreg::var_args(&inst).unwrap();
    assert_eq!(args.arg, vec![3, 4]);
    let units = [0x02fbu16, 0x0007, 0x0010, 0x0009];
    let inst = Instruction::at(&units);
    assert_eq!(vreg::H(&inst), Ok(9));
    assert_eq!(vreg::args_range(&inst), Ok(16..=17));
}

#[test]
fn new_var_args_is_zeroed() {
    let args = VarArgs::new(3);
    assert_eq!(args.count, 3);
    assert_eq!(args.arg, vec![0, 0, 0]);
}

#[test]
fn verify_flags_of_instruction() {
    let units = [0x0001u16];
    assert_eq!(Instruction::at(&units).verify_flags(), 0x1 | 0x4);
}
