use dexrs::error::DexError;
use dexrs::file::instruction::Instruction;
use dexrs::file::payload::{FillArrayData, PackedSwitch, Payload, SparseSwitch};

#[test]
fn packed_switch_table() {
    // three targets from key 16 on: 5, -2, 7
    let units = [0x0100u16, 3, 0x0010, 0, 5, 0, 0xfffe, 0xffff, 7, 0];
    let inst = Instruction::at(&units);
    let table = PackedSwitch::read(&inst).unwrap();
    assert_eq!(table.size, 3);
    assert_eq!(table.first_key, 16);
    assert_eq!(table.targets, vec![5, -2, 7]);
    assert_eq!(inst.size_in_code_units(), 10);
}

#[test]
fn packed_switch_table_with_extreme_values() {
    let units = [0x0100u16, 2, 0x0000, 0x8000, 0xffff, 0x7fff, 0x0000, 0x8000];
    let inst = Instruction::at(&units);
    let table = PackedSwitch::read(&inst).unwrap();
    assert_eq!(table.first_key, i32::MIN);
    assert_eq!(table.targets, vec![i32::MAX, i32::MIN]);
}

#[test]
fn packed_switch_table_without_targets() {
    let units = [0x0100u16, 0, 0x0007, 0];
    let inst = Instruction::at(&units);
    let table = PackedSwitch::read(&inst).unwrap();
    assert_eq!(table, PackedSwitch { size: 0, first_key: 7, targets: vec![] });
}

#[test]
fn packed_switch_table_cut_short() {
    let units = [0x0100u16];
    assert_eq!(
        PackedSwitch::read(&Instruction::at(&units)),
        Err(DexError::BadInstruction { opcode: "nop", offset: 1, size: 1, target_type: "u16" })
    );
    let units = [0x0100u16, 2];
    assert_eq!(
        PackedSwitch::read(&Instruction::at(&units)),
        Err(DexError::BadInstruction { opcode: "nop", offset: 2, size: 2, target_type: "u32" })
    );
    // the second target lacks its high unit
    let units = [0x0100u16, 2, 0, 0, 1, 0, 5];
    assert_eq!(
        PackedSwitch::read(&Instruction::at(&units)),
        Err(DexError::BadInstruction { opcode: "nop", offset: 7, size: 7, target_type: "u16" })
    );
    // the second target is not there at all
    let units = [0x0100u16, 2, 0, 0, 1, 0];
    assert_eq!(
        PackedSwitch::read(&Instruction::at(&units)),
        Err(DexError::BadInstruction { opcode: "nop", offset: 6, size: 6, target_type: "u32" })
    );
}

#[test]
fn sparse_switch_table() {
    // keys 1 and -1, targets 16 and 32
    let units = [0x0200u16, 2, 1, 0, 0xffff, 0xffff, 0x10, 0, 0x20, 0];
    let inst = Instruction::at(&units);
    let table = SparseSwitch::read(&inst).unwrap();
    assert_eq!(table.size, 2);
    assert_eq!(table.keys, vec![1, -1]);
    assert_eq!(table.targets, vec![16, 32]);
    assert_eq!(inst.size_in_code_units(), 10);
}

#[test]
fn sparse_switch_table_cut_short() {
    // the keys are there, the second target is not
    let units = [0x0200u16, 2, 1, 0, 2, 0, 0x10, 0];
    assert_eq!(
        SparseSwitch::read(&Instruction::at(&units)),
        Err(DexError::BadInstruction { opcode: "nop", offset: 8, size: 8, target_type: "u32" })
    );
    // the second key is not there
    let units = [0x0200u16, 2, 1, 0];
    assert_eq!(
        SparseSwitch::read(&Instruction::at(&units)),
        Err(DexError::BadInstruction { opcode: "nop", offset: 4, size: 4, target_type: "u32" })
    );
}

#[test]
fn fill_array_data_table() {
    // three elements of two bytes
    let units = [0x0300u16, 2, 3, 0, 0x0201, 0x0403, 0x0605];
    let inst = Instruction::at(&units);
    let table = FillArrayData::read(&inst).unwrap();
    assert_eq!(table.width, 2);
    assert_eq!(table.size, 3);
    assert_eq!(table.data, vec![1, 2, 3, 4, 5, 6]);
    assert_eq!(inst.size_in_code_units(), 7);
}

#[test]
fn fill_array_data_table_of_odd_length() {
    // three elements of one byte: the high byte of the last unit is padding
    let units = [0x0300u16, 1, 3, 0, 0x0201, 0xee03];
    let inst = Instruction::at(&units);
    let table = FillArrayData::read(&inst).unwrap();
    assert_eq!(table, FillArrayData { width: 1, size: 3, data: vec![1, 2, 3] });
    assert_eq!(inst.size_in_code_units(), 6);
}

#[test]
fn fill_array_data_table_without_data() {
    let units = [0x0300u16, 4, 0, 0];
    let table = FillArrayData::read(&Instruction::at(&units)).unwrap();
    assert_eq!(table, FillArrayData { width: 4, size: 0, data: vec![] });
    let units = [0x0300u16, 0, 0xffff, 0xffff];
    let table = FillArrayData::read(&Instruction::at(&units)).unwrap();
    assert_eq!(table, FillArrayData { width: 0, size: u32::MAX, data: vec![] });
}

#[test]
fn fill_array_data_table_cut_short() {
    // two elements of four bytes need four units; one is there
    let units = [0x0300u16, 4, 2, 0, 0x1111];
    assert_eq!(
        FillArrayData::read(&Instruction::at(&units)),
        Err(DexError::BadInstruction { opcode: "nop", offset: 5, size: 5, target_type: "u16" })
    );
    // the largest table there can be
    let units = [0x0300u16, 0xffff, 0xffff, 0xffff];
    assert_eq!(
        FillArrayData::read(&Instruction::at(&units)),
        Err(DexError::BadInstruction { opcode: "nop", offset: 4, size: 4, target_type: "u16" })
    );
    let units = [0x0300u16, 4, 2];
    assert_eq!(
        FillArrayData::read(&Instruction::at(&units)),
        Err(DexError::BadInstruction { opcode: "nop", offset: 3, size: 3, target_type: "u16" })
    );
}

#[test]
fn payload_by_signature() {
    let units = [0x0100u16, 1, 0, 0, 9, 0];
    assert_eq!(
        Payload::read(&Instruction::at(&units)),
        Ok(Some(Payload::PackedSwitch(PackedSwitch { size: 1, first_key: 0, targets: vec![9] })))
    );
    let units = [0x0200u16, 1, 3, 0, 9, 0];
    assert_eq!(
        Payload::read(&Instruction::at(&units)),
        Ok(Some(Payload::SparseSwitch(SparseSwitch { size: 1, keys: vec![3], targets: vec![9] })))
    );
    let units = [0x0300u16, 1, 2, 0, 0x0b0a];
    assert_eq!(
        Payload::read(&Instruction::at(&units)),
        Ok(Some(Payload::FillArrayData(FillArrayData { width: 1, size: 2, data: vec![10, 11] })))
    );
}

#[test]
fn payload_of_an_ordinary_instruction() {
    // a plain nop, a nop with another high byte, const/4
    for units in [[0x0000u16, 3, 0, 0], [0x0400, 3, 0, 0], [0x3012, 3, 0, 0]] {
        assert_eq!(Payload::read(&Instruction::at(&units)), Ok(None));
    }
}

#[test]
fn payload_cut_short() {
    let units = [0x0200u16];
    assert_eq!(
        Payload::read(&Instruction::at(&units)),
        Err(DexError::BadInstruction { opcode: "nop", offset: 1, size: 1, target_type: "u16" })
    );
}
