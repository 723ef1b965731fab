use dexrs::error::{DexError, VarIntError};
use dexrs::file::container::InMemoryDexContainer;
use dexrs::file::debug::code;
use dexrs::file::debug::{
    CodeItemDebugInfoAccessor, DebugInfoParameterNamesIterator, LocalChange, LocalEvent,
    LocalInfo, PositionInfo, SourceFile,
};
use dexrs::file::verification::VerifyPreset;
use dexrs::file::{DexFile, DexLocation};
use std::cell::RefCell;

/// First line 10, two parameter names (string 4 and none), then: prologue
/// end, special opcode, advance pc 3, advance line -2, special opcode, set
/// file 9, locals, special opcode, end.
fn debug_info() -> Vec<u8> {
    vec![
        10, 2, 5, 0, // header and names
        code::DBG_SET_PROLOGUE_END,
        0x0a + 15 + 5, // address +1, line +1
        code::DBG_ADVANCE_PC,
        3,
        code::DBG_ADVANCE_LINE,
        0x7e,
        code::DBG_SET_EPILOGUE_BEGIN,
        0x0a + 4, // address +0, line +0
        code::DBG_SET_FILE,
        10,
        code::DBG_START_LOCAL,
        1,
        2,
        3,
        code::DBG_START_LOCAL_EXTENDED,
        1,
        2,
        3,
        4,
        code::DBG_END_LOCAL,
        1,
        code::DBG_RESTART_LOCAL,
        1,
        0xff, // address +16, line +1
        code::DBG_END_SEQUENCE,
        0x0a,
    ]
}

#[test]
fn initial_registers() {
    assert_eq!(
        PositionInfo::new(),
        PositionInfo {
            address: 0,
            line: 0,
            file: SourceFile::This,
            prologue_end: false,
            epilogue_begin: false
        }
    );
}

#[test]
fn parameter_names() {
    let data = debug_info();
    let accessor = CodeItemDebugInfoAccessor::new(&data);
    assert_eq!(accessor.read_parameter_names(), Ok(vec![4, u32::MAX]));
    let mut it = accessor.parameter_names().unwrap();
    assert_eq!(it.next(), Some(Ok(4)));
    assert_eq!(it.next(), Some(Ok(u32::MAX)));
    assert_eq!(it.next(), None);
    let seen = RefCell::new(Vec::new());
    assert_eq!(accessor.visit_parameter_names(|idx| seen.borrow_mut().push(idx)), Ok(()));
    assert_eq!(*seen.borrow(), vec![4, u32::MAX]);
}

#[test]
fn parameter_names_cut_short() {
    let accessor = CodeItemDebugInfoAccessor::new(&[10, 3, 5]);
    assert_eq!(
        accessor.read_parameter_names(),
        Err(DexError::VarIntError(VarIntError::NotEnoughBytes))
    );
    assert_eq!(
        accessor.visit_parameter_names(|_| {}),
        Err(DexError::VarIntError(VarIntError::NotEnoughBytes))
    );
    let mut it = accessor.parameter_names().unwrap();
    assert_eq!(it.next(), Some(Ok(4)));
    assert_eq!(it.next(), Some(Err(DexError::VarIntError(VarIntError::NotEnoughBytes))));
    assert_eq!(it.next(), None);
    assert!(CodeItemDebugInfoAccessor::new(&[10]).parameter_names().is_err());
    assert!(DebugInfoParameterNamesIterator::new(&[10, 0], 3).is_err());
    let mut at_two = DebugInfoParameterNamesIterator::new(&[0xff, 0xff, 10, 1, 8], 2).unwrap();
    assert_eq!(at_two.next(), Some(Ok(7)));
}

#[test]
fn positions() {
    let data = debug_info();
    let accessor = CodeItemDebugInfoAccessor::new(&data);
    let expected = vec![
        PositionInfo {
            address: 1,
            line: 11,
            file: SourceFile::This,
            prologue_end: true,
            epilogue_begin: false,
        },
        PositionInfo {
            address: 4,
            line: 9,
            file: SourceFile::This,
            prologue_end: false,
            epilogue_begin: true,
        },
        PositionInfo {
            address: 20,
            line: 10,
            file: SourceFile::Other(9),
            prologue_end: false,
            epilogue_begin: false,
        },
    ];
    assert_eq!(accessor.read_position_info(), Ok(expected.clone()));
    let seen = RefCell::new(Vec::new());
    assert_eq!(accessor.decode_position_info(|p| seen.borrow_mut().push(*p)), Ok(()));
    assert_eq!(*seen.borrow(), expected);
}

#[test]
fn special_opcode_formula() {
    // adjusted = op - 0x0a; address += adjusted / 15; line += -4 + adjusted % 15
    for op in [0x0au8, 0x0b, 0x18, 0x19, 0x80, 0xfe, 0xff] {
        let data = [100, 0, op, 0];
        let accessor = CodeItemDebugInfoAccessor::new(&data);
        let adjusted = (op - 0x0a) as u32;
        assert_eq!(
            accessor.read_position_info(),
            Ok(vec![PositionInfo {
                address: adjusted / 15,
                line: 100 - 4 + adjusted % 15,
                file: SourceFile::This,
                prologue_end: false,
                epilogue_begin: false,
            }])
        );
    }
}

#[test]
fn registers_wrap() {
    // line 0 with the smallest special opcode: 0 - 4 wraps
    let accessor = CodeItemDebugInfoAccessor::new(&[0, 0, 0x0a, 0]);
    assert_eq!(accessor.read_position_info().unwrap()[0].line, u32::MAX - 3);
    // advance pc by u32::MAX twice
    let data = [0, 0, 1, 0xff, 0xff, 0xff, 0xff, 0x0f, 1, 0xff, 0xff, 0xff, 0xff, 0x0f, 0x0e, 0];
    let accessor = CodeItemDebugInfoAccessor::new(&data);
    assert_eq!(accessor.read_position_info().unwrap()[0].address, u32::MAX - 1);
}

#[test]
fn stream_without_end_is_truncated() {
    let accessor = CodeItemDebugInfoAccessor::new(&[1, 0, 0x0e]);
    assert_eq!(
        accessor.read_position_info(),
        Err(DexError::VarIntError(VarIntError::NotEnoughBytes))
    );
    let calls = RefCell::new(0);
    assert_eq!(
        accessor.decode_position_info(|_| *calls.borrow_mut() += 1),
        Err(DexError::VarIntError(VarIntError::NotEnoughBytes))
    );
    assert_eq!(*calls.borrow(), 1);
    let accessor = CodeItemDebugInfoAccessor::new(&[1, 0, code::DBG_START_LOCAL, 1, 2]);
    assert!(accessor.read_position_info().is_err());
    let accessor = CodeItemDebugInfoAccessor::new(&[1, 0, code::DBG_ADVANCE_LINE, 0x80]);
    assert!(accessor.read_position_info().is_err());
    let accessor = CodeItemDebugInfoAccessor::new(&[]);
    assert!(accessor.read_position_info().is_err());
}

#[test]
fn opcode_constants() {
    assert_eq!(code::DBG_FIRST_SPECIAL, 0x0a);
    assert_eq!(code::DBG_LINE_BASE, -4);
    assert_eq!(code::DBG_LINE_RANGE, 15);
    assert_eq!(code::DBG_SET_FILE, 9);
}

#[test]
fn debug_info_of_a_file() {
    let mut bytes = vec![0u8; 112];
    bytes[0..8].copy_from_slice(b"dex\n035\0");
    bytes[36..40].copy_from_slice(&112u32.to_le_bytes());
    bytes[40..44].copy_from_slice(&0x12345678u32.to_le_bytes());
    bytes.extend_from_slice(&debug_info());
    let size = bytes.len() as u32;
    bytes[32..36].copy_from_slice(&size.to_le_bytes());
    let container = InMemoryDexContainer::new(&bytes);
    let dex = DexFile::open(&container, DexLocation::InMemory, VerifyPreset::Off).unwrap();
    let accessor = dex.get_debug_info_accessor(112).unwrap();
    assert_eq!(accessor.read_position_info().unwrap().len(), 3);
    assert!(dex.get_debug_info_accessor_opt(0).unwrap().is_none());
    assert!(dex.get_debug_info_accessor_opt(u32::MAX).unwrap().is_none());
    assert!(dex.get_debug_info_accessor_opt(112).unwrap().is_some());
    assert_eq!(
        dex.get_debug_info_accessor(size).err(),
        Some(DexError::DexIndexError { index: size, max: bytes.len(), item_ty: "debug info offset" })
    );
    assert!(dex.get_debug_info_accessor_opt(size).is_err());
}

#[test]
fn local_events() {
    let data = debug_info();
    let accessor = CodeItemDebugInfoAccessor::new(&data);
    let first = LocalInfo { name_idx: 1, type_idx: 2, sig_idx: u32::MAX };
    let second = LocalInfo { name_idx: 1, type_idx: 2, sig_idx: 3 };
    let expected = vec![
        LocalEvent { change: LocalChange::Start, address: 4, register: 1, local: first },
        LocalEvent { change: LocalChange::Start, address: 4, register: 1, local: second },
        LocalEvent { change: LocalChange::End, address: 4, register: 1, local: second },
        LocalEvent { change: LocalChange::Restart, address: 4, register: 1, local: second },
    ];
    assert_eq!(accessor.read_local_info(4), Ok(expected.clone()));
    let seen = RefCell::new(Vec::new());
    assert_eq!(accessor.decode_local_info(4, |e| seen.borrow_mut().push(*e)), Ok(()));
    assert_eq!(*seen.borrow(), expected);
}

#[test]
fn locals_beyond_the_registers_are_not_tracked() {
    let data = debug_info();
    let accessor = CodeItemDebugInfoAccessor::new(&data);
    let unknown = LocalInfo { name_idx: u32::MAX, type_idx: u32::MAX, sig_idx: u32::MAX };
    let events = accessor.read_local_info(1).unwrap();
    assert_eq!(events.len(), 4);
    assert_eq!(events[0].local, LocalInfo { name_idx: 1, type_idx: 2, sig_idx: u32::MAX });
    assert_eq!(events[2].local, unknown);
    assert_eq!(events[3].local, unknown);
    // an end in a register that never held a local
    let accessor = CodeItemDebugInfoAccessor::new(&[0, 0, 1, 5, code::DBG_END_LOCAL, 0, 0]);
    assert_eq!(
        accessor.read_local_info(2),
        Ok(vec![LocalEvent { change: LocalChange::End, address: 5, register: 0, local: unknown }])
    );
}

#[test]
fn local_events_of_a_cut_off_stream() {
    let accessor = CodeItemDebugInfoAccessor::new(&[0, 0, code::DBG_START_LOCAL_EXTENDED, 1, 2, 3]);
    assert_eq!(
        accessor.read_local_info(8),
        Err(DexError::VarIntError(VarIntError::NotEnoughBytes))
    );
    let calls = RefCell::new(0);
    let accessor = CodeItemDebugInfoAccessor::new(&[0, 0, code::DBG_END_LOCAL, 1]);
    assert_eq!(
        accessor.decode_local_info(8, |_| *calls.borrow_mut() += 1),
        Err(DexError::VarIntError(VarIntError::NotEnoughBytes))
    );
    assert_eq!(*calls.borrow(), 1);
}

#[test]
fn visitor_receives_each_position_in_order() {
    // first line 10, no parameter names, two special opcodes, end
    let bytes = [0x0a, 0x00, 0x0a, 0x2d, 0x00];
    let accessor = CodeItemDebugInfoAccessor::new(&bytes);
    let seen = RefCell::new(Vec::new());
    assert_eq!(
        accessor.decode_position_info(|p| seen.borrow_mut().push((p.address, p.line))),
        Ok(())
    );
    assert_eq!(*seen.borrow(), vec![(0, 6), (2, 7)]);
}
