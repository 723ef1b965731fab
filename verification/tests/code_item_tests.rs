use dexrs::error::{DexError, VarIntError};
use dexrs::file::code_item_accessors::{
    CatchHandlerData, CodeItemAccessor, DexInstructionIterator, EncodedCatchHandlerIterator,
};
use dexrs::file::container::InMemoryDexContainer;
use dexrs::file::structs::{CodeItem, TryItem};
use dexrs::file::verification::VerifyPreset;
use dexrs::file::{DexFile, DexLocation};

/// A file whose body is one code item at 112: `insns` code units, then the
/// try items and the bytes of the handler list.
fn dex_with_code(insns: &[u16], tries: &[TryItem], handlers: &[u8]) -> Vec<u8> {
    let mut bytes = vec![0u8; 112];
    bytes[0..8].copy_from_slice(b"dex\n035\0");
    bytes[36..40].copy_from_slice(&112u32.to_le_bytes());
    bytes[40..44].copy_from_slice(&0x12345678u32.to_le_bytes());
    bytes.extend_from_slice(&3u16.to_le_bytes()); // registers
    bytes.extend_from_slice(&1u16.to_le_bytes()); // ins
    bytes.extend_from_slice(&2u16.to_le_bytes()); // outs
    bytes.extend_from_slice(&(tries.len() as u16).to_le_bytes());
    bytes.extend_from_slice(&0u32.to_le_bytes()); // debug info
    bytes.extend_from_slice(&(insns.len() as u32).to_le_bytes());
    for unit in insns {
        bytes.extend_from_slice(&unit.to_le_bytes());
    }
    if !tries.is_empty() && insns.len() % 2 == 1 {
        bytes.extend_from_slice(&[0, 0]);
    }
    for t in tries {
        bytes.extend_from_slice(&t.start_addr.to_le_bytes());
        bytes.extend_from_slice(&t.insn_count.to_le_bytes());
        bytes.extend_from_slice(&t.handler_off.to_le_bytes());
    }
    bytes.extend_from_slice(handlers);
    let size = bytes.len() as u32;
    bytes[32..36].copy_from_slice(&size.to_le_bytes());
    bytes
}

#[test]
fn accessor_of_a_code_item() {
    let tries = [TryItem { start_addr: 0, insn_count: 2, handler_off: 1 }];
    let bytes = dex_with_code(&[0x3012, 0x000e, 0x0000], &tries, &[0x7f, 0x05, 0x00, 0x07]);
    let container = InMemoryDexContainer::new(&bytes);
    let dex = DexFile::open(&container, DexLocation::InMemory, VerifyPreset::Off).unwrap();
    let item = dex.get_code_item(112).unwrap().unwrap();
    assert_eq!(
        item,
        CodeItem {
            registers_size: 3,
            ins_size: 1,
            outs_size: 2,
            tries_size: 1,
            debug_info_off: 0,
            insns_size: 3
        }
    );
    let ca = dex.get_code_item_accessor(112).unwrap();
    assert_eq!(ca.code_item(), &item);
    assert_eq!(ca.registers_size(), 3);
    assert_eq!(ca.ins_size(), 1);
    assert_eq!(ca.outs_size(), 2);
    assert_eq!(ca.tries_size(), 1);
    assert_eq!(ca.insns_off(), 128);
    assert_eq!(ca.code_item_off(), 112);
    assert_eq!(ca.insns_size_in_code_units(), 3);
    assert_eq!(ca.insns_size_in_bytes(), 6);
    assert_eq!(ca.insns(), &[0x3012, 0x000e, 0x0000]);
    assert!(ca.has_code());
    // 128 + 6 = 134, rounded up to 136
    assert_eq!(ca.get_tries_abs_off(), Some(136));
    assert_eq!(ca.get_tries_off(), Some(8));
    assert_eq!(ca.get_catch_handler_data_off(), Some(16));
    assert_eq!(ca.get_catch_handler_data_abs_off(), Some(144));
    assert_eq!(dex.get_try_item(&ca), Ok(tries.to_vec()));
    assert_eq!(dex.get_try_items_raw(136, 1), Ok(tries.to_vec()));
    assert_eq!(dex.get_insns_raw(128, 2), Ok(vec![0x3012, 0x000e]));
}

#[test]
fn try_table_is_aligned_and_handlers_follow_it() {
    for n in 0..6usize {
        let insns = vec![0x000eu16; n];
        let tries = [
            TryItem { start_addr: 0, insn_count: n as u16, handler_off: 0 },
            TryItem { start_addr: n as u32, insn_count: 0, handler_off: 0 },
        ];
        let bytes = dex_with_code(&insns, &tries, &[0x00, 0x00]);
        let container = InMemoryDexContainer::new(&bytes);
        let dex = DexFile::open(&container, DexLocation::InMemory, VerifyPreset::Off).unwrap();
        let ca = dex.get_code_item_accessor(112).unwrap();
        let tries_at = ca.get_tries_abs_off().unwrap();
        assert_eq!(tries_at % 4, 0);
        assert_eq!(tries_at, (128 + 2 * n + 3) / 4 * 4);
        assert_eq!(ca.get_catch_handler_data_abs_off(), Some(tries_at + 2 * 8));
        assert_eq!(
            ca.get_catch_handler_data_off().unwrap() - ca.get_tries_off().unwrap(),
            16
        );
        assert_eq!(dex.get_try_item(&ca), Ok(tries.to_vec()));
    }
}

#[test]
fn try_items_of_a_well_formed_item_lie_within_the_stream() {
    let tries = [
        TryItem { start_addr: 0, insn_count: 2, handler_off: 1 },
        TryItem { start_addr: 2, insn_count: 1, handler_off: 1 },
    ];
    let bytes = dex_with_code(&[0x3012, 0x000e, 0x000e], &tries, &[0x7f, 0x05, 0x00, 0x07]);
    let container = InMemoryDexContainer::new(&bytes);
    let dex = DexFile::open(&container, DexLocation::InMemory, VerifyPreset::Off).unwrap();
    let ca = dex.get_code_item_accessor(112).unwrap();
    for item in dex.get_try_item(&ca).unwrap() {
        assert!(item.start_addr + item.insn_count as u32 <= ca.insns_size_in_code_units());
    }
    let at = ca.get_catch_handler_data_abs_off().unwrap();
    assert_eq!(
        EncodedCatchHandlerIterator::handlers(&bytes[at..]).unwrap().len(),
        2
    );
}

#[test]
fn try_item_behind_the_stream_is_refused() {
    // one code unit, and a try item that covers the unit at 5
    let tries = [TryItem { start_addr: 5, insn_count: 1, handler_off: 0 }];
    let bytes = dex_with_code(&[0x000e], &tries, &[0x00, 0x00]);
    let container = InMemoryDexContainer::new(&bytes);
    let dex = DexFile::open(&container, DexLocation::InMemory, VerifyPreset::Off).unwrap();
    let ca = dex.get_code_item_accessor(112).unwrap();
    assert_eq!(
        dex.get_try_item(&ca),
        Err(DexError::BadInstructionOffset { opcode: "try item", offset: 6, size: 1 })
    );
    // the table itself is still there to read
    assert_eq!(dex.get_try_items_raw(132, 1), Ok(tries.to_vec()));

    // the first item is fine, the second ends one unit behind the stream
    let tries = [
        TryItem { start_addr: 0, insn_count: 2, handler_off: 0 },
        TryItem { start_addr: 1, insn_count: 2, handler_off: 0 },
        TryItem { start_addr: 9, insn_count: 9, handler_off: 0 },
    ];
    let bytes = dex_with_code(&[0x000e, 0x000e], &tries, &[0x00, 0x00]);
    let container = InMemoryDexContainer::new(&bytes);
    let dex = DexFile::open(&container, DexLocation::InMemory, VerifyPreset::Off).unwrap();
    let ca = dex.get_code_item_accessor(112).unwrap();
    assert_eq!(
        dex.get_try_item(&ca),
        Err(DexError::BadInstructionOffset { opcode: "try item", offset: 3, size: 2 })
    );

    // a range that ends exactly at the end of the stream is within it
    let tries = [TryItem { start_addr: 1, insn_count: 1, handler_off: 0 }];
    let bytes = dex_with_code(&[0x000e, 0x000e], &tries, &[0x00, 0x00]);
    let container = InMemoryDexContainer::new(&bytes);
    let dex = DexFile::open(&container, DexLocation::InMemory, VerifyPreset::Off).unwrap();
    let ca = dex.get_code_item_accessor(112).unwrap();
    assert_eq!(dex.get_try_item(&ca), Ok(tries.to_vec()));
}

#[test]
fn code_item_without_tries() {
    let bytes = dex_with_code(&[0x000e], &[], &[]);
    let container = InMemoryDexContainer::new(&bytes);
    let dex = DexFile::open(&container, DexLocation::InMemory, VerifyPreset::Off).unwrap();
    let ca = dex.get_code_item_accessor(112).unwrap();
    assert_eq!(ca.get_tries_off(), None);
    assert_eq!(ca.get_tries_abs_off(), None);
    assert_eq!(ca.get_catch_handler_data_off(), None);
    assert_eq!(ca.get_catch_handler_data_abs_off(), None);
    assert_eq!(dex.get_try_item(&ca), Ok(vec![]));
}

#[test]
fn code_item_errors() {
    let bytes = dex_with_code(&[0x000e, 0x000e], &[], &[]);
    let container = InMemoryDexContainer::new(&bytes);
    let dex = DexFile::open(&container, DexLocation::InMemory, VerifyPreset::Off).unwrap();
    let len = bytes.len() as u32;
    assert_eq!(
        dex.get_code_item(len),
        Err(DexError::DexIndexError { index: len, max: bytes.len(), item_ty: "code item offset" })
    );
    assert_eq!(dex.get_code_item(0), Ok(None));
    assert!(matches!(dex.get_code_item(len - 3), Err(DexError::DexLayoutError { .. })));
    assert_eq!(
        dex.get_code_item_accessor(len).err(),
        Some(DexError::DexIndexError { index: len, max: bytes.len(), item_ty: "code item offset" })
    );
    assert!(dex.get_code_item_accessor(len - 3).is_err());
    // the count of code units runs past the file
    let mut long = bytes.clone();
    long[124..128].copy_from_slice(&3u32.to_le_bytes());
    let container = InMemoryDexContainer::new(&long);
    let dex = DexFile::open(&container, DexLocation::InMemory, VerifyPreset::Off).unwrap();
    assert!(matches!(dex.get_code_item_accessor(112), Err(DexError::DexLayoutError { .. })));
    assert_eq!(
        dex.get_insns_raw(len, 0).err(),
        Some(DexError::DexIndexError { index: len, max: bytes.len(), item_ty: "code stream offset" })
    );
    assert!(dex.get_try_items_raw(len - 4, 1).is_err());
    assert!(dex.get_try_items_raw(len, 0).is_err());
}

#[test]
fn accessor_without_code() {
    let bytes = dex_with_code(&[], &[], &[]);
    let container = InMemoryDexContainer::new(&bytes);
    let dex = DexFile::open(&container, DexLocation::InMemory, VerifyPreset::Off).unwrap();
    let item = dex.get_code_item(112).unwrap().unwrap();
    let ca = CodeItemAccessor::from_code_item(&dex, item, 0).unwrap();
    assert!(!ca.has_code());
    assert_eq!(ca.insns_size_in_code_units(), 0);
    assert_eq!(ca.insns_off(), 0);
    assert_eq!(ca.code_item_off(), 0xffff_fff0);
    let mut it = ca.instructions();
    assert!(it.next().is_none());
}

#[test]
fn instructions_of_an_accessor() {
    // const/4 v0, #3; move/16 v1, v2; return-void
    let bytes = dex_with_code(&[0x3012, 0x0003, 0x0001, 0x0002, 0x000e], &[], &[]);
    let container = InMemoryDexContainer::new(&bytes);
    let dex = DexFile::open(&container, DexLocation::InMemory, VerifyPreset::Off).unwrap();
    let ca = dex.get_code_item_accessor(112).unwrap();
    let inst = ca.inst_at(1);
    assert_eq!(inst.name(), "move/16");
    assert_eq!(ca.get_inst_offset_in_code_units(&inst), 1);
    assert_eq!(ca.get_inst_offset_in_code_units(&ca.inst_at(4)), 4);
    let mut it = ca.instructions();
    let mut names = Vec::new();
    let mut pcs = Vec::new();
    loop {
        let pc = it.dex_pc();
        match it.next() {
            Some(inst) => {
                names.push(inst.name());
                pcs.push(pc);
            }
            None => break,
        }
    }
    assert_eq!(names, vec!["const/4", "move/16", "return-void"]);
    assert_eq!(pcs, vec![0, 1, 4]);
}

#[test]
fn iterator_on_an_empty_stream() {
    let mut it = DexInstructionIterator::new(&[]);
    assert_eq!(it.dex_pc(), 0);
    assert!(it.next().is_none());
    it.advance();
    assert_eq!(it.dex_pc(), 0);
}

#[test]
fn iterator_steps_over_payloads() {
    // nop, packed-switch payload of three targets, return-void
    let units = [0x0000u16, 0x0100, 3, 0, 0, 1, 0, 2, 0, 3, 0, 0x000e];
    let mut it = DexInstructionIterator::new(&units);
    assert_eq!(it.inst().name(), "nop");
    it.advance();
    assert_eq!(it.dex_pc(), 1);
    assert_eq!(it.inst().size_in_code_units(), 10);
    it.advance();
    assert_eq!(it.dex_pc(), 11);
    assert_eq!(it.inst().name(), "return-void");
    it.advance();
    assert_eq!(it.dex_pc(), 12);
    it.advance();
    assert_eq!(it.dex_pc(), 12);
    assert!(it.next().is_none());
}

#[test]
fn iterator_runs_past_a_cut_off_instruction() {
    // const-wide takes five units; only two are there
    let units = [0x0018u16, 0x0001];
    let mut it = DexInstructionIterator::new(&units);
    let inst = it.next().unwrap();
    assert_eq!(inst.name(), "const-wide");
    assert_eq!(it.dex_pc(), 5);
    assert!(it.next().is_none());
}

#[test]
fn iterating_any_stream_ends() {
    let mut seed = 0x1234_5678u32;
    for _ in 0..200 {
        let mut units = Vec::new();
        for _ in 0..40 {
            seed = seed.wrapping_mul(1664525).wrapping_add(1013904223);
            units.push((seed >> 16) as u16);
        }
        let mut it = DexInstructionIterator::new(&units);
        let mut steps = 0;
        while let Some(inst) = it.next() {
            assert!(inst.size_in_code_units() >= 1);
            match inst.to_string(None) {
                Ok(text) => assert!(!text.is_empty()),
                Err(_) => {}
            }
            steps += 1;
            assert!(steps <= 40);
        }
    }
}

#[test]
fn catch_handlers_with_catch_all() {
    // count -1: one typed handler (type 5, address 0), then the handler
    // that catches everything at address 7
    let data = [0x7f, 0x05, 0x00, 0x07];
    let mut it = EncodedCatchHandlerIterator::new(&data).unwrap();
    assert_eq!(
        it.next(),
        Some(Ok(CatchHandlerData { type_idx: 5, address: 0, is_catch_all: false }))
    );
    assert_eq!(
        it.next(),
        Some(Ok(CatchHandlerData { type_idx: 0xFFFF, address: 7, is_catch_all: true }))
    );
    assert_eq!(it.next(), None);
    assert_eq!(it.next(), None);
    assert_eq!(
        EncodedCatchHandlerIterator::handlers(&data),
        Ok(vec![
            CatchHandlerData { type_idx: 5, address: 0, is_catch_all: false },
            CatchHandlerData { type_idx: u16::MAX, address: 7, is_catch_all: true },
        ])
    );
}

#[test]
fn catch_handlers_bytes_with_continuation_bit_in_the_count() {
    // FF 05 is the signed LEB128 of 767, so the list claims 767 typed
    // handlers and runs out of bytes after two of them.
    let data = [0xff, 0x05, 0x00, 0x06, 0x02, 0x07];
    let mut it = EncodedCatchHandlerIterator::new(&data).unwrap();
    assert_eq!(
        it.next(),
        Some(Ok(CatchHandlerData { type_idx: 0, address: 6, is_catch_all: false }))
    );
    assert_eq!(
        it.next(),
        Some(Ok(CatchHandlerData { type_idx: 2, address: 7, is_catch_all: false }))
    );
    assert_eq!(it.next(), Some(Err(DexError::VarIntError(VarIntError::NotEnoughBytes))));
    assert_eq!(it.next(), None);
    assert_eq!(
        EncodedCatchHandlerIterator::handlers(&data),
        Err(DexError::VarIntError(VarIntError::NotEnoughBytes))
    );
}

#[test]
fn catch_handlers_of_every_count() {
    // count 2: two typed handlers, no catch-all
    let data = [0x02, 0x01, 0x10, 0x82, 0x80, 0x04, 0x20, 0x99];
    assert_eq!(
        EncodedCatchHandlerIterator::handlers(&data),
        Ok(vec![
            CatchHandlerData { type_idx: 1, address: 0x10, is_catch_all: false },
            CatchHandlerData { type_idx: 2, address: 0x20, is_catch_all: false },
        ])
    );
    // count 0: only the catch-all
    assert_eq!(
        EncodedCatchHandlerIterator::handlers(&[0x00, 0x2a]),
        Ok(vec![CatchHandlerData { type_idx: 0xFFFF, address: 42, is_catch_all: true }])
    );
    // count -3
    let data = [0x7d, 1, 1, 2, 2, 3, 3, 9];
    let list = EncodedCatchHandlerIterator::handlers(&data).unwrap();
    assert_eq!(list.len(), 4);
    assert!(list[..3].iter().all(|h| !h.is_catch_all));
    assert_eq!(list[3], CatchHandlerData { type_idx: 0xFFFF, address: 9, is_catch_all: true });
}

#[test]
fn catch_handler_errors() {
    assert_eq!(
        EncodedCatchHandlerIterator::new(&[]).err(),
        Some(DexError::VarIntError(VarIntError::NotEnoughBytes))
    );
    assert_eq!(
        EncodedCatchHandlerIterator::handlers(&[0x7f, 0x05]),
        Err(DexError::VarIntError(VarIntError::NotEnoughBytes))
    );
    assert_eq!(
        EncodedCatchHandlerIterator::handlers(&[0x00]),
        Err(DexError::VarIntError(VarIntError::NotEnoughBytes))
    );
    let mut it = EncodedCatchHandlerIterator::new(&[0x01, 0x05]).unwrap();
    assert_eq!(it.next(), Some(Err(DexError::VarIntError(VarIntError::NotEnoughBytes))));
    assert_eq!(it.next(), None);
    assert_eq!(CatchHandlerData::default(), CatchHandlerData { type_idx: 0, address: 0, is_catch_all: false });
}
