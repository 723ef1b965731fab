use dexrs::error::DexError;
use dexrs::file::container::{DexContainer, InMemoryDexContainer};
use dexrs::file::header::{Header, HeaderV41};
use dexrs::file::structs::{
    CallSiteIdItem, ClassDef, CodeItem, FieldId, MapItem, MapItemType, MethodHandleItem, MethodId,
    ProtoId, StringId, TypeId, TypeItem,
};
use dexrs::file::verification::VerifyPreset;
use dexrs::file::{DexFile, DexLocation, Table};

fn put16(bytes: &mut Vec<u8>, off: usize, value: u16) {
    bytes[off..off + 2].copy_from_slice(&value.to_le_bytes());
}

fn put32(bytes: &mut Vec<u8>, off: usize, value: u32) {
    bytes[off..off + 4].copy_from_slice(&value.to_le_bytes());
}

/// A header of 112 bytes for version 035 in front of `body`, with the file
/// size filled in.
fn dex_with_body(body: &[u8]) -> Vec<u8> {
    let mut bytes = vec![0u8; 112];
    bytes[0..8].copy_from_slice(b"dex\n035\0");
    put32(&mut bytes, 36, 112);
    put32(&mut bytes, 40, 0x12345678);
    bytes.extend_from_slice(body);
    let size = bytes.len() as u32;
    put32(&mut bytes, 32, size);
    bytes
}

fn seal(bytes: &mut Vec<u8>) {
    let sum = adler32::adler32(&bytes[12..]).unwrap();
    put32(bytes, 8, sum);
}

fn minimal_dex() -> Vec<u8> {
    let mut bytes = dex_with_body(&[]);
    seal(&mut bytes);
    bytes
}

/// One string, "Hi": the string id at 112, its data at 116.
fn hi_dex() -> Vec<u8> {
    let mut bytes = dex_with_body(&[116, 0, 0, 0, 0x02, 0x48, 0x69, 0x00]);
    put32(&mut bytes, 56, 1);
    put32(&mut bytes, 60, 112);
    put32(&mut bytes, 104, 4);
    put32(&mut bytes, 108, 116);
    seal(&mut bytes);
    bytes
}

/// Strings "I", "LFoo;", "bar", "V", "main" with type, proto, field, method
/// and class tables that refer to them.
fn rich_dex() -> Vec<u8> {
    let mut body: Vec<u8> = Vec::new();
    let base = 112u32;
    // string ids: 5 entries at 112
    let string_ids_off = base;
    let type_ids_off = string_ids_off + 5 * 4;
    let proto_ids_off = type_ids_off + 3 * 4;
    let field_ids_off = proto_ids_off + 12;
    let method_ids_off = field_ids_off + 8;
    let class_defs_off = method_ids_off + 8;
    let data_off = class_defs_off + 32;
    let strings: [&[u8]; 5] = [b"\x01I\0", b"\x05LFoo;\0", b"\x03bar\0", b"\x01V\0", b"\x04main\0"];
    let mut string_offs = Vec::new();
    let mut cursor = data_off;
    for s in strings {
        string_offs.push(cursor);
        cursor += s.len() as u32;
    }
    let type_list_off = (cursor + 3) / 4 * 4;
    for off in &string_offs {
        body.extend_from_slice(&off.to_le_bytes());
    }
    // type ids: I, LFoo;, V
    for idx in [0u32, 1, 3] {
        body.extend_from_slice(&idx.to_le_bytes());
    }
    // proto id: shorty "V" (string 3), return type V (type 2), parameters
    body.extend_from_slice(&3u32.to_le_bytes());
    body.extend_from_slice(&2u16.to_le_bytes());
    body.extend_from_slice(&0u16.to_le_bytes());
    body.extend_from_slice(&type_list_off.to_le_bytes());
    // field id: class LFoo; (1), type I (0), name bar (2)
    body.extend_from_slice(&1u16.to_le_bytes());
    body.extend_from_slice(&0u16.to_le_bytes());
    body.extend_from_slice(&2u32.to_le_bytes());
    // method id: class LFoo; (1), proto 0, name main (4)
    body.extend_from_slice(&1u16.to_le_bytes());
    body.extend_from_slice(&0u16.to_le_bytes());
    body.extend_from_slice(&4u32.to_le_bytes());
    // class def
    body.extend_from_slice(&1u16.to_le_bytes());
    body.extend_from_slice(&0u16.to_le_bytes());
    body.extend_from_slice(&1u32.to_le_bytes()); // access flags
    body.extend_from_slice(&0xffffu16.to_le_bytes());
    body.extend_from_slice(&0u16.to_le_bytes());
    body.extend_from_slice(&type_list_off.to_le_bytes()); // interfaces
    body.extend_from_slice(&0xffff_ffffu32.to_le_bytes()); // source file
    body.extend_from_slice(&0u32.to_le_bytes());
    body.extend_from_slice(&0u32.to_le_bytes());
    body.extend_from_slice(&0u32.to_le_bytes());
    for s in strings {
        body.extend_from_slice(s);
    }
    while (112 + body.len()) as u32 != type_list_off {
        body.push(0);
    }
    // type list: I, I
    body.extend_from_slice(&2u32.to_le_bytes());
    body.extend_from_slice(&0u16.to_le_bytes());
    body.extend_from_slice(&0u16.to_le_bytes());
    let mut bytes = dex_with_body(&body);
    put32(&mut bytes, 56, 5);
    put32(&mut bytes, 60, string_ids_off);
    put32(&mut bytes, 64, 3);
    put32(&mut bytes, 68, type_ids_off);
    put32(&mut bytes, 72, 1);
    put32(&mut bytes, 76, proto_ids_off);
    put32(&mut bytes, 80, 1);
    put32(&mut bytes, 84, field_ids_off);
    put32(&mut bytes, 88, 1);
    put32(&mut bytes, 92, method_ids_off);
    put32(&mut bytes, 96, 1);
    put32(&mut bytes, 100, class_defs_off);
    let data_size = bytes.len() as u32 - data_off;
    put32(&mut bytes, 104, data_size);
    put32(&mut bytes, 108, data_off);
    seal(&mut bytes);
    bytes
}

fn open_all(bytes: &[u8]) -> Result<(), DexError> {
    let container = InMemoryDexContainer::new(bytes);
    DexFile::open(&container, DexLocation::InMemory, VerifyPreset::All).map(|_| ())
}

#[test]
fn minimal_dex_opens_and_verifies() {
    let bytes = minimal_dex();
    assert_eq!(bytes.len(), 112);
    assert_eq!(&bytes[0..8], &[0x64, 0x65, 0x78, 0x0a, 0x30, 0x33, 0x35, 0x00]);
    assert_eq!(&bytes[40..44], &[0x78, 0x56, 0x34, 0x12]);
    let container = InMemoryDexContainer::new(&bytes);
    let dex = DexFile::open(&container, DexLocation::InMemory, VerifyPreset::Off).unwrap();
    assert_eq!(dex.num_string_ids(), 0);
    assert_eq!(dex.num_type_ids(), 0);
    assert_eq!(dex.num_class_defs(), 0);
    assert_eq!(DexFile::verify(&dex, VerifyPreset::All), Ok(()));
    assert_eq!(dex.file_size(), 112);
    assert!(open_all(&bytes).is_ok());
}

#[test]
fn container_hands_out_its_bytes() {
    let bytes = minimal_dex();
    let container = InMemoryDexContainer::new(&bytes);
    assert_eq!(container.data(), &bytes[..]);
    assert_eq!(container.file_size(), 112);
}

#[test]
fn vectors_and_slices_are_containers() {
    let bytes = hi_dex();
    assert_eq!(DexContainer::data(&bytes), &bytes[..]);
    assert_eq!(DexContainer::file_size(&bytes), 120);
    let dex = DexFile::open(&bytes, DexLocation::InMemory, VerifyPreset::All).unwrap();
    assert_eq!(dex.get_utf16_str_at(0), Ok("Hi".to_string()));
    let slice: &[u8] = &bytes;
    assert_eq!(DexContainer::file_size(&slice), 120);
    let dex = DexFile::open(&slice, DexLocation::InMemory, VerifyPreset::All).unwrap();
    assert_eq!(dex.num_string_ids(), 1);
}

#[test]
fn one_string_hi() {
    let bytes = hi_dex();
    let container = InMemoryDexContainer::new(&bytes);
    let dex = DexFile::open(&container, DexLocation::InMemory, VerifyPreset::All).unwrap();
    assert_eq!(dex.num_string_ids(), 1);
    let id = dex.get_string_id(0).unwrap();
    assert_eq!(id, StringId { string_data_off: 116 });
    assert_eq!(id.offset(), 116);
    let (utf16_len, data) = dex.get_string_data(&id).unwrap();
    assert_eq!(utf16_len, 2);
    assert_eq!(data, &[0x48, 0x69, 0x00]);
    assert_eq!(dex.get_utf16_str(&id), Ok("Hi".to_string()));
    assert_eq!(dex.get_utf16_str_at(0), Ok("Hi".to_string()));
    assert_eq!(dex.get_utf16_str_lossy(&id), Ok("Hi".to_string()));
    assert_eq!(dex.get_utf16_str_lossy_at(0), Ok("Hi".to_string()));
    assert_eq!(dex.get_utf16_str_opt_at(0), Ok(Some("Hi".to_string())));
    assert_eq!(dex.get_utf16_str_opt_at(u32::MAX), Ok(None));
    assert_eq!(dex.get_string_ids(), vec![StringId { string_data_off: 116 }]);
}

#[test]
fn index_beyond_table_is_an_error() {
    let bytes = hi_dex();
    let container = InMemoryDexContainer::new(&bytes);
    let dex = DexFile::open(&container, DexLocation::InMemory, VerifyPreset::Off).unwrap();
    assert_eq!(
        dex.get_string_id(1),
        Err(DexError::DexIndexError { index: 1, max: 1, item_ty: "StringId" })
    );
    assert_eq!(
        dex.get_type_id(0),
        Err(DexError::DexIndexError { index: 0, max: 0, item_ty: "TypeId" })
    );
    assert_eq!(
        dex.get_utf16_str_at(7),
        Err(DexError::DexIndexError { index: 7, max: 1, item_ty: "StringId" })
    );
    assert_eq!(
        dex.get_method_handle(0),
        Err(DexError::DexIndexError { index: 0, max: 0, item_ty: "MethodHandleItem" })
    );
    assert_eq!(
        dex.get_call_site_id(3),
        Err(DexError::DexIndexError { index: 3, max: 0, item_ty: "CallSiteIdItem" })
    );
}

#[test]
fn every_index_below_the_count_reads() {
    let bytes = rich_dex();
    let container = InMemoryDexContainer::new(&bytes);
    let dex = DexFile::open(&container, DexLocation::InMemory, VerifyPreset::All).unwrap();
    for i in 0..dex.num_string_ids() {
        assert!(dex.get_string_id(i).is_ok());
    }
    for i in 0..dex.num_type_ids() {
        assert!(dex.get_type_id(i as u16).is_ok());
    }
    for i in 0..dex.num_proto_ids() {
        assert!(dex.get_proto_id(i as u16).is_ok());
    }
    for i in 0..dex.num_field_ids() {
        assert!(dex.get_field_id(i).is_ok());
    }
    for i in 0..dex.num_method_ids() {
        assert!(dex.get_method_id(i).is_ok());
    }
    for i in 0..dex.num_class_defs() {
        assert!(dex.get_class_def(i).is_ok());
    }
    assert_eq!(dex.num_string_ids(), 5);
    assert_eq!(dex.num_type_ids(), 3);
}

#[test]
fn table_that_does_not_fit_is_empty() {
    let mut bytes = hi_dex();
    put32(&mut bytes, 56, 3);
    let container = InMemoryDexContainer::new(&bytes);
    let dex = DexFile::open(&container, DexLocation::InMemory, VerifyPreset::Off).unwrap();
    assert_eq!(dex.num_string_ids(), 0);
    assert!(dex.get_string_id(0).is_err());
    assert!(dex.get_string_ids().is_empty());
}

#[test]
fn get_section_locates_tables() {
    let bytes = hi_dex();
    assert_eq!(DexFile::get_section::<StringId>(&bytes, 112, 1), Table { offset: 112, size: 1 });
    assert_eq!(DexFile::get_section::<StringId>(&bytes, 112, 2), Table { offset: 112, size: 2 });
    assert_eq!(DexFile::get_section::<StringId>(&bytes, 112, 3), Table { offset: 0, size: 0 });
    assert_eq!(DexFile::get_section::<StringId>(&bytes, 112, 0), Table { offset: 0, size: 0 });
    assert_eq!(DexFile::get_section::<ClassDef>(&bytes, 0, 4), Table { offset: 0, size: 0 });
    assert_eq!(
        DexFile::get_section::<StringId>(&bytes, u32::MAX, u32::MAX),
        Table { offset: 0, size: 0 }
    );
}

#[test]
fn records_of_the_id_tables() {
    let bytes = rich_dex();
    let container = InMemoryDexContainer::new(&bytes);
    let dex = DexFile::open(&container, DexLocation::InMemory, VerifyPreset::All).unwrap();
    assert_eq!(dex.get_type_id(1), Ok(TypeId { descriptor_idx: 1 }));
    assert_eq!(dex.get_type_ids().len(), 3);
    let proto = dex.get_proto_id(0).unwrap();
    assert_eq!(proto.shorty_idx, 3);
    assert_eq!(proto.return_type_idx, 2);
    assert_eq!(dex.get_proto_ids(), vec![proto]);
    assert_eq!(dex.get_field_id(0), Ok(FieldId { class_idx: 1, type_idx: 0, name_idx: 2 }));
    assert_eq!(dex.get_field_ids().len(), 1);
    assert_eq!(dex.get_method_id(0), Ok(MethodId { class_idx: 1, proto_idx: 0, name_idx: 4 }));
    assert_eq!(dex.get_method_ids().len(), 1);
    let class = dex.get_class_def(0).unwrap();
    assert_eq!(class.class_idx, 1);
    assert_eq!(class.access_flags, 1);
    assert_eq!(class.superclass_idx, 0xffff);
    assert_eq!(class.source_file_idx, 0xffff_ffff);
    assert_eq!(dex.get_class_defs(), vec![class]);
    assert_eq!(dex.get_type_id_opt(u16::MAX), Ok(None));
    assert_eq!(dex.get_type_id_opt(0), Ok(Some(TypeId { descriptor_idx: 0 })));
    assert_eq!(dex.get_string_id_opt(u32::MAX), Ok(None));
    assert!(dex.get_string_id_opt(99).is_err());
    assert_eq!(dex.get_proto_id_opt(u16::MAX), Ok(None));
    assert_eq!(dex.get_field_id_opt(u32::MAX), Ok(None));
    assert_eq!(dex.get_method_id_opt(u32::MAX), Ok(None));
    assert_eq!(dex.get_class_def_opt(u32::MAX), Ok(None));
    assert_eq!(dex.get_class_def_opt(0), Ok(Some(class)));
}

#[test]
fn names_and_descriptors() {
    let bytes = rich_dex();
    let container = InMemoryDexContainer::new(&bytes);
    let dex = DexFile::open(&container, DexLocation::InMemory, VerifyPreset::All).unwrap();
    let class = dex.get_class_def(0).unwrap();
    assert_eq!(dex.get_class_desc_utf16(&class), Ok("LFoo;".to_string()));
    assert_eq!(dex.get_class_desc_utf16_lossy(&class), Ok("LFoo;".to_string()));
    assert_eq!(dex.get_type_desc_utf16_at(0), Ok("I".to_string()));
    assert_eq!(dex.get_type_desc_utf16_lossy_at(2), Ok("V".to_string()));
    let type_id = dex.get_type_id(1).unwrap();
    assert_eq!(dex.get_type_desc_utf16(&type_id), Ok("LFoo;".to_string()));
    assert_eq!(dex.get_type_desc_utf16_lossy(&type_id), Ok("LFoo;".to_string()));
    let field = dex.get_field_id(0).unwrap();
    assert_eq!(dex.get_field_name(&field), Ok("bar".to_string()));
    assert_eq!(dex.get_field_name_at(0), Ok("bar".to_string()));
    assert!(dex.get_field_name_at(1).is_err());
    let proto = dex.get_proto_id(0).unwrap();
    assert_eq!(dex.get_shorty(&proto), Ok("V".to_string()));
    assert_eq!(dex.get_shorty_lossy(&proto), Ok("V".to_string()));
    assert_eq!(dex.get_shorty_at(0), Ok("V".to_string()));
    assert_eq!(dex.get_shorty_lossy_at(0), Ok("V".to_string()));
    assert!(dex.get_shorty_at(1).is_err());
    assert!(dex.get_type_desc_utf16_at(3).is_err());
}

#[test]
fn type_lists() {
    let bytes = rich_dex();
    let container = InMemoryDexContainer::new(&bytes);
    let dex = DexFile::open(&container, DexLocation::InMemory, VerifyPreset::All).unwrap();
    let proto = dex.get_proto_id(0).unwrap();
    assert_eq!(
        dex.get_type_list(proto.parameters_off),
        Ok(Some(vec![TypeItem { type_idx: 0 }, TypeItem { type_idx: 0 }]))
    );
    assert_eq!(dex.get_type_list(0), Ok(None));
    let len = bytes.len() as u32;
    assert_eq!(
        dex.get_type_list(len),
        Err(DexError::DexIndexError { index: len, max: bytes.len(), item_ty: "TypeList" })
    );
    assert!(matches!(dex.get_type_list(len - 2), Err(DexError::DexLayoutError { .. })));
    let class = dex.get_class_def(0).unwrap();
    assert_eq!(dex.get_interfaces_list(&class).unwrap().unwrap().len(), 2);
}

#[test]
fn record_readers() {
    let bytes = hi_dex();
    let container = InMemoryDexContainer::new(&bytes);
    let dex = DexFile::open(&container, DexLocation::Path("x.dex".to_string()), VerifyPreset::Off)
        .unwrap();
    assert_eq!(dex.data_ptr::<StringId>(0), Ok(None));
    assert_eq!(dex.data_ptr::<StringId>(112), Ok(Some(StringId { string_data_off: 116 })));
    assert_eq!(dex.non_null_data_ptr::<u32>(116), Ok(0x00694802));
    assert_eq!(dex.non_null_data_ptr::<u16>(118), Ok(0x0069));
    assert_eq!(
        dex.non_null_data_ptr::<u32>(117),
        Err(DexError::DexLayoutError {
            location: "x.dex".to_string(),
            offset: 117,
            item_ty: "u32",
            array_len: 0,
            file_size: 120
        })
    );
    assert_eq!(
        dex.non_null_data_ptr::<CodeItem>(110),
        Err(DexError::DexLayoutError {
            location: "x.dex".to_string(),
            offset: 110,
            item_ty: "dexrs::file::structs::CodeItem",
            array_len: 0,
            file_size: 120
        })
    );
    assert_eq!(dex.array_data_ptr::<u16>(0, 5), Ok(None));
    assert_eq!(dex.array_data_ptr::<u16>(116, 2), Ok(Some(vec![0x4802, 0x0069])));
    assert_eq!(dex.non_null_array_data_ptr::<u16>(116, 0), Ok(vec![]));
    assert_eq!(
        dex.non_null_array_data_ptr::<u16>(116, 3),
        Err(DexError::DexLayoutError {
            location: "x.dex".to_string(),
            offset: 116,
            item_ty: "u16",
            array_len: 3,
            file_size: 120
        })
    );
    assert!(dex.non_null_array_data_ptr::<u32>(116, usize::MAX).is_err());
    assert!(dex.non_null_data_ptr::<u32>(u32::MAX).is_err());
}

#[test]
fn string_data_errors() {
    // the data offset lies beyond the file
    let mut bytes = hi_dex();
    put32(&mut bytes, 112, 500);
    let container = InMemoryDexContainer::new(&bytes);
    let dex = DexFile::open(&container, DexLocation::InMemory, VerifyPreset::Off).unwrap();
    let id = dex.get_string_id(0).unwrap();
    assert_eq!(
        dex.get_string_data(&id).err(),
        Some(DexError::DexIndexError { index: 500, max: 120, item_ty: "string-id" })
    );
    // the LEB128 length is cut off
    let mut bytes = hi_dex();
    put32(&mut bytes, 112, 119);
    bytes[119] = 0x80;
    let container = InMemoryDexContainer::new(&bytes);
    let dex = DexFile::open(&container, DexLocation::InMemory, VerifyPreset::Off).unwrap();
    let id = dex.get_string_id(0).unwrap();
    assert_eq!(
        dex.get_string_data(&id).err(),
        Some(DexError::BadStringData {
            offset: 119,
            kind: dexrs::error::VarIntError::NotEnoughBytes
        })
    );
    assert!(dex.get_utf16_str_lossy(&id).is_err());
    // the length is the last byte of the file: no NUL can follow it
    let mut bytes = hi_dex();
    put32(&mut bytes, 112, 119);
    bytes[119] = 0x01;
    let container = InMemoryDexContainer::new(&bytes);
    let dex = DexFile::open(&container, DexLocation::InMemory, VerifyPreset::Off).unwrap();
    let id = dex.get_string_id(0).unwrap();
    assert_eq!(
        dex.get_string_data(&id).err(),
        Some(DexError::BadStringDataMissingNullByte(120))
    );
    // no NUL before the end of the file
    let mut bytes = hi_dex();
    bytes[119] = 0x21;
    let container = InMemoryDexContainer::new(&bytes);
    let dex = DexFile::open(&container, DexLocation::InMemory, VerifyPreset::Off).unwrap();
    let id = dex.get_string_id(0).unwrap();
    assert_eq!(
        dex.get_string_data(&id).err(),
        Some(DexError::BadStringDataMissingNullByte(117))
    );
}

#[test]
fn strict_and_lossy_strings_differ_on_bad_bytes() {
    let mut bytes = hi_dex();
    bytes[117] = 0x80;
    let container = InMemoryDexContainer::new(&bytes);
    let dex = DexFile::open(&container, DexLocation::InMemory, VerifyPreset::Off).unwrap();
    assert_eq!(
        dex.get_utf16_str_at(0),
        Err(DexError::MalformedMUTF8Sequence { idx: 0, len: 2 })
    );
    assert_eq!(dex.get_utf16_str_lossy_at(0), Ok("\u{FFFD}i".to_string()));
    // a lone surrogate: well formed bytes, no string
    let mut bytes = dex_with_body(&[116, 0, 0, 0, 0x01, 0xED, 0xA0, 0xBD, 0x00]);
    put32(&mut bytes, 56, 1);
    put32(&mut bytes, 60, 112);
    let container = InMemoryDexContainer::new(&bytes);
    let dex = DexFile::open(&container, DexLocation::InMemory, VerifyPreset::Off).unwrap();
    assert_eq!(dex.get_utf16_str_at(0), Err(DexError::Mutf8DecodeError));
    assert_eq!(dex.get_utf16_str_lossy_at(0), Ok("\u{FFFD}".to_string()));
}

#[test]
fn truncated_file_does_not_open() {
    let bytes = minimal_dex();
    for len in [0usize, 1, 111] {
        let container = InMemoryDexContainer::new(&bytes[..len]);
        assert_eq!(
            DexFile::open(&container, DexLocation::InMemory, VerifyPreset::Off).err(),
            Some(DexError::TruncatedFile)
        );
        assert_eq!(
            DexFile::from_raw_parts(&container, DexLocation::InMemory).err(),
            Some(DexError::TruncatedFile)
        );
    }
}

#[test]
fn from_raw_parts_checks_nothing_else() {
    let bytes = vec![0xffu8; 200];
    let container = InMemoryDexContainer::new(&bytes);
    let dex = DexFile::from_raw_parts(&container, DexLocation::InMemory).unwrap();
    assert_eq!(dex.num_string_ids(), 0);
    assert_eq!(dex.num_method_handles(), 0);
    assert!(!dex.is_magic_valid());
    assert!(!dex.is_version_valid());
    assert_eq!(dex.expected_header_size(), 0);
    assert_eq!(dex.get_header().file_size, 0xffff_ffff);
}

#[test]
fn opening_complaints() {
    let mut bytes = minimal_dex();
    bytes[0] = b'x';
    let container = InMemoryDexContainer::new(&bytes);
    assert_eq!(
        DexFile::open(&container, DexLocation::InMemory, VerifyPreset::All).err(),
        Some(DexError::DexFileError(
            "Unrecognized magic number in InMemory: [120, 101, 120, 10]".to_string()
        ))
    );
    let mut bytes = minimal_dex();
    bytes[6] = b'6';
    let container = InMemoryDexContainer::new(&bytes);
    assert_eq!(
        DexFile::open(&container, DexLocation::Path("a/b.dex".to_string()), VerifyPreset::Off)
            .err(),
        Some(DexError::DexFileError(
            "Unrecognized dex version in Path(\"a/b.dex\"): [48, 51, 54, 0]".to_string()
        ))
    );
    let mut bytes = minimal_dex();
    put32(&mut bytes, 36, 113);
    let container = InMemoryDexContainer::new(&bytes);
    assert_eq!(
        DexFile::open(&container, DexLocation::InMemory, VerifyPreset::Off).err(),
        Some(DexError::DexFileError(
            "Unable to open InMemory: Header size is 112 but 113 was expected".to_string()
        ))
    );
    let mut bytes = minimal_dex();
    put32(&mut bytes, 32, 113);
    let container = InMemoryDexContainer::new(&bytes);
    assert_eq!(
        DexFile::open(&container, DexLocation::InMemory, VerifyPreset::Off).err(),
        Some(DexError::DexFileError(
            "Unable to open InMemory: File size is 112 but the header expects 113".to_string()
        ))
    );
}

#[test]
fn open_without_verification_tolerates_a_bad_header() {
    let mut bytes = minimal_dex();
    put32(&mut bytes, 40, 0x78563412);
    put32(&mut bytes, 8, 0);
    put32(&mut bytes, 60, 5);
    let container = InMemoryDexContainer::new(&bytes);
    assert!(DexFile::open(&container, DexLocation::InMemory, VerifyPreset::Off).is_ok());
    assert_eq!(open_all(&bytes).err(), Some(DexError::UnexpectedEndianess(0x78563412)));
}

fn verify_all(bytes: &[u8]) -> Result<(), DexError> {
    let container = InMemoryDexContainer::new(bytes);
    let dex = DexFile::from_raw_parts(&container, DexLocation::InMemory).unwrap();
    DexFile::verify(&dex, VerifyPreset::All)
}

fn verify_header_only(bytes: &[u8]) -> Result<(), DexError> {
    let container = InMemoryDexContainer::new(bytes);
    let dex = DexFile::from_raw_parts(&container, DexLocation::InMemory).unwrap();
    DexFile::verify(&dex, VerifyPreset::Off)
}

#[test]
fn verify_magic_and_version() {
    let mut bytes = minimal_dex();
    bytes[3] = 0;
    assert_eq!(verify_all(&bytes), Err(DexError::BadFileMagic));
    let mut bytes = minimal_dex();
    bytes[6] = b'6';
    assert_eq!(verify_all(&bytes), Err(DexError::UnknownDexVersion { version: 36 }));
    let mut bytes = minimal_dex();
    bytes[6] = b'x';
    assert_eq!(verify_all(&bytes), Err(DexError::UnknownDexVersion { version: 0 }));
    let mut bytes = minimal_dex();
    bytes[7] = 1;
    assert_eq!(verify_all(&bytes), Err(DexError::UnknownDexVersion { version: 35 }));
    for version in [b"035", b"037", b"038", b"039", b"040"] {
        let mut bytes = minimal_dex();
        bytes[4..7].copy_from_slice(version);
        seal(&mut bytes);
        assert_eq!(verify_all(&bytes), Ok(()));
    }
}

#[test]
fn verify_sizes() {
    let mut bytes = minimal_dex();
    put32(&mut bytes, 32, 111);
    assert_eq!(verify_all(&bytes), Err(DexError::FileSizeAtLeast { actual: 111, expected: 112 }));
    let mut bytes = minimal_dex();
    put32(&mut bytes, 32, 113);
    assert_eq!(verify_all(&bytes), Err(DexError::FileSizeAtMost { actual: 113, expected: 112 }));
    let mut bytes = minimal_dex();
    put32(&mut bytes, 36, 120);
    assert_eq!(verify_all(&bytes), Err(DexError::BadHeaderSize { size: 120, expected: 112 }));
    let mut bytes = minimal_dex();
    put32(&mut bytes, 40, 0x78563412);
    assert_eq!(verify_all(&bytes), Err(DexError::UnexpectedEndianess(0x78563412)));
}

#[test]
fn verify_version_41_header() {
    let mut bytes = vec![0u8; 120];
    bytes[0..8].copy_from_slice(b"dex\n041\0");
    put32(&mut bytes, 32, 120);
    put32(&mut bytes, 36, 120);
    put32(&mut bytes, 40, 0x12345678);
    seal(&mut bytes);
    assert_eq!(verify_all(&bytes), Ok(()));
    assert!(open_all(&bytes).is_ok());
    let container = InMemoryDexContainer::new(&bytes);
    let dex = DexFile::from_raw_parts(&container, DexLocation::InMemory).unwrap();
    assert_eq!(dex.expected_header_size(), 120);
    assert_eq!(dex.get_header().get_version(), 41);
    put32(&mut bytes, 36, 112);
    seal(&mut bytes);
    assert_eq!(verify_all(&bytes), Err(DexError::BadHeaderSize { size: 112, expected: 120 }));
    let mut short = bytes[..112].to_vec();
    put32(&mut short, 32, 112);
    assert_eq!(verify_all(&short), Err(DexError::FileSizeAtLeast { actual: 112, expected: 120 }));
}

#[test]
fn verify_checksum() {
    let mut bytes = hi_dex();
    let good = u32::from_le_bytes([bytes[8], bytes[9], bytes[10], bytes[11]]);
    bytes[117] ^= 1;
    let actual = adler32::adler32(&bytes[12..]).unwrap();
    assert_eq!(verify_all(&bytes), Err(DexError::BadChecksum { actual, expected: good }));
    let container = InMemoryDexContainer::new(&bytes);
    let dex = DexFile::from_raw_parts(&container, DexLocation::InMemory).unwrap();
    assert_eq!(DexFile::verify(&dex, VerifyPreset::ChecksumOnly).is_err(), true);
    assert_eq!(verify_header_only(&bytes), Ok(()));
    assert_eq!(dex.calculate_checksum(), actual);
}

#[test]
fn checksum_is_adler32_of_the_file_behind_it() {
    // Adler-32 of "Wikipedia" is 0x11E60398.
    let mut bytes = dex_with_body(b"");
    bytes.truncate(12);
    bytes.extend_from_slice(b"Wikipedia");
    bytes.resize(112, 0);
    let mut with_text = bytes[..12].to_vec();
    with_text.extend_from_slice(b"Wikipedia");
    // A container that holds more than the file: the checksum stops at the
    // size that the header states.
    let mut bytes = minimal_dex();
    let sum = u32::from_le_bytes([bytes[8], bytes[9], bytes[10], bytes[11]]);
    bytes.extend_from_slice(&[1, 2, 3]);
    let container = InMemoryDexContainer::new(&bytes);
    let dex = DexFile::from_raw_parts(&container, DexLocation::InMemory).unwrap();
    assert_eq!(dex.calculate_checksum(), sum);
    assert_eq!(DexFile::verify(&dex, VerifyPreset::All), Ok(()));
    assert_eq!(adler32::adler32(&b"Wikipedia"[..]).unwrap(), 0x11E60398);
    assert_eq!(with_text.len(), 21);
}

#[test]
fn verify_sections() {
    let mut bytes = hi_dex();
    put32(&mut bytes, 56, 0);
    assert_eq!(
        verify_header_only(&bytes),
        Err(DexError::BadOffsetNoSize { offset: 112, section: "string-ids" })
    );
    let mut bytes = hi_dex();
    put32(&mut bytes, 60, 100);
    assert_eq!(
        verify_header_only(&bytes),
        Err(DexError::BadOffsetInHeader { offset: 100, header_size: 112, section: "string-ids" })
    );
    let mut bytes = hi_dex();
    put32(&mut bytes, 60, 0);
    assert_eq!(
        verify_header_only(&bytes),
        Err(DexError::BadOffsetInHeader { offset: 0, header_size: 112, section: "string-ids" })
    );
    let mut bytes = hi_dex();
    put32(&mut bytes, 60, 121);
    assert_eq!(
        verify_header_only(&bytes),
        Err(DexError::BadOffsetTooLarge { offset: 121, size: 120, section: "string-ids" })
    );
    let mut bytes = hi_dex();
    put32(&mut bytes, 56, 3);
    assert_eq!(
        verify_header_only(&bytes),
        Err(DexError::BadSection { offset: 124, size: 120, section: "string-ids" })
    );
    let mut bytes = hi_dex();
    put32(&mut bytes, 104, 5);
    assert_eq!(
        verify_header_only(&bytes),
        Err(DexError::BadSection { offset: 121, size: 120, section: "data" })
    );
    let mut bytes = hi_dex();
    put32(&mut bytes, 44, 1);
    assert_eq!(
        verify_header_only(&bytes),
        Err(DexError::BadOffsetInHeader { offset: 0, header_size: 112, section: "link" })
    );
    let mut bytes = hi_dex();
    put32(&mut bytes, 52, 118);
    assert_eq!(
        verify_header_only(&bytes),
        Err(DexError::BadSection { offset: 122, size: 120, section: "map" })
    );
    let mut bytes = hi_dex();
    put32(&mut bytes, 96, 0x0800_0000);
    put32(&mut bytes, 100, 116);
    assert_eq!(
        verify_header_only(&bytes),
        Err(DexError::BadSection { offset: u32::MAX, size: 120, section: "class-defs" })
    );
    for (size_off, label) in
        [(64usize, "type-ids"), (72, "proto-ids"), (80, "field-ids"), (88, "method-ids")]
    {
        let mut bytes = hi_dex();
        put32(&mut bytes, size_off + 4, 127);
        assert_eq!(
            verify_header_only(&bytes),
            Err(DexError::BadOffsetNoSize { offset: 127, section: label })
        );
    }
}

#[test]
fn verification_agrees_with_open() {
    let good = rich_dex();
    assert!(open_all(&good).is_ok());
    for at in [0usize, 5, 9, 33, 37, 41, 57, 61, 69, 97, 105, 130] {
        let mut bytes = good.clone();
        bytes[at] ^= 0x40;
        assert!(open_all(&bytes).is_err(), "byte {}", at);
    }
}

/// The "Hi" file with a map list behind it that names two method handles,
/// one call site id and a hidden-API section.
fn mapped_dex() -> Vec<u8> {
    let mut body: Vec<u8> = vec![116, 0, 0, 0, 0x02, 0x48, 0x69, 0x00];
    // method handles at 120: two entries of eight bytes
    for (kind, target) in [(1u16, 7u16), (4, 9)] {
        body.extend_from_slice(&kind.to_le_bytes());
        body.extend_from_slice(&0u16.to_le_bytes());
        body.extend_from_slice(&target.to_le_bytes());
        body.extend_from_slice(&0u16.to_le_bytes());
    }
    // call site id at 136
    body.extend_from_slice(&0x1234u32.to_le_bytes());
    // hidden-API section at 140: size 16, two offsets, four flag bytes
    body.extend_from_slice(&16u32.to_le_bytes());
    body.extend_from_slice(&0u32.to_le_bytes());
    body.extend_from_slice(&12u32.to_le_bytes());
    body.extend_from_slice(&[0xaa, 0xbb, 0xcc, 0xdd]);
    // map list at 156
    let map_off = 112 + body.len() as u32;
    let entries: [(u16, u32, u32); 4] =
        [(0x0008, 2, 120), (0x0007, 1, 136), (0xF000, 1, 140), (0x1000, 1, map_off)];
    body.extend_from_slice(&(entries.len() as u32).to_le_bytes());
    for (kind, size, off) in entries {
        body.extend_from_slice(&kind.to_le_bytes());
        body.extend_from_slice(&0u16.to_le_bytes());
        body.extend_from_slice(&size.to_le_bytes());
        body.extend_from_slice(&off.to_le_bytes());
    }
    let mut bytes = dex_with_body(&body);
    put32(&mut bytes, 52, map_off);
    put32(&mut bytes, 56, 1);
    put32(&mut bytes, 60, 112);
    let data_size = bytes.len() as u32 - 116;
    put32(&mut bytes, 104, data_size);
    put32(&mut bytes, 108, 116);
    seal(&mut bytes);
    bytes
}

#[test]
fn sections_from_the_map_list() {
    let bytes = mapped_dex();
    let container = InMemoryDexContainer::new(&bytes);
    let dex = DexFile::open(&container, DexLocation::InMemory, VerifyPreset::All).unwrap();
    assert_eq!(dex.num_method_handles(), 2);
    assert_eq!(
        dex.get_method_handle(1),
        Ok(MethodHandleItem { method_handle_type: 4, field_or_method_idx: 9 })
    );
    assert_eq!(dex.get_method_handles().len(), 2);
    assert!(dex.get_method_handle(2).is_err());
    assert_eq!(dex.num_call_site_ids(), 1);
    assert_eq!(dex.get_call_site_id(0), Ok(CallSiteIdItem { data_off: 0x1234 }));
    assert_eq!(dex.get_call_site_ids(), vec![CallSiteIdItem { data_off: 0x1234 }]);
    let hidden = dex.get_hiddenapi_class_data().unwrap();
    assert_eq!(hidden.size, 16);
    assert_eq!(hidden.get_flags_slice(0), None);
    assert_eq!(hidden.get_flags_slice(1), Some(&[0xaa, 0xbb, 0xcc, 0xddu8][..]));
    assert_eq!(hidden.get_flags_slice(2), Some(&[0xddu8][..]).filter(|_| false));
    assert_eq!(hidden.get_flags_slice(3), None);
    assert_eq!(hidden.get_flags_slice(u32::MAX), None);
}

#[test]
fn map_list_that_cannot_be_read_names_nothing() {
    let mut bytes = mapped_dex();
    let map_off = u32::from_le_bytes([bytes[52], bytes[53], bytes[54], bytes[55]]) as usize;
    put32(&mut bytes, map_off, 5);
    let container = InMemoryDexContainer::new(&bytes);
    let dex = DexFile::open(&container, DexLocation::InMemory, VerifyPreset::Off).unwrap();
    assert_eq!(dex.num_method_handles(), 0);
    assert_eq!(dex.num_call_site_ids(), 0);
    assert!(dex.get_hiddenapi_class_data().is_none());
    let bytes = hi_dex();
    let container = InMemoryDexContainer::new(&bytes);
    let dex = DexFile::open(&container, DexLocation::InMemory, VerifyPreset::Off).unwrap();
    assert!(dex.get_hiddenapi_class_data().is_none());
}

#[test]
fn map_item_kinds() {
    let item = MapItem { type_: 0x2001, size: 1, off: 2 };
    assert_eq!(item.item_type(), Some(MapItemType::CodeItem));
    assert_eq!(MapItem { type_: 0xF000, size: 0, off: 0 }.item_type(), Some(MapItemType::HiddenapiClassData));
    assert_eq!(MapItem { type_: 0x0000, size: 0, off: 0 }.item_type(), Some(MapItemType::HeaderItem));
    assert_eq!(MapItem { type_: 0x0009, size: 0, off: 0 }.item_type(), None);
}

#[test]
fn header_fields() {
    let bytes = rich_dex();
    let header = Header::from_bytes(&bytes).unwrap();
    assert_eq!(header.get_magic(), b"dex\n035\0");
    assert_eq!(header.get_version(), 35);
    assert_eq!(header.get_signature(), &[0u8; 20]);
    assert_eq!(header.file_size as usize, bytes.len());
    assert_eq!(header.header_size, 112);
    assert_eq!(header.endian_tag, 0x12345678);
    assert_eq!(header.string_ids_size, 5);
    assert_eq!(header.string_ids_off, 112);
    assert_eq!(header.class_defs_size, 1);
    assert!(Header::from_bytes(&bytes[..111]).is_none());
    assert!(HeaderV41::from_bytes(&bytes[..119]).is_none());
    let v41 = HeaderV41::from_bytes(&bytes).unwrap();
    assert_eq!(v41.inner.file_size, header.file_size);
    // behind the header stand the first two string ids
    assert_eq!(v41.container_size, 204);
    assert_eq!(v41.header_off, 207);
}

#[test]
fn version_of_a_magic_without_digits() {
    let mut bytes = minimal_dex();
    bytes[4] = b'+';
    let header = Header::from_bytes(&bytes).unwrap();
    assert_eq!(header.get_version(), 0);
    bytes[4..7].copy_from_slice(b"999");
    assert_eq!(Header::from_bytes(&bytes).unwrap().get_version(), 999);
}

#[test]
fn locations() {
    assert_eq!(DexLocation::InMemory.to_string(), "[in-memory]");
    assert_eq!(DexLocation::Path("classes.dex".to_string()).to_string(), "classes.dex");
    assert_eq!(DexLocation::path("a/classes2.dex").to_string(), "a/classes2.dex");
    let bytes = minimal_dex();
    let container = InMemoryDexContainer::new(&bytes);
    let dex =
        DexFile::open(&container, DexLocation::Path("p".to_string()), VerifyPreset::Off).unwrap();
    assert_eq!(dex.get_location().to_string(), "p");
    assert_eq!(dex.data(), &bytes[..]);
}
