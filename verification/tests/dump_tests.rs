use dexrs::desc_names::pretty_desc;
use dexrs::error::DexError;
use dexrs::file::container::InMemoryDexContainer;
use dexrs::file::dump::prettify;
use dexrs::file::instruction::Instruction;
use dexrs::file::structs::{FieldId, MethodId, StringId, TypeId};
use dexrs::file::verification::VerifyPreset;
use dexrs::file::{DexFile, DexLocation};

#[test]
fn descriptors_become_names() {
    assert_eq!(pretty_desc("I"), "int");
    assert_eq!(pretty_desc("B"), "byte");
    assert_eq!(pretty_desc("C"), "char");
    assert_eq!(pretty_desc("D"), "double");
    assert_eq!(pretty_desc("F"), "float");
    assert_eq!(pretty_desc("J"), "long");
    assert_eq!(pretty_desc("S"), "short");
    assert_eq!(pretty_desc("Z"), "boolean");
    assert_eq!(pretty_desc("V"), "void");
    assert_eq!(pretty_desc("[[I"), "int[][]");
    assert_eq!(pretty_desc("Ljava/lang/String;"), "java.lang.String");
    assert_eq!(pretty_desc("[Ljava/lang/Object;"), "java.lang.Object[]");
    assert_eq!(pretty_desc("Lno/semicolon"), "no.semicolon");
    assert_eq!(pretty_desc("L;"), "");
    assert_eq!(pretty_desc("L"), "");
    assert_eq!(pretty_desc("X"), "X");
    assert_eq!(pretty_desc("what"), "what");
    assert_eq!(pretty_desc(""), "");
    assert_eq!(pretty_desc("["), "[]");
    assert_eq!(pretty_desc("I["), "[[]");
    assert_eq!(pretty_desc("L\u{e9}/\u{1F600};"), "\u{e9}.\u{1F600}");
}

fn text(units: &[u16]) -> Result<String, DexError> {
    Instruction::at(units).to_string(None)
}

#[test]
fn packed_switch_payload_text() {
    let units = [0x0100u16, 0x0003, 0x0010, 0x0000, 1, 0, 2, 0, 3, 0];
    let inst = Instruction::at(&units);
    assert!(inst.to_string(None).unwrap().starts_with("packed-switch"));
    assert_eq!(inst.size_in_code_units(), 4 + 3 * 2);
    assert_eq!(text(&[0x0200, 0]), Ok("sparse-switch".to_string()));
    assert_eq!(text(&[0x0300, 0]), Ok("array-data".to_string()));
    assert_eq!(text(&[0x0000]), Ok("nop".to_string()));
    assert_eq!(text(&[0x0400]), Ok("nop".to_string()));
}

#[test]
fn plain_formats() {
    assert_eq!(text(&[0x000e]), Ok("return-void".to_string()));
    assert_eq!(text(&[0x003e]), Ok("unused-3e".to_string()));
    assert_eq!(text(&[0x2101]), Ok("move v1, v2".to_string()));
    assert_eq!(text(&[0x3012]), Ok("const/4 v0, #+3".to_string()));
    assert_eq!(text(&[0xf112]), Ok("const/4 v1, #-1".to_string()));
    assert_eq!(text(&[0x050f]), Ok("return v5".to_string()));
    assert_eq!(text(&[0xfe28]), Ok("goto +254".to_string()));
    assert_eq!(text(&[0x0029, 0x0010]), Ok("goto/16 +16".to_string()));
    assert_eq!(text(&[0x002a, 0xfffe, 0xffff]), Ok("goto/32 -2".to_string()));
    assert_eq!(text(&[0x0102, 0x1234]), Ok("move/from16 v1, v4660".to_string()));
    assert_eq!(text(&[0x0003, 300, 400]), Ok("move/16 v300, v400".to_string()));
    assert_eq!(text(&[0x0138, 0x0007]), Ok("if-eqz v1, +7".to_string()));
    assert_eq!(text(&[0x0113, 0x00ff]), Ok("const/16 v1, #+255".to_string()));
    assert_eq!(text(&[0x0114, 0xffff, 0xffff]), Ok("const v1, #-1".to_string()));
    assert_eq!(text(&[0x012b, 0x0004, 0x0000]), Ok("packed-switch v1, +4".to_string()));
    assert_eq!(text(&[0x0190, 0x0302]), Ok("add-int v1, v2, v3".to_string()));
    assert_eq!(text(&[0x01d8, 0x0702]), Ok("add-int/lit8 v1, v2, #+7".to_string()));
    assert_eq!(text(&[0x21d0, 0x0010]), Ok("add-int/lit16 v1, v2, #+16".to_string()));
    assert_eq!(text(&[0x2132, 0x0005]), Ok("if-eq v1, v2, +5".to_string()));
    assert_eq!(
        text(&[0x0118, 0xffff, 0xffff, 0xffff, 0xffff]),
        Ok("const-wide v1, #+18446744073709551615".to_string())
    );
    assert_eq!(text(&[0x0118, 42, 0, 0, 0]), Ok("const-wide v1, #+42".to_string()));
}

#[test]
fn high16_literals() {
    assert_eq!(
        text(&[0x0115, 0x0001]),
        Ok("const/high16 v1, #int +65536 // 0x10000".to_string())
    );
    assert_eq!(
        text(&[0x0215, 0xffff]),
        Ok("const/high16 v2, #int +4294901760 // 0xffff0000".to_string())
    );
    assert_eq!(text(&[0x0015, 0x0000]), Ok("const/high16 v0, #int +0 // 0x0".to_string()));
    assert_eq!(
        text(&[0x0119, 0x4000]),
        Ok("const-wide/high16 v1, #long +4611686018427387904 // 0x4000000000000000".to_string())
    );
}

#[test]
fn references_without_a_file() {
    assert_eq!(text(&[0x011a, 0x0007]), Ok("const-string v1, thing@7".to_string()));
    assert_eq!(text(&[0x2152, 0x0007]), Ok("iget v1, v2, thing@7".to_string()));
    assert_eq!(
        text(&[0x011b, 0x0007, 0x0001]),
        Ok("const-string/jumbo v1, thing@65543".to_string())
    );
    assert_eq!(
        text(&[0x306e, 0x0010, 0x0321]),
        Ok("invoke-virtual {v1, v2, v3}, thing@16".to_string())
    );
    assert_eq!(text(&[0x006e, 0x0010, 0x0000]), Ok("invoke-virtual {}, thing@16".to_string()));
    assert_eq!(
        text(&[0x10fc, 0x0002, 0x0005]),
        Ok("invoke-custom {v5}, // call_site@2".to_string())
    );
    assert_eq!(
        text(&[0x0374, 0x0001, 0x000a]),
        Ok("invoke-virtual/range {v10 .. v12} thing@1".to_string())
    );
    assert_eq!(
        text(&[0x02fd, 0x0001, 0x000a]),
        Ok("invoke-custom/range {v10 .. v11}, // call_site@1".to_string())
    );
    assert_eq!(
        text(&[0x20fa, 0x0007, 0x0043, 0x0009]),
        Ok("invoke-polymorphic {v3, v4}, method@7, proto@9".to_string())
    );
    assert_eq!(
        text(&[0x02fb, 0x0007, 0x0010, 0x0009]),
        Ok("invoke-polymorphic/range {v16 .. v17}, method@7, proto@9".to_string())
    );
}

#[test]
fn text_errors() {
    assert_eq!(
        text(&[0x0113]),
        Err(DexError::BadInstruction { opcode: "const/16", offset: 1, size: 1, target_type: "u16" })
    );
    assert_eq!(
        text(&[0x606e, 0x0010, 0x0321]),
        Err(DexError::InvalidArgCount {
            opcode: "invoke-virtual",
            format: dexrs::file::instruction::Format::k35c,
            count: 6
        })
    );
    assert_eq!(
        text(&[0x0074, 0x0001, 0x000a]),
        Err(DexError::InvalidArgRange {
            opcode: "invoke-virtual/range",
            format: dexrs::file::instruction::Format::k3rc,
            start: 10,
            end: 0
        })
    );
    assert_eq!(
        text(&[0x0118, 1, 2, 3]),
        Err(DexError::BadInstruction { opcode: "const-wide", offset: 4, size: 4, target_type: "u16" })
    );
}

fn put32(bytes: &mut Vec<u8>, off: usize, value: u32) {
    bytes[off..off + 4].copy_from_slice(&value.to_le_bytes());
}

/// Strings "I", "LFoo;", "bar", "V", "main", "a\"b"; types I, LFoo;, V; one
/// proto (V)(I, I); one field LFoo;.bar:I; one method LFoo;.main.
fn named_dex() -> Vec<u8> {
    let strings: [&[u8]; 6] =
        [b"\x01I\0", b"\x05LFoo;\0", b"\x03bar\0", b"\x01V\0", b"\x04main\0", b"\x03a\"b\0"];
    let string_ids_off = 112u32;
    let type_ids_off = string_ids_off + 6 * 4;
    let proto_ids_off = type_ids_off + 3 * 4;
    let field_ids_off = proto_ids_off + 12;
    let method_ids_off = field_ids_off + 8;
    let data_off = method_ids_off + 8;
    let mut body: Vec<u8> = Vec::new();
    let mut cursor = data_off;
    for s in strings {
        body.extend_from_slice(&cursor.to_le_bytes());
        cursor += s.len() as u32;
    }
    let type_list_off = (cursor + 3) / 4 * 4;
    for idx in [0u32, 1, 3] {
        body.extend_from_slice(&idx.to_le_bytes());
    }
    body.extend_from_slice(&3u32.to_le_bytes());
    body.extend_from_slice(&2u16.to_le_bytes());
    body.extend_from_slice(&0u16.to_le_bytes());
    body.extend_from_slice(&type_list_off.to_le_bytes());
    body.extend_from_slice(&1u16.to_le_bytes());
    body.extend_from_slice(&0u16.to_le_bytes());
    body.extend_from_slice(&2u32.to_le_bytes());
    body.extend_from_slice(&1u16.to_le_bytes());
    body.extend_from_slice(&0u16.to_le_bytes());
    body.extend_from_slice(&4u32.to_le_bytes());
    for s in strings {
        body.extend_from_slice(s);
    }
    while (112 + body.len()) as u32 != type_list_off {
        body.push(0);
    }
    body.extend_from_slice(&2u32.to_le_bytes());
    body.extend_from_slice(&0u16.to_le_bytes());
    body.extend_from_slice(&1u16.to_le_bytes());
    let mut bytes = vec![0u8; 112];
    bytes[0..8].copy_from_slice(b"dex\n035\0");
    put32(&mut bytes, 36, 112);
    put32(&mut bytes, 40, 0x12345678);
    bytes.extend_from_slice(&body);
    let size = bytes.len() as u32;
    put32(&mut bytes, 32, size);
    put32(&mut bytes, 56, 6);
    put32(&mut bytes, 60, string_ids_off);
    put32(&mut bytes, 64, 3);
    put32(&mut bytes, 68, type_ids_off);
    put32(&mut bytes, 72, 1);
    put32(&mut bytes, 76, proto_ids_off);
    put32(&mut bytes, 80, 1);
    put32(&mut bytes, 84, field_ids_off);
    put32(&mut bytes, 88, 1);
    put32(&mut bytes, 92, method_ids_off);
    bytes
}

#[test]
fn names_of_types_fields_methods_strings() {
    let bytes = named_dex();
    let container = InMemoryDexContainer::new(&bytes);
    let dex = DexFile::open(&container, DexLocation::InMemory, VerifyPreset::Off).unwrap();
    assert_eq!(dex.pretty_type_at(0), "int");
    assert_eq!(dex.pretty_type_at(1), "Foo");
    assert_eq!(dex.pretty_type_at(9), "<<invalid-type-idx-9>>");
    assert_eq!(dex.pretty_type_opt_at(2), Ok("void".to_string()));
    assert_eq!(
        dex.pretty_type_opt_at(3),
        Err(DexError::DexIndexError { index: 3, max: 3, item_ty: "TypeId" })
    );
    assert_eq!(dex.pretty_type(&TypeId { descriptor_idx: 1 }), "Foo");
    assert_eq!(dex.pretty_type(&TypeId { descriptor_idx: 77 }), "<<invalid-type-idx-77>>");
    assert_eq!(dex.pretty_type_opt(&TypeId { descriptor_idx: 0 }), Ok("int".to_string()));
    assert_eq!(dex.pretty_field_at(0, prettify::Field::WithType), "int Foo.bar");
    assert_eq!(dex.pretty_field_at(0, prettify::Field::NoType), "Foo.bar");
    assert_eq!(dex.pretty_field_at(4, prettify::Field::NoType), "<<invalid-field-idx-4>>");
    assert_eq!(dex.pretty_field_opt_at(0, prettify::Field::WithType), Ok("int Foo.bar".to_string()));
    assert!(dex.pretty_field_opt_at(1, prettify::Field::WithType).is_err());
    let field = FieldId { class_idx: 1, type_idx: 2, name_idx: 4 };
    assert_eq!(dex.pretty_field(&field, prettify::Field::WithType), "void Foo.main");
    assert_eq!(dex.pretty_field_opt(&field, prettify::Field::NoType), Ok("Foo.main".to_string()));
    let bad = FieldId { class_idx: 1, type_idx: 2, name_idx: 400 };
    assert_eq!(
        dex.pretty_field(&bad, prettify::Field::WithType),
        "<<invalid-field-idx-FieldId { class_idx: 1, type_idx: 2, name_idx: 400 }>>"
    );
    assert_eq!(format!("<<invalid-field-idx-{:?}>>", bad), dex.pretty_field(&bad, prettify::Field::NoType));
    assert_eq!(dex.pretty_utf16_at(4), "main");
    assert_eq!(dex.pretty_utf16_at(6), "<<invalid-string-idx-6>>");
    assert_eq!(dex.pretty_utf16(&StringId { string_data_off: 5000 }), "<<invalid-string-idx-5000>>");
    assert_eq!(dex.pretty_utf16(&dex.get_string_id(2).unwrap()), "bar");
    assert_eq!(dex.pretty_method_at(0, prettify::Method::WithSig), "void Foo.main(int, Foo)");
    assert_eq!(dex.pretty_method_at(0, prettify::Method::NoSig), "Foo.main");
    assert_eq!(dex.pretty_method_at(1, prettify::Method::NoSig), "<<invalid-method-idx-1>>");
    assert_eq!(
        dex.pretty_method_opt_at(0, prettify::Method::WithSig),
        Ok("void Foo.main(int, Foo)".to_string())
    );
    let method = MethodId { class_idx: 7, proto_idx: 0, name_idx: 2 };
    assert_eq!(
        dex.pretty_method_opt(&method, prettify::Method::NoSig),
        Ok("<<invalid-type-idx-7>>.bar".to_string())
    );
    assert!(dex
        .pretty_method_opt(&MethodId { class_idx: 1, proto_idx: 1, name_idx: 2 }, prettify::Method::WithSig)
        .is_err());
    assert!(dex
        .pretty_method_opt(&MethodId { class_idx: 1, proto_idx: 0, name_idx: 99 }, prettify::Method::NoSig)
        .is_err());
}

#[test]
fn method_without_parameters() {
    let mut bytes = named_dex();
    let proto_ids_off = 112 + 6 * 4 + 3 * 4;
    put32(&mut bytes, proto_ids_off + 8, 0);
    let container = InMemoryDexContainer::new(&bytes);
    let dex = DexFile::open(&container, DexLocation::InMemory, VerifyPreset::Off).unwrap();
    assert_eq!(dex.pretty_method_at(0, prettify::Method::WithSig), "void Foo.main()");
    let len = bytes.len() as u32;
    let mut bytes = named_dex();
    put32(&mut bytes, proto_ids_off + 8, len - 2);
    let container = InMemoryDexContainer::new(&bytes);
    let dex = DexFile::open(&container, DexLocation::InMemory, VerifyPreset::Off).unwrap();
    assert_eq!(dex.pretty_method_at(0, prettify::Method::WithSig), "<<invalid-method-idx-0>>");
    assert!(matches!(
        dex.pretty_method_opt_at(0, prettify::Method::WithSig),
        Err(DexError::DexLayoutError { .. })
    ));
}

#[test]
fn references_with_a_file() {
    let bytes = named_dex();
    let container = InMemoryDexContainer::new(&bytes);
    let dex = DexFile::open(&container, DexLocation::InMemory, VerifyPreset::Off).unwrap();
    let show = |units: &[u16]| Instruction::at(units).to_string(Some(&dex));
    assert_eq!(show(&[0x011a, 0x0004]), Ok("const-string v1, \"main\" // string@4".to_string()));
    assert_eq!(
        show(&[0x011a, 0x0005]),
        Ok("const-string v1, \"a\\\"b\" // string@5".to_string())
    );
    assert_eq!(
        show(&[0x011a, 0x0009]),
        Ok("const-string v1, \"<<invalid-string-idx-9>>\" // string@9".to_string())
    );
    assert_eq!(
        show(&[0x021b, 0x0002, 0x0000]),
        Ok("const-string/jumbo v2, \"bar\" // string@2".to_string())
    );
    assert_eq!(show(&[0x011c, 0x0001]), Ok("const-class v1, Foo // type@1".to_string()));
    assert_eq!(show(&[0x011f, 0x0000]), Ok("check-cast v1, int // type@0".to_string()));
    assert_eq!(show(&[0x0122, 0x0001]), Ok("new-instance v1, Foo // type@1".to_string()));
    assert_eq!(show(&[0x0160, 0x0000]), Ok("sget v1, int Foo.bar // field@0".to_string()));
    assert_eq!(
        show(&[0x016d, 0x0003]),
        Ok("sput-short v1, <<invalid-field-idx-3>> // field@3".to_string())
    );
    assert_eq!(show(&[0x01fe, 0x0003]), Ok("const-method-handle v1, thing@3".to_string()));
    assert_eq!(show(&[0x2152, 0x0000]), Ok("iget v1, v2, int Foo.bar // field@0".to_string()));
    assert_eq!(show(&[0x2123, 0x0000]), Ok("new-array v1, v2, int // type@0".to_string()));
    assert_eq!(show(&[0x2120, 0x0001]), Ok("instance-of v1, v2, Foo // type@1".to_string()));
    assert_eq!(
        show(&[0x2024, 0x0000, 0x0021]),
        Ok("filled-new-array {v1, v2}, int // type@0".to_string())
    );
    assert_eq!(
        show(&[0x206e, 0x0000, 0x0021]),
        Ok("invoke-virtual {v1, v2}, void Foo.main(int, Foo) // method@0".to_string())
    );
    assert_eq!(
        show(&[0x1071, 0x0005, 0x0001]),
        Ok("invoke-static {v1}, <<invalid-method-idx-5>> // method@5".to_string())
    );
    assert_eq!(
        show(&[0x10fc, 0x0002, 0x0005]),
        Ok("invoke-custom {v5}, // call_site@2".to_string())
    );
    assert_eq!(
        show(&[0x0274, 0x0000, 0x0003]),
        Ok("invoke-virtual/range {v3 .. v4}, void Foo.main(int, Foo) // method@0".to_string())
    );
    assert_eq!(
        show(&[0x0225, 0x0000, 0x0003]),
        Ok("filled-new-array/range {v3 .. v4} thing@0".to_string())
    );
    assert_eq!(
        show(&[0x20fa, 0x0000, 0x0043, 0x0000]),
        Ok("invoke-polymorphic {v3, v4}, void Foo.main(int, Foo), V // method@0, proto@0"
            .to_string())
    );
    assert_eq!(
        show(&[0x20fa, 0x0000, 0x0043, 0x0001]),
        Err(DexError::DexIndexError { index: 1, max: 1, item_ty: "ProtoId" })
    );
    assert_eq!(
        show(&[0x02fb, 0x0000, 0x0010, 0x0000]),
        Ok("invoke-polymorphic/range {v16 .. v17}, void Foo.main(int, Foo), V // method@0, proto@0"
            .to_string())
    );
    assert_eq!(show(&[0x2101]), Ok("move v1, v2".to_string()));
}

#[test]
fn every_first_unit_gives_text_or_an_error() {
    for first in 0..=0xffffu16 {
        let units = [first, 0x0012, 0x0034, 0x0056, 0x0078];
        let inst = Instruction::at(&units);
        match inst.to_string(None) {
            Ok(text) => assert!(!text.is_empty()),
            Err(_) => {}
        }
        let single = [first];
        match Instruction::at(&single).to_string(None) {
            Ok(text) => assert!(!text.is_empty()),
            Err(_) => {}
        }
    }
}

#[test]
fn unresolved_references_are_errors_on_request() {
    let bytes = named_dex();
    let container = InMemoryDexContainer::new(&bytes);
    let dex = DexFile::open(&container, DexLocation::InMemory, VerifyPreset::Off).unwrap();
    let strict = |units: &[u16]| Instruction::at(units).to_string_opt(Some(&dex));
    assert_eq!(strict(&[0x011a, 0x0004]), Ok("const-string v1, \"main\" // string@4".to_string()));
    assert_eq!(
        strict(&[0x011a, 0x0009]),
        Err(DexError::DexIndexError { index: 9, max: 6, item_ty: "StringId" })
    );
    assert_eq!(strict(&[0x011c, 0x0001]), Ok("const-class v1, Foo // type@1".to_string()));
    assert_eq!(
        strict(&[0x011c, 0x0008]),
        Err(DexError::DexIndexError { index: 8, max: 3, item_ty: "TypeId" })
    );
    assert_eq!(strict(&[0x0160, 0x0000]), Ok("sget v1, int Foo.bar // field@0".to_string()));
    assert_eq!(
        strict(&[0x016d, 0x0003]),
        Err(DexError::DexIndexError { index: 3, max: 1, item_ty: "FieldId" })
    );
    assert_eq!(strict(&[0x2152, 0x0000]), Ok("iget v1, v2, int Foo.bar // field@0".to_string()));
    assert!(strict(&[0x2152, 0x0001]).is_err());
    assert_eq!(strict(&[0x2123, 0x0000]), Ok("new-array v1, v2, int // type@0".to_string()));
    assert!(strict(&[0x2123, 0x0005]).is_err());
    assert_eq!(
        strict(&[0x021b, 0x0002, 0x0000]),
        Ok("const-string/jumbo v2, \"bar\" // string@2".to_string())
    );
    assert!(strict(&[0x021b, 0x0002, 0x0001]).is_err());
    assert_eq!(
        strict(&[0x2024, 0x0000, 0x0021]),
        Ok("filled-new-array {v1, v2}, int // type@0".to_string())
    );
    assert_eq!(
        strict(&[0x206e, 0x0000, 0x0021]),
        Ok("invoke-virtual {v1, v2}, void Foo.main(int, Foo) // method@0".to_string())
    );
    assert_eq!(
        strict(&[0x1071, 0x0005, 0x0001]),
        Err(DexError::DexIndexError { index: 5, max: 1, item_ty: "MethodId" })
    );
    assert_eq!(
        strict(&[0x0274, 0x0000, 0x0003]),
        Ok("invoke-virtual/range {v3 .. v4}, void Foo.main(int, Foo) // method@0".to_string())
    );
    assert!(strict(&[0x0274, 0x0001, 0x0003]).is_err());
    assert_eq!(
        strict(&[0x20fa, 0x0000, 0x0043, 0x0000]),
        Ok("invoke-polymorphic {v3, v4}, void Foo.main(int, Foo), V // method@0, proto@0"
            .to_string())
    );
    assert!(strict(&[0x20fa, 0x0001, 0x0043, 0x0000]).is_err());
    assert_eq!(
        strict(&[0x02fb, 0x0000, 0x0010, 0x0000]),
        Ok("invoke-polymorphic/range {v16 .. v17}, void Foo.main(int, Foo), V // method@0, proto@0"
            .to_string())
    );
    // what needs no file reads the same either way
    assert_eq!(strict(&[0x2101]), Ok("move v1, v2".to_string()));
    assert_eq!(strict(&[0x0100, 0]), Ok("packed-switch".to_string()));
    assert_eq!(strict(&[0x01fe, 0x0003]), Ok("const-method-handle v1, thing@3".to_string()));
    assert_eq!(strict(&[0x10fc, 0x0002, 0x0005]), Ok("invoke-custom {v5}, // call_site@2".to_string()));
    assert_eq!(
        Instruction::at(&[0x011a, 0x0009]).to_string_opt(None),
        Ok("const-string v1, thing@9".to_string())
    );
}
