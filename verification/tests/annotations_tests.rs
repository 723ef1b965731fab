use dexrs::error::{DexError, VarIntError};
use dexrs::file::annotations::{
    check_size, AnnotationElement, AnnotationItem, ClassAnnotationsAccessor, EncodedAnnotation,
    EncodedValue, EncodedValueType,
};
use dexrs::file::container::InMemoryDexContainer;
use dexrs::file::structs::{
    ClassDef, FieldAnnotationsItem, MethodAnnotationsItem, ParameterAnnotationsItem,
};
use dexrs::file::verification::VerifyPreset;
use dexrs::file::{DexFile, DexLocation};

#[test]
fn value_types() {
    for valid in [0x00u8, 0x02, 0x03, 0x04, 0x06, 0x10, 0x11, 0x15, 0x1b, 0x1c, 0x1d, 0x1e, 0x1f] {
        assert!(EncodedValueType::is_valid(valid));
        assert!(EncodedValueType::of(valid).is_some());
    }
    for invalid in [0x01u8, 0x05, 0x07, 0x0f, 0x12, 0x14, 0x20, 0xff] {
        assert!(!EncodedValueType::is_valid(invalid));
        assert_eq!(EncodedValueType::of(invalid), None);
    }
    assert!(EncodedValueType::is_primitive(0x00));
    assert!(EncodedValueType::is_primitive(0x05));
    assert!(EncodedValueType::is_primitive(0x11));
    assert!(!EncodedValueType::is_primitive(0x01));
    assert!(!EncodedValueType::is_primitive(0x17));
    assert_eq!(EncodedValueType::of(0x17), Some(EncodedValueType::String));
    assert_eq!(EncodedValueType::from(0x1c), EncodedValueType::Array);
    assert_eq!(EncodedValueType::from(0x00), EncodedValueType::Byte);
    assert_eq!(EncodedValueType::of(0x1e), Some(EncodedValueType::Null));
}

#[test]
fn signed_integers_sign_extend() {
    assert_eq!(EncodedValue::new(&[0x00, 0x7f]), Ok(EncodedValue::Byte(127)));
    assert_eq!(EncodedValue::new(&[0x00, 0x80]), Ok(EncodedValue::Byte(-128)));
    assert_eq!(EncodedValue::new(&[0x02, 0xff]), Ok(EncodedValue::Short(-1)));
    assert_eq!(EncodedValue::new(&[0x22, 0x00, 0x80]), Ok(EncodedValue::Short(-32768)));
    assert_eq!(EncodedValue::new(&[0x22, 0xff, 0x00]), Ok(EncodedValue::Short(255)));
    assert_eq!(EncodedValue::new(&[0x04, 0x80]), Ok(EncodedValue::Int(-128)));
    assert_eq!(EncodedValue::new(&[0x24, 0x34, 0x12]), Ok(EncodedValue::Int(0x1234)));
    assert_eq!(EncodedValue::new(&[0x44, 0x00, 0x00, 0x80]), Ok(EncodedValue::Int(-8388608)));
    assert_eq!(
        EncodedValue::new(&[0x64, 0x78, 0x56, 0x34, 0x12]),
        Ok(EncodedValue::Int(0x12345678))
    );
    assert_eq!(
        EncodedValue::new(&[0x64, 0x00, 0x00, 0x00, 0x80]),
        Ok(EncodedValue::Int(i32::MIN))
    );
    assert_eq!(EncodedValue::new(&[0x06, 0xfe]), Ok(EncodedValue::Long(-2)));
    assert_eq!(
        EncodedValue::new(&[0xe6, 0, 0, 0, 0, 0, 0, 0, 0x80]),
        Ok(EncodedValue::Long(i64::MIN))
    );
    assert_eq!(
        EncodedValue::new(&[0xe6, 0xff, 0xff, 0xff, 0xff, 0xff, 0xff, 0xff, 0x7f]),
        Ok(EncodedValue::Long(i64::MAX))
    );
    assert_eq!(
        EncodedValue::new(&[0x86, 0x01, 0x02, 0x03, 0x04, 0x05]),
        Ok(EncodedValue::Long(0x0504030201))
    );
}

#[test]
fn unsigned_values_zero_extend() {
    assert_eq!(EncodedValue::new(&[0x03, 0xff]), Ok(EncodedValue::Char(0xff)));
    assert_eq!(EncodedValue::new(&[0x23, 0x34, 0xf2]), Ok(EncodedValue::Char(0xf234)));
    assert_eq!(EncodedValue::new(&[0x17, 0x80]), Ok(EncodedValue::String(0x80)));
    assert_eq!(EncodedValue::new(&[0x37, 0x01, 0x02]), Ok(EncodedValue::String(0x0201)));
    assert_eq!(
        EncodedValue::new(&[0x78, 0xff, 0xff, 0xff, 0xff]),
        Ok(EncodedValue::Type(u32::MAX))
    );
    assert_eq!(EncodedValue::new(&[0x15, 7]), Ok(EncodedValue::MethodType(7)));
    assert_eq!(EncodedValue::new(&[0x16, 7]), Ok(EncodedValue::MethodHandle(7)));
    assert_eq!(EncodedValue::new(&[0x19, 7]), Ok(EncodedValue::Field(7)));
    assert_eq!(EncodedValue::new(&[0x1a, 7]), Ok(EncodedValue::Method(7)));
    assert_eq!(EncodedValue::new(&[0x1b, 7]), Ok(EncodedValue::Enum(7)));
}

#[test]
fn floats_are_padded_on_the_right() {
    // 1.0f32 is 0x3f800000; its two high bytes are 80 3f
    assert_eq!(EncodedValue::new(&[0x30, 0x80, 0x3f]), Ok(EncodedValue::Float(0x3f80_0000)));
    assert_eq!(f32::from_bits(0x3f80_0000), 1.0);
    assert_eq!(EncodedValue::new(&[0x10, 0x40]), Ok(EncodedValue::Float(0x4000_0000)));
    assert_eq!(
        EncodedValue::new(&[0x70, 0x78, 0x56, 0x34, 0x12]),
        Ok(EncodedValue::Float(0x12345678))
    );
    // 1.0f64 is 0x3ff0000000000000
    assert_eq!(
        EncodedValue::new(&[0x31, 0xf0, 0x3f]),
        Ok(EncodedValue::Double(0x3ff0_0000_0000_0000))
    );
    assert_eq!(f64::from_bits(0x3ff0_0000_0000_0000), 1.0);
    assert_eq!(
        EncodedValue::new(&[0x71, 0x00, 0x00, 0xf0, 0x3f]),
        Ok(EncodedValue::Double(0x3ff0_0000_0000_0000))
    );
    assert_eq!(
        EncodedValue::new(&[0xf1, 1, 2, 3, 4, 5, 6, 7, 8]),
        Ok(EncodedValue::Double(0x0807060504030201))
    );
}

#[test]
fn null_and_boolean() {
    assert_eq!(EncodedValue::new(&[0x1e]), Ok(EncodedValue::Null));
    assert_eq!(EncodedValue::new(&[0x1f]), Ok(EncodedValue::Boolean(false)));
    assert_eq!(EncodedValue::new(&[0x3f]), Ok(EncodedValue::Boolean(true)));
}

#[test]
fn arrays_recurse() {
    assert_eq!(EncodedValue::new(&[0x1c, 0x00]), Ok(EncodedValue::Array(vec![])));
    assert_eq!(
        EncodedValue::new(&[0x1c, 0x03, 0x00, 0x05, 0x1e, 0x1c, 0x01, 0x3f]),
        Ok(EncodedValue::Array(vec![
            EncodedValue::Byte(5),
            EncodedValue::Null,
            EncodedValue::Array(vec![EncodedValue::Boolean(true)]),
        ]))
    );
}

#[test]
fn annotations_recurse() {
    // type 3, two elements: name 1 = Int 7, name 2 = annotation(type 4, none)
    let data = [0x1d, 0x03, 0x02, 0x01, 0x04, 0x07, 0x02, 0x1d, 0x04, 0x00];
    let value = EncodedValue::new(&data).unwrap();
    let expected = EncodedValue::Annotation(EncodedAnnotation {
        type_idx: 3,
        elements: vec![
            AnnotationElement { name_idx: 1, value: EncodedValue::Int(7) },
            AnnotationElement {
                name_idx: 2,
                value: EncodedValue::Annotation(EncodedAnnotation { type_idx: 4, elements: vec![] }),
            },
        ],
    });
    assert_eq!(value, expected);
    let annotation = EncodedAnnotation::new(&data[1..]).unwrap();
    assert_eq!(annotation.type_idx, 3);
    assert_eq!(annotation.elements().len(), 2);
    assert_eq!(annotation.elements()[0].value(), &EncodedValue::Int(7));
}

#[test]
fn annotation_items() {
    let item = AnnotationItem::from_raw_parts(&[0x01, 0x09, 0x01, 0x05, 0x17, 0x02]).unwrap();
    assert_eq!(item.visibility, 1);
    assert_eq!(item.annotation.type_idx, 9);
    assert_eq!(
        item.annotation.elements,
        vec![AnnotationElement { name_idx: 5, value: EncodedValue::String(2) }]
    );
    assert_eq!(AnnotationItem::from_raw_parts(&[]).err(), Some(DexError::EmptyEncodedValue));
    assert_eq!(
        AnnotationItem::from_raw_parts(&[0x02]).err(),
        Some(DexError::VarIntError(VarIntError::NotEnoughBytes))
    );
}

#[test]
fn encoded_value_errors() {
    assert_eq!(EncodedValue::new(&[]), Err(DexError::EmptyEncodedValue));
    assert_eq!(EncodedValue::new(&[0x01]), Err(DexError::BadEncodedValueType(0x01)));
    assert_eq!(EncodedValue::new(&[0xe5]), Err(DexError::BadEncodedValueType(0x05)));
    assert_eq!(
        EncodedValue::new(&[0x20, 0x01, 0x02]),
        Err(DexError::BadEncodedValueSize { value_type: 0x00, size: 2, max: 1 })
    );
    assert_eq!(
        EncodedValue::new(&[0x42, 0, 0, 0]),
        Err(DexError::BadEncodedValueSize { value_type: 0x02, size: 3, max: 2 })
    );
    assert_eq!(
        EncodedValue::new(&[0x84, 0, 0, 0, 0, 0]),
        Err(DexError::BadEncodedValueSize { value_type: 0x04, size: 5, max: 4 })
    );
    assert_eq!(
        EncodedValue::new(&[0x90, 0, 0, 0, 0, 0]),
        Err(DexError::BadEncodedValueSize { value_type: 0x10, size: 5, max: 4 })
    );
    assert_eq!(
        EncodedValue::new(&[0x64, 0x01, 0x02]),
        Err(DexError::InvalidEncodedValue { value_type: 0x04, offset: 5, size: 3 })
    );
    assert_eq!(
        EncodedValue::new(&[0x00]),
        Err(DexError::InvalidEncodedValue { value_type: 0x00, offset: 2, size: 1 })
    );
    assert_eq!(
        EncodedValue::new(&[0x1c, 0x05, 0x1e, 0x1e]),
        Err(DexError::BadEncodedArrayLength { value_type: 0x1c, size: 5, offset: 2, max: 4 })
    );
    assert_eq!(
        EncodedValue::new(&[0x1c, 0x02, 0x1e]),
        Err(DexError::BadEncodedArrayLength { value_type: 0x1c, size: 2, offset: 2, max: 3 })
    );
    assert_eq!(EncodedValue::new(&[0x1c, 0x02, 0x1e, 0x07]), Err(DexError::BadEncodedValueType(7)));
    assert_eq!(
        EncodedValue::new(&[0x1d, 0x01, 0x02, 0x01, 0x1e, 0x02]),
        Err(DexError::BadEncodedArrayLength { value_type: 0x1d, size: 2, offset: 3, max: 6 })
    );
    assert_eq!(
        EncodedValue::new(&[0x1c]),
        Err(DexError::VarIntError(VarIntError::NotEnoughBytes))
    );
    assert_eq!(
        EncodedValue::new(&[0x1c, 0xff, 0xff, 0xff, 0xff, 0x7f]),
        Err(DexError::VarIntError(VarIntError::Overflow))
    );
}

#[test]
fn deep_nesting_ends() {
    let mut data = Vec::new();
    for _ in 0..200 {
        data.extend_from_slice(&[0x1c, 0x01]);
    }
    data.push(0x1e);
    let mut value = EncodedValue::new(&data).unwrap();
    let mut depth = 0;
    while let EncodedValue::Array(mut items) = value {
        assert_eq!(items.len(), 1);
        value = items.pop().unwrap();
        depth += 1;
    }
    assert_eq!(depth, 200);
    assert_eq!(value, EncodedValue::Null);
}

#[test]
fn size_check() {
    assert_eq!(check_size(3, 0x04, 0, &[0x64, 1, 2, 3, 4]), Ok(()));
    assert_eq!(
        check_size(4, 0x04, 0, &[0x84, 1, 2, 3, 4, 5]),
        Err(DexError::BadEncodedValueSize { value_type: 0x04, size: 5, max: 4 })
    );
    assert_eq!(
        check_size(7, 0x06, 1, &[0, 0xe6, 1, 2]),
        Err(DexError::InvalidEncodedValue { value_type: 0x06, offset: 10, size: 4 })
    );
}

fn dex_with_body(body: &[u8]) -> Vec<u8> {
    let mut bytes = vec![0u8; 112];
    bytes[0..8].copy_from_slice(b"dex\n035\0");
    bytes[36..40].copy_from_slice(&112u32.to_le_bytes());
    bytes[40..44].copy_from_slice(&0x12345678u32.to_le_bytes());
    bytes.extend_from_slice(body);
    let size = bytes.len() as u32;
    bytes[32..36].copy_from_slice(&size.to_le_bytes());
    bytes
}

fn class_def_with_annotations(annotations_off: u32) -> ClassDef {
    ClassDef {
        class_idx: 0,
        access_flags: 0,
        superclass_idx: 0,
        interfaces_off: 0,
        source_file_idx: 0,
        annotations_off,
        class_data_off: 0,
        static_values_off: 0,
    }
}

/// An annotations directory at 112 with one field, two method and one
/// parameter entries, and a class annotation set of two offsets behind.
fn annotated_dex() -> Vec<u8> {
    let mut body = Vec::new();
    let set_off = 112 + 16 + 4 * 8;
    for v in [set_off as u32, 1, 2, 1] {
        body.extend_from_slice(&v.to_le_bytes());
    }
    for (idx, off) in [(7u32, 0u32), (1, set_off as u32), (2, 0), (3, set_off as u32)] {
        body.extend_from_slice(&idx.to_le_bytes());
        body.extend_from_slice(&off.to_le_bytes());
    }
    for v in [2u32, 0x100, 0x200] {
        body.extend_from_slice(&v.to_le_bytes());
    }
    // an encoded value and an annotation item behind the set
    body.extend_from_slice(&[0x24, 0x34, 0x12, 0x00]);
    body.extend_from_slice(&[0x02, 0x09, 0x00, 0x00]);
    dex_with_body(&body)
}

#[test]
fn class_annotations() {
    let bytes = annotated_dex();
    let container = InMemoryDexContainer::new(&bytes);
    let dex = DexFile::open(&container, DexLocation::InMemory, VerifyPreset::Off).unwrap();
    let class_def = class_def_with_annotations(112);
    let accessor = dex.get_class_annotation_accessor(class_def).unwrap();
    assert_eq!(accessor.get_class_def(), &class_def);
    assert_eq!(accessor.get_field_ann(), &[FieldAnnotationsItem { field_idx: 7, annotations_off: 0 }]);
    assert_eq!(
        accessor.get_method_ann(),
        &[
            MethodAnnotationsItem { method_idx: 1, annotations_off: 160 },
            MethodAnnotationsItem { method_idx: 2, annotations_off: 0 },
        ]
    );
    assert_eq!(
        accessor.get_parameter_ann(),
        &[ParameterAnnotationsItem { method_idx: 3, annotations_off: 160 }]
    );
    assert_eq!(accessor.get_class_ann(), &[0x100, 0x200]);
    assert_eq!(dex.get_field_annotation_set(&accessor.get_field_ann()[0]), Ok(vec![]));
    assert_eq!(
        dex.get_method_annotation_set(&accessor.get_method_ann()[0]),
        Ok(vec![0x100, 0x200])
    );
    assert_eq!(
        dex.get_parameter_annotation_set(&accessor.get_parameter_ann()[0]),
        Ok(vec![0x100, 0x200])
    );
    assert_eq!(dex.get_annotation_set(160), Ok(vec![0x100, 0x200]));
    assert_eq!(dex.get_annotation_set(0), Ok(vec![]));
}

#[test]
fn class_without_annotations() {
    let bytes = annotated_dex();
    let container = InMemoryDexContainer::new(&bytes);
    let dex = DexFile::open(&container, DexLocation::InMemory, VerifyPreset::Off).unwrap();
    let class_def = class_def_with_annotations(0);
    let accessor = ClassAnnotationsAccessor::new(&dex, class_def).unwrap();
    assert!(accessor.get_field_ann().is_empty());
    assert!(accessor.get_method_ann().is_empty());
    assert!(accessor.get_parameter_ann().is_empty());
    assert!(accessor.get_class_ann().is_empty());
    let empty = ClassAnnotationsAccessor::new_empty(class_def);
    assert_eq!(empty.get_class_def(), &class_def);
    assert!(empty.get_class_ann().is_empty());
}

#[test]
fn annotation_errors_of_a_file() {
    let bytes = annotated_dex();
    let container = InMemoryDexContainer::new(&bytes);
    let dex = DexFile::open(&container, DexLocation::InMemory, VerifyPreset::Off).unwrap();
    let len = bytes.len() as u32;
    assert!(dex.get_class_annotation_accessor(class_def_with_annotations(len - 8)).is_err());
    assert!(dex.get_class_annotation_accessor(class_def_with_annotations(len)).is_err());
    assert_eq!(
        dex.get_annotation_set(len).err(),
        Some(DexError::DexIndexError { index: len, max: bytes.len(), item_ty: "AnnotationSetItem" })
    );
    assert!(dex.get_annotation_set(len - 2).is_err());
    assert!(dex.get_annotation_set(len - 4).is_err());
    // a set whose count runs past the file
    assert!(dex.get_annotation_set(164).is_err());
    assert_eq!(dex.get_encoded_value(172), Ok(EncodedValue::Int(0x1234)));
    assert_eq!(
        dex.get_encoded_value(len).err(),
        Some(DexError::DexIndexError { index: len, max: bytes.len(), item_ty: "EncodedValue" })
    );
    let item = dex.get_annotation(176).unwrap();
    assert_eq!(item.visibility, 2);
    assert_eq!(item.annotation, EncodedAnnotation { type_idx: 9, elements: vec![] });
    assert_eq!(
        dex.get_annotation(len).err(),
        Some(DexError::DexIndexError { index: len, max: bytes.len(), item_ty: "Annotation" })
    );
}
