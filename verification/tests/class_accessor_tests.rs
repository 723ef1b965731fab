use dexrs::error::{DexError, VarIntError};
use dexrs::file::class_accessor::{
    null_field_visitor, null_method_visitor, ClassAccessor, ClassItemBase, DataIterator, Field,
    Method,
};
use dexrs::file::container::InMemoryDexContainer;
use dexrs::file::modifiers::{InvokeType, ACC_CONSTRUCTOR, ACC_INTERFACE, ACC_PUBLIC, ACC_STATIC};
use dexrs::file::structs::ClassDef;
use dexrs::file::verification::VerifyPreset;
use dexrs::file::{DexFile, DexLocation};
use std::cell::RefCell;

/// Two static fields (indices 3, 5), one instance field (index 2), one
/// direct method (index 1, code at 0x40), two virtual methods (4 and 4).
fn class_data() -> Vec<u8> {
    vec![
        2, 1, 1, 2, // counts
        3, 0x09, 2, 0x01, // static fields: +3, +2
        2, 0x02, // instance field: +2 from zero
        1, 0x0a, 0x40, // direct method
        4, 0x01, 0x00, 0, 0x81, 0x01, 0x20, // virtual methods: +4, +0
    ]
}

#[test]
fn counts_are_read() {
    let data = class_data();
    let accessor = ClassAccessor::from_raw(&data).unwrap();
    assert_eq!(accessor.num_static_fields(), 2);
    assert_eq!(accessor.num_instance_fields(), 1);
    assert_eq!(accessor.num_direct_methods(), 1);
    assert_eq!(accessor.num_virtual_methods(), 2);
    assert_eq!(accessor.num_fields(), 3);
    assert_eq!(accessor.num_methods(), 3);
}

#[test]
fn counts_cut_short() {
    assert_eq!(
        ClassAccessor::from_raw(&[1, 2, 3]).err(),
        Some(DexError::VarIntError(VarIntError::NotEnoughBytes))
    );
    assert_eq!(
        ClassAccessor::from_raw(&[]).err(),
        Some(DexError::VarIntError(VarIntError::NotEnoughBytes))
    );
    assert_eq!(
        ClassAccessor::from_raw(&[0x80, 0x80, 0x80, 0x80, 0x80, 0x00]).err(),
        Some(DexError::VarIntError(VarIntError::Overflow))
    );
}

#[test]
fn fields_by_iterator() {
    let data = class_data();
    let accessor = ClassAccessor::from_raw(&data).unwrap();
    let mut fields = accessor.get_fields();
    assert!(fields.is_valid());
    assert_eq!(fields.offset(), 4);
    assert_eq!(fields.next(), Some(Ok(Field { index: 3, access_flags: 9, is_static: true })));
    assert_eq!(fields.next(), Some(Ok(Field { index: 5, access_flags: 1, is_static: true })));
    assert_eq!(fields.next(), Some(Ok(Field { index: 2, access_flags: 2, is_static: false })));
    assert_eq!(fields.offset(), 10);
    assert!(!fields.is_valid());
    assert_eq!(fields.next(), None);
    assert_eq!(fields.next(), None);
    let mut statics = accessor.get_static_fieds();
    assert!(statics.next().unwrap().unwrap().is_static());
    assert_eq!(statics.next(), Some(Ok(Field { index: 5, access_flags: 1, is_static: true })));
    assert_eq!(statics.next(), None);
}

#[test]
fn members_by_list() {
    let data = class_data();
    let accessor = ClassAccessor::from_raw(&data).unwrap();
    assert_eq!(
        accessor.get_instance_fields(),
        Ok(vec![Field { index: 2, access_flags: 2, is_static: false }])
    );
    assert_eq!(
        accessor.get_direct_methods(),
        Ok(vec![Method {
            index: 1,
            access_flags: 0x0a,
            code_offset: 0x40,
            is_static_or_direct: true
        }])
    );
    assert_eq!(
        accessor.get_virtual_methods(),
        Ok(vec![
            Method { index: 4, access_flags: 1, code_offset: 0, is_static_or_direct: false },
            Method { index: 4, access_flags: 0x81, code_offset: 0x20, is_static_or_direct: false },
        ])
    );
    let mut methods = accessor.get_methods().unwrap();
    assert_eq!(methods.offset(), 10);
    let mut indices = Vec::new();
    while let Some(m) = methods.next() {
        indices.push(m.unwrap().index);
    }
    assert_eq!(indices, vec![1, 4, 4]);
}

#[test]
fn running_index_never_falls_within_a_section_and_restarts() {
    let data = class_data();
    let accessor = ClassAccessor::from_raw(&data).unwrap();
    let mut fields = accessor.get_fields();
    let mut last_static = 0;
    let mut first_instance = None;
    while let Some(f) = fields.next() {
        let f = f.unwrap();
        if f.is_static {
            assert!(f.index >= last_static);
            last_static = f.index;
        } else if first_instance.is_none() {
            first_instance = Some(f.index);
        }
    }
    assert_eq!(last_static, 5);
    // 2 is the difference stored for the first instance field: the index
    // started again at zero.
    assert_eq!(first_instance, Some(2));
}

#[test]
fn index_overflow_surfaces() {
    // one static field at index u32::MAX, then a difference of one
    let data = vec![2, 0, 0, 0, 0xff, 0xff, 0xff, 0xff, 0x0f, 0, 1, 0];
    let accessor = ClassAccessor::from_raw(&data).unwrap();
    let mut fields = accessor.get_static_fieds();
    assert_eq!(fields.next().unwrap().unwrap().index, u32::MAX);
    assert_eq!(
        fields.next(),
        Some(Err(DexError::BadEncodedIndex { index: u32::MAX, next_index: 1, item_ty: "Field" }))
    );
    assert_eq!(fields.next(), None);
    assert_eq!(
        accessor.visit_fields(null_field_visitor, null_field_visitor),
        Err(DexError::BadEncodedIndex { index: u32::MAX, next_index: 1, item_ty: "Field" })
    );
    assert!(accessor.get_methods().is_err());
    let data = vec![0, 0, 2, 0, 0xff, 0xff, 0xff, 0xff, 0x0f, 0, 0, 1, 0, 0];
    let accessor = ClassAccessor::from_raw(&data).unwrap();
    assert_eq!(
        accessor.get_direct_methods(),
        Err(DexError::BadEncodedIndex { index: u32::MAX, next_index: 1, item_ty: "Method" })
    );
}

#[test]
fn truncated_members() {
    let mut data = class_data();
    data.truncate(9);
    let accessor = ClassAccessor::from_raw(&data).unwrap();
    assert_eq!(
        accessor.get_instance_fields(),
        Err(DexError::VarIntError(VarIntError::NotEnoughBytes))
    );
    let mut fields = accessor.get_fields();
    assert!(fields.next().unwrap().is_ok());
    assert!(fields.next().unwrap().is_ok());
    assert_eq!(fields.next(), Some(Err(DexError::VarIntError(VarIntError::NotEnoughBytes))));
    assert_eq!(fields.next(), None);
}

#[test]
fn visitors_see_every_member_in_order() {
    let data = class_data();
    let accessor = ClassAccessor::from_raw(&data).unwrap();
    let seen: RefCell<Vec<String>> = RefCell::new(Vec::new());
    let r = accessor.visit_fields_and_methods(
        |f: &Field| {
            seen.borrow_mut().push(format!("sf{}", f.index));
            Ok(())
        },
        |f: &Field| {
            seen.borrow_mut().push(format!("if{}", f.index));
            Ok(())
        },
        |m: &Method| {
            seen.borrow_mut().push(format!("dm{}", m.index));
            Ok(())
        },
        |m: &Method| {
            seen.borrow_mut().push(format!("vm{}", m.index));
            Ok(())
        },
    );
    assert_eq!(r, Ok(()));
    assert_eq!(*seen.borrow(), vec!["sf3", "sf5", "if2", "dm1", "vm4", "vm4"]);
    assert_eq!(accessor.visit_fields(null_field_visitor, null_field_visitor), Ok(()));
    assert_eq!(accessor.visit_methods(null_method_visitor, null_method_visitor), Ok(()));
}

#[test]
fn a_failing_visitor_stops_the_visit() {
    let data = class_data();
    let accessor = ClassAccessor::from_raw(&data).unwrap();
    let count = RefCell::new(0);
    let r = accessor.visit_methods(
        |_m: &Method| {
            *count.borrow_mut() += 1;
            Ok(())
        },
        |_m: &Method| {
            *count.borrow_mut() += 1;
            Err(DexError::EmptyEncodedValue)
        },
    );
    assert_eq!(r, Err(DexError::EmptyEncodedValue));
    assert_eq!(*count.borrow(), 2);
}

#[test]
fn visit_members_reads_from_the_cursor() {
    let data = class_data();
    let accessor = ClassAccessor::from_raw(&data).unwrap();
    let mut offset = 4usize;
    let mut field = Field::default();
    assert_eq!(accessor.visit_members(2, &mut offset, null_field_visitor, &mut field), Ok(()));
    assert_eq!(offset, 8);
    assert_eq!(field, Field { index: 5, access_flags: 1, is_static: true });
}

#[test]
fn reading_single_members() {
    let mut method = Method::default();
    assert_eq!(
        method,
        Method { index: 0, access_flags: 0, code_offset: 0, is_static_or_direct: true }
    );
    let mut pos = 1usize;
    assert_eq!(method.read(&[0xff, 7, 1, 0x90, 0x01], &mut pos), Ok(()));
    assert_eq!(
        method,
        Method { index: 7, access_flags: 1, code_offset: 0x90, is_static_or_direct: true }
    );
    assert_eq!(pos, 5);
    method.next_section();
    assert_eq!(
        method,
        Method { index: 0, access_flags: 1, code_offset: 0x90, is_static_or_direct: false }
    );
    let mut field = Field::start();
    let mut pos = 0usize;
    assert!(field.read(&[1], &mut pos).is_err());
    assert_eq!(pos, 0);
    assert_eq!(field, Field { index: 0, access_flags: 0, is_static: true });
    field.next_section();
    assert!(!field.is_static());
}

#[test]
fn data_iterator_on_its_own() {
    let data = [9u8, 1, 1, 2];
    let mut it: DataIterator<Field> = DataIterator::new(&data, 0, 1, 2);
    assert_eq!(it.next(), Some(Ok(Field { index: 9, access_flags: 1, is_static: true })));
    assert_eq!(it.next(), Some(Ok(Field { index: 1, access_flags: 2, is_static: false })));
    assert_eq!(it.next(), None);
    let mut it: DataIterator<Field> = DataIterator::new(&data, 100, 1, 2);
    assert_eq!(it.next(), Some(Err(DexError::VarIntError(VarIntError::NotEnoughBytes))));
    assert!(!it.is_valid());
}

#[test]
fn invoke_types() {
    let mut m = Method::default();
    m.access_flags = ACC_STATIC | ACC_PUBLIC;
    assert_eq!(m.get_direct_invoke_type(), InvokeType::Static);
    m.access_flags = ACC_PUBLIC;
    assert_eq!(m.get_direct_invoke_type(), InvokeType::Direct);
    assert_eq!(m.get_virtual_invoke_type(ACC_INTERFACE), InvokeType::Interface);
    assert_eq!(m.get_virtual_invoke_type(ACC_PUBLIC), InvokeType::Virtual);
    m.access_flags = ACC_CONSTRUCTOR;
    assert_eq!(m.get_virtual_invoke_type(0), InvokeType::Super);
    assert_eq!(InvokeType::default(), InvokeType::Custom);
}

fn dex_with_class_data(data: &[u8]) -> Vec<u8> {
    let mut bytes = vec![0u8; 112];
    bytes[0..8].copy_from_slice(b"dex\n035\0");
    bytes[36..40].copy_from_slice(&112u32.to_le_bytes());
    bytes[40..44].copy_from_slice(&0x12345678u32.to_le_bytes());
    bytes.extend_from_slice(data);
    let size = bytes.len() as u32;
    bytes[32..36].copy_from_slice(&size.to_le_bytes());
    bytes
}

fn class_def_at(class_data_off: u32) -> ClassDef {
    ClassDef {
        class_idx: 0,
        access_flags: 0,
        superclass_idx: 0,
        interfaces_off: 0,
        source_file_idx: 0,
        annotations_off: 0,
        class_data_off,
        static_values_off: 0,
    }
}

#[test]
fn class_accessor_of_a_file() {
    let bytes = dex_with_class_data(&class_data());
    let container = InMemoryDexContainer::new(&bytes);
    let dex = DexFile::open(&container, DexLocation::InMemory, VerifyPreset::Off).unwrap();
    assert!(dex.get_class_accessor(&class_def_at(0)).unwrap().is_none());
    let accessor = dex.get_class_accessor(&class_def_at(112)).unwrap().unwrap();
    assert_eq!(accessor.num_fields(), 3);
    assert_eq!(accessor.get_virtual_methods().unwrap().len(), 2);
    let len = bytes.len() as u32;
    assert_eq!(
        dex.get_class_accessor(&class_def_at(len)).err(),
        Some(DexError::BadOffsetTooLarge { offset: len, size: bytes.len(), section: "class_data_off" })
    );
    assert_eq!(
        dex.get_class_accessor(&class_def_at(len - 1)).err(),
        Some(DexError::VarIntError(VarIntError::NotEnoughBytes))
    );
}
