use vstd::prelude::*;

verus! {

/// The little-endian 16-bit value at `off`.
pub open spec fn le16(bytes: Seq<u8>, off: int) -> u16 {
    (bytes[off] + 256 * bytes[off + 1]) as u16
}

/// The little-endian 32-bit value at `off`.
pub open spec fn le32(bytes: Seq<u8>, off: int) -> u32 {
    (bytes[off] + 256 * bytes[off + 1] + 65536 * bytes[off + 2] + 16777216 * bytes[off + 3]) as u32
}

/// Reads the little-endian 16-bit value at `off`.
pub fn read_u16(data: &[u8], off: usize) -> (r: u16)
    requires
        off + 2 <= data@.len(),
    ensures
        r == le16(data@, off as int),
{
    data[off] as u16 + 256 * (data[off + 1] as u16)
}

/// Reads the little-endian 32-bit value at `off`.
pub fn read_u32(data: &[u8], off: usize) -> (r: u32)
    requires
        off + 4 <= data@.len(),
    ensures
        r == le32(data@, off as int),
{
    data[off] as u32 + 256 * (data[off + 1] as u32) + 65536 * (data[off + 2] as u32) + 16777216 * (
    data[off + 3] as u32)
}

/// A fixed-size record of the file, decoded from its bytes.
pub trait DexItem: Sized {
    /// Bytes that one record occupies.
    spec fn size() -> nat;

    /// The record that the bytes at `off` hold.
    spec fn parse(bytes: Seq<u8>, off: int) -> Self;

    /// Bytes that one record occupies.
    fn entry_size() -> (r: usize)
        ensures
            r == Self::size(),
            0 < r <= 32,
    ;

    /// Decodes the record at `off`.
    fn read(data: &[u8], off: usize) -> (r: Self)
        requires
            off + Self::size() <= data@.len() <= usize::MAX,
        ensures
            r == Self::parse(data@, off as int),
    ;

    /// The name under which errors report the record.
    spec fn label() -> &'static str;

    /// The name under which errors report the record.
    fn item_name() -> (r: &'static str)
        ensures
            r == Self::label(),
    ;
}

impl DexItem for u16 {
    open spec fn size() -> nat {
        2
    }

    open spec fn parse(bytes: Seq<u8>, off: int) -> u16 {
        le16(bytes, off)
    }

    fn entry_size() -> usize {
        2
    }

    fn read(data: &[u8], off: usize) -> u16 {
        read_u16(data, off)
    }

    open spec fn label() -> &'static str {
        "u16"
    }

    fn item_name() -> &'static str {
        "u16"
    }
}

impl DexItem for u32 {
    open spec fn size() -> nat {
        4
    }

    open spec fn parse(bytes: Seq<u8>, off: int) -> u32 {
        le32(bytes, off)
    }

    fn entry_size() -> usize {
        4
    }

    fn read(data: &[u8], off: usize) -> u32 {
        read_u32(data, off)
    }

    open spec fn label() -> &'static str {
        "u32"
    }

    fn item_name() -> &'static str {
        "u32"
    }
}

/// Index into the string ids.
pub type StringIndex = u32;

/// Index into the type ids.
pub type TypeIndex = u16;

/// Index into the field ids.
pub type FieldIndex = u32;

/// Index into the proto ids.
pub type ProtoIndex = u16;

/// Index into the method ids.
pub type MethodIndex = u32;

/// Index into the class defs.
pub type ClassDefIndex = u32;

/// Entry of the string-ids table.
#[derive(Debug, Clone, Copy, PartialEq, Eq, Structural)]
pub struct StringId {
    /// Offset of the string data item.
    pub string_data_off: u32,
}

impl DexItem for StringId {
    open spec fn size() -> nat {
        4
    }

    open spec fn parse(bytes: Seq<u8>, off: int) -> StringId {
        StringId {
            string_data_off: le32(bytes, off),
        }
    }

    fn entry_size() -> usize {
        4
    }

    fn read(data: &[u8], off: usize) -> StringId {
        StringId {
            string_data_off: read_u32(data, off),
        }
    }

    open spec fn label() -> &'static str {
        "dexrs::file::structs::StringId"
    }

    fn item_name() -> &'static str {
        "dexrs::file::structs::StringId"
    }
}

/// Entry of the type-ids table.
#[derive(Debug, Clone, Copy, PartialEq, Eq, Structural)]
pub struct TypeId {
    /// String index of the type descriptor.
    pub descriptor_idx: u32,
}

impl DexItem for TypeId {
    open spec fn size() -> nat {
        4
    }

    open spec fn parse(bytes: Seq<u8>, off: int) -> TypeId {
        TypeId {
            descriptor_idx: le32(bytes, off),
        }
    }

    fn entry_size() -> usize {
        4
    }

    fn read(data: &[u8], off: usize) -> TypeId {
        TypeId {
            descriptor_idx: read_u32(data, off),
        }
    }

    open spec fn label() -> &'static str {
        "dexrs::file::structs::TypeId"
    }

    fn item_name() -> &'static str {
        "dexrs::file::structs::TypeId"
    }
}

/// Entry of the field-ids table.
#[derive(Debug, Clone, Copy, PartialEq, Eq, Structural)]
pub struct FieldId {
    /// Type index of the defining class.
    pub class_idx: u16,
    /// Type index of the field type.
    pub type_idx: u16,
    /// String index of the field name.
    pub name_idx: u32,
}

impl DexItem for FieldId {
    open spec fn size() -> nat {
        8
    }

    open spec fn parse(bytes: Seq<u8>, off: int) -> FieldId {
        FieldId {
            class_idx: le16(bytes, off),
            type_idx: le16(bytes, off + 2),
            name_idx: le32(bytes, off + 4),
        }
    }

    fn entry_size() -> usize {
        8
    }

    fn read(data: &[u8], off: usize) -> FieldId {
        FieldId {
            class_idx: read_u16(data, off),
            type_idx: read_u16(data, off + 2),
            name_idx: read_u32(data, off + 4),
        }
    }

    open spec fn label() -> &'static str {
        "dexrs::file::structs::FieldId"
    }

    fn item_name() -> &'static str {
        "dexrs::file::structs::FieldId"
    }
}

/// Entry of the proto-ids table.
#[derive(Debug, Clone, Copy, PartialEq, Eq, Structural)]
pub struct ProtoId {
    /// String index of the shorty descriptor.
    pub shorty_idx: u32,
    /// Type index of the return type.
    pub return_type_idx: u16,
    /// Offset of the parameter type list, or zero.
    pub parameters_off: u32,
}

impl DexItem for ProtoId {
    open spec fn size() -> nat {
        12
    }

    open spec fn parse(bytes: Seq<u8>, off: int) -> ProtoId {
        ProtoId {
            shorty_idx: le32(bytes, off),
            return_type_idx: le16(bytes, off + 4),
            parameters_off: le32(bytes, off + 8),
        }
    }

    fn entry_size() -> usize {
        12
    }

    fn read(data: &[u8], off: usize) -> ProtoId {
        ProtoId {
            shorty_idx: read_u32(data, off),
            return_type_idx: read_u16(data, off + 4),
            parameters_off: read_u32(data, off + 8),
        }
    }

    open spec fn label() -> &'static str {
        "dexrs::file::structs::ProtoId"
    }

    fn item_name() -> &'static str {
        "dexrs::file::structs::ProtoId"
    }
}

/// Entry of the method-ids table.
#[derive(Debug, Clone, Copy, PartialEq, Eq, Structural)]
pub struct MethodId {
    /// Type index of the defining class.
    pub class_idx: u16,
    /// Proto index of the method signature.
    pub proto_idx: u16,
    /// String index of the method name.
    pub name_idx: u32,
}

impl DexItem for MethodId {
    open spec fn size() -> nat {
        8
    }

    open spec fn parse(bytes: Seq<u8>, off: int) -> MethodId {
        MethodId {
            class_idx: le16(bytes, off),
            proto_idx: le16(bytes, off + 2),
            name_idx: le32(bytes, off + 4),
        }
    }

    fn entry_size() -> usize {
        8
    }

    fn read(data: &[u8], off: usize) -> MethodId {
        MethodId {
            class_idx: read_u16(data, off),
            proto_idx: read_u16(data, off + 2),
            name_idx: read_u32(data, off + 4),
        }
    }

    open spec fn label() -> &'static str {
        "dexrs::file::structs::MethodId"
    }

    fn item_name() -> &'static str {
        "dexrs::file::structs::MethodId"
    }
}

/// Entry of the class-defs table.
#[derive(Debug, Clone, Copy, PartialEq, Eq, Structural)]
pub struct ClassDef {
    /// Type index of this class.
    pub class_idx: u16,
    pub access_flags: u32,
    /// Type index of the superclass.
    pub superclass_idx: u16,
    /// Offset of the interface type list, or zero.
    pub interfaces_off: u32,
    /// String index of the source file name.
    pub source_file_idx: u32,
    /// Offset of the annotations directory, or zero.
    pub annotations_off: u32,
    /// Offset of the class data, or zero.
    pub class_data_off: u32,
    /// Offset of the static initial values, or zero.
    pub static_values_off: u32,
}

impl DexItem for ClassDef {
    open spec fn size() -> nat {
        32
    }

    open spec fn parse(bytes: Seq<u8>, off: int) -> ClassDef {
        ClassDef {
            class_idx: le16(bytes, off),
            access_flags: le32(bytes, off + 4),
            superclass_idx: le16(bytes, off + 8),
            interfaces_off: le32(bytes, off + 12),
            source_file_idx: le32(bytes, off + 16),
            annotations_off: le32(bytes, off + 20),
            class_data_off: le32(bytes, off + 24),
            static_values_off: le32(bytes, off + 28),
        }
    }

    fn entry_size() -> usize {
        32
    }

    fn read(data: &[u8], off: usize) -> ClassDef {
        ClassDef {
            class_idx: read_u16(data, off),
            access_flags: read_u32(data, off + 4),
            superclass_idx: read_u16(data, off + 8),
            interfaces_off: read_u32(data, off + 12),
            source_file_idx: read_u32(data, off + 16),
            annotations_off: read_u32(data, off + 20),
            class_data_off: read_u32(data, off + 24),
            static_values_off: read_u32(data, off + 28),
        }
    }

    open spec fn label() -> &'static str {
        "dexrs::file::structs::ClassDef"
    }

    fn item_name() -> &'static str {
        "dexrs::file::structs::ClassDef"
    }
}

/// Entry of a type list.
#[derive(Debug, Clone, Copy, PartialEq, Eq, Structural)]
pub struct TypeItem {
    /// Index into the type-ids table.
    pub type_idx: u16,
}

impl DexItem for TypeItem {
    open spec fn size() -> nat {
        2
    }

    open spec fn parse(bytes: Seq<u8>, off: int) -> TypeItem {
        TypeItem {
            type_idx: le16(bytes, off),
        }
    }

    fn entry_size() -> usize {
        2
    }

    fn read(data: &[u8], off: usize) -> TypeItem {
        TypeItem {
            type_idx: read_u16(data, off),
        }
    }

    open spec fn label() -> &'static str {
        "dexrs::file::structs::TypeItem"
    }

    fn item_name() -> &'static str {
        "dexrs::file::structs::TypeItem"
    }
}

/// Entry of the map list.
#[derive(Debug, Clone, Copy, PartialEq, Eq, Structural)]
pub struct MapItem {
    /// The kind of the section, as stored.
    pub type_: u16,
    /// Number of items in the section.
    pub size: u32,
    /// Offset of the section.
    pub off: u32,
}

impl DexItem for MapItem {
    open spec fn size() -> nat {
        12
    }

    open spec fn parse(bytes: Seq<u8>, off: int) -> MapItem {
        MapItem {
            type_: le16(bytes, off),
            size: le32(bytes, off + 4),
            off: le32(bytes, off + 8),
        }
    }

    fn entry_size() -> usize {
        12
    }

    fn read(data: &[u8], off: usize) -> MapItem {
        MapItem {
            type_: read_u16(data, off),
            size: read_u32(data, off + 4),
            off: read_u32(data, off + 8),
        }
    }

    open spec fn label() -> &'static str {
        "dexrs::file::structs::MapItem"
    }

    fn item_name() -> &'static str {
        "dexrs::file::structs::MapItem"
    }
}

/// Entry of the method-handles section.
#[derive(Debug, Clone, Copy, PartialEq, Eq, Structural)]
pub struct MethodHandleItem {
    pub method_handle_type: u16,
    /// Field index for accessors, method index otherwise.
    pub field_or_method_idx: u16,
}

impl DexItem for MethodHandleItem {
    open spec fn size() -> nat {
        8
    }

    open spec fn parse(bytes: Seq<u8>, off: int) -> MethodHandleItem {
        MethodHandleItem {
            method_handle_type: le16(bytes, off),
            field_or_method_idx: le16(bytes, off + 4),
        }
    }

    fn entry_size() -> usize {
        8
    }

    fn read(data: &[u8], off: usize) -> MethodHandleItem {
        MethodHandleItem {
            method_handle_type: read_u16(data, off),
            field_or_method_idx: read_u16(data, off + 4),
        }
    }

    open spec fn label() -> &'static str {
        "dexrs::file::structs::MethodHandleItem"
    }

    fn item_name() -> &'static str {
        "dexrs::file::structs::MethodHandleItem"
    }
}

/// Entry of the call-site-ids section.
#[derive(Debug, Clone, Copy, PartialEq, Eq, Structural)]
pub struct CallSiteIdItem {
    /// Offset of the encoded array that describes the call site.
    pub data_off: u32,
}

impl DexItem for CallSiteIdItem {
    open spec fn size() -> nat {
        4
    }

    open spec fn parse(bytes: Seq<u8>, off: int) -> CallSiteIdItem {
        CallSiteIdItem {
            data_off: le32(bytes, off),
        }
    }

    fn entry_size() -> usize {
        4
    }

    fn read(data: &[u8], off: usize) -> CallSiteIdItem {
        CallSiteIdItem {
            data_off: read_u32(data, off),
        }
    }

    open spec fn label() -> &'static str {
        "dexrs::file::structs::CallSiteIdItem"
    }

    fn item_name() -> &'static str {
        "dexrs::file::structs::CallSiteIdItem"
    }
}

/// Fixed prefix of a code item.
#[derive(Debug, Clone, Copy, PartialEq, Eq, Structural)]
pub struct CodeItem {
    pub registers_size: u16,
    pub ins_size: u16,
    pub outs_size: u16,
    pub tries_size: u16,
    pub debug_info_off: u32,
    /// Number of code units that follow.
    pub insns_size: u32,
}

impl DexItem for CodeItem {
    open spec fn size() -> nat {
        16
    }

    open spec fn parse(bytes: Seq<u8>, off: int) -> CodeItem {
        CodeItem {
            registers_size: le16(bytes, off),
            ins_size: le16(bytes, off + 2),
            outs_size: le16(bytes, off + 4),
            tries_size: le16(bytes, off + 6),
            debug_info_off: le32(bytes, off + 8),
            insns_size: le32(bytes, off + 12),
        }
    }

    fn entry_size() -> usize {
        16
    }

    fn read(data: &[u8], off: usize) -> CodeItem {
        CodeItem {
            registers_size: read_u16(data, off),
            ins_size: read_u16(data, off + 2),
            outs_size: read_u16(data, off + 4),
            tries_size: read_u16(data, off + 6),
            debug_info_off: read_u32(data, off + 8),
            insns_size: read_u32(data, off + 12),
        }
    }

    open spec fn label() -> &'static str {
        "dexrs::file::structs::CodeItem"
    }

    fn item_name() -> &'static str {
        "dexrs::file::structs::CodeItem"
    }
}

/// Entry of a code item's try table.
#[derive(Debug, Clone, Copy, PartialEq, Eq, Structural)]
pub struct TryItem {
    /// First covered code unit.
    pub start_addr: u32,
    /// Number of covered code units.
    pub insn_count: u16,
    /// Byte offset of the handler within the handler list.
    pub handler_off: u16,
}

impl DexItem for TryItem {
    open spec fn size() -> nat {
        8
    }

    open spec fn parse(bytes: Seq<u8>, off: int) -> TryItem {
        TryItem {
            start_addr: le32(bytes, off),
            insn_count: le16(bytes, off + 4),
            handler_off: le16(bytes, off + 6),
        }
    }

    fn entry_size() -> usize {
        8
    }

    fn read(data: &[u8], off: usize) -> TryItem {
        TryItem {
            start_addr: read_u32(data, off),
            insn_count: read_u16(data, off + 4),
            handler_off: read_u16(data, off + 6),
        }
    }

    open spec fn label() -> &'static str {
        "dexrs::file::structs::TryItem"
    }

    fn item_name() -> &'static str {
        "dexrs::file::structs::TryItem"
    }
}

/// Header of a class's annotations directory.
#[derive(Debug, Clone, Copy, PartialEq, Eq, Structural)]
pub struct AnnotationsDirectoryItem {
    pub class_annotations_off: u32,
    pub fields_size: u32,
    pub methods_size: u32,
    pub parameters_size: u32,
}

impl DexItem for AnnotationsDirectoryItem {
    open spec fn size() -> nat {
        16
    }

    open spec fn parse(bytes: Seq<u8>, off: int) -> AnnotationsDirectoryItem {
        AnnotationsDirectoryItem {
            class_annotations_off: le32(bytes, off),
            fields_size: le32(bytes, off + 4),
            methods_size: le32(bytes, off + 8),
            parameters_size: le32(bytes, off + 12),
        }
    }

    fn entry_size() -> usize {
        16
    }

    fn read(data: &[u8], off: usize) -> AnnotationsDirectoryItem {
        AnnotationsDirectoryItem {
            class_annotations_off: read_u32(data, off),
            fields_size: read_u32(data, off + 4),
            methods_size: read_u32(data, off + 8),
            parameters_size: read_u32(data, off + 12),
        }
    }

    open spec fn label() -> &'static str {
        "dexrs::file::structs::AnnotationsDirectoryItem"
    }

    fn item_name() -> &'static str {
        "dexrs::file::structs::AnnotationsDirectoryItem"
    }
}

/// Annotations of one field.
#[derive(Debug, Clone, Copy, PartialEq, Eq, Structural)]
pub struct FieldAnnotationsItem {
    pub field_idx: u32,
    pub annotations_off: u32,
}

impl DexItem for FieldAnnotationsItem {
    open spec fn size() -> nat {
        8
    }

    open spec fn parse(bytes: Seq<u8>, off: int) -> FieldAnnotationsItem {
        FieldAnnotationsItem {
            field_idx: le32(bytes, off),
            annotations_off: le32(bytes, off + 4),
        }
    }

    fn entry_size() -> usize {
        8
    }

    fn read(data: &[u8], off: usize) -> FieldAnnotationsItem {
        FieldAnnotationsItem {
            field_idx: read_u32(data, off),
            annotations_off: read_u32(data, off + 4),
        }
    }

    open spec fn label() -> &'static str {
        "dexrs::file::structs::FieldAnnotationsItem"
    }

    fn item_name() -> &'static str {
        "dexrs::file::structs::FieldAnnotationsItem"
    }
}

/// Annotations of one method.
#[derive(Debug, Clone, Copy, PartialEq, Eq, Structural)]
pub struct MethodAnnotationsItem {
    pub method_idx: u32,
    pub annotations_off: u32,
}

impl DexItem for MethodAnnotationsItem {
    open spec fn size() -> nat {
        8
    }

    open spec fn parse(bytes: Seq<u8>, off: int) -> MethodAnnotationsItem {
        MethodAnnotationsItem {
            method_idx: le32(bytes, off),
            annotations_off: le32(bytes, off + 4),
        }
    }

    fn entry_size() -> usize {
        8
    }

    fn read(data: &[u8], off: usize) -> MethodAnnotationsItem {
        MethodAnnotationsItem {
            method_idx: read_u32(data, off),
            annotations_off: read_u32(data, off + 4),
        }
    }

    open spec fn label() -> &'static str {
        "dexrs::file::structs::MethodAnnotationsItem"
    }

    fn item_name() -> &'static str {
        "dexrs::file::structs::MethodAnnotationsItem"
    }
}

/// Annotations of one method's parameters.
#[derive(Debug, Clone, Copy, PartialEq, Eq, Structural)]
pub struct ParameterAnnotationsItem {
    pub method_idx: u32,
    pub annotations_off: u32,
}

impl DexItem for ParameterAnnotationsItem {
    open spec fn size() -> nat {
        8
    }

    open spec fn parse(bytes: Seq<u8>, off: int) -> ParameterAnnotationsItem {
        ParameterAnnotationsItem {
            method_idx: le32(bytes, off),
            annotations_off: le32(bytes, off + 4),
        }
    }

    fn entry_size() -> usize {
        8
    }

    fn read(data: &[u8], off: usize) -> ParameterAnnotationsItem {
        ParameterAnnotationsItem {
            method_idx: read_u32(data, off),
            annotations_off: read_u32(data, off + 4),
        }
    }

    open spec fn label() -> &'static str {
        "dexrs::file::structs::ParameterAnnotationsItem"
    }

    fn item_name() -> &'static str {
        "dexrs::file::structs::ParameterAnnotationsItem"
    }
}

impl StringId {
    /// The offset of the string data item.
    #[inline]
    pub fn offset(&self) -> (r: usize)
        ensures
            r == self.string_data_off,
    {
        self.string_data_off as usize
    }
}

/// The kinds of section that a map list names.
#[derive(Debug, Clone, Copy, PartialEq, Eq, Structural)]
pub enum MapItemType {
    HeaderItem,
    StringIdItem,
    TypeIdItem,
    ProtoIdItem,
    FieldIdItem,
    MethodIdItem,
    ClassDefItem,
    CallSiteIdItem,
    MethodHandleItem,
    MapList,
    TypeList,
    AnnotationSetRefList,
    AnnotationSetItem,
    ClassDataItem,
    CodeItem,
    StringDataItem,
    DebugInfoItem,
    AnnotationItem,
    EncodedArrayItem,
    AnnotationsDirectoryItem,
    HiddenapiClassData,
}

/// The section kind that the stored value `raw` names, if it names one.
pub open spec fn map_item_type_of(raw: u16) -> Option<MapItemType> {
    match raw {
        0x0000 => Some(MapItemType::HeaderItem),
        0x0001 => Some(MapItemType::StringIdItem),
        0x0002 => Some(MapItemType::TypeIdItem),
        0x0003 => Some(MapItemType::ProtoIdItem),
        0x0004 => Some(MapItemType::FieldIdItem),
        0x0005 => Some(MapItemType::MethodIdItem),
        0x0006 => Some(MapItemType::ClassDefItem),
        0x0007 => Some(MapItemType::CallSiteIdItem),
        0x0008 => Some(MapItemType::MethodHandleItem),
        0x1000 => Some(MapItemType::MapList),
        0x1001 => Some(MapItemType::TypeList),
        0x1002 => Some(MapItemType::AnnotationSetRefList),
        0x1003 => Some(MapItemType::AnnotationSetItem),
        0x2000 => Some(MapItemType::ClassDataItem),
        0x2001 => Some(MapItemType::CodeItem),
        0x2002 => Some(MapItemType::StringDataItem),
        0x2003 => Some(MapItemType::DebugInfoItem),
        0x2004 => Some(MapItemType::AnnotationItem),
        0x2005 => Some(MapItemType::EncodedArrayItem),
        0x2006 => Some(MapItemType::AnnotationsDirectoryItem),
        0xF000 => Some(MapItemType::HiddenapiClassData),
        _ => None,
    }
}

impl MapItem {
    /// The kind of section the entry describes; nothing for a value that
    /// names no kind.
    pub fn item_type(&self) -> (r: Option<MapItemType>)
        ensures
            r == map_item_type_of(self.type_),
    {
        match self.type_ {
            0x0000 => Some(MapItemType::HeaderItem),
            0x0001 => Some(MapItemType::StringIdItem),
            0x0002 => Some(MapItemType::TypeIdItem),
            0x0003 => Some(MapItemType::ProtoIdItem),
            0x0004 => Some(MapItemType::FieldIdItem),
            0x0005 => Some(MapItemType::MethodIdItem),
            0x0006 => Some(MapItemType::ClassDefItem),
            0x0007 => Some(MapItemType::CallSiteIdItem),
            0x0008 => Some(MapItemType::MethodHandleItem),
            0x1000 => Some(MapItemType::MapList),
            0x1001 => Some(MapItemType::TypeList),
            0x1002 => Some(MapItemType::AnnotationSetRefList),
            0x1003 => Some(MapItemType::AnnotationSetItem),
            0x2000 => Some(MapItemType::ClassDataItem),
            0x2001 => Some(MapItemType::CodeItem),
            0x2002 => Some(MapItemType::StringDataItem),
            0x2003 => Some(MapItemType::DebugInfoItem),
            0x2004 => Some(MapItemType::AnnotationItem),
            0x2005 => Some(MapItemType::EncodedArrayItem),
            0x2006 => Some(MapItemType::AnnotationsDirectoryItem),
            0xF000 => Some(MapItemType::HiddenapiClassData),
            _ => None,
        }
    }
}

/// The hidden-API section: its size in bytes and, behind that, one offset
/// per class definition into the flags that follow.
#[derive(Debug, Clone, Copy)]
pub struct HiddenapiClassData<'a> {
    pub size: u32,
    flags_offset: &'a [u8],
}

/// The offset that the section stores for a class definition; nothing
/// where the section is too short for the index.
pub open spec fn flags_start(flags: Seq<u8>, class_def_idx: u32) -> Option<u32> {
    if class_def_idx * 4 + 4 <= flags.len() {
        Some(le32(flags, class_def_idx * 4))
    } else {
        None
    }
}

impl<'a> HiddenapiClassData<'a> {
    /// The bytes of the section behind its size.
    pub closed spec fn flags(&self) -> Seq<u8> {
        self.flags_offset@
    }

    /// The size of the section in bytes, as its first four bytes state it.
    pub closed spec fn stated_size(&self) -> u32 {
        self.size
    }

    /// Takes a section: its first four bytes are its size, the rest the
    /// offsets and flags. Nothing where `data` is shorter than four bytes.
    pub fn from_bytes(data: &'a [u8]) -> (r: Option<HiddenapiClassData<'a>>)
        ensures
            data@.len() < 4 ==> r is None,
            data@.len() >= 4 ==> r is Some && r->Some_0.stated_size() == le32(data@, 0)
                && r->Some_0.flags() == data@.subrange(4, data@.len() as int),
    {
        if data.len() < 4 {
            return None;
        }
        Some(
            HiddenapiClassData {
                size: read_u32(data, 0),
                flags_offset: vstd::slice::slice_subrange(data, 4, data.len()),
            },
        )
    }

    /// The flags of the members of a class: the bytes of the section from
    /// the offset stored for the class on. The offset counts from the start
    /// of the section, size field included. Nothing where the class has no
    /// flags, or where index or offset lie outside the section.
    pub fn get_flags_slice(&self, class_def_idx: u32) -> (r: Option<&'a [u8]>)
        ensures
            match flags_start(self.flags(), class_def_idx) {
                Some(start) => if 4 <= start && start - 4 <= self.flags().len() {
                    r is Some && r->Some_0@ == self.flags().subrange(
                        start - 4,
                        self.flags().len() as int,
                    )
                } else {
                    r is None
                },
                None => r is None,
            },
    {
        let flags = self.flags_offset;
        let len = flags.len();
        if len < 4 || class_def_idx as u64 * 4 > (len - 4) as u64 {
            return None;
        }
        let start = read_u32(flags, class_def_idx as usize * 4);
        if start < 4 || (start - 4) as u64 > len as u64 {
            return None;
        }
        Some(vstd::slice::slice_subrange(flags, (start - 4) as usize, len))
    }
}

} // verus!
