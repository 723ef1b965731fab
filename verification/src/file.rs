//! The DEX file itself: header, id tables, accessors and bytecode.

pub mod annotations;
pub mod class_accessor;
pub mod code_flags;
pub mod code_item_accessors;
pub mod container;
pub mod debug;
pub mod dump;
pub mod flags;
pub mod header;
pub mod instruction;
pub mod modifiers;
pub mod opcodes;
pub mod payload;
pub mod signatures;
pub mod structs;
pub mod verification;
pub mod verify_flags;
pub mod vreg;

use vstd::prelude::*;
use vstd::slice::slice_subrange;
use vstd::string::*;

use crate::error::DexError;
use crate::file::container::DexContainer;
use crate::file::dump::text::{debug_string, debug_text, dec, push_dec};
use crate::file::header::{Header, HEADER_SIZE};
use crate::file::structs::{
    le32, read_u32, CallSiteIdItem, ClassDef, DexItem, FieldId, FieldIndex, HiddenapiClassData,
    MapItem, MethodHandleItem, MethodId, ProtoId, ProtoIndex, StringId, StringIndex, TypeId,
    TypeIndex, TypeItem,
};
use crate::file::verification::{header_error, VerifyPreset};
use crate::leb128::{decode_leb128, lemma_decode_size, uleb128_decode};
use crate::utf::{
    decode_units_lossy, mutf8_chars, mutf8_to_str, mutf8_to_str_lossy, utf16_chars_lossy,
};

verus! {

/// The byte order mark of a little-endian file.
pub const DEX_ENDIAN_CONSTANT: u32 = 0x12345678;

/// The index value that stands for "no index".
pub const DEX_NO_INDEX: u32 = 0xffffffff;

/// Where the bytes of a file came from.
#[derive(Debug, Clone)]
pub enum DexLocation {
    InMemory,
    Path(String),
}

/// The name of a location as messages show it.
pub open spec fn location_text(location: DexLocation) -> Seq<char> {
    match location {
        DexLocation::InMemory => "[in-memory]"@,
        DexLocation::Path(path) => path@,
    }
}

/// A location as the `Debug` formatting of its type shows it: the name of
/// the variant, and for a path the quoted path in brackets behind it.
pub open spec fn location_debug(location: DexLocation) -> Seq<char> {
    match location {
        DexLocation::InMemory => "InMemory"@,
        DexLocation::Path(path) => "Path("@ + debug_text(path@) + ")"@,
    }
}

impl DexLocation {
    /// The location as the `Debug` formatting of its type shows it.
    pub fn to_debug_string(&self) -> (r: String)
        ensures
            r@ == location_debug(*self),
    {
        match self {
            DexLocation::InMemory => String::from_str("InMemory"),
            DexLocation::Path(path) => {
                let mut out = String::from_str("Path(");
                let quoted = debug_string(path.as_str());
                out.append(quoted.as_str());
                out.append(")");
                out
            },
        }
    }

    /// The location of a file at `path`.
    pub fn path(path: &str) -> (r: DexLocation)
        ensures
            location_text(r) == path@,
            r is Path,
    {
        DexLocation::Path(String::from_str(path))
    }

    /// The name of the location as messages show it.
    pub fn to_string(&self) -> (r: String)
        ensures
            r@ == location_text(*self),
    {
        match self {
            DexLocation::InMemory => String::from_str("[in-memory]"),
            DexLocation::Path(path) => path.clone(),
        }
    }
}

/// A table of fixed-size records inside the file: where it starts and how
/// many records it holds.
#[derive(Debug, Clone, Copy, PartialEq, Eq, Structural)]
pub struct Table {
    pub offset: u32,
    pub size: u32,
}

/// The table of `len` records of `entry` bytes at `offset`, or the empty
/// table where these do not all lie within `bytes`.
pub open spec fn section_at(bytes: Seq<u8>, entry: nat, offset: u32, len: u32) -> Table {
    if len == 0 || offset + len * entry > bytes.len() {
        Table { offset: 0, size: 0 }
    } else {
        Table { offset, size: len }
    }
}

/// Whether all records of `table` lie within `bytes`.
pub open spec fn table_fits(bytes: Seq<u8>, entry: nat, table: Table) -> bool {
    table.size > 0 ==> table.offset + table.size * entry <= bytes.len()
}

/// The record at `idx` of a table, or the error of an index beyond it.
pub open spec fn entry_at<T: DexItem>(
    bytes: Seq<u8>,
    table: Table,
    idx: u32,
    label: &'static str,
) -> Result<T, DexError> {
    if idx < table.size {
        Ok(T::parse(bytes, table.offset + idx * T::size()))
    } else {
        Err(DexError::DexIndexError { index: idx, max: table.size as usize, item_ty: label })
    }
}

/// All records of a table, in order.
pub open spec fn entries_of<T: DexItem>(bytes: Seq<u8>, table: Table) -> Seq<T> {
    Seq::new(table.size as nat, |i: int| T::parse(bytes, table.offset + i * T::size()))
}

/// A looked-up record as an optional one.
pub open spec fn wrap_some<T>(r: Result<T, DexError>) -> Result<Option<T>, DexError> {
    match r {
        Ok(v) => Ok(Some(v)),
        Err(e) => Err(e),
    }
}

/// Where the string-ids table lies, as the header says; empty where it
/// does not fit the file.
pub open spec fn string_ids_of(bytes: Seq<u8>) -> Table {
    section_at(bytes, 4, le32(bytes, 60), le32(bytes, 56))
}

/// Where the type-ids table lies, as the header says; empty where it
/// does not fit the file.
pub open spec fn type_ids_of(bytes: Seq<u8>) -> Table {
    section_at(bytes, 4, le32(bytes, 68), le32(bytes, 64))
}

/// Where the field-ids table lies, as the header says; empty where it
/// does not fit the file.
pub open spec fn field_ids_of(bytes: Seq<u8>) -> Table {
    section_at(bytes, 8, le32(bytes, 84), le32(bytes, 80))
}

/// Where the proto-ids table lies, as the header says; empty where it
/// does not fit the file.
pub open spec fn proto_ids_of(bytes: Seq<u8>) -> Table {
    section_at(bytes, 12, le32(bytes, 76), le32(bytes, 72))
}

/// Where the method-ids table lies, as the header says; empty where it
/// does not fit the file.
pub open spec fn method_ids_of(bytes: Seq<u8>) -> Table {
    section_at(bytes, 8, le32(bytes, 92), le32(bytes, 88))
}

/// Where the class-defs table lies, as the header says; empty where it
/// does not fit the file.
pub open spec fn class_defs_of(bytes: Seq<u8>) -> Table {
    section_at(bytes, 32, le32(bytes, 100), le32(bytes, 96))
}

/// Whether the map list can be read: its offset is set, its count lies
/// within the file, and as many entries as it counts fit behind it.
pub open spec fn map_available(bytes: Seq<u8>) -> bool {
    let off = le32(bytes, 52);
    off != 0 && off + 4 <= bytes.len() && le32(bytes, off as int) <= (bytes.len() - 4 - off) / 12
}

/// The number of entries in the map list.
pub open spec fn map_count(bytes: Seq<u8>) -> u32 {
    le32(bytes, le32(bytes, 52) as int)
}

/// Entry `i` of the map list.
pub open spec fn map_item(bytes: Seq<u8>, i: int) -> MapItem {
    MapItem::parse(bytes, le32(bytes, 52) + 4 + 12 * i)
}

/// The last of the first `n` map entries whose stored kind is `kind`.
pub open spec fn last_of_kind(bytes: Seq<u8>, kind: u16, n: nat) -> Option<MapItem>
    decreases n,
{
    if n == 0 {
        None
    } else if map_item(bytes, n - 1).type_ == kind {
        Some(map_item(bytes, n - 1))
    } else {
        last_of_kind(bytes, kind, (n - 1) as nat)
    }
}

/// The table of `entry`-byte records that the map entry `item` locates.
pub open spec fn mapped_table(bytes: Seq<u8>, entry: nat, item: Option<MapItem>) -> Table {
    match item {
        Some(it) => section_at(bytes, entry, it.off, it.size),
        None => Table { offset: 0, size: 0 },
    }
}

/// Where the method-handles section lies: as the last map entry of that kind
/// says, empty without a readable map list.
pub open spec fn method_handles_of(bytes: Seq<u8>) -> Table {
    if map_available(bytes) {
        mapped_table(bytes, 8, last_of_kind(bytes, 0x0008, map_count(bytes) as nat))
    } else {
        Table { offset: 0, size: 0 }
    }
}

/// Where the call-site-ids section lies: as the last map entry of that kind
/// says, empty without a readable map list.
pub open spec fn call_site_ids_of(bytes: Seq<u8>) -> Table {
    if map_available(bytes) {
        mapped_table(bytes, 4, last_of_kind(bytes, 0x0007, map_count(bytes) as nat))
    } else {
        Table { offset: 0, size: 0 }
    }
}

/// The last map entry of the stored kind `kind`; nothing without a readable
/// map list.
pub open spec fn mapped_item(bytes: Seq<u8>, kind: u16) -> Option<MapItem> {
    if map_available(bytes) {
        last_of_kind(bytes, kind, map_count(bytes) as nat)
    } else {
        None
    }
}

/// Where the hidden-API section lies, from its first byte to behind its
/// last: at the offset of the last map entry of that kind, as long as its
/// own first four bytes say. Nothing where the map list names none, or
/// where these bytes do not lie within the file.
pub open spec fn hiddenapi_of(bytes: Seq<u8>) -> Option<(int, int)> {
    match mapped_item(bytes, 0xF000) {
        Some(item) => if item.off + 4 <= bytes.len() && 4 <= le32(bytes, item.off as int)
            && item.off + le32(bytes, item.off as int) <= bytes.len() {
            Some((item.off as int, item.off + le32(bytes, item.off as int)))
        } else {
            None
        },
        None => None,
    }
}

/// Whether the magic starts with `"dex\n"`.
pub open spec fn magic_valid(bytes: Seq<u8>) -> bool {
    bytes[0] == 0x64 && bytes[1] == 0x65 && bytes[2] == 0x78 && bytes[3] == 0x0a
}

/// Whether the version bytes of the magic are one of `035`, `037`, `038`,
/// `039`, `040` and `041`, followed by a NUL.
pub open spec fn version_valid(bytes: Seq<u8>) -> bool {
    bytes[4] == 0x30 && bytes[7] == 0 && ((bytes[5] == 0x33 && (bytes[6] == 0x35 || bytes[6] == 0x37
        || bytes[6] == 0x38 || bytes[6] == 0x39)) || (bytes[5] == 0x34 && (bytes[6] == 0x30
        || bytes[6] == 0x31)))
}

/// The header size that the version of the magic calls for; zero where the
/// magic spells no version.
pub open spec fn expected_header_size_of(bytes: Seq<u8>) -> u32 {
    let version = crate::file::header::version_of(bytes.subrange(0, 8));
    if version == 0 {
        0
    } else if version < 41 {
        112
    } else {
        120
    }
}

/// What the opening of a file can object to before any verification.
#[derive(Debug, Clone, Copy, PartialEq, Eq, Structural)]
pub enum Complaint {
    /// The magic does not start with `"dex\n"`.
    Magic,
    /// The magic spells none of the known versions.
    Version,
    /// The header states a size above that of its version.
    HeaderSize,
    /// The header states a file size above the number of bytes.
    FileSize,
}

/// What opening a file of at least 112 bytes objects to first, before any
/// verification.
pub open spec fn init_complaint(bytes: Seq<u8>) -> Option<Complaint> {
    if !magic_valid(bytes) {
        Some(Complaint::Magic)
    } else if !version_valid(bytes) {
        Some(Complaint::Version)
    } else if expected_header_size_of(bytes) < le32(bytes, 36) {
        Some(Complaint::HeaderSize)
    } else if bytes.len() < le32(bytes, 32) {
        Some(Complaint::FileSize)
    } else {
        None
    }
}

/// The four bytes from `at` on as a list: their decimal values between
/// square brackets, with a comma and a space between two of them.
pub open spec fn byte_list(bytes: Seq<u8>, at: int) -> Seq<char> {
    "["@ + dec(bytes[at] as nat) + ", "@ + dec(bytes[at + 1] as nat) + ", "@ + dec(
        bytes[at + 2] as nat,
    ) + ", "@ + dec(bytes[at + 3] as nat) + "]"@
}

/// The message of a complaint about a file of these bytes, opened from this
/// location: what is wrong, where, and the bytes or sizes that show it.
pub open spec fn complaint_text(c: Complaint, bytes: Seq<u8>, location: DexLocation) -> Seq<char> {
    match c {
        Complaint::Magic => "Unrecognized magic number in "@ + location_debug(location) + ": "@
            + byte_list(bytes, 0),
        Complaint::Version => "Unrecognized dex version in "@ + location_debug(location) + ": "@
            + byte_list(bytes, 4),
        Complaint::HeaderSize => "Unable to open "@ + location_debug(location)
            + ": Header size is "@ + dec(expected_header_size_of(bytes) as nat) + " but "@ + dec(
            le32(bytes, 36) as nat,
        ) + " was expected"@,
        Complaint::FileSize => "Unable to open "@ + location_debug(location)
            + ": File size is "@ + dec(bytes.len()) + " but the header expects "@ + dec(
            le32(bytes, 32) as nat,
        ),
    }
}

/// The position of the first NUL byte at or behind `start`.
pub open spec fn first_nul(bytes: Seq<u8>, start: int) -> Option<int>
    decreases bytes.len() - start,
{
    if start < 0 || start >= bytes.len() {
        None
    } else if bytes[start] == 0 {
        Some(start)
    } else {
        first_nul(bytes, start + 1)
    }
}

/// `x`, or the largest `u32` where `x` does not fit.
pub open spec fn clamp_u32(x: int) -> u32 {
    if x <= u32::MAX {
        x as u32
    } else {
        u32::MAX
    }
}

/// `x`, or the largest `u32` where `x` does not fit.
pub fn clamp_to_u32(x: usize) -> (r: u32)
    ensures
        r == clamp_u32(x as int),
{
    if x > 0xffff_ffff {
        0xffff_ffff
    } else {
        x as u32
    }
}

/// The string data item at `off`: the UTF-16 length that it states, and its
/// Modified UTF-8 bytes up to and with the closing NUL. The errors, in the
/// order in which they are looked for: an offset beyond the file, a length
/// that is no LEB128, no NUL between the length and the end of the file.
pub open spec fn string_data_of(bytes: Seq<u8>, off: u32) -> Result<(u32, Seq<u8>), DexError> {
    if off >= bytes.len() {
        Err(DexError::DexIndexError { index: off, max: bytes.len() as usize, item_ty: "string-id" })
    } else {
        match uleb128_decode(bytes.subrange(off as int, bytes.len() as int)) {
            Err(kind) => Err(DexError::BadStringData { offset: off as usize, kind }),
            Ok((utf16_len, read)) => match first_nul(bytes, off + read) {
                Some(end) => Ok((utf16_len, bytes.subrange(off + read, end + 1))),
                None => Err(DexError::BadStringDataMissingNullByte((off + read) as usize)),
            },
        }
    }
}

/// Whether a result holds the text, or is the error, that `want` names.
pub open spec fn is_text(r: Result<String, DexError>, want: Result<Seq<char>, DexError>) -> bool {
    match want {
        Ok(chars) => r is Ok && r->Ok_0@ == chars,
        Err(e) => r == Err::<String, DexError>(e),
    }
}

/// The string whose data item lies at `off`, decoded strictly.
pub open spec fn text_of(bytes: Seq<u8>, off: u32) -> Result<Seq<char>, DexError> {
    match string_data_of(bytes, off) {
        Ok((_, data)) => mutf8_chars(data),
        Err(e) => Err(e),
    }
}

/// The string whose data item lies at `off`, decoded lossily.
pub open spec fn text_lossy_of(bytes: Seq<u8>, off: u32) -> Result<Seq<char>, DexError> {
    match string_data_of(bytes, off) {
        Ok((_, data)) => Ok(utf16_chars_lossy(decode_units_lossy(data))),
        Err(e) => Err(e),
    }
}

/// The string at index `idx`, decoded strictly.
pub open spec fn string_at(bytes: Seq<u8>, idx: u32) -> Result<Seq<char>, DexError> {
    match entry_at::<StringId>(bytes, string_ids_of(bytes), idx, "StringId") {
        Ok(string_id) => text_of(bytes, string_id.string_data_off),
        Err(e) => Err(e),
    }
}

/// The string at index `idx`, decoded lossily.
pub open spec fn string_lossy_at(bytes: Seq<u8>, idx: u32) -> Result<Seq<char>, DexError> {
    match entry_at::<StringId>(bytes, string_ids_of(bytes), idx, "StringId") {
        Ok(string_id) => text_lossy_of(bytes, string_id.string_data_off),
        Err(e) => Err(e),
    }
}

/// The descriptor of the type at index `idx`, decoded strictly.
pub open spec fn type_desc_at(bytes: Seq<u8>, idx: u16) -> Result<Seq<char>, DexError> {
    match entry_at::<TypeId>(bytes, type_ids_of(bytes), idx as u32, "TypeId") {
        Ok(type_id) => string_at(bytes, type_id.descriptor_idx),
        Err(e) => Err(e),
    }
}

/// The descriptor of the type at index `idx`, decoded lossily.
pub open spec fn type_desc_lossy_at(bytes: Seq<u8>, idx: u16) -> Result<Seq<char>, DexError> {
    match entry_at::<TypeId>(bytes, type_ids_of(bytes), idx as u32, "TypeId") {
        Ok(type_id) => string_lossy_at(bytes, type_id.descriptor_idx),
        Err(e) => Err(e),
    }
}

/// The shorty descriptor of the prototype at index `idx`, decoded lossily.
pub open spec fn shorty_lossy_at(bytes: Seq<u8>, idx: u16) -> Result<Seq<char>, DexError> {
    match entry_at::<ProtoId>(bytes, proto_ids_of(bytes), idx as u32, "ProtoId") {
        Ok(proto_id) => string_lossy_at(bytes, proto_id.shorty_idx),
        Err(e) => Err(e),
    }
}

/// Whether `e` is the layout error with these fields.
pub open spec fn is_layout_error(
    e: DexError,
    location: Seq<char>,
    offset: u32,
    item_ty: &'static str,
    array_len: usize,
    file_size: usize,
) -> bool {
    e matches DexError::DexLayoutError {
        location: l,
        offset: o,
        item_ty: t,
        array_len: a,
        file_size: f,
    } && l@ == location && o == offset && t == item_ty && a == array_len && f == file_size
}

/// The `n` records of type `T` from `offset` on.
pub open spec fn records_at<T: DexItem>(bytes: Seq<u8>, offset: u32, n: nat) -> Seq<T> {
    Seq::new(n, |i: int| T::parse(bytes, offset + i * T::size()))
}

/// What a read found missing.
pub enum Miss {
    /// An offset or index that is not below the size of the file.
    Index { index: u32, item_ty: &'static str },
    /// Records that do not all lie within the file.
    Layout { offset: u32, item_ty: &'static str, array_len: usize },
}

/// Whether `e` is the error that reports the miss `m` in a file of these
/// bytes, opened from this location.
pub open spec fn reports(e: DexError, m: Miss, bytes: Seq<u8>, location: DexLocation) -> bool {
    match m {
        Miss::Index { index, item_ty } => e == (DexError::DexIndexError {
            index,
            max: bytes.len() as usize,
            item_ty,
        }),
        Miss::Layout { offset, item_ty, array_len } => is_layout_error(
            e,
            location_text(location),
            offset,
            item_ty,
            array_len,
            bytes.len() as usize,
        ),
    }
}

/// The `count` records of type `T` at `offset`, or the miss of records that
/// do not all lie within the file.
pub open spec fn fitting_records<T: DexItem>(bytes: Seq<u8>, offset: u32, count: nat) -> Result<
    Seq<T>,
    Miss,
> {
    if offset + count * T::size() > bytes.len() {
        Err(Miss::Layout { offset, item_ty: T::label(), array_len: count as usize })
    } else {
        Ok(records_at::<T>(bytes, offset, count))
    }
}

/// The type list at `offset`: a count and that many type items. Offset zero
/// stands for no list.
pub open spec fn type_list_of(bytes: Seq<u8>, offset: u32) -> Result<Option<Seq<TypeItem>>, Miss> {
    if offset == 0 {
        Ok(None)
    } else if offset >= bytes.len() {
        Err(Miss::Index { index: offset, item_ty: "TypeList" })
    } else if offset + 4 > bytes.len() {
        Err(Miss::Layout { offset, item_ty: "u32", array_len: 0 })
    } else if offset + 4 > u32::MAX {
        Err(
            Miss::Layout {
                offset,
                item_ty: TypeItem::label(),
                array_len: le32(bytes, offset as int) as usize,
            },
        )
    } else {
        match fitting_records::<TypeItem>(bytes, (offset + 4) as u32, le32(bytes, offset as int) as nat) {
            Ok(items) => Ok(Some(items)),
            Err(m) => Err(m),
        }
    }
}

/// A count of records that fit is at most the room divided by their size.
pub proof fn lemma_div_bound(len: int, room: int, entry: int)
    by (nonlinear_arith)
    requires
        0 <= len,
        0 <= room,
        0 < entry,
    ensures
        len <= room / entry <==> len * entry <= room,
{
}

/// What the verification that follows the opening checks finds first: with
/// the preset `Off` nothing is verified and nothing found.
pub open spec fn open_finding(bytes: Seq<u8>, preset: VerifyPreset) -> Option<DexError> {
    if preset == VerifyPreset::Off {
        None
    } else {
        header_error(bytes, preset)
    }
}

/// An opened DEX file: the bytes, the decoded header, and where each table
/// of fixed-size records lies.
pub struct DexFile<'a> {
    mmap: &'a [u8],
    header: Header,
    string_ids: Table,
    type_ids: Table,
    field_ids: Table,
    proto_ids: Table,
    method_ids: Table,
    class_defs: Table,
    method_handles: Table,
    call_site_ids: Table,
    location: DexLocation,
}

impl<'a> DexFile<'a> {
    /// What holds of every `DexFile`: the file has room for a header, the
    /// header is the one its bytes spell, and every table is the one the
    /// bytes locate.
    pub closed spec fn inv(&self) -> bool {
        &&& self.mmap@.len() >= HEADER_SIZE
        &&& self.header.is_header_of(self.mmap@)
        &&& self.string_ids == string_ids_of(self.mmap@)
        &&& self.type_ids == type_ids_of(self.mmap@)
        &&& self.field_ids == field_ids_of(self.mmap@)
        &&& self.proto_ids == proto_ids_of(self.mmap@)
        &&& self.method_ids == method_ids_of(self.mmap@)
        &&& self.class_defs == class_defs_of(self.mmap@)
        &&& self.method_handles == method_handles_of(self.mmap@)
        &&& self.call_site_ids == call_site_ids_of(self.mmap@)
    }

    #[verifier::type_invariant]
    spec fn type_inv(&self) -> bool {
        self.inv()
    }

    /// The bytes of the file.
    pub closed spec fn bytes(&self) -> Seq<u8> {
        self.mmap@
    }

    /// The bytes of the file.
    pub fn data(&self) -> (r: &'a [u8])
        ensures
            r@ == self.bytes(),
            r@.len() >= HEADER_SIZE,
    {
        proof {
            use_type_invariant(self);
        }
        self.mmap
    }

    /// The location the file was opened with.
    pub closed spec fn spec_location(&self) -> DexLocation {
        self.location
    }

    /// The decoded header.
    pub closed spec fn spec_header(&self) -> Header {
        self.header
    }

    /// The number of string ids.
    pub open spec fn spec_num_string_ids(&self) -> u32 {
        string_ids_of(self.bytes()).size
    }

    /// The number of type ids.
    pub open spec fn spec_num_type_ids(&self) -> u32 {
        type_ids_of(self.bytes()).size
    }

    /// The number of field ids.
    pub open spec fn spec_num_field_ids(&self) -> u32 {
        field_ids_of(self.bytes()).size
    }

    /// The number of proto ids.
    pub open spec fn spec_num_proto_ids(&self) -> u32 {
        proto_ids_of(self.bytes()).size
    }

    /// The number of method ids.
    pub open spec fn spec_num_method_ids(&self) -> u32 {
        method_ids_of(self.bytes()).size
    }

    /// The number of class defs.
    pub open spec fn spec_num_class_defs(&self) -> u32 {
        class_defs_of(self.bytes()).size
    }

    /// The number of method handles.
    pub open spec fn spec_num_method_handles(&self) -> u32 {
        method_handles_of(self.bytes()).size
    }

    /// The number of call site ids.
    pub open spec fn spec_num_call_site_ids(&self) -> u32 {
        call_site_ids_of(self.bytes()).size
    }

    #[inline]
    fn header_available(base: &[u8]) -> (r: bool)
        ensures
            r == (base@.len() >= HEADER_SIZE),
    {
        base.len() >= HEADER_SIZE
    }

    /// Locates a table of `len` records at `offset`. A table that does not
    /// lie within the file is empty.
    pub fn get_section<T: DexItem>(base: &[u8], offset: u32, len: u32) -> (r: Table)
        ensures
            r == section_at(base@, T::size(), offset, len),
            table_fits(base@, T::size(), r),
    {
        if len == 0 {
            return Table { offset: 0, size: 0 };
        }
        let size = base.len() as u64;
        let entry = T::entry_size() as u64;
        assert(len * entry <= 0xffff_ffff * 32) by (nonlinear_arith)
            requires
                len <= 0xffff_ffff,
                entry <= 32,
        ;
        let section_size: u64 = len as u64 * entry;
        if offset as u64 + section_size > size {
            return Table { offset: 0, size: 0 };
        }
        Table { offset, size: len }
    }

    fn table_get<T: DexItem>(&self, table: Table, idx: u32, label: &'static str) -> (r: Result<
        T,
        DexError,
    >)
        requires
            table_fits(self.bytes(), T::size(), table),
        ensures
            r == entry_at::<T>(self.bytes(), table, idx, label),
    {
        if idx >= table.size {
            return Err(
                DexError::DexIndexError { index: idx, max: table.size as usize, item_ty: label },
            );
        }
        let len = self.mmap.len();
        let entry = T::entry_size();
        assert(idx * entry + entry <= table.size * entry) by (nonlinear_arith)
            requires
                idx < table.size,
                entry >= 0,
        ;
        Ok(T::read(self.mmap, table.offset as usize + idx as usize * entry))
    }

    fn table_all<T: DexItem>(&self, table: Table) -> (r: Vec<T>)
        requires
            table_fits(self.bytes(), T::size(), table),
        ensures
            r@ == entries_of::<T>(self.bytes(), table),
    {
        let mut out: Vec<T> = Vec::new();
        let mut i: u32 = 0;
        while i < table.size
            invariant
                i <= table.size,
                table_fits(self.bytes(), T::size(), table),
                out@ == Seq::new(
                    i as nat,
                    |j: int| T::parse(self.bytes(), table.offset + j * T::size()),
                ),
            decreases table.size - i,
        {
            match self.table_get::<T>(table, i, "") {
                Ok(v) => out.push(v),
                Err(_) => {},
            }
            i = i + 1;
            assert(out@ =~= Seq::new(
                i as nat,
                |j: int| T::parse(self.bytes(), table.offset + j * T::size()),
            ));
        }
        out
    }

    /// Whether the map list can be read; with it, the number of its
    /// entries.
    #[inline]
    fn maplist_available(base: &[u8], header: &Header) -> (r: Option<u32>)
        requires
            base@.len() >= HEADER_SIZE,
            header.is_header_of(base@),
        ensures
            r is Some <==> map_available(base@),
            r is Some ==> r->Some_0 == map_count(base@) && header.map_off + 4 + 12 * r->Some_0
                <= base@.len(),
    {
        let size = base.len();
        let map_off = header.map_off as usize;
        if map_off == 0 || size < 4 || map_off > size - 4 {
            return None;
        }
        let count = read_u32(base, map_off);
        let map_limit = (size - 4 - map_off) / 12;
        if count as usize > map_limit {
            return None;
        }
        Some(count)
    }

    fn init_sections_from_maplist(base: &[u8], header: &Header) -> (r: (Table, Table))
        requires
            base@.len() >= HEADER_SIZE,
            header.is_header_of(base@),
        ensures
            r.0 == method_handles_of(base@),
            r.1 == call_site_ids_of(base@),
    {
        let empty = Table { offset: 0, size: 0 };
        let size = base.len();
        let map_off = header.map_off as usize;
        let count = match DexFile::maplist_available(base, header) {
            Some(count) => count,
            None => {
                return (empty, empty);
            },
        };
        let mut method_handles = empty;
        let mut call_site_ids = empty;
        let mut i: u32 = 0;
        while i < count
            invariant
                i <= count,
                size == base@.len(),
                map_off == le32(base@, 52),
                map_off + 4 + 12 * count <= size,
                method_handles == mapped_table(base@, 8, last_of_kind(base@, 0x0008, i as nat)),
                call_site_ids == mapped_table(base@, 4, last_of_kind(base@, 0x0007, i as nat)),
            decreases count - i,
        {
            let item = MapItem::read(base, map_off + 4 + 12 * (i as usize));
            if item.type_ == 0x0008 {
                method_handles = DexFile::get_section::<MethodHandleItem>(base, item.off, item.size);
            } else if item.type_ == 0x0007 {
                call_site_ids = DexFile::get_section::<CallSiteIdItem>(base, item.off, item.size);
            }
            i = i + 1;
        }
        (method_handles, call_site_ids)
    }

    fn find_map_item(&self, kind: u16) -> (r: Option<MapItem>)
        ensures
            r == mapped_item(self.bytes(), kind),
    {
        proof {
            use_type_invariant(self);
        }
        let base = self.mmap;
        let size = base.len();
        let map_off = self.header.map_off as usize;
        let count = match DexFile::maplist_available(base, &self.header) {
            Some(count) => count,
            None => {
                return None;
            },
        };
        let mut found: Option<MapItem> = None;
        let mut i: u32 = 0;
        while i < count
            invariant
                i <= count,
                size == base@.len(),
                map_off == le32(base@, 52),
                map_off + 4 + 12 * count <= size,
                found == last_of_kind(base@, kind, i as nat),
            decreases count - i,
        {
            let item = MapItem::read(base, map_off + 4 + 12 * (i as usize));
            if item.type_ == kind {
                found = Some(item);
            }
            i = i + 1;
        }
        found
    }

    /// The hidden-API section that the map list names; nothing where it
    /// names none, or where the section does not lie within the file.
    pub fn get_hiddenapi_class_data(&self) -> (r: Option<HiddenapiClassData<'a>>)
        ensures
            match hiddenapi_of(self.bytes()) {
                Some((start, end)) => r is Some && r->Some_0.stated_size() == end - start
                    && r->Some_0.flags() == self.bytes().subrange(start + 4, end),
                None => r is None,
            },
    {
        let item = match self.find_map_item(0xF000) {
            Some(item) => item,
            None => {
                return None;
            },
        };
        let data = self.data();
        let len = data.len();
        let off = item.off as usize;
        if len < 4 || off > len - 4 {
            return None;
        }
        let size = read_u32(data, off) as usize;
        if size < 4 || size > len - off {
            return None;
        }
        let section = slice_subrange(data, off, off + size);
        assert(section@.subrange(4, section@.len() as int) =~= self.bytes().subrange(
            off + 4,
            off + size,
        ));
        HiddenapiClassData::from_bytes(section)
    }

    /// Takes the file as it is: decodes the header and locates the tables,
    /// checking nothing but that there is room for a header.
    pub fn from_raw_parts<C: DexContainer>(base: &'a C, location: DexLocation) -> (r: Result<
        DexFile<'a>,
        DexError,
    >)
        ensures
            base.bytes().len() < HEADER_SIZE ==> r == Err::<DexFile<'a>, DexError>(
                DexError::TruncatedFile,
            ),
            base.bytes().len() >= HEADER_SIZE ==> r is Ok && r->Ok_0.inv() && r->Ok_0.bytes()
                == base.bytes() && r->Ok_0.spec_location() == location,
    {
        let data = base.data();
        if !DexFile::header_available(data) {
            return Err(DexError::TruncatedFile);
        }
        let header = match Header::from_bytes(data) {
            Some(header) => header,
            None => {
                return Err(DexError::TruncatedFile);
            },
        };
        let sections = DexFile::init_sections_from_maplist(data, &header);
        Ok(
            DexFile {
                mmap: data,
                string_ids: DexFile::get_section::<StringId>(
                    data,
                    header.string_ids_off,
                    header.string_ids_size,
                ),
                type_ids: DexFile::get_section::<TypeId>(
                    data,
                    header.type_ids_off,
                    header.type_ids_size,
                ),
                field_ids: DexFile::get_section::<FieldId>(
                    data,
                    header.field_ids_off,
                    header.field_ids_size,
                ),
                proto_ids: DexFile::get_section::<ProtoId>(
                    data,
                    header.proto_ids_off,
                    header.proto_ids_size,
                ),
                method_ids: DexFile::get_section::<MethodId>(
                    data,
                    header.method_ids_off,
                    header.method_ids_size,
                ),
                class_defs: DexFile::get_section::<ClassDef>(
                    data,
                    header.class_defs_off,
                    header.class_defs_size,
                ),
                method_handles: sections.0,
                call_site_ids: sections.1,
                header,
                location,
            },
        )
    }

    /// Opens a file: takes it as it is, refuses a magic, version or size that
    /// cannot be read at all, and then verifies as much as the preset asks.
    pub fn open<C: DexContainer>(
        container: &'a C,
        location: DexLocation,
        verify_preset: VerifyPreset,
    ) -> (r: Result<DexFile<'a>, DexError>)
        ensures
            container.bytes().len() < HEADER_SIZE ==> r == Err::<DexFile<'a>, DexError>(
                DexError::TruncatedFile,
            ),
            container.bytes().len() >= HEADER_SIZE ==> match init_complaint(container.bytes()) {
                Some(c) => r matches Err(DexError::DexFileError(message)) && message@
                    == complaint_text(c, container.bytes(), location),
                None => match open_finding(container.bytes(), verify_preset) {
                    Some(e) => r == Err::<DexFile<'a>, DexError>(e),
                    None => r is Ok && r->Ok_0.inv() && r->Ok_0.bytes() == container.bytes()
                        && r->Ok_0.spec_location() == location,
                },
            },
    {
        let dex = match DexFile::from_raw_parts(container, location) {
            Ok(dex) => dex,
            Err(e) => {
                return Err(e);
            },
        };
        match dex.init() {
            Ok(()) => {},
            Err(e) => {
                return Err(e);
            },
        }
        match verify_preset {
            VerifyPreset::Off => Ok(dex),
            _ => match DexFile::verify(&dex, verify_preset) {
                Ok(()) => Ok(dex),
                Err(e) => Err(e),
            },
        }
    }

    /// The header size that the file's version calls for; zero where the
    /// magic spells no version.
    pub fn expected_header_size(&self) -> (r: u32)
        ensures
            r == expected_header_size_of(self.bytes()),
    {
        proof {
            use_type_invariant(self);
        }
        let version = self.header.get_version();
        if version != 0 {
            if version < 41 {
                112
            } else {
                120
            }
        } else {
            0
        }
    }

    /// The location the file was opened with.
    pub fn get_location(&self) -> (r: &DexLocation)
        ensures
            *r == self.spec_location(),
    {
        &self.location
    }

    /// The number of bytes in the file.
    #[inline(always)]
    pub fn file_size(&self) -> (r: usize)
        ensures
            r == self.bytes().len(),
            r >= HEADER_SIZE,
    {
        proof {
            use_type_invariant(self);
        }
        self.mmap.len()
    }

    /// The decoded header.
    #[inline(always)]
    pub fn get_header(&self) -> (r: &Header)
        ensures
            *r == self.spec_header(),
            r.is_header_of(self.bytes()),
            self.bytes().len() >= HEADER_SIZE,
    {
        proof {
            use_type_invariant(self);
        }
        &self.header
    }

    fn byte_list_at(&self, at: usize) -> (r: String)
        requires
            at <= 4,
        ensures
            r@ == byte_list(self.bytes(), at as int),
    {
        proof {
            use_type_invariant(self);
        }
        let mut out = String::from_str("[");
        push_dec(&mut out, self.mmap[at] as u64);
        out.append(", ");
        push_dec(&mut out, self.mmap[at + 1] as u64);
        out.append(", ");
        push_dec(&mut out, self.mmap[at + 2] as u64);
        out.append(", ");
        push_dec(&mut out, self.mmap[at + 3] as u64);
        out.append("]");
        out
    }

    fn complaint(&self, c: Complaint) -> (r: DexError)
        ensures
            r matches DexError::DexFileError(message) && message@ == complaint_text(
                c,
                self.bytes(),
                self.spec_location(),
            ),
    {
        proof {
            use_type_invariant(self);
        }
        let location = self.location.to_debug_string();
        let mut message = match c {
            Complaint::Magic => String::from_str("Unrecognized magic number in "),
            Complaint::Version => String::from_str("Unrecognized dex version in "),
            _ => String::from_str("Unable to open "),
        };
        message.append(location.as_str());
        match c {
            Complaint::Magic => {
                let list = self.byte_list_at(0);
                message.append(": ");
                message.append(list.as_str());
            },
            Complaint::Version => {
                let list = self.byte_list_at(4);
                message.append(": ");
                message.append(list.as_str());
            },
            Complaint::HeaderSize => {
                message.append(": Header size is ");
                push_dec(&mut message, self.expected_header_size() as u64);
                message.append(" but ");
                push_dec(&mut message, self.header.header_size as u64);
                message.append(" was expected");
            },
            Complaint::FileSize => {
                message.append(": File size is ");
                push_dec(&mut message, self.mmap.len() as u64);
                message.append(" but the header expects ");
                push_dec(&mut message, self.header.file_size as u64);
            },
        }
        DexError::DexFileError(message)
    }

    fn check_magic_and_version(&self) -> (r: Result<(), DexError>)
        ensures
            !magic_valid(self.bytes()) ==> (r matches Err(DexError::DexFileError(message))
                && message@ == complaint_text(
                Complaint::Magic,
                self.bytes(),
                self.spec_location(),
            )),
            magic_valid(self.bytes()) && !version_valid(self.bytes()) ==> (r matches Err(
                DexError::DexFileError(message),
            ) && message@ == complaint_text(Complaint::Version, self.bytes(), self.spec_location())),
            magic_valid(self.bytes()) && version_valid(self.bytes()) ==> r is Ok,
    {
        if !self.is_magic_valid() {
            return Err(self.complaint(Complaint::Magic));
        }
        if !self.is_version_valid() {
            return Err(self.complaint(Complaint::Version));
        }
        Ok(())
    }

    fn init(&self) -> (r: Result<(), DexError>)
        ensures
            match init_complaint(self.bytes()) {
                Some(c) => r matches Err(DexError::DexFileError(message)) && message@
                    == complaint_text(c, self.bytes(), self.spec_location()),
                None => r is Ok,
            },
    {
        proof {
            use_type_invariant(self);
        }
        self.check_magic_and_version()?;
        if self.expected_header_size() < self.header.header_size {
            return Err(self.complaint(Complaint::HeaderSize));
        }
        if self.file_size() < self.header.file_size as usize {
            return Err(self.complaint(Complaint::FileSize));
        }
        Ok(())
    }

    /// The string id at `idx`.
    #[inline(always)]
    pub fn get_string_id(&self, idx: u32) -> (r: Result<StringId, DexError>)
        ensures
            r == entry_at::<StringId>(self.bytes(), string_ids_of(self.bytes()), idx as u32, "StringId"),
            idx < self.spec_num_string_ids() ==> r is Ok,
    {
        proof {
            use_type_invariant(self);
        }
        self.table_get::<StringId>(self.string_ids, idx as u32, "StringId")
    }

    /// The string id at `idx`, or nothing where `idx` is the "no index" value.
    #[inline(always)]
    pub fn get_string_id_opt(&self, idx: u32) -> (r: Result<Option<StringId>, DexError>)
        ensures
            idx == u32::MAX ==> r == Ok::<Option<StringId>, DexError>(None),
            idx != u32::MAX ==> r == wrap_some(
                entry_at::<StringId>(self.bytes(), string_ids_of(self.bytes()), idx as u32, "StringId"),
            ),
    {
        if idx == u32::MAX {
            Ok(None)
        } else {
            match self.get_string_id(idx) {
                Ok(v) => Ok(Some(v)),
                Err(e) => Err(e),
            }
        }
    }

    /// All entries of the string-ids table, in order.
    #[inline(always)]
    pub fn get_string_ids(&self) -> (r: Vec<StringId>)
        ensures
            r@ == entries_of::<StringId>(self.bytes(), string_ids_of(self.bytes())),
    {
        proof {
            use_type_invariant(self);
        }
        self.table_all::<StringId>(self.string_ids)
    }

    /// The number of entries in the string-ids table.
    #[inline(always)]
    #[verifier::when_used_as_spec(spec_num_string_ids)]
    pub fn num_string_ids(&self) -> (r: u32)
        ensures
            r == self.spec_num_string_ids(),
    {
        proof {
            use_type_invariant(self);
        }
        self.string_ids.size
    }

    /// The type id at `idx`.
    #[inline(always)]
    pub fn get_type_id(&self, idx: TypeIndex) -> (r: Result<TypeId, DexError>)
        ensures
            r == entry_at::<TypeId>(self.bytes(), type_ids_of(self.bytes()), idx as u32, "TypeId"),
            idx < self.spec_num_type_ids() ==> r is Ok,
    {
        proof {
            use_type_invariant(self);
        }
        self.table_get::<TypeId>(self.type_ids, idx as u32, "TypeId")
    }

    /// The type id at `idx`, or nothing where `idx` is the "no index" value.
    #[inline(always)]
    pub fn get_type_id_opt(&self, idx: TypeIndex) -> (r: Result<Option<TypeId>, DexError>)
        ensures
            idx == u16::MAX ==> r == Ok::<Option<TypeId>, DexError>(None),
            idx != u16::MAX ==> r == wrap_some(
                entry_at::<TypeId>(self.bytes(), type_ids_of(self.bytes()), idx as u32, "TypeId"),
            ),
    {
        if idx == u16::MAX {
            Ok(None)
        } else {
            match self.get_type_id(idx) {
                Ok(v) => Ok(Some(v)),
                Err(e) => Err(e),
            }
        }
    }

    /// All entries of the type-ids table, in order.
    #[inline(always)]
    pub fn get_type_ids(&self) -> (r: Vec<TypeId>)
        ensures
            r@ == entries_of::<TypeId>(self.bytes(), type_ids_of(self.bytes())),
    {
        proof {
            use_type_invariant(self);
        }
        self.table_all::<TypeId>(self.type_ids)
    }

    /// The number of entries in the type-ids table.
    #[inline(always)]
    #[verifier::when_used_as_spec(spec_num_type_ids)]
    pub fn num_type_ids(&self) -> (r: u32)
        ensures
            r == self.spec_num_type_ids(),
    {
        proof {
            use_type_invariant(self);
        }
        self.type_ids.size
    }

    /// The field id at `idx`.
    #[inline(always)]
    pub fn get_field_id(&self, idx: FieldIndex) -> (r: Result<FieldId, DexError>)
        ensures
            r == entry_at::<FieldId>(self.bytes(), field_ids_of(self.bytes()), idx as u32, "FieldId"),
            idx < self.spec_num_field_ids() ==> r is Ok,
    {
        proof {
            use_type_invariant(self);
        }
        self.table_get::<FieldId>(self.field_ids, idx as u32, "FieldId")
    }

    /// The field id at `idx`, or nothing where `idx` is the "no index" value.
    #[inline(always)]
    pub fn get_field_id_opt(&self, idx: FieldIndex) -> (r: Result<Option<FieldId>, DexError>)
        ensures
            idx == u32::MAX ==> r == Ok::<Option<FieldId>, DexError>(None),
            idx != u32::MAX ==> r == wrap_some(
                entry_at::<FieldId>(self.bytes(), field_ids_of(self.bytes()), idx as u32, "FieldId"),
            ),
    {
        if idx == u32::MAX {
            Ok(None)
        } else {
            match self.get_field_id(idx) {
                Ok(v) => Ok(Some(v)),
                Err(e) => Err(e),
            }
        }
    }

    /// All entries of the field-ids table, in order.
    #[inline(always)]
    pub fn get_field_ids(&self) -> (r: Vec<FieldId>)
        ensures
            r@ == entries_of::<FieldId>(self.bytes(), field_ids_of(self.bytes())),
    {
        proof {
            use_type_invariant(self);
        }
        self.table_all::<FieldId>(self.field_ids)
    }

    /// The number of entries in the field-ids table.
    #[inline(always)]
    #[verifier::when_used_as_spec(spec_num_field_ids)]
    pub fn num_field_ids(&self) -> (r: u32)
        ensures
            r == self.spec_num_field_ids(),
    {
        proof {
            use_type_invariant(self);
        }
        self.field_ids.size
    }

    /// The proto id at `idx`.
    #[inline(always)]
    pub fn get_proto_id(&self, idx: ProtoIndex) -> (r: Result<ProtoId, DexError>)
        ensures
            r == entry_at::<ProtoId>(self.bytes(), proto_ids_of(self.bytes()), idx as u32, "ProtoId"),
            idx < self.spec_num_proto_ids() ==> r is Ok,
    {
        proof {
            use_type_invariant(self);
        }
        self.table_get::<ProtoId>(self.proto_ids, idx as u32, "ProtoId")
    }

    /// The proto id at `idx`, or nothing where `idx` is the "no index" value.
    #[inline(always)]
    pub fn get_proto_id_opt(&self, idx: ProtoIndex) -> (r: Result<Option<ProtoId>, DexError>)
        ensures
            idx == u16::MAX ==> r == Ok::<Option<ProtoId>, DexError>(None),
            idx != u16::MAX ==> r == wrap_some(
                entry_at::<ProtoId>(self.bytes(), proto_ids_of(self.bytes()), idx as u32, "ProtoId"),
            ),
    {
        if idx == u16::MAX {
            Ok(None)
        } else {
            match self.get_proto_id(idx) {
                Ok(v) => Ok(Some(v)),
                Err(e) => Err(e),
            }
        }
    }

    /// All entries of the proto-ids table, in order.
    #[inline(always)]
    pub fn get_proto_ids(&self) -> (r: Vec<ProtoId>)
        ensures
            r@ == entries_of::<ProtoId>(self.bytes(), proto_ids_of(self.bytes())),
    {
        proof {
            use_type_invariant(self);
        }
        self.table_all::<ProtoId>(self.proto_ids)
    }

    /// The number of entries in the proto-ids table.
    #[inline(always)]
    #[verifier::when_used_as_spec(spec_num_proto_ids)]
    pub fn num_proto_ids(&self) -> (r: u32)
        ensures
            r == self.spec_num_proto_ids(),
    {
        proof {
            use_type_invariant(self);
        }
        self.proto_ids.size
    }

    /// The method id at `idx`.
    #[inline(always)]
    pub fn get_method_id(&self, idx: u32) -> (r: Result<MethodId, DexError>)
        ensures
            r == entry_at::<MethodId>(self.bytes(), method_ids_of(self.bytes()), idx as u32, "MethodId"),
            idx < self.spec_num_method_ids() ==> r is Ok,
    {
        proof {
            use_type_invariant(self);
        }
        self.table_get::<MethodId>(self.method_ids, idx as u32, "MethodId")
    }

    /// The method id at `idx`, or nothing where `idx` is the "no index" value.
    #[inline(always)]
    pub fn get_method_id_opt(&self, idx: u32) -> (r: Result<Option<MethodId>, DexError>)
        ensures
            idx == u32::MAX ==> r == Ok::<Option<MethodId>, DexError>(None),
            idx != u32::MAX ==> r == wrap_some(
                entry_at::<MethodId>(self.bytes(), method_ids_of(self.bytes()), idx as u32, "MethodId"),
            ),
    {
        if idx == u32::MAX {
            Ok(None)
        } else {
            match self.get_method_id(idx) {
                Ok(v) => Ok(Some(v)),
                Err(e) => Err(e),
            }
        }
    }

    /// All entries of the method-ids table, in order.
    #[inline(always)]
    pub fn get_method_ids(&self) -> (r: Vec<MethodId>)
        ensures
            r@ == entries_of::<MethodId>(self.bytes(), method_ids_of(self.bytes())),
    {
        proof {
            use_type_invariant(self);
        }
        self.table_all::<MethodId>(self.method_ids)
    }

    /// The number of entries in the method-ids table.
    #[inline(always)]
    #[verifier::when_used_as_spec(spec_num_method_ids)]
    pub fn num_method_ids(&self) -> (r: u32)
        ensures
            r == self.spec_num_method_ids(),
    {
        proof {
            use_type_invariant(self);
        }
        self.method_ids.size
    }

    /// The class def at `idx`.
    #[inline(always)]
    pub fn get_class_def(&self, idx: u32) -> (r: Result<ClassDef, DexError>)
        ensures
            r == entry_at::<ClassDef>(self.bytes(), class_defs_of(self.bytes()), idx as u32, "ClassDef"),
            idx < self.spec_num_class_defs() ==> r is Ok,
    {
        proof {
            use_type_invariant(self);
        }
        self.table_get::<ClassDef>(self.class_defs, idx as u32, "ClassDef")
    }

    /// The class def at `idx`, or nothing where `idx` is the "no index" value.
    #[inline(always)]
    pub fn get_class_def_opt(&self, idx: u32) -> (r: Result<Option<ClassDef>, DexError>)
        ensures
            idx == u32::MAX ==> r == Ok::<Option<ClassDef>, DexError>(None),
            idx != u32::MAX ==> r == wrap_some(
                entry_at::<ClassDef>(self.bytes(), class_defs_of(self.bytes()), idx as u32, "ClassDef"),
            ),
    {
        if idx == u32::MAX {
            Ok(None)
        } else {
            match self.get_class_def(idx) {
                Ok(v) => Ok(Some(v)),
                Err(e) => Err(e),
            }
        }
    }

    /// All entries of the class-defs table, in order.
    #[inline(always)]
    pub fn get_class_defs(&self) -> (r: Vec<ClassDef>)
        ensures
            r@ == entries_of::<ClassDef>(self.bytes(), class_defs_of(self.bytes())),
    {
        proof {
            use_type_invariant(self);
        }
        self.table_all::<ClassDef>(self.class_defs)
    }

    /// The number of entries in the class-defs table.
    #[inline(always)]
    #[verifier::when_used_as_spec(spec_num_class_defs)]
    pub fn num_class_defs(&self) -> (r: u32)
        ensures
            r == self.spec_num_class_defs(),
    {
        proof {
            use_type_invariant(self);
        }
        self.class_defs.size
    }

    /// Resolves a string id to the UTF-16 length that its data item states
    /// and to the Modified UTF-8 bytes that follow, closing NUL included.
    #[inline]
    pub fn get_string_data(&self, string_id: &StringId) -> (r: Result<(u32, &'a [u8]), DexError>)
        ensures
            match string_data_of(self.bytes(), string_id.string_data_off) {
                Ok((utf16_len, data)) => r is Ok && r->Ok_0.0 == utf16_len && r->Ok_0.1@ == data,
                Err(e) => r == Err::<(u32, &'a [u8]), DexError>(e),
            },
    {
        let data = self.data();
        let size = data.len();
        let offset = string_id.offset();
        if offset >= size {
            return Err(
                DexError::DexIndexError {
                    index: string_id.string_data_off,
                    max: size,
                    item_ty: "string-id",
                },
            );
        }
        let (utf16_len, read) = match decode_leb128(slice_subrange(data, offset, size)) {
            Ok(pair) => pair,
            Err(DexError::VarIntError(kind)) => {
                return Err(DexError::BadStringData { offset, kind });
            },
            Err(e) => {
                return Err(e);
            },
        };
        proof {
            lemma_decode_size(data@.subrange(offset as int, size as int));
        }
        let start = offset + read;
        let mut end = start;
        while end < size && data[end] != 0
            invariant
                start <= end <= size,
                size == data@.len(),
                first_nul(data@, start as int) == first_nul(data@, end as int),
            decreases size - end,
        {
            end = end + 1;
        }
        if end < size {
            Ok((utf16_len, slice_subrange(data, start, end + 1)))
        } else {
            Err(DexError::BadStringDataMissingNullByte(start))
        }
    }

    /// Decodes the string of a string id, with U+FFFD for what cannot be
    /// decoded.
    #[inline(always)]
    pub fn get_utf16_str_lossy(&self, string_id: &StringId) -> (r: Result<String, DexError>)
        ensures
            is_text(r, text_lossy_of(self.bytes(), string_id.string_data_off)),
    {
        match self.get_string_data(string_id) {
            Ok((_, data)) => Ok(mutf8_to_str_lossy(data)),
            Err(e) => Err(e),
        }
    }

    /// Decodes the string at index `idx`, with U+FFFD for what cannot be
    /// decoded.
    #[inline(always)]
    pub fn get_utf16_str_lossy_at(&self, idx: u32) -> (r: Result<String, DexError>)
        ensures
            is_text(r, string_lossy_at(self.bytes(), idx)),
    {
        match self.get_string_id(idx) {
            Ok(string_id) => self.get_utf16_str_lossy(&string_id),
            Err(e) => Err(e),
        }
    }

    /// Decodes the string of a string id strictly.
    #[inline(always)]
    pub fn get_utf16_str(&self, string_id: &StringId) -> (r: Result<String, DexError>)
        ensures
            is_text(r, text_of(self.bytes(), string_id.string_data_off)),
    {
        match self.get_string_data(string_id) {
            Ok((_, data)) => mutf8_to_str(data),
            Err(e) => Err(e),
        }
    }

    /// Decodes the string at index `idx` strictly.
    #[inline(always)]
    pub fn get_utf16_str_at(&self, idx: StringIndex) -> (r: Result<String, DexError>)
        ensures
            is_text(r, string_at(self.bytes(), idx)),
    {
        match self.get_string_id(idx) {
            Ok(string_id) => self.get_utf16_str(&string_id),
            Err(e) => Err(e),
        }
    }

    /// Decodes the string at index `idx` strictly; nothing where `idx` is
    /// the "no index" value.
    #[inline(always)]
    pub fn get_utf16_str_opt_at(&self, idx: StringIndex) -> (r: Result<Option<String>, DexError>)
        ensures
            idx == u32::MAX ==> r == Ok::<Option<String>, DexError>(None),
            idx != u32::MAX ==> match string_at(self.bytes(), idx) {
                Ok(chars) => r is Ok && r->Ok_0 is Some && r->Ok_0->Some_0@ == chars,
                Err(e) => r == Err::<Option<String>, DexError>(e),
            },
    {
        if idx == u32::MAX {
            Ok(None)
        } else {
            match self.get_utf16_str_at(idx) {
                Ok(text) => Ok(Some(text)),
                Err(e) => Err(e),
            }
        }
    }

    /// The descriptor of the type at index `idx`, decoded lossily.
    #[inline(always)]
    pub fn get_type_desc_utf16_lossy_at(&self, idx: TypeIndex) -> (r: Result<String, DexError>)
        ensures
            is_text(r, type_desc_lossy_at(self.bytes(), idx)),
    {
        match self.get_type_id(idx) {
            Ok(type_id) => self.get_utf16_str_lossy_at(type_id.descriptor_idx),
            Err(e) => Err(e),
        }
    }

    /// The descriptor of a type, decoded lossily.
    #[inline(always)]
    pub fn get_type_desc_utf16_lossy(&self, type_id: &TypeId) -> (r: Result<String, DexError>)
        ensures
            is_text(r, string_lossy_at(self.bytes(), type_id.descriptor_idx)),
    {
        self.get_utf16_str_lossy_at(type_id.descriptor_idx)
    }

    /// The descriptor of a type, decoded strictly.
    #[inline(always)]
    pub fn get_type_desc_utf16(&self, type_id: &TypeId) -> (r: Result<String, DexError>)
        ensures
            is_text(r, string_at(self.bytes(), type_id.descriptor_idx)),
    {
        self.get_utf16_str_at(type_id.descriptor_idx)
    }

    /// The descriptor of the type at index `idx`, decoded strictly.
    #[inline(always)]
    pub fn get_type_desc_utf16_at(&self, idx: TypeIndex) -> (r: Result<String, DexError>)
        ensures
            is_text(r, type_desc_at(self.bytes(), idx)),
    {
        match self.get_type_id(idx) {
            Ok(type_id) => self.get_utf16_str_at(type_id.descriptor_idx),
            Err(e) => Err(e),
        }
    }

    /// The name of a field, decoded lossily.
    #[inline(always)]
    pub fn get_field_name(&self, field_id: &FieldId) -> (r: Result<String, DexError>)
        ensures
            is_text(r, string_lossy_at(self.bytes(), field_id.name_idx)),
    {
        self.get_utf16_str_lossy_at(field_id.name_idx)
    }

    /// The name of the field at index `idx`, decoded lossily.
    #[inline(always)]
    pub fn get_field_name_at(&self, idx: FieldIndex) -> (r: Result<String, DexError>)
        ensures
            is_text(
                r,
                match entry_at::<FieldId>(self.bytes(), field_ids_of(self.bytes()), idx, "FieldId") {
                    Ok(field_id) => string_lossy_at(self.bytes(), field_id.name_idx),
                    Err(e) => Err(e),
                },
            ),
    {
        match self.get_field_id(idx) {
            Ok(field_id) => self.get_utf16_str_lossy_at(field_id.name_idx),
            Err(e) => Err(e),
        }
    }

    /// The shorty descriptor of the prototype at index `idx`, decoded
    /// strictly.
    pub fn get_shorty_at(&self, idx: ProtoIndex) -> (r: Result<String, DexError>)
        ensures
            is_text(
                r,
                match entry_at::<ProtoId>(
                    self.bytes(),
                    proto_ids_of(self.bytes()),
                    idx as u32,
                    "ProtoId",
                ) {
                    Ok(proto_id) => string_at(self.bytes(), proto_id.shorty_idx),
                    Err(e) => Err(e),
                },
            ),
    {
        match self.get_proto_id(idx) {
            Ok(proto_id) => self.get_shorty(&proto_id),
            Err(e) => Err(e),
        }
    }

    /// The shorty descriptor of the prototype at index `idx`, decoded
    /// lossily.
    pub fn get_shorty_lossy_at(&self, idx: ProtoIndex) -> (r: Result<String, DexError>)
        ensures
            is_text(r, shorty_lossy_at(self.bytes(), idx)),
    {
        match self.get_proto_id(idx) {
            Ok(proto_id) => self.get_shorty_lossy(&proto_id),
            Err(e) => Err(e),
        }
    }

    /// The shorty descriptor of a prototype, decoded strictly.
    pub fn get_shorty(&self, proto_id: &ProtoId) -> (r: Result<String, DexError>)
        ensures
            is_text(r, string_at(self.bytes(), proto_id.shorty_idx)),
    {
        self.get_utf16_str_at(proto_id.shorty_idx)
    }

    /// The shorty descriptor of a prototype, decoded lossily.
    pub fn get_shorty_lossy(&self, proto_id: &ProtoId) -> (r: Result<String, DexError>)
        ensures
            is_text(r, string_lossy_at(self.bytes(), proto_id.shorty_idx)),
    {
        self.get_utf16_str_lossy_at(proto_id.shorty_idx)
    }

    /// The descriptor of a class, decoded lossily.
    #[inline]
    pub fn get_class_desc_utf16_lossy(&self, class_def: &ClassDef) -> (r: Result<String, DexError>)
        ensures
            is_text(r, type_desc_lossy_at(self.bytes(), class_def.class_idx)),
    {
        self.get_type_desc_utf16_lossy_at(class_def.class_idx)
    }

    /// The descriptor of a class, decoded strictly.
    #[inline]
    pub fn get_class_desc_utf16(&self, class_def: &ClassDef) -> (r: Result<String, DexError>)
        ensures
            is_text(r, type_desc_at(self.bytes(), class_def.class_idx)),
    {
        self.get_type_desc_utf16_at(class_def.class_idx)
    }

    pub(crate) fn layout_error(&self, offset: u32, item_ty: &'static str, array_len: usize) -> (r: DexError)
        ensures
            is_layout_error(
                r,
                location_text(self.spec_location()),
                offset,
                item_ty,
                array_len,
                self.bytes().len() as usize,
            ),
    {
        DexError::DexLayoutError {
            location: self.location.to_string(),
            offset,
            item_ty,
            array_len,
            file_size: self.file_size(),
        }
    }

    /// Decodes the record at `offset`; nothing where `offset` is zero.
    #[inline]
    pub fn data_ptr<T: DexItem>(&self, offset: u32) -> (r: Result<Option<T>, DexError>)
        ensures
            offset == 0 ==> r == Ok::<Option<T>, DexError>(None),
            offset != 0 && offset + T::size() <= self.bytes().len() ==> r == Ok::<
                Option<T>,
                DexError,
            >(Some(T::parse(self.bytes(), offset as int))),
            offset != 0 && offset + T::size() > self.bytes().len() ==> r is Err
                && is_layout_error(
                r->Err_0,
                location_text(self.spec_location()),
                offset,
                T::label(),
                0,
                self.bytes().len() as usize,
            ),
    {
        if offset == 0 {
            Ok(None)
        } else {
            match self.non_null_data_ptr::<T>(offset) {
                Ok(v) => Ok(Some(v)),
                Err(e) => Err(e),
            }
        }
    }

    /// Decodes the record at `offset`, which is not zero. A record that
    /// does not lie within the file is a layout error.
    pub fn non_null_data_ptr<T: DexItem>(&self, offset: u32) -> (r: Result<T, DexError>)
        requires
            offset != 0,
        ensures
            offset + T::size() <= self.bytes().len() ==> r == Ok::<T, DexError>(
                T::parse(self.bytes(), offset as int),
            ),
            offset + T::size() > self.bytes().len() ==> r is Err && is_layout_error(
                r->Err_0,
                location_text(self.spec_location()),
                offset,
                T::label(),
                0,
                self.bytes().len() as usize,
            ),
    {
        let data = self.data();
        let size = data.len();
        let entry = T::entry_size();
        if offset as u64 + entry as u64 > size as u64 {
            return Err(self.layout_error(offset, T::item_name(), 0));
        }
        Ok(T::read(data, offset as usize))
    }

    /// Decodes the `len` records at `offset`; nothing where `offset` is zero.
    #[inline]
    pub fn array_data_ptr<T: DexItem>(&self, offset: u32, len: usize) -> (r: Result<
        Option<Vec<T>>,
        DexError,
    >)
        ensures
            offset == 0 ==> r == Ok::<Option<Vec<T>>, DexError>(None),
            offset != 0 && offset + len * T::size() <= self.bytes().len() ==> r is Ok && r->Ok_0
                is Some && r->Ok_0->Some_0@ == records_at::<T>(self.bytes(), offset, len as nat),
            offset != 0 && offset + len * T::size() > self.bytes().len() ==> r is Err
                && is_layout_error(
                r->Err_0,
                location_text(self.spec_location()),
                offset,
                T::label(),
                len,
                self.bytes().len() as usize,
            ),
    {
        if offset == 0 {
            Ok(None)
        } else {
            match self.non_null_array_data_ptr::<T>(offset, len) {
                Ok(v) => Ok(Some(v)),
                Err(e) => Err(e),
            }
        }
    }

    /// Decodes the `len` records at `offset`, which is not zero. Records
    /// that do not all lie within the file are a layout error.
    pub fn non_null_array_data_ptr<T: DexItem>(&self, offset: u32, len: usize) -> (r: Result<
        Vec<T>,
        DexError,
    >)
        requires
            offset != 0,
        ensures
            match fitting_records::<T>(self.bytes(), offset, len as nat) {
                Ok(items) => r is Ok && r->Ok_0@ == items,
                Err(m) => r is Err && self.reports(r->Err_0, m),
            },
    {
        let data = self.data();
        let size = data.len();
        let entry = T::entry_size();
        if offset as usize > size || len > (size - offset as usize) / entry {
            proof {
                if offset <= size {
                    lemma_div_bound(len as int, (size - offset) as int, entry as int);
                }
                assert(len * entry >= 0) by (nonlinear_arith)
                    requires
                        len >= 0,
                        entry >= 0,
                ;
            }
            return Err(self.layout_error(offset, T::item_name(), len));
        }
        proof {
            lemma_div_bound(len as int, (size - offset) as int, entry as int);
        }
        let mut out: Vec<T> = Vec::new();
        let mut i: usize = 0;
        while i < len
            invariant
                i <= len,
                entry == T::size(),
                0 < entry <= 32,
                size == data@.len(),
                data@ == self.bytes(),
                offset + len * entry <= size,
                out@ == records_at::<T>(self.bytes(), offset, i as nat),
            decreases len - i,
        {
            assert(i * entry + entry <= len * entry) by (nonlinear_arith)
                requires
                    i < len,
                    entry >= 0,
            ;
            out.push(T::read(data, offset as usize + i * entry));
            i = i + 1;
            assert(out@ =~= records_at::<T>(self.bytes(), offset, i as nat));
        }
        Ok(out)
    }

    /// Whether `e` is the error that reports the miss `m` in this file.
    pub open spec fn reports(&self, e: DexError, m: Miss) -> bool {
        reports(e, m, self.bytes(), self.spec_location())
    }

    /// The type list at `offset`; nothing where `offset` is zero.
    #[inline(always)]
    pub fn get_type_list(&self, offset: u32) -> (r: Result<Option<Vec<TypeItem>>, DexError>)
        ensures
            match type_list_of(self.bytes(), offset) {
                Ok(None) => r is Ok && r->Ok_0 is None,
                Ok(Some(items)) => r is Ok && r->Ok_0 is Some && r->Ok_0->Some_0@ == items,
                Err(m) => r is Err && self.reports(r->Err_0, m),
            },
    {
        if offset == 0 {
            return Ok(None);
        }
        if offset as usize >= self.file_size() {
            return Err(
                DexError::DexIndexError { index: offset, max: self.file_size(), item_ty: "TypeList" },
            );
        }
        let length = self.non_null_data_ptr::<u32>(offset)?;
        if offset > 0xffff_ffff - 4 {
            return Err(self.layout_error(offset, TypeItem::item_name(), length as usize));
        }
        match self.non_null_array_data_ptr::<TypeItem>(offset + 4, length as usize) {
            Ok(items) => Ok(Some(items)),
            Err(e) => Err(e),
        }
    }

    /// The interfaces that a class implements; nothing where it names none.
    #[inline]
    pub fn get_interfaces_list(&self, class_def: &ClassDef) -> (r: Result<
        Option<Vec<TypeItem>>,
        DexError,
    >)
        ensures
            match type_list_of(self.bytes(), class_def.interfaces_off) {
                Ok(None) => r is Ok && r->Ok_0 is None,
                Ok(Some(items)) => r is Ok && r->Ok_0 is Some && r->Ok_0->Some_0@ == items,
                Err(m) => r is Err && self.reports(r->Err_0, m),
            },
    {
        self.get_type_list(class_def.interfaces_off)
    }

    /// The method handle at `idx`.
    #[inline(always)]
    pub fn get_method_handle(&self, idx: u32) -> (r: Result<MethodHandleItem, DexError>)
        ensures
            r == entry_at::<MethodHandleItem>(
                self.bytes(),
                method_handles_of(self.bytes()),
                idx,
                "MethodHandleItem",
            ),
            idx < self.spec_num_method_handles() ==> r is Ok,
    {
        proof {
            use_type_invariant(self);
            lemma_mapped_fits(self.bytes());
        }
        self.table_get::<MethodHandleItem>(self.method_handles, idx, "MethodHandleItem")
    }

    /// The number of method handles.
    #[inline(always)]
    #[verifier::when_used_as_spec(spec_num_method_handles)]
    pub fn num_method_handles(&self) -> (r: u32)
        ensures
            r == self.spec_num_method_handles(),
    {
        proof {
            use_type_invariant(self);
        }
        self.method_handles.size
    }

    /// All method handles, in order.
    #[inline(always)]
    pub fn get_method_handles(&self) -> (r: Vec<MethodHandleItem>)
        ensures
            r@ == entries_of::<MethodHandleItem>(self.bytes(), method_handles_of(self.bytes())),
    {
        proof {
            use_type_invariant(self);
            lemma_mapped_fits(self.bytes());
        }
        self.table_all::<MethodHandleItem>(self.method_handles)
    }

    /// The call site id at `idx`.
    #[inline(always)]
    pub fn get_call_site_id(&self, idx: u32) -> (r: Result<CallSiteIdItem, DexError>)
        ensures
            r == entry_at::<CallSiteIdItem>(
                self.bytes(),
                call_site_ids_of(self.bytes()),
                idx,
                "CallSiteIdItem",
            ),
            idx < self.spec_num_call_site_ids() ==> r is Ok,
    {
        proof {
            use_type_invariant(self);
            lemma_mapped_fits(self.bytes());
        }
        self.table_get::<CallSiteIdItem>(self.call_site_ids, idx, "CallSiteIdItem")
    }

    /// The number of call site ids.
    #[inline(always)]
    #[verifier::when_used_as_spec(spec_num_call_site_ids)]
    pub fn num_call_site_ids(&self) -> (r: u32)
        ensures
            r == self.spec_num_call_site_ids(),
    {
        proof {
            use_type_invariant(self);
        }
        self.call_site_ids.size
    }

    /// All call site ids, in order.
    #[inline(always)]
    pub fn get_call_site_ids(&self) -> (r: Vec<CallSiteIdItem>)
        ensures
            r@ == entries_of::<CallSiteIdItem>(self.bytes(), call_site_ids_of(self.bytes())),
    {
        proof {
            use_type_invariant(self);
            lemma_mapped_fits(self.bytes());
        }
        self.table_all::<CallSiteIdItem>(self.call_site_ids)
    }
}

/// In every table, every index below the count of the table names a
/// record. The counts are those that the accessors report, so that
/// a file that opened reads at every index below them.
pub proof fn lemma_indices_read(bytes: Seq<u8>, idx: u32)
    ensures
        idx < string_ids_of(bytes).size ==> entry_at::<StringId>(
            bytes,
            string_ids_of(bytes),
            idx,
            "StringId",
        ) is Ok,
        idx < type_ids_of(bytes).size ==> entry_at::<TypeId>(
            bytes,
            type_ids_of(bytes),
            idx,
            "TypeId",
        ) is Ok,
        idx < proto_ids_of(bytes).size ==> entry_at::<ProtoId>(
            bytes,
            proto_ids_of(bytes),
            idx,
            "ProtoId",
        ) is Ok,
        idx < field_ids_of(bytes).size ==> entry_at::<FieldId>(
            bytes,
            field_ids_of(bytes),
            idx,
            "FieldId",
        ) is Ok,
        idx < method_ids_of(bytes).size ==> entry_at::<MethodId>(
            bytes,
            method_ids_of(bytes),
            idx,
            "MethodId",
        ) is Ok,
        idx < class_defs_of(bytes).size ==> entry_at::<ClassDef>(
            bytes,
            class_defs_of(bytes),
            idx,
            "ClassDef",
        ) is Ok,
        idx < method_handles_of(bytes).size ==> entry_at::<MethodHandleItem>(
            bytes,
            method_handles_of(bytes),
            idx,
            "MethodHandleItem",
        ) is Ok,
        idx < call_site_ids_of(bytes).size ==> entry_at::<CallSiteIdItem>(
            bytes,
            call_site_ids_of(bytes),
            idx,
            "CallSiteIdItem",
        ) is Ok,
{
}

/// The tables that the map list locates lie within the file.
pub proof fn lemma_mapped_fits(bytes: Seq<u8>)
    ensures
        table_fits(bytes, 8, method_handles_of(bytes)),
        table_fits(bytes, 4, call_site_ids_of(bytes)),
{
}

} // verus!
