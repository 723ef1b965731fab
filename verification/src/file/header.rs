use vstd::prelude::*;

use crate::file::structs::{le32, read_u32};

verus! {

/// Bytes of the header of DEX versions before 41.
pub const HEADER_SIZE: usize = 112;

/// Bytes of the header of DEX version 41 and later.
pub const HEADER_V41_SIZE: usize = 120;

/// The fixed header at the start of a DEX file.
#[derive(Debug, Clone)]
pub struct Header {
    /// `"dex\n"`, three version digits and a NUL.
    pub magic: [u8; 8],
    /// Adler-32 checksum of the file from byte 12 on.
    pub checksum: u32,
    /// SHA-1 signature of the file from byte 32 on.
    pub signature: [u8; 20],
    /// Size of the entire file, header included.
    pub file_size: u32,
    /// Size of the header in bytes.
    pub header_size: u32,
    /// Byte order mark.
    pub endian_tag: u32,
    pub link_size: u32,
    pub link_off: u32,
    /// Offset of the map list.
    pub map_off: u32,
    pub string_ids_size: u32,
    pub string_ids_off: u32,
    pub type_ids_size: u32,
    pub type_ids_off: u32,
    pub proto_ids_size: u32,
    pub proto_ids_off: u32,
    pub field_ids_size: u32,
    pub field_ids_off: u32,
    pub method_ids_size: u32,
    pub method_ids_off: u32,
    pub class_defs_size: u32,
    pub class_defs_off: u32,
    pub data_size: u32,
    pub data_off: u32,
}

/// The header of DEX version 41 and later, which adds the container fields.
#[derive(Debug, Clone)]
pub struct HeaderV41 {
    pub inner: Header,
    /// Total size of all DEX files in the container.
    pub container_size: u32,
    /// Offset of this file's header in the container.
    pub header_off: u32,
}

/// The value of an ASCII digit, if `b` is one.
pub open spec fn digit(b: u8) -> Option<int> {
    if 0x30 <= b <= 0x39 {
        Some(b - 0x30)
    } else {
        None
    }
}

/// The number that the three version bytes of a magic spell; zero where one
/// of them is no ASCII digit.
pub open spec fn version_of(magic: Seq<u8>) -> u32 {
    match (digit(magic[4]), digit(magic[5]), digit(magic[6])) {
        (Some(a), Some(b), Some(c)) => (100 * a + 10 * b + c) as u32,
        _ => 0,
    }
}

impl Header {
    /// Whether the header holds what the first 112 bytes of `bytes` spell.
    pub open spec fn is_header_of(&self, bytes: Seq<u8>) -> bool {
        &&& self.magic@ == bytes.subrange(0, 8)
        &&& self.checksum == le32(bytes, 8)
        &&& self.signature@ == bytes.subrange(12, 32)
        &&& self.file_size == le32(bytes, 32)
        &&& self.header_size == le32(bytes, 36)
        &&& self.endian_tag == le32(bytes, 40)
        &&& self.link_size == le32(bytes, 44)
        &&& self.link_off == le32(bytes, 48)
        &&& self.map_off == le32(bytes, 52)
        &&& self.string_ids_size == le32(bytes, 56)
        &&& self.string_ids_off == le32(bytes, 60)
        &&& self.type_ids_size == le32(bytes, 64)
        &&& self.type_ids_off == le32(bytes, 68)
        &&& self.proto_ids_size == le32(bytes, 72)
        &&& self.proto_ids_off == le32(bytes, 76)
        &&& self.field_ids_size == le32(bytes, 80)
        &&& self.field_ids_off == le32(bytes, 84)
        &&& self.method_ids_size == le32(bytes, 88)
        &&& self.method_ids_off == le32(bytes, 92)
        &&& self.class_defs_size == le32(bytes, 96)
        &&& self.class_defs_off == le32(bytes, 100)
        &&& self.data_size == le32(bytes, 104)
        &&& self.data_off == le32(bytes, 108)
    }

    /// Decodes the header from the first 112 bytes of `data`; nothing where
    /// `data` is shorter.
    pub fn from_bytes(data: &[u8]) -> (r: Option<Header>)
        ensures
            data@.len() < HEADER_SIZE ==> r is None,
            data@.len() >= HEADER_SIZE ==> r is Some && r->Some_0.is_header_of(data@),
    {
        if data.len() < HEADER_SIZE {
            return None;
        }
        let magic: [u8; 8] = [
            data[0],
            data[1],
            data[2],
            data[3],
            data[4],
            data[5],
            data[6],
            data[7],
        ];
        let signature: [u8; 20] = [
            data[12],
            data[13],
            data[14],
            data[15],
            data[16],
            data[17],
            data[18],
            data[19],
            data[20],
            data[21],
            data[22],
            data[23],
            data[24],
            data[25],
            data[26],
            data[27],
            data[28],
            data[29],
            data[30],
            data[31],
        ];
        assert(magic@ =~= data@.subrange(0, 8));
        assert(signature@ =~= data@.subrange(12, 32));
        Some(
            Header {
                magic,
                checksum: read_u32(data, 8),
                signature,
                file_size: read_u32(data, 32),
                header_size: read_u32(data, 36),
                endian_tag: read_u32(data, 40),
                link_size: read_u32(data, 44),
                link_off: read_u32(data, 48),
                map_off: read_u32(data, 52),
                string_ids_size: read_u32(data, 56),
                string_ids_off: read_u32(data, 60),
                type_ids_size: read_u32(data, 64),
                type_ids_off: read_u32(data, 68),
                proto_ids_size: read_u32(data, 72),
                proto_ids_off: read_u32(data, 76),
                field_ids_size: read_u32(data, 80),
                field_ids_off: read_u32(data, 84),
                method_ids_size: read_u32(data, 88),
                method_ids_off: read_u32(data, 92),
                class_defs_size: read_u32(data, 96),
                class_defs_off: read_u32(data, 100),
                data_size: read_u32(data, 104),
                data_off: read_u32(data, 108),
            },
        )
    }

    /// The eight magic bytes.
    pub fn get_magic(&self) -> (r: &[u8; 8])
        ensures
            r@ == self.magic@,
    {
        &self.magic
    }

    /// The twenty signature bytes.
    pub fn get_signature(&self) -> (r: &[u8; 20])
        ensures
            r@ == self.signature@,
    {
        &self.signature
    }

    /// The version number that the magic spells, zero where it spells none.
    pub fn get_version(&self) -> (r: u32)
        ensures
            r == version_of(self.magic@),
    {
        let a = self.magic[4];
        let b = self.magic[5];
        let c = self.magic[6];
        if 0x30 <= a && a <= 0x39 && 0x30 <= b && b <= 0x39 && 0x30 <= c && c <= 0x39 {
            100 * ((a - 0x30) as u32) + 10 * ((b - 0x30) as u32) + (c - 0x30) as u32
        } else {
            0
        }
    }
}

impl HeaderV41 {
    /// Decodes the extended header from the first 120 bytes of `data`;
    /// nothing where `data` is shorter.
    pub fn from_bytes(data: &[u8]) -> (r: Option<HeaderV41>)
        ensures
            data@.len() < HEADER_V41_SIZE ==> r is None,
            data@.len() >= HEADER_V41_SIZE ==> r is Some && r->Some_0.inner.is_header_of(data@)
                && r->Some_0.container_size == le32(data@, 112) && r->Some_0.header_off == le32(
                data@,
                116,
            ),
    {
        if data.len() < HEADER_V41_SIZE {
            return None;
        }
        match Header::from_bytes(data) {
            Some(inner) => Some(
                HeaderV41 {
                    inner,
                    container_size: read_u32(data, 112),
                    header_off: read_u32(data, 116),
                },
            ),
            None => None,
        }
    }
}

} // verus!
