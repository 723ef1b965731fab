use vstd::prelude::*;
use vstd::slice::slice_subrange;

use crate::error::DexError;
use crate::file::header::version_of;
use crate::file::structs::le32;
use crate::file::{
    clamp_u32, expected_header_size_of, init_complaint, magic_valid, version_valid, DexFile,
    DEX_ENDIAN_CONSTANT,
};

verus! {

/// How much of a file is verified when it is opened.
#[derive(Debug, Clone, Copy, PartialEq, Eq, Structural)]
pub enum VerifyPreset {
    /// Nothing is verified.
    Off,
    /// The header and the checksum.
    All,
    /// The header and the checksum.
    ChecksumOnly,
}

/// The low half of the Adler-32 checksum of `s`: one plus the sum of the
/// bytes, modulo 65521.
pub open spec fn adler_a(s: Seq<u8>) -> nat
    decreases s.len(),
{
    if s.len() == 0 {
        1
    } else {
        (adler_a(s.drop_last()) + s.last() as nat) % 65521
    }
}

/// The high half of the Adler-32 checksum of `s`: the sum of the low halves
/// of all its non-empty prefixes, modulo 65521.
pub open spec fn adler_b(s: Seq<u8>) -> nat
    decreases s.len(),
{
    if s.len() == 0 {
        0
    } else {
        (adler_b(s.drop_last()) + adler_a(s)) % 65521
    }
}

/// The Adler-32 checksum of `s`.
pub open spec fn adler32_of(s: Seq<u8>) -> u32 {
    (adler_b(s) * 65536 + adler_a(s)) as u32
}

/// Calls `adler32::adler32` on a byte slice, a reader that cannot fail. The
/// crate computes the checksum as zlib does, in blocks with the modulo
/// deferred; what comes out is the Adler-32 checksum as it is defined byte by
/// byte.
#[verifier::external_body]
fn adler32_checksum(data: &[u8]) -> (r: u32)
    ensures
        r == adler32_of(data@),
{
    adler32::adler32(data).unwrap()
}

/// Where the checksummed part of a file ends: at the size that the header
/// states, kept within byte 12 and the end of the bytes.
pub open spec fn checksum_end(bytes: Seq<u8>) -> int {
    let stated = le32(bytes, 32) as int;
    if stated < 12 {
        12
    } else if stated > bytes.len() {
        bytes.len() as int
    } else {
        stated
    }
}

/// The checksum of a file: Adler-32 of everything behind the magic and the
/// checksum field.
pub open spec fn checksum_of(bytes: Seq<u8>) -> u32 {
    adler32_of(bytes.subrange(12, checksum_end(bytes)))
}

/// What is wrong with a section of `size` records of `entry` bytes at
/// `offset`, in a file of `file_size` bytes whose header takes `header_size`.
pub open spec fn section_error(
    file_size: u32,
    header_size: u32,
    offset: u32,
    size: u32,
    entry: nat,
    label: &'static str,
) -> Option<DexError> {
    if size == 0 {
        if offset != 0 {
            Some(DexError::BadOffsetNoSize { offset, section: label })
        } else {
            None
        }
    } else if offset < header_size {
        Some(
            DexError::BadOffsetInHeader { offset, header_size: header_size as usize, section: label },
        )
    } else if offset > file_size {
        Some(DexError::BadOffsetTooLarge { offset, size: file_size as usize, section: label })
    } else if offset + size * entry > file_size {
        Some(
            DexError::BadSection {
                offset: clamp_u32(offset + size * entry),
                size: file_size as usize,
                section: label,
            },
        )
    } else {
        None
    }
}

/// The first of two findings.
pub open spec fn or_else(first: Option<DexError>, second: Option<DexError>) -> Option<DexError> {
    if first is Some {
        first
    } else {
        second
    }
}

/// The bytes that a map list needs for its count: four where the header
/// names a map list, none where it does not.
pub open spec fn map_bytes(bytes: Seq<u8>) -> u32 {
    if le32(bytes, 52) == 0 {
        0
    } else {
        4
    }
}

/// What is wrong with the first section of the header that is not in order,
/// in the header's own order of link, map and the tables.
pub open spec fn sections_error(bytes: Seq<u8>) -> Option<DexError> {
    let f = le32(bytes, 32);
    let h = le32(bytes, 36);
    or_else(
        section_error(f, h, le32(bytes, 48), le32(bytes, 44), 1, "link"),
        or_else(
            section_error(f, h, le32(bytes, 52), map_bytes(bytes), 1, "map"),
            or_else(
                section_error(f, h, le32(bytes, 60), le32(bytes, 56), 4, "string-ids"),
                or_else(
                    section_error(f, h, le32(bytes, 68), le32(bytes, 64), 4, "type-ids"),
                    or_else(
                        section_error(f, h, le32(bytes, 76), le32(bytes, 72), 12, "proto-ids"),
                        or_else(
                            section_error(f, h, le32(bytes, 84), le32(bytes, 80), 8, "field-ids"),
                            or_else(
                                section_error(
                                    f,
                                    h,
                                    le32(bytes, 92),
                                    le32(bytes, 88),
                                    8,
                                    "method-ids",
                                ),
                                or_else(
                                    section_error(
                                        f,
                                        h,
                                        le32(bytes, 100),
                                        le32(bytes, 96),
                                        32,
                                        "class-defs",
                                    ),
                                    section_error(
                                        f,
                                        h,
                                        le32(bytes, 108),
                                        le32(bytes, 104),
                                        1,
                                        "data",
                                    ),
                                ),
                            ),
                        ),
                    ),
                ),
            ),
        ),
    )
}

/// The header size that goes with the version of the magic.
pub open spec fn versioned_header_size(bytes: Seq<u8>) -> u32 {
    if version_of(bytes.subrange(0, 8)) >= 41 {
        120
    } else {
        112
    }
}

/// What verifying a file finds first, if it finds anything: the checks run
/// in the order magic, version, file size, header size, byte order, checksum
/// where the preset asks for it, sections.
pub open spec fn header_error(bytes: Seq<u8>, preset: VerifyPreset) -> Option<DexError> {
    let file_size = le32(bytes, 32);
    let expected = versioned_header_size(bytes);
    if bytes.len() < 112 {
        Some(DexError::TruncatedFile)
    } else if !magic_valid(bytes) {
        Some(DexError::BadFileMagic)
    } else if !version_valid(bytes) {
        Some(DexError::UnknownDexVersion { version: version_of(bytes.subrange(0, 8)) })
    } else if file_size < expected {
        Some(
            DexError::FileSizeAtLeast { actual: file_size as usize, expected: expected as usize },
        )
    } else if file_size > bytes.len() {
        Some(DexError::FileSizeAtMost { actual: file_size as usize, expected: bytes.len() as usize })
    } else if le32(bytes, 36) != expected {
        Some(DexError::BadHeaderSize { size: le32(bytes, 36), expected })
    } else if le32(bytes, 40) != DEX_ENDIAN_CONSTANT {
        Some(DexError::UnexpectedEndianess(le32(bytes, 40)))
    } else if preset != VerifyPreset::Off && checksum_of(bytes) != le32(bytes, 8) {
        Some(DexError::BadChecksum { actual: checksum_of(bytes), expected: le32(bytes, 8) })
    } else {
        sections_error(bytes)
    }
}

/// The invariant of a size and offset pair of the header: the two are zero
/// together, and a section that is there starts behind the header and ends
/// within the file.
pub open spec fn pair_valid(
    file_size: u32,
    header_size: u32,
    offset: u32,
    size: u32,
    entry: nat,
) -> bool {
    &&& size == 0 <==> offset == 0
    &&& size != 0 ==> offset >= header_size && offset + size * entry <= file_size
}

/// The invariants of a header: magic, known version, a file size that holds
/// the header and fits the bytes, the header size of the version, the
/// little-endian mark, and every section in order.
pub open spec fn header_valid(bytes: Seq<u8>) -> bool {
    let f = le32(bytes, 32);
    let h = le32(bytes, 36);
    &&& bytes.len() >= 112
    &&& magic_valid(bytes)
    &&& version_valid(bytes)
    &&& versioned_header_size(bytes) <= f <= bytes.len()
    &&& h == versioned_header_size(bytes)
    &&& le32(bytes, 40) == DEX_ENDIAN_CONSTANT
    &&& pair_valid(f, h, le32(bytes, 48), le32(bytes, 44), 1)
    &&& pair_valid(f, h, le32(bytes, 52), map_bytes(bytes), 1)
    &&& pair_valid(f, h, le32(bytes, 60), le32(bytes, 56), 4)
    &&& pair_valid(f, h, le32(bytes, 68), le32(bytes, 64), 4)
    &&& pair_valid(f, h, le32(bytes, 76), le32(bytes, 72), 12)
    &&& pair_valid(f, h, le32(bytes, 84), le32(bytes, 80), 8)
    &&& pair_valid(f, h, le32(bytes, 92), le32(bytes, 88), 8)
    &&& pair_valid(f, h, le32(bytes, 100), le32(bytes, 96), 32)
    &&& pair_valid(f, h, le32(bytes, 108), le32(bytes, 104), 1)
}

/// Whether the checksum in the header is the checksum of the file.
pub open spec fn checksum_valid(bytes: Seq<u8>) -> bool {
    checksum_of(bytes) == le32(bytes, 8)
}

/// A section is free of findings exactly when its pair is in order.
pub proof fn lemma_section_error(
    file_size: u32,
    header_size: u32,
    offset: u32,
    size: u32,
    entry: nat,
    label: &'static str,
)
    requires
        header_size >= 112,
    ensures
        section_error(file_size, header_size, offset, size, entry, label) is None <==> pair_valid(
            file_size,
            header_size,
            offset,
            size,
            entry,
        ),
{
    if size != 0 && offset >= header_size && offset <= file_size {
        assert(size * entry >= 0) by (nonlinear_arith)
            requires
                size >= 0,
                entry >= 0,
        ;
    }
}

/// Verification agrees with the invariants: it finds nothing exactly when
/// every header invariant holds and, where the preset asks for the checksum,
/// the checksum is right.
pub proof fn lemma_verify_agrees(bytes: Seq<u8>, preset: VerifyPreset)
    ensures
        header_error(bytes, preset) is None <==> header_valid(bytes) && (preset
            != VerifyPreset::Off ==> checksum_valid(bytes)),
{
    let f = le32(bytes, 32);
    let h = le32(bytes, 36);
    if h >= 112 {
        lemma_section_error(f, h, le32(bytes, 48), le32(bytes, 44), 1, "link");
        lemma_section_error(f, h, le32(bytes, 52), map_bytes(bytes), 1, "map");
        lemma_section_error(f, h, le32(bytes, 60), le32(bytes, 56), 4, "string-ids");
        lemma_section_error(f, h, le32(bytes, 68), le32(bytes, 64), 4, "type-ids");
        lemma_section_error(f, h, le32(bytes, 76), le32(bytes, 72), 12, "proto-ids");
        lemma_section_error(f, h, le32(bytes, 84), le32(bytes, 80), 8, "field-ids");
        lemma_section_error(f, h, le32(bytes, 92), le32(bytes, 88), 8, "method-ids");
        lemma_section_error(f, h, le32(bytes, 100), le32(bytes, 96), 32, "class-defs");
        lemma_section_error(f, h, le32(bytes, 108), le32(bytes, 104), 1, "data");
    }
}

/// Opening with full verification agrees with the invariants: a file of at
/// least 112 bytes passes both the opening checks and the verification
/// exactly when every header invariant holds and the checksum is right.
pub proof fn lemma_open_agrees(bytes: Seq<u8>)
    requires
        bytes.len() >= 112,
    ensures
        (init_complaint(bytes) is None && header_error(bytes, VerifyPreset::All) is None)
            <==> header_valid(bytes) && checksum_valid(bytes),
{
    lemma_verify_agrees(bytes, VerifyPreset::All);
    if header_valid(bytes) {
        let magic = bytes.subrange(0, 8);
        assert(magic[4] == bytes[4] && magic[5] == bytes[5] && magic[6] == bytes[6]);
        assert(version_of(magic) != 0);
    }
}

fn check_valid_offset_and_size(
    file_size: u32,
    header_size: u32,
    offset: u32,
    size: u32,
    entry: u32,
    label: &'static str,
) -> (r: Result<(), DexError>)
    requires
        0 < entry <= 32,
    ensures
        match section_error(file_size, header_size, offset, size, entry as nat, label) {
            Some(e) => r == Err::<(), DexError>(e),
            None => r is Ok,
        },
{
    if size == 0 {
        if offset != 0 {
            return Err(DexError::BadOffsetNoSize { offset, section: label });
        }
        return Ok(());
    }
    if offset < header_size {
        return Err(
            DexError::BadOffsetInHeader { offset, header_size: header_size as usize, section: label },
        );
    }
    if offset > file_size {
        return Err(
            DexError::BadOffsetTooLarge { offset, size: file_size as usize, section: label },
        );
    }
    assert(size * entry <= 0xffff_ffff * 32) by (nonlinear_arith)
        requires
            size <= 0xffff_ffff,
            entry <= 32,
    ;
    let end: u64 = offset as u64 + size as u64 * entry as u64;
    if end > file_size as u64 {
        let shown: u32 = if end > 0xffff_ffff {
            0xffff_ffff
        } else {
            end as u32
        };
        return Err(DexError::BadSection { offset: shown, size: file_size as usize, section: label });
    }
    Ok(())
}

fn check_header(dex: &DexFile<'_>, preset: VerifyPreset) -> (r: Result<(), DexError>)
    ensures
        match header_error(dex.bytes(), preset) {
            Some(e) => r == Err::<(), DexError>(e),
            None => r is Ok,
        },
{
    let size = dex.file_size();
    let header = dex.get_header();
    proof {
        assert(header.magic@ == dex.bytes().subrange(0, 8));
    }
    if size < 112 {
        return Err(DexError::TruncatedFile);
    }
    if !dex.is_magic_valid() {
        return Err(DexError::BadFileMagic);
    }
    if !dex.is_version_valid() {
        return Err(DexError::UnknownDexVersion { version: header.get_version() });
    }
    // The file size that the header states must hold the header and fit the bytes.
    let version = header.get_version();
    let file_size = header.file_size;
    let header_size: u32 = if version >= 41 {
        120
    } else {
        112
    };
    if file_size < header_size {
        return Err(
            DexError::FileSizeAtLeast {
                actual: file_size as usize,
                expected: header_size as usize,
            },
        );
    }
    if file_size as usize > size {
        return Err(DexError::FileSizeAtMost { actual: file_size as usize, expected: size });
    }
    if header.header_size != header_size {
        return Err(DexError::BadHeaderSize { size: header.header_size, expected: header_size });
    }
    if header.endian_tag != DEX_ENDIAN_CONSTANT {
        return Err(DexError::UnexpectedEndianess(header.endian_tag));
    }
    match preset {
        VerifyPreset::All | VerifyPreset::ChecksumOnly => {
            let checksum = dex.calculate_checksum();
            if checksum != header.checksum {
                return Err(DexError::BadChecksum { actual: checksum, expected: header.checksum });
            }
        },
        VerifyPreset::Off => {},
    }
    let h = header.header_size;
    check_valid_offset_and_size(file_size, h, header.link_off, header.link_size, 1, "link")?;
    let map_bytes: u32 = if header.map_off == 0 {
        0
    } else {
        4
    };
    check_valid_offset_and_size(file_size, h, header.map_off, map_bytes, 1, "map")?;
    check_valid_offset_and_size(
        file_size,
        h,
        header.string_ids_off,
        header.string_ids_size,
        4,
        "string-ids",
    )?;
    check_valid_offset_and_size(
        file_size,
        h,
        header.type_ids_off,
        header.type_ids_size,
        4,
        "type-ids",
    )?;
    check_valid_offset_and_size(
        file_size,
        h,
        header.proto_ids_off,
        header.proto_ids_size,
        12,
        "proto-ids",
    )?;
    check_valid_offset_and_size(
        file_size,
        h,
        header.field_ids_off,
        header.field_ids_size,
        8,
        "field-ids",
    )?;
    check_valid_offset_and_size(
        file_size,
        h,
        header.method_ids_off,
        header.method_ids_size,
        8,
        "method-ids",
    )?;
    check_valid_offset_and_size(
        file_size,
        h,
        header.class_defs_off,
        header.class_defs_size,
        32,
        "class-defs",
    )?;
    check_valid_offset_and_size(file_size, h, header.data_off, header.data_size, 1, "data")?;
    Ok(())
}

impl<'a> DexFile<'a> {
    /// Whether the magic starts with `"dex\n"`.
    pub fn is_magic_valid(&self) -> (r: bool)
        ensures
            r == magic_valid(self.bytes()),
    {
        let header = self.get_header();
        let magic = header.get_magic();
        assert(header.magic@ == self.bytes().subrange(0, 8));
        assert(forall|i: int| 0 <= i < 8 ==> header.magic@[i] == self.bytes()[i]);
        magic[0] == 0x64 && magic[1] == 0x65 && magic[2] == 0x78 && magic[3] == 0x0a
    }

    /// Whether the magic names a known version.
    pub fn is_version_valid(&self) -> (r: bool)
        ensures
            r == version_valid(self.bytes()),
    {
        let header = self.get_header();
        let magic = header.get_magic();
        assert(header.magic@ == self.bytes().subrange(0, 8));
        assert(forall|i: int| 0 <= i < 8 ==> header.magic@[i] == self.bytes()[i]);
        magic[4] == 0x30 && magic[7] == 0 && ((magic[5] == 0x33 && (magic[6] == 0x35 || magic[6]
            == 0x37 || magic[6] == 0x38 || magic[6] == 0x39)) || (magic[5] == 0x34 && (magic[6]
            == 0x30 || magic[6] == 0x31)))
    }

    /// Verifies the header of an opened file and, where the preset asks for
    /// it, the checksum. Reports the first finding.
    pub fn verify(dex: &DexFile<'a>, preset: VerifyPreset) -> (r: Result<(), DexError>)
        ensures
            match header_error(dex.bytes(), preset) {
                Some(e) => r == Err::<(), DexError>(e),
                None => r is Ok,
            },
    {
        check_header(dex, preset)
    }

    /// Computes the Adler-32 checksum of the file behind the checksum field,
    /// up to the file size that the header states.
    pub fn calculate_checksum(&self) -> (r: u32)
        ensures
            r == checksum_of(self.bytes()),
    {
        let data = self.data();
        let stated = self.get_header().file_size as usize;
        let end = if stated < 12 {
            12
        } else if stated > data.len() {
            data.len()
        } else {
            stated
        };
        adler32_checksum(slice_subrange(data, 12, end))
    }
}

} // verus!
