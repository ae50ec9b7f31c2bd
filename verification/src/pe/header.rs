//! DOS and PE header structures (32-bit), read from the bytes of a file.

use crate::bytes::{le16, le32, read_le16, read_le32};
use crate::text::{decimal_digits, decimal_string, hex_digits, hex_string};
use vstd::prelude::*;
use vstd::slice::slice_subrange;
use vstd::utf8::{decode_utf8, valid_utf8};

verus! {

/// Why a file could not be read as a 32-bit PE image.
#[derive(Debug, Clone, Copy, PartialEq, Eq, Structural)]
pub enum PeError {
    /// The file ends before a structure that had to be read.
    UnexpectedEof,
    /// The DOS header does not start with "MZ".
    NotMz,
    /// The bytes at `e_lfanew` are not "PE\0\0".
    MissingPeSignature,
    /// The COFF machine type is not i386.
    UnsupportedMachine(u16),
    /// The optional header is not a PE32 one.
    NotPe32,
    /// SizeOfImage is zero or larger than 512 MiB.
    UnreasonableSizeOfImage(u32),
}

/// The text shown for `e`, as the loader's I/O error would display it.
pub open spec fn pe_error_text(e: PeError) -> Seq<char> {
    match e {
        PeError::UnexpectedEof => "failed to fill whole buffer"@,
        PeError::NotMz => "Not a valid MZ/DOS executable"@,
        PeError::MissingPeSignature => "Missing PE signature"@,
        PeError::UnsupportedMachine(m) => "Unsupported machine type 0x"@ + hex_digits(
            m as nat,
            4,
            false,
        ) + " (only i386/32-bit is supported for now)"@,
        PeError::NotPe32 => "Only PE32 (32-bit) optional headers are supported"@,
        PeError::UnreasonableSizeOfImage(size) => "Unreasonable SizeOfImage: "@ + decimal_digits(
            size as nat,
        ),
    }
}

impl PeError {
    /// The human-readable description of this error.
    pub fn message(&self) -> (s: String)
        ensures
            s@ == pe_error_text(*self),
    {
        match self {
            PeError::UnexpectedEof => String::from_str("failed to fill whole buffer"),
            PeError::NotMz => String::from_str("Not a valid MZ/DOS executable"),
            PeError::MissingPeSignature => String::from_str("Missing PE signature"),
            PeError::UnsupportedMachine(m) => {
                let mut s = String::from_str("Unsupported machine type 0x");
                let h = hex_string(*m as u64, 4, false);
                s.append(h.as_str());
                s.append(" (only i386/32-bit is supported for now)");
                s
            },
            PeError::NotPe32 => String::from_str(
                "Only PE32 (32-bit) optional headers are supported",
            ),
            PeError::UnreasonableSizeOfImage(size) => {
                let mut s = String::from_str("Unreasonable SizeOfImage: ");
                let d = decimal_string(*size as u64);
                s.append(d.as_str());
                s
            },
        }
    }
}

/// IMAGE_DOS_HEADER
#[derive(Debug, Clone, Copy)]
pub struct DosHeader {
    pub e_magic: u16,
    pub e_cblp: u16,
    pub e_cp: u16,
    pub e_crlc: u16,
    pub e_cparhdr: u16,
    pub e_minalloc: u16,
    pub e_maxalloc: u16,
    pub e_ss: u16,
    pub e_sp: u16,
    pub e_csum: u16,
    pub e_ip: u16,
    pub e_cs: u16,
    pub e_lfarlc: u16,
    pub e_ovno: u16,
    pub e_res: [u16; 4],
    pub e_oemid: u16,
    pub e_oeminfo: u16,
    pub e_res2: [u16; 10],
    pub e_lfanew: u32,
}

/// Byte length of the DOS header.
pub const DOS_HEADER_LEN: usize = 64;

/// Byte length of the COFF file header.
pub const FILE_HEADER_LEN: usize = 20;

/// Byte length of the fixed part of the PE32 optional header.
pub const OPTIONAL_HEADER_FIXED_LEN: usize = 96;

/// Byte length of one data directory entry.
pub const DATA_DIRECTORY_LEN: usize = 8;

/// Byte length of a section header.
pub const SECTION_HEADER_LEN: usize = 40;

/// `h` holds the DOS header that the first 64 bytes of `b` encode.
pub open spec fn dos_header_from(h: DosHeader, b: Seq<u8>) -> bool {
    &&& h.e_magic == le16(b, 0)
    &&& h.e_cblp == le16(b, 2)
    &&& h.e_cp == le16(b, 4)
    &&& h.e_crlc == le16(b, 6)
    &&& h.e_cparhdr == le16(b, 8)
    &&& h.e_minalloc == le16(b, 10)
    &&& h.e_maxalloc == le16(b, 12)
    &&& h.e_ss == le16(b, 14)
    &&& h.e_sp == le16(b, 16)
    &&& h.e_csum == le16(b, 18)
    &&& h.e_ip == le16(b, 20)
    &&& h.e_cs == le16(b, 22)
    &&& h.e_lfarlc == le16(b, 24)
    &&& h.e_ovno == le16(b, 26)
    &&& h.e_res@ == seq![le16(b, 28), le16(b, 30), le16(b, 32), le16(b, 34)]
    &&& h.e_oemid == le16(b, 36)
    &&& h.e_oeminfo == le16(b, 38)
    &&& h.e_res2@ == seq![
        le16(b, 40),
        le16(b, 42),
        le16(b, 44),
        le16(b, 46),
        le16(b, 48),
        le16(b, 50),
        le16(b, 52),
        le16(b, 54),
        le16(b, 56),
        le16(b, 58),
    ]
    &&& h.e_lfanew == le32(b, 60)
}

impl DosHeader {
    pub const MAGIC: u16 = 0x5A4D;

    /// Reads the DOS header at the start of `bytes`.
    pub fn read(bytes: &[u8]) -> (r: Result<Self, PeError>)
        ensures
            match r {
                Ok(h) => bytes@.len() >= 64 && dos_header_from(h, bytes@),
                Err(e) => bytes@.len() < 64 && e == PeError::UnexpectedEof,
            },
    {
        if bytes.len() < DOS_HEADER_LEN {
            return Err(PeError::UnexpectedEof);
        }
        let e_res = [
            read_le16(bytes, 28),
            read_le16(bytes, 30),
            read_le16(bytes, 32),
            read_le16(bytes, 34),
        ];
        let e_res2 = [
            read_le16(bytes, 40),
            read_le16(bytes, 42),
            read_le16(bytes, 44),
            read_le16(bytes, 46),
            read_le16(bytes, 48),
            read_le16(bytes, 50),
            read_le16(bytes, 52),
            read_le16(bytes, 54),
            read_le16(bytes, 56),
            read_le16(bytes, 58),
        ];
        let h = DosHeader {
            e_magic: read_le16(bytes, 0),
            e_cblp: read_le16(bytes, 2),
            e_cp: read_le16(bytes, 4),
            e_crlc: read_le16(bytes, 6),
            e_cparhdr: read_le16(bytes, 8),
            e_minalloc: read_le16(bytes, 10),
            e_maxalloc: read_le16(bytes, 12),
            e_ss: read_le16(bytes, 14),
            e_sp: read_le16(bytes, 16),
            e_csum: read_le16(bytes, 18),
            e_ip: read_le16(bytes, 20),
            e_cs: read_le16(bytes, 22),
            e_lfarlc: read_le16(bytes, 24),
            e_ovno: read_le16(bytes, 26),
            e_res,
            e_oemid: read_le16(bytes, 36),
            e_oeminfo: read_le16(bytes, 38),
            e_res2,
            e_lfanew: read_le32(bytes, 60),
        };
        assert(h.e_res@ =~= seq![
            le16(bytes@, 28),
            le16(bytes@, 30),
            le16(bytes@, 32),
            le16(bytes@, 34),
        ]);
        assert(h.e_res2@ =~= seq![
            le16(bytes@, 40),
            le16(bytes@, 42),
            le16(bytes@, 44),
            le16(bytes@, 46),
            le16(bytes@, 48),
            le16(bytes@, 50),
            le16(bytes@, 52),
            le16(bytes@, 54),
            le16(bytes@, 56),
            le16(bytes@, 58),
        ]);
        Ok(h)
    }
}


/// IMAGE_FILE_HEADER
#[derive(Debug, Clone, Copy)]
pub struct FileHeader {
    pub machine: u16,
    pub number_of_sections: u16,
    pub time_date_stamp: u32,
    pub pointer_to_symbol_table: u32,
    pub number_of_symbols: u32,
    pub size_of_optional_header: u16,
    pub characteristics: u16,
}

/// `h` holds the COFF file header that the first 20 bytes of `b` encode.
pub open spec fn file_header_from(h: FileHeader, b: Seq<u8>) -> bool {
    &&& h.machine == le16(b, 0)
    &&& h.number_of_sections == le16(b, 2)
    &&& h.time_date_stamp == le32(b, 4)
    &&& h.pointer_to_symbol_table == le32(b, 8)
    &&& h.number_of_symbols == le32(b, 12)
    &&& h.size_of_optional_header == le16(b, 16)
    &&& h.characteristics == le16(b, 18)
}

impl FileHeader {
    pub const MACHINE_I386: u16 = 0x014c;

    /// Reads the COFF file header at the start of `bytes`.
    pub fn read(bytes: &[u8]) -> (r: Result<Self, PeError>)
        ensures
            match r {
                Ok(h) => bytes@.len() >= 20 && file_header_from(h, bytes@),
                Err(e) => bytes@.len() < 20 && e == PeError::UnexpectedEof,
            },
    {
        if bytes.len() < FILE_HEADER_LEN {
            return Err(PeError::UnexpectedEof);
        }
        Ok(FileHeader {
            machine: read_le16(bytes, 0),
            number_of_sections: read_le16(bytes, 2),
            time_date_stamp: read_le32(bytes, 4),
            pointer_to_symbol_table: read_le32(bytes, 8),
            number_of_symbols: read_le32(bytes, 12),
            size_of_optional_header: read_le16(bytes, 16),
            characteristics: read_le16(bytes, 18),
        })
    }
}

/// IMAGE_DATA_DIRECTORY entry
#[derive(Debug, Clone, Copy)]
pub struct DataDirectory {
    pub virtual_address: u32,
    pub size: u32,
}

impl Default for DataDirectory {
    fn default() -> (d: Self)
        ensures
            d.virtual_address == 0,
            d.size == 0,
    {
        DataDirectory { virtual_address: 0, size: 0 }
    }
}

/// IMAGE_OPTIONAL_HEADER32 (partial, the fields we need)
#[derive(Debug, Clone, Copy)]
pub struct OptionalHeader32 {
    pub magic: u16,
    pub major_linker_version: u8,
    pub minor_linker_version: u8,
    pub size_of_code: u32,
    pub size_of_initialized_data: u32,
    pub size_of_uninitialized_data: u32,
    pub address_of_entry_point: u32,
    pub base_of_code: u32,
    pub base_of_data: u32,
    pub image_base: u32,
    pub section_alignment: u32,
    pub file_alignment: u32,
    pub major_os_version: u16,
    pub minor_os_version: u16,
    pub major_image_version: u16,
    pub minor_image_version: u16,
    pub major_subsystem_version: u16,
    pub minor_subsystem_version: u16,
    pub win32_version_value: u32,
    pub size_of_image: u32,
    pub size_of_headers: u32,
    pub checksum: u32,
    pub subsystem: u16,
    pub dll_characteristics: u16,
    pub size_of_stack_reserve: u32,
    pub size_of_stack_commit: u32,
    pub size_of_heap_reserve: u32,
    pub size_of_heap_commit: u32,
    pub loader_flags: u32,
    pub number_of_rva_and_sizes: u32,
    /// Index 1 = IMAGE_DIRECTORY_ENTRY_IMPORT
    pub import_directory: DataDirectory,
}

/// The number of bytes that the optional header in `b` spans: its fixed part
/// and the data directories that it announces.
pub open spec fn optional_header_len(b: Seq<u8>) -> int {
    96 + 8 * le32(b, 92) as int
}

/// `h` holds the PE32 optional header that `b` starts with, data directories included.
pub open spec fn optional_header_from(h: OptionalHeader32, b: Seq<u8>) -> bool {
    &&& h.magic == le16(b, 0)
    &&& h.major_linker_version == b[2]
    &&& h.minor_linker_version == b[3]
    &&& h.size_of_code == le32(b, 4)
    &&& h.size_of_initialized_data == le32(b, 8)
    &&& h.size_of_uninitialized_data == le32(b, 12)
    &&& h.address_of_entry_point == le32(b, 16)
    &&& h.base_of_code == le32(b, 20)
    &&& h.base_of_data == le32(b, 24)
    &&& h.image_base == le32(b, 28)
    &&& h.section_alignment == le32(b, 32)
    &&& h.file_alignment == le32(b, 36)
    &&& h.major_os_version == le16(b, 40)
    &&& h.minor_os_version == le16(b, 42)
    &&& h.major_image_version == le16(b, 44)
    &&& h.minor_image_version == le16(b, 46)
    &&& h.major_subsystem_version == le16(b, 48)
    &&& h.minor_subsystem_version == le16(b, 50)
    &&& h.win32_version_value == le32(b, 52)
    &&& h.size_of_image == le32(b, 56)
    &&& h.size_of_headers == le32(b, 60)
    &&& h.checksum == le32(b, 64)
    &&& h.subsystem == le16(b, 68)
    &&& h.dll_characteristics == le16(b, 70)
    &&& h.size_of_stack_reserve == le32(b, 72)
    &&& h.size_of_stack_commit == le32(b, 76)
    &&& h.size_of_heap_reserve == le32(b, 80)
    &&& h.size_of_heap_commit == le32(b, 84)
    &&& h.loader_flags == le32(b, 88)
    &&& h.number_of_rva_and_sizes == le32(b, 92)
    &&& if le32(b, 92) > 1 {
        h.import_directory.virtual_address == le32(b, 104) && h.import_directory.size == le32(
            b,
            108,
        )
    } else {
        h.import_directory.virtual_address == 0 && h.import_directory.size == 0
    }
}

impl OptionalHeader32 {
    pub const MAGIC_PE32: u16 = 0x10B;

    /// Reads the optional header at the start of `bytes`, with all the data
    /// directories that it announces; the import directory (entry 1) is kept.
    pub fn read(bytes: &[u8]) -> (r: Result<Self, PeError>)
        ensures
            match r {
                Ok(h) => bytes@.len() >= 96 && bytes@.len() >= optional_header_len(bytes@)
                    && optional_header_from(h, bytes@),
                Err(e) => e == PeError::UnexpectedEof && (bytes@.len() < 96 || bytes@.len()
                    < optional_header_len(bytes@)),
            },
    {
        if bytes.len() < OPTIONAL_HEADER_FIXED_LEN {
            return Err(PeError::UnexpectedEof);
        }
        let number_of_rva_and_sizes = read_le32(bytes, 92);
        if (bytes.len() - OPTIONAL_HEADER_FIXED_LEN) / DATA_DIRECTORY_LEN
            < number_of_rva_and_sizes as usize {
            return Err(PeError::UnexpectedEof);
        }
        let import_directory = if number_of_rva_and_sizes > 1 {
            DataDirectory { virtual_address: read_le32(bytes, 104), size: read_le32(bytes, 108) }
        } else {
            DataDirectory { virtual_address: 0, size: 0 }
        };
        Ok(OptionalHeader32 {
            magic: read_le16(bytes, 0),
            major_linker_version: bytes[2],
            minor_linker_version: bytes[3],
            size_of_code: read_le32(bytes, 4),
            size_of_initialized_data: read_le32(bytes, 8),
            size_of_uninitialized_data: read_le32(bytes, 12),
            address_of_entry_point: read_le32(bytes, 16),
            base_of_code: read_le32(bytes, 20),
            base_of_data: read_le32(bytes, 24),
            image_base: read_le32(bytes, 28),
            section_alignment: read_le32(bytes, 32),
            file_alignment: read_le32(bytes, 36),
            major_os_version: read_le16(bytes, 40),
            minor_os_version: read_le16(bytes, 42),
            major_image_version: read_le16(bytes, 44),
            minor_image_version: read_le16(bytes, 46),
            major_subsystem_version: read_le16(bytes, 48),
            minor_subsystem_version: read_le16(bytes, 50),
            win32_version_value: read_le32(bytes, 52),
            size_of_image: read_le32(bytes, 56),
            size_of_headers: read_le32(bytes, 60),
            checksum: read_le32(bytes, 64),
            subsystem: read_le16(bytes, 68),
            dll_characteristics: read_le16(bytes, 70),
            size_of_stack_reserve: read_le32(bytes, 72),
            size_of_stack_commit: read_le32(bytes, 76),
            size_of_heap_reserve: read_le32(bytes, 80),
            size_of_heap_commit: read_le32(bytes, 84),
            loader_flags: read_le32(bytes, 88),
            number_of_rva_and_sizes,
            import_directory,
        })
    }
}

/// What `String::from_utf8_lossy` makes of `bytes`.
pub uninterp spec fn utf8_lossy(bytes: Seq<u8>) -> Seq<char>;

/// Calls `String::from_utf8_lossy`. Claimed: the result is `utf8_lossy` of the
/// bytes, and for valid UTF-8 it is exactly the decoded text, as std documents.
/// What replaces invalid sequences is left to the name.
#[verifier::external_body]
pub(crate) fn from_utf8_lossy(bytes: &[u8]) -> (s: String)
    ensures
        s@ == utf8_lossy(bytes@),
        valid_utf8(bytes@) ==> s@ == decode_utf8(bytes@),
{
    String::from_utf8_lossy(bytes).into_owned()
}

/// `s` without its trailing NUL characters.
pub open spec fn trim_trailing_nuls(s: Seq<char>) -> Seq<char>
    decreases s.len(),
{
    if s.len() > 0 && s.last() == '\0' {
        trim_trailing_nuls(s.drop_last())
    } else {
        s
    }
}

/// Removes the trailing NUL characters of `text` (`trim_end_matches('\0')`).
pub fn trim_nuls(text: &str) -> (s: String)
    ensures
        s@ == trim_trailing_nuls(text@),
{
    let mut k = text.unicode_len();
    assert(text@.subrange(0, k as int) =~= text@);
    while k > 0 && text.get_char(k - 1) == '\0'
        invariant
            k <= text@.len(),
            trim_trailing_nuls(text@) == trim_trailing_nuls(text@.subrange(0, k as int)),
        decreases k,
    {
        assert(text@.subrange(0, k as int).drop_last() =~= text@.subrange(0, k - 1));
        k = k - 1;
    }
    assert(text@.subrange(0, k as int) == trim_trailing_nuls(text@.subrange(0, k as int)));
    String::from_str(text.substring_char(0, k))
}

/// IMAGE_SECTION_HEADER
#[derive(Debug, Clone)]
pub struct SectionHeader {
    pub name: String,
    pub virtual_size: u32,
    pub virtual_address: u32,
    pub size_of_raw_data: u32,
    pub pointer_to_raw_data: u32,
    pub pointer_to_relocations: u32,
    pub pointer_to_linenumbers: u32,
    pub number_of_relocations: u16,
    pub number_of_linenumbers: u16,
    pub characteristics: u32,
}

/// `h` holds the section header that the first 40 bytes of `b` encode; the
/// name is the 8-byte name field decoded leniently, without trailing NULs.
pub open spec fn section_header_from(h: SectionHeader, b: Seq<u8>) -> bool {
    &&& h.name@ == trim_trailing_nuls(utf8_lossy(b.subrange(0, 8)))
    &&& h.virtual_size == le32(b, 8)
    &&& h.virtual_address == le32(b, 12)
    &&& h.size_of_raw_data == le32(b, 16)
    &&& h.pointer_to_raw_data == le32(b, 20)
    &&& h.pointer_to_relocations == le32(b, 24)
    &&& h.pointer_to_linenumbers == le32(b, 28)
    &&& h.number_of_relocations == le16(b, 32)
    &&& h.number_of_linenumbers == le16(b, 34)
    &&& h.characteristics == le32(b, 36)
}

impl SectionHeader {
    /// Reads the section header at the start of `bytes`.
    pub fn read(bytes: &[u8]) -> (r: Result<Self, PeError>)
        ensures
            match r {
                Ok(h) => bytes@.len() >= 40 && section_header_from(h, bytes@),
                Err(e) => bytes@.len() < 40 && e == PeError::UnexpectedEof,
            },
    {
        if bytes.len() < SECTION_HEADER_LEN {
            return Err(PeError::UnexpectedEof);
        }
        let decoded = from_utf8_lossy(slice_subrange(bytes, 0, 8));
        let name = trim_nuls(decoded.as_str());
        Ok(SectionHeader {
            name,
            virtual_size: read_le32(bytes, 8),
            virtual_address: read_le32(bytes, 12),
            size_of_raw_data: read_le32(bytes, 16),
            pointer_to_raw_data: read_le32(bytes, 20),
            pointer_to_relocations: read_le32(bytes, 24),
            pointer_to_linenumbers: read_le32(bytes, 28),
            number_of_relocations: read_le16(bytes, 32),
            number_of_linenumbers: read_le16(bytes, 34),
            characteristics: read_le32(bytes, 36),
        })
    }
}


/// High-level parsed PE information.
#[derive(Debug)]
pub struct PeInfo {
    pub dos: DosHeader,
    pub file: FileHeader,
    pub optional: OptionalHeader32,
    pub sections: Vec<SectionHeader>,
}

/// Offset of the PE signature, as the DOS header of `b` gives it.
pub open spec fn pe_offset(b: Seq<u8>) -> int {
    le32(b, 60) as int
}

/// Offset of the COFF file header.
pub open spec fn file_header_offset(b: Seq<u8>) -> int {
    pe_offset(b) + 4
}

/// Offset of the optional header.
pub open spec fn optional_header_offset(b: Seq<u8>) -> int {
    pe_offset(b) + 24
}

/// Offset of the first section header: right after the data directories.
pub open spec fn section_table_offset(b: Seq<u8>) -> int {
    optional_header_offset(b) + 96 + 8 * le32(b, optional_header_offset(b) + 92) as int
}

/// The number of section headers that the file header announces.
pub open spec fn section_count(b: Seq<u8>) -> int {
    le16(b, file_header_offset(b) + 2) as int
}

/// Offset of section header `i`.
pub open spec fn section_header_offset(b: Seq<u8>, i: int) -> int {
    section_table_offset(b) + 40 * i
}

/// The bytes "PE\0\0" stand at `p`.
pub open spec fn has_pe_signature(b: Seq<u8>, p: int) -> bool {
    b[p] == 0x50 && b[p + 1] == 0x45 && b[p + 2] == 0 && b[p + 3] == 0
}

/// The first reason, in reading order, why `b` is not a 32-bit PE image;
/// `None` when it is one.
pub open spec fn parse_error(b: Seq<u8>) -> Option<PeError> {
    if b.len() < 64 {
        Some(PeError::UnexpectedEof)
    } else if le16(b, 0) != DosHeader::MAGIC {
        Some(PeError::NotMz)
    } else if pe_offset(b) + 4 > b.len() {
        Some(PeError::UnexpectedEof)
    } else if !has_pe_signature(b, pe_offset(b)) {
        Some(PeError::MissingPeSignature)
    } else if file_header_offset(b) + 20 > b.len() {
        Some(PeError::UnexpectedEof)
    } else if le16(b, file_header_offset(b)) != FileHeader::MACHINE_I386 {
        Some(PeError::UnsupportedMachine(le16(b, file_header_offset(b))))
    } else if optional_header_offset(b) + 96 > b.len() {
        Some(PeError::UnexpectedEof)
    } else if section_table_offset(b) > b.len() {
        Some(PeError::UnexpectedEof)
    } else if le16(b, optional_header_offset(b)) != OptionalHeader32::MAGIC_PE32 {
        Some(PeError::NotPe32)
    } else if section_header_offset(b, section_count(b)) > b.len() {
        Some(PeError::UnexpectedEof)
    } else {
        None
    }
}

/// `info` holds every header of the PE image `b`.
pub open spec fn pe_info_from(info: PeInfo, b: Seq<u8>) -> bool {
    &&& dos_header_from(info.dos, b)
    &&& file_header_from(info.file, b.subrange(file_header_offset(b), b.len() as int))
    &&& optional_header_from(
        info.optional,
        b.subrange(optional_header_offset(b), b.len() as int),
    )
    &&& info.sections@.len() == section_count(b)
    &&& forall|i: int|
        0 <= i < section_count(b) ==> section_header_from(
            #[trigger] info.sections@[i],
            b.subrange(section_header_offset(b, i), b.len() as int),
        )
}

/// The section headers of a parsed file are the consecutive 40-byte records
/// that start right after the optional header's data directories (at
/// `e_lfanew + 24 + 96 + 8 * NumberOfRvaAndSizes`): header `i` is decoded
/// from the 40 bytes at that offset plus `40 * i`, one per announced section.
pub proof fn lemma_sections_are_consecutive_headers(b: Seq<u8>, info: PeInfo)
    requires
        parse_error(b).is_none(),
        pe_info_from(info, b),
    ensures
        info.sections@.len() == info.file.number_of_sections as int,
        ({
            let t = info.dos.e_lfanew as int + 24 + 96 + 8 * info.optional.number_of_rva_and_sizes as int;
            &&& t + 40 * info.sections@.len() <= b.len()
            &&& forall|i: int|
                #![trigger info.sections@[i]]
                0 <= i < info.sections@.len() ==> {
                    let o = t + 40 * i;
                    &&& info.sections@[i].name@ == trim_trailing_nuls(utf8_lossy(b.subrange(o, o + 8)))
                    &&& info.sections@[i].virtual_size as int == b[o + 8] as int + 256 * b[o + 9] as int
                        + 65536 * b[o + 10] as int + 16777216 * b[o + 11] as int
                    &&& info.sections@[i].virtual_address as int == b[o + 12] as int + 256 * b[o
                        + 13] as int + 65536 * b[o + 14] as int + 16777216 * b[o + 15] as int
                    &&& info.sections@[i].size_of_raw_data as int == b[o + 16] as int + 256 * b[o
                        + 17] as int + 65536 * b[o + 18] as int + 16777216 * b[o + 19] as int
                    &&& info.sections@[i].pointer_to_raw_data as int == b[o + 20] as int + 256 * b[o
                        + 21] as int + 65536 * b[o + 22] as int + 16777216 * b[o + 23] as int
                    &&& info.sections@[i].characteristics as int == b[o + 36] as int + 256 * b[o
                        + 37] as int + 65536 * b[o + 38] as int + 16777216 * b[o + 39] as int
                }
        }),
{
    let ob = b.subrange(optional_header_offset(b), b.len() as int);
    assert(info.optional.number_of_rva_and_sizes == le32(b, optional_header_offset(b) + 92)) by {
        assert(ob[92] == b[optional_header_offset(b) + 92]);
        assert(ob[93] == b[optional_header_offset(b) + 93]);
        assert(ob[94] == b[optional_header_offset(b) + 94]);
        assert(ob[95] == b[optional_header_offset(b) + 95]);
    }
    let fb = b.subrange(file_header_offset(b), b.len() as int);
    assert(fb[2] == b[file_header_offset(b) + 2]);
    assert(fb[3] == b[file_header_offset(b) + 3]);
    let t = info.dos.e_lfanew as int + 24 + 96 + 8 * info.optional.number_of_rva_and_sizes as int;
    assert(t == section_table_offset(b));
    assert forall|i: int| #![trigger info.sections@[i]] 0 <= i < info.sections@.len() implies {
        let o = t + 40 * i;
        &&& info.sections@[i].name@ == trim_trailing_nuls(utf8_lossy(b.subrange(o, o + 8)))
        &&& info.sections@[i].virtual_size as int == b[o + 8] as int + 256 * b[o + 9] as int
            + 65536 * b[o + 10] as int + 16777216 * b[o + 11] as int
        &&& info.sections@[i].virtual_address as int == b[o + 12] as int + 256 * b[o + 13] as int
            + 65536 * b[o + 14] as int + 16777216 * b[o + 15] as int
        &&& info.sections@[i].size_of_raw_data as int == b[o + 16] as int + 256 * b[o + 17] as int
            + 65536 * b[o + 18] as int + 16777216 * b[o + 19] as int
        &&& info.sections@[i].pointer_to_raw_data as int == b[o + 20] as int + 256 * b[o + 21] as int
            + 65536 * b[o + 22] as int + 16777216 * b[o + 23] as int
        &&& info.sections@[i].characteristics as int == b[o + 36] as int + 256 * b[o + 37] as int
            + 65536 * b[o + 38] as int + 16777216 * b[o + 39] as int
    } by {
        let o = t + 40 * i;
        let sb = b.subrange(o, b.len() as int);
        assert(section_header_from(info.sections@[i], sb));
        assert(sb.subrange(0, 8) =~= b.subrange(o, o + 8));
        assert forall|k: int| 0 <= k < 40 implies sb[k] == b[o + k] by {}
    }
}

impl PeInfo {
    /// Parses the DOS, COFF and PE32 optional headers and the section table of
    /// the file whose bytes are `data`.
    pub fn parse(data: &[u8]) -> (r: Result<Self, PeError>)
        ensures
            match r {
                Ok(info) => parse_error(data@).is_none() && pe_info_from(info, data@),
                Err(e) => parse_error(data@) == Some(e),
            },
            r.is_ok() ==> r.unwrap().sections@.len() == r.unwrap().file.number_of_sections as int,
            r.is_ok() ==> forall|i: int|
                #![trigger r.unwrap().sections@[i]]
                0 <= i < r.unwrap().sections@.len() ==> {
                    &&& r.unwrap().sections@[i].name@ == trim_trailing_nuls(
                        utf8_lossy(data@.subrange(
                            r.unwrap().dos.e_lfanew + 24 + 96 + 8 * r.unwrap().optional.number_of_rva_and_sizes + 40 * i,
                            r.unwrap().dos.e_lfanew + 24 + 96 + 8 * r.unwrap().optional.number_of_rva_and_sizes + 40 * i + 8,
                        )),
                    )
                    &&& r.unwrap().sections@[i].virtual_address == le32(
                        data@,
                        r.unwrap().dos.e_lfanew + 24 + 96 + 8 * r.unwrap().optional.number_of_rva_and_sizes + 40 * i + 12,
                    )
                    &&& r.unwrap().sections@[i].size_of_raw_data == le32(
                        data@,
                        r.unwrap().dos.e_lfanew + 24 + 96 + 8 * r.unwrap().optional.number_of_rva_and_sizes + 40 * i + 16,
                    )
                    &&& r.unwrap().sections@[i].pointer_to_raw_data == le32(
                        data@,
                        r.unwrap().dos.e_lfanew + 24 + 96 + 8 * r.unwrap().optional.number_of_rva_and_sizes + 40 * i + 20,
                    )
                },
    {
        let ghost b = data@;
        let len = data.len();
        let dos = DosHeader::read(data)?;
        if dos.e_magic != DosHeader::MAGIC {
            return Err(PeError::NotMz);
        }
        let p = dos.e_lfanew as usize;
        if p > len || len - p < 4 {
            return Err(PeError::UnexpectedEof);
        }
        if !(data[p] == 0x50 && data[p + 1] == 0x45 && data[p + 2] == 0 && data[p + 3] == 0) {
            return Err(PeError::MissingPeSignature);
        }
        let file_bytes = slice_subrange(data, p + 4, len);
        let file = FileHeader::read(file_bytes)?;
        if file.machine != FileHeader::MACHINE_I386 {
            return Err(PeError::UnsupportedMachine(file.machine));
        }
        let opt_pos = p + 24;
        let opt_bytes = slice_subrange(data, opt_pos, len);
        let optional = OptionalHeader32::read(opt_bytes)?;
        if optional.magic != OptionalHeader32::MAGIC_PE32 {
            return Err(PeError::NotPe32);
        }
        let table = opt_pos + 96 + 8 * (optional.number_of_rva_and_sizes as usize);
        let count = file.number_of_sections as usize;
        let mut sections: Vec<SectionHeader> = Vec::with_capacity(count);
        let mut i: usize = 0;
        while i < count
            invariant
                b == data@,
                len == b.len(),
                parse_error(b) == (if section_header_offset(b, section_count(b)) > b.len() {
                    Some(PeError::UnexpectedEof)
                } else {
                    None
                }),
                table as int == section_table_offset(b),
                count as int == section_count(b),
                i <= count,
                table <= len,
                sections@.len() == i,
                forall|j: int|
                    0 <= j < i ==> section_header_from(
                        #[trigger] sections@[j],
                        b.subrange(section_header_offset(b, j), b.len() as int),
                    ),
            decreases count - i,
        {
            if (len - table) / 40 < i + 1 {
                return Err(PeError::UnexpectedEof);
            }
            let pos = table + 40 * i;
            let header = SectionHeader::read(slice_subrange(data, pos, len))?;
            sections.push(header);
            i = i + 1;
        }
        if (len - table) / 40 < count {
            return Err(PeError::UnexpectedEof);
        }
        let info = PeInfo { dos, file, optional, sections };
        proof {
            lemma_sections_are_consecutive_headers(b, info);
        }
        Ok(info)
    }
}

} // verus!
