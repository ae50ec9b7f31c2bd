//! Loads a 32-bit PE image into a flat memory buffer.

use super::header::{
    optional_header_offset, parse_error, pe_info_from, PeError, PeInfo, SectionHeader,
};
use super::imports::{
    descriptor_all_zero, dll_from_descriptor, import_directory_imports, imports_listing, imports_match, parse_imports, render_imports,
    ImportError, ImportedDll,
};
use crate::bytes::le32;
use crate::text::{
    decimal_digits, decimal_string, hex_digits, hex_string, pad_right, pad_right_string,
};
use vstd::prelude::*;

verus! {

/// The largest SizeOfImage that the loader accepts: 512 MiB.
pub const MAX_IMAGE_SIZE: u32 = 0x2000_0000;

/// SizeOfImage as the optional header of `b` gives it.
pub open spec fn size_of_image(b: Seq<u8>) -> int {
    le32(b, optional_header_offset(b) + 56) as int
}

/// SizeOfHeaders as the optional header of `b` gives it.
pub open spec fn size_of_headers(b: Seq<u8>) -> int {
    le32(b, optional_header_offset(b) + 60) as int
}

/// The number of header bytes copied to the start of the image.
pub open spec fn header_copy_len(b: Seq<u8>) -> int {
    if size_of_headers(b) < size_of_image(b) {
        size_of_headers(b)
    } else {
        size_of_image(b)
    }
}

/// Why `b` cannot be loaded, if it cannot.
pub open spec fn load_error(b: Seq<u8>) -> Option<PeError> {
    if parse_error(b).is_some() {
        parse_error(b)
    } else if size_of_image(b) == 0 || size_of_image(b) > MAX_IMAGE_SIZE {
        Some(PeError::UnreasonableSizeOfImage(size_of_image(b) as u32))
    } else if header_copy_len(b) > b.len() {
        Some(PeError::UnexpectedEof)
    } else {
        None
    }
}

/// A file that loads is a file that parses: loading only adds the checks
/// on SizeOfImage and on the header bytes.
pub proof fn lemma_loadable_is_parseable(b: Seq<u8>)
    requires
        load_error(b).is_none(),
    ensures
        parse_error(b).is_none(),
        0 < size_of_image(b) <= MAX_IMAGE_SIZE,
        header_copy_len(b) <= b.len(),
{
}

/// The number of bytes of section `s` that fit in an image of `size` bytes.
pub open spec fn section_copy_len(s: SectionHeader, size: int) -> int {
    if (s.size_of_raw_data as int) < size - s.virtual_address as int {
        s.size_of_raw_data as int
    } else {
        size - s.virtual_address as int
    }
}

/// Section `s` is copied into an image of `size` bytes from a file of
/// `file_len` bytes: it has raw data, starts inside the image, and the file
/// holds all the bytes to copy (a read that comes up short copies nothing).
pub open spec fn section_is_mapped(s: SectionHeader, size: int, file_len: int) -> bool {
    &&& s.size_of_raw_data != 0
    &&& s.pointer_to_raw_data != 0
    &&& (s.virtual_address as int) < size
    &&& s.pointer_to_raw_data as int + section_copy_len(s, size) <= file_len
}

/// `mem` after section `s` of the file `data` has been copied into it.
pub open spec fn apply_section(mem: Seq<u8>, s: SectionHeader, data: Seq<u8>) -> Seq<u8> {
    if section_is_mapped(s, mem.len() as int, data.len() as int) {
        Seq::new(
            mem.len(),
            |j: int|
                if s.virtual_address as int <= j < s.virtual_address as int + section_copy_len(
                    s,
                    mem.len() as int,
                ) {
                    data[s.pointer_to_raw_data as int + j - s.virtual_address as int]
                } else {
                    mem[j]
                },
        )
    } else {
        mem
    }
}

/// `mem` after every section of `sections` has been copied into it, in order.
pub open spec fn map_sections(mem: Seq<u8>, sections: Seq<SectionHeader>, data: Seq<u8>) -> Seq<u8>
    decreases sections.len(),
{
    if sections.len() == 0 {
        mem
    } else {
        apply_section(map_sections(mem, sections.drop_last(), data), sections.last(), data)
    }
}

/// The raw data of section `s`, placed at its RVA, covers the address `p`.
pub open spec fn section_covers(s: SectionHeader, p: int) -> bool {
    s.virtual_address <= p < s.virtual_address + s.size_of_raw_data
}

/// Copying the sections keeps the length of the image.
proof fn lemma_map_sections_len(mem: Seq<u8>, sections: Seq<SectionHeader>, data: Seq<u8>)
    ensures
        map_sections(mem, sections, data).len() == mem.len(),
    decreases sections.len(),
{
    if sections.len() > 0 {
        lemma_map_sections_len(mem, sections.drop_last(), data);
    }
}

/// Byte `va + k` of section `sections[i]` holds the file's byte `ptr + k`
/// once every section has been copied, when that byte is part of what the
/// section copies and no later section's raw data covers it.
proof fn lemma_map_sections_byte(
    mem: Seq<u8>,
    sections: Seq<SectionHeader>,
    data: Seq<u8>,
    i: int,
    k: int,
)
    requires
        0 <= i < sections.len(),
        section_is_mapped(sections[i], mem.len() as int, data.len() as int),
        0 <= k < section_copy_len(sections[i], mem.len() as int),
        forall|j: int|
            #![trigger sections[j]]
            i < j < sections.len() ==> !(sections[j].virtual_address <= sections[i].virtual_address
                + k < sections[j].virtual_address + sections[j].size_of_raw_data),
    ensures
        map_sections(mem, sections, data)[sections[i].virtual_address + k]
            == data[sections[i].pointer_to_raw_data + k],
    decreases sections.len(),
{
    let front = sections.drop_last();
    let s = sections.last();
    let before = map_sections(mem, front, data);
    lemma_map_sections_len(mem, front, data);
    let p = sections[i].virtual_address + k;
    if i == sections.len() - 1 {
        assert(s == sections[i]);
    } else {
        assert(front[i] == sections[i]);
        assert forall|j: int| #![trigger front[j]] i < j < front.len() implies !(front[j].virtual_address
            <= front[i].virtual_address + k < front[j].virtual_address
            + front[j].size_of_raw_data) by {
            assert(front[j] == sections[j]);
        }
        lemma_map_sections_byte(mem, front, data, i, k);
        assert(!(s.virtual_address <= p < s.virtual_address + s.size_of_raw_data));
        assert(section_copy_len(s, mem.len() as int) <= s.size_of_raw_data);
    }
}

/// A byte that no section's raw data covers keeps its value when the
/// sections are copied.
proof fn lemma_map_sections_untouched(
    mem: Seq<u8>,
    sections: Seq<SectionHeader>,
    data: Seq<u8>,
    p: int,
)
    requires
        0 <= p < mem.len(),
        forall|j: int|
            #![trigger sections[j]]
            0 <= j < sections.len() ==> !(sections[j].virtual_address <= p
                < sections[j].virtual_address + sections[j].size_of_raw_data),
    ensures
        map_sections(mem, sections, data)[p] == mem[p],
    decreases sections.len(),
{
    if sections.len() > 0 {
        let front = sections.drop_last();
        let s = sections.last();
        assert forall|j: int| #![trigger front[j]] 0 <= j < front.len() implies !(front[j].virtual_address <= p
            < front[j].virtual_address + front[j].size_of_raw_data) by {
            assert(front[j] == sections[j]);
        }
        lemma_map_sections_untouched(mem, front, data, p);
        lemma_map_sections_len(mem, front, data);
        assert(!(s.virtual_address <= p < s.virtual_address + s.size_of_raw_data));
        if section_is_mapped(s, mem.len() as int, data.len() as int) {
            assert(section_copy_len(s, mem.len() as int) <= s.size_of_raw_data);
        }
    }
}

/// Where each byte of an image comes from once the sections are copied:
/// from the last section whose raw data covers it, or else from `base`.
proof fn lemma_image_bytes(base: Seq<u8>, secs: Seq<SectionHeader>, data: Seq<u8>)
    ensures
        forall|i: int, p: int|
            #![trigger secs[i], map_sections(base, secs, data)[p]]
            0 <= i < secs.len() && section_covers(secs[i], p) && p < base.len()
                && secs[i].pointer_to_raw_data != 0 && (secs[i].pointer_to_raw_data
                + secs[i].size_of_raw_data <= data.len() || secs[i].pointer_to_raw_data
                + base.len() - secs[i].virtual_address <= data.len()) && (forall|j: int|
                #![trigger secs[j]]
                i < j < secs.len() ==> !section_covers(secs[j], p))
                ==> map_sections(base, secs, data)[p] == data[secs[i].pointer_to_raw_data + p
                - secs[i].virtual_address],
        forall|p: int|
            #![trigger map_sections(base, secs, data)[p]]
            0 <= p < base.len() && (forall|j: int|
                #![trigger secs[j]]
                0 <= j < secs.len() ==> !section_covers(secs[j], p))
                ==> map_sections(base, secs, data)[p] == base[p],
{
    assert forall|i: int, p: int|
        #![trigger secs[i], map_sections(base, secs, data)[p]]
        0 <= i < secs.len() && section_covers(secs[i], p) && p < base.len()
            && secs[i].pointer_to_raw_data != 0 && (secs[i].pointer_to_raw_data
            + secs[i].size_of_raw_data <= data.len() || secs[i].pointer_to_raw_data
            + base.len() - secs[i].virtual_address <= data.len()) && (forall|j: int|
            #![trigger secs[j]]
            i < j < secs.len() ==> !section_covers(secs[j], p))
        implies map_sections(base, secs, data)[p] == data[secs[i].pointer_to_raw_data + p
        - secs[i].virtual_address] by {
        let k = p - secs[i].virtual_address;
        assert(section_is_mapped(secs[i], base.len() as int, data.len() as int));
        lemma_map_sections_byte(base, secs, data, i, k);
    }
    assert forall|p: int|
        #![trigger map_sections(base, secs, data)[p]]
        0 <= p < base.len() && (forall|j: int|
            #![trigger secs[j]]
            0 <= j < secs.len() ==> !section_covers(secs[j], p))
        implies map_sections(base, secs, data)[p] == base[p] by {
        lemma_map_sections_untouched(base, secs, data, p);
    }
}

/// A zero-filled image of `size` bytes whose first `copy` bytes are those of `data`.
pub open spec fn header_image(size: int, copy: int, data: Seq<u8>) -> Seq<u8> {
    Seq::new(size as nat, |j: int| if j < copy { data[j] } else { 0u8 })
}

/// The flat memory image of the file `data` whose headers are `info`.
pub open spec fn mapped_image(info: PeInfo, data: Seq<u8>) -> Seq<u8> {
    map_sections(
        header_image(size_of_image(data), header_copy_len(data), data),
        info.sections@,
        data,
    )
}

/// The summary line of one section.
pub open spec fn section_line(s: SectionHeader) -> Seq<char> {
    "    ["@ + pad_right(s.name@, 8) + "] VA=0x"@ + hex_digits(s.virtual_address as nat, 8, true)
        + "  RawSize="@ + decimal_digits(s.size_of_raw_data as nat) + "\n"@
}

/// The summary lines of `sections`, in order.
pub open spec fn section_lines(sections: Seq<SectionHeader>) -> Seq<char>
    decreases sections.len(),
{
    if sections.len() == 0 {
        Seq::empty()
    } else {
        section_lines(sections.drop_last()) + section_line(sections.last())
    }
}

/// The human-readable summary of a loaded image.
pub open spec fn summary_text(img: LoadedImage) -> Seq<char> {
    "PE loaded successfully\nDOS magic   : 0x"@ + hex_digits(img.info.dos.e_magic as nat, 4, true)
        + "\nMachine     : 0x"@ + hex_digits(img.info.file.machine as nat, 4, true)
        + " (i386)\nSections    : "@ + decimal_digits(img.info.file.number_of_sections as nat)
        + "\nImageBase   : 0x"@ + hex_digits(img.image_base as nat, 8, true)
        + "\nEntryPoint  : RVA 0x"@ + hex_digits(img.entry_point_rva as nat, 8, true)
        + "\nSizeOfImage : "@ + decimal_digits(img.memory@.len()) + " bytes\nSubsystem   : "@
        + decimal_digits(img.info.optional.subsystem as nat) + "\n"@ + section_lines(
        img.info.sections@,
    )
}

/// A loaded PE image ready for further processing by the compatibility layer.
#[derive(Debug)]
pub struct LoadedImage {
    pub info: PeInfo,
    /// Flat memory image (SizeOfImage bytes), sections copied to their RVAs.
    pub memory: Vec<u8>,
    pub entry_point_rva: u32,
    pub image_base: u32,
}

fn copy_section(memory: &mut Vec<u8>, s: &SectionHeader, data: &[u8])
    ensures
        final(memory)@.len() == old(memory)@.len(),
        final(memory)@ == apply_section(old(memory)@, *s, data@),
{
    let size = memory.len();
    if s.size_of_raw_data == 0 || s.pointer_to_raw_data == 0 {
        return;
    }
    let dest = s.virtual_address as usize;
    if dest >= size {
        return;
    }
    let raw = s.size_of_raw_data as usize;
    let copy_len = if raw < size - dest {
        raw
    } else {
        size - dest
    };
    let src = s.pointer_to_raw_data as usize;
    if src > data.len() || data.len() - src < copy_len {
        return;
    }
    let ghost before = memory@;
    let mut k: usize = 0;
    while k < copy_len
        invariant
            k <= copy_len,
            dest + copy_len <= size,
            src + copy_len <= data.len(),
            memory@.len() == size,
            before.len() == size,
            memory@ =~= Seq::new(
                size as nat,
                |j: int|
                    if dest as int <= j < dest as int + k as int {
                        data@[src as int + j - dest as int]
                    } else {
                        before[j]
                    },
            ),
        decreases copy_len - k,
    {
        memory.set(dest + k, data[src + k]);
        k = k + 1;
    }
}

/// A zero-filled buffer of `size` bytes whose first `copy` bytes are those of `data`.
fn header_bytes(data: &[u8], size: usize, copy: usize) -> (memory: Vec<u8>)
    requires
        copy <= size,
        copy <= data@.len(),
    ensures
        memory@ == header_image(size as int, copy as int, data@),
{
    let mut memory: Vec<u8> = Vec::with_capacity(size);
    let mut k: usize = 0;
    while k < size
        invariant
            k <= size,
            copy <= size,
            copy <= data@.len(),
            memory@ =~= header_image(k as int, copy as int, data@),
        decreases size - k,
    {
        if k < copy {
            memory.push(data[k]);
        } else {
            memory.push(0u8);
        }
        k = k + 1;
    }
    memory
}

impl LoadedImage {
    /// Loads the PE file whose bytes are `data` and maps its headers and
    /// sections into a flat image of SizeOfImage bytes.
    #[verifier::rlimit(40)]
    pub fn load(data: &[u8]) -> (r: Result<Self, PeError>)
        ensures
            match r {
                Ok(img) => {
                    &&& load_error(data@).is_none()
                    &&& pe_info_from(img.info, data@)
                    &&& img.memory@ == mapped_image(img.info, data@)
                    &&& img.memory@.len() == img.info.optional.size_of_image
                    &&& 0 < img.info.optional.size_of_image <= MAX_IMAGE_SIZE
                    &&& img.entry_point_rva == img.info.optional.address_of_entry_point
                    &&& img.image_base == img.info.optional.image_base
                },
                Err(e) => load_error(data@) == Some(e),
            },
            r.is_ok() ==> forall|i: int, p: int|
                #![trigger r.unwrap().info.sections@[i], r.unwrap().memory@[p]]
                0 <= i < r.unwrap().info.sections@.len() && section_covers(
                    r.unwrap().info.sections@[i],
                    p,
                ) && p < r.unwrap().memory@.len() && r.unwrap().info.sections@[i].pointer_to_raw_data
                    != 0 && (r.unwrap().info.sections@[i].pointer_to_raw_data
                    + r.unwrap().info.sections@[i].size_of_raw_data <= data@.len()
                    || r.unwrap().info.sections@[i].pointer_to_raw_data + r.unwrap().memory@.len()
                    - r.unwrap().info.sections@[i].virtual_address <= data@.len()) && (forall|j: int|
                    #![trigger r.unwrap().info.sections@[j]]
                    i < j < r.unwrap().info.sections@.len() ==> !section_covers(
                        r.unwrap().info.sections@[j],
                        p,
                    )) ==> r.unwrap().memory@[p] == data@[r.unwrap().info.sections@[i].pointer_to_raw_data
                    + p - r.unwrap().info.sections@[i].virtual_address],
            r.is_ok() ==> forall|p: int|
                #![trigger r.unwrap().memory@[p]]
                0 <= p < r.unwrap().memory@.len() && (forall|j: int|
                    #![trigger r.unwrap().info.sections@[j]]
                    0 <= j < r.unwrap().info.sections@.len() ==> !section_covers(
                        r.unwrap().info.sections@[j],
                        p,
                    )) ==> r.unwrap().memory@[p] == (if p < header_copy_len(data@) {
                    data@[p]
                } else {
                    0u8
                }),
    {
        let info = PeInfo::parse(data)?;
        let size_of_image = info.optional.size_of_image;
        if size_of_image == 0 || size_of_image > MAX_IMAGE_SIZE {
            return Err(PeError::UnreasonableSizeOfImage(size_of_image));
        }
        let size = size_of_image as usize;
        let header_size = info.optional.size_of_headers as usize;
        let copy = if header_size < size {
            header_size
        } else {
            size
        };
        if copy > data.len() {
            return Err(PeError::UnexpectedEof);
        }
        let mut memory = header_bytes(data, size, copy);
        let ghost base = memory@;
        let mut i: usize = 0;
        while i < info.sections.len()
            invariant
                i <= info.sections@.len(),
                memory@.len() == size,
                memory@ == map_sections(base, info.sections@.subrange(0, i as int), data@),
            decreases info.sections@.len() - i,
        {
            copy_section(&mut memory, &info.sections[i], data);
            assert(info.sections@.subrange(0, i + 1).drop_last() =~= info.sections@.subrange(
                0,
                i as int,
            ));
            i = i + 1;
        }
        assert(info.sections@.subrange(0, info.sections@.len() as int) =~= info.sections@);
        proof {
            lemma_image_bytes(base, info.sections@, data@);
        }
        Ok(LoadedImage {
            entry_point_rva: info.optional.address_of_entry_point,
            image_base: info.optional.image_base,
            info,
            memory,
        })
    }

    /// The DLLs and functions that the image imports, read from its import
    /// directory in the mapped memory.
    pub fn imports(&self) -> (r: Result<Vec<ImportedDll>, ImportError>)
        ensures
            match import_directory_imports(self.memory@, self.info.optional.import_directory) {
                Some(ms) => r.is_ok() && imports_match(r.unwrap()@, ms),
                None => r == Err::<Vec<ImportedDll>, ImportError>(ImportError::OutsideImage),
            },
            ({
                let dir = self.info.optional.import_directory;
                r.is_ok() && dir.virtual_address != 0 && dir.size != 0 ==> {
                    let n = r.unwrap()@.len();
                    &&& dir.virtual_address + 20 * (n + 1) <= self.memory@.len()
                    &&& descriptor_all_zero(self.memory@, dir.virtual_address + 20 * n)
                    &&& forall|k: int|
                        0 <= k < n ==> #[trigger] dll_from_descriptor(
                            self.memory@,
                            dir.virtual_address + 20 * k,
                            r.unwrap()@[k],
                        )
                }
            }),
    {
        parse_imports(self.memory.as_slice(), self.info.optional.import_directory)
    }

    /// The import listing shown after a load: each DLL, then its functions
    /// by name or ordinal.
    pub fn imports_text(&self) -> (s: String)
        ensures
            s@ == imports_listing(
                import_directory_imports(self.memory@, self.info.optional.import_directory),
            ),
    {
        match self.imports() {
            Ok(dlls) => {
                let ghost ms = import_directory_imports(
                    self.memory@,
                    self.info.optional.import_directory,
                ).unwrap();
                render_imports(&dlls, Ghost(ms))
            },
            Err(_) => String::from_str("Imports: the import table runs outside the image\n"),
        }
    }

    /// Human-readable summary for the UI / debug status.
    pub fn summary(&self) -> (s: String)
        ensures
            s@ == summary_text(*self),
    {
        let mut s = String::from_str("PE loaded successfully\nDOS magic   : 0x");
        s.append(hex_string(self.info.dos.e_magic as u64, 4, true).as_str());
        s.append("\nMachine     : 0x");
        s.append(hex_string(self.info.file.machine as u64, 4, true).as_str());
        s.append(" (i386)\nSections    : ");
        s.append(decimal_string(self.info.file.number_of_sections as u64).as_str());
        s.append("\nImageBase   : 0x");
        s.append(hex_string(self.image_base as u64, 8, true).as_str());
        s.append("\nEntryPoint  : RVA 0x");
        s.append(hex_string(self.entry_point_rva as u64, 8, true).as_str());
        s.append("\nSizeOfImage : ");
        s.append(decimal_string(self.memory.len() as u64).as_str());
        s.append(" bytes\nSubsystem   : ");
        s.append(decimal_string(self.info.optional.subsystem as u64).as_str());
        s.append("\n");
        let ghost head = s@;
        let sections = &self.info.sections;
        let mut i: usize = 0;
        while i < sections.len()
            invariant
                i <= sections@.len(),
                s@ == head + section_lines(sections@.subrange(0, i as int)),
            decreases sections@.len() - i,
        {
            let sec = &sections[i];
            let mut line = String::from_str("    [");
            line.append(pad_right_string(sec.name.as_str(), 8).as_str());
            line.append("] VA=0x");
            line.append(hex_string(sec.virtual_address as u64, 8, true).as_str());
            line.append("  RawSize=");
            line.append(decimal_string(sec.size_of_raw_data as u64).as_str());
            line.append("\n");
            assert(sections@.subrange(0, i + 1).drop_last() =~= sections@.subrange(0, i as int));
            s.append(line.as_str());
            i = i + 1;
        }
        assert(sections@.subrange(0, sections@.len() as int) =~= sections@);
        s
    }
}

} // verus!
