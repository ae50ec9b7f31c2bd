use xp_layer::pe::{
    DosHeader, FileHeader, ImportError, ImportedFunction, LoadedImage, OptionalHeader32, PeError,
    PeInfo, SectionHeader,
};

fn put16(b: &mut [u8], off: usize, v: u16) {
    b[off..off + 2].copy_from_slice(&v.to_le_bytes());
}

fn put32(b: &mut [u8], off: usize, v: u32) {
    b[off..off + 4].copy_from_slice(&v.to_le_bytes());
}

const CODE: [u8; 8] = [0x90, 0x90, 0xB8, 0x78, 0x56, 0x34, 0x12, 0xC3];

/// A small i386 PE32 file: one `.text` section at RVA 0x1000 with `CODE`.
fn sample_pe() -> Vec<u8> {
    let mut b = vec![0u8; 0x400];
    put16(&mut b, 0, 0x5A4D);
    put16(&mut b, 2, 0x90);
    put32(&mut b, 60, 64);
    b[64..68].copy_from_slice(b"PE\0\0");
    let f = 68;
    put16(&mut b, f, 0x014c);
    put16(&mut b, f + 2, 1);
    put32(&mut b, f + 4, 0x1234_5678);
    put16(&mut b, f + 16, 224);
    put16(&mut b, f + 18, 0x0102);
    let o = 88;
    put16(&mut b, o, 0x10B);
    b[o + 2] = 6;
    b[o + 3] = 1;
    put32(&mut b, o + 16, 0x1000);
    put32(&mut b, o + 28, 0x0040_0000);
    put32(&mut b, o + 32, 0x1000);
    put32(&mut b, o + 36, 0x200);
    put32(&mut b, o + 56, 0x2000);
    put32(&mut b, o + 60, 0x200);
    put16(&mut b, o + 68, 2);
    put32(&mut b, o + 92, 16);
    put32(&mut b, o + 96 + 8, 0x1100);
    put32(&mut b, o + 96 + 12, 0x28);
    let s = o + 96 + 16 * 8;
    b[s..s + 5].copy_from_slice(b".text");
    put32(&mut b, s + 8, 0x100);
    put32(&mut b, s + 12, 0x1000);
    put32(&mut b, s + 16, 0x200);
    put32(&mut b, s + 20, 0x200);
    put32(&mut b, s + 36, 0x6000_0020);
    b[0x200..0x208].copy_from_slice(&CODE);
    // Import table at RVA 0x1100 (file offset 0x300): one DLL, then the null descriptor.
    put32(&mut b, 0x300, 0x1140);
    put32(&mut b, 0x300 + 12, 0x1160);
    put32(&mut b, 0x300 + 16, 0x1140);
    put32(&mut b, 0x340, 0x1170);
    put32(&mut b, 0x344, 0x8000_0011);
    b[0x360..0x36C].copy_from_slice(b"KERNEL32.dll");
    b[0x372..0x37D].copy_from_slice(b"ExitProcess");
    b
}

#[test]
fn parses_sample_headers() {
    let data = sample_pe();
    let info = PeInfo::parse(&data).unwrap();
    assert_eq!(info.dos.e_magic, DosHeader::MAGIC);
    assert_eq!(info.dos.e_cblp, 0x90);
    assert_eq!(info.dos.e_lfanew, 64);
    assert_eq!(info.file.machine, FileHeader::MACHINE_I386);
    assert_eq!(info.file.number_of_sections, 1);
    assert_eq!(info.file.time_date_stamp, 0x1234_5678);
    assert_eq!(info.file.size_of_optional_header, 224);
    assert_eq!(info.file.characteristics, 0x0102);
    assert_eq!(info.optional.magic, OptionalHeader32::MAGIC_PE32);
    assert_eq!(info.optional.major_linker_version, 6);
    assert_eq!(info.optional.minor_linker_version, 1);
    assert_eq!(info.optional.address_of_entry_point, 0x1000);
    assert_eq!(info.optional.image_base, 0x0040_0000);
    assert_eq!(info.optional.size_of_image, 0x2000);
    assert_eq!(info.optional.size_of_headers, 0x200);
    assert_eq!(info.optional.subsystem, 2);
    assert_eq!(info.optional.number_of_rva_and_sizes, 16);
    assert_eq!(info.optional.import_directory.virtual_address, 0x1100);
    assert_eq!(info.optional.import_directory.size, 0x28);
    assert_eq!(info.sections.len(), 1);
    let sec = &info.sections[0];
    assert_eq!(sec.name, ".text");
    assert_eq!(sec.virtual_size, 0x100);
    assert_eq!(sec.virtual_address, 0x1000);
    assert_eq!(sec.size_of_raw_data, 0x200);
    assert_eq!(sec.pointer_to_raw_data, 0x200);
    assert_eq!(sec.characteristics, 0x6000_0020);
}

#[test]
fn header_readers_need_whole_structures() {
    let data = sample_pe();
    assert_eq!(DosHeader::read(&data[..63]).unwrap_err(), PeError::UnexpectedEof);
    assert_eq!(DosHeader::read(&data[..64]).unwrap().e_lfanew, 64);
    assert_eq!(FileHeader::read(&data[68..87]).unwrap_err(), PeError::UnexpectedEof);
    assert_eq!(FileHeader::read(&data[68..88]).unwrap().number_of_sections, 1);
    // 96 fixed bytes and 16 directories are needed.
    assert_eq!(OptionalHeader32::read(&data[88..88 + 96 + 127]).unwrap_err(), PeError::UnexpectedEof);
    assert_eq!(OptionalHeader32::read(&data[88..88 + 224]).unwrap().image_base, 0x0040_0000);
    assert_eq!(SectionHeader::read(&data[312..351]).unwrap_err(), PeError::UnexpectedEof);
}

#[test]
fn optional_header_without_import_directory() {
    let mut data = sample_pe();
    data[88 + 92] = 1;
    let h = OptionalHeader32::read(&data[88..]).unwrap();
    assert_eq!(h.number_of_rva_and_sizes, 1);
    assert_eq!(h.import_directory.virtual_address, 0);
    assert_eq!(h.import_directory.size, 0);
}

#[test]
fn section_name_keeps_full_eight_bytes() {
    let mut raw = [0u8; 40];
    raw[..8].copy_from_slice(b"ABCDEFGH");
    assert_eq!(SectionHeader::read(&raw).unwrap().name, "ABCDEFGH");
    let mut raw2 = [0u8; 40];
    raw2[..3].copy_from_slice(b".rs");
    raw2[4] = b'x';
    // Only trailing NULs are removed.
    assert_eq!(SectionHeader::read(&raw2).unwrap().name, ".rs\0x");
    let mut raw3 = [0u8; 40];
    raw3[0] = 0xFF;
    assert_eq!(SectionHeader::read(&raw3).unwrap().name, "\u{FFFD}");
}

#[test]
fn rejects_non_mz() {
    let mut data = sample_pe();
    data[0] = b'X';
    let e = PeInfo::parse(&data).unwrap_err();
    assert_eq!(e, PeError::NotMz);
    assert_eq!(e.message(), "Not a valid MZ/DOS executable");
}

#[test]
fn rejects_missing_signature() {
    let mut data = sample_pe();
    data[65] = b'X';
    let e = PeInfo::parse(&data).unwrap_err();
    assert_eq!(e, PeError::MissingPeSignature);
    assert_eq!(e.message(), "Missing PE signature");
}

#[test]
fn rejects_other_machines() {
    let mut data = sample_pe();
    put16(&mut data, 68, 0x8664);
    let e = PeInfo::parse(&data).unwrap_err();
    assert_eq!(e, PeError::UnsupportedMachine(0x8664));
    assert_eq!(
        e.message(),
        "Unsupported machine type 0x8664 (only i386/32-bit is supported for now)"
    );
    assert_eq!(
        PeError::UnsupportedMachine(0x1c0).message(),
        "Unsupported machine type 0x01c0 (only i386/32-bit is supported for now)"
    );
}

#[test]
fn rejects_pe32_plus() {
    let mut data = sample_pe();
    put16(&mut data, 88, 0x20B);
    let e = PeInfo::parse(&data).unwrap_err();
    assert_eq!(e, PeError::NotPe32);
    assert_eq!(e.message(), "Only PE32 (32-bit) optional headers are supported");
}

#[test]
fn truncated_files_hit_end_of_file() {
    let data = sample_pe();
    for len in [0usize, 10, 63, 64, 67, 70, 87, 100, 183, 311, 312, 351] {
        let e = PeInfo::parse(&data[..len]).unwrap_err();
        assert_eq!(e, PeError::UnexpectedEof, "length {}", len);
        assert_eq!(e.message(), "failed to fill whole buffer");
    }
    assert!(PeInfo::parse(&data[..352]).is_ok());
    // A signature offset past the end of the file.
    let mut far = sample_pe();
    put32(&mut far, 60, 0xFFFF_FFF0);
    assert_eq!(PeInfo::parse(&far).unwrap_err(), PeError::UnexpectedEof);
}

#[test]
fn loads_sample_image() {
    let data = sample_pe();
    let img = LoadedImage::load(&data).unwrap();
    assert_eq!(img.memory.len(), 0x2000);
    assert_eq!(img.entry_point_rva, 0x1000);
    assert_eq!(img.image_base, 0x0040_0000);
    assert_eq!(&img.memory[..0x200], &data[..0x200]);
    assert_eq!(&img.memory[0x1000..0x1200], &data[0x200..0x400]);
    assert!(img.memory[0x200..0x1000].iter().all(|&b| b == 0));
    assert!(img.memory[0x1200..].iter().all(|&b| b == 0));
}

#[test]
fn section_past_end_of_file_is_not_copied() {
    let mut data = sample_pe();
    // The raw data would run past the end of the file.
    put32(&mut data, 312 + 16, 0x400);
    let img = LoadedImage::load(&data).unwrap();
    assert!(img.memory[0x1000..].iter().all(|&b| b == 0));
}

#[test]
fn section_is_clipped_to_image() {
    let mut data = sample_pe();
    put32(&mut data, 312 + 12, 0x1F00);
    let img = LoadedImage::load(&data).unwrap();
    assert_eq!(&img.memory[0x1F00..0x2000], &data[0x200..0x300]);
    // Sections that start outside the image are skipped.
    put32(&mut data, 312 + 12, 0x2000);
    let img = LoadedImage::load(&data).unwrap();
    assert!(img.memory[0x200..].iter().all(|&b| b == 0));
}

#[test]
fn unreasonable_image_sizes() {
    let mut data = sample_pe();
    put32(&mut data, 88 + 56, 0);
    let e = LoadedImage::load(&data).unwrap_err();
    assert_eq!(e, PeError::UnreasonableSizeOfImage(0));
    assert_eq!(e.message(), "Unreasonable SizeOfImage: 0");
    put32(&mut data, 88 + 56, 512 * 1024 * 1024 + 1);
    let e = LoadedImage::load(&data).unwrap_err();
    assert_eq!(e.message(), "Unreasonable SizeOfImage: 536870913");
}

#[test]
fn headers_longer_than_file() {
    let mut data = sample_pe();
    put32(&mut data, 88 + 60, 0x800);
    assert_eq!(LoadedImage::load(&data).unwrap_err(), PeError::UnexpectedEof);
}

#[test]
fn summary_text() {
    let img = LoadedImage::load(&sample_pe()).unwrap();
    assert_eq!(
        img.summary(),
        "PE loaded successfully\nDOS magic   : 0x5A4D\nMachine     : 0x014C (i386)\nSections    : 1\nImageBase   : 0x00400000\nEntryPoint  : RVA 0x00001000\nSizeOfImage : 8192 bytes\nSubsystem   : 2\n    [.text   ] VA=0x00001000  RawSize=512\n"
    );
}

#[test]
fn lists_imports() {
    let img = LoadedImage::load(&sample_pe()).unwrap();
    let dlls = img.imports().unwrap();
    assert_eq!(dlls.len(), 1);
    assert_eq!(dlls[0].name, "KERNEL32.dll");
    assert_eq!(
        dlls[0].functions,
        vec![ImportedFunction::ByName("ExitProcess".to_string()), ImportedFunction::ByOrdinal(0x11)]
    );
    assert_eq!(img.imports_text(), "Imports:\n  KERNEL32.dll\n    ExitProcess\n    ordinal 17\n");
}

#[test]
fn import_table_outside_image() {
    let mut data = sample_pe();
    put32(&mut data, 88 + 96 + 8, 0x1FF0);
    let img = LoadedImage::load(&data).unwrap();
    assert_eq!(img.imports().unwrap_err(), ImportError::OutsideImage);
    assert_eq!(img.imports_text(), "Imports: the import table runs outside the image\n");
    // An empty import directory lists nothing.
    put32(&mut data, 88 + 96 + 12, 0);
    let img = LoadedImage::load(&data).unwrap();
    assert!(img.imports().unwrap().is_empty());
    assert_eq!(img.imports_text(), "Imports: none\n");
}
