//! End-to-end tests of the PE64 header decoder on synthetic buffers.

use squige::error::{Context, DiagnosticInfo, ErrorKind};
use squige::file::{display_version, File};
use squige::header::{Characteristics, DataDirectory, DllCharacteristics, Machine, PeHeader64, Subsystem};
use squige::sections::Characteristics as SectionCharacteristics;
use squige::util::{Addr, Addr32, HexDump};

fn put_u16(b: &mut Vec<u8>, pos: usize, v: u16) {
    b[pos] = (v & 0xff) as u8;
    b[pos + 1] = (v >> 8) as u8;
}

fn put_u32(b: &mut Vec<u8>, pos: usize, v: u32) {
    for k in 0..4 {
        b[pos + k] = ((v >> (8 * k)) & 0xff) as u8;
    }
}

fn put_u64(b: &mut Vec<u8>, pos: usize, v: u64) {
    for k in 0..8 {
        b[pos + k] = ((v >> (8 * k)) & 0xff) as u8;
    }
}

const PE: usize = 0x80;
const OH: usize = PE + 24;
const WIN: usize = OH + 24;
const DIRS: usize = OH + 112;
const SEC: usize = PE + 264;
const SEC_DATA: usize = SEC + 40;
const SEC_DATA_LEN: usize = 16;

/// A minimal well-formed PE64 buffer: header offset byte 0x3C = 0x80, one
/// section whose raw data lies inside the buffer.
fn minimal_file() -> Vec<u8> {
    let mut b = vec![0u8; SEC_DATA + SEC_DATA_LEN];
    b[0x3c] = 0x80;
    b[PE] = 0x50;
    b[PE + 1] = 0x45;
    put_u16(&mut b, PE + 4, 0x8664); // machine: AMD64
    put_u16(&mut b, PE + 6, 1); // one section
    put_u16(&mut b, PE + 20, 240); // size of optional header
    put_u16(&mut b, PE + 22, 0x0002); // IMAGE_FILE_EXECUTABLE_IMAGE
    put_u16(&mut b, OH, 0x020B); // 64-bit optional-header magic
    b[OH + 2] = 14; // linker major
    b[OH + 3] = 2; // linker minor
    put_u32(&mut b, OH + 4, 0x400); // size of code
    put_u32(&mut b, OH + 16, 0x1234); // entry point
    put_u64(&mut b, WIN, 0x1_4000_0000); // image base
    put_u32(&mut b, WIN + 8, 0x1000); // section alignment
    put_u32(&mut b, WIN + 12, 0x200); // file alignment
    put_u16(&mut b, WIN + 16, 6); // OS major
    put_u16(&mut b, WIN + 24, 6); // subsystem major
    put_u16(&mut b, WIN + 44, 3); // subsystem: WindowsCui
    put_u16(&mut b, WIN + 46, 0x0100); // DLL characteristics: NX compatible
    put_u32(&mut b, WIN + 84, 16); // number of data directories
    b[SEC] = b'.';
    b[SEC + 1] = b't';
    b[SEC + 2] = b'e';
    b[SEC + 3] = b'x';
    b[SEC + 4] = b't';
    put_u32(&mut b, SEC + 8, 0x10); // virtual size
    put_u32(&mut b, SEC + 12, 0x1000); // virtual address
    put_u32(&mut b, SEC + 16, SEC_DATA_LEN as u32); // raw data size
    put_u32(&mut b, SEC + 20, SEC_DATA as u32); // raw data pointer
    put_u32(&mut b, SEC + 36, 0x6000_0020); // code | execute | read
    for k in 0..SEC_DATA_LEN {
        b[SEC_DATA + k] = k as u8;
    }
    b
}

#[test]
fn machine_valid_codes_decode() {
    assert_eq!(Machine::try_from(0), Ok(Machine::Unknown));
    assert_eq!(Machine::try_from(0x8664), Ok(Machine::AMD64));
    assert_eq!(Machine::try_from(0x200), Ok(Machine::IA64));
    assert_eq!(Machine::try_from(0x14C), Ok(Machine::I386));
}

#[test]
fn machine_unknown_codes_rejected() {
    for v in [1u16, 2, 0x1C0, 0x8663, 0xFFFF] {
        assert_eq!(Machine::try_from(v), Err(v));
    }
    let buf = [0xAAu8, 0xAA];
    let e = Machine::parse(&buf, 0).unwrap_err();
    assert_eq!(e.kind, ErrorKind::UnrecognizedCode(0xAAAA));
    assert_eq!(e.offset, 0);
}

#[test]
fn subsystem_codes_decode() {
    assert_eq!(Subsystem::try_from(2), Ok(Subsystem::WindowsGui));
    assert_eq!(Subsystem::try_from(16), Ok(Subsystem::WindowsBootApplication));
    assert_eq!(Subsystem::try_from(4), Err(4));
    assert_eq!(Subsystem::try_from(15), Err(15));
    assert_eq!(Subsystem::try_from(17), Err(17));
}

#[test]
fn characteristics_round_trip_in_mask() {
    for v in [0u16, 0x0002, 0x0003, 0x0022, 0xFFBF] {
        let c = Characteristics::from_bits(v).unwrap();
        assert_eq!(c.bits(), v);
    }
}

#[test]
fn characteristics_out_of_mask_rejected() {
    assert!(Characteristics::from_bits(0x0040).is_none());
    assert!(Characteristics::from_bits(0x0042).is_none());
}

#[test]
fn dll_characteristics_round_trip() {
    for v in [0u16, 0x0020, 0x0100, 0x8000, 0xFFE0] {
        let c = DllCharacteristics::from_bits(v).unwrap();
        assert_eq!(c.bits(), v);
    }
    assert!(DllCharacteristics::from_bits(0x0001).is_none());
    assert!(DllCharacteristics::from_bits(0x001F).is_none());
}

#[test]
fn section_characteristics_round_trip() {
    for v in [0u32, 0x6000_0020, 0x0010_0000, 0x00E0_0000, 0xC050_0040] {
        let c = SectionCharacteristics::from_bits(v).unwrap();
        assert_eq!(c.bits(), v);
    }
    // A bit outside the mask.
    assert!(SectionCharacteristics::from_bits(0x0000_0001).is_none());
    // The undefined alignment code 15.
    assert!(SectionCharacteristics::from_bits(0x00F0_0000).is_none());
}

#[test]
fn section_characteristics_operations() {
    let code = SectionCharacteristics::from_bits(0x20).unwrap();
    let read = SectionCharacteristics::from_bits(0x4000_0000).unwrap();
    let both = code.union(read);
    assert_eq!(both.bits(), 0x4000_0020);
    assert!(both.contains(code));
    assert!(!code.contains(read));
    assert_eq!(both.intersection(read).bits(), 0x4000_0000);
    let aligned = SectionCharacteristics::from_bits(0x0050_0000).unwrap();
    assert_eq!(aligned.alignment_code(), 5);
}

#[test]
fn end_to_end_minimal_file() {
    let b = minimal_file();
    let f = File::parse(&b).unwrap();
    assert_eq!(f.header.machine, Machine::AMD64);
    assert_eq!(f.header.number_of_sections, 1);
    assert_eq!(f.header.characteristics.bits(), 0x0002);
    assert_eq!(f.header.optional_header.major_linker_version, 14);
    assert_eq!(f.header.optional_header.minor_linker_version, 2);
    assert_eq!(f.header.optional_header.entry_point, Addr32(0x1234));
    assert_eq!(f.header.optional_header.windows_header.image_base, 0x1_4000_0000);
    assert_eq!(f.header.optional_header.windows_header.subsystem, Subsystem::WindowsCui);
    assert_eq!(f.header.optional_header.windows_header.dll_characteristics.bits(), 0x0100);
    assert_eq!(f.header.optional_header.windows_header.number_of_rva_and_sizes, 16);
    assert_eq!(f.sections.len(), 1);
    let s = &f.sections[0];
    assert_eq!(s.name.as_string(), ".text");
    assert_eq!(s.size_of_raw_data, SEC_DATA_LEN as u32);
    assert_eq!(s.pointer_to_raw_data, Addr32(SEC_DATA as u32));
    assert_eq!(s.pointer_to_line_numbers, 0);
    assert_eq!(s.number_of_line_numbers, 0);
    assert_eq!(s.characteristics.bits(), 0x6000_0020);
    let expected: Vec<u8> = (0..SEC_DATA_LEN as u8).collect();
    assert_eq!(s.data, expected);
}

#[test]
fn decode_twice_identical() {
    let b = minimal_file();
    let f1 = File::parse(&b).unwrap();
    let f2 = File::parse(&b).unwrap();
    assert_eq!(f1, f2);
}

#[test]
fn reserved_architecture_slot_rejected() {
    let mut b = minimal_file();
    b[DIRS + 56 + 3] = 1;
    let e = File::parse(&b).unwrap_err();
    assert_eq!(e.kind, ErrorKind::MalformedReservedField);
    assert_eq!(e.offset, DIRS + 56);
}

#[test]
fn reserved_padding_slot_rejected() {
    let mut b = minimal_file();
    b[DIRS + 120 + 7] = 0xFF;
    let e = File::parse(&b).unwrap_err();
    assert_eq!(e.kind, ErrorKind::MalformedReservedField);
    assert_eq!(e.offset, DIRS + 120);
}

#[test]
fn reserved_line_number_pointer_rejected() {
    let mut b = minimal_file();
    b[SEC + 28] = 4;
    let e = File::parse(&b).unwrap_err();
    assert_eq!(e.kind, ErrorKind::MalformedReservedField);
    assert_eq!(e.offset, SEC + 28);
}

#[test]
fn reserved_line_number_count_rejected() {
    let mut b = minimal_file();
    b[SEC + 35] = 2;
    let e = File::parse(&b).unwrap_err();
    assert_eq!(e.kind, ErrorKind::MalformedReservedField);
    assert_eq!(e.offset, SEC + 34);
}

#[test]
fn section_out_of_bounds_rejected() {
    let mut b = minimal_file();
    let len = b.len();
    put_u32(&mut b, SEC + 16, (len - SEC_DATA + 1) as u32);
    let e = File::parse(&b).unwrap_err();
    assert_eq!(e.kind, ErrorKind::OutOfBounds);
    assert_eq!(e.offset, SEC + 20);
}

#[test]
fn section_pointer_far_out_of_bounds_rejected() {
    let mut b = minimal_file();
    put_u32(&mut b, SEC + 20, 0xFFFF_FFFF);
    put_u32(&mut b, SEC + 16, 0xFFFF_FFFF);
    let e = File::parse(&b).unwrap_err();
    assert_eq!(e.kind, ErrorKind::OutOfBounds);
}

#[test]
fn name_of_eight_bytes_kept_whole() {
    let mut b = minimal_file();
    for (k, v) in b"ABCDEFGH".iter().enumerate() {
        b[SEC + k] = *v;
    }
    let f = File::parse(&b).unwrap();
    assert_eq!(f.sections[0].name.as_string(), "ABCDEFGH");
}

#[test]
fn name_null_padding_trimmed() {
    let mut b = minimal_file();
    for (k, v) in b"abc\0\0\0\0\0".iter().enumerate() {
        b[SEC + k] = *v;
    }
    let f = File::parse(&b).unwrap();
    assert_eq!(f.sections[0].name.as_string(), "abc");
}

#[test]
fn name_embedded_null_and_whitespace_trimmed() {
    let mut b = minimal_file();
    for (k, v) in b" a\0b c \0".iter().enumerate() {
        b[SEC + k] = *v;
    }
    let f = File::parse(&b).unwrap();
    assert_eq!(f.sections[0].name.as_string(), "ab c");
}

#[test]
fn truncated_mid_optional_header_rejected() {
    let mut b = minimal_file();
    b.truncate(OH + 100);
    let len = b.len();
    let e = File::parse(&b).unwrap_err();
    assert_eq!(e.kind, ErrorKind::Truncated);
    assert_eq!(e.offset, len);
}

#[test]
fn truncated_tiny_buffer_rejected() {
    let b = vec![0u8; 0x20];
    let e = File::parse(&b).unwrap_err();
    assert_eq!(e.kind, ErrorKind::Truncated);
    assert_eq!(e.offset, 0x20);
}

#[test]
fn truncated_mid_section_table_rejected() {
    let mut b = minimal_file();
    b.truncate(SEC + 10);
    let len = b.len();
    let e = File::parse(&b).unwrap_err();
    assert_eq!(e.kind, ErrorKind::Truncated);
    assert_eq!(e.offset, len);
}

#[test]
fn bad_signature_rejected() {
    let mut b = minimal_file();
    b[PE + 1] = b'X';
    let e = File::parse(&b).unwrap_err();
    assert_eq!(e.kind, ErrorKind::BadSignature);
    assert_eq!(e.offset, PE);
}

#[test]
fn bad_optional_magic_rejected() {
    let mut b = minimal_file();
    put_u16(&mut b, OH, 0x010B); // the 32-bit layout magic
    let e = File::parse(&b).unwrap_err();
    assert_eq!(e.kind, ErrorKind::BadMagic);
    assert_eq!(e.offset, OH);
}

#[test]
fn unrecognized_machine_in_file_rejected() {
    let mut b = minimal_file();
    put_u16(&mut b, PE + 4, 0x1C0);
    let e = File::parse(&b).unwrap_err();
    assert_eq!(e.kind, ErrorKind::UnrecognizedCode(0x1C0));
    assert_eq!(e.offset, PE + 4);
}

#[test]
fn unrecognized_subsystem_in_file_rejected() {
    let mut b = minimal_file();
    put_u16(&mut b, WIN + 44, 4);
    let e = File::parse(&b).unwrap_err();
    assert_eq!(e.kind, ErrorKind::UnrecognizedCode(4));
    assert_eq!(e.offset, WIN + 44);
}

#[test]
fn unrecognized_file_characteristics_rejected() {
    let mut b = minimal_file();
    put_u16(&mut b, PE + 22, 0x0042);
    let e = File::parse(&b).unwrap_err();
    assert_eq!(e.kind, ErrorKind::UnrecognizedBits(0x0042));
    assert_eq!(e.offset, PE + 22);
}

#[test]
fn unrecognized_section_characteristics_rejected() {
    let mut b = minimal_file();
    put_u32(&mut b, SEC + 36, 0x00F0_0000);
    let e = File::parse(&b).unwrap_err();
    assert_eq!(e.kind, ErrorKind::UnrecognizedBits(0x00F0_0000));
    assert_eq!(e.offset, SEC + 36);
}

#[test]
fn diagnostics_chain_outermost_first() {
    let mut b = minimal_file();
    put_u16(&mut b, WIN + 44, 4); // bad subsystem, deep inside the header
    let e = File::parse(&b).unwrap_err();
    let d = e.diagnostics(&b);
    assert_eq!(d.len(), e.frames.len() + 1);
    assert!(d.len() >= 2);
    assert!(matches!(d[0].info, DiagnosticInfo::Frame(Context::Header)));
    assert_eq!(d[0].offset, 0);
    assert!(
        matches!(d[d.len() - 1].info, DiagnosticInfo::Failure(ErrorKind::UnrecognizedCode(4)))
    );
    assert_eq!(d[d.len() - 1].offset, WIN + 44);
}

#[test]
fn diagnostics_preview_shows_bytes_at_offset() {
    let mut b = minimal_file();
    b[PE + 1] = b'X';
    let e = File::parse(&b).unwrap_err();
    let d = e.diagnostics(&b);
    let last = &d[d.len() - 1];
    assert_eq!(last.offset, PE);
    assert_eq!(last.preview.bytes[0], 0x50);
    assert_eq!(last.preview.bytes[1], b'X');
    assert_eq!(last.preview.bytes.len(), 20);
}

#[test]
fn hex_dump_renders_lowercase_pairs() {
    let bytes = [0x00u8, 0x0a, 0xff, 0x50];
    let h = HexDump::from_window(&bytes, 0);
    assert_eq!(h.render(), "00 0a ff 50 ");
}

#[test]
fn hex_dump_window_clamped() {
    let bytes = [1u8, 2, 3];
    let h = HexDump::from_window(&bytes, 2);
    assert_eq!(h.bytes, vec![3u8]);
    let beyond = HexDump::from_window(&bytes, 7);
    assert!(beyond.bytes.is_empty());
}

#[test]
fn display_version_renders_decimal_pair() {
    assert_eq!(display_version(14, 2), "14.2");
    assert_eq!(display_version(0, 0), "0.0");
    assert_eq!(display_version(65535, 10), "65535.10");
}

#[test]
fn addr_parse_and_arithmetic() {
    let bytes = [0x78u8, 0x56, 0x34, 0x12, 0, 0, 0, 0];
    let (a, next) = Addr::parse(&bytes, 0).unwrap();
    assert_eq!(a, Addr(0x1234_5678));
    assert_eq!(next, 8);
    let (a32, _) = Addr32::parse(&bytes, 0).unwrap();
    assert_eq!(a32, Addr32(0x1234_5678));
    assert_eq!(a32.widen(), Addr(0x1234_5678));
    assert_eq!(Addr(10).checked_sub(Addr(4)), Some(Addr(6)));
    assert_eq!(Addr(4).checked_sub(Addr(10)), None);
    assert_eq!(Addr32(10).checked_sub(Addr32(4)), Some(Addr32(6)));
    let e = Addr::parse(&bytes[..4], 0).unwrap_err();
    assert_eq!(e.kind, ErrorKind::Truncated);
}

#[test]
fn machine_code_round_trip() {
    for m in [Machine::Unknown, Machine::AMD64, Machine::IA64, Machine::I386] {
        assert_eq!(Machine::try_from(m.code()), Ok(m));
    }
}

#[test]
fn subsystem_code_round_trip() {
    for v in [0u16, 1, 2, 3, 5, 7, 8, 9, 10, 11, 12, 13, 14, 16] {
        let s = Subsystem::try_from(v).unwrap();
        assert_eq!(s.code(), v);
    }
}

#[test]
fn two_sections_in_order() {
    let mut b = minimal_file();
    // Declare a second section; its record is all zeros except name,
    // characteristics, and an empty raw range.
    put_u16(&mut b, PE + 6, 2);
    let sec2 = SEC + 40;
    let grown = sec2 + 40 + 8;
    b.resize(grown, 0);
    // Rebuild the first section's data at the new tail.
    let data_off = sec2 + 40;
    put_u32(&mut b, SEC + 16, 8);
    put_u32(&mut b, SEC + 20, data_off as u32);
    for k in 0..8 {
        b[data_off + k] = 0x10 + k as u8;
    }
    for (k, v) in b".data\0\0\0".iter().enumerate() {
        b[sec2 + k] = *v;
    }
    put_u32(&mut b, sec2 + 36, 0xC000_0040); // initialized data | read | write
    let f = File::parse(&b).unwrap();
    assert_eq!(f.header.number_of_sections, 2);
    assert_eq!(f.sections.len(), 2);
    assert_eq!(f.sections[0].name.as_string(), ".text");
    assert_eq!(f.sections[1].name.as_string(), ".data");
    assert_eq!(f.sections[0].data.len(), 8);
    assert_eq!(f.sections[1].data.len(), 0);
}

#[test]
fn missing_section_record_is_truncation() {
    let mut b = minimal_file();
    // Declare two sections but provide bytes for only one record.
    put_u16(&mut b, PE + 6, 2);
    let len = b.len();
    let e = File::parse(&b).unwrap_err();
    assert_eq!(e.kind, ErrorKind::Truncated);
    assert_eq!(e.offset, len);
}

#[test]
fn data_directories_decode() {
    let mut b = minimal_file();
    put_u32(&mut b, DIRS, 0x2000); // export table address
    put_u32(&mut b, DIRS + 4, 0x128); // export table size
    put_u32(&mut b, DIRS + 64, 0x3000); // global pointer slot
    put_u32(&mut b, DIRS + 112, 0x4000); // CLR runtime header
    let f = File::parse(&b).unwrap();
    let d = &f.header.optional_header.data_directories;
    assert_eq!(d.export_table.virtual_addr, Addr32(0x2000));
    assert_eq!(d.export_table.size, 0x128);
    assert_eq!(d.global_ptr.virtual_addr, Addr32(0x3000));
    assert_eq!(d.clr_runtime_header.virtual_addr, Addr32(0x4000));
    assert_eq!(d.import_table.virtual_addr, Addr32(0));
    assert_eq!(d.import_table.size, 0);
}

#[test]
fn windows_fields_decode() {
    let b = minimal_file();
    let f = File::parse(&b).unwrap();
    let w = &f.header.optional_header.windows_header;
    assert_eq!(w.section_alignment, 0x1000);
    assert_eq!(w.file_alignment, 0x200);
    assert_eq!(w.major_os_version, 6);
    assert_eq!(w.minor_os_version, 0);
    assert_eq!(w.major_subsystem_version, 6);
    assert_eq!(w.win32_version_value, 0);
    assert_eq!(w.loader_flags, 0);
    assert_eq!(w.size_of_stack_reserve, 0);
}

#[test]
fn data_directory_parse_standalone() {
    let bytes = [0x10u8, 0, 0, 0, 0x20, 0, 0, 0];
    let (d, next) = DataDirectory::parse(&bytes, 0).unwrap();
    assert_eq!(d.virtual_addr, Addr32(0x10));
    assert_eq!(d.size, 0x20);
    assert_eq!(next, 8);
    let e = DataDirectory::parse(&bytes, 1).unwrap_err();
    assert_eq!(e.kind, ErrorKind::Truncated);
    assert_eq!(e.offset, 8);
}

#[test]
fn pe_header_parse_returns_section_table_position() {
    let b = minimal_file();
    let (h, next) = PeHeader64::parse(&b).unwrap();
    assert_eq!(h.machine, Machine::AMD64);
    assert_eq!(h.number_of_sections(), 1);
    assert_eq!(h.size_of_optional_header, 240);
    assert_eq!(next, PE + 264);
}

#[test]
fn bad_magic_beats_truncation() {
    // Only two bytes of the optional header are present, and they are the
    // 32-bit layout magic: the wrong magic is reported, not the short length.
    let mut b = minimal_file();
    put_u16(&mut b, OH, 0x010B);
    b.truncate(OH + 2);
    let e = File::parse(&b).unwrap_err();
    assert_eq!(e.kind, ErrorKind::BadMagic);
    assert_eq!(e.offset, OH);
}

#[test]
fn good_magic_short_optional_header_truncated() {
    let mut b = minimal_file();
    b.truncate(OH + 2);
    let len = b.len();
    let e = File::parse(&b).unwrap_err();
    assert_eq!(e.kind, ErrorKind::Truncated);
    assert_eq!(e.offset, len);
    // The innermost frame names the first field that cannot be read.
    let last = e.frames[e.frames.len() - 1];
    assert_eq!(last.context, Context::MajorLinkerVersion);
    assert_eq!(last.offset, OH + 2);
}

#[test]
fn bad_signature_beats_truncation() {
    // Only the four signature bytes are present and the second is wrong: the
    // bad signature is reported, not the short length.
    let mut b = minimal_file();
    b[PE + 1] = b'X';
    b.truncate(PE + 4);
    let e = File::parse(&b).unwrap_err();
    assert_eq!(e.kind, ErrorKind::BadSignature);
    assert_eq!(e.offset, PE);
}

#[test]
fn good_signature_short_record_truncated() {
    let mut b = minimal_file();
    b.truncate(PE + 10);
    let len = b.len();
    let e = File::parse(&b).unwrap_err();
    assert_eq!(e.kind, ErrorKind::Truncated);
    assert_eq!(e.offset, len);
    let last = e.frames[e.frames.len() - 1];
    assert_eq!(last.context, Context::TimeDateStamp);
    assert_eq!(last.offset, PE + 8);
}

#[test]
fn truncation_inside_windows_fields_names_field() {
    let mut b = minimal_file();
    b.truncate(OH + 100); // cut inside the Windows-specific fields
    let len = b.len();
    let e = File::parse(&b).unwrap_err();
    assert_eq!(e.kind, ErrorKind::Truncated);
    assert_eq!(e.offset, len);
    let contexts: Vec<Context> = e.frames.iter().map(|f| f.context).collect();
    assert_eq!(
        contexts,
        vec![
            Context::Header,
            Context::OptionalHeader,
            Context::Windows,
            Context::SizeOfHeapCommit,
        ]
    );
    assert_eq!(e.frames[3].offset, WIN + 72);
}

#[test]
fn truncation_inside_section_record_names_field() {
    let mut b = minimal_file();
    b.truncate(SEC + 10);
    let len = b.len();
    let e = File::parse(&b).unwrap_err();
    assert_eq!(e.kind, ErrorKind::Truncated);
    assert_eq!(e.offset, len);
    let last = e.frames[e.frames.len() - 1];
    assert_eq!(last.context, Context::VirtualSize);
    assert_eq!(last.offset, SEC + 8);
}

#[test]
fn documented_invariant_not_enforced_but_testable() {
    let b = minimal_file();
    let f = File::parse(&b).unwrap();
    assert!(f.header.optional_header.windows_header.obeys_documented_invariant());
    // A non-zero loader-flags field still decodes (the format documents the
    // invariant; the decoder does not enforce it), but the check reports it.
    let mut b2 = minimal_file();
    put_u32(&mut b2, WIN + 80, 1);
    let f2 = File::parse(&b2).unwrap();
    assert_eq!(f2.header.optional_header.windows_header.loader_flags, 1);
    assert!(!f2.header.optional_header.windows_header.obeys_documented_invariant());
    // So does a file alignment above the section alignment.
    let mut b3 = minimal_file();
    put_u32(&mut b3, WIN + 12, 0x2000);
    let f3 = File::parse(&b3).unwrap();
    assert!(!f3.header.optional_header.windows_header.obeys_documented_invariant());
}
