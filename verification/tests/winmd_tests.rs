use winmd_writer::cli::CLIHeader;
use winmd_writer::codec::{get_u16, get_u32};
use winmd_writer::image::{Sizes, WinmdError};
use winmd_writer::layout::LayoutError;
use winmd_writer::optional_header::PEOptHeader;
use winmd_writer::pe::{COFFHeader, DataDirectory};
use winmd_writer::tables::{TablesError, TildeStream};
use winmd_writer::winmd::{Options, Winmd};

const STAMP: u32 = 0x5E9D_CF09;

fn sample_tables() -> TildeStream {
    let rows: Vec<u8> = (0..40u8).collect();
    TildeStream::new(0, 0b1000101, 0x16003325FA00, vec![1, 1, 1], rows).unwrap()
}

fn sample() -> Winmd {
    Winmd::new(
        Options::new(STAMP),
        sample_tables(),
        vec![0x11; 0x1D],
        vec![0x22; 5],
        vec![0x33; 0x10],
        vec![0x44; 6],
    )
    .unwrap()
}

fn padded(bytes: &[u8]) -> Vec<u8> {
    let mut out = bytes.to_vec();
    while out.len() % 4 != 0 {
        out.push(0);
    }
    out
}

/// Follows the references of a written image from the DOS stub to the
/// streams, and holds each against what the image was made from.
fn check_references(winmd: &Winmd) {
    let bytes = winmd.to_bytes();
    assert_eq!(bytes.len() % 0x200, 0);
    let lfanew = get_u32(&bytes, 0x3C) as usize;
    assert_eq!(&bytes[lfanew..lfanew + 4], b"PE\0\0");
    let coff = COFFHeader::from_bytes(&bytes[lfanew + 4..]).unwrap();
    assert_eq!(coff, COFFHeader::new(2, winmd.options.time_date_stamp, winmd.options.flags & 2 != 0));
    let optional_at = lfanew + 24;
    let optional = PEOptHeader::from_bytes(&bytes[optional_at..]).unwrap();
    assert_eq!(coff.size_opt_header as usize, 224);
    assert_eq!(optional.size_headers as usize % 0x200, 0);

    let sections_at = optional_at + 224;
    let mut sections = Vec::new();
    for i in 0..coff.num_sections as usize {
        let at = sections_at + 40 * i;
        let virtual_size = get_u32(&bytes, at + 8);
        let virtual_address = get_u32(&bytes, at + 12);
        let size_raw_data = get_u32(&bytes, at + 16);
        let pointer_raw_data = get_u32(&bytes, at + 20);
        assert_eq!(virtual_address % 0x2000, 0);
        assert_eq!(pointer_raw_data % 0x200, 0);
        assert_eq!(size_raw_data % 0x200, 0);
        assert!(virtual_size <= size_raw_data);
        sections.push((virtual_address, virtual_size, pointer_raw_data, size_raw_data));
    }
    assert_eq!(&bytes[sections_at..sections_at + 8], b".text\0\0\0");
    assert_eq!(&bytes[sections_at + 40..sections_at + 48], b".reloc\0\0");
    assert_eq!(sections[0].2, optional.size_headers);
    assert_eq!(sections[1].2, sections[0].2 + sections[0].3);
    assert!(sections[0].0 + sections[0].3 <= sections[1].0);
    assert_eq!(bytes.len() as u32, sections[1].2 + sections[1].3);
    assert!(optional.size_image >= sections[1].0 + sections[1].3);
    assert_eq!(optional.size_image % 0x2000, 0);
    assert_eq!(optional.size_code, sections[0].3);
    assert_eq!(optional.size_initialized_data, sections[1].3);
    assert_eq!(optional.base_code, sections[0].0);
    assert_eq!(optional.base_data, sections[1].0);
    assert!(bytes[sections_at + 80..optional.size_headers as usize].iter().all(|b| *b == 0));

    let to_offset = |rva: u32| -> usize {
        let (address, _, pointer, _) = *sections
            .iter()
            .find(|(address, size, _, _)| *address <= rva && rva < *address + *size)
            .unwrap();
        (rva - address + pointer) as usize
    };

    // The import address table points at the hint/name entry.
    assert_eq!(optional.import_address_table.size, 8);
    let iat_at = to_offset(optional.import_address_table.virtual_address);
    let hint_name = get_u32(&bytes, iat_at);
    assert_eq!(get_u32(&bytes, iat_at + 4), 0);
    assert_eq!(&bytes[to_offset(hint_name)..][..14], b"\0\0_CorDllMain\0");

    // The import table names the library, its lookup table and the import
    // address table.
    let import_at = to_offset(optional.import_table.virtual_address);
    assert_eq!(get_u32(&bytes, to_offset(get_u32(&bytes, import_at))), hint_name);
    assert_eq!(&bytes[to_offset(get_u32(&bytes, import_at + 12))..][..12], b"mscoree.dll\0");
    assert_eq!(get_u32(&bytes, import_at + 16), optional.import_address_table.virtual_address);
    assert!(bytes[import_at + 20..import_at + 40].iter().all(|b| *b == 0));

    // The entry point jumps through the import address table, and the
    // relocation block names the address in the jump.
    let entry_at = to_offset(optional.entry_point);
    assert_eq!(&bytes[entry_at..entry_at + 2], &[0xFF, 0x25]);
    assert_eq!(
        get_u32(&bytes, entry_at + 2),
        optional.image_base + optional.import_address_table.virtual_address
    );
    assert_eq!(optional.base_relocation_table, DataDirectory::new(sections[1].0, 12));
    let reloc_at = to_offset(optional.base_relocation_table.virtual_address);
    let page = get_u32(&bytes, reloc_at);
    assert_eq!(get_u32(&bytes, reloc_at + 4), 12);
    let entry = get_u16(&bytes, reloc_at + 8);
    assert_eq!(entry >> 12, 3);
    assert_eq!(page + (entry & 0xFFF) as u32, optional.entry_point + 2);
    assert_eq!(get_u16(&bytes, reloc_at + 10), 0);

    // The CLI header lies where the optional header says, and the metadata
    // where the CLI header says.
    assert_eq!(optional.cli_header.size, 72);
    let cli = CLIHeader::from_bytes(&bytes[to_offset(optional.cli_header.virtual_address)..]).unwrap();
    assert_eq!(cli.cb, 72);
    assert_eq!(cli.major_runtime_version, winmd.options.major_runtime_version);
    assert_eq!(cli.minor_runtime_version, winmd.options.minor_runtime_version);
    assert_eq!(cli.flags, winmd.options.flags);
    let root_at = to_offset(cli.metadata.virtual_address);
    assert_eq!(get_u32(&bytes, root_at), 0x424A_5342);
    assert_eq!(get_u16(&bytes, root_at + 4), 1);
    assert_eq!(get_u16(&bytes, root_at + 6), 1);
    assert_eq!(get_u32(&bytes, root_at + 8), 0);
    let version_len = get_u32(&bytes, root_at + 12) as usize;
    assert_eq!(version_len % 4, 0);
    let version = winmd.options.version.as_bytes();
    assert!(version_len > version.len() && version_len <= version.len() + 4);
    assert_eq!(&bytes[root_at + 16..root_at + 16 + version.len()], version);
    assert!(bytes[root_at + 16 + version.len()..root_at + 16 + version_len].iter().all(|b| *b == 0));
    let mut at = root_at + 16 + version_len;
    assert_eq!(get_u16(&bytes, at), 0);
    assert_eq!(get_u16(&bytes, at + 2), 5);
    at += 4;

    let bodies: [(&[u8], Vec<u8>); 5] = [
        (b"#~", winmd.tables.to_bytes()),
        (b"#Strings", padded(&winmd.strings)),
        (b"#US", padded(&winmd.user_strings)),
        (b"#GUID", padded(&winmd.guids)),
        (b"#Blob", padded(&winmd.blobs)),
    ];
    let mut expected_offset = 0;
    for (i, (name, body)) in bodies.iter().enumerate() {
        let offset = get_u32(&bytes, at) as usize;
        let size = get_u32(&bytes, at + 4) as usize;
        at += 8;
        assert_eq!(&bytes[at..at + name.len()], *name);
        let name_len = (name.len() + 4) / 4 * 4;
        assert!(bytes[at + name.len()..at + name_len].iter().all(|b| *b == 0));
        at += name_len;
        assert_eq!(offset % 4, 0);
        assert_eq!(size, body.len());
        assert_eq!(&bytes[root_at + offset..root_at + offset + size], &body[..]);
        if i > 0 {
            assert_eq!(offset, expected_offset);
        }
        expected_offset = offset + size;
    }
    // The first stream follows the directory at once.
    assert_eq!(get_u32(&bytes, root_at + 16 + version_len + 4) as usize, at - root_at);
    assert_eq!(expected_offset, cli.metadata.size as usize);
    let tables_at = at;
    assert_eq!(&bytes[tables_at..tables_at + 6], &[0, 0, 0, 0, 2, 0]);
    assert_eq!(bytes[tables_at + 6], winmd.tables.heap_sizes);
    assert_eq!(bytes[tables_at + 7], 1);
    // The import table follows the metadata.
    assert_eq!(import_at, root_at + cli.metadata.size as usize);
}

#[test]
fn the_usual_options_are_the_defaults() {
    let options = Options::new(STAMP);
    assert_eq!(options.time_date_stamp, STAMP);
    assert_eq!(options.major_runtime_version, 2);
    assert_eq!(options.minor_runtime_version, 5);
    assert_eq!(options.flags, 1);
    assert_eq!(options.version, "WindowsRuntime 1.2");
}

#[test]
fn the_sample_image_has_the_expected_layout() {
    let winmd = sample();
    let (measure, layout) = winmd.plan().unwrap();
    assert_eq!(measure.root_len, 0x74);
    assert_eq!(measure.tables_len, 0x4C);
    assert_eq!(measure.strings_len, 0x20);
    assert_eq!(measure.user_strings_len, 0x08);
    assert_eq!(measure.guids_len, 0x10);
    assert_eq!(measure.blobs_len, 0x08);
    assert_eq!(measure.metadata_len, 0x100);
    assert_eq!(measure.text_len, 0x1A4);
    assert_eq!(layout.size_headers, 0x200);
    assert_eq!(layout.size_image, 0x6000);
    assert_eq!(layout.sections[0].name, *b".text\0\0\0");
    assert_eq!(layout.sections[0].characteristics, 0x6000_0020);
    assert_eq!(layout.sections[0].virtual_address, 0x2000);
    assert_eq!(layout.sections[0].virtual_size, 0x1A4);
    assert_eq!(layout.sections[0].pointer_raw_data, 0x200);
    assert_eq!(layout.sections[0].size_raw_data, 0x200);
    assert_eq!(layout.sections[1].name, *b".reloc\0\0");
    assert_eq!(layout.sections[1].characteristics, 0x4200_0040);
    assert_eq!(layout.sections[1].virtual_address, 0x4000);
    assert_eq!(layout.sections[1].virtual_size, 0xC);
    assert_eq!(layout.sections[1].pointer_raw_data, 0x400);
    assert_eq!(layout.sections[1].size_raw_data, 0x200);
}

#[test]
fn the_sample_image_has_the_expected_headers() {
    let winmd = sample();
    let bytes = winmd.to_bytes();
    assert_eq!(bytes.len(), 0x600);
    assert_eq!(&bytes[0x80..0x84], b"PE\0\0");
    assert_eq!(COFFHeader::from_bytes(&bytes[0x84..0x98]), Some(COFFHeader::new(2, STAMP, false)));
    assert_eq!(
        PEOptHeader::from_bytes(&bytes[0x98..0x178]),
        Some(PEOptHeader::new(
            0x200,
            0x200,
            0x219E,
            0x2000,
            0x4000,
            0x0040_0000,
            0x6000,
            0x200,
            DataDirectory::new(0x2150, 0x4B),
            DataDirectory::new(0x4000, 0xC),
            DataDirectory::new(0x2000, 8),
            DataDirectory::new(0x2008, 0x48),
        ))
    );
    assert_eq!(&bytes[0x200..0x208], &[0x80, 0x21, 0, 0, 0, 0, 0, 0]);
    assert_eq!(
        CLIHeader::from_bytes(&bytes[0x208..0x250]),
        Some(CLIHeader::new(2, 5, DataDirectory::new(0x2050, 0x100), 1))
    );
    assert_eq!(&bytes[0x250..0x254], b"BSJB");
    assert_eq!(&bytes[0x350..0x354], &[0x78, 0x21, 0, 0]);
    assert_eq!(&bytes[0x39E..0x3A4], &[0xFF, 0x25, 0x00, 0x20, 0x40, 0x00]);
    assert!(bytes[0x3A4..0x400].iter().all(|b| *b == 0));
    assert_eq!(&bytes[0x400..0x40C], &[0x00, 0x20, 0, 0, 0x0C, 0, 0, 0, 0xA0, 0x31, 0, 0]);
    assert!(bytes[0x40C..].iter().all(|b| *b == 0));
}

#[test]
fn the_sample_image_has_the_expected_streams() {
    let winmd = sample();
    let bytes = winmd.to_bytes();
    let root = 0x250;
    let directory = &bytes[root + 0x28..root + 0x74];
    let mut expected = Vec::new();
    expected.extend_from_slice(&[0x74, 0, 0, 0, 0x4C, 0, 0, 0]);
    expected.extend_from_slice(b"#~\0\0");
    expected.extend_from_slice(&[0xC0, 0, 0, 0, 0x20, 0, 0, 0]);
    expected.extend_from_slice(b"#Strings\0\0\0\0");
    expected.extend_from_slice(&[0xE0, 0, 0, 0, 0x08, 0, 0, 0]);
    expected.extend_from_slice(b"#US\0");
    expected.extend_from_slice(&[0xE8, 0, 0, 0, 0x10, 0, 0, 0]);
    expected.extend_from_slice(b"#GUID\0\0\0");
    expected.extend_from_slice(&[0xF8, 0, 0, 0, 0x08, 0, 0, 0]);
    expected.extend_from_slice(b"#Blob\0\0\0");
    assert_eq!(directory, &expected[..]);
    assert_eq!(
        &bytes[root + 0x74..root + 0x8C],
        &[
            0, 0, 0, 0, 2, 0, 0, 1, 0x45, 0, 0, 0, 0, 0, 0, 0, 0x00, 0xFA, 0x25, 0x33, 0x00, 0x16,
            0x00, 0x00
        ]
    );
    assert_eq!(&bytes[root + 0x8C..root + 0x98], &[1, 0, 0, 0, 1, 0, 0, 0, 1, 0, 0, 0]);
    assert_eq!(&bytes[root + 0x98..root + 0xC0], &(0..40u8).collect::<Vec<u8>>()[..]);
    assert_eq!(&bytes[root + 0xC0..root + 0xDD], &[0x11; 0x1D]);
    assert_eq!(&bytes[root + 0xDD..root + 0xE0], &[0; 3]);
    assert_eq!(&bytes[root + 0xE0..root + 0xE8], &[0x22, 0x22, 0x22, 0x22, 0x22, 0, 0, 0]);
    assert_eq!(&bytes[root + 0xE8..root + 0xF8], &[0x33; 0x10]);
    assert_eq!(&bytes[root + 0xF8..root + 0x100], &[0x44, 0x44, 0x44, 0x44, 0x44, 0x44, 0, 0]);
}

#[test]
fn the_parts_of_the_sample_image_make_up_the_file() {
    let winmd = sample();
    let (measure, layout) = winmd.plan().unwrap();
    let headers = winmd.header_bytes(&measure, &layout);
    let text = winmd.text_bytes(&measure);
    let metadata = winmd.metadata_bytes(&measure);
    let bytes = winmd.to_bytes();
    assert_eq!(headers.len(), 0x200);
    assert_eq!(text.len(), 0x1A4);
    assert_eq!(metadata.len(), 0x100);
    assert_eq!(&bytes[..0x200], &headers[..]);
    assert_eq!(&bytes[0x200..0x3A4], &text[..]);
    assert_eq!(&text[0x50..0x150], &metadata[..]);
    assert_eq!(
        winmd.optional_header(&measure, &layout),
        PEOptHeader::from_bytes(&bytes[0x98..]).unwrap()
    );
    assert_eq!(winmd.sizes().measured(), Some(measure));
    assert_eq!(winmd.sizes().plan(winmd.tables.heap_sizes).unwrap().0, measure);
}

#[test]
fn the_references_of_the_sample_image_agree() {
    check_references(&sample());
}

#[test]
fn the_references_agree_whatever_the_sizes_are() {
    for n in 0..40usize {
        let valid: u64 = (1u64 << (n % 64)) | 1;
        let present = valid.count_ones() as usize;
        let tables =
            TildeStream::new(0, valid, !valid, vec![n as u32 + 1; present], vec![0xEE; n * 3])
                .unwrap();
        let mut options = Options::new(n as u32);
        options.version = "v".repeat(n);
        options.major_runtime_version = n as u16;
        options.minor_runtime_version = 0xFFFF - n as u16;
        options.flags = n as u32 % 4;
        let winmd = Winmd::new(
            options,
            tables,
            vec![1; n],
            vec![2; 7 * n],
            vec![3; 16 * (n % 5)],
            vec![4; n * n],
        )
        .unwrap();
        check_references(&winmd);
    }
}

#[test]
fn the_references_agree_with_wide_heap_indices() {
    let tables = TildeStream::new(5, 0, 0, Vec::new(), Vec::new()).unwrap();
    let winmd = Winmd::new(
        Options::new(0),
        tables,
        vec![1; 0x1_0000],
        vec![2; 0x1_0001],
        vec![3; 0xFFFF],
        vec![4; 0x2_0003],
    )
    .unwrap();
    check_references(&winmd);
    assert_eq!(winmd.to_bytes().len() % 0x200, 0);
}

#[test]
fn the_32_bit_flag_reaches_the_coff_header() {
    let mut options = Options::new(STAMP);
    options.flags = 3;
    let winmd =
        Winmd::new(options, sample_tables(), Vec::new(), Vec::new(), Vec::new(), Vec::new())
            .unwrap();
    let bytes = winmd.to_bytes();
    assert_eq!(COFFHeader::from_bytes(&bytes[0x84..]).unwrap().characteristics, 0x2102);
    assert_eq!(CLIHeader::from_bytes(&bytes[0x208..]).unwrap().flags, 3);
}

#[test]
fn writing_twice_gives_the_same_bytes() {
    let winmd = sample();
    let first = winmd.to_bytes();
    let second = winmd.to_bytes();
    assert_eq!(first, second);
    assert_eq!(first, sample().to_bytes());
    assert_eq!(&first[0x88..0x8C], &STAMP.to_le_bytes());
}

#[test]
fn only_the_time_stamp_differs_between_two_stamps() {
    let build = |stamp: u32| {
        Winmd::new(Options::new(stamp), sample_tables(), vec![1], vec![2], vec![3], vec![4])
            .unwrap()
            .to_bytes()
    };
    let first = build(1);
    let second = build(0xFFFF_FFFF);
    assert_eq!(first.len(), second.len());
    for i in 0..first.len() {
        assert_eq!(first[i] == second[i], !(0x88..0x8C).contains(&i), "offset {}", i);
    }
}

#[test]
fn row_counts_that_disagree_with_valid_are_refused() {
    let tables =
        TildeStream { heap_sizes: 0, valid: 0b11, sorted: 0, row_counts: vec![1], rows: vec![] };
    let r = Winmd::new(Options::new(0), tables, vec![], vec![], vec![], vec![]);
    assert_eq!(r.unwrap_err(), WinmdError::Tables(TablesError::RowCountMismatch));
    let tables =
        TildeStream { heap_sizes: 0, valid: 0b11, sorted: 0, row_counts: vec![1, 0], rows: vec![] };
    let r = Winmd::new(Options::new(0), tables, vec![], vec![], vec![], vec![]);
    assert_eq!(r.unwrap_err(), WinmdError::Tables(TablesError::EmptyTable));
}

#[test]
fn a_version_with_forbidden_bytes_is_refused() {
    for version in ["Windows\u{ae}", "a\0b"] {
        let mut options = Options::new(0);
        options.version = String::from(version);
        let r = Winmd::new(options, sample_tables(), vec![], vec![], vec![], vec![]);
        assert_eq!(r.unwrap_err(), WinmdError::VersionNotAscii);
    }
}

#[test]
fn heap_size_flags_that_disagree_with_the_heaps_are_refused() {
    let narrow = || TildeStream::new(0, 0, 0, Vec::new(), Vec::new()).unwrap();
    let wide_strings = || TildeStream::new(1, 0, 0, Vec::new(), Vec::new()).unwrap();
    let r = Winmd::new(Options::new(0), narrow(), vec![0; 0x1_0000], vec![], vec![], vec![]);
    assert_eq!(r.unwrap_err(), WinmdError::HeapSizeMismatch);
    let r = Winmd::new(Options::new(0), wide_strings(), vec![0; 0xFFFF], vec![], vec![], vec![]);
    assert_eq!(r.unwrap_err(), WinmdError::HeapSizeMismatch);
    assert!(Winmd::new(Options::new(0), wide_strings(), vec![0; 0x1_0000], vec![], vec![], vec![])
        .is_ok());
    // The user-string heap has no flag: its size never matters.
    assert!(Winmd::new(Options::new(0), narrow(), vec![], vec![0; 0x1_0000], vec![], vec![])
        .is_ok());
}

#[test]
fn the_first_error_in_order_is_reported() {
    let tables =
        TildeStream { heap_sizes: 7, valid: 1, sorted: 0, row_counts: vec![], rows: vec![] };
    let mut options = Options::new(0);
    options.version = String::from("\0");
    let r = Winmd::new(options, tables, vec![], vec![], vec![], vec![]);
    assert_eq!(r.unwrap_err(), WinmdError::Tables(TablesError::RowCountMismatch));
    let tables = TildeStream::new(7, 0, 0, Vec::new(), Vec::new()).unwrap();
    let mut options = Options::new(0);
    options.version = String::from("\0");
    let r = Winmd::new(options, tables, vec![], vec![], vec![], vec![]);
    assert_eq!(r.unwrap_err(), WinmdError::VersionNotAscii);
}

fn sizes_with_strings(strings_len: usize) -> Sizes {
    Sizes {
        version_len: 18,
        row_counts: 0,
        rows_len: 0,
        strings_len,
        user_strings_len: 0,
        guids_len: 0,
        blobs_len: 0,
    }
}

#[test]
fn the_lengths_of_the_sample_image_are_its_sizes() {
    assert_eq!(
        sample().sizes(),
        Sizes {
            version_len: 18,
            row_counts: 3,
            rows_len: 40,
            strings_len: 0x1D,
            user_strings_len: 5,
            guids_len: 0x10,
            blobs_len: 6,
        }
    );
}

#[test]
fn an_image_without_metadata_is_measured() {
    let sizes = Sizes {
        version_len: 0,
        row_counts: 0,
        rows_len: 0,
        strings_len: 0,
        user_strings_len: 0,
        guids_len: 0,
        blobs_len: 0,
    };
    let (measure, layout) = sizes.plan(0).unwrap();
    assert_eq!(measure.root_len, 16 + 4 + 4 + 76);
    assert_eq!(measure.tables_len, 24);
    assert_eq!(measure.strings_len, 0);
    assert_eq!(measure.user_strings_len, 0);
    assert_eq!(measure.guids_len, 0);
    assert_eq!(measure.blobs_len, 0);
    assert_eq!(measure.metadata_len, 124);
    // The import block starts at 0x20CC: its hint/name entry lies at 0x2100
    // and the address of its entry stub at 0x2120.
    assert_eq!(measure.text_len, 0x124);
    assert_eq!(layout.size_image, 0x6000);
}

#[test]
fn the_largest_image_still_fits() {
    let (measure, layout) = sizes_with_strings(0xFFFF_9E00).plan(1).unwrap();
    assert_eq!(measure.strings_len, 0xFFFF_9E00);
    assert_eq!(measure.metadata_len, 0xFFFF_9E00 + 0x74 + 24);
    assert_eq!(layout.sections[0].size_raw_data, 0xFFFF_A000);
    assert_eq!(layout.sections[1].pointer_raw_data, 0xFFFF_A200);
    assert_eq!(layout.sections[1].virtual_address, 0xFFFF_C000);
    assert_eq!(layout.size_image, 0xFFFF_E000);
}

#[test]
fn content_beyond_32_bits_is_refused() {
    assert_eq!(
        sizes_with_strings(0x1_0000_0000).plan(1).unwrap_err(),
        WinmdError::ContentTooLarge
    );
    assert_eq!(sizes_with_strings(0xFFFF_FF00).plan(1).unwrap_err(), WinmdError::ContentTooLarge);
    assert_eq!(sizes_with_strings(usize::MAX).plan(1).unwrap_err(), WinmdError::ContentTooLarge);
    assert_eq!(sizes_with_strings(0x1_0000_0000).measured(), None);
    let mut sizes = sizes_with_strings(0);
    sizes.rows_len = usize::MAX;
    assert_eq!(sizes.plan(0).unwrap_err(), WinmdError::ContentTooLarge);
}

#[test]
fn a_file_beyond_32_bits_is_refused() {
    assert_eq!(
        sizes_with_strings(0xFFFF_FC00).plan(1).unwrap_err(),
        WinmdError::Layout(LayoutError::FileTooLarge)
    );
}

#[test]
fn an_image_beyond_32_bits_is_refused() {
    assert_eq!(
        sizes_with_strings(0xFFFF_BE00).plan(1).unwrap_err(),
        WinmdError::Layout(LayoutError::ImageTooLarge)
    );
}

#[test]
fn a_version_beyond_32_bits_is_refused() {
    let mut sizes = sizes_with_strings(0);
    sizes.version_len = 0xFFFF_FFF1;
    assert_eq!(sizes.plan(0).unwrap_err(), WinmdError::VersionTooLong);
    sizes.version_len = 0xFFFF_FFF0;
    assert_eq!(sizes.plan(0).unwrap_err(), WinmdError::ContentTooLarge);
}

#[test]
fn sizes_with_the_wrong_heap_flags_are_refused() {
    assert_eq!(sizes_with_strings(0x1_0000).plan(0).unwrap_err(), WinmdError::HeapSizeMismatch);
    assert_eq!(sizes_with_strings(0).plan(1).unwrap_err(), WinmdError::HeapSizeMismatch);
    assert!(sizes_with_strings(0x1_0000).plan(1).is_ok());
}
