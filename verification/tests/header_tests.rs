use winmd_writer::cli::{requires_32bit, CLIHeader};
use winmd_writer::dos::{dos_stub_bytes, pe_signature_bytes};
use winmd_writer::layout::PlannedSection;
use winmd_writer::optional_header::PEOptHeader;
use winmd_writer::pe::{COFFHeader, DataDirectory, ImageSectionHeader, ImportAddressTable};

fn sample_optional_header() -> PEOptHeader {
    PEOptHeader::new(
        0x0000_0200,
        0x0000_0200,
        0x0000_21AE,
        0x0000_2000,
        0x0000_4000,
        0x0040_0000,
        0x0000_6000,
        0x0000_0200,
        DataDirectory::new(0x0000_2154, 0x0000_0057),
        DataDirectory::new(0x0000_4000, 0x0000_000C),
        DataDirectory::new(0x0000_2000, 0x0000_0008),
        DataDirectory::new(0x0000_2008, 0x0000_0048),
    )
}

#[test]
fn the_dos_stub_points_at_the_pe_signature() {
    let stub = dos_stub_bytes();
    assert_eq!(stub.len(), 0x80);
    assert_eq!(&stub[..2], b"MZ");
    assert_eq!(&stub[0x3C..0x40], &[0x80, 0, 0, 0]);
    let message = b"This program cannot be run in DOS mode.\r\r\n$";
    assert_eq!(&stub[0x4E..0x4E + message.len()], &message[..]);
    assert_eq!(&stub[0x79..], &[0u8; 7]);
    assert_eq!(pe_signature_bytes(), b"PE\0\0".to_vec());
}

#[test]
fn the_coff_header_has_the_fixed_fields() {
    let header = COFFHeader::new(2, 0x5E9D_CF09, true);
    assert_eq!(header.machine, 0x014C);
    assert_eq!(header.num_sections, 2);
    assert_eq!(header.time_date_stamp, 0x5E9D_CF09);
    assert_eq!(header.pointer_to_symbol_table, 0);
    assert_eq!(header.number_symbols, 0);
    assert_eq!(header.size_opt_header, 224);
    assert_eq!(header.characteristics, 0x2102);
    assert_eq!(COFFHeader::new(2, 0, false).characteristics, 0x2002);
}

#[test]
fn the_coff_header_is_twenty_bytes() {
    let bytes = COFFHeader::new(2, 0x5E9D_CF09, true).to_bytes();
    assert_eq!(
        bytes,
        vec![
            0x4C, 0x01, 0x02, 0x00, 0x09, 0xCF, 0x9D, 0x5E, 0x00, 0x00, 0x00, 0x00, 0x00, 0x00,
            0x00, 0x00, 0xE0, 0x00, 0x02, 0x21
        ]
    );
}

#[test]
fn the_coff_header_decodes_to_what_was_encoded() {
    let header = COFFHeader {
        machine: 0x1234,
        num_sections: 0xFFFF,
        time_date_stamp: 0xDEAD_BEEF,
        pointer_to_symbol_table: 1,
        number_symbols: 0xFFFF_FFFF,
        size_opt_header: 7,
        characteristics: 0x8001,
    };
    assert_eq!(COFFHeader::from_bytes(&header.to_bytes()), Some(header));
    assert_eq!(COFFHeader::from_bytes(&header.to_bytes()[..19]), None);
    let mut longer = header.to_bytes();
    longer.push(0xAA);
    assert_eq!(COFFHeader::from_bytes(&longer), Some(header));
}

#[test]
fn the_optional_header_has_the_fixed_fields() {
    let header = sample_optional_header();
    assert_eq!(header.signature, 0x010B);
    assert_eq!(header.linker_version, 0x000B);
    assert_eq!(header.size_code, 0x200);
    assert_eq!(header.size_initialized_data, 0x200);
    assert_eq!(header.size_uninitialized_data, 0);
    assert_eq!(header.entry_point, 0x21AE);
    assert_eq!(header.base_code, 0x2000);
    assert_eq!(header.base_data, 0x4000);
    assert_eq!(header.image_base, 0x0040_0000);
    assert_eq!(header.section_alignment, 0x2000);
    assert_eq!(header.file_alignment, 0x200);
    assert_eq!(header.os_version, 4);
    assert_eq!(header.image_version, 0);
    assert_eq!(header.subsystem_version, 4);
    assert_eq!(header.win32_version_value, 0);
    assert_eq!(header.size_image, 0x6000);
    assert_eq!(header.size_headers, 0x200);
    assert_eq!(header.checksum, 0);
    assert_eq!(header.subsystem, 3);
    assert_eq!(header.dll_characteristics, 0x8540);
    assert_eq!(header.size_stack_reserve, 0x0010_0000);
    assert_eq!(header.size_stack_commit, 0x1000);
    assert_eq!(header.size_heap_reserve, 0x0010_0000);
    assert_eq!(header.size_heap_commit, 0x1000);
    assert_eq!(header.loader_flags, 0);
    assert_eq!(header.number_rva_sizes, 16);
    assert_eq!(header.import_table, DataDirectory { virtual_address: 0x2154, size: 0x57 });
    assert_eq!(header.base_relocation_table, DataDirectory { virtual_address: 0x4000, size: 0xC });
    assert_eq!(header.import_address_table, DataDirectory { virtual_address: 0x2000, size: 8 });
    assert_eq!(header.cli_header, DataDirectory { virtual_address: 0x2008, size: 0x48 });
}

#[test]
fn the_optional_header_fills_four_of_sixteen_directories() {
    let bytes = sample_optional_header().to_bytes();
    assert_eq!(bytes.len(), 224);
    assert_eq!(&bytes[..4], &[0x0B, 0x01, 0x0B, 0x00]);
    assert_eq!(&bytes[16..20], &[0xAE, 0x21, 0x00, 0x00]);
    assert_eq!(&bytes[28..32], &[0x00, 0x00, 0x40, 0x00]);
    assert_eq!(&bytes[68..72], &[0x03, 0x00, 0x40, 0x85]);
    assert_eq!(&bytes[92..96], &[0x10, 0x00, 0x00, 0x00]);
    for slot in 0..16 {
        let at = 96 + 8 * slot;
        let expected: [u8; 8] = match slot {
            1 => [0x54, 0x21, 0, 0, 0x57, 0, 0, 0],
            5 => [0x00, 0x40, 0, 0, 0x0C, 0, 0, 0],
            12 => [0x00, 0x20, 0, 0, 0x08, 0, 0, 0],
            14 => [0x08, 0x20, 0, 0, 0x48, 0, 0, 0],
            _ => [0; 8],
        };
        assert_eq!(&bytes[at..at + 8], &expected, "slot {}", slot);
    }
}

#[test]
fn the_optional_header_decodes_to_what_was_encoded() {
    let header = sample_optional_header();
    assert_eq!(PEOptHeader::from_bytes(&header.to_bytes()), Some(header));
    assert_eq!(PEOptHeader::from_bytes(&header.to_bytes()[..223]), None);
    let mut other = header;
    other.signature = 0xFFFF;
    other.checksum = 0x0102_0304;
    other.loader_flags = 0xFFFF_FFFF;
    other.cli_header = DataDirectory { virtual_address: 0xFFFF_FFFF, size: 0xFFFF_FFFF };
    assert_eq!(PEOptHeader::from_bytes(&other.to_bytes()), Some(other));
}

#[test]
fn a_data_directory_is_address_then_size() {
    let mut bytes = vec![0xAA];
    DataDirectory::new(0x2054, 0x100).write_to(&mut bytes);
    assert_eq!(bytes, vec![0xAA, 0x54, 0x20, 0, 0, 0x00, 0x01, 0, 0]);
    assert_eq!(
        DataDirectory::read_at(&bytes, 1),
        DataDirectory { virtual_address: 0x2054, size: 0x100 }
    );
}

#[test]
fn a_section_header_is_forty_bytes() {
    let header =
        ImageSectionHeader::new(*b".text\0\0\0", 0x1B4, 0x2000, 0x200, 0x200, 0x6000_0020);
    assert_eq!(header.pointer_relocations, 0);
    assert_eq!(header.pointer_line_numbers, 0);
    assert_eq!(header.num_relocations, 0);
    assert_eq!(header.num_line_numbers, 0);
    let bytes = header.to_bytes();
    assert_eq!(bytes.len(), 40);
    assert_eq!(&bytes[..8], b".text\0\0\0");
    assert_eq!(&bytes[8..12], &[0xB4, 0x01, 0, 0]);
    assert_eq!(&bytes[12..16], &[0x00, 0x20, 0, 0]);
    assert_eq!(&bytes[16..20], &[0x00, 0x02, 0, 0]);
    assert_eq!(&bytes[20..24], &[0x00, 0x02, 0, 0]);
    assert_eq!(&bytes[24..36], &[0u8; 12]);
    assert_eq!(&bytes[36..40], &[0x20, 0x00, 0x00, 0x60]);
}

#[test]
fn a_section_header_takes_the_planners_values() {
    let planned = PlannedSection {
        name: *b".reloc\0\0",
        characteristics: 0x4200_0040,
        virtual_size: 0xC,
        virtual_address: 0x4000,
        size_raw_data: 0x200,
        pointer_raw_data: 0x400,
    };
    let header = ImageSectionHeader::from_planned(&planned);
    assert_eq!(header.name, *b".reloc\0\0");
    assert_eq!(header.virtual_size, 0xC);
    assert_eq!(header.virtual_address, 0x4000);
    assert_eq!(header.size_raw_data, 0x200);
    assert_eq!(header.pointer_raw_data, 0x400);
    assert_eq!(header.characteristics, 0x4200_0040);
}

#[test]
fn the_import_address_table_is_one_entry_and_a_zero() {
    let table = ImportAddressTable::new(0x2190);
    assert_eq!(table, ImportAddressTable { hint_name_table_rva: 0x2190, zeroed: 0 });
    assert_eq!(table.to_bytes(), vec![0x90, 0x21, 0, 0, 0, 0, 0, 0]);
}

#[test]
fn the_cli_header_has_the_fixed_fields() {
    let header = CLIHeader::new(2, 5, DataDirectory::new(0x2054, 0x100), 1);
    assert_eq!(header.cb, 72);
    assert_eq!(header.major_runtime_version, 2);
    assert_eq!(header.minor_runtime_version, 5);
    assert_eq!(header.metadata, DataDirectory { virtual_address: 0x2054, size: 0x100 });
    assert_eq!(header.flags, 1);
    assert_eq!(header.entry_point_token, 0);
    assert_eq!(header.resources, 0);
    assert_eq!(header.strong_name_signature, 0);
    assert_eq!(header.code_manager_table, 0);
    assert_eq!(header.vtable_fixups, 0);
    assert_eq!(header.export_address_table_jumps, 0);
    assert_eq!(header.managed_native_header, 0);
}

#[test]
fn the_cli_header_is_seventy_two_bytes() {
    let bytes = CLIHeader::new(2, 5, DataDirectory::new(0x2054, 0x100), 1).to_bytes();
    let mut expected = vec![
        0x48, 0, 0, 0, 0x02, 0, 0x05, 0, 0x54, 0x20, 0, 0, 0x00, 0x01, 0, 0, 0x01, 0, 0, 0, 0, 0,
        0, 0,
    ];
    expected.extend_from_slice(&[0u8; 48]);
    assert_eq!(bytes, expected);
}

#[test]
fn the_cli_header_decodes_to_what_was_encoded() {
    let header = CLIHeader {
        cb: 72,
        major_runtime_version: 0xFFFF,
        minor_runtime_version: 1,
        metadata: DataDirectory { virtual_address: 0xFFFF_FFFF, size: 3 },
        flags: 0x8000_0003,
        entry_point_token: 0x0600_0001,
        resources: 0x0102_0304_0506_0708,
        strong_name_signature: u64::MAX,
        code_manager_table: 1,
        vtable_fixups: 0x8000_0000_0000_0000,
        export_address_table_jumps: 0x1_0000_0000,
        managed_native_header: 0xFFFF_FFFF,
    };
    assert_eq!(CLIHeader::from_bytes(&header.to_bytes()), Some(header));
    assert_eq!(CLIHeader::from_bytes(&header.to_bytes()[..71]), None);
}

#[test]
fn the_32_bit_flag_is_bit_one() {
    assert!(!requires_32bit(0));
    assert!(!requires_32bit(1));
    assert!(requires_32bit(2));
    assert!(requires_32bit(3));
    assert!(!requires_32bit(0xFFFF_FFFD));
}
