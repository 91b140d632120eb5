use winmd_writer::imports::{
    import_block_bytes, import_block_size, import_layout, relocation_block_bytes, ImportLayout,
};

#[test]
fn the_import_layout_follows_from_the_start() {
    assert_eq!(
        import_layout(0x2154),
        ImportLayout {
            directory: 0x2154,
            lookup_table: 0x217C,
            hint_name: 0x2190,
            library_name: 0x219E,
            table_size: 0x57,
            entry_point: 0x21AE,
            stub_operand: 0x21B0,
            end: 0x21B4,
        }
    );
    assert_eq!(
        import_layout(0x2150),
        ImportLayout {
            directory: 0x2150,
            lookup_table: 0x2178,
            hint_name: 0x2180,
            library_name: 0x218E,
            table_size: 0x4B,
            entry_point: 0x219E,
            stub_operand: 0x21A0,
            end: 0x21A4,
        }
    );
}

#[test]
fn the_import_block_is_as_long_as_its_layout() {
    for start in 0x2000u32..0x2040 {
        let layout = import_layout(start);
        let bytes = import_block_bytes(start, 0x2000, 0x0040_0000);
        assert_eq!(bytes.len() as u32, layout.end - start);
        assert_eq!(import_block_size(start as u64), (layout.end - start) as u64);
        assert_eq!(layout.hint_name % 16, 0);
        assert_eq!(layout.stub_operand % 4, 0);
        assert!(bytes.len() <= 128);
        let at = |rva: u32| (rva - start) as usize;
        assert_eq!(&bytes[at(layout.lookup_table)..][..4], &layout.hint_name.to_le_bytes());
        assert_eq!(&bytes[at(layout.hint_name)..][..14], b"\0\0_CorDllMain\0");
        assert_eq!(&bytes[at(layout.library_name)..][..12], b"mscoree.dll\0");
        assert_eq!(&bytes[at(layout.entry_point)..][..2], &[0xFF, 0x25]);
        assert_eq!(&bytes[at(layout.stub_operand)..], &0x0040_2000u32.to_le_bytes());
    }
}

#[test]
fn the_import_block_has_known_bytes() {
    let bytes = import_block_bytes(0x2150, 0x2000, 0x0040_0000);
    let mut expected = Vec::new();
    expected.extend_from_slice(&[0x78, 0x21, 0, 0, 0, 0, 0, 0, 0, 0, 0, 0]);
    expected.extend_from_slice(&[0x8E, 0x21, 0, 0, 0x00, 0x20, 0, 0]);
    expected.extend_from_slice(&[0u8; 20]);
    expected.extend_from_slice(&[0x80, 0x21, 0, 0, 0, 0, 0, 0]);
    expected.extend_from_slice(b"\0\0_CorDllMain\0mscoree.dll\0\0");
    expected.extend_from_slice(&[0u8; 3]);
    expected.extend_from_slice(&[0xFF, 0x25, 0x00, 0x20, 0x40, 0x00]);
    assert_eq!(bytes, expected);
}

#[test]
fn the_relocation_block_names_the_page_and_the_offset() {
    assert_eq!(
        relocation_block_bytes(0x21B0),
        vec![0x00, 0x20, 0, 0, 0x0C, 0, 0, 0, 0xB0, 0x31, 0, 0]
    );
    assert_eq!(
        relocation_block_bytes(0x0001_2FFC),
        vec![0x00, 0x20, 0x01, 0, 0x0C, 0, 0, 0, 0xFC, 0x3F, 0, 0]
    );
    assert_eq!(relocation_block_bytes(0), vec![0, 0, 0, 0, 0x0C, 0, 0, 0, 0x00, 0x30, 0, 0]);
}
