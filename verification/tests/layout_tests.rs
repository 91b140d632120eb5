use winmd_writer::layout::{align_to, plan_sections, LayoutError, SectionNameError, SectionRequest};

fn request(name: &[u8; 8], characteristics: u32, content_len: u32) -> SectionRequest {
    SectionRequest { name: *name, characteristics, content_len }
}

#[test]
fn text_and_reloc_are_placed_as_expected() {
    let requests = vec![
        request(b".text\0\0\0", 0x6000_0020, 0x1B4),
        request(b".reloc\0\0", 0x4200_0040, 0xC),
    ];
    let layout = plan_sections(&requests, 0x2000, 0x200, 0x2000).unwrap();
    assert_eq!(layout.size_headers, 0x200);
    assert_eq!(layout.size_image, 0x6000);
    assert_eq!(layout.sections.len(), 2);
    let text = &layout.sections[0];
    assert_eq!(text.name, *b".text\0\0\0");
    assert_eq!(text.characteristics, 0x6000_0020);
    assert_eq!(text.virtual_address, 0x2000);
    assert_eq!(text.virtual_size, 0x1B4);
    assert_eq!(text.pointer_raw_data, 0x200);
    assert_eq!(text.size_raw_data, 0x200);
    let reloc = &layout.sections[1];
    assert_eq!(reloc.name, *b".reloc\0\0");
    assert_eq!(reloc.characteristics, 0x4200_0040);
    assert_eq!(reloc.virtual_address, 0x4000);
    assert_eq!(reloc.virtual_size, 0xC);
    assert_eq!(reloc.pointer_raw_data, text.pointer_raw_data + 0x200);
    assert_eq!(reloc.size_raw_data, 0x200);
}

#[test]
fn rounding_up_reaches_the_next_multiple() {
    assert_eq!(align_to(0, 0x200), 0);
    assert_eq!(align_to(1, 0x200), 0x200);
    assert_eq!(align_to(0x200, 0x200), 0x200);
    assert_eq!(align_to(0x201, 0x200), 0x400);
    assert_eq!(align_to(456, 0x200), 512);
    assert_eq!(align_to(7, 3), 9);
}

#[test]
fn pointers_and_addresses_increase_and_are_aligned() {
    let lens = [0u32, 1, 0x1FF, 0x200, 0x201, 0x2000, 0x2001, 0x1_0000, 5];
    let requests: Vec<SectionRequest> =
        lens.iter().map(|len| request(b"s\0\0\0\0\0\0\0", 0, *len)).collect();
    let layout = plan_sections(&requests, 0x2000, 0x200, 0x2000).unwrap();
    assert_eq!(layout.sections.len(), lens.len());
    assert_eq!(layout.sections[0].pointer_raw_data, layout.size_headers);
    for (i, section) in layout.sections.iter().enumerate() {
        assert_eq!(section.pointer_raw_data % 0x200, 0);
        assert_eq!(section.virtual_address % 0x2000, 0);
        assert_eq!(section.size_raw_data % 0x200, 0);
        assert_eq!(section.virtual_size, lens[i]);
        assert!(section.size_raw_data >= section.virtual_size);
        if i > 0 {
            let before = &layout.sections[i - 1];
            assert_eq!(before.pointer_raw_data + before.size_raw_data, section.pointer_raw_data);
            assert!(before.pointer_raw_data < section.pointer_raw_data);
            assert!(before.virtual_address < section.virtual_address);
            assert!(before.virtual_address + before.size_raw_data <= section.virtual_address);
        }
    }
    let last = layout.sections.last().unwrap();
    assert_eq!(layout.size_image % 0x2000, 0);
    assert!(layout.size_image >= last.virtual_address + last.size_raw_data);
}

#[test]
fn an_empty_section_takes_one_file_alignment_unit() {
    let requests = vec![request(b".empty\0\0", 0, 0), request(b".next\0\0\0", 0, 1)];
    let layout = plan_sections(&requests, 0x2000, 0x200, 0x2000).unwrap();
    assert_eq!(layout.sections[0].virtual_size, 0);
    assert_eq!(layout.sections[0].size_raw_data, 0x200);
    assert_eq!(layout.sections[1].pointer_raw_data, 0x400);
    assert_eq!(layout.sections[1].virtual_address, 0x4000);
}

#[test]
fn no_sections_give_headers_only() {
    let layout = plan_sections(&Vec::new(), 0x2000, 0x200, 0x2000).unwrap();
    assert!(layout.sections.is_empty());
    assert_eq!(layout.size_headers, 0x200);
    assert_eq!(layout.size_image, 0x2000);
}

#[test]
fn the_header_region_grows_with_the_section_count() {
    // 376 bytes of fixed headers and 40 for each section: four sections
    // need 536 bytes, which is more than one unit of 512.
    let requests = vec![request(b"s\0\0\0\0\0\0\0", 0, 1); 4];
    let layout = plan_sections(&requests, 0x2000, 0x200, 0x2000).unwrap();
    assert_eq!(layout.size_headers, 0x400);
    assert_eq!(layout.sections[0].pointer_raw_data, 0x400);
}

#[test]
fn the_base_is_rounded_up_to_the_section_alignment() {
    let requests = vec![request(b".text\0\0\0", 0, 1)];
    let layout = plan_sections(&requests, 0x1000, 0x200, 0x1001).unwrap();
    assert_eq!(layout.sections[0].virtual_address, 0x2000);
    assert_eq!(layout.size_image, 0x3000);
}

#[test]
fn zero_alignment_is_refused() {
    let requests = vec![request(b".text\0\0\0", 0, 1)];
    assert_eq!(
        plan_sections(&requests, 0x2000, 0, 0x2000).unwrap_err(),
        LayoutError::InvalidAlignment
    );
    assert_eq!(
        plan_sections(&requests, 0x100, 0x200, 0x2000).unwrap_err(),
        LayoutError::InvalidAlignment
    );
    assert_eq!(
        plan_sections(&requests, 0x300, 0x200, 0x2000).unwrap_err(),
        LayoutError::InvalidAlignment
    );
}

#[test]
fn too_many_sections_are_refused() {
    let requests = vec![request(b"s\0\0\0\0\0\0\0", 0, 1); 0x1_0000];
    assert_eq!(
        plan_sections(&requests, 0x2000, 0x200, 0x2000).unwrap_err(),
        LayoutError::TooManySections
    );
}

#[test]
fn the_largest_alignment_still_holds_the_headers() {
    let requests = vec![request(b".text\0\0\0", 0, 1)];
    assert_eq!(
        plan_sections(&requests, 0xFFFF_FFFF, 0xFFFF_FFFF, 0xFFFF_FFFF).unwrap_err(),
        LayoutError::FileTooLarge
    );
    let layout = plan_sections(&Vec::new(), 0xFFFF_FFFF, 0xFFFF_FFFF, 0xFFFF_FFFF).unwrap();
    assert_eq!(layout.size_headers, 0xFFFF_FFFF);
    assert_eq!(layout.size_image, 0xFFFF_FFFF);
}

#[test]
fn a_base_inside_the_headers_is_refused() {
    let requests = vec![request(b".text\0\0\0", 0, 1)];
    assert_eq!(
        plan_sections(&requests, 0x200, 0x200, 0).unwrap_err(),
        LayoutError::HeadersOverlapSections
    );
    assert!(plan_sections(&requests, 0x200, 0x200, 0x200).is_ok());
}

#[test]
fn a_file_that_does_not_fit_is_refused() {
    let requests = vec![
        request(b".a\0\0\0\0\0\0", 0, 0xFFFF_FF00),
        request(b".b\0\0\0\0\0\0", 0, 0x1000),
    ];
    assert_eq!(
        plan_sections(&requests, 0x200, 0x200, 0x200).unwrap_err(),
        LayoutError::FileTooLarge
    );
}

#[test]
fn an_image_that_does_not_fit_is_refused() {
    let requests = vec![request(b".a\0\0\0\0\0\0", 0, 0x200)];
    assert_eq!(
        plan_sections(&requests, 0x2000, 0x200, 0xFFFF_E000).unwrap_err(),
        LayoutError::ImageTooLarge
    );
}

#[test]
fn section_names_are_padded_with_zero_bytes() {
    let text = SectionRequest::new(".text", 0x6000_0020, 0x1B4).unwrap();
    assert_eq!(text.name, *b".text\0\0\0");
    assert_eq!(text.characteristics, 0x6000_0020);
    assert_eq!(text.content_len, 0x1B4);
    let full = SectionRequest::new("12345678", 0, 0).unwrap();
    assert_eq!(full.name, *b"12345678");
}

#[test]
fn bad_section_names_are_refused() {
    assert_eq!(SectionRequest::new("", 0, 0).unwrap_err(), SectionNameError::Empty);
    assert_eq!(SectionRequest::new("123456789", 0, 0).unwrap_err(), SectionNameError::TooLong);
    assert_eq!(SectionRequest::new(".t\u{e9}xt", 0, 0).unwrap_err(), SectionNameError::NotAscii);
    assert_eq!(SectionRequest::new(".te\0xt", 0, 0).unwrap_err(), SectionNameError::NotAscii);
}
