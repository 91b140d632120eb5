use winmd_writer::codec::{
    get_u16, get_u32, get_u64, is_plain_ascii_text, pad_to_4, padded_size, put_ascii, put_bytes,
    put_padded, put_terminator, put_u16, put_u32, put_u64, put_u8, put_zeros,
};

#[test]
fn integers_are_written_low_byte_first() {
    let mut buf = Vec::new();
    put_u8(&mut buf, 0xAB);
    put_u16(&mut buf, 0x014C);
    put_u32(&mut buf, 0x424A_5342);
    put_u64(&mut buf, 0x0000_1600_3325_FA00);
    assert_eq!(
        buf,
        vec![
            0xAB, 0x4C, 0x01, 0x42, 0x53, 0x4A, 0x42, 0x00, 0xFA, 0x25, 0x33, 0x00, 0x16, 0x00,
            0x00
        ]
    );
}

#[test]
fn integers_are_read_back_from_their_offsets() {
    let mut buf = vec![0xEE];
    put_u16(&mut buf, 0xBEEF);
    put_u32(&mut buf, 0xDEAD_BEEF);
    put_u64(&mut buf, 0x0123_4567_89AB_CDEF);
    assert_eq!(get_u16(&buf, 1), 0xBEEF);
    assert_eq!(get_u32(&buf, 3), 0xDEAD_BEEF);
    assert_eq!(get_u64(&buf, 7), 0x0123_4567_89AB_CDEF);
}

#[test]
fn extreme_values_round_trip() {
    let mut buf = Vec::new();
    put_u16(&mut buf, u16::MAX);
    put_u32(&mut buf, u32::MAX);
    put_u64(&mut buf, u64::MAX);
    put_u16(&mut buf, 0);
    put_u32(&mut buf, 0);
    put_u64(&mut buf, 0);
    assert_eq!(buf.len(), 28);
    assert_eq!(get_u16(&buf, 0), u16::MAX);
    assert_eq!(get_u32(&buf, 2), u32::MAX);
    assert_eq!(get_u64(&buf, 6), u64::MAX);
    assert_eq!(get_u16(&buf, 14), 0);
    assert_eq!(get_u32(&buf, 16), 0);
    assert_eq!(get_u64(&buf, 20), 0);
}

#[test]
fn bytes_and_zeros_are_appended() {
    let mut buf = vec![1u8];
    put_bytes(&mut buf, &[2, 3]);
    put_zeros(&mut buf, 3);
    put_bytes(&mut buf, &[]);
    put_zeros(&mut buf, 0);
    assert_eq!(buf, vec![1, 2, 3, 0, 0, 0]);
}

#[test]
fn ascii_text_is_one_byte_per_character() {
    let mut buf = Vec::new();
    put_ascii(&mut buf, "#~");
    assert_eq!(buf, vec![0x23, 0x7E]);
}

#[test]
fn a_terminator_is_one_to_four_zero_bytes() {
    for (len, zeros) in [(0usize, 4usize), (1, 3), (2, 2), (3, 1), (4, 4), (18, 2)] {
        let mut buf = Vec::new();
        put_terminator(&mut buf, len);
        assert_eq!(buf, vec![0u8; zeros]);
    }
}

#[test]
fn padding_reaches_the_next_multiple_of_four() {
    for (len, padded) in [(0usize, 0usize), (1, 4), (2, 4), (3, 4), (4, 4), (5, 8)] {
        let mut buf = vec![7u8; len];
        pad_to_4(&mut buf);
        assert_eq!(buf.len(), padded);
        assert!(buf[len..].iter().all(|b| *b == 0));
        assert_eq!(padded_size(len as u64), padded as u64);
    }
}

#[test]
fn padded_bytes_follow_what_was_there() {
    let mut buf = vec![9u8];
    put_padded(&mut buf, &[1, 2, 3, 4, 5]);
    assert_eq!(buf, vec![9, 1, 2, 3, 4, 5, 0, 0, 0]);
}

#[test]
fn plain_ascii_excludes_zero_and_high_characters() {
    assert!(is_plain_ascii_text("WindowsRuntime 1.2"));
    assert!(is_plain_ascii_text(""));
    assert!(!is_plain_ascii_text("v1\0"));
    assert!(!is_plain_ascii_text("caf\u{e9}"));
}
