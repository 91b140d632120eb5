use winmd_writer::tables::{count_present_tables, heap_size_flags, TablesError, TildeStream};

#[test]
fn three_present_tables_need_three_row_counts() {
    let valid = 0b1000101u64;
    assert_eq!(count_present_tables(valid), 3);
    for sorted in [0u64, 0x16003325FA00, u64::MAX] {
        let rows = vec![0xA0, 0xA1, 0xC0, 0xC1, 0xC2, 0xF0];
        let stream = TildeStream::new(0, valid, sorted, vec![2, 3, 1], rows.clone()).unwrap();
        let bytes = stream.to_bytes();
        assert_eq!(&bytes[8..16], &valid.to_le_bytes());
        assert_eq!(&bytes[16..24], &sorted.to_le_bytes());
        assert_eq!(&bytes[24..36], &[2, 0, 0, 0, 3, 0, 0, 0, 1, 0, 0, 0]);
        assert_eq!(&bytes[36..42], &rows[..]);
        assert_eq!(&bytes[42..], &[0, 0]);
        assert_eq!(bytes.len(), 44);
    }
    for counts in [vec![], vec![1], vec![1, 1], vec![1, 1, 1, 1]] {
        assert_eq!(
            TildeStream::new(0, valid, 0, counts, Vec::new()).unwrap_err(),
            TablesError::RowCountMismatch
        );
    }
}

#[test]
fn the_tables_stream_opens_with_its_fixed_part() {
    let stream = TildeStream::new(0x05, 0, 0x16003325FA00, Vec::new(), Vec::new()).unwrap();
    assert_eq!(
        stream.to_bytes(),
        vec![
            0, 0, 0, 0, 0x02, 0x00, 0x05, 0x01, 0, 0, 0, 0, 0, 0, 0, 0, 0x00, 0xFA, 0x25, 0x33,
            0x00, 0x16, 0x00, 0x00
        ]
    );
}

#[test]
fn the_tables_stream_is_padded_to_a_multiple_of_four() {
    for extra in 0..9usize {
        let stream = TildeStream::new(0, 1, 0, vec![7], vec![0xEE; extra]).unwrap();
        let bytes = stream.to_bytes();
        assert_eq!(bytes.len(), 28 + (extra + 3) / 4 * 4);
        assert_eq!(&bytes[24..28], &[7, 0, 0, 0]);
        assert!(bytes[28..28 + extra].iter().all(|b| *b == 0xEE));
        assert!(bytes[28 + extra..].iter().all(|b| *b == 0));
    }
}

#[test]
fn every_bit_of_valid_counts_one_table() {
    assert_eq!(count_present_tables(0), 0);
    assert_eq!(count_present_tables(1), 1);
    assert_eq!(count_present_tables(1 << 63), 1);
    assert_eq!(count_present_tables(u64::MAX), 64);
    assert_eq!(count_present_tables(0x0000_0900_0000_0045), 5);
    let all = TildeStream::new(0, u64::MAX, 0, vec![1; 64], Vec::new()).unwrap();
    assert_eq!(all.to_bytes().len(), 24 + 256);
}

#[test]
fn a_present_table_without_rows_is_refused() {
    assert_eq!(
        TildeStream::new(0, 0b101, 0, vec![1, 0], Vec::new()).unwrap_err(),
        TablesError::EmptyTable
    );
    assert_eq!(
        TildeStream::new(0, 0b101, 0, vec![0], Vec::new()).unwrap_err(),
        TablesError::RowCountMismatch
    );
    let stream = TildeStream { heap_sizes: 0, valid: 1, sorted: 0, row_counts: vec![0], rows: vec![] };
    assert_eq!(stream.check().unwrap_err(), TablesError::EmptyTable);
    let stream = TildeStream { heap_sizes: 0, valid: 1, sorted: 0, row_counts: vec![9], rows: vec![] };
    assert!(stream.check().is_ok());
}

#[test]
fn heap_indices_widen_at_two_to_the_sixteenth() {
    assert_eq!(heap_size_flags(0, 0, 0), 0);
    assert_eq!(heap_size_flags(0xFFFF, 0xFFFF, 0xFFFF), 0);
    assert_eq!(heap_size_flags(0x1_0000, 0, 0), 1);
    assert_eq!(heap_size_flags(0, 0x1_0000, 0), 2);
    assert_eq!(heap_size_flags(0, 0, 0x1_0000), 4);
    assert_eq!(heap_size_flags(0x1_0000, 0xFFFF, 0x2_0000), 5);
    assert_eq!(heap_size_flags(usize::MAX, usize::MAX, usize::MAX), 7);
}
