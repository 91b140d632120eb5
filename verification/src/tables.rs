//! The header of the tables stream `#~`: heap-size flags, the bit-vectors
//! of present and of sorted tables, and the row counts. The rows themselves
//! arrive encoded and are passed through.
use vstd::prelude::*;
use crate::codec::{
    le_u32, le_u64, lemma_padded_zeros, pad_to_4, padded_len, padding_to_4, put_bytes, put_u32, put_u64, put_u8,
    zeros,
};

verus! {

/// The number of tables that the bit-vectors can speak of.
pub const MAX_TABLES: u64 = 64;

/// The major version of the tables stream.
pub const TABLES_MAJOR_VERSION: u8 = 2;

/// The minor version of the tables stream.
pub const TABLES_MINOR_VERSION: u8 = 0;

/// The byte that follows the heap-size flags; it is always 1.
pub const TABLES_RESERVED: u8 = 0x01;

/// Length in bytes of the stream's fixed part, up to the row counts.
pub const TABLES_FIXED_LEN: usize = 24;

/// Heap-size flag, bit 0: indices into the string heap take 4 bytes.
pub const HEAP_STRINGS_WIDE: u8 = 0x01;

/// Heap-size flag, bit 1: indices into the GUID heap take 4 bytes.
pub const HEAP_GUID_WIDE: u8 = 0x02;

/// Heap-size flag, bit 2: indices into the blob heap take 4 bytes.
pub const HEAP_BLOB_WIDE: u8 = 0x04;

/// The size from which on a heap needs indices of 4 bytes.
pub const WIDE_INDEX_THRESHOLD: usize = 0x1_0000;

/// The heap-size flags of heaps of the given sizes: an index takes 2 bytes
/// where the heap is smaller than 2^16 bytes, and 4 bytes otherwise.
pub open spec fn heap_flags(strings_len: int, guid_len: int, blob_len: int) -> u8 {
    ((if strings_len >= WIDE_INDEX_THRESHOLD { HEAP_STRINGS_WIDE as int } else { 0 })
        + (if guid_len >= WIDE_INDEX_THRESHOLD { HEAP_GUID_WIDE as int } else { 0 })
        + (if blob_len >= WIDE_INDEX_THRESHOLD { HEAP_BLOB_WIDE as int } else { 0 })) as u8
}

/// Computes the heap-size flags from the sizes of the finished heaps.
pub fn heap_size_flags(strings_len: usize, guid_len: usize, blob_len: usize) -> (flags: u8)
    ensures
        flags == heap_flags(strings_len as int, guid_len as int, blob_len as int),
{
    let mut flags: u8 = 0;
    if strings_len >= WIDE_INDEX_THRESHOLD {
        flags = flags + HEAP_STRINGS_WIDE;
    }
    if guid_len >= WIDE_INDEX_THRESHOLD {
        flags = flags + HEAP_GUID_WIDE;
    }
    if blob_len >= WIDE_INDEX_THRESHOLD {
        flags = flags + HEAP_BLOB_WIDE;
    }
    flags
}

/// Whether bit `table` of `valid` is set: table number `table` has rows.
pub open spec fn table_present(valid: u64, table: u64) -> bool {
    (valid >> table) & 1 == 1
}

/// The number of tables below number `n` that have rows.
pub open spec fn present_below(valid: u64, n: nat) -> nat
    decreases n,
{
    if n == 0 {
        0
    } else {
        present_below(valid, (n - 1) as nat) + if table_present(valid, (n - 1) as u64) {
            1nat
        } else {
            0nat
        }
    }
}

/// The number of tables that have rows.
pub open spec fn present_tables(valid: u64) -> nat {
    present_below(valid, MAX_TABLES as nat)
}

/// No more tables have rows than there are tables.
pub proof fn lemma_present_below(valid: u64, n: nat)
    ensures
        present_below(valid, n) <= n,
    decreases n,
{
    if n > 0 {
        lemma_present_below(valid, (n - 1) as nat);
    }
}

/// Counts the tables that have rows.
pub fn count_present_tables(valid: u64) -> (n: usize)
    ensures
        n == present_tables(valid),
        n <= MAX_TABLES,
{
    let mut n: usize = 0;
    let mut table: u64 = 0;
    while table < MAX_TABLES
        invariant
            table <= MAX_TABLES,
            n == present_below(valid, table as nat),
            n <= table,
        decreases MAX_TABLES - table,
    {
        if (valid >> table) & 1 == 1 {
            n = n + 1;
        }
        table = table + 1;
    }
    n
}

/// The bytes of the first `k` row counts, four for each.
pub open spec fn encode_row_counts(counts: Seq<u32>, k: int) -> Seq<u8>
    decreases k,
{
    if k <= 0 {
        Seq::empty()
    } else {
        encode_row_counts(counts, k - 1) + le_u32(counts[k - 1])
    }
}

/// The tables stream. `row_counts` holds one count for each table that has
/// rows, in ascending order of table number; `rows` holds the encoded rows of
/// those tables in the same order.
#[derive(Debug)]
pub struct TildeStream {
    /// Bit-vector of index widths: see the `HEAP_*_WIDE` flags.
    pub heap_sizes: u8,
    /// Bit `n` is set where table `n` has at least one row.
    pub valid: u64,
    /// Bit `n` is set where the rows of table `n` are sorted.
    pub sorted: u64,
    pub row_counts: Vec<u32>,
    pub rows: Vec<u8>,
}

/// Why the description of the tables is refused.
#[derive(Clone, Copy, Debug, PartialEq, Eq, Structural)]
pub enum TablesError {
    /// The number of row counts differs from the number of bits set in
    /// `valid`.
    RowCountMismatch,
    /// A table whose bit is set in `valid` is said to have no rows.
    EmptyTable,
}

/// What a tables stream says, with sequences in place of vectors.
pub struct Tables {
    pub heap_sizes: u8,
    pub valid: u64,
    pub sorted: u64,
    pub row_counts: Seq<u32>,
    pub rows: Seq<u8>,
}

impl View for TildeStream {
    type V = Tables;

    open spec fn view(&self) -> Tables {
        Tables {
            heap_sizes: self.heap_sizes,
            valid: self.valid,
            sorted: self.sorted,
            row_counts: self.row_counts@,
            rows: self.rows@,
        }
    }
}

impl Tables {
    /// The reason for which row counts are refused for `valid`, if there is
    /// one.
    pub open spec fn error_of(valid: u64, row_counts: Seq<u32>) -> Option<TablesError> {
        if row_counts.len() != present_tables(valid) {
            Some(TablesError::RowCountMismatch)
        } else if exists|i: int| 0 <= i < row_counts.len() && row_counts[i] == 0 {
            Some(TablesError::EmptyTable)
        } else {
            None
        }
    }

    /// There is one row count for each table that has rows, and none is zero.
    pub open spec fn wf(self) -> bool {
        Self::error_of(self.valid, self.row_counts) is None
    }

    /// The stream's fixed part: a reserved zero, version 2.0, the heap-size
    /// flags, the reserved byte 1, and the two bit-vectors.
    #[verifier::opaque]
    pub open spec fn encode_fixed(self) -> Seq<u8> {
        le_u32(0) + seq![
            TABLES_MAJOR_VERSION,
            TABLES_MINOR_VERSION,
            self.heap_sizes,
            TABLES_RESERVED,
        ] + le_u64(self.valid) + le_u64(self.sorted)
    }

    /// The stream without its padding: fixed part, row counts, rows.
    pub open spec fn encode_unpadded(self) -> Seq<u8> {
        self.encode_fixed() + encode_row_counts(self.row_counts, self.row_counts.len() as int)
            + self.rows
    }

    /// The stream's bytes, padded with zero bytes to a multiple of four.
    pub open spec fn encode(self) -> Seq<u8> {
        self.encode_unpadded() + zeros(padding_to_4(self.encode_unpadded().len() as int) as nat)
    }
}

impl TildeStream {
    /// The tables stream of the given tables, if the row counts agree with
    /// `valid`.
    pub fn new(heap_sizes: u8, valid: u64, sorted: u64, row_counts: Vec<u32>, rows: Vec<u8>) -> (r:
        Result<TildeStream, TablesError>)
        ensures
            match r {
                Ok(stream) => {
                    &&& Tables::error_of(valid, row_counts@) is None
                    &&& stream@ == (Tables {
                        heap_sizes,
                        valid,
                        sorted,
                        row_counts: row_counts@,
                        rows: rows@,
                    })
                    &&& stream@.wf()
                },
                Err(e) => Tables::error_of(valid, row_counts@) == Some(e),
            },
    {
        let stream = TildeStream { heap_sizes, valid, sorted, row_counts, rows };
        match stream.check() {
            Ok(()) => Ok(stream),
            Err(e) => Err(e),
        }
    }

    /// Checks the row counts against `valid`.
    pub fn check(&self) -> (r: Result<(), TablesError>)
        ensures
            match r {
                Ok(()) => self@.wf(),
                Err(e) => Tables::error_of(self.valid, self.row_counts@) == Some(e),
            },
    {
        if self.row_counts.len() != count_present_tables(self.valid) {
            return Err(TablesError::RowCountMismatch);
        }
        let mut i: usize = 0;
        while i < self.row_counts.len()
            invariant
                i <= self.row_counts@.len(),
                self.row_counts@.len() == present_tables(self.valid),
                forall|j: int| 0 <= j < i ==> self.row_counts@[j] != 0,
            decreases self.row_counts@.len() - i,
        {
            if self.row_counts[i] == 0 {
                assert(self.row_counts@[i as int] == 0);
                return Err(TablesError::EmptyTable);
            }
            i = i + 1;
        }
        Ok(())
    }

    /// Serialises the stream.
    pub fn to_bytes(&self) -> (bytes: Vec<u8>)
        ensures
            bytes@ == self@.encode(),
            bytes@.len() % 4 == 0,
    {
        let mut bytes: Vec<u8> = Vec::new();
        put_u32(&mut bytes, 0);
        put_u8(&mut bytes, TABLES_MAJOR_VERSION);
        put_u8(&mut bytes, TABLES_MINOR_VERSION);
        put_u8(&mut bytes, self.heap_sizes);
        put_u8(&mut bytes, TABLES_RESERVED);
        put_u64(&mut bytes, self.valid);
        put_u64(&mut bytes, self.sorted);
        proof {
            reveal(Tables::encode_fixed);
        }
        assert(bytes@ =~= self@.encode_fixed());
        let ghost fixed = bytes@;
        let mut i: usize = 0;
        while i < self.row_counts.len()
            invariant
                i <= self.row_counts@.len(),
                bytes@ == fixed + encode_row_counts(self.row_counts@, i as int),
            decreases self.row_counts@.len() - i,
        {
            put_u32(&mut bytes, self.row_counts[i]);
            i = i + 1;
            assert(bytes@ =~= fixed + encode_row_counts(self.row_counts@, i as int));
        }
        put_bytes(&mut bytes, self.rows.as_slice());
        assert(bytes@ =~= self@.encode_unpadded());
        pad_to_4(&mut bytes);
        bytes
    }
}

/// The fixed part of the stream is 24 bytes long, and each row count adds
/// four: a stream that is well formed holds exactly as many row counts as
/// tables have rows.
pub proof fn lemma_tables_len(stream: Tables)
    ensures
        stream.encode_fixed().len() == TABLES_FIXED_LEN,
        stream.encode_unpadded().len() == TABLES_FIXED_LEN + 4 * stream.row_counts.len()
            + stream.rows.len(),
        stream.encode().len() == padded_len(stream.encode_unpadded().len() as int),
        stream.wf() ==> stream.row_counts.len() == present_tables(stream.valid),
{
    reveal(Tables::encode_fixed);
    lemma_row_counts_len(stream.row_counts, stream.row_counts.len() as int);
    lemma_padded_zeros(stream.encode_unpadded());
}

/// `k` row counts take `4 * k` bytes.
pub proof fn lemma_row_counts_len(counts: Seq<u32>, k: int)
    requires
        0 <= k,
    ensures
        encode_row_counts(counts, k).len() == 4 * k,
    decreases k,
{
    if k > 0 {
        lemma_row_counts_len(counts, k - 1);
    }
}

} // verus!
