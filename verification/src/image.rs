//! The image as a whole: what it is made of, where each part lies, and the
//! bytes of the file.
//!
//! An image has two sections. `.text` holds the import address table, the CLI
//! header, the metadata (the root and the five streams) and the import block;
//! `.reloc` holds the one base relocation. Every offset and address below is
//! computed from the sizes of the parts that precede it.
use vstd::prelude::*;
use crate::cli::{flags_require_32bit, CLIHeader, CLI_HEADER_LEN};
use crate::codec::{
    ascii_bytes, is_plain_ascii, le_u16, le_u32, lemma_padded_zeros, lemma_padding_to_4, lemma_terminated,
    padded_len, padding_to_4, terminated, zeros,
};
use crate::dos::{dos_stub, pe_signature};
use crate::imports::{
    hint_name_rva, import_block, import_block_len, import_layout_of, lemma_import_layout,
    relocation_block, stub_operand_rva, IMPORT_BLOCK_MAX_LEN, RELOCATION_BLOCK_LEN,
};
use crate::layout::{
    file_end, headers_len, layout_error, lemma_align_up, lemma_layout_aligned,
    lemma_layout_increasing, lemma_raw_size, planned, raw_size, size_headers, virtual_end, LayoutError, PlannedSection,
    SectionRequest, PE_OPT_HEADER_LEN,
};
use crate::metadata::{
    encode_streams, root_bytes, StreamEntry, MAX_VERSION_LEN,
    METADATA_MAJOR_VERSION, METADATA_MINOR_VERSION, METADATA_SIGNATURE,
};
use crate::optional_header::{
    PEOptHeader, DLL_CHARACTERISTICS, FILE_ALIGNMENT, LINKER_VERSION, NUMBER_RVA_SIZES,
    OS_VERSION, PE_OPT_MAGIC, SECTION_ALIGNMENT, SIZE_HEAP_COMMIT, SIZE_HEAP_RESERVE,
    SIZE_STACK_COMMIT, SIZE_STACK_RESERVE, SUBSYSTEM, SUBSYSTEM_VERSION,
};
use crate::pe::{
    coff_characteristics, COFFHeader, DataDirectory, ImageSectionHeader, ImportAddressTable,
    IMAGE_SCN_CNT_CODE, IMAGE_SCN_CNT_INITIALIZED_DATA, IMAGE_SCN_MEM_DISCARDABLE,
    IMAGE_SCN_MEM_EXECUTE, IMAGE_SCN_MEM_READ, IMPORT_ADDRESS_TABLE_LEN, MACHINE_I386,
};
use crate::tables::{heap_flags, lemma_tables_len, Tables, TablesError, TABLES_FIXED_LEN};

verus! {

/// The number of streams in the metadata.
pub const NUM_STREAMS: usize = 5;

/// Length in bytes of the metadata root up to the version text.
pub const ROOT_FIXED_LEN: u32 = 16;

/// Length in bytes of the stream directory of the five streams.
pub const STREAM_DIRECTORY_LEN: u32 = 76;

/// The address at which the image prefers to be loaded.
pub const IMAGE_BASE: u32 = 0x0040_0000;

/// The number of sections of an image.
pub const NUM_SECTIONS: u16 = 2;

/// The characteristics of `.text`: code that can be executed and read.
pub const TEXT_CHARACTERISTICS: u32 = IMAGE_SCN_CNT_CODE | IMAGE_SCN_MEM_EXECUTE
    | IMAGE_SCN_MEM_READ;

/// The characteristics of `.reloc`: initialised data that can be read and can
/// be discarded once the image is loaded.
pub const RELOC_CHARACTERISTICS: u32 = IMAGE_SCN_CNT_INITIALIZED_DATA
    | IMAGE_SCN_MEM_DISCARDABLE | IMAGE_SCN_MEM_READ;

/// The name `.text`, padded with zero bytes.
pub open spec fn text_name() -> [u8; 8] {
    [0x2Eu8, 0x74, 0x65, 0x78, 0x74, 0x00, 0x00, 0x00]
}

/// The name `.reloc`, padded with zero bytes.
pub open spec fn reloc_name() -> [u8; 8] {
    [0x2Eu8, 0x72, 0x65, 0x6C, 0x6F, 0x63, 0x00, 0x00]
}

/// Why an image cannot be built.
#[derive(Clone, Copy, Debug, PartialEq, Eq, Structural)]
pub enum WinmdError {
    /// The row counts disagree with the bit-vector of present tables.
    Tables(TablesError),
    /// The version text holds a character that is not ASCII, or the zero
    /// character.
    VersionNotAscii,
    /// The padded length of the version text does not fit in 32 bits.
    VersionTooLong,
    /// The heap-size flags of the tables stream disagree with the sizes of the
    /// heaps: the rows were encoded with index widths that do not fit them.
    HeapSizeMismatch,
    /// The content of `.text` does not fit in 32 bits.
    ContentTooLarge,
    /// The sections cannot be laid out.
    Layout(LayoutError),
}

/// The name of stream `i`. The order of the streams is fixed.
pub open spec fn stream_name(i: int) -> Seq<char> {
    if i == 0 {
        "#~"@
    } else if i == 1 {
        "#Strings"@
    } else if i == 2 {
        "#US"@
    } else if i == 3 {
        "#GUID"@
    } else {
        "#Blob"@
    }
}

/// `bytes`, padded with zero bytes to a multiple of four.
pub open spec fn padded(bytes: Seq<u8>) -> Seq<u8> {
    bytes + zeros(padding_to_4(bytes.len() as int) as nat)
}

/// What an image is made from: the caller's choices and the finished
/// metadata.
pub struct Image {
    pub time_date_stamp: u32,
    pub major_runtime_version: u16,
    pub minor_runtime_version: u16,
    pub flags: u32,
    pub version: Seq<char>,
    pub tables: Tables,
    pub strings: Seq<u8>,
    pub user_strings: Seq<u8>,
    pub guids: Seq<u8>,
    pub blobs: Seq<u8>,
}

/// The lengths from which the layout of an image starts.
#[derive(Clone, Copy, Debug, PartialEq, Eq, Structural)]
pub struct Measure {
    /// The length of the metadata root.
    pub root_len: u32,
    /// The length of the tables stream.
    pub tables_len: u32,
    /// The padded length of the string heap.
    pub strings_len: u32,
    /// The padded length of the user-string heap.
    pub user_strings_len: u32,
    /// The padded length of the GUID heap.
    pub guids_len: u32,
    /// The padded length of the blob heap.
    pub blobs_len: u32,
    /// The length of the metadata: the root and the five streams.
    pub metadata_len: u32,
    /// The length of the content of `.text`.
    pub text_len: u32,
}

/// The lengths of what an image is made from. Where the parts of the image
/// lie depends on these alone.
#[derive(Clone, Copy, Debug, PartialEq, Eq, Structural)]
pub struct Sizes {
    /// The number of characters of the version text.
    pub version_len: usize,
    /// The number of row counts of the tables stream.
    pub row_counts: usize,
    /// The length of the encoded rows.
    pub rows_len: usize,
    /// The length of the string heap.
    pub strings_len: usize,
    /// The length of the user-string heap.
    pub user_strings_len: usize,
    /// The length of the GUID heap.
    pub guids_len: usize,
    /// The length of the blob heap.
    pub blobs_len: usize,
}

impl Image {
    /// The body of stream `i`: the tables stream, then the four heaps, each
    /// padded to a multiple of four bytes.
    pub open spec fn stream_body(self, i: int) -> Seq<u8> {
        if i == 0 {
            self.tables.encode()
        } else if i == 1 {
            padded(self.strings)
        } else if i == 2 {
            padded(self.user_strings)
        } else if i == 3 {
            padded(self.guids)
        } else {
            padded(self.blobs)
        }
    }

    /// The bodies of the first `k` streams, one after another.
    pub open spec fn bodies(self, k: int) -> Seq<u8>
        decreases k,
    {
        if k <= 0 {
            Seq::empty()
        } else {
            self.bodies(k - 1) + self.stream_body(k - 1)
        }
    }

    /// The length of the metadata root.
    pub open spec fn root_len(self) -> int {
        ROOT_FIXED_LEN + terminated(ascii_bytes(self.version)).len() + 4 + STREAM_DIRECTORY_LEN
    }

    /// The offset of stream `i` from the start of the metadata root: the
    /// streams follow the root, each right behind the one before it.
    pub open spec fn stream_offset(self, i: int) -> int {
        self.root_len() + self.bodies(i).len()
    }

    /// The directory entry of stream `i`.
    pub open spec fn stream_entry(self, i: int) -> StreamEntry {
        StreamEntry {
            offset: self.stream_offset(i) as u32,
            size: self.stream_body(i).len() as u32,
            name: terminated(ascii_bytes(stream_name(i))),
        }
    }

    /// The stream directory.
    pub open spec fn stream_directory(self) -> Seq<StreamEntry> {
        Seq::new(NUM_STREAMS as nat, |i: int| self.stream_entry(i))
    }

    /// The bytes of the metadata root.
    pub open spec fn root(self) -> Seq<u8> {
        root_bytes(self.version, self.stream_directory())
    }

    /// The metadata: the root, then the bodies of the streams.
    pub open spec fn metadata(self) -> Seq<u8> {
        self.root() + self.bodies(NUM_STREAMS as int)
    }

    /// The length of the metadata.
    pub open spec fn metadata_len(self) -> int {
        self.root_len() + self.bodies(NUM_STREAMS as int).len()
    }
}

/// The names of the five streams, terminated and padded, take 12, 20, 12, 16
/// and 16 bytes with the entry's offset and size.
pub proof fn lemma_stream_names()
    ensures
        terminated(ascii_bytes(stream_name(0))).len() == 4,
        terminated(ascii_bytes(stream_name(1))).len() == 12,
        terminated(ascii_bytes(stream_name(2))).len() == 4,
        terminated(ascii_bytes(stream_name(3))).len() == 8,
        terminated(ascii_bytes(stream_name(4))).len() == 8,
{
    reveal_strlit("#~");
    reveal_strlit("#Strings");
    reveal_strlit("#US");
    reveal_strlit("#GUID");
    reveal_strlit("#Blob");
}

/// The directory of the five streams takes 76 bytes.
pub proof fn lemma_directory_len(image: Image)
    ensures
        encode_streams(image.stream_directory(), NUM_STREAMS as int).len()
            == STREAM_DIRECTORY_LEN,
{
    lemma_stream_names();
    reveal(StreamEntry::encode);
    let d = image.stream_directory();
    assert(d[0].encode().len() == 12);
    assert(d[1].encode().len() == 20);
    assert(d[2].encode().len() == 12);
    assert(d[3].encode().len() == 16);
    assert(d[4].encode().len() == 16);
    assert(encode_streams(d, 0).len() == 0);
    assert(encode_streams(d, 1).len() == 12);
    assert(encode_streams(d, 2).len() == 32);
    assert(encode_streams(d, 3).len() == 44);
    assert(encode_streams(d, 4).len() == 60);
}

/// The root is as long as `root_len` says, and the metadata as long as
/// `metadata_len` says.
#[verifier::rlimit(40)]
pub proof fn lemma_root_len(image: Image)
    ensures
        image.root().len() == image.root_len(),
        image.metadata().len() == image.metadata_len(),
        image.root_len() % 4 == 0,
{
    let version = terminated(ascii_bytes(image.version));
    let directory = encode_streams(image.stream_directory(), NUM_STREAMS as int);
    assert(directory.len() == 76) by {
        lemma_directory_len(image);
    }
    assert(version.len() % 4 == 0) by {
        lemma_terminated(ascii_bytes(image.version));
    }
    let opening = le_u32(METADATA_SIGNATURE) + le_u16(METADATA_MAJOR_VERSION) + le_u16(
        METADATA_MINOR_VERSION,
    ) + le_u32(0) + le_u32(version.len() as u32);
    assert(opening.len() == 16);
    let counted = le_u16(0) + le_u16(image.stream_directory().len() as u16);
    assert(counted.len() == 4);
    assert(image.stream_directory().len() == NUM_STREAMS);
    reveal(root_bytes);
    assert(image.root() =~= opening + version + counted + directory);
    assert(image.root().len() == 16 + version.len() + 4 + 76);
}

impl Image {
    /// The virtual address of `.text`, the first section.
    pub open spec fn text_rva(self) -> int {
        SECTION_ALIGNMENT as int
    }

    /// The virtual address of the import address table, with which `.text`
    /// starts.
    pub open spec fn iat_rva(self) -> int {
        self.text_rva()
    }

    /// The virtual address of the CLI header, which follows the import
    /// address table.
    pub open spec fn cli_rva(self) -> int {
        self.iat_rva() + IMPORT_ADDRESS_TABLE_LEN
    }

    /// The virtual address of the metadata root, which follows the CLI
    /// header.
    pub open spec fn metadata_rva(self) -> int {
        self.cli_rva() + CLI_HEADER_LEN
    }

    /// The virtual address of the import block, which follows the metadata.
    pub open spec fn import_rva(self) -> int {
        self.metadata_rva() + self.metadata_len()
    }

    /// The length of the content of `.text`.
    pub open spec fn text_len(self) -> int {
        IMPORT_ADDRESS_TABLE_LEN + CLI_HEADER_LEN + self.metadata_len() + import_block_len(
            self.import_rva(),
        )
    }

    /// The import address table: its entry points at the hint/name entry of
    /// the import block.
    pub open spec fn import_address_table(self) -> ImportAddressTable {
        ImportAddressTable {
            hint_name_table_rva: hint_name_rva(self.import_rva()) as u32,
            zeroed: 0,
        }
    }

    /// The CLI header: its metadata directory holds the virtual address of
    /// the metadata root and the length of the root and all streams.
    pub open spec fn cli_header(self) -> CLIHeader {
        CLIHeader {
            cb: CLI_HEADER_LEN,
            major_runtime_version: self.major_runtime_version,
            minor_runtime_version: self.minor_runtime_version,
            metadata: DataDirectory {
                virtual_address: self.metadata_rva() as u32,
                size: self.metadata_len() as u32,
            },
            flags: self.flags,
            entry_point_token: 0,
            resources: 0,
            strong_name_signature: 0,
            code_manager_table: 0,
            vtable_fixups: 0,
            export_address_table_jumps: 0,
            managed_native_header: 0,
        }
    }

    /// The content of `.text`.
    pub open spec fn text_content(self) -> Seq<u8> {
        self.import_address_table().encode() + self.cli_header().encode() + self.metadata()
            + import_block(self.import_rva(), self.iat_rva() as u32, IMAGE_BASE)
    }

    /// The content of `.reloc`: the relocation of the address in the entry
    /// stub.
    pub open spec fn reloc_content(self) -> Seq<u8> {
        relocation_block(stub_operand_rva(self.import_rva()) as u32)
    }

    /// The two sections, as the planner is asked for them.
    pub open spec fn requests(self) -> Seq<SectionRequest> {
        seq![
            SectionRequest {
                name: text_name(),
                characteristics: TEXT_CHARACTERISTICS,
                content_len: self.text_len() as u32,
            },
            SectionRequest {
                name: reloc_name(),
                characteristics: RELOC_CHARACTERISTICS,
                content_len: RELOCATION_BLOCK_LEN,
            },
        ]
    }

    /// Where the planner places section `i`.
    pub open spec fn section(self, i: int) -> PlannedSection {
        planned(
            self.requests(),
            i,
            SECTION_ALIGNMENT as int,
            FILE_ALIGNMENT as int,
            SECTION_ALIGNMENT as int,
        )
    }

    /// The size of the header region.
    pub open spec fn header_region_len(self) -> int {
        size_headers(NUM_SECTIONS as int, FILE_ALIGNMENT as int)
    }

    /// The size of the image in virtual address space.
    pub open spec fn size_image(self) -> int {
        virtual_end(
            self.requests(),
            NUM_SECTIONS as int,
            SECTION_ALIGNMENT as int,
            FILE_ALIGNMENT as int,
            SECTION_ALIGNMENT as int,
        )
    }

    /// The length of the file.
    pub open spec fn file_len(self) -> int {
        file_end(self.requests(), NUM_SECTIONS as int, FILE_ALIGNMENT as int)
    }

    /// The COFF header.
    pub open spec fn coff_header(self) -> COFFHeader {
        COFFHeader {
            machine: MACHINE_I386,
            num_sections: NUM_SECTIONS,
            time_date_stamp: self.time_date_stamp,
            pointer_to_symbol_table: 0,
            number_symbols: 0,
            size_opt_header: PE_OPT_HEADER_LEN as u16,
            characteristics: coff_characteristics(flags_require_32bit(self.flags)),
        }
    }

    /// The PE optional header. Code is what `.text` holds and initialised
    /// data what `.reloc` holds; the entry point is the entry stub; the four
    /// data directories point at the import table, the relocation block, the
    /// import address table and the CLI header.
    pub open spec fn opt_header(self) -> PEOptHeader {
        let imports = import_layout_of(self.import_rva());
        PEOptHeader {
            signature: PE_OPT_MAGIC,
            linker_version: LINKER_VERSION,
            size_code: self.section(0).size_raw_data,
            size_initialized_data: self.section(1).size_raw_data,
            size_uninitialized_data: 0,
            entry_point: imports.entry_point,
            base_code: self.section(0).virtual_address,
            base_data: self.section(1).virtual_address,
            image_base: IMAGE_BASE,
            section_alignment: SECTION_ALIGNMENT,
            file_alignment: FILE_ALIGNMENT,
            os_version: OS_VERSION,
            image_version: 0,
            subsystem_version: SUBSYSTEM_VERSION,
            win32_version_value: 0,
            size_image: self.size_image() as u32,
            size_headers: self.header_region_len() as u32,
            checksum: 0,
            subsystem: SUBSYSTEM,
            dll_characteristics: DLL_CHARACTERISTICS,
            size_stack_reserve: SIZE_STACK_RESERVE,
            size_stack_commit: SIZE_STACK_COMMIT,
            size_heap_reserve: SIZE_HEAP_RESERVE,
            size_heap_commit: SIZE_HEAP_COMMIT,
            loader_flags: 0,
            number_rva_sizes: NUMBER_RVA_SIZES,
            import_table: DataDirectory {
                virtual_address: imports.directory,
                size: imports.table_size,
            },
            base_relocation_table: DataDirectory {
                virtual_address: self.section(1).virtual_address,
                size: RELOCATION_BLOCK_LEN,
            },
            import_address_table: DataDirectory {
                virtual_address: self.iat_rva() as u32,
                size: IMPORT_ADDRESS_TABLE_LEN,
            },
            cli_header: DataDirectory {
                virtual_address: self.cli_rva() as u32,
                size: CLI_HEADER_LEN,
            },
        }
    }

    /// All headers, unpadded: the DOS stub, the PE signature, the COFF
    /// header, the optional header and the two section headers.
    pub open spec fn headers(self) -> Seq<u8> {
        dos_stub() + pe_signature() + self.coff_header().encode() + self.opt_header().encode()
            + ImageSectionHeader::of_planned(self.section(0)).encode()
            + ImageSectionHeader::of_planned(self.section(1)).encode()
    }

    /// The header region: the headers, padded with zero bytes to the file
    /// alignment.
    pub open spec fn header_region(self) -> Seq<u8> {
        self.headers() + zeros((self.header_region_len() - self.headers().len()) as nat)
    }

    /// The file region of `.text`: its content, padded with zero bytes.
    pub open spec fn text_region(self) -> Seq<u8> {
        self.text_content() + zeros((self.section(0).size_raw_data - self.text_len()) as nat)
    }

    /// The file region of `.reloc`: its content, padded with zero bytes.
    pub open spec fn reloc_region(self) -> Seq<u8> {
        self.reloc_content() + zeros(
            (self.section(1).size_raw_data - RELOCATION_BLOCK_LEN) as nat,
        )
    }

    /// The bytes of the file: the header region, then the region of each
    /// section.
    pub open spec fn bytes(self) -> Seq<u8> {
        self.header_region() + self.text_region() + self.reloc_region()
    }

    /// The reason for which the image cannot be built, if there is one. The
    /// reasons are tried in the order in which `WinmdError` lists them.
    pub open spec fn error(self) -> Option<WinmdError> {
        if let Some(e) = Tables::error_of(self.tables.valid, self.tables.row_counts) {
            Some(WinmdError::Tables(e))
        } else if !is_plain_ascii(self.version) {
            Some(WinmdError::VersionNotAscii)
        } else if self.version.len() > MAX_VERSION_LEN {
            Some(WinmdError::VersionTooLong)
        } else if self.tables.heap_sizes != heap_flags(
            self.strings.len() as int,
            self.guids.len() as int,
            self.blobs.len() as int,
        ) {
            Some(WinmdError::HeapSizeMismatch)
        } else if self.text_len() > u32::MAX {
            Some(WinmdError::ContentTooLarge)
        } else {
            match layout_error(
                self.requests(),
                SECTION_ALIGNMENT as int,
                FILE_ALIGNMENT as int,
                SECTION_ALIGNMENT as int,
            ) {
                Some(e) => Some(WinmdError::Layout(e)),
                None => None,
            }
        }
    }

    /// The image can be built: nothing stands against it.
    pub open spec fn wf(self) -> bool {
        self.error() is None
    }
}

impl Image {
    /// The lengths of the image's parts.
    pub open spec fn measure(self) -> Measure {
        Measure {
            root_len: self.root_len() as u32,
            tables_len: self.stream_body(0).len() as u32,
            strings_len: self.stream_body(1).len() as u32,
            user_strings_len: self.stream_body(2).len() as u32,
            guids_len: self.stream_body(3).len() as u32,
            blobs_len: self.stream_body(4).len() as u32,
            metadata_len: self.metadata_len() as u32,
            text_len: self.text_len() as u32,
        }
    }
}

/// The length of each stream's body: the tables stream and the four heaps,
/// each padded to a multiple of four bytes.
pub proof fn lemma_body_lens(image: Image)
    ensures
        image.stream_body(0).len() == padded_len(
            TABLES_FIXED_LEN + 4 * image.tables.row_counts.len() + image.tables.rows.len(),
        ),
        image.stream_body(1).len() == padded_len(image.strings.len() as int),
        image.stream_body(2).len() == padded_len(image.user_strings.len() as int),
        image.stream_body(3).len() == padded_len(image.guids.len() as int),
        image.stream_body(4).len() == padded_len(image.blobs.len() as int),
        forall|i: int| 0 <= i < NUM_STREAMS ==> (#[trigger] image.stream_body(i)).len() % 4 == 0,
{
    assert(image.stream_body(0).len() == padded_len(
        TABLES_FIXED_LEN + 4 * image.tables.row_counts.len() + image.tables.rows.len(),
    ) && image.stream_body(0).len() % 4 == 0) by {
        lemma_tables_len(image.tables);
        lemma_padding_to_4(image.tables.encode_unpadded().len() as int);
    }
    assert(image.stream_body(1).len() == padded_len(image.strings.len() as int)
        && image.stream_body(1).len() % 4 == 0) by {
        lemma_padded_zeros(image.strings);
        lemma_padding_to_4(image.strings.len() as int);
    }
    assert(image.stream_body(2).len() == padded_len(image.user_strings.len() as int)
        && image.stream_body(2).len() % 4 == 0) by {
        lemma_padded_zeros(image.user_strings);
        lemma_padding_to_4(image.user_strings.len() as int);
    }
    assert(image.stream_body(3).len() == padded_len(image.guids.len() as int)
        && image.stream_body(3).len() % 4 == 0) by {
        lemma_padded_zeros(image.guids);
        lemma_padding_to_4(image.guids.len() as int);
    }
    assert(image.stream_body(4).len() == padded_len(image.blobs.len() as int)
        && image.stream_body(4).len() % 4 == 0) by {
        lemma_padded_zeros(image.blobs);
        lemma_padding_to_4(image.blobs.len() as int);
    }
}

/// The bodies of the first `k` streams are together as long as the sum of
/// their lengths, which is a multiple of four.
#[verifier::rlimit(40)]
pub proof fn lemma_bodies_len(image: Image, k: int)
    requires
        0 <= k <= NUM_STREAMS,
    ensures
        k == 0 ==> image.bodies(k).len() == 0,
        k > 0 ==> image.bodies(k).len() == image.bodies(k - 1).len() + image.stream_body(
            k - 1,
        ).len(),
        image.bodies(k).len() % 4 == 0,
    decreases k,
{
    if k > 0 {
        lemma_bodies_len(image, k - 1);
        lemma_body_lens(image);
        assert(image.stream_body(k - 1).len() % 4 == 0);
    }
}

/// The lengths of the parts of an image, written out: what `measure` holds,
/// from the lengths of the version text, the tables and the heaps.
#[verifier::rlimit(40)]
pub proof fn lemma_measure(image: Image)
    ensures
        image.root_len() == ROOT_FIXED_LEN + image.version.len() + (4 - image.version.len() % 4)
            + 4 + STREAM_DIRECTORY_LEN,
        image.stream_body(0).len() == padded_len(
            TABLES_FIXED_LEN + 4 * image.tables.row_counts.len() + image.tables.rows.len(),
        ),
        image.stream_body(1).len() == padded_len(image.strings.len() as int),
        image.stream_body(2).len() == padded_len(image.user_strings.len() as int),
        image.stream_body(3).len() == padded_len(image.guids.len() as int),
        image.stream_body(4).len() == padded_len(image.blobs.len() as int),
        image.metadata_len() == image.root_len() + image.stream_body(0).len()
            + image.stream_body(1).len() + image.stream_body(2).len() + image.stream_body(
            3,
        ).len() + image.stream_body(4).len(),
        image.import_rva() == SECTION_ALIGNMENT + IMPORT_ADDRESS_TABLE_LEN + CLI_HEADER_LEN
            + image.metadata_len(),
        image.text_len() == IMPORT_ADDRESS_TABLE_LEN + CLI_HEADER_LEN + image.metadata_len()
            + import_block_len(image.import_rva()),
        image.metadata_len() % 4 == 0,
{
    lemma_body_lens(image);
    assert(image.root_len() == ROOT_FIXED_LEN + image.version.len() + (4 - image.version.len()
        % 4) + 4 + STREAM_DIRECTORY_LEN && image.root_len() % 4 == 0) by {
        lemma_terminated(ascii_bytes(image.version));
    }
    lemma_bodies_len(image, 0);
    lemma_bodies_len(image, 1);
    lemma_bodies_len(image, 2);
    lemma_bodies_len(image, 3);
    lemma_bodies_len(image, 4);
    lemma_bodies_len(image, 5);
}

/// Where the parts of an image that can be built lie. The header region is
/// one file-alignment unit; `.text` follows it in the file and starts at the
/// section alignment in virtual address space; `.reloc` follows `.text` in
/// both; and every address of the image fits in 32 bits.
#[verifier::rlimit(40)]
pub proof fn lemma_layout_facts(image: Image)
    requires
        image.wf(),
    ensures
        image.text_rva() == SECTION_ALIGNMENT,
        image.header_region_len() == FILE_ALIGNMENT,
        0 < image.text_len() <= u32::MAX,
        image.section(0).virtual_size == image.text_len(),
        image.section(0).virtual_address == image.text_rva(),
        image.section(0).pointer_raw_data == image.header_region_len(),
        image.section(0).size_raw_data == raw_size(image.text_len(), FILE_ALIGNMENT as int),
        image.section(0).size_raw_data >= image.text_len(),
        image.section(1).virtual_size == RELOCATION_BLOCK_LEN,
        image.section(1).virtual_address >= image.text_rva() + image.section(0).size_raw_data,
        image.section(1).virtual_address % SECTION_ALIGNMENT == 0,
        image.section(1).pointer_raw_data == image.header_region_len() + image.section(
            0,
        ).size_raw_data,
        image.section(1).size_raw_data == FILE_ALIGNMENT,
        image.file_len() == image.header_region_len() + image.section(0).size_raw_data
            + image.section(1).size_raw_data,
        image.file_len() <= u32::MAX,
        image.section(1).virtual_address + image.section(1).size_raw_data <= image.size_image()
            <= u32::MAX,
        image.import_rva() + IMPORT_BLOCK_MAX_LEN <= u32::MAX,
        IMAGE_BASE + image.iat_rva() <= u32::MAX,
{
    let reqs = image.requests();
    let sa = SECTION_ALIGNMENT as int;
    let fa = FILE_ALIGNMENT as int;
    lemma_measure(image);
    lemma_import_layout(image.import_rva());
    assert(reqs.len() == 2);
    assert(reqs[0].content_len == image.text_len());
    assert(reqs[1].content_len == RELOCATION_BLOCK_LEN);
    lemma_layout_aligned(reqs, 1, sa, fa, sa);
    lemma_layout_increasing(reqs, 0, 1, sa, fa, sa);
    lemma_layout_increasing(reqs, 1, 2, sa, fa, sa);
    lemma_layout_increasing(reqs, 0, 2, sa, fa, sa);
    lemma_raw_size(image.text_len(), fa);
    lemma_raw_size(RELOCATION_BLOCK_LEN as int, fa);
    lemma_align_up(headers_len(2), fa);
    lemma_align_up(sa, sa);
    assert(file_end(reqs, 0, fa) == size_headers(2, fa));
    assert(virtual_end(reqs, 0, sa, fa, sa) == sa);
}

impl Sizes {
    /// The length of the metadata root.
    pub open spec fn root_len(self) -> int {
        ROOT_FIXED_LEN + self.version_len + (4 - self.version_len % 4) + 4
            + STREAM_DIRECTORY_LEN
    }

    /// The length of the tables stream.
    pub open spec fn tables_len(self) -> int {
        padded_len(TABLES_FIXED_LEN + 4 * self.row_counts + self.rows_len)
    }

    /// The length of the metadata: the root and the five streams, each
    /// stream padded to a multiple of four bytes.
    pub open spec fn metadata_len(self) -> int {
        self.root_len() + self.tables_len() + padded_len(self.strings_len as int) + padded_len(
            self.user_strings_len as int,
        ) + padded_len(self.guids_len as int) + padded_len(self.blobs_len as int)
    }

    /// The virtual address of the import block.
    pub open spec fn import_rva(self) -> int {
        SECTION_ALIGNMENT + IMPORT_ADDRESS_TABLE_LEN + CLI_HEADER_LEN + self.metadata_len()
    }

    /// The length of the content of `.text`.
    pub open spec fn text_len(self) -> int {
        IMPORT_ADDRESS_TABLE_LEN + CLI_HEADER_LEN + self.metadata_len() + import_block_len(
            self.import_rva(),
        )
    }

    /// The lengths of the image's parts.
    pub open spec fn measure(self) -> Measure {
        Measure {
            root_len: self.root_len() as u32,
            tables_len: self.tables_len() as u32,
            strings_len: padded_len(self.strings_len as int) as u32,
            user_strings_len: padded_len(self.user_strings_len as int) as u32,
            guids_len: padded_len(self.guids_len as int) as u32,
            blobs_len: padded_len(self.blobs_len as int) as u32,
            metadata_len: self.metadata_len() as u32,
            text_len: self.text_len() as u32,
        }
    }

    /// The two sections, as the planner is asked for them.
    pub open spec fn requests(self) -> Seq<SectionRequest> {
        seq![
            SectionRequest {
                name: text_name(),
                characteristics: TEXT_CHARACTERISTICS,
                content_len: self.text_len() as u32,
            },
            SectionRequest {
                name: reloc_name(),
                characteristics: RELOC_CHARACTERISTICS,
                content_len: RELOCATION_BLOCK_LEN,
            },
        ]
    }

    /// The reason for which no image has parts of these lengths and tables
    /// with these heap-size flags, if there is one.
    pub open spec fn error(self, heap_sizes: u8) -> Option<WinmdError> {
        if self.version_len > MAX_VERSION_LEN {
            Some(WinmdError::VersionTooLong)
        } else if heap_sizes != heap_flags(
            self.strings_len as int,
            self.guids_len as int,
            self.blobs_len as int,
        ) {
            Some(WinmdError::HeapSizeMismatch)
        } else if self.text_len() > u32::MAX {
            Some(WinmdError::ContentTooLarge)
        } else {
            match layout_error(
                self.requests(),
                SECTION_ALIGNMENT as int,
                FILE_ALIGNMENT as int,
                SECTION_ALIGNMENT as int,
            ) {
                Some(e) => Some(WinmdError::Layout(e)),
                None => None,
            }
        }
    }
}

impl Image {
    /// Every part of the image has a length that a machine can hold.
    pub open spec fn fits(self) -> bool {
        &&& self.version.len() <= usize::MAX
        &&& self.tables.row_counts.len() <= usize::MAX
        &&& self.tables.rows.len() <= usize::MAX
        &&& self.strings.len() <= usize::MAX
        &&& self.user_strings.len() <= usize::MAX
        &&& self.guids.len() <= usize::MAX
        &&& self.blobs.len() <= usize::MAX
    }

    /// The lengths of what the image is made from.
    pub open spec fn sizes(self) -> Sizes {
        Sizes {
            version_len: self.version.len() as usize,
            row_counts: self.tables.row_counts.len() as usize,
            rows_len: self.tables.rows.len() as usize,
            strings_len: self.strings.len() as usize,
            user_strings_len: self.user_strings.len() as usize,
            guids_len: self.guids.len() as usize,
            blobs_len: self.blobs.len() as usize,
        }
    }
}

/// The layout of an image follows from the lengths of its parts: what the
/// lengths give is what the parts themselves give.
pub proof fn lemma_sizes(image: Image)
    requires
        image.fits(),
    ensures
        image.sizes().root_len() == image.root_len(),
        image.sizes().metadata_len() == image.metadata_len(),
        image.sizes().import_rva() == image.import_rva(),
        image.sizes().text_len() == image.text_len(),
        image.sizes().measure() == image.measure(),
        image.sizes().requests() == image.requests(),
        image.error() == if let Some(e) = Tables::error_of(
            image.tables.valid,
            image.tables.row_counts,
        ) {
            Some(WinmdError::Tables(e))
        } else if !is_plain_ascii(image.version) {
            Some(WinmdError::VersionNotAscii)
        } else {
            image.sizes().error(image.tables.heap_sizes)
        },
{
    lemma_measure(image);
}

} // verus!
