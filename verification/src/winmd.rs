//! The writer: it takes the finished metadata and the caller's choices, and
//! gives the bytes of the `.winmd` file.
use vstd::prelude::*;
use crate::cli::{
    requires_32bit, CLIHeader, CLI_HEADER_LEN, COMIMAGE_FLAGS_ILONLY,
    DEFAULT_MAJOR_RUNTIME_VERSION, DEFAULT_MINOR_RUNTIME_VERSION,
};
use crate::codec::{
    ascii_bytes, is_plain_ascii, is_plain_ascii_text, lemma_padding_to_4, padded_size,
    put_bytes, put_padded, put_zeros, terminated,
};
use crate::dos::{dos_stub_bytes, pe_signature_bytes};
use crate::image::{
    lemma_bodies_len, lemma_layout_facts, lemma_measure, lemma_root_len, lemma_sizes,
    reloc_name, stream_name, text_name, Image, Measure, Sizes, WinmdError, IMAGE_BASE,
    NUM_SECTIONS, NUM_STREAMS, RELOC_CHARACTERISTICS, ROOT_FIXED_LEN, STREAM_DIRECTORY_LEN,
    TEXT_CHARACTERISTICS,
};
use crate::imports::{
    import_block_bytes, import_block_len, import_block_size, import_layout,
    lemma_import_layout, relocation_block_bytes, ImportLayout, IMPORT_BLOCK_MAX_LEN,
    RELOCATION_BLOCK_LEN,
};
use crate::layout::{plan_sections, Layout, PlannedSection, SectionRequest};
use crate::metadata::{stream_entries, write_root, StreamEntry, StreamHeader, MAX_VERSION_LEN};
use crate::optional_header::{PEOptHeader, FILE_ALIGNMENT, SECTION_ALIGNMENT};
use crate::pe::{
    COFFHeader, DataDirectory, ImageSectionHeader, ImportAddressTable, IMPORT_ADDRESS_TABLE_LEN,
};
use crate::tables::{heap_size_flags, TildeStream, TABLES_FIXED_LEN};

verus! {

/// What the caller chooses: everything else in the image is derived.
#[derive(Debug)]
pub struct Options {
    /// The time stamp of the COFF header. The writer never reads a clock.
    pub time_date_stamp: u32,
    pub major_runtime_version: u16,
    pub minor_runtime_version: u16,
    /// The flags of the CLI header.
    pub flags: u32,
    /// The version text of the metadata root.
    pub version: String,
}

impl Options {
    /// The usual choices: runtime version 2.5, managed code only, and the
    /// version text `WindowsRuntime 1.2`.
    pub fn new(time_date_stamp: u32) -> (options: Options)
        ensures
            options.time_date_stamp == time_date_stamp,
            options.major_runtime_version == DEFAULT_MAJOR_RUNTIME_VERSION,
            options.minor_runtime_version == DEFAULT_MINOR_RUNTIME_VERSION,
            options.flags == COMIMAGE_FLAGS_ILONLY,
            options.version@ == "WindowsRuntime 1.2"@,
    {
        Options {
            time_date_stamp,
            major_runtime_version: DEFAULT_MAJOR_RUNTIME_VERSION,
            minor_runtime_version: DEFAULT_MINOR_RUNTIME_VERSION,
            flags: COMIMAGE_FLAGS_ILONLY,
            version: "WindowsRuntime 1.2".to_owned(),
        }
    }
}

/// A Windows Metadata image that is ready to be written.
#[derive(Debug)]
pub struct Winmd {
    pub options: Options,
    /// The tables stream `#~`.
    pub tables: TildeStream,
    /// The heap `#Strings`.
    pub strings: Vec<u8>,
    /// The heap `#US`.
    pub user_strings: Vec<u8>,
    /// The heap `#GUID`.
    pub guids: Vec<u8>,
    /// The heap `#Blob`.
    pub blobs: Vec<u8>,
}

impl View for Winmd {
    type V = Image;

    open spec fn view(&self) -> Image {
        Image {
            time_date_stamp: self.options.time_date_stamp,
            major_runtime_version: self.options.major_runtime_version,
            minor_runtime_version: self.options.minor_runtime_version,
            flags: self.options.flags,
            version: self.options.version@,
            tables: self.tables@,
            strings: self.strings@,
            user_strings: self.user_strings@,
            guids: self.guids@,
            blobs: self.blobs@,
        }
    }
}

impl Sizes {
    /// Measures the parts of an image from the lengths of what it is made
    /// from, if the content of `.text` fits in 32 bits.
    #[verifier::rlimit(40)]
    pub fn measured(&self) -> (r: Option<Measure>)
        ensures
            match r {
                Some(m) => m == self.measure() && self.text_len() <= u32::MAX,
                None => self.text_len() > u32::MAX,
            },
    {
        let limit: usize = u32::MAX as usize;
        if self.version_len > limit || self.row_counts > limit || self.rows_len > limit
            || self.strings_len > limit || self.user_strings_len > limit || self.guids_len > limit
            || self.blobs_len > limit {
            proof {
                lemma_padding_to_4(TABLES_FIXED_LEN + 4 * self.row_counts + self.rows_len);
                lemma_padding_to_4(self.strings_len as int);
                lemma_padding_to_4(self.user_strings_len as int);
                lemma_padding_to_4(self.guids_len as int);
                lemma_padding_to_4(self.blobs_len as int);
                lemma_import_layout(self.import_rva());
            }
            return None;
        }
        let root_len: u64 = (ROOT_FIXED_LEN as u64) + (self.version_len as u64) + (4 - (
        self.version_len % 4) as u64) + 4 + (STREAM_DIRECTORY_LEN as u64);
        let tables_len: u64 = padded_size(
            (TABLES_FIXED_LEN as u64) + 4 * (self.row_counts as u64) + (self.rows_len as u64),
        );
        let strings_len: u64 = padded_size(self.strings_len as u64);
        let user_strings_len: u64 = padded_size(self.user_strings_len as u64);
        let guids_len: u64 = padded_size(self.guids_len as u64);
        let blobs_len: u64 = padded_size(self.blobs_len as u64);
        let metadata_len: u64 = root_len + tables_len + strings_len + user_strings_len + guids_len
            + blobs_len;
        let import_rva: u64 = (SECTION_ALIGNMENT as u64) + (IMPORT_ADDRESS_TABLE_LEN as u64)
            + (CLI_HEADER_LEN as u64) + metadata_len;
        let text_len: u64 = (IMPORT_ADDRESS_TABLE_LEN as u64) + (CLI_HEADER_LEN as u64)
            + metadata_len + import_block_size(import_rva);
        if text_len > u32::MAX as u64 {
            return None;
        }
        Some(
            Measure {
                root_len: root_len as u32,
                tables_len: tables_len as u32,
                strings_len: strings_len as u32,
                user_strings_len: user_strings_len as u32,
                guids_len: guids_len as u32,
                blobs_len: blobs_len as u32,
                metadata_len: metadata_len as u32,
                text_len: text_len as u32,
            },
        )
    }

    /// Measures the parts of an image and lays out its sections, from the
    /// lengths of what the image is made from and the heap-size flags of its
    /// tables stream.
    pub fn plan(&self, heap_sizes: u8) -> (r: Result<(Measure, Layout), WinmdError>)
        ensures
            match r {
                Ok((measure, layout)) => {
                    &&& self.error(heap_sizes) is None
                    &&& measure == self.measure()
                    &&& layout.is_plan_of(
                        self.requests(),
                        SECTION_ALIGNMENT as int,
                        FILE_ALIGNMENT as int,
                        SECTION_ALIGNMENT as int,
                    )
                },
                Err(e) => self.error(heap_sizes) == Some(e),
            },
    {
        if self.version_len > MAX_VERSION_LEN {
            return Err(WinmdError::VersionTooLong);
        }
        let flags: u8 = heap_size_flags(self.strings_len, self.guids_len, self.blobs_len);
        if heap_sizes != flags {
            return Err(WinmdError::HeapSizeMismatch);
        }
        let measure: Measure = match self.measured() {
            Some(measure) => measure,
            None => {
                return Err(WinmdError::ContentTooLarge);
            },
        };
        let mut requests: Vec<SectionRequest> = Vec::new();
        requests.push(
            SectionRequest {
                name: text_name_bytes(),
                characteristics: TEXT_CHARACTERISTICS,
                content_len: measure.text_len,
            },
        );
        requests.push(
            SectionRequest {
                name: reloc_name_bytes(),
                characteristics: RELOC_CHARACTERISTICS,
                content_len: RELOCATION_BLOCK_LEN,
            },
        );
        assert(requests@ =~= self.requests());
        match plan_sections(&requests, SECTION_ALIGNMENT, FILE_ALIGNMENT, SECTION_ALIGNMENT) {
            Ok(layout) => Ok((measure, layout)),
            Err(e) => Err(WinmdError::Layout(e)),
        }
    }
}

impl Winmd {
    /// The lengths of what the image is made from.
    pub fn sizes(&self) -> (sizes: Sizes)
        requires
            is_plain_ascii(self@.version),
        ensures
            self@.fits(),
            sizes == self@.sizes(),
    {
        let text: &str = self.options.version.as_str();
        proof {
            vstd::string::is_ascii_spec_bytes(text);
        }
        Sizes {
            version_len: text.as_bytes().len(),
            row_counts: self.tables.row_counts.len(),
            rows_len: self.tables.rows.len(),
            strings_len: self.strings.len(),
            user_strings_len: self.user_strings.len(),
            guids_len: self.guids.len(),
            blobs_len: self.blobs.len(),
        }
    }
}

/// The name `.text`, padded with zero bytes.
pub fn text_name_bytes() -> (name: [u8; 8])
    ensures
        name == text_name(),
{
    let name: [u8; 8] = [0x2Eu8, 0x74, 0x65, 0x78, 0x74, 0x00, 0x00, 0x00];
    assert(name =~= text_name());
    name
}

/// The name `.reloc`, padded with zero bytes.
pub fn reloc_name_bytes() -> (name: [u8; 8])
    ensures
        name == reloc_name(),
{
    let name: [u8; 8] = [0x2Eu8, 0x72, 0x65, 0x6C, 0x6F, 0x63, 0x00, 0x00];
    assert(name =~= reloc_name());
    name
}

impl Winmd {
    /// Checks the image's parts, measures them and lays out its sections.
    pub fn plan(&self) -> (r: Result<(Measure, Layout), WinmdError>)
        ensures
            match r {
                Ok((measure, layout)) => {
                    &&& self@.error() is None
                    &&& measure == self@.measure()
                    &&& layout.is_plan_of(
                        self@.requests(),
                        SECTION_ALIGNMENT as int,
                        FILE_ALIGNMENT as int,
                        SECTION_ALIGNMENT as int,
                    )
                },
                Err(e) => self@.error() == Some(e),
            },
    {
        match self.tables.check() {
            Ok(()) => {},
            Err(e) => {
                return Err(WinmdError::Tables(e));
            },
        }
        if !is_plain_ascii_text(self.options.version.as_str()) {
            return Err(WinmdError::VersionNotAscii);
        }
        let sizes: Sizes = self.sizes();
        proof {
            lemma_sizes(self@);
        }
        sizes.plan(self.tables.heap_sizes)
    }

    /// An image of the given metadata, if one can be built.
    pub fn new(
        options: Options,
        tables: TildeStream,
        strings: Vec<u8>,
        user_strings: Vec<u8>,
        guids: Vec<u8>,
        blobs: Vec<u8>,
    ) -> (r: Result<Winmd, WinmdError>)
        ensures
            match r {
                Ok(winmd) => {
                    &&& winmd.options == options
                    &&& winmd.tables == tables
                    &&& winmd.strings == strings
                    &&& winmd.user_strings == user_strings
                    &&& winmd.guids == guids
                    &&& winmd.blobs == blobs
                    &&& winmd@.wf()
                },
                Err(e) => (Winmd { options, tables, strings, user_strings, guids, blobs })@.error()
                    == Some(e),
            },
    {
        let winmd = Winmd { options, tables, strings, user_strings, guids, blobs };
        match winmd.plan() {
            Ok(_) => Ok(winmd),
            Err(e) => Err(e),
        }
    }
}

/// The directory entry of a stream with one of the five fixed names.
fn stream_header(offset: u32, size: u32, index: usize) -> (h: StreamHeader)
    requires
        index < NUM_STREAMS,
    ensures
        h@ == (StreamEntry {
            offset,
            size,
            name: terminated(ascii_bytes(stream_name(index as int))),
        }),
{
    proof {
        reveal_strlit("#~");
        reveal_strlit("#Strings");
        reveal_strlit("#US");
        reveal_strlit("#GUID");
        reveal_strlit("#Blob");
    }
    let name: &str = if index == 0 {
        "#~"
    } else if index == 1 {
        "#Strings"
    } else if index == 2 {
        "#US"
    } else if index == 3 {
        "#GUID"
    } else {
        "#Blob"
    };
    StreamHeader::new(offset, size, name.to_owned())
}

impl Winmd {
    /// Builds the metadata: the root with its stream directory, then the
    /// body of each stream.
    pub fn metadata_bytes(&self, measure: &Measure) -> (bytes: Vec<u8>)
        requires
            self@.wf(),
            *measure == self@.measure(),
        ensures
            bytes@ == self@.metadata(),
    {
        proof {
            lemma_measure(self@);
            lemma_bodies_len(self@, 0);
            lemma_bodies_len(self@, 1);
            lemma_bodies_len(self@, 2);
            lemma_bodies_len(self@, 3);
            lemma_bodies_len(self@, 4);
            lemma_import_layout(self@.import_rva());
        }
        let tables_at: u32 = measure.root_len;
        let strings_at: u32 = tables_at + measure.tables_len;
        let user_strings_at: u32 = strings_at + measure.strings_len;
        let guids_at: u32 = user_strings_at + measure.user_strings_len;
        let blobs_at: u32 = guids_at + measure.guids_len;
        let mut streams: Vec<StreamHeader> = Vec::new();
        streams.push(stream_header(tables_at, measure.tables_len, 0));
        streams.push(stream_header(strings_at, measure.strings_len, 1));
        streams.push(stream_header(user_strings_at, measure.user_strings_len, 2));
        streams.push(stream_header(guids_at, measure.guids_len, 3));
        streams.push(stream_header(blobs_at, measure.blobs_len, 4));
        assert(stream_entries(streams@) =~= self@.stream_directory());
        let mut bytes: Vec<u8> = Vec::new();
        write_root(&mut bytes, self.options.version.as_str(), &streams);
        assert(bytes@ =~= self@.root());
        let ghost root = bytes@;
        let tables: Vec<u8> = self.tables.to_bytes();
        put_bytes(&mut bytes, tables.as_slice());
        assert(bytes@ =~= root + self@.bodies(1));
        put_padded(&mut bytes, self.strings.as_slice());
        assert(bytes@ =~= root + self@.bodies(2));
        put_padded(&mut bytes, self.user_strings.as_slice());
        assert(bytes@ =~= root + self@.bodies(3));
        put_padded(&mut bytes, self.guids.as_slice());
        assert(bytes@ =~= root + self@.bodies(4));
        put_padded(&mut bytes, self.blobs.as_slice());
        assert(bytes@ =~= root + self@.bodies(5));
        bytes
    }
}

impl Winmd {
    /// Builds the content of `.text`: the import address table, the CLI
    /// header, the metadata and the import block.
    #[verifier::rlimit(40)]
    pub fn text_bytes(&self, measure: &Measure) -> (bytes: Vec<u8>)
        requires
            self@.wf(),
            *measure == self@.measure(),
        ensures
            bytes@ == self@.text_content(),
            bytes@.len() == self@.text_len(),
    {
        let iat_rva: u32 = SECTION_ALIGNMENT;
        let metadata_rva: u32 = iat_rva + IMPORT_ADDRESS_TABLE_LEN + CLI_HEADER_LEN;
        assert(0 <= self@.metadata_len() == measure.metadata_len && self@.import_rva()
            == metadata_rva + measure.metadata_len && self@.import_rva() + IMPORT_BLOCK_MAX_LEN
            <= u32::MAX && self@.text_len() == IMPORT_ADDRESS_TABLE_LEN + CLI_HEADER_LEN
            + self@.metadata_len() + import_block_len(self@.import_rva())) by {
            lemma_measure(self@);
            lemma_layout_facts(self@);
            lemma_import_layout(self@.import_rva());
        }
        assert(self@.metadata().len() == self@.metadata_len()) by {
            lemma_root_len(self@);
        }
        let import_rva: u32 = metadata_rva + measure.metadata_len;
        let imports: ImportLayout = import_layout(import_rva);
        let table: ImportAddressTable = ImportAddressTable::new(imports.hint_name);
        let header: CLIHeader = CLIHeader::new(
            self.options.major_runtime_version,
            self.options.minor_runtime_version,
            DataDirectory::new(metadata_rva, measure.metadata_len),
            self.options.flags,
        );
        assert(table == self@.import_address_table());
        assert(header == self@.cli_header());
        let mut bytes: Vec<u8> = table.to_bytes();
        let header_bytes: Vec<u8> = header.to_bytes();
        put_bytes(&mut bytes, header_bytes.as_slice());
        let metadata: Vec<u8> = self.metadata_bytes(measure);
        put_bytes(&mut bytes, metadata.as_slice());
        let block: Vec<u8> = import_block_bytes(import_rva, iat_rva, IMAGE_BASE);
        put_bytes(&mut bytes, block.as_slice());
        bytes
    }

    /// Builds the PE optional header from the planner's layout.
    pub fn optional_header(&self, measure: &Measure, layout: &Layout) -> (h: PEOptHeader)
        requires
            self@.wf(),
            *measure == self@.measure(),
            layout.is_plan_of(
                self@.requests(),
                SECTION_ALIGNMENT as int,
                FILE_ALIGNMENT as int,
                SECTION_ALIGNMENT as int,
            ),
        ensures
            h == self@.opt_header(),
    {
        proof {
            lemma_measure(self@);
            lemma_layout_facts(self@);
            lemma_import_layout(self@.import_rva());
        }
        let text: PlannedSection = layout.sections[0];
        let reloc: PlannedSection = layout.sections[1];
        assert(text == self@.section(0));
        assert(reloc == self@.section(1));
        let iat_rva: u32 = SECTION_ALIGNMENT;
        let cli_rva: u32 = iat_rva + IMPORT_ADDRESS_TABLE_LEN;
        let import_rva: u32 = cli_rva + CLI_HEADER_LEN + measure.metadata_len;
        let imports: ImportLayout = import_layout(import_rva);
        PEOptHeader::new(
            text.size_raw_data,
            reloc.size_raw_data,
            imports.entry_point,
            text.virtual_address,
            reloc.virtual_address,
            IMAGE_BASE,
            layout.size_image,
            layout.size_headers,
            DataDirectory::new(imports.directory, imports.table_size),
            DataDirectory::new(reloc.virtual_address, RELOCATION_BLOCK_LEN),
            DataDirectory::new(iat_rva, IMPORT_ADDRESS_TABLE_LEN),
            DataDirectory::new(cli_rva, CLI_HEADER_LEN),
        )
    }

    /// Builds the header region: the DOS stub, the PE signature, the COFF
    /// header, the optional header and the section headers, padded to the
    /// size that the planner gave the region.
    #[verifier::rlimit(40)]
    pub fn header_bytes(&self, measure: &Measure, layout: &Layout) -> (bytes: Vec<u8>)
        requires
            self@.wf(),
            *measure == self@.measure(),
            layout.is_plan_of(
                self@.requests(),
                SECTION_ALIGNMENT as int,
                FILE_ALIGNMENT as int,
                SECTION_ALIGNMENT as int,
            ),
        ensures
            bytes@ == self@.header_region(),
            bytes@.len() == self@.header_region_len(),
    {
        let text: PlannedSection = layout.sections[0];
        let reloc: PlannedSection = layout.sections[1];
        assert(text == self@.section(0));
        assert(reloc == self@.section(1));
        let coff: COFFHeader = COFFHeader::new(
            NUM_SECTIONS,
            self.options.time_date_stamp,
            requires_32bit(self.options.flags),
        );
        let optional: PEOptHeader = self.optional_header(measure, layout);
        let mut bytes: Vec<u8> = dos_stub_bytes();
        let signature: Vec<u8> = pe_signature_bytes();
        put_bytes(&mut bytes, signature.as_slice());
        let coff_bytes: Vec<u8> = coff.to_bytes();
        put_bytes(&mut bytes, coff_bytes.as_slice());
        let optional_bytes: Vec<u8> = optional.to_bytes();
        put_bytes(&mut bytes, optional_bytes.as_slice());
        let text_header: Vec<u8> = ImageSectionHeader::from_planned(&text).to_bytes();
        put_bytes(&mut bytes, text_header.as_slice());
        let reloc_header: Vec<u8> = ImageSectionHeader::from_planned(&reloc).to_bytes();
        put_bytes(&mut bytes, reloc_header.as_slice());
        assert(bytes@ =~= self@.headers());
        assert(bytes@.len() == 456);
        proof {
            lemma_layout_facts(self@);
        }
        let unpadded: usize = bytes.len();
        put_zeros(&mut bytes, layout.size_headers as usize - unpadded);
        bytes
    }

    /// Serialises the image: the header region, then the file region of each
    /// section, each padded with zero bytes to the file alignment.
    pub fn to_bytes(&self) -> (bytes: Vec<u8>)
        requires
            self@.wf(),
        ensures
            bytes@ == self@.bytes(),
            bytes@.len() == self@.file_len(),
    {
        proof {
            lemma_measure(self@);
            lemma_layout_facts(self@);
            lemma_import_layout(self@.import_rva());
        }
        let (measure, layout) = match self.plan() {
            Ok(planned) => planned,
            Err(_) => unreached(),
        };
        let text: PlannedSection = layout.sections[0];
        let reloc: PlannedSection = layout.sections[1];
        assert(text == self@.section(0));
        assert(reloc == self@.section(1));
        let mut bytes: Vec<u8> = self.header_bytes(&measure, &layout);
        let ghost headers = bytes@;
        let content: Vec<u8> = self.text_bytes(&measure);
        put_bytes(&mut bytes, content.as_slice());
        put_zeros(&mut bytes, (text.size_raw_data - measure.text_len) as usize);
        assert(bytes@ =~= headers + self@.text_region());
        let ghost sections = bytes@;
        let import_rva: u32 = SECTION_ALIGNMENT + IMPORT_ADDRESS_TABLE_LEN + CLI_HEADER_LEN
            + measure.metadata_len;
        let imports: ImportLayout = import_layout(import_rva);
        let block: Vec<u8> = relocation_block_bytes(imports.stub_operand);
        put_bytes(&mut bytes, block.as_slice());
        put_zeros(&mut bytes, (reloc.size_raw_data - RELOCATION_BLOCK_LEN) as usize);
        assert(bytes@ =~= sections + self@.reloc_region());
        bytes
    }
}

} // verus!
