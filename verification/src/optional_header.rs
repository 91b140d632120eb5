//! The PE optional header: the loader's view of the image, with the table of
//! sixteen data directories.
use vstd::prelude::*;
use crate::codec::{
    get_u16, get_u32, le_u16, le_u32, lemma_u16_field, lemma_u16_window, lemma_u32_field,
    lemma_u32_window, put_u16, put_u32, put_zeros, u16_at, u32_at, zeros,
};
use crate::layout::PE_OPT_HEADER_LEN;
use crate::pe::{DataDirectory, DATA_DIRECTORY_LEN};

verus! {

/// The magic number of a 32-bit optional header.
pub const PE_OPT_MAGIC: u16 = 0x010B;

/// The linker version that the header reports.
pub const LINKER_VERSION: u16 = 0x000B;

/// The alignment of sections in virtual address space.
pub const SECTION_ALIGNMENT: u32 = 0x2000;

/// The alignment of sections in the file.
pub const FILE_ALIGNMENT: u32 = 0x200;

/// The operating-system version that the header asks for.
pub const OS_VERSION: u32 = 0x0000_0004;

/// The subsystem version that the header asks for.
pub const SUBSYSTEM_VERSION: u32 = 0x0000_0004;

/// The subsystem of the image: console.
pub const SUBSYSTEM: u16 = 0x0003;

/// The DLL characteristics of the image.
pub const DLL_CHARACTERISTICS: u16 = 0x8540;

/// The stack size to reserve.
pub const SIZE_STACK_RESERVE: u32 = 0x0010_0000;

/// The stack size to commit.
pub const SIZE_STACK_COMMIT: u32 = 0x0000_1000;

/// The heap size to reserve.
pub const SIZE_HEAP_RESERVE: u32 = 0x0010_0000;

/// The heap size to commit.
pub const SIZE_HEAP_COMMIT: u32 = 0x0000_1000;

/// The number of data-directory slots.
pub const NUMBER_RVA_SIZES: u32 = 0x0000_0010;

/// Length in bytes of the standard fields, which open the header.
pub const STANDARD_FIELDS_LEN: u32 = 28;

/// Length in bytes of the Windows-specific fields, which follow them.
pub const WINDOWS_FIELDS_LEN: u32 = 68;

/// The slot of the import table in the data-directory table.
pub const IMPORT_TABLE_SLOT: u32 = 1;

/// The slot of the base relocation table.
pub const BASE_RELOCATION_SLOT: u32 = 5;

/// The slot of the import address table.
pub const IMPORT_ADDRESS_TABLE_SLOT: u32 = 12;

/// The slot of the CLI header.
pub const CLI_HEADER_SLOT: u32 = 14;

/// The offset of a data-directory slot from the start of the header.
pub open spec fn directory_offset(slot: int) -> int {
    STANDARD_FIELDS_LEN + WINDOWS_FIELDS_LEN + DATA_DIRECTORY_LEN * slot
}

/// The PE optional header. Of the sixteen data-directory slots the image uses
/// four; the others are always absent and are not held here.
#[derive(Clone, Copy, Debug, PartialEq, Eq, Structural)]
pub struct PEOptHeader {
    pub signature: u16,
    pub linker_version: u16,
    pub size_code: u32,
    pub size_initialized_data: u32,
    pub size_uninitialized_data: u32,
    /// The virtual address of the code entry point.
    pub entry_point: u32,
    pub base_code: u32,
    pub base_data: u32,
    pub image_base: u32,
    pub section_alignment: u32,
    pub file_alignment: u32,
    pub os_version: u32,
    pub image_version: u32,
    pub subsystem_version: u32,
    pub win32_version_value: u32,
    pub size_image: u32,
    pub size_headers: u32,
    pub checksum: u32,
    pub subsystem: u16,
    pub dll_characteristics: u16,
    pub size_stack_reserve: u32,
    pub size_stack_commit: u32,
    pub size_heap_reserve: u32,
    pub size_heap_commit: u32,
    pub loader_flags: u32,
    pub number_rva_sizes: u32,
    /// Slot 1: the import table.
    pub import_table: DataDirectory,
    /// Slot 5: the base relocation table.
    pub base_relocation_table: DataDirectory,
    /// Slot 12: the import address table.
    pub import_address_table: DataDirectory,
    /// Slot 14: the CLI header.
    pub cli_header: DataDirectory,
}

impl PEOptHeader {
    /// The standard fields: 28 bytes.
    #[verifier::opaque]
    pub open spec fn encode_standard(self) -> Seq<u8> {
        le_u16(self.signature) + le_u16(self.linker_version) + le_u32(self.size_code) + le_u32(
            self.size_initialized_data,
        ) + le_u32(self.size_uninitialized_data) + le_u32(self.entry_point) + le_u32(
            self.base_code,
        ) + le_u32(self.base_data)
    }

    /// The Windows-specific fields: 68 bytes.
    #[verifier::opaque]
    pub open spec fn encode_windows(self) -> Seq<u8> {
        le_u32(self.image_base) + le_u32(self.section_alignment) + le_u32(self.file_alignment)
            + le_u32(self.os_version) + le_u32(self.image_version) + le_u32(
            self.subsystem_version,
        ) + le_u32(self.win32_version_value) + le_u32(self.size_image) + le_u32(
            self.size_headers,
        ) + le_u32(self.checksum) + le_u16(self.subsystem) + le_u16(self.dll_characteristics)
            + le_u32(self.size_stack_reserve) + le_u32(self.size_stack_commit) + le_u32(
            self.size_heap_reserve,
        ) + le_u32(self.size_heap_commit) + le_u32(self.loader_flags) + le_u32(
            self.number_rva_sizes,
        )
    }

    /// The data-directory table: sixteen slots of 8 bytes, all zero but slots
    /// 1, 5, 12 and 14.
    #[verifier::opaque]
    pub open spec fn encode_directories(self) -> Seq<u8> {
        zeros(8) + self.import_table.encode() + zeros(24) + self.base_relocation_table.encode()
            + zeros(48) + self.import_address_table.encode() + zeros(8) + self.cli_header.encode()
            + zeros(8)
    }

    /// The header's 224 bytes.
    pub open spec fn encode(self) -> Seq<u8> {
        self.encode_standard() + self.encode_windows() + self.encode_directories()
    }

    /// The header that the first 224 bytes of `s` encode, if `s` is that long.
    /// Of the data directories only the four slots that the image uses are
    /// read.
    #[verifier::opaque]
    pub open spec fn decode(s: Seq<u8>) -> Option<PEOptHeader> {
        if s.len() < PE_OPT_HEADER_LEN {
            None
        } else {
            Some(
                PEOptHeader {
                    signature: u16_at(s, 0),
                    linker_version: u16_at(s, 2),
                    size_code: u32_at(s, 4),
                    size_initialized_data: u32_at(s, 8),
                    size_uninitialized_data: u32_at(s, 12),
                    entry_point: u32_at(s, 16),
                    base_code: u32_at(s, 20),
                    base_data: u32_at(s, 24),
                    image_base: u32_at(s, 28),
                    section_alignment: u32_at(s, 32),
                    file_alignment: u32_at(s, 36),
                    os_version: u32_at(s, 40),
                    image_version: u32_at(s, 44),
                    subsystem_version: u32_at(s, 48),
                    win32_version_value: u32_at(s, 52),
                    size_image: u32_at(s, 56),
                    size_headers: u32_at(s, 60),
                    checksum: u32_at(s, 64),
                    subsystem: u16_at(s, 68),
                    dll_characteristics: u16_at(s, 70),
                    size_stack_reserve: u32_at(s, 72),
                    size_stack_commit: u32_at(s, 76),
                    size_heap_reserve: u32_at(s, 80),
                    size_heap_commit: u32_at(s, 84),
                    loader_flags: u32_at(s, 88),
                    number_rva_sizes: u32_at(s, 92),
                    import_table: DataDirectory::decode_at(s, directory_offset(IMPORT_TABLE_SLOT as int)),
                    base_relocation_table: DataDirectory::decode_at(s, directory_offset(BASE_RELOCATION_SLOT as int)),
                    import_address_table: DataDirectory::decode_at(s, directory_offset(IMPORT_ADDRESS_TABLE_SLOT as int)),
                    cli_header: DataDirectory::decode_at(s, directory_offset(CLI_HEADER_SLOT as int)),
                },
            )
        }
    }
}

impl PEOptHeader {
    /// The optional header of an image whose sizes and addresses are the
    /// planner's. Alignments, versions, subsystem and stack and heap sizes
    /// are the same for every image.
    pub fn new(
        size_code: u32,
        size_initialized_data: u32,
        entry_point: u32,
        base_code: u32,
        base_data: u32,
        image_base: u32,
        size_image: u32,
        size_headers: u32,
        import_table: DataDirectory,
        base_relocation_table: DataDirectory,
        import_address_table: DataDirectory,
        cli_header: DataDirectory,
    ) -> (h: Self)
        ensures
            h == (PEOptHeader {
                signature: PE_OPT_MAGIC,
                linker_version: LINKER_VERSION,
                size_code,
                size_initialized_data,
                size_uninitialized_data: 0,
                entry_point,
                base_code,
                base_data,
                image_base,
                section_alignment: SECTION_ALIGNMENT,
                file_alignment: FILE_ALIGNMENT,
                os_version: OS_VERSION,
                image_version: 0,
                subsystem_version: SUBSYSTEM_VERSION,
                win32_version_value: 0,
                size_image,
                size_headers,
                checksum: 0,
                subsystem: SUBSYSTEM,
                dll_characteristics: DLL_CHARACTERISTICS,
                size_stack_reserve: SIZE_STACK_RESERVE,
                size_stack_commit: SIZE_STACK_COMMIT,
                size_heap_reserve: SIZE_HEAP_RESERVE,
                size_heap_commit: SIZE_HEAP_COMMIT,
                loader_flags: 0,
                number_rva_sizes: NUMBER_RVA_SIZES,
                import_table,
                base_relocation_table,
                import_address_table,
                cli_header,
            }),
    {
        PEOptHeader {
            signature: PE_OPT_MAGIC,
            linker_version: LINKER_VERSION,
            size_code,
            size_initialized_data,
            size_uninitialized_data: 0,
            entry_point,
            base_code,
            base_data,
            image_base,
            section_alignment: SECTION_ALIGNMENT,
            file_alignment: FILE_ALIGNMENT,
            os_version: OS_VERSION,
            image_version: 0,
            subsystem_version: SUBSYSTEM_VERSION,
            win32_version_value: 0,
            size_image,
            size_headers,
            checksum: 0,
            subsystem: SUBSYSTEM,
            dll_characteristics: DLL_CHARACTERISTICS,
            size_stack_reserve: SIZE_STACK_RESERVE,
            size_stack_commit: SIZE_STACK_COMMIT,
            size_heap_reserve: SIZE_HEAP_RESERVE,
            size_heap_commit: SIZE_HEAP_COMMIT,
            loader_flags: 0,
            number_rva_sizes: NUMBER_RVA_SIZES,
            import_table,
            base_relocation_table,
            import_address_table,
            cli_header,
        }
    }

    /// Serialises the header.
    pub fn to_bytes(&self) -> (bytes: Vec<u8>)
        ensures
            bytes@ == self.encode(),
            bytes@.len() == PE_OPT_HEADER_LEN,
    {
        let mut bytes: Vec<u8> = Vec::new();
        put_u16(&mut bytes, self.signature);
        put_u16(&mut bytes, self.linker_version);
        put_u32(&mut bytes, self.size_code);
        put_u32(&mut bytes, self.size_initialized_data);
        put_u32(&mut bytes, self.size_uninitialized_data);
        put_u32(&mut bytes, self.entry_point);
        put_u32(&mut bytes, self.base_code);
        put_u32(&mut bytes, self.base_data);
        proof {
            reveal(PEOptHeader::encode_standard);
            reveal(PEOptHeader::encode_windows);
            reveal(PEOptHeader::encode_directories);
            self.import_table.lemma_encode_len();
            self.base_relocation_table.lemma_encode_len();
            self.import_address_table.lemma_encode_len();
            self.cli_header.lemma_encode_len();
        }
        assert(bytes@ =~= self.encode_standard());
        let ghost standard = bytes@;
        put_u32(&mut bytes, self.image_base);
        put_u32(&mut bytes, self.section_alignment);
        put_u32(&mut bytes, self.file_alignment);
        put_u32(&mut bytes, self.os_version);
        put_u32(&mut bytes, self.image_version);
        put_u32(&mut bytes, self.subsystem_version);
        put_u32(&mut bytes, self.win32_version_value);
        put_u32(&mut bytes, self.size_image);
        put_u32(&mut bytes, self.size_headers);
        put_u32(&mut bytes, self.checksum);
        put_u16(&mut bytes, self.subsystem);
        put_u16(&mut bytes, self.dll_characteristics);
        put_u32(&mut bytes, self.size_stack_reserve);
        put_u32(&mut bytes, self.size_stack_commit);
        put_u32(&mut bytes, self.size_heap_reserve);
        put_u32(&mut bytes, self.size_heap_commit);
        put_u32(&mut bytes, self.loader_flags);
        put_u32(&mut bytes, self.number_rva_sizes);
        assert(bytes@ =~= standard + self.encode_windows());
        let ghost fields = bytes@;
        put_zeros(&mut bytes, 8);
        self.import_table.write_to(&mut bytes);
        put_zeros(&mut bytes, 24);
        self.base_relocation_table.write_to(&mut bytes);
        put_zeros(&mut bytes, 48);
        self.import_address_table.write_to(&mut bytes);
        put_zeros(&mut bytes, 8);
        self.cli_header.write_to(&mut bytes);
        put_zeros(&mut bytes, 8);
        assert(bytes@ =~= fields + self.encode_directories());
        bytes
    }

    /// Reads a header back from the start of `bytes`.
    pub fn from_bytes(bytes: &[u8]) -> (h: Option<Self>)
        ensures
            h == Self::decode(bytes@),
    {
        proof {
            reveal(PEOptHeader::decode);
        }
        if bytes.len() < PE_OPT_HEADER_LEN as usize {
            return None;
        }
        Some(
            PEOptHeader {
                signature: get_u16(bytes, 0),
                linker_version: get_u16(bytes, 2),
                size_code: get_u32(bytes, 4),
                size_initialized_data: get_u32(bytes, 8),
                size_uninitialized_data: get_u32(bytes, 12),
                entry_point: get_u32(bytes, 16),
                base_code: get_u32(bytes, 20),
                base_data: get_u32(bytes, 24),
                image_base: get_u32(bytes, 28),
                section_alignment: get_u32(bytes, 32),
                file_alignment: get_u32(bytes, 36),
                os_version: get_u32(bytes, 40),
                image_version: get_u32(bytes, 44),
                subsystem_version: get_u32(bytes, 48),
                win32_version_value: get_u32(bytes, 52),
                size_image: get_u32(bytes, 56),
                size_headers: get_u32(bytes, 60),
                checksum: get_u32(bytes, 64),
                subsystem: get_u16(bytes, 68),
                dll_characteristics: get_u16(bytes, 70),
                size_stack_reserve: get_u32(bytes, 72),
                size_stack_commit: get_u32(bytes, 76),
                size_heap_reserve: get_u32(bytes, 80),
                size_heap_commit: get_u32(bytes, 84),
                loader_flags: get_u32(bytes, 88),
                number_rva_sizes: get_u32(bytes, 92),
                import_table: DataDirectory::read_at(bytes, 104),
                base_relocation_table: DataDirectory::read_at(bytes, 136),
                import_address_table: DataDirectory::read_at(bytes, 192),
                cli_header: DataDirectory::read_at(bytes, 208),
            },
        )
    }

    /// An encoded optional header is 224 bytes long.
    pub proof fn lemma_encode_len(self)
        ensures
            self.encode().len() == PE_OPT_HEADER_LEN,
    {
        reveal(PEOptHeader::encode_standard);
        reveal(PEOptHeader::encode_windows);
        reveal(PEOptHeader::encode_directories);
        self.import_table.lemma_encode_len();
        self.base_relocation_table.lemma_encode_len();
        self.import_address_table.lemma_encode_len();
        self.cli_header.lemma_encode_len();
        assert(self.encode_standard().len() == 28);
        assert(self.encode_windows().len() == 68);
        assert(self.encode_directories().len() == 128);
    }

    /// Each standard field can be read back from its offset.
    pub proof fn lemma_standard_fields(self)
        ensures
            self.encode_standard().len() == 28,
            u16_at(self.encode_standard(), 0) == self.signature,
            u16_at(self.encode_standard(), 2) == self.linker_version,
            u32_at(self.encode_standard(), 4) == self.size_code,
            u32_at(self.encode_standard(), 8) == self.size_initialized_data,
            u32_at(self.encode_standard(), 12) == self.size_uninitialized_data,
            u32_at(self.encode_standard(), 16) == self.entry_point,
            u32_at(self.encode_standard(), 20) == self.base_code,
            u32_at(self.encode_standard(), 24) == self.base_data,
    {
        reveal(PEOptHeader::encode_standard);
        let p = self.encode_standard();
        assert(p.len() == 28);
        assert(p.subrange(0, 2) =~= le_u16(self.signature));
        lemma_u16_field(p, 0, self.signature);
        assert(p.subrange(2, 4) =~= le_u16(self.linker_version));
        lemma_u16_field(p, 2, self.linker_version);
        assert(p.subrange(4, 8) =~= le_u32(self.size_code));
        lemma_u32_field(p, 4, self.size_code);
        assert(p.subrange(8, 12) =~= le_u32(self.size_initialized_data));
        lemma_u32_field(p, 8, self.size_initialized_data);
        assert(p.subrange(12, 16) =~= le_u32(self.size_uninitialized_data));
        lemma_u32_field(p, 12, self.size_uninitialized_data);
        assert(p.subrange(16, 20) =~= le_u32(self.entry_point));
        lemma_u32_field(p, 16, self.entry_point);
        assert(p.subrange(20, 24) =~= le_u32(self.base_code));
        lemma_u32_field(p, 20, self.base_code);
        assert(p.subrange(24, 28) =~= le_u32(self.base_data));
        lemma_u32_field(p, 24, self.base_data);
    }

    /// Each Windows-specific field can be read back from its offset.
    pub proof fn lemma_windows_fields(self)
        ensures
            self.encode_windows().len() == 68,
            u32_at(self.encode_windows(), 0) == self.image_base,
            u32_at(self.encode_windows(), 4) == self.section_alignment,
            u32_at(self.encode_windows(), 8) == self.file_alignment,
            u32_at(self.encode_windows(), 12) == self.os_version,
            u32_at(self.encode_windows(), 16) == self.image_version,
            u32_at(self.encode_windows(), 20) == self.subsystem_version,
            u32_at(self.encode_windows(), 24) == self.win32_version_value,
            u32_at(self.encode_windows(), 28) == self.size_image,
            u32_at(self.encode_windows(), 32) == self.size_headers,
            u32_at(self.encode_windows(), 36) == self.checksum,
            u16_at(self.encode_windows(), 40) == self.subsystem,
            u16_at(self.encode_windows(), 42) == self.dll_characteristics,
            u32_at(self.encode_windows(), 44) == self.size_stack_reserve,
            u32_at(self.encode_windows(), 48) == self.size_stack_commit,
            u32_at(self.encode_windows(), 52) == self.size_heap_reserve,
            u32_at(self.encode_windows(), 56) == self.size_heap_commit,
            u32_at(self.encode_windows(), 60) == self.loader_flags,
            u32_at(self.encode_windows(), 64) == self.number_rva_sizes,
    {
        reveal(PEOptHeader::encode_windows);
        let p = self.encode_windows();
        assert(p.len() == 68);
        assert(p.subrange(0, 4) =~= le_u32(self.image_base));
        lemma_u32_field(p, 0, self.image_base);
        assert(p.subrange(4, 8) =~= le_u32(self.section_alignment));
        lemma_u32_field(p, 4, self.section_alignment);
        assert(p.subrange(8, 12) =~= le_u32(self.file_alignment));
        lemma_u32_field(p, 8, self.file_alignment);
        assert(p.subrange(12, 16) =~= le_u32(self.os_version));
        lemma_u32_field(p, 12, self.os_version);
        assert(p.subrange(16, 20) =~= le_u32(self.image_version));
        lemma_u32_field(p, 16, self.image_version);
        assert(p.subrange(20, 24) =~= le_u32(self.subsystem_version));
        lemma_u32_field(p, 20, self.subsystem_version);
        assert(p.subrange(24, 28) =~= le_u32(self.win32_version_value));
        lemma_u32_field(p, 24, self.win32_version_value);
        assert(p.subrange(28, 32) =~= le_u32(self.size_image));
        lemma_u32_field(p, 28, self.size_image);
        assert(p.subrange(32, 36) =~= le_u32(self.size_headers));
        lemma_u32_field(p, 32, self.size_headers);
        assert(p.subrange(36, 40) =~= le_u32(self.checksum));
        lemma_u32_field(p, 36, self.checksum);
        assert(p.subrange(40, 42) =~= le_u16(self.subsystem));
        lemma_u16_field(p, 40, self.subsystem);
        assert(p.subrange(42, 44) =~= le_u16(self.dll_characteristics));
        lemma_u16_field(p, 42, self.dll_characteristics);
        assert(p.subrange(44, 48) =~= le_u32(self.size_stack_reserve));
        lemma_u32_field(p, 44, self.size_stack_reserve);
        assert(p.subrange(48, 52) =~= le_u32(self.size_stack_commit));
        lemma_u32_field(p, 48, self.size_stack_commit);
        assert(p.subrange(52, 56) =~= le_u32(self.size_heap_reserve));
        lemma_u32_field(p, 52, self.size_heap_reserve);
        assert(p.subrange(56, 60) =~= le_u32(self.size_heap_commit));
        lemma_u32_field(p, 56, self.size_heap_commit);
        assert(p.subrange(60, 64) =~= le_u32(self.loader_flags));
        lemma_u32_field(p, 60, self.loader_flags);
        assert(p.subrange(64, 68) =~= le_u32(self.number_rva_sizes));
        lemma_u32_field(p, 64, self.number_rva_sizes);
    }

    /// Each data directory that the image uses can be read back from its
    /// slot.
    pub proof fn lemma_directory_fields(self)
        ensures
            self.encode_directories().len() == 128,
            DataDirectory::decode_at(self.encode_directories(), 8) == self.import_table,
            DataDirectory::decode_at(self.encode_directories(), 40) == self.base_relocation_table,
            DataDirectory::decode_at(self.encode_directories(), 96) == self.import_address_table,
            DataDirectory::decode_at(self.encode_directories(), 112) == self.cli_header,
    {
        reveal(PEOptHeader::encode_directories);
        self.import_table.lemma_encode_len();
        self.base_relocation_table.lemma_encode_len();
        self.import_address_table.lemma_encode_len();
        self.cli_header.lemma_encode_len();
        let p = self.encode_directories();
        assert(p.len() == 128);
        assert(p.subrange(8, 16) =~= self.import_table.encode());
        DataDirectory::lemma_field(p, 8, self.import_table);
        assert(p.subrange(40, 48) =~= self.base_relocation_table.encode());
        DataDirectory::lemma_field(p, 40, self.base_relocation_table);
        assert(p.subrange(96, 104) =~= self.import_address_table.encode());
        DataDirectory::lemma_field(p, 96, self.import_address_table);
        assert(p.subrange(112, 120) =~= self.cli_header.encode());
        DataDirectory::lemma_field(p, 112, self.cli_header);
    }

    /// Decoding an encoded optional header gives the header back, field for
    /// field.
    pub proof fn lemma_round_trip(self)
        ensures
            self.encode().len() == PE_OPT_HEADER_LEN,
            Self::decode(self.encode()) == Some(self),
    {
        reveal(PEOptHeader::decode);
        let s = self.encode();
        let standard = self.encode_standard();
        let windows = self.encode_windows();
        let directories = self.encode_directories();
        self.lemma_standard_fields();
        self.lemma_windows_fields();
        self.lemma_directory_fields();
        assert(s.len() == 224);
        assert(s.subrange(0, 28) =~= standard);
        assert(s.subrange(28, 96) =~= windows);
        assert(s.subrange(96, 224) =~= directories);
        lemma_u16_window(s, 0, standard, 0);
        lemma_u16_window(s, 0, standard, 2);
        lemma_u32_window(s, 0, standard, 4);
        lemma_u32_window(s, 0, standard, 8);
        lemma_u32_window(s, 0, standard, 12);
        lemma_u32_window(s, 0, standard, 16);
        lemma_u32_window(s, 0, standard, 20);
        lemma_u32_window(s, 0, standard, 24);
        lemma_u32_window(s, 28, windows, 0);
        lemma_u32_window(s, 28, windows, 4);
        lemma_u32_window(s, 28, windows, 8);
        lemma_u32_window(s, 28, windows, 12);
        lemma_u32_window(s, 28, windows, 16);
        lemma_u32_window(s, 28, windows, 20);
        lemma_u32_window(s, 28, windows, 24);
        lemma_u32_window(s, 28, windows, 28);
        lemma_u32_window(s, 28, windows, 32);
        lemma_u32_window(s, 28, windows, 36);
        lemma_u16_window(s, 28, windows, 40);
        lemma_u16_window(s, 28, windows, 42);
        lemma_u32_window(s, 28, windows, 44);
        lemma_u32_window(s, 28, windows, 48);
        lemma_u32_window(s, 28, windows, 52);
        lemma_u32_window(s, 28, windows, 56);
        lemma_u32_window(s, 28, windows, 60);
        lemma_u32_window(s, 28, windows, 64);
        lemma_u32_window(s, 96, directories, 8);
        lemma_u32_window(s, 96, directories, 12);
        lemma_u32_window(s, 96, directories, 40);
        lemma_u32_window(s, 96, directories, 44);
        lemma_u32_window(s, 96, directories, 96);
        lemma_u32_window(s, 96, directories, 100);
        lemma_u32_window(s, 96, directories, 112);
        lemma_u32_window(s, 96, directories, 116);
    }
}

} // verus!
