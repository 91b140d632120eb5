//! The PE/COFF headers of the image: the COFF header, the PE optional header
//! with its data directories, the section headers and the import address
//! table.
use vstd::prelude::*;
use crate::codec::{
    get_u16, get_u32, le_u16, le_u32, lemma_u16_field, lemma_u32_field, put_bytes, put_u16,
    put_u32, u16_at, u32_at,
};
use crate::layout::{COFF_HEADER_LEN, PE_OPT_HEADER_LEN, PlannedSection, SECTION_HEADER_LEN};

verus! {

/// The machine type of every image: Intel 386.
pub const MACHINE_I386: u16 = 0x014C;

/// COFF characteristic: the machine has 32-bit words.
pub const IMAGE_FILE_32BIT_MACHINE: u16 = 0x0100;

/// COFF characteristic: the image is a library.
pub const IMAGE_FILE_DLL: u16 = 0x2000;

/// COFF characteristic: the image is complete and can be loaded.
pub const IMAGE_FILE_EXECUTABLE_IMAGE: u16 = 0x0002;

/// The characteristics of an image's COFF header. The 32-bit flag is set only
/// where the CLI header requires a 32-bit process.
pub open spec fn coff_characteristics(requires_32bit: bool) -> u16 {
    if requires_32bit {
        IMAGE_FILE_DLL | IMAGE_FILE_EXECUTABLE_IMAGE | IMAGE_FILE_32BIT_MACHINE
    } else {
        IMAGE_FILE_DLL | IMAGE_FILE_EXECUTABLE_IMAGE
    }
}

/// The COFF header: machine type, section count and image characteristics.
#[derive(Clone, Copy, Debug, PartialEq, Eq, Structural)]
pub struct COFFHeader {
    pub machine: u16,
    pub num_sections: u16,
    pub time_date_stamp: u32,
    pub pointer_to_symbol_table: u32,
    pub number_symbols: u32,
    pub size_opt_header: u16,
    pub characteristics: u16,
}

impl COFFHeader {
    /// The header's 20 bytes: each field in order, little-endian.
    #[verifier::opaque]
    pub open spec fn encode(self) -> Seq<u8> {
        le_u16(self.machine) + le_u16(self.num_sections) + le_u32(self.time_date_stamp) + le_u32(
            self.pointer_to_symbol_table,
        ) + le_u32(self.number_symbols) + le_u16(self.size_opt_header) + le_u16(
            self.characteristics,
        )
    }

    /// The header that the first 20 bytes of `s` encode, if `s` is that long.
    #[verifier::opaque]
    pub open spec fn decode(s: Seq<u8>) -> Option<COFFHeader> {
        if s.len() < COFF_HEADER_LEN {
            None
        } else {
            Some(
                COFFHeader {
                    machine: u16_at(s, 0),
                    num_sections: u16_at(s, 2),
                    time_date_stamp: u32_at(s, 4),
                    pointer_to_symbol_table: u32_at(s, 8),
                    number_symbols: u32_at(s, 12),
                    size_opt_header: u16_at(s, 16),
                    characteristics: u16_at(s, 18),
                },
            )
        }
    }

    /// The COFF header of an image with `num_sections` sections. No symbol
    /// table is present.
    pub fn new(num_sections: u16, time_date_stamp: u32, requires_32bit: bool) -> (h: Self)
        ensures
            h == (COFFHeader {
                machine: MACHINE_I386,
                num_sections,
                time_date_stamp,
                pointer_to_symbol_table: 0,
                number_symbols: 0,
                size_opt_header: PE_OPT_HEADER_LEN as u16,
                characteristics: coff_characteristics(requires_32bit),
            }),
    {
        let characteristics: u16 = if requires_32bit {
            IMAGE_FILE_DLL | IMAGE_FILE_EXECUTABLE_IMAGE | IMAGE_FILE_32BIT_MACHINE
        } else {
            IMAGE_FILE_DLL | IMAGE_FILE_EXECUTABLE_IMAGE
        };
        COFFHeader {
            machine: MACHINE_I386,
            num_sections,
            time_date_stamp,
            pointer_to_symbol_table: 0,
            number_symbols: 0,
            size_opt_header: PE_OPT_HEADER_LEN as u16,
            characteristics,
        }
    }

    /// Serialises the header.
    pub fn to_bytes(&self) -> (bytes: Vec<u8>)
        ensures
            bytes@ == self.encode(),
            bytes@.len() == COFF_HEADER_LEN,
    {
        let mut bytes: Vec<u8> = Vec::new();
        put_u16(&mut bytes, self.machine);
        put_u16(&mut bytes, self.num_sections);
        put_u32(&mut bytes, self.time_date_stamp);
        put_u32(&mut bytes, self.pointer_to_symbol_table);
        put_u32(&mut bytes, self.number_symbols);
        put_u16(&mut bytes, self.size_opt_header);
        put_u16(&mut bytes, self.characteristics);
        proof {
            reveal(COFFHeader::encode);
        }
        assert(bytes@ =~= self.encode());
        bytes
    }

    /// Reads a header back from the start of `bytes`.
    pub fn from_bytes(bytes: &[u8]) -> (h: Option<Self>)
        ensures
            h == Self::decode(bytes@),
    {
        proof {
            reveal(COFFHeader::decode);
        }
        if bytes.len() < COFF_HEADER_LEN as usize {
            return None;
        }
        Some(
            COFFHeader {
                machine: get_u16(bytes, 0),
                num_sections: get_u16(bytes, 2),
                time_date_stamp: get_u32(bytes, 4),
                pointer_to_symbol_table: get_u32(bytes, 8),
                number_symbols: get_u32(bytes, 12),
                size_opt_header: get_u16(bytes, 16),
                characteristics: get_u16(bytes, 18),
            },
        )
    }

    /// An encoded COFF header is 20 bytes long.
    pub proof fn lemma_encode_len(self)
        ensures
            self.encode().len() == COFF_HEADER_LEN,
    {
        reveal(COFFHeader::encode);
    }

    /// Decoding an encoded COFF header gives the header back, field for field.
    pub proof fn lemma_round_trip(self)
        ensures
            self.encode().len() == COFF_HEADER_LEN,
            Self::decode(self.encode()) == Some(self),
    {
        reveal(COFFHeader::encode);
        reveal(COFFHeader::decode);
        let s = self.encode();
        assert(s.len() == 20);
        assert(s.subrange(0, 2) =~= le_u16(self.machine));
        assert(s.subrange(2, 4) =~= le_u16(self.num_sections));
        assert(s.subrange(4, 8) =~= le_u32(self.time_date_stamp));
        assert(s.subrange(8, 12) =~= le_u32(self.pointer_to_symbol_table));
        assert(s.subrange(12, 16) =~= le_u32(self.number_symbols));
        assert(s.subrange(16, 18) =~= le_u16(self.size_opt_header));
        assert(s.subrange(18, 20) =~= le_u16(self.characteristics));
        lemma_u16_field(s, 0, self.machine);
        lemma_u16_field(s, 2, self.num_sections);
        lemma_u32_field(s, 4, self.time_date_stamp);
        lemma_u32_field(s, 8, self.pointer_to_symbol_table);
        lemma_u32_field(s, 12, self.number_symbols);
        lemma_u16_field(s, 16, self.size_opt_header);
        lemma_u16_field(s, 18, self.characteristics);
    }
}

/// One entry of the data-directory table: where a structure lies in virtual
/// address space and how long it is. Both zero: the structure is absent.
#[derive(Clone, Copy, Debug, PartialEq, Eq, Structural)]
pub struct DataDirectory {
    pub virtual_address: u32,
    pub size: u32,
}

/// Length in bytes of one data-directory entry.
pub const DATA_DIRECTORY_LEN: u32 = 8;

impl DataDirectory {
    /// The entry's 8 bytes.
    #[verifier::opaque]
    pub open spec fn encode(self) -> Seq<u8> {
        le_u32(self.virtual_address) + le_u32(self.size)
    }

    /// The entry whose bytes stand at `s[at..at + 8]`.
    pub open spec fn decode_at(s: Seq<u8>, at: int) -> DataDirectory {
        DataDirectory { virtual_address: u32_at(s, at), size: u32_at(s, at + 4) }
    }

    /// An encoded entry is 8 bytes long.
    pub proof fn lemma_encode_len(self)
        ensures
            self.encode().len() == DATA_DIRECTORY_LEN,
    {
        reveal(DataDirectory::encode);
    }

    /// An entry for a structure at `virtual_address` of `size` bytes.
    pub fn new(virtual_address: u32, size: u32) -> (d: Self)
        ensures
            d == (DataDirectory { virtual_address, size }),
    {
        DataDirectory { virtual_address, size }
    }

    /// Appends the entry to `buf`.
    pub fn write_to(&self, buf: &mut Vec<u8>)
        ensures
            final(buf)@ == old(buf)@ + self.encode(),
    {
        put_u32(buf, self.virtual_address);
        put_u32(buf, self.size);
        proof {
            reveal(DataDirectory::encode);
        }
        assert(buf@ =~= old(buf)@ + self.encode());
    }

    /// Reads the entry at `bytes[at..at + 8]`.
    pub fn read_at(bytes: &[u8], at: usize) -> (d: Self)
        requires
            at + 8 <= bytes@.len(),
        ensures
            d == Self::decode_at(bytes@, at as int),
    {
        let len: usize = bytes.len();
        assert(at + 8 <= len);
        DataDirectory { virtual_address: get_u32(bytes, at), size: get_u32(bytes, at + 4) }
    }

    /// Where the eight bytes at `at` are the encoding of `d`, decoding there
    /// gives `d`.
    pub proof fn lemma_field(s: Seq<u8>, at: int, d: DataDirectory)
        requires
            0 <= at,
            at + 8 <= s.len(),
            s.subrange(at, at + 8) == d.encode(),
        ensures
            Self::decode_at(s, at) == d,
    {
        reveal(DataDirectory::encode);
        let t = s.subrange(at, at + 8);
        assert(s.subrange(at, at + 4) =~= t.subrange(0, 4));
        assert(t.subrange(0, 4) =~= le_u32(d.virtual_address));
        assert(s.subrange(at + 4, at + 8) =~= t.subrange(4, 8));
        assert(t.subrange(4, 8) =~= le_u32(d.size));
        lemma_u32_field(s, at, d.virtual_address);
        lemma_u32_field(s, at + 4, d.size);
    }
}

/// Section characteristic: the section holds executable code.
pub const IMAGE_SCN_CNT_CODE: u32 = 0x0000_0020;

/// Section characteristic: the section holds initialised data.
pub const IMAGE_SCN_CNT_INITIALIZED_DATA: u32 = 0x0000_0040;

/// Section characteristic: the section can be discarded once loaded.
pub const IMAGE_SCN_MEM_DISCARDABLE: u32 = 0x0200_0000;

/// Section characteristic: the section can be executed.
pub const IMAGE_SCN_MEM_EXECUTE: u32 = 0x2000_0000;

/// Section characteristic: the section can be read.
pub const IMAGE_SCN_MEM_READ: u32 = 0x4000_0000;

/// The header of one section. The image has no relocations or line numbers of
/// the COFF kind, so those fields are always zero.
#[derive(Clone, Copy, Debug)]
pub struct ImageSectionHeader {
    pub name: [u8; 8],
    pub virtual_size: u32,
    pub virtual_address: u32,
    pub size_raw_data: u32,
    pub pointer_raw_data: u32,
    pub pointer_relocations: u32,
    pub pointer_line_numbers: u32,
    pub num_relocations: u16,
    pub num_line_numbers: u16,
    pub characteristics: u32,
}

impl ImageSectionHeader {
    /// The header's 40 bytes: the name, then each field in order.
    #[verifier::opaque]
    pub open spec fn encode(self) -> Seq<u8> {
        self.name@ + le_u32(self.virtual_size) + le_u32(self.virtual_address) + le_u32(
            self.size_raw_data,
        ) + le_u32(self.pointer_raw_data) + le_u32(self.pointer_relocations) + le_u32(
            self.pointer_line_numbers,
        ) + le_u16(self.num_relocations) + le_u16(self.num_line_numbers) + le_u32(
            self.characteristics,
        )
    }

    /// The header of the section that the planner placed as `planned`.
    pub open spec fn of_planned(planned: PlannedSection) -> ImageSectionHeader {
        ImageSectionHeader {
            name: planned.name,
            virtual_size: planned.virtual_size,
            virtual_address: planned.virtual_address,
            size_raw_data: planned.size_raw_data,
            pointer_raw_data: planned.pointer_raw_data,
            pointer_relocations: 0,
            pointer_line_numbers: 0,
            num_relocations: 0,
            num_line_numbers: 0,
            characteristics: planned.characteristics,
        }
    }

    /// An encoded section header is 40 bytes long.
    pub proof fn lemma_encode_len(self)
        ensures
            self.encode().len() == SECTION_HEADER_LEN,
    {
        reveal(ImageSectionHeader::encode);
        assert(self.name@.len() == 8);
    }

    /// A section header with the given placement.
    pub fn new(
        name: [u8; 8],
        virtual_size: u32,
        virtual_address: u32,
        size_raw_data: u32,
        pointer_raw_data: u32,
        characteristics: u32,
    ) -> (h: Self)
        ensures
            h == (ImageSectionHeader {
                name,
                virtual_size,
                virtual_address,
                size_raw_data,
                pointer_raw_data,
                pointer_relocations: 0,
                pointer_line_numbers: 0,
                num_relocations: 0,
                num_line_numbers: 0,
                characteristics,
            }),
    {
        ImageSectionHeader {
            name,
            virtual_size,
            virtual_address,
            size_raw_data,
            pointer_raw_data,
            pointer_relocations: 0,
            pointer_line_numbers: 0,
            num_relocations: 0,
            num_line_numbers: 0,
            characteristics,
        }
    }

    /// The header of a section that the planner placed.
    pub fn from_planned(planned: &PlannedSection) -> (h: Self)
        ensures
            h == Self::of_planned(*planned),
    {
        Self::new(
            planned.name,
            planned.virtual_size,
            planned.virtual_address,
            planned.size_raw_data,
            planned.pointer_raw_data,
            planned.characteristics,
        )
    }

    /// Serialises the header.
    pub fn to_bytes(&self) -> (bytes: Vec<u8>)
        ensures
            bytes@ == self.encode(),
            bytes@.len() == SECTION_HEADER_LEN,
    {
        let mut bytes: Vec<u8> = Vec::new();
        put_bytes(&mut bytes, self.name.as_slice());
        put_u32(&mut bytes, self.virtual_size);
        put_u32(&mut bytes, self.virtual_address);
        put_u32(&mut bytes, self.size_raw_data);
        put_u32(&mut bytes, self.pointer_raw_data);
        put_u32(&mut bytes, self.pointer_relocations);
        put_u32(&mut bytes, self.pointer_line_numbers);
        put_u16(&mut bytes, self.num_relocations);
        put_u16(&mut bytes, self.num_line_numbers);
        put_u32(&mut bytes, self.characteristics);
        proof {
            reveal(ImageSectionHeader::encode);
        }
        assert(bytes@ =~= self.encode());
        bytes
    }
}

/// Length in bytes of the import address table.
pub const IMPORT_ADDRESS_TABLE_LEN: u32 = 8;

/// The import address table: the address of the one imported entry, and the
/// zero entry that closes the table.
#[derive(Clone, Copy, Debug, PartialEq, Eq, Structural)]
pub struct ImportAddressTable {
    pub hint_name_table_rva: u32,
    pub zeroed: u32,
}

impl ImportAddressTable {
    /// The table's 8 bytes.
    #[verifier::opaque]
    pub open spec fn encode(self) -> Seq<u8> {
        le_u32(self.hint_name_table_rva) + le_u32(self.zeroed)
    }

    /// An encoded import address table is 8 bytes long.
    pub proof fn lemma_encode_len(self)
        ensures
            self.encode().len() == IMPORT_ADDRESS_TABLE_LEN,
    {
        reveal(ImportAddressTable::encode);
    }

    /// The table whose one entry points at `hint_name_table_rva`.
    pub fn new(hint_name_table_rva: u32) -> (t: Self)
        ensures
            t == (ImportAddressTable { hint_name_table_rva, zeroed: 0 }),
    {
        ImportAddressTable { hint_name_table_rva, zeroed: 0 }
    }

    /// Serialises the table.
    pub fn to_bytes(&self) -> (bytes: Vec<u8>)
        ensures
            bytes@ == self.encode(),
            bytes@.len() == IMPORT_ADDRESS_TABLE_LEN,
    {
        let mut bytes: Vec<u8> = Vec::new();
        put_u32(&mut bytes, self.hint_name_table_rva);
        put_u32(&mut bytes, self.zeroed);
        proof {
            reveal(ImportAddressTable::encode);
        }
        assert(bytes@ =~= self.encode());
        bytes
    }
}

} // verus!
