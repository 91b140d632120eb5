//! The CLI header, which tells a managed runtime where the metadata lies.
use vstd::prelude::*;
use crate::codec::{
    get_u16, get_u32, get_u64, le_u16, le_u32, le_u64, lemma_u16_field, lemma_u32_field,
    lemma_u16_window, lemma_u32_window, lemma_u64_field, lemma_u64_window, put_u16, put_u32,
    put_u64, u16_at, u32_at, u64_at,
};
use crate::pe::DataDirectory;

verus! {

/// Length in bytes of the CLI header.
pub const CLI_HEADER_LEN: u32 = 72;

/// The major runtime version that a header has unless the caller chooses one.
pub const DEFAULT_MAJOR_RUNTIME_VERSION: u16 = 2;

/// The minor runtime version that a header has unless the caller chooses one.
pub const DEFAULT_MINOR_RUNTIME_VERSION: u16 = 5;

/// CLI flag, bit 0: the image holds managed code only.
pub const COMIMAGE_FLAGS_ILONLY: u32 = 0x0000_0001;

/// CLI flag, bit 1: the image can only be loaded into a 32-bit process.
pub const COMIMAGE_FLAGS_32BITREQUIRED: u32 = 0x0000_0002;

/// Whether `flags` asks for a 32-bit process.
pub open spec fn flags_require_32bit(flags: u32) -> bool {
    flags & COMIMAGE_FLAGS_32BITREQUIRED != 0
}

/// Whether `flags` asks for a 32-bit process.
pub fn requires_32bit(flags: u32) -> (b: bool)
    ensures
        b == flags_require_32bit(flags),
{
    flags & COMIMAGE_FLAGS_32BITREQUIRED != 0
}

/// The CLI header. The fields for resources, strong-name signature, code
/// manager table, vtable fixups, export address table jumps and managed native
/// header are reserved here: the image has none of these.
#[derive(Clone, Copy, Debug, PartialEq, Eq, Structural)]
pub struct CLIHeader {
    /// The header's own length in bytes.
    pub cb: u32,
    pub major_runtime_version: u16,
    pub minor_runtime_version: u16,
    /// Where the metadata root lies, and the length of the metadata.
    pub metadata: DataDirectory,
    pub flags: u32,
    pub entry_point_token: u32,
    pub resources: u64,
    pub strong_name_signature: u64,
    pub code_manager_table: u64,
    pub vtable_fixups: u64,
    pub export_address_table_jumps: u64,
    pub managed_native_header: u64,
}

impl CLIHeader {
    /// The fields that the image fills in: 24 bytes.
    #[verifier::opaque]
    pub open spec fn encode_fields(self) -> Seq<u8> {
        le_u32(self.cb) + le_u16(self.major_runtime_version) + le_u16(self.minor_runtime_version)
            + self.metadata.encode() + le_u32(self.flags) + le_u32(self.entry_point_token)
    }

    /// The six reserved fields: 48 bytes.
    #[verifier::opaque]
    pub open spec fn encode_reserved(self) -> Seq<u8> {
        le_u64(self.resources) + le_u64(self.strong_name_signature) + le_u64(
            self.code_manager_table,
        ) + le_u64(self.vtable_fixups) + le_u64(self.export_address_table_jumps) + le_u64(
            self.managed_native_header,
        )
    }

    /// The header's 72 bytes: each field in order, little-endian.
    pub open spec fn encode(self) -> Seq<u8> {
        self.encode_fields() + self.encode_reserved()
    }

    /// The header that the first 72 bytes of `s` encode, if `s` is that long.
    #[verifier::opaque]
    pub open spec fn decode(s: Seq<u8>) -> Option<CLIHeader> {
        if s.len() < CLI_HEADER_LEN {
            None
        } else {
            Some(
                CLIHeader {
                    cb: u32_at(s, 0),
                    major_runtime_version: u16_at(s, 4),
                    minor_runtime_version: u16_at(s, 6),
                    metadata: DataDirectory::decode_at(s, 8),
                    flags: u32_at(s, 16),
                    entry_point_token: u32_at(s, 20),
                    resources: u64_at(s, 24),
                    strong_name_signature: u64_at(s, 32),
                    code_manager_table: u64_at(s, 40),
                    vtable_fixups: u64_at(s, 48),
                    export_address_table_jumps: u64_at(s, 56),
                    managed_native_header: u64_at(s, 64),
                },
            )
        }
    }

    /// The header of an image whose metadata lies at `metadata`. `cb` is the
    /// header's own length, and every reserved field is zero.
    pub fn new(
        major_runtime_version: u16,
        minor_runtime_version: u16,
        metadata: DataDirectory,
        flags: u32,
    ) -> (h: Self)
        ensures
            h == (CLIHeader {
                cb: CLI_HEADER_LEN,
                major_runtime_version,
                minor_runtime_version,
                metadata,
                flags,
                entry_point_token: 0,
                resources: 0,
                strong_name_signature: 0,
                code_manager_table: 0,
                vtable_fixups: 0,
                export_address_table_jumps: 0,
                managed_native_header: 0,
            }),
    {
        CLIHeader {
            cb: CLI_HEADER_LEN,
            major_runtime_version,
            minor_runtime_version,
            metadata,
            flags,
            entry_point_token: 0,
            resources: 0,
            strong_name_signature: 0,
            code_manager_table: 0,
            vtable_fixups: 0,
            export_address_table_jumps: 0,
            managed_native_header: 0,
        }
    }

    /// Serialises the header.
    pub fn to_bytes(&self) -> (bytes: Vec<u8>)
        ensures
            bytes@ == self.encode(),
            bytes@.len() == CLI_HEADER_LEN,
    {
        let mut bytes: Vec<u8> = Vec::new();
        put_u32(&mut bytes, self.cb);
        put_u16(&mut bytes, self.major_runtime_version);
        put_u16(&mut bytes, self.minor_runtime_version);
        self.metadata.write_to(&mut bytes);
        put_u32(&mut bytes, self.flags);
        put_u32(&mut bytes, self.entry_point_token);
        proof {
            reveal(CLIHeader::encode_fields);
            reveal(CLIHeader::encode_reserved);
            self.metadata.lemma_encode_len();
        }
        assert(bytes@ =~= self.encode_fields());
        let ghost fields = bytes@;
        put_u64(&mut bytes, self.resources);
        put_u64(&mut bytes, self.strong_name_signature);
        put_u64(&mut bytes, self.code_manager_table);
        put_u64(&mut bytes, self.vtable_fixups);
        put_u64(&mut bytes, self.export_address_table_jumps);
        put_u64(&mut bytes, self.managed_native_header);
        assert(bytes@ =~= fields + self.encode_reserved());
        bytes
    }

    /// Reads a header back from the start of `bytes`.
    pub fn from_bytes(bytes: &[u8]) -> (h: Option<Self>)
        ensures
            h == Self::decode(bytes@),
    {
        proof {
            reveal(CLIHeader::decode);
        }
        if bytes.len() < CLI_HEADER_LEN as usize {
            return None;
        }
        Some(
            CLIHeader {
                cb: get_u32(bytes, 0),
                major_runtime_version: get_u16(bytes, 4),
                minor_runtime_version: get_u16(bytes, 6),
                metadata: DataDirectory::read_at(bytes, 8),
                flags: get_u32(bytes, 16),
                entry_point_token: get_u32(bytes, 20),
                resources: get_u64(bytes, 24),
                strong_name_signature: get_u64(bytes, 32),
                code_manager_table: get_u64(bytes, 40),
                vtable_fixups: get_u64(bytes, 48),
                export_address_table_jumps: get_u64(bytes, 56),
                managed_native_header: get_u64(bytes, 64),
            },
        )
    }

    /// An encoded CLI header is 72 bytes long.
    pub proof fn lemma_encode_len(self)
        ensures
            self.encode().len() == CLI_HEADER_LEN,
    {
        reveal(CLIHeader::encode_fields);
        reveal(CLIHeader::encode_reserved);
        self.metadata.lemma_encode_len();
        assert(self.encode_fields().len() == 24);
        assert(self.encode_reserved().len() == 48);
    }

    /// Each field that the image fills in can be read back from its offset.
    pub proof fn lemma_fields(self)
        ensures
            self.encode_fields().len() == 24,
            u32_at(self.encode_fields(), 0) == self.cb,
            u16_at(self.encode_fields(), 4) == self.major_runtime_version,
            u16_at(self.encode_fields(), 6) == self.minor_runtime_version,
            DataDirectory::decode_at(self.encode_fields(), 8) == self.metadata,
            u32_at(self.encode_fields(), 16) == self.flags,
            u32_at(self.encode_fields(), 20) == self.entry_point_token,
    {
        reveal(CLIHeader::encode_fields);
        self.metadata.lemma_encode_len();
        let p = self.encode_fields();
        assert(p.len() == 24);
        assert(p.subrange(0, 4) =~= le_u32(self.cb));
        lemma_u32_field(p, 0, self.cb);
        assert(p.subrange(4, 6) =~= le_u16(self.major_runtime_version));
        lemma_u16_field(p, 4, self.major_runtime_version);
        assert(p.subrange(6, 8) =~= le_u16(self.minor_runtime_version));
        lemma_u16_field(p, 6, self.minor_runtime_version);
        assert(p.subrange(8, 16) =~= self.metadata.encode());
        DataDirectory::lemma_field(p, 8, self.metadata);
        assert(p.subrange(16, 20) =~= le_u32(self.flags));
        lemma_u32_field(p, 16, self.flags);
        assert(p.subrange(20, 24) =~= le_u32(self.entry_point_token));
        lemma_u32_field(p, 20, self.entry_point_token);
    }

    /// Each reserved field can be read back from its offset.
    pub proof fn lemma_reserved(self)
        ensures
            self.encode_reserved().len() == 48,
            u64_at(self.encode_reserved(), 0) == self.resources,
            u64_at(self.encode_reserved(), 8) == self.strong_name_signature,
            u64_at(self.encode_reserved(), 16) == self.code_manager_table,
            u64_at(self.encode_reserved(), 24) == self.vtable_fixups,
            u64_at(self.encode_reserved(), 32) == self.export_address_table_jumps,
            u64_at(self.encode_reserved(), 40) == self.managed_native_header,
    {
        reveal(CLIHeader::encode_reserved);
        let p = self.encode_reserved();
        assert(p.len() == 48);
        assert(p.subrange(0, 8) =~= le_u64(self.resources));
        lemma_u64_field(p, 0, self.resources);
        assert(p.subrange(8, 16) =~= le_u64(self.strong_name_signature));
        lemma_u64_field(p, 8, self.strong_name_signature);
        assert(p.subrange(16, 24) =~= le_u64(self.code_manager_table));
        lemma_u64_field(p, 16, self.code_manager_table);
        assert(p.subrange(24, 32) =~= le_u64(self.vtable_fixups));
        lemma_u64_field(p, 24, self.vtable_fixups);
        assert(p.subrange(32, 40) =~= le_u64(self.export_address_table_jumps));
        lemma_u64_field(p, 32, self.export_address_table_jumps);
        assert(p.subrange(40, 48) =~= le_u64(self.managed_native_header));
        lemma_u64_field(p, 40, self.managed_native_header);
    }

    /// Decoding an encoded CLI header gives the header back, field for field.
    pub proof fn lemma_round_trip(self)
        ensures
            self.encode().len() == CLI_HEADER_LEN,
            Self::decode(self.encode()) == Some(self),
    {
        reveal(CLIHeader::decode);
        let s = self.encode();
        let filled = self.encode_fields();
        let reserved = self.encode_reserved();
        self.lemma_fields();
        self.lemma_reserved();
        assert(s.len() == 72);
        assert(s.subrange(0, 24) =~= filled);
        assert(s.subrange(24, 72) =~= reserved);
        lemma_u32_window(s, 0, filled, 0);
        lemma_u16_window(s, 0, filled, 4);
        lemma_u16_window(s, 0, filled, 6);
        lemma_u32_window(s, 0, filled, 8);
        lemma_u32_window(s, 0, filled, 12);
        lemma_u32_window(s, 0, filled, 16);
        lemma_u32_window(s, 0, filled, 20);
        lemma_u64_window(s, 24, reserved, 0);
        lemma_u64_window(s, 24, reserved, 8);
        lemma_u64_window(s, 24, reserved, 16);
        lemma_u64_window(s, 24, reserved, 24);
        lemma_u64_window(s, 24, reserved, 32);
        lemma_u64_window(s, 24, reserved, 40);
    }
}

} // verus!
