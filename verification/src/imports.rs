//! The import structures through which the loader binds the image to the
//! runtime's entry function, and the one base relocation they need.
//!
//! The block follows the metadata in the first section. It holds the import
//! directory, the import lookup table, the hint/name entry of the runtime's
//! entry function, the name of the runtime library, and the entry stub: an
//! indirect jump through the import address table.
use vstd::prelude::*;
use crate::codec::{le_u16, le_u32, put_bytes, put_u16, put_u32, put_zeros, zeros};
use crate::layout::{align_to, align_up, lemma_align_up};

verus! {

/// Length in bytes of the import directory: one entry, and the empty entry
/// that closes the table.
pub const IMPORT_DIRECTORY_LEN: u32 = 40;

/// Length in bytes of the import lookup table: one entry, and the zero entry
/// that closes the table.
pub const IMPORT_LOOKUP_LEN: u32 = 8;

/// The alignment of the hint/name entry.
pub const HINT_NAME_ALIGNMENT: u32 = 16;

/// Length in bytes of the hint/name entry: the hint, the name and its
/// terminator.
pub const HINT_NAME_LEN: u32 = 14;

/// Length in bytes of the library name, its terminator, and one more zero
/// byte with which the import table ends.
pub const LIBRARY_NAME_LEN: u32 = 13;

/// The alignment of the address inside the entry stub.
pub const STUB_OPERAND_ALIGNMENT: u32 = 4;

/// Length in bytes of the jump opcode, which stands before the address.
pub const STUB_OPCODE_LEN: u32 = 2;

/// An upper bound on the length of the block, wherever it starts.
pub const IMPORT_BLOCK_MAX_LEN: u32 = 128;

/// Length in bytes of the base relocation block.
pub const RELOCATION_BLOCK_LEN: u32 = 12;

/// The size of the page that one relocation block covers.
pub const RELOCATION_PAGE: u32 = 0x1000;

/// The relocation type that patches a whole 32-bit address, in the top four
/// bits of a relocation entry.
pub const RELOCATION_HIGHLOW: u16 = 0x3000;

/// The name of the runtime's entry function: `_CorDllMain`.
#[verifier::opaque]
pub open spec fn entry_function_name() -> Seq<u8> {
    seq![0x5Fu8, 0x43, 0x6F, 0x72, 0x44, 0x6C, 0x6C, 0x4D, 0x61, 0x69, 0x6E]
}

/// The name of the runtime library: `mscoree.dll`.
#[verifier::opaque]
pub open spec fn library_name() -> Seq<u8> {
    seq![0x6Du8, 0x73, 0x63, 0x6F, 0x72, 0x65, 0x65, 0x2E, 0x64, 0x6C, 0x6C]
}

/// The opcode of an indirect jump through an absolute address.
pub open spec fn jump_opcode() -> Seq<u8> {
    seq![0xFFu8, 0x25]
}

/// Where the parts of an import block lie, as virtual addresses.
#[derive(Clone, Copy, Debug, PartialEq, Eq, Structural)]
pub struct ImportLayout {
    /// The import directory, with which the block starts.
    pub directory: u32,
    /// The import lookup table.
    pub lookup_table: u32,
    /// The hint/name entry of the entry function.
    pub hint_name: u32,
    /// The name of the runtime library.
    pub library_name: u32,
    /// The length of the import table: from the directory to the end of the
    /// library name.
    pub table_size: u32,
    /// The entry stub, which is the image's entry point.
    pub entry_point: u32,
    /// The address inside the entry stub, which the loader relocates.
    pub stub_operand: u32,
    /// The end of the block.
    pub end: u32,
}

/// The virtual address of the hint/name entry of a block that starts at
/// `start`.
pub open spec fn hint_name_rva(start: int) -> int {
    align_up(start + IMPORT_DIRECTORY_LEN + IMPORT_LOOKUP_LEN, HINT_NAME_ALIGNMENT as int)
}

/// The virtual address at which the import table of a block that starts at
/// `start` ends.
pub open spec fn table_end_rva(start: int) -> int {
    hint_name_rva(start) + HINT_NAME_LEN + LIBRARY_NAME_LEN
}

/// The virtual address of the address inside the entry stub.
pub open spec fn stub_operand_rva(start: int) -> int {
    align_up(table_end_rva(start) + STUB_OPCODE_LEN, STUB_OPERAND_ALIGNMENT as int)
}

/// The layout of the import block that starts at the virtual address `start`.
pub open spec fn import_layout_of(start: int) -> ImportLayout {
    ImportLayout {
        directory: start as u32,
        lookup_table: (start + IMPORT_DIRECTORY_LEN) as u32,
        hint_name: hint_name_rva(start) as u32,
        library_name: (hint_name_rva(start) + HINT_NAME_LEN) as u32,
        table_size: (table_end_rva(start) - start) as u32,
        entry_point: (stub_operand_rva(start) - STUB_OPCODE_LEN) as u32,
        stub_operand: stub_operand_rva(start) as u32,
        end: (stub_operand_rva(start) + 4) as u32,
    }
}

/// The length of the import block that starts at the virtual address `start`.
pub open spec fn import_block_len(start: int) -> int {
    stub_operand_rva(start) + 4 - start
}

/// The parts of the block lie in the order in which `ImportLayout` lists them,
/// and the block is never longer than `IMPORT_BLOCK_MAX_LEN`.
pub proof fn lemma_import_layout(start: int)
    requires
        0 <= start,
    ensures
        start + IMPORT_DIRECTORY_LEN + IMPORT_LOOKUP_LEN <= hint_name_rva(start) < start
            + IMPORT_DIRECTORY_LEN + IMPORT_LOOKUP_LEN + HINT_NAME_ALIGNMENT,
        hint_name_rva(start) % (HINT_NAME_ALIGNMENT as int) == 0,
        table_end_rva(start) + STUB_OPCODE_LEN <= stub_operand_rva(start) < table_end_rva(start)
            + STUB_OPCODE_LEN + STUB_OPERAND_ALIGNMENT,
        stub_operand_rva(start) % (STUB_OPERAND_ALIGNMENT as int) == 0,
        0 < import_block_len(start) <= IMPORT_BLOCK_MAX_LEN,
{
    lemma_align_up(
        start + IMPORT_DIRECTORY_LEN + IMPORT_LOOKUP_LEN,
        HINT_NAME_ALIGNMENT as int,
    );
    lemma_align_up(table_end_rva(start) + STUB_OPCODE_LEN, STUB_OPERAND_ALIGNMENT as int);
}

/// Computes the length of the import block that starts at `start`.
pub fn import_block_size(start: u64) -> (len: u64)
    requires
        start + IMPORT_BLOCK_MAX_LEN <= u64::MAX,
    ensures
        len == import_block_len(start as int),
        0 < len <= IMPORT_BLOCK_MAX_LEN,
{
    proof {
        lemma_import_layout(start as int);
    }
    let hint_name: u64 = align_to(
        start + (IMPORT_DIRECTORY_LEN as u64) + (IMPORT_LOOKUP_LEN as u64),
        HINT_NAME_ALIGNMENT as u64,
    );
    let table_end: u64 = hint_name + (HINT_NAME_LEN as u64) + (LIBRARY_NAME_LEN as u64);
    let stub_operand: u64 = align_to(
        table_end + (STUB_OPCODE_LEN as u64),
        STUB_OPERAND_ALIGNMENT as u64,
    );
    stub_operand + 4 - start
}

/// Computes the layout of the import block that starts at `start`.
pub fn import_layout(start: u32) -> (layout: ImportLayout)
    requires
        start + IMPORT_BLOCK_MAX_LEN <= u32::MAX,
    ensures
        layout == import_layout_of(start as int),
        layout.end - start == import_block_len(start as int),
{
    proof {
        lemma_import_layout(start as int);
    }
    let lookup_table: u32 = start + IMPORT_DIRECTORY_LEN;
    let hint_name: u32 = align_to(
        (lookup_table + IMPORT_LOOKUP_LEN) as u64,
        HINT_NAME_ALIGNMENT as u64,
    ) as u32;
    let library_name: u32 = hint_name + HINT_NAME_LEN;
    let table_end: u32 = library_name + LIBRARY_NAME_LEN;
    let stub_operand: u32 = align_to(
        (table_end + STUB_OPCODE_LEN) as u64,
        STUB_OPERAND_ALIGNMENT as u64,
    ) as u32;
    ImportLayout {
        directory: start,
        lookup_table,
        hint_name,
        library_name,
        table_size: table_end - start,
        entry_point: stub_operand - STUB_OPCODE_LEN,
        stub_operand,
        end: stub_operand + 4,
    }
}

/// The import directory: the entry of the runtime library, which names its
/// lookup table, its name and its import address table, and the empty entry
/// that closes the table.
#[verifier::opaque]
pub open spec fn import_directory(start: int, iat_rva: u32) -> Seq<u8> {
    let layout = import_layout_of(start);
    le_u32(layout.lookup_table) + le_u32(0) + le_u32(0) + le_u32(layout.library_name) + le_u32(
        iat_rva,
    ) + zeros(20)
}

/// The import lookup table: the address of the hint/name entry, and a zero
/// entry.
pub open spec fn import_lookup_table(start: int) -> Seq<u8> {
    le_u32(import_layout_of(start).hint_name) + le_u32(0)
}

/// The hint/name entry and the library name: a hint of zero, the name of the
/// entry function, the name of the library, each name ended by a zero byte,
/// and one more zero byte.
#[verifier::opaque]
pub open spec fn import_names() -> Seq<u8> {
    le_u16(0) + entry_function_name() + zeros(1) + library_name() + zeros(2)
}

/// The entry stub: a jump through the import address table, which lies at
/// `image_base + iat_rva` once the image is loaded at its preferred base.
pub open spec fn entry_stub(iat_rva: u32, image_base: u32) -> Seq<u8> {
    jump_opcode() + le_u32((image_base + iat_rva) as u32)
}

/// The import block that starts at the virtual address `start`, for an
/// import address table at `iat_rva`. Zero bytes fill the gaps that alignment
/// leaves before the hint/name entry and before the entry stub.
pub open spec fn import_block(start: int, iat_rva: u32, image_base: u32) -> Seq<u8> {
    import_directory(start, iat_rva) + import_lookup_table(start) + zeros(
        (hint_name_rva(start) - (start + IMPORT_DIRECTORY_LEN + IMPORT_LOOKUP_LEN)) as nat,
    ) + import_names() + zeros(
        (stub_operand_rva(start) - STUB_OPCODE_LEN - table_end_rva(start)) as nat,
    ) + entry_stub(iat_rva, image_base)
}

/// The base relocation block for the address inside the entry stub: the page
/// that holds it, the block's length, one entry of type HIGHLOW with the
/// address's offset in the page, and a zero entry that pads the block.
#[verifier::opaque]
pub open spec fn relocation_block(operand_rva: u32) -> Seq<u8> {
    le_u32((operand_rva - operand_rva % RELOCATION_PAGE) as u32) + le_u32(RELOCATION_BLOCK_LEN)
        + le_u16((RELOCATION_HIGHLOW + operand_rva % RELOCATION_PAGE) as u16) + le_u16(0)
}

/// The block is as long as its layout says.
pub proof fn lemma_import_block_len(start: int, iat_rva: u32, image_base: u32)
    requires
        0 <= start,
    ensures
        import_block(start, iat_rva, image_base).len() == import_block_len(start),
        import_directory(start, iat_rva).len() == IMPORT_DIRECTORY_LEN,
        import_lookup_table(start).len() == IMPORT_LOOKUP_LEN,
        import_names().len() == HINT_NAME_LEN + LIBRARY_NAME_LEN,
{
    reveal(entry_function_name);
    reveal(library_name);
    reveal(import_directory);
    reveal(import_names);
    lemma_import_layout(start);
}

/// A relocation block is 12 bytes long.
pub proof fn lemma_relocation_block_len(operand_rva: u32)
    ensures
        relocation_block(operand_rva).len() == RELOCATION_BLOCK_LEN,
{
    reveal(relocation_block);
}

/// Builds the import block that starts at the virtual address `start`.
pub fn import_block_bytes(start: u32, iat_rva: u32, image_base: u32) -> (bytes: Vec<u8>)
    requires
        start + IMPORT_BLOCK_MAX_LEN <= u32::MAX,
        image_base + iat_rva <= u32::MAX,
    ensures
        bytes@ == import_block(start as int, iat_rva, image_base),
        bytes@.len() == import_block_len(start as int),
{
    proof {
        reveal(entry_function_name);
        reveal(library_name);
        reveal(import_directory);
        reveal(import_names);
        lemma_import_layout(start as int);
    }
    let layout: ImportLayout = import_layout(start);
    let mut bytes: Vec<u8> = Vec::new();
    put_u32(&mut bytes, layout.lookup_table);
    put_u32(&mut bytes, 0);
    put_u32(&mut bytes, 0);
    put_u32(&mut bytes, layout.library_name);
    put_u32(&mut bytes, iat_rva);
    put_zeros(&mut bytes, 20);
    assert(bytes@ =~= import_directory(start as int, iat_rva));
    let ghost directory = bytes@;
    put_u32(&mut bytes, layout.hint_name);
    put_u32(&mut bytes, 0);
    assert(bytes@ =~= directory + import_lookup_table(start as int));
    let ghost tables = bytes@;
    put_zeros(
        &mut bytes,
        (layout.hint_name - (layout.lookup_table + IMPORT_LOOKUP_LEN)) as usize,
    );
    let ghost aligned = bytes@;
    put_u16(&mut bytes, 0);
    let entry_name: Vec<u8> = vec![
        0x5Fu8, 0x43, 0x6F, 0x72, 0x44, 0x6C, 0x6C, 0x4D, 0x61, 0x69, 0x6E,
    ];
    assert(entry_name@ =~= entry_function_name());
    put_bytes(&mut bytes, entry_name.as_slice());
    put_zeros(&mut bytes, 1);
    let library: Vec<u8> = vec![
        0x6Du8, 0x73, 0x63, 0x6F, 0x72, 0x65, 0x65, 0x2E, 0x64, 0x6C, 0x6C,
    ];
    assert(library@ =~= library_name());
    put_bytes(&mut bytes, library.as_slice());
    put_zeros(&mut bytes, 2);
    assert(bytes@ =~= aligned + import_names());
    let ghost named = bytes@;
    put_zeros(
        &mut bytes,
        (layout.entry_point - (layout.library_name + LIBRARY_NAME_LEN)) as usize,
    );
    let ghost padded = bytes@;
    let opcode: Vec<u8> = vec![0xFFu8, 0x25];
    assert(opcode@ =~= jump_opcode());
    put_bytes(&mut bytes, opcode.as_slice());
    put_u32(&mut bytes, image_base + iat_rva);
    assert(bytes@ =~= padded + entry_stub(iat_rva, image_base));
    assert(bytes@ =~= import_block(start as int, iat_rva, image_base));
    bytes
}

/// Builds the base relocation block for the address at `operand_rva`.
pub fn relocation_block_bytes(operand_rva: u32) -> (bytes: Vec<u8>)
    ensures
        bytes@ == relocation_block(operand_rva),
        bytes@.len() == RELOCATION_BLOCK_LEN,
{
    proof {
        reveal(relocation_block);
    }
    let offset: u32 = operand_rva % RELOCATION_PAGE;
    let mut bytes: Vec<u8> = Vec::new();
    put_u32(&mut bytes, operand_rva - offset);
    put_u32(&mut bytes, RELOCATION_BLOCK_LEN);
    put_u16(&mut bytes, RELOCATION_HIGHLOW + (offset as u16));
    put_u16(&mut bytes, 0);
    assert(bytes@ =~= relocation_block(operand_rva));
    bytes
}

/// The import block ends with the entry stub: the opcode at the entry point,
/// and behind it the address that the relocation block names.
pub proof fn lemma_entry_stub(start: int, iat_rva: u32, image_base: u32)
    requires
        0 <= start,
        start + IMPORT_BLOCK_MAX_LEN <= u32::MAX,
    ensures
        import_layout_of(start).entry_point + STUB_OPCODE_LEN == import_layout_of(
            start,
        ).stub_operand,
        import_layout_of(start).stub_operand + 4 == start + import_block_len(start),
        entry_stub(iat_rva, image_base).len() == STUB_OPCODE_LEN + 4,
        import_block(start, iat_rva, image_base).subrange(
            import_layout_of(start).entry_point - start,
            import_block_len(start),
        ) == entry_stub(iat_rva, image_base),
{
    lemma_import_layout(start);
    lemma_import_block_len(start, iat_rva, image_base);
    let block = import_block(start, iat_rva, image_base);
    let stub = entry_stub(iat_rva, image_base);
    assert(block.subrange(block.len() - stub.len(), block.len() as int) =~= stub);
}

} // verus!
