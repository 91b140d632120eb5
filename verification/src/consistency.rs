//! The cross-references of an image agree: what a header says of another
//! part's place is where that part lies in the file.
use vstd::prelude::*;
use crate::cli::{CLIHeader, CLI_HEADER_LEN};
use crate::codec::{le_u32, le_u64, lemma_padding_to_4, zeros};
use crate::dos::{dos_stub, lemma_dos_stub, pe_signature};
use crate::image::{
    lemma_bodies_len, lemma_body_lens, lemma_layout_facts, lemma_measure, lemma_root_len,
    Image, IMAGE_BASE, NUM_STREAMS,
};
use crate::imports::{
    import_block, import_block_len, import_layout_of, lemma_entry_stub, lemma_import_block_len,
    lemma_import_layout, lemma_relocation_block_len, relocation_block, stub_operand_rva,
    IMPORT_BLOCK_MAX_LEN, RELOCATION_BLOCK_LEN, STUB_OPCODE_LEN,
};
use crate::layout::{
    headers_len, COFF_HEADER_LEN, DOS_STUB_LEN, PE_OPT_HEADER_LEN, PE_SIGNATURE_LEN,
};
use crate::optional_header::{PEOptHeader, FILE_ALIGNMENT, SECTION_ALIGNMENT};
use crate::pe::{COFFHeader, ImageSectionHeader, IMPORT_ADDRESS_TABLE_LEN};
use crate::tables::{
    lemma_tables_len, Tables, TABLES_FIXED_LEN, TABLES_MAJOR_VERSION, TABLES_MINOR_VERSION,
    TABLES_RESERVED,
};
use crate::winmd::Winmd;

verus! {

/// The middle one of three sequences that follow each other can be cut out
/// again by its offset and length.
pub proof fn lemma_middle(before: Seq<u8>, part: Seq<u8>, after: Seq<u8>)
    ensures
        (before + part + after).subrange(
            before.len() as int,
            (before.len() + part.len()) as int,
        ) == part,
{
    let whole = before + part + after;
    assert(whole.subrange(before.len() as int, (before.len() + part.len()) as int) =~= part);
}

/// A slice of a slice is a slice of the whole.
pub proof fn lemma_slice_of_slice(s: Seq<u8>, from: int, to: int, a: int, b: int)
    requires
        0 <= from <= to <= s.len(),
        0 <= a <= b <= to - from,
    ensures
        s.subrange(from, to).subrange(a, b) == s.subrange(from + a, from + b),
{
    assert(s.subrange(from, to).subrange(a, b) =~= s.subrange(from + a, from + b));
}

/// The offset in the file of a virtual address inside a section: the distance
/// from the section's start is the same in the file and in memory.
pub open spec fn file_offset(rva: int, section_rva: int, section_pointer: int) -> int {
    rva - section_rva + section_pointer
}

/// The headers are 456 bytes long, and the header region is as long as the
/// optional header says.
pub proof fn lemma_header_region(image: Image)
    requires
        image.wf(),
    ensures
        image.headers().len() == headers_len(2),
        image.header_region().len() == image.header_region_len(),
        image.header_region_len() == image.opt_header().size_headers,
{
    assert(dos_stub().len() == 128 && pe_signature().len() == 4) by {
        lemma_dos_stub();
    }
    image.coff_header().lemma_encode_len();
    image.opt_header().lemma_encode_len();
    ImageSectionHeader::of_planned(image.section(0)).lemma_encode_len();
    ImageSectionHeader::of_planned(image.section(1)).lemma_encode_len();
    assert(image.header_region_len() == FILE_ALIGNMENT) by {
        lemma_layout_facts(image);
    }
}

/// The content of `.text` is as long as its section header says.
pub proof fn lemma_text_content_len(image: Image)
    requires
        image.wf(),
    ensures
        image.text_content().len() == image.text_len(),
        image.reloc_content().len() == RELOCATION_BLOCK_LEN,
{
    lemma_measure(image);
    lemma_root_len(image);
    lemma_import_block_len(image.import_rva(), image.iat_rva() as u32, IMAGE_BASE);
    image.cli_header().lemma_encode_len();
    image.import_address_table().lemma_encode_len();
    lemma_relocation_block_len(stub_operand_rva(image.import_rva()) as u32);
}

/// The file regions of the two sections are as long as their section
/// headers say.
pub proof fn lemma_section_region_lens(image: Image)
    requires
        image.wf(),
    ensures
        image.text_region().len() == image.section(0).size_raw_data,
        image.reloc_region().len() == image.section(1).size_raw_data,
{
    lemma_text_content_len(image);
    lemma_layout_facts(image);
}

/// The file is as long as the header region and the sections' regions
/// together.
#[verifier::rlimit(40)]
pub proof fn lemma_region_lens(image: Image)
    requires
        image.wf(),
    ensures
        image.header_region().len() == image.header_region_len(),
        image.text_region().len() == image.section(0).size_raw_data,
        image.reloc_region().len() == image.section(1).size_raw_data,
        image.bytes().len() == image.header_region_len() + image.section(0).size_raw_data
            + image.section(1).size_raw_data,
        image.bytes().len() == image.file_len(),
{
    lemma_header_region(image);
    lemma_section_region_lens(image);
    assert(image.file_len() == image.header_region_len() + image.section(0).size_raw_data
        + image.section(1).size_raw_data) by {
        lemma_layout_facts(image);
    }
}

/// A part of a part of a whole can be cut out of the whole by the sum of
/// the offsets.
pub proof fn lemma_part_of_part(
    whole: Seq<u8>,
    before: Seq<u8>,
    middle: Seq<u8>,
    after: Seq<u8>,
    inner_before: Seq<u8>,
    part: Seq<u8>,
    inner_after: Seq<u8>,
)
    requires
        whole == before + middle + after,
        middle == inner_before + part + inner_after,
    ensures
        whole.subrange(
            (before.len() + inner_before.len()) as int,
            (before.len() + inner_before.len() + part.len()) as int,
        ) == part,
{
    assert(whole.subrange(
        (before.len() + inner_before.len()) as int,
        (before.len() + inner_before.len() + part.len()) as int,
    ) =~= part);
}

/// The file offset of the metadata root: the CLI header's metadata
/// directory, taken as an address inside `.text`.
pub open spec fn metadata_offset(image: Image) -> int {
    file_offset(
        image.cli_header().metadata.virtual_address as int,
        image.section(0).virtual_address as int,
        image.section(0).pointer_raw_data as int,
    )
}

/// The metadata directory of the CLI header points into `.text`, and where it
/// points, the file holds the metadata: the root first, then the streams, in
/// exactly as many bytes as the directory says.
#[verifier::rlimit(40)]
pub proof fn lemma_metadata_directory(image: Image)
    requires
        image.wf(),
    ensures
        image.section(0).virtual_address <= image.cli_header().metadata.virtual_address,
        image.cli_header().metadata.virtual_address + image.cli_header().metadata.size
            <= image.section(0).virtual_address + image.section(0).virtual_size,
        metadata_offset(image) == image.header_region_len() + IMPORT_ADDRESS_TABLE_LEN
            + CLI_HEADER_LEN,
        metadata_offset(image) + image.cli_header().metadata.size <= image.bytes().len(),
        image.cli_header().metadata.size == image.metadata().len(),
        image.bytes().subrange(
            metadata_offset(image),
            metadata_offset(image) + image.cli_header().metadata.size,
        ) == image.metadata(),
{
    let before = image.import_address_table().encode() + image.cli_header().encode();
    let import = import_block(image.import_rva(), image.iat_rva() as u32, IMAGE_BASE);
    let after = import + zeros((image.section(0).size_raw_data - image.text_len()) as nat);
    assert(before.len() == IMPORT_ADDRESS_TABLE_LEN + CLI_HEADER_LEN) by {
        image.cli_header().lemma_encode_len();
        image.import_address_table().lemma_encode_len();
    }
    assert(image.text_region() =~= before + image.metadata() + after);
    lemma_part_of_part(
        image.bytes(),
        image.header_region(),
        image.text_region(),
        image.reloc_region(),
        before,
        image.metadata(),
        after,
    );
    lemma_region_lens(image);
    lemma_text_content_len(image);
    assert(image.metadata().len() == image.metadata_len()) by {
        lemma_root_len(image);
    }
    assert(0 <= image.metadata_len() && image.import_rva() + IMPORT_BLOCK_MAX_LEN <= u32::MAX
        && image.text_rva() == SECTION_ALIGNMENT && image.section(0).virtual_address
        == image.text_rva() && image.section(0).pointer_raw_data == image.header_region_len()
        && image.section(0).virtual_size == image.text_len() && image.section(0).size_raw_data
        >= image.text_len() && image.text_len() == IMPORT_ADDRESS_TABLE_LEN + CLI_HEADER_LEN
        + image.metadata_len() + import_block_len(image.import_rva()) && import_block_len(
        image.import_rva(),
    ) > 0) by {
        lemma_measure(image);
        lemma_layout_facts(image);
        lemma_import_layout(image.import_rva());
    }
}

/// The body of stream `i` lies in the bodies of the first `k` streams where
/// the bodies before it end.
pub proof fn lemma_body_in_bodies(image: Image, i: int, k: int)
    requires
        0 <= i < k <= NUM_STREAMS,
    ensures
        image.bodies(i).len() + image.stream_body(i).len() <= image.bodies(k).len(),
        image.bodies(k).subrange(
            image.bodies(i).len() as int,
            (image.bodies(i).len() + image.stream_body(i).len()) as int,
        ) == image.stream_body(i),
    decreases k,
{
    let from = image.bodies(i).len() as int;
    let to = (image.bodies(i).len() + image.stream_body(i).len()) as int;
    if k == i + 1 {
        assert(image.bodies(k).subrange(from, to) =~= image.stream_body(i));
    } else {
        lemma_body_in_bodies(image, i, k - 1);
        assert(image.bodies(k).subrange(from, to) =~= image.bodies(k - 1).subrange(from, to));
    }
}

/// The body of stream `i` lies in the metadata at the stream's offset.
pub proof fn lemma_stream_in_metadata(image: Image, i: int)
    requires
        0 <= i < NUM_STREAMS,
    ensures
        image.stream_offset(i) + image.stream_body(i).len() <= image.metadata().len(),
        image.metadata().subrange(
            image.stream_offset(i),
            image.stream_offset(i) + image.stream_body(i).len(),
        ) == image.stream_body(i),
{
    let from = image.bodies(i).len() as int;
    let to = (image.bodies(i).len() + image.stream_body(i).len()) as int;
    lemma_body_in_bodies(image, i, NUM_STREAMS as int);
    assert(image.root().len() == image.root_len()) by {
        lemma_root_len(image);
    }
    assert(image.metadata().subrange(image.root_len() + from, image.root_len() + to)
        =~= image.bodies(NUM_STREAMS as int).subrange(from, to));
}

/// What the directory entry of stream `i` holds: the stream's offset and
/// length, both multiples of four, and both inside the metadata.
#[verifier::rlimit(40)]
pub proof fn lemma_stream_entry(image: Image, i: int)
    requires
        image.wf(),
        0 <= i < NUM_STREAMS,
    ensures
        image.stream_directory()[i].offset == image.stream_offset(i),
        image.stream_directory()[i].size == image.stream_body(i).len(),
        image.stream_directory()[i].offset % 4 == 0,
        image.stream_directory()[i].size % 4 == 0,
        image.stream_directory()[i].offset + image.stream_directory()[i].size
            <= image.cli_header().metadata.size,
        image.cli_header().metadata.size == image.metadata().len(),
{
    lemma_stream_in_metadata(image, i);
    assert(image.root_len() % 4 == 0 && image.root_len() >= 0 && image.metadata().len()
        == image.metadata_len()) by {
        lemma_root_len(image);
    }
    assert(image.bodies(i).len() % 4 == 0) by {
        lemma_bodies_len(image, i);
    }
    assert(image.stream_body(i).len() % 4 == 0) by {
        lemma_body_lens(image);
    }
    assert(0 <= image.metadata_len() <= u32::MAX) by {
        lemma_measure(image);
        lemma_layout_facts(image);
        lemma_import_layout(image.import_rva());
    }
}

/// Each entry of the stream directory says where its stream lies: the slice
/// of the file that starts at the entry's offset from the metadata root, and
/// is as long as the entry's size, is the stream's body.
pub proof fn lemma_stream_slice(image: Image, i: int)
    requires
        image.wf(),
        0 <= i < NUM_STREAMS,
    ensures
        image.bytes().subrange(
            metadata_offset(image) + image.stream_directory()[i].offset,
            metadata_offset(image) + image.stream_directory()[i].offset
                + image.stream_directory()[i].size,
        ) == image.stream_body(i),
{
    let at = metadata_offset(image);
    let from = image.stream_offset(i);
    let to = from + image.stream_body(i).len();
    lemma_stream_entry(image, i);
    lemma_stream_in_metadata(image, i);
    lemma_metadata_directory(image);
    lemma_slice_of_slice(image.bytes(), at, at + image.metadata().len(), from, to);
}

/// The tables stream opens with a reserved zero, its version 2.0, the
/// heap-size flags and the reserved byte 1.
pub proof fn lemma_tables_magic(tables: Tables)
    ensures
        tables.encode().len() >= TABLES_FIXED_LEN,
        tables.encode().subrange(0, 4) == le_u32(0),
        tables.encode()[4] == TABLES_MAJOR_VERSION,
        tables.encode()[5] == TABLES_MINOR_VERSION,
        tables.encode()[6] == tables.heap_sizes,
        tables.encode()[7] == TABLES_RESERVED,
        tables.encode().subrange(8, 16) == le_u64(tables.valid),
        tables.encode().subrange(16, 24) == le_u64(tables.sorted),
{
    lemma_tables_len(tables);
    lemma_padding_to_4(tables.encode_unpadded().len() as int);
    reveal(Tables::encode_fixed);
    let fixed = tables.encode_fixed();
    assert(fixed.len() == 24);
    assert(fixed.subrange(0, 4) =~= le_u32(0));
    assert(fixed.subrange(8, 16) =~= le_u64(tables.valid));
    assert(fixed.subrange(16, 24) =~= le_u64(tables.sorted));
    assert(tables.encode().subrange(0, 24) =~= fixed);
    assert(tables.encode().subrange(0, 4) =~= fixed.subrange(0, 4));
    assert(tables.encode().subrange(8, 16) =~= fixed.subrange(8, 16));
    assert(tables.encode().subrange(16, 24) =~= fixed.subrange(16, 24));
    assert(tables.encode()[4] == fixed[4]);
    assert(tables.encode()[5] == fixed[5]);
    assert(tables.encode()[6] == fixed[6]);
    assert(tables.encode()[7] == fixed[7]);
}

/// The bytes of the file are a function of what the image is made from: two
/// writers that hold the same input give the same file. Nothing else, no
/// clock among it, enters the file.
pub proof fn lemma_same_input_same_bytes(a: Winmd, b: Winmd)
    requires
        a@ == b@,
    ensures
        a@.bytes() == b@.bytes(),
        a@.wf() == b@.wf(),
{
}

/// The file offset of the COFF header: behind the DOS stub and the PE
/// signature, where `e_lfanew` points.
pub open spec fn coff_offset() -> int {
    DOS_STUB_LEN + PE_SIGNATURE_LEN
}

/// The file offset of the PE optional header: behind the COFF header.
pub open spec fn opt_header_offset() -> int {
    coff_offset() + COFF_HEADER_LEN
}

/// The file offset of the CLI header: the optional header's CLI directory,
/// taken as an address inside `.text`.
pub open spec fn cli_offset(image: Image) -> int {
    file_offset(
        image.opt_header().cli_header.virtual_address as int,
        image.section(0).virtual_address as int,
        image.section(0).pointer_raw_data as int,
    )
}

/// The COFF header can be decoded from the file, and is the header that the
/// image was given.
pub proof fn lemma_coff_header_in_file(image: Image)
    requires
        image.wf(),
    ensures
        opt_header_offset() <= image.bytes().len(),
        COFFHeader::decode(image.bytes().subrange(coff_offset(), opt_header_offset())) == Some(
            image.coff_header(),
        ),
{
    let coff = image.coff_header().encode();
    let inner_before = dos_stub() + pe_signature();
    let inner_after = image.opt_header().encode() + ImageSectionHeader::of_planned(
        image.section(0),
    ).encode() + ImageSectionHeader::of_planned(image.section(1)).encode() + zeros(
        (image.header_region_len() - image.headers().len()) as nat,
    );
    let after = image.text_region() + image.reloc_region();
    assert(inner_before.len() == coff_offset()) by {
        lemma_dos_stub();
    }
    image.coff_header().lemma_round_trip();
    assert(image.header_region() =~= inner_before + coff + inner_after);
    assert(image.bytes() =~= Seq::<u8>::empty() + image.header_region() + after);
    lemma_part_of_part(
        image.bytes(),
        Seq::<u8>::empty(),
        image.header_region(),
        after,
        inner_before,
        coff,
        inner_after,
    );
}

/// The PE optional header can be decoded from the file, and is the header
/// that the image was given.
#[verifier::rlimit(40)]
pub proof fn lemma_opt_header_in_file(image: Image)
    requires
        image.wf(),
    ensures
        opt_header_offset() + PE_OPT_HEADER_LEN <= image.bytes().len(),
        PEOptHeader::decode(
            image.bytes().subrange(opt_header_offset(), opt_header_offset() + PE_OPT_HEADER_LEN),
        ) == Some(image.opt_header()),
{
    let optional = image.opt_header().encode();
    let inner_before = dos_stub() + pe_signature() + image.coff_header().encode();
    let inner_after = ImageSectionHeader::of_planned(image.section(0)).encode()
        + ImageSectionHeader::of_planned(image.section(1)).encode() + zeros(
        (image.header_region_len() - image.headers().len()) as nat,
    );
    let after = image.text_region() + image.reloc_region();
    assert(inner_before.len() == opt_header_offset()) by {
        lemma_dos_stub();
        image.coff_header().lemma_encode_len();
    }
    image.opt_header().lemma_round_trip();
    assert(image.header_region() =~= inner_before + optional + inner_after);
    assert(image.bytes() =~= Seq::<u8>::empty() + image.header_region() + after);
    lemma_part_of_part(
        image.bytes(),
        Seq::<u8>::empty(),
        image.header_region(),
        after,
        inner_before,
        optional,
        inner_after,
    );
}

/// The CLI directory of the optional header points into `.text`, and where
/// it points, the CLI header can be decoded from the file: it is the header
/// that the image was given.
#[verifier::rlimit(40)]
pub proof fn lemma_cli_header_in_file(image: Image)
    requires
        image.wf(),
    ensures
        image.opt_header().cli_header.size == CLI_HEADER_LEN,
        cli_offset(image) == image.header_region_len() + IMPORT_ADDRESS_TABLE_LEN,
        cli_offset(image) + CLI_HEADER_LEN <= image.bytes().len(),
        CLIHeader::decode(
            image.bytes().subrange(cli_offset(image), cli_offset(image) + CLI_HEADER_LEN),
        ) == Some(image.cli_header()),
{
    let inner_before = image.import_address_table().encode();
    let cli = image.cli_header().encode();
    let import = import_block(image.import_rva(), image.iat_rva() as u32, IMAGE_BASE);
    let inner_after = image.metadata() + import + zeros(
        (image.section(0).size_raw_data - image.text_len()) as nat,
    );
    assert(inner_before.len() == IMPORT_ADDRESS_TABLE_LEN) by {
        image.import_address_table().lemma_encode_len();
    }
    image.cli_header().lemma_round_trip();
    assert(image.text_region() =~= inner_before + cli + inner_after);
    lemma_part_of_part(
        image.bytes(),
        image.header_region(),
        image.text_region(),
        image.reloc_region(),
        inner_before,
        cli,
        inner_after,
    );
    lemma_region_lens(image);
    assert(image.text_rva() == SECTION_ALIGNMENT && image.section(0).virtual_address
        == image.text_rva() && image.section(0).pointer_raw_data == image.header_region_len())
        by {
        lemma_layout_facts(image);
    }
}

/// The import-address-table directory of the optional header points at
/// the start of `.text`, and the file holds the import address table there.
pub proof fn lemma_import_address_table_in_file(image: Image)
    requires
        image.wf(),
    ensures
        image.opt_header().import_address_table.size == IMPORT_ADDRESS_TABLE_LEN,
        file_offset(
            image.opt_header().import_address_table.virtual_address as int,
            image.section(0).virtual_address as int,
            image.section(0).pointer_raw_data as int,
        ) == image.header_region_len(),
        image.header_region_len() + IMPORT_ADDRESS_TABLE_LEN <= image.bytes().len(),
        image.bytes().subrange(
            image.header_region_len(),
            image.header_region_len() + IMPORT_ADDRESS_TABLE_LEN,
        ) == image.import_address_table().encode(),
{
    let table = image.import_address_table().encode();
    let import = import_block(image.import_rva(), image.iat_rva() as u32, IMAGE_BASE);
    let inner_after = image.cli_header().encode() + image.metadata() + import + zeros(
        (image.section(0).size_raw_data - image.text_len()) as nat,
    );
    image.import_address_table().lemma_encode_len();
    assert(image.text_region() =~= Seq::<u8>::empty() + table + inner_after);
    lemma_part_of_part(
        image.bytes(),
        image.header_region(),
        image.text_region(),
        image.reloc_region(),
        Seq::<u8>::empty(),
        table,
        inner_after,
    );
    lemma_region_lens(image);
    assert(image.text_rva() == SECTION_ALIGNMENT && image.section(0).virtual_address
        == image.text_rva() && image.section(0).pointer_raw_data == image.header_region_len())
        by {
        lemma_layout_facts(image);
    }
}

/// The base-relocation directory of the optional header points at the start
/// of `.reloc`, and the file holds the relocation block there.
pub proof fn lemma_relocations_in_file(image: Image)
    requires
        image.wf(),
    ensures
        image.opt_header().base_relocation_table.virtual_address == image.section(
            1,
        ).virtual_address,
        image.opt_header().base_relocation_table.size == image.section(1).virtual_size,
        image.section(1).pointer_raw_data + RELOCATION_BLOCK_LEN <= image.bytes().len(),
        image.bytes().subrange(
            image.section(1).pointer_raw_data as int,
            image.section(1).pointer_raw_data + RELOCATION_BLOCK_LEN,
        ) == image.reloc_content(),
{
    let padding = zeros((image.section(1).size_raw_data - RELOCATION_BLOCK_LEN) as nat);
    lemma_region_lens(image);
    lemma_text_content_len(image);
    assert(image.section(1).pointer_raw_data == image.header_region_len() + image.section(
        0,
    ).size_raw_data && image.section(1).virtual_size == RELOCATION_BLOCK_LEN && image.section(
        1,
    ).size_raw_data == FILE_ALIGNMENT) by {
        lemma_layout_facts(image);
    }
    let before = image.header_region() + image.text_region();
    assert(image.bytes() =~= before + image.reloc_content() + padding);
    lemma_middle(before, image.reloc_content(), padding);
}

/// The import directory of the optional header points behind the metadata,
/// and the file holds the import block there. The entry point of the image
/// is the entry stub at the end of the block; the import address table points
/// at the block's hint/name entry; and the relocation block names the address
/// inside the stub.
pub proof fn lemma_import_block_in_file(image: Image)
    requires
        image.wf(),
    ensures
        image.opt_header().import_table.virtual_address == image.import_rva(),
        image.opt_header().import_table.virtual_address
            + image.opt_header().import_table.size <= image.opt_header().entry_point,
        image.opt_header().entry_point + STUB_OPCODE_LEN + 4 == image.section(0).virtual_address
            + image.section(0).virtual_size,
        image.import_address_table().hint_name_table_rva == import_layout_of(
            image.import_rva(),
        ).hint_name,
        image.reloc_content() == relocation_block(
            (image.opt_header().entry_point + STUB_OPCODE_LEN) as u32,
        ),
        metadata_offset(image) + image.metadata().len() + import_block_len(image.import_rva())
            <= image.bytes().len(),
        image.bytes().subrange(
            metadata_offset(image) + image.metadata().len(),
            metadata_offset(image) + image.metadata().len() + import_block_len(
                image.import_rva(),
            ),
        ) == import_block(image.import_rva(), image.iat_rva() as u32, IMAGE_BASE),
{
    let before = image.import_address_table().encode() + image.cli_header().encode()
        + image.metadata();
    let import = import_block(image.import_rva(), image.iat_rva() as u32, IMAGE_BASE);
    let after = zeros((image.section(0).size_raw_data - image.text_len()) as nat);
    assert(image.text_region() =~= before + import + after);
    lemma_part_of_part(
        image.bytes(),
        image.header_region(),
        image.text_region(),
        image.reloc_region(),
        before,
        import,
        after,
    );
    lemma_metadata_directory(image);
    lemma_region_lens(image);
    assert(before.len() == IMPORT_ADDRESS_TABLE_LEN + CLI_HEADER_LEN + image.metadata().len())
        by {
        image.cli_header().lemma_encode_len();
        image.import_address_table().lemma_encode_len();
    }
    assert(0 <= image.import_rva() && image.import_rva() + IMPORT_BLOCK_MAX_LEN <= u32::MAX
        && image.section(0).virtual_address == SECTION_ALIGNMENT && image.section(0).virtual_size
        == image.text_len() && image.section(0).size_raw_data >= image.text_len()
        && image.text_len() == IMPORT_ADDRESS_TABLE_LEN + CLI_HEADER_LEN + image.metadata_len()
        + import_block_len(image.import_rva()) && image.import_rva() == SECTION_ALIGNMENT
        + IMPORT_ADDRESS_TABLE_LEN + CLI_HEADER_LEN + image.metadata_len()) by {
        lemma_measure(image);
        lemma_layout_facts(image);
    }
    lemma_import_layout(image.import_rva());
    lemma_entry_stub(image.import_rva(), image.iat_rva() as u32, IMAGE_BASE);
    lemma_import_block_len(image.import_rva(), image.iat_rva() as u32, IMAGE_BASE);
}

} // verus!
