//! The MS-DOS stub that opens every image, and the PE signature behind it.
use vstd::prelude::*;
use crate::codec::{le_u32, lemma_u32_field, put_bytes, put_u32, put_zeros, u32_at, zeros};
use crate::layout::{DOS_STUB_LEN, PE_SIGNATURE_LEN};

verus! {

/// The offset in the stub of `e_lfanew`, the file offset of the PE signature.
pub const LFANEW_OFFSET: u32 = 0x3C;

/// The DOS header up to `e_lfanew`: the magic `MZ` and the fields of a stub
/// program of one page, then reserved zero bytes.
#[verifier::opaque]
pub open spec fn dos_header_fields() -> Seq<u8> {
    seq![
        0x4Du8, 0x5A, 0x90, 0x00, 0x03, 0x00, 0x00, 0x00,
        0x04, 0x00, 0x00, 0x00, 0xFF, 0xFF, 0x00, 0x00,
        0xB8, 0x00, 0x00, 0x00, 0x00, 0x00, 0x00, 0x00,
        0x40, 0x00, 0x00, 0x00,
    ] + zeros(32)
}

/// The stub program: it prints the message that follows it and exits.
#[verifier::opaque]
pub open spec fn dos_program() -> Seq<u8> {
    seq![
        0x0Eu8, 0x1F, 0xBA, 0x0E, 0x00, 0xB4, 0x09, 0xCD,
        0x21, 0xB8, 0x01, 0x4C, 0xCD, 0x21,
    ]
}

/// The text `This program cannot be run in DOS mode.`, then CR CR LF and the
/// terminator `$`.
#[verifier::opaque]
pub open spec fn dos_message() -> Seq<u8> {
    seq![
        0x54u8, 0x68, 0x69, 0x73, 0x20, 0x70, 0x72, 0x6F,
        0x67, 0x72, 0x61, 0x6D, 0x20, 0x63, 0x61, 0x6E,
        0x6E, 0x6F, 0x74, 0x20, 0x62, 0x65, 0x20, 0x72,
        0x75, 0x6E, 0x20, 0x69, 0x6E, 0x20, 0x44, 0x4F,
        0x53, 0x20, 0x6D, 0x6F, 0x64, 0x65, 0x2E, 0x0D,
        0x0D, 0x0A, 0x24,
    ]
}

/// What follows `e_lfanew`: the program, its message, and zero bytes up to
/// the next multiple of eight.
pub open spec fn dos_tail() -> Seq<u8> {
    dos_program() + dos_message() + zeros(7)
}

/// The whole stub. Its `e_lfanew` field holds the stub's own length: the PE
/// signature follows the stub at once.
pub open spec fn dos_stub() -> Seq<u8> {
    dos_header_fields() + le_u32(DOS_STUB_LEN) + dos_tail()
}

/// The signature `PE\0\0`.
pub open spec fn pe_signature() -> Seq<u8> {
    seq![0x50u8, 0x45, 0x00, 0x00]
}

/// The stub is 128 bytes long, and its `e_lfanew` field points just behind
/// it.
pub proof fn lemma_dos_stub()
    ensures
        dos_stub().len() == DOS_STUB_LEN,
        u32_at(dos_stub(), LFANEW_OFFSET as int) == dos_stub().len(),
        pe_signature().len() == PE_SIGNATURE_LEN,
{
    reveal(dos_header_fields);
    reveal(dos_program);
    reveal(dos_message);
    let s = dos_stub();
    assert(dos_header_fields().len() == 60);
    assert(dos_tail().len() == 64);
    assert(s.subrange(60, 64) =~= le_u32(DOS_STUB_LEN));
    lemma_u32_field(s, 60, DOS_STUB_LEN);
}

/// Builds the stub. The value of `e_lfanew` is computed from the lengths of
/// the parts.
pub fn dos_stub_bytes() -> (bytes: Vec<u8>)
    ensures
        bytes@ == dos_stub(),
        bytes@.len() == DOS_STUB_LEN,
{
    proof {
        reveal(dos_header_fields);
        reveal(dos_program);
        reveal(dos_message);
    }
    let mut head: Vec<u8> = vec![
        0x4Du8, 0x5A, 0x90, 0x00, 0x03, 0x00, 0x00, 0x00,
        0x04, 0x00, 0x00, 0x00, 0xFF, 0xFF, 0x00, 0x00,
        0xB8, 0x00, 0x00, 0x00, 0x00, 0x00, 0x00, 0x00,
        0x40, 0x00, 0x00, 0x00,
    ];
    put_zeros(&mut head, 32);
    assert(head@ =~= dos_header_fields());
    let mut tail: Vec<u8> = vec![
        0x0Eu8, 0x1F, 0xBA, 0x0E, 0x00, 0xB4, 0x09, 0xCD,
        0x21, 0xB8, 0x01, 0x4C, 0xCD, 0x21,
    ];
    let message: Vec<u8> = vec![
        0x54u8, 0x68, 0x69, 0x73, 0x20, 0x70, 0x72, 0x6F,
        0x67, 0x72, 0x61, 0x6D, 0x20, 0x63, 0x61, 0x6E,
        0x6E, 0x6F, 0x74, 0x20, 0x62, 0x65, 0x20, 0x72,
        0x75, 0x6E, 0x20, 0x69, 0x6E, 0x20, 0x44, 0x4F,
        0x53, 0x20, 0x6D, 0x6F, 0x64, 0x65, 0x2E, 0x0D,
        0x0D, 0x0A, 0x24,
    ];
    assert(message@ =~= dos_message());
    put_bytes(&mut tail, message.as_slice());
    put_zeros(&mut tail, 7);
    assert(tail@ =~= dos_tail());
    let lfanew: u32 = (head.len() + 4 + tail.len()) as u32;
    let mut bytes: Vec<u8> = head;
    put_u32(&mut bytes, lfanew);
    put_bytes(&mut bytes, tail.as_slice());
    bytes
}

/// Builds the signature `PE\0\0`.
pub fn pe_signature_bytes() -> (bytes: Vec<u8>)
    ensures
        bytes@ == pe_signature(),
        bytes@.len() == PE_SIGNATURE_LEN,
{
    let bytes: Vec<u8> = vec![0x50u8, 0x45, 0x00, 0x00];
    assert(bytes@ =~= pe_signature());
    bytes
}

} // verus!
