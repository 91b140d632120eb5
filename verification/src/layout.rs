//! The section layout planner.
//!
//! Given the sections of an image in order, the planner places each one in the
//! file and in virtual address space. Sections are packed one after another;
//! file pointers are rounded up to the file alignment and virtual addresses to
//! the section alignment. Every section occupies at least one whole
//! file-alignment unit, an empty one too.
use vstd::prelude::*;
use vstd::arithmetic::div_mod::lemma_fundamental_div_mod;
use vstd::arithmetic::div_mod::lemma_mod_multiples_basic;
use crate::codec::{ascii_bytes, is_plain_ascii, is_plain_ascii_text, zeros};

verus! {

/// Length in bytes of the DOS stub that opens the file.
pub const DOS_STUB_LEN: u32 = 128;

/// Length in bytes of the signature `PE\0\0`.
pub const PE_SIGNATURE_LEN: u32 = 4;

/// Length in bytes of the COFF header.
pub const COFF_HEADER_LEN: u32 = 20;

/// Length in bytes of the PE optional header, data directories included.
pub const PE_OPT_HEADER_LEN: u32 = 224;

/// Length in bytes of one section header.
pub const SECTION_HEADER_LEN: u32 = 40;

/// The largest number of sections that the COFF header can count.
pub const MAX_SECTIONS: usize = 0xFFFF;

/// `x` rounded up to the next multiple of `a`.
#[verifier::opaque]
pub open spec fn align_up(x: int, a: int) -> int {
    if x % a == 0 {
        x
    } else {
        x + a - x % a
    }
}

/// The unpadded length of all headers of an image with `n` sections.
pub open spec fn headers_len(n: int) -> int {
    DOS_STUB_LEN + PE_SIGNATURE_LEN + COFF_HEADER_LEN + PE_OPT_HEADER_LEN + SECTION_HEADER_LEN * n
}

/// The size of the header region: all headers, padded to the file alignment.
pub open spec fn size_headers(n: int, file_alignment: int) -> int {
    align_up(headers_len(n), file_alignment)
}

/// The size of a section's region in the file: its content padded to the file
/// alignment, and one whole unit where it has no content.
pub open spec fn raw_size(content_len: int, file_alignment: int) -> int {
    align_up(if content_len == 0 { 1 } else { content_len }, file_alignment)
}

/// What the caller asks for: one section of the image.
#[derive(Clone, Copy, Debug)]
pub struct SectionRequest {
    /// The section's name, padded with zero bytes.
    pub name: [u8; 8],
    /// The section's characteristics flags.
    pub characteristics: u32,
    /// The length of the section's content in bytes.
    pub content_len: u32,
}

/// Where one section was placed.
#[derive(Clone, Copy, Debug)]
pub struct PlannedSection {
    /// The section's name, padded with zero bytes.
    pub name: [u8; 8],
    /// The section's characteristics flags.
    pub characteristics: u32,
    /// The length of the content, unpadded.
    pub virtual_size: u32,
    /// The address of the section relative to the image base.
    pub virtual_address: u32,
    /// The length of the section's region in the file.
    pub size_raw_data: u32,
    /// The offset of the section's region in the file.
    pub pointer_raw_data: u32,
}

/// The planner's result.
#[derive(Debug)]
pub struct Layout {
    /// The sections, in the order in which they were requested.
    pub sections: Vec<PlannedSection>,
    /// The size of the header region, which is the first section's file pointer.
    pub size_headers: u32,
    /// The size of the image in virtual address space.
    pub size_image: u32,
}

/// Why no layout exists.
#[derive(Clone, Copy, Debug, PartialEq, Eq, Structural)]
pub enum LayoutError {
    /// The file alignment is zero, or the section alignment is not a multiple
    /// of it.
    InvalidAlignment,
    /// There are more sections than the COFF header can count.
    TooManySections,
    /// The first section's virtual address lies inside the header region.
    HeadersOverlapSections,
    /// The end of the last section's file region does not fit in 32 bits.
    FileTooLarge,
    /// The size of the image in virtual address space does not fit in 32 bits.
    ImageTooLarge,
}

/// The alignments that the planner accepts.
pub open spec fn alignment_ok(section_alignment: int, file_alignment: int) -> bool {
    &&& file_alignment > 0
    &&& section_alignment >= file_alignment
    &&& section_alignment % file_alignment == 0
}

/// The file offset at which the first `k` sections end; section `k` starts
/// there.
pub open spec fn file_end(reqs: Seq<SectionRequest>, k: int, file_alignment: int) -> int
    decreases k,
{
    if k <= 0 {
        size_headers(reqs.len() as int, file_alignment)
    } else {
        file_end(reqs, k - 1, file_alignment) + raw_size(
            reqs[k - 1].content_len as int,
            file_alignment,
        )
    }
}

/// The virtual address at which the first `k` sections end, rounded up to the
/// section alignment; section `k` starts there.
pub open spec fn virtual_end(
    reqs: Seq<SectionRequest>,
    k: int,
    section_alignment: int,
    file_alignment: int,
    base: int,
) -> int
    decreases k,
{
    if k <= 0 {
        align_up(base, section_alignment)
    } else {
        align_up(
            virtual_end(reqs, k - 1, section_alignment, file_alignment, base) + raw_size(
                reqs[k - 1].content_len as int,
                file_alignment,
            ),
            section_alignment,
        )
    }
}

/// The reason for which the requests have no layout, if there is one. The
/// reasons are tried in the order in which `LayoutError` lists them.
pub open spec fn layout_error(
    reqs: Seq<SectionRequest>,
    section_alignment: int,
    file_alignment: int,
    base: int,
) -> Option<LayoutError> {
    let n = reqs.len() as int;
    if !alignment_ok(section_alignment, file_alignment) {
        Some(LayoutError::InvalidAlignment)
    } else if n > MAX_SECTIONS {
        Some(LayoutError::TooManySections)
    } else if align_up(base, section_alignment) < size_headers(n, file_alignment) {
        Some(LayoutError::HeadersOverlapSections)
    } else if file_end(reqs, n, file_alignment) > u32::MAX {
        Some(LayoutError::FileTooLarge)
    } else if virtual_end(reqs, n, section_alignment, file_alignment, base) > u32::MAX {
        Some(LayoutError::ImageTooLarge)
    } else {
        None
    }
}

/// The placement of section `i`.
pub open spec fn planned(
    reqs: Seq<SectionRequest>,
    i: int,
    section_alignment: int,
    file_alignment: int,
    base: int,
) -> PlannedSection {
    PlannedSection {
        name: reqs[i].name,
        characteristics: reqs[i].characteristics,
        virtual_size: reqs[i].content_len,
        virtual_address: virtual_end(reqs, i, section_alignment, file_alignment, base) as u32,
        size_raw_data: raw_size(reqs[i].content_len as int, file_alignment) as u32,
        pointer_raw_data: file_end(reqs, i, file_alignment) as u32,
    }
}

impl Layout {
    /// `self` is the layout of `reqs` under the given alignments and base.
    pub open spec fn is_plan_of(
        &self,
        reqs: Seq<SectionRequest>,
        section_alignment: int,
        file_alignment: int,
        base: int,
    ) -> bool {
        &&& self.sections@.len() == reqs.len()
        &&& forall|i: int|
            0 <= i < reqs.len() ==> #[trigger] self.sections@[i] == planned(
                reqs,
                i,
                section_alignment,
                file_alignment,
                base,
            )
        &&& self.size_headers == size_headers(reqs.len() as int, file_alignment)
        &&& self.size_image == virtual_end(
            reqs,
            reqs.len() as int,
            section_alignment,
            file_alignment,
            base,
        )
    }
}

/// Rounding up reaches the nearest multiple at or above `x`.
pub proof fn lemma_align_up(x: int, a: int)
    requires
        a > 0,
    ensures
        x <= align_up(x, a) < x + a,
        align_up(x, a) % a == 0,
        x % a == 0 ==> align_up(x, a) == x,
{
    reveal(align_up);
    if x % a != 0 {
        lemma_fundamental_div_mod(x, a);
        let q = x / a;
        assert(x + a - x % a == (q + 1) * a) by (nonlinear_arith)
            requires
                x == a * q + x % a,
        ;
        lemma_mod_multiples_basic(q + 1, a);
    }
}

/// The sum of two multiples of `m` is a multiple of `m`.
pub proof fn lemma_sum_of_multiples(x: int, y: int, m: int)
    requires
        m > 0,
        x % m == 0,
        y % m == 0,
    ensures
        (x + y) % m == 0,
{
    lemma_fundamental_div_mod(x, m);
    lemma_fundamental_div_mod(y, m);
    let q = x / m + y / m;
    assert(x + y == q * m) by (nonlinear_arith)
        requires
            x == m * (x / m),
            y == m * (y / m),
            q == x / m + y / m,
    ;
    lemma_mod_multiples_basic(q, m);
}

/// A section's file region holds its content and is a positive multiple of the
/// file alignment.
pub proof fn lemma_raw_size(content_len: int, file_alignment: int)
    requires
        content_len >= 0,
        file_alignment > 0,
    ensures
        raw_size(content_len, file_alignment) >= content_len,
        raw_size(content_len, file_alignment) >= file_alignment,
        raw_size(content_len, file_alignment) < content_len + file_alignment + 1,
        raw_size(content_len, file_alignment) % file_alignment == 0,
        content_len > 0 ==> raw_size(content_len, file_alignment) < content_len + file_alignment,
{
    let x = if content_len == 0 {
        1
    } else {
        content_len
    };
    lemma_align_up(x, file_alignment);
    lemma_fundamental_div_mod(raw_size(content_len, file_alignment), file_alignment);
    let r = raw_size(content_len, file_alignment);
    let q = r / file_alignment;
    assert(r >= file_alignment) by (nonlinear_arith)
        requires
            r == file_alignment * q,
            r >= 1,
            file_alignment > 0,
    ;
}

/// The header region of an image whose sections can be counted fits in 32
/// bits, whatever the file alignment is.
pub proof fn lemma_size_headers(n: int, file_alignment: int)
    requires
        0 <= n <= MAX_SECTIONS,
        0 < file_alignment <= u32::MAX,
    ensures
        headers_len(n) <= size_headers(n, file_alignment) <= u32::MAX,
        size_headers(n, file_alignment) % file_alignment == 0,
{
    let raw = headers_len(n);
    let aligned = size_headers(n, file_alignment);
    lemma_align_up(raw, file_alignment);
    if file_alignment > raw {
        lemma_fundamental_div_mod(aligned, file_alignment);
        let q = aligned / file_alignment;
        assert(q == 1) by (nonlinear_arith)
            requires
                aligned == file_alignment * q,
                0 < aligned < 2 * file_alignment,
        ;
    }
}

/// Every section boundary is aligned: file offsets to the file alignment,
/// virtual addresses to the section alignment; and no section starts before
/// the header region ends.
pub proof fn lemma_layout_aligned(
    reqs: Seq<SectionRequest>,
    k: int,
    section_alignment: int,
    file_alignment: int,
    base: int,
)
    requires
        alignment_ok(section_alignment, file_alignment),
        0 <= k <= reqs.len(),
    ensures
        file_end(reqs, k, file_alignment) % file_alignment == 0,
        file_end(reqs, k, file_alignment) >= size_headers(reqs.len() as int, file_alignment),
        virtual_end(reqs, k, section_alignment, file_alignment, base) % section_alignment == 0,
        virtual_end(reqs, k, section_alignment, file_alignment, base) >= align_up(
            base,
            section_alignment,
        ),
    decreases k,
{
    if k <= 0 {
        lemma_align_up(headers_len(reqs.len() as int), file_alignment);
        lemma_align_up(base, section_alignment);
    } else {
        lemma_layout_aligned(reqs, k - 1, section_alignment, file_alignment, base);
        let raw = raw_size(reqs[k - 1].content_len as int, file_alignment);
        lemma_raw_size(reqs[k - 1].content_len as int, file_alignment);
        lemma_sum_of_multiples(file_end(reqs, k - 1, file_alignment), raw, file_alignment);
        lemma_align_up(
            virtual_end(reqs, k - 1, section_alignment, file_alignment, base) + raw,
            section_alignment,
        );
    }
}

/// A later section starts where all earlier ones have ended, in the file and
/// in virtual address space. In the file nothing lies between two sections.
pub proof fn lemma_layout_increasing(
    reqs: Seq<SectionRequest>,
    i: int,
    j: int,
    section_alignment: int,
    file_alignment: int,
    base: int,
)
    requires
        alignment_ok(section_alignment, file_alignment),
        0 <= i < j <= reqs.len(),
    ensures
        file_end(reqs, i, file_alignment) + raw_size(reqs[i].content_len as int, file_alignment)
            <= file_end(reqs, j, file_alignment),
        j == i + 1 ==> file_end(reqs, i, file_alignment) + raw_size(
            reqs[i].content_len as int,
            file_alignment,
        ) == file_end(reqs, j, file_alignment),
        virtual_end(reqs, i, section_alignment, file_alignment, base) + raw_size(
            reqs[i].content_len as int,
            file_alignment,
        ) <= virtual_end(reqs, j, section_alignment, file_alignment, base),
        file_end(reqs, i, file_alignment) < file_end(reqs, j, file_alignment),
        virtual_end(reqs, i, section_alignment, file_alignment, base) < virtual_end(
            reqs,
            j,
            section_alignment,
            file_alignment,
            base,
        ),
    decreases j,
{
    let raw = raw_size(reqs[j - 1].content_len as int, file_alignment);
    lemma_raw_size(reqs[j - 1].content_len as int, file_alignment);
    lemma_raw_size(reqs[i].content_len as int, file_alignment);
    lemma_align_up(
        virtual_end(reqs, j - 1, section_alignment, file_alignment, base) + raw,
        section_alignment,
    );
    if j > i + 1 {
        lemma_layout_increasing(reqs, i, j - 1, section_alignment, file_alignment, base);
    }
}

/// The planner's file pointers are strictly increasing multiples of the file
/// alignment, and its virtual addresses are strictly increasing multiples of
/// the section alignment, whatever the sections are.
pub proof fn lemma_plan_ordered(
    layout: Layout,
    reqs: Seq<SectionRequest>,
    section_alignment: u32,
    file_alignment: u32,
    base: u32,
)
    requires
        layout_error(reqs, section_alignment as int, file_alignment as int, base as int) is None,
        layout.is_plan_of(reqs, section_alignment as int, file_alignment as int, base as int),
    ensures
        forall|i: int|
            0 <= i < layout.sections@.len() ==> {
                &&& (#[trigger] layout.sections@[i]).pointer_raw_data % file_alignment == 0
                &&& layout.sections@[i].virtual_address % section_alignment == 0
                &&& layout.sections@[i].size_raw_data % file_alignment == 0
                &&& layout.sections@[i].size_raw_data >= layout.sections@[i].virtual_size
            },
        forall|i: int, j: int|
            0 <= i < j < layout.sections@.len() ==> {
                &&& (#[trigger] layout.sections@[i]).pointer_raw_data
                    + layout.sections@[i].size_raw_data
                    <= (#[trigger] layout.sections@[j]).pointer_raw_data
                &&& layout.sections@[i].pointer_raw_data < layout.sections@[j].pointer_raw_data
                &&& layout.sections@[i].virtual_address + layout.sections@[i].size_raw_data
                    <= layout.sections@[j].virtual_address
                &&& layout.sections@[i].virtual_address < layout.sections@[j].virtual_address
            },
        forall|i: int|
            0 <= i < layout.sections@.len() - 1 ==> (#[trigger] layout.sections@[i]).pointer_raw_data
                + layout.sections@[i].size_raw_data == layout.sections@[i + 1].pointer_raw_data,
        layout.sections@.len() > 0 ==> layout.sections@[0].pointer_raw_data
            == layout.size_headers,
{
    let sa = section_alignment as int;
    let fa = file_alignment as int;
    let b = base as int;
    let n = reqs.len() as int;
    assert forall|i: int| 0 <= i < n implies {
        &&& 0 <= #[trigger] file_end(reqs, i, fa)
        &&& file_end(reqs, i, fa) + raw_size(reqs[i].content_len as int, fa) <= u32::MAX
        &&& 0 <= virtual_end(reqs, i, sa, fa, b)
        &&& virtual_end(reqs, i, sa, fa, b) + raw_size(reqs[i].content_len as int, fa)
            <= u32::MAX
        &&& file_end(reqs, i, fa) % fa == 0
        &&& virtual_end(reqs, i, sa, fa, b) % sa == 0
        &&& raw_size(reqs[i].content_len as int, fa) % fa == 0
        &&& raw_size(reqs[i].content_len as int, fa) >= reqs[i].content_len
    } by {
        lemma_layout_aligned(reqs, i, sa, fa, b);
        lemma_layout_increasing(reqs, i, n, sa, fa, b);
        lemma_raw_size(reqs[i].content_len as int, fa);
        lemma_align_up(headers_len(n), fa);
        lemma_align_up(b, sa);
    }
    assert forall|i: int, j: int| 0 <= i < j < layout.sections@.len() implies {
        &&& (#[trigger] layout.sections@[i]).pointer_raw_data + layout.sections@[i].size_raw_data
            <= (#[trigger] layout.sections@[j]).pointer_raw_data
        &&& layout.sections@[i].pointer_raw_data < layout.sections@[j].pointer_raw_data
        &&& layout.sections@[i].virtual_address + layout.sections@[i].size_raw_data
            <= layout.sections@[j].virtual_address
        &&& layout.sections@[i].virtual_address < layout.sections@[j].virtual_address
    } by {
        lemma_layout_increasing(reqs, i, j, sa, fa, b);
        assert(0 <= file_end(reqs, i, fa));
        assert(0 <= file_end(reqs, j, fa));
    }
    assert forall|i: int| 0 <= i < layout.sections@.len() - 1 implies (
    #[trigger] layout.sections@[i]).pointer_raw_data + layout.sections@[i].size_raw_data
        == layout.sections@[i + 1].pointer_raw_data by {
        lemma_layout_increasing(reqs, i, i + 1, sa, fa, b);
        assert(0 <= file_end(reqs, i, fa));
        assert(0 <= file_end(reqs, i + 1, fa));
    }
    if n > 0 {
        assert(0 <= file_end(reqs, 0, fa));
    }
}

/// Rounds `x` up to the next multiple of `a`.
pub fn align_to(x: u64, a: u64) -> (r: u64)
    requires
        a > 0,
        x + a <= u64::MAX,
    ensures
        r == align_up(x as int, a as int),
{
    proof {
        reveal(align_up);
    }
    let rem: u64 = x % a;
    if rem == 0 {
        x
    } else {
        x + (a - rem)
    }
}

/// Places the requested sections, in the order given, behind the header
/// region and from the virtual address `base` on.
///
/// The first section starts in the file where the header region ends, and in
/// virtual address space at `base` rounded up to the section alignment. Each
/// further section starts where the one before it ends, rounded up to the
/// alignment of that space. The image's size is the virtual address at which
/// the last section ends, rounded up likewise.
pub fn plan_sections(
    requests: &Vec<SectionRequest>,
    section_alignment: u32,
    file_alignment: u32,
    base: u32,
) -> (r: Result<Layout, LayoutError>)
    ensures
        match r {
            Ok(layout) => {
                &&& layout_error(
                    requests@,
                    section_alignment as int,
                    file_alignment as int,
                    base as int,
                ) is None
                &&& layout.is_plan_of(
                    requests@,
                    section_alignment as int,
                    file_alignment as int,
                    base as int,
                )
            },
            Err(e) => layout_error(
                requests@,
                section_alignment as int,
                file_alignment as int,
                base as int,
            ) == Some(e),
        },
{
    if file_alignment == 0 || section_alignment < file_alignment || section_alignment
        % file_alignment != 0 {
        return Err(LayoutError::InvalidAlignment);
    }
    let n: usize = requests.len();
    if n > MAX_SECTIONS {
        return Err(LayoutError::TooManySections);
    }
    let sa: u64 = section_alignment as u64;
    let fa: u64 = file_alignment as u64;
    let fixed: u64 = (DOS_STUB_LEN + PE_SIGNATURE_LEN + COFF_HEADER_LEN + PE_OPT_HEADER_LEN) as u64;
    let unpadded: u64 = fixed + (SECTION_HEADER_LEN as u64) * (n as u64);
    let headers: u64 = align_to(unpadded, fa);
    proof {
        lemma_size_headers(n as int, fa as int);
    }
    let first: u64 = align_to(base as u64, sa);
    if first < headers {
        return Err(LayoutError::HeadersOverlapSections);
    }
    proof {
        lemma_align_up(base as int, sa as int);
    }
    let mut file_pos: u64 = headers;
    let mut address: u64 = first;
    let mut i: usize = 0;
    while i < n
        invariant
            i <= n,
            n == requests@.len(),
            n <= MAX_SECTIONS,
            sa == section_alignment,
            fa == file_alignment,
            alignment_ok(sa as int, fa as int),
            file_pos == file_end(requests@, i as int, fa as int),
            address == virtual_end(requests@, i as int, sa as int, fa as int, base as int),
            file_pos <= 0x1_0000_0000 + i * 0x2_0000_0000,
            address <= 0x2_0000_0000 + i * 0x3_0000_0000,
        decreases n - i,
    {
        let len: u64 = requests[i].content_len as u64;
        let raw: u64 = align_to(if len == 0 { 1 } else { len }, fa);
        proof {
            lemma_raw_size(len as int, fa as int);
            lemma_align_up(address + raw, sa as int);
        }
        file_pos = file_pos + raw;
        address = align_to(address + raw, sa);
        i = i + 1;
    }
    if file_pos > u32::MAX as u64 {
        return Err(LayoutError::FileTooLarge);
    }
    if address > u32::MAX as u64 {
        return Err(LayoutError::ImageTooLarge);
    }
    let size_image: u32 = address as u32;
    proof {
        if n > 0 {
            lemma_layout_increasing(requests@, 0, n as int, sa as int, fa as int, base as int);
        }
    }
    let mut sections: Vec<PlannedSection> = Vec::new();
    let mut file_pos: u64 = headers;
    let mut address: u64 = first;
    let mut i: usize = 0;
    while i < n
        invariant
            i <= n,
            n == requests@.len(),
            sa == section_alignment,
            fa == file_alignment,
            alignment_ok(sa as int, fa as int),
            file_end(requests@, n as int, fa as int) <= u32::MAX,
            virtual_end(requests@, n as int, sa as int, fa as int, base as int) <= u32::MAX,
            file_pos == file_end(requests@, i as int, fa as int),
            address == virtual_end(requests@, i as int, sa as int, fa as int, base as int),
            file_pos <= u32::MAX,
            address <= u32::MAX,
            sections@.len() == i,
            forall|j: int|
                0 <= j < i ==> #[trigger] sections@[j] == planned(
                    requests@,
                    j,
                    sa as int,
                    fa as int,
                    base as int,
                ),
        decreases n - i,
    {
        let request: SectionRequest = requests[i];
        let len: u64 = request.content_len as u64;
        proof {
            lemma_raw_size(len as int, fa as int);
            lemma_layout_increasing(
                requests@,
                i as int,
                n as int,
                sa as int,
                fa as int,
                base as int,
            );
            if i + 1 < n {
                lemma_layout_increasing(
                    requests@,
                    i + 1,
                    n as int,
                    sa as int,
                    fa as int,
                    base as int,
                );
            }
        }
        let raw: u64 = align_to(if len == 0 { 1 } else { len }, fa);
        sections.push(
            PlannedSection {
                name: request.name,
                characteristics: request.characteristics,
                virtual_size: request.content_len,
                virtual_address: address as u32,
                size_raw_data: raw as u32,
                pointer_raw_data: file_pos as u32,
            },
        );
        file_pos = file_pos + raw;
        address = align_to(address + raw, sa);
        i = i + 1;
    }
    Ok(Layout { sections, size_headers: headers as u32, size_image })
}

/// The longest name that a section header can hold.
pub const MAX_SECTION_NAME_LEN: usize = 8;

/// Why a section name is refused.
#[derive(Clone, Copy, Debug, PartialEq, Eq, Structural)]
pub enum SectionNameError {
    /// The name holds a character that is not ASCII, or the zero character.
    NotAscii,
    /// The name is empty.
    Empty,
    /// The name is longer than eight bytes.
    TooLong,
}

/// The reason for which a section name is refused, if there is one.
pub open spec fn section_name_error(name: Seq<char>) -> Option<SectionNameError> {
    if !is_plain_ascii(name) {
        Some(SectionNameError::NotAscii)
    } else if name.len() == 0 {
        Some(SectionNameError::Empty)
    } else if name.len() > MAX_SECTION_NAME_LEN {
        Some(SectionNameError::TooLong)
    } else {
        None
    }
}

/// The eight bytes of a section name: its characters, then zero bytes.
pub open spec fn section_name_bytes(name: Seq<char>) -> Seq<u8> {
    ascii_bytes(name) + zeros((MAX_SECTION_NAME_LEN - name.len()) as nat)
}

impl SectionRequest {
    /// A request for a section called `name`, if the name can stand in a
    /// section header.
    pub fn new(name: &str, characteristics: u32, content_len: u32) -> (r: Result<
        SectionRequest,
        SectionNameError,
    >)
        ensures
            match r {
                Ok(request) => {
                    &&& section_name_error(name@) is None
                    &&& request.name@ == section_name_bytes(name@)
                    &&& request.characteristics == characteristics
                    &&& request.content_len == content_len
                },
                Err(e) => section_name_error(name@) == Some(e),
            },
    {
        if !is_plain_ascii_text(name) {
            return Err(SectionNameError::NotAscii);
        }
        proof {
            vstd::string::is_ascii_spec_bytes(name);
        }
        let bytes: &[u8] = name.as_bytes();
        assert(bytes@ =~= ascii_bytes(name@));
        if bytes.len() == 0 {
            return Err(SectionNameError::Empty);
        }
        if bytes.len() > MAX_SECTION_NAME_LEN {
            return Err(SectionNameError::TooLong);
        }
        let mut padded: [u8; 8] = [0u8; 8];
        let mut i: usize = 0;
        while i < bytes.len()
            invariant
                i <= bytes@.len() <= MAX_SECTION_NAME_LEN,
                forall|j: int| 0 <= j < i ==> padded@[j] == bytes@[j],
                forall|j: int| i <= j < MAX_SECTION_NAME_LEN ==> padded@[j] == 0,
            decreases bytes@.len() - i,
        {
            padded[i] = bytes[i];
            i = i + 1;
        }
        assert(padded@ =~= section_name_bytes(name@));
        Ok(SectionRequest { name: padded, characteristics, content_len })
    }
}

} // verus!
