//! Fixed-width little-endian encoding of record fields.
//!
//! Every header of the image is an ordered list of `u8`, `u16`, `u32` and
//! `u64` fields and fixed-length byte arrays. The functions here append one
//! field to a byte buffer, or read one back from a fixed offset. No padding
//! is ever inserted: a record's width is the sum of its fields' widths.
use vstd::prelude::*;

verus! {

/// The two bytes of `x`, least significant first.
pub open spec fn le_u16(x: u16) -> Seq<u8> {
    seq![(x % 256) as u8, (x / 256) as u8]
}

/// The four bytes of `x`, least significant first.
pub open spec fn le_u32(x: u32) -> Seq<u8> {
    seq![
        (x % 256) as u8,
        ((x / 256) % 256) as u8,
        ((x / 65536) % 256) as u8,
        (x / 16777216) as u8,
    ]
}

/// The eight bytes of `x`, least significant first.
pub open spec fn le_u64(x: u64) -> Seq<u8> {
    le_u32((x % 0x1_0000_0000) as u32) + le_u32((x / 0x1_0000_0000) as u32)
}

/// `n` zero bytes.
pub open spec fn zeros(n: nat) -> Seq<u8> {
    Seq::new(n, |i: int| 0u8)
}

/// The bytes of a text in which every character is ASCII: one byte for each
/// character.
pub open spec fn ascii_bytes(chars: Seq<char>) -> Seq<u8> {
    Seq::new(chars.len(), |i: int| chars[i] as u8)
}

/// Every character is ASCII and none is the zero character, which would end
/// the text early.
pub open spec fn is_plain_ascii(chars: Seq<char>) -> bool {
    forall|i: int| 0 <= i < chars.len() ==> '\u{1}' <= #[trigger] chars[i] <= '\u{7f}'
}

/// `bytes`, a zero byte that ends it, and zero bytes up to the next multiple of
/// four: between one and four zero bytes in all.
pub open spec fn terminated(bytes: Seq<u8>) -> Seq<u8> {
    bytes + zeros((4 - bytes.len() % 4) as nat)
}

/// The number of zero bytes that bring a length of `n` up to a multiple of
/// four.
#[verifier::opaque]
pub open spec fn padding_to_4(n: int) -> int {
    (4 - n % 4) % 4
}

/// A length of `n`, brought up to a multiple of four.
pub open spec fn padded_len(n: int) -> int {
    n + padding_to_4(n)
}

/// The 16-bit value whose little-endian bytes stand at `s[at..at + 2]`.
pub open spec fn u16_at(s: Seq<u8>, at: int) -> u16 {
    (s[at] as int + 256 * (s[at + 1] as int)) as u16
}

/// The 32-bit value whose little-endian bytes stand at `s[at..at + 4]`.
pub open spec fn u32_at(s: Seq<u8>, at: int) -> u32 {
    (s[at] as int + 256 * (s[at + 1] as int) + 65536 * (s[at + 2] as int) + 16777216 * (s[at
        + 3] as int)) as u32
}

/// The 64-bit value whose little-endian bytes stand at `s[at..at + 8]`.
pub open spec fn u64_at(s: Seq<u8>, at: int) -> u64 {
    (u32_at(s, at) as int + 0x1_0000_0000 * (u32_at(s, at + 4) as int)) as u64
}

/// A terminated text is longer than the text by one to four bytes, and its
/// length is a multiple of four.
pub proof fn lemma_terminated(bytes: Seq<u8>)
    ensures
        terminated(bytes).len() == bytes.len() + 4 - bytes.len() % 4,
        terminated(bytes).len() % 4 == 0,
        bytes.len() < terminated(bytes).len() <= bytes.len() + 4,
{
}

/// Padding adds fewer than four bytes and makes the length a multiple of
/// four.
pub proof fn lemma_padding_to_4(n: int)
    requires
        0 <= n,
    ensures
        0 <= padding_to_4(n) < 4,
        n <= padded_len(n) < n + 4,
        padded_len(n) % 4 == 0,
        n % 4 == 0 ==> padded_len(n) == n,
{
    reveal(padding_to_4);
}

/// A padded sequence is as long as the padded length of what it holds.
pub proof fn lemma_padded_zeros(bytes: Seq<u8>)
    ensures
        (bytes + zeros(padding_to_4(bytes.len() as int) as nat)).len() == padded_len(
            bytes.len() as int,
        ),
{
    lemma_padding_to_4(bytes.len() as int);
}

/// Where the two bytes at `at` are the encoding of `x`, reading there gives `x`.
pub proof fn lemma_u16_field(s: Seq<u8>, at: int, x: u16)
    requires
        0 <= at,
        at + 2 <= s.len(),
        s.subrange(at, at + 2) == le_u16(x),
    ensures
        u16_at(s, at) == x,
{
    let t = s.subrange(at, at + 2);
    assert(s[at] == t[0]);
    assert(s[at + 1] == t[1]);
}

/// Where the four bytes at `at` are the encoding of `x`, reading there gives
/// `x`.
pub proof fn lemma_u32_field(s: Seq<u8>, at: int, x: u32)
    requires
        0 <= at,
        at + 4 <= s.len(),
        s.subrange(at, at + 4) == le_u32(x),
    ensures
        u32_at(s, at) == x,
{
    let t = s.subrange(at, at + 4);
    assert(s[at] == t[0]);
    assert(s[at + 1] == t[1]);
    assert(s[at + 2] == t[2]);
    assert(s[at + 3] == t[3]);
}

/// Where the eight bytes at `at` are the encoding of `x`, reading there gives
/// `x`.
pub proof fn lemma_u64_field(s: Seq<u8>, at: int, x: u64)
    requires
        0 <= at,
        at + 8 <= s.len(),
        s.subrange(at, at + 8) == le_u64(x),
    ensures
        u64_at(s, at) == x,
{
    let t = s.subrange(at, at + 8);
    let lo = (x % 0x1_0000_0000) as u32;
    let hi = (x / 0x1_0000_0000) as u32;
    assert(s.subrange(at, at + 4) =~= t.subrange(0, 4));
    assert(t.subrange(0, 4) =~= le_u32(lo));
    assert(s.subrange(at + 4, at + 8) =~= t.subrange(4, 8));
    assert(t.subrange(4, 8) =~= le_u32(hi));
    lemma_u32_field(s, at, lo);
    lemma_u32_field(s, at + 4, hi);
}

/// A 16-bit read inside a window of `s` sees what the same read sees in the
/// window taken alone.
pub proof fn lemma_u16_window(s: Seq<u8>, off: int, part: Seq<u8>, at: int)
    requires
        0 <= off,
        off + part.len() <= s.len(),
        s.subrange(off, off + part.len()) == part,
        0 <= at,
        at + 2 <= part.len(),
    ensures
        u16_at(s, off + at) == u16_at(part, at),
{
    let t = s.subrange(off, off + part.len());
    assert(t[at] == s[off + at]);
    assert(t[at + 1] == s[off + at + 1]);
}

/// A 32-bit read inside a window of `s` sees what the same read sees in the
/// window taken alone.
pub proof fn lemma_u32_window(s: Seq<u8>, off: int, part: Seq<u8>, at: int)
    requires
        0 <= off,
        off + part.len() <= s.len(),
        s.subrange(off, off + part.len()) == part,
        0 <= at,
        at + 4 <= part.len(),
    ensures
        u32_at(s, off + at) == u32_at(part, at),
{
    let t = s.subrange(off, off + part.len());
    assert(t[at] == s[off + at]);
    assert(t[at + 1] == s[off + at + 1]);
    assert(t[at + 2] == s[off + at + 2]);
    assert(t[at + 3] == s[off + at + 3]);
}

/// A 64-bit read inside a window of `s` sees what the same read sees in the
/// window taken alone.
pub proof fn lemma_u64_window(s: Seq<u8>, off: int, part: Seq<u8>, at: int)
    requires
        0 <= off,
        off + part.len() <= s.len(),
        s.subrange(off, off + part.len()) == part,
        0 <= at,
        at + 8 <= part.len(),
    ensures
        u64_at(s, off + at) == u64_at(part, at),
{
    lemma_u32_window(s, off, part, at);
    lemma_u32_window(s, off, part, at + 4);
}

/// Appends one byte.
pub fn put_u8(buf: &mut Vec<u8>, x: u8)
    ensures
        final(buf)@ == old(buf)@.push(x),
{
    buf.push(x);
}

/// Appends `x` as two little-endian bytes.
pub fn put_u16(buf: &mut Vec<u8>, x: u16)
    ensures
        final(buf)@ == old(buf)@ + le_u16(x),
{
    buf.push((x % 256) as u8);
    buf.push((x / 256) as u8);
    assert(buf@ =~= old(buf)@ + le_u16(x));
}

/// Appends `x` as four little-endian bytes.
pub fn put_u32(buf: &mut Vec<u8>, x: u32)
    ensures
        final(buf)@ == old(buf)@ + le_u32(x),
{
    buf.push((x % 256) as u8);
    buf.push(((x / 256) % 256) as u8);
    buf.push(((x / 65536) % 256) as u8);
    buf.push((x / 16777216) as u8);
    assert(buf@ =~= old(buf)@ + le_u32(x));
}

/// Appends `x` as eight little-endian bytes.
pub fn put_u64(buf: &mut Vec<u8>, x: u64)
    ensures
        final(buf)@ == old(buf)@ + le_u64(x),
{
    let ghost before = buf@;
    put_u32(buf, (x % 0x1_0000_0000) as u32);
    put_u32(buf, (x / 0x1_0000_0000) as u32);
    assert(buf@ =~= before + le_u64(x));
}

/// Appends a copy of `bytes`.
pub fn put_bytes(buf: &mut Vec<u8>, bytes: &[u8])
    ensures
        final(buf)@ == old(buf)@ + bytes@,
{
    let mut i: usize = 0;
    while i < bytes.len()
        invariant
            i <= bytes@.len(),
            buf@ == old(buf)@ + bytes@.subrange(0, i as int),
        decreases bytes@.len() - i,
    {
        buf.push(bytes[i]);
        i = i + 1;
        assert(buf@ =~= old(buf)@ + bytes@.subrange(0, i as int));
    }
    assert(bytes@.subrange(0, i as int) =~= bytes@);
}

/// Appends `n` zero bytes.
pub fn put_zeros(buf: &mut Vec<u8>, n: usize)
    ensures
        final(buf)@ == old(buf)@ + zeros(n as nat),
{
    let mut i: usize = 0;
    while i < n
        invariant
            i <= n,
            buf@ == old(buf)@ + zeros(i as nat),
        decreases n - i,
    {
        buf.push(0u8);
        i = i + 1;
        assert(buf@ =~= old(buf)@ + zeros(i as nat));
    }
}

/// Reads the 16-bit little-endian value at `bytes[at..at + 2]`.
pub fn get_u16(bytes: &[u8], at: usize) -> (x: u16)
    requires
        at + 2 <= bytes@.len(),
    ensures
        x == u16_at(bytes@, at as int),
{
    let b0: u16 = bytes[at] as u16;
    let b1: u16 = bytes[at + 1] as u16;
    b0 + 256 * b1
}

/// Reads the 32-bit little-endian value at `bytes[at..at + 4]`.
pub fn get_u32(bytes: &[u8], at: usize) -> (x: u32)
    requires
        at + 4 <= bytes@.len(),
    ensures
        x == u32_at(bytes@, at as int),
{
    let b0: u32 = bytes[at] as u32;
    let b1: u32 = bytes[at + 1] as u32;
    let b2: u32 = bytes[at + 2] as u32;
    let b3: u32 = bytes[at + 3] as u32;
    b0 + 256 * b1 + 65536 * b2 + 16777216 * b3
}

/// Reads the 64-bit little-endian value at `bytes[at..at + 8]`.
pub fn get_u64(bytes: &[u8], at: usize) -> (x: u64)
    requires
        at + 8 <= bytes@.len(),
    ensures
        x == u64_at(bytes@, at as int),
{
    let len: usize = bytes.len();
    assert(at + 8 <= len);
    let lo: u64 = get_u32(bytes, at) as u64;
    let hi: u64 = get_u32(bytes, at + 4) as u64;
    lo + 0x1_0000_0000 * hi
}

/// Appends the bytes of an ASCII text.
pub fn put_ascii(buf: &mut Vec<u8>, text: &str)
    requires
        text.is_ascii(),
    ensures
        final(buf)@ == old(buf)@ + ascii_bytes(text@),
{
    proof {
        vstd::string::is_ascii_spec_bytes(text);
    }
    let bytes: &[u8] = text.as_bytes();
    assert(bytes@ =~= ascii_bytes(text@));
    put_bytes(buf, bytes);
}

/// Appends the zero byte that ends a text of `len` bytes, and zero bytes up to
/// the next multiple of four.
pub fn put_terminator(buf: &mut Vec<u8>, len: usize)
    ensures
        final(buf)@ == old(buf)@ + zeros((4 - len % 4) as nat),
{
    put_zeros(buf, 4 - len % 4);
}

/// Appends zero bytes until the buffer's length is a multiple of four.
pub fn pad_to_4(buf: &mut Vec<u8>)
    ensures
        final(buf)@ == old(buf)@ + zeros(padding_to_4(old(buf)@.len() as int) as nat),
        final(buf)@.len() % 4 == 0,
{
    proof {
        reveal(padding_to_4);
    }
    let n: usize = (4 - buf.len() % 4) % 4;
    put_zeros(buf, n);
}

/// Appends a copy of `bytes`, and zero bytes up to a multiple of four of its
/// length.
pub fn put_padded(buf: &mut Vec<u8>, bytes: &[u8])
    ensures
        final(buf)@ == old(buf)@ + bytes@ + zeros(padding_to_4(bytes@.len() as int) as nat),
{
    proof {
        reveal(padding_to_4);
    }
    put_bytes(buf, bytes);
    put_zeros(buf, (4 - bytes.len() % 4) % 4);
}

/// Computes a length of `n` brought up to a multiple of four.
pub fn padded_size(n: u64) -> (r: u64)
    requires
        n + 4 <= u64::MAX,
    ensures
        r == padded_len(n as int),
        n <= r < n + 4,
{
    proof {
        reveal(padding_to_4);
    }
    n + (4 - n % 4) % 4
}

/// Whether every character of `text` is ASCII and none is the zero character.
pub fn is_plain_ascii_text(text: &str) -> (b: bool)
    ensures
        b == is_plain_ascii(text@),
{
    if !text.is_ascii() {
        return false;
    }
    proof {
        vstd::string::is_ascii_spec_bytes(text);
    }
    let bytes: &[u8] = text.as_bytes();
    assert(bytes@ =~= ascii_bytes(text@));
    let mut i: usize = 0;
    while i < bytes.len()
        invariant
            i <= bytes@.len(),
            bytes@ == ascii_bytes(text@),
            vstd::utf8::is_ascii_chars(text@),
            forall|j: int| 0 <= j < i ==> '\u{1}' <= #[trigger] text@[j] <= '\u{7f}',
        decreases bytes@.len() - i,
    {
        if bytes[i] == 0 {
            assert(text@[i as int] as u8 == 0);
            assert(text@[i as int] == '\0');
            return false;
        }
        assert(text@[i as int] as u8 != 0);
        i = i + 1;
    }
    true
}

} // verus!
