//! The metadata root and its directory of streams.
use vstd::prelude::*;
use crate::codec::{
    ascii_bytes, is_plain_ascii, is_plain_ascii_text, le_u16, le_u32, put_ascii, put_bytes,
    put_terminator, put_u16, put_u32, terminated,
};

verus! {

/// The signature that opens the metadata root: `BSJB`.
pub const METADATA_SIGNATURE: u32 = 0x424A_5342;

/// The major version of the metadata format.
pub const METADATA_MAJOR_VERSION: u16 = 1;

/// The minor version of the metadata format.
pub const METADATA_MINOR_VERSION: u16 = 1;

/// The largest number of streams that the root can count.
pub const MAX_STREAMS: usize = 0xFFFF;

/// The longest version text whose padded length still fits in 32 bits.
pub const MAX_VERSION_LEN: usize = 0xFFFF_FFF0;

/// One entry of the stream directory: where a stream lies, counted from the
/// start of the metadata root, how long it is, and its name.
#[derive(Debug)]
pub struct StreamHeader {
    pub offset: u32,
    pub size: u32,
    /// The name's bytes with its terminator and padding.
    pub name: Vec<u8>,
}

/// What a stream header says, with the name as a sequence of bytes.
pub struct StreamEntry {
    pub offset: u32,
    pub size: u32,
    /// The name's bytes with its terminator and padding.
    pub name: Seq<u8>,
}

impl StreamEntry {
    /// The entry's bytes: offset, size, then the name.
    #[verifier::opaque]
    pub open spec fn encode(self) -> Seq<u8> {
        le_u32(self.offset) + le_u32(self.size) + self.name
    }
}

impl View for StreamHeader {
    type V = StreamEntry;

    open spec fn view(&self) -> StreamEntry {
        StreamEntry { offset: self.offset, size: self.size, name: self.name@ }
    }
}

/// What each of the headers says, in order.
pub open spec fn stream_entries(headers: Seq<StreamHeader>) -> Seq<StreamEntry> {
    Seq::new(headers.len(), |i: int| headers[i]@)
}

impl StreamHeader {
    /// The entry of the stream `name`. The name is stored with the zero byte
    /// that ends it, padded with zero bytes to a multiple of four.
    pub fn new(offset: u32, size: u32, name: String) -> (h: StreamHeader)
        requires
            vstd::utf8::is_ascii_chars(name@),
        ensures
            h@ == (StreamEntry { offset, size, name: terminated(ascii_bytes(name@)) }),
    {
        let text: &str = name.as_str();
        proof {
            vstd::string::is_ascii_spec_bytes(text);
        }
        let len: usize = text.as_bytes().len();
        let mut bytes: Vec<u8> = Vec::new();
        put_ascii(&mut bytes, text);
        put_terminator(&mut bytes, len);
        StreamHeader { offset, size, name: bytes }
    }

    /// Appends the entry to `buf`.
    pub fn write_to(&self, buf: &mut Vec<u8>)
        ensures
            final(buf)@ == old(buf)@ + self@.encode(),
    {
        put_u32(buf, self.offset);
        put_u32(buf, self.size);
        put_bytes(buf, self.name.as_slice());
        proof {
            reveal(StreamEntry::encode);
        }
        assert(buf@ =~= old(buf)@ + self@.encode());
    }
}

/// The bytes of the first `k` entries of a stream directory, in order.
pub open spec fn encode_streams(streams: Seq<StreamEntry>, k: int) -> Seq<u8>
    decreases k,
{
    if k <= 0 {
        Seq::empty()
    } else {
        encode_streams(streams, k - 1) + streams[k - 1].encode()
    }
}

/// The bytes of a metadata root: signature, format version 1.1, a reserved
/// zero, the padded length of the version text and the padded text, a reserved
/// zero, the number of streams, and the stream directory.
#[verifier::opaque]
pub open spec fn root_bytes(version: Seq<char>, streams: Seq<StreamEntry>) -> Seq<u8> {
    let padded_version = terminated(ascii_bytes(version));
    le_u32(METADATA_SIGNATURE) + le_u16(METADATA_MAJOR_VERSION) + le_u16(METADATA_MINOR_VERSION)
        + le_u32(0) + le_u32(padded_version.len() as u32) + padded_version + le_u16(0) + le_u16(
        streams.len() as u16,
    ) + encode_streams(streams, streams.len() as int)
}

/// The metadata root: the version text of the runtime the metadata was written
/// for, and the directory of streams.
#[derive(Debug)]
pub struct MetadataRoot {
    pub version: String,
    pub streams: Vec<StreamHeader>,
}

/// Why a metadata root cannot be written.
#[derive(Clone, Copy, Debug, PartialEq, Eq, Structural)]
pub enum MetadataRootError {
    /// The version text holds a character that is not ASCII, or the zero
    /// character.
    VersionNotAscii,
    /// The padded length of the version text does not fit in 32 bits.
    VersionTooLong,
    /// There are more streams than the root can count.
    TooManyStreams,
}

impl MetadataRoot {
    /// The root can be written: its version is plain ASCII and short enough,
    /// and its streams can be counted.
    pub open spec fn wf(self) -> bool {
        &&& is_plain_ascii(self.version@)
        &&& self.version@.len() <= MAX_VERSION_LEN
        &&& self.streams@.len() <= MAX_STREAMS
    }

    /// The root's bytes.
    pub open spec fn encode(self) -> Seq<u8> {
        root_bytes(self.version@, stream_entries(self.streams@))
    }

    /// The reason for which a root with this version and this many streams
    /// cannot be written, if there is one.
    pub open spec fn error_of(version: Seq<char>, num_streams: int) -> Option<MetadataRootError> {
        if !is_plain_ascii(version) {
            Some(MetadataRootError::VersionNotAscii)
        } else if version.len() > MAX_VERSION_LEN {
            Some(MetadataRootError::VersionTooLong)
        } else if num_streams > MAX_STREAMS {
            Some(MetadataRootError::TooManyStreams)
        } else {
            None
        }
    }
}

impl MetadataRoot {
    /// A root with the given version text and streams, if it can be written.
    pub fn new(version: String, streams: Vec<StreamHeader>) -> (r: Result<
        MetadataRoot,
        MetadataRootError,
    >)
        ensures
            match r {
                Ok(root) => {
                    &&& Self::error_of(version@, streams@.len() as int) is None
                    &&& root.version@ == version@
                    &&& root.streams == streams
                    &&& root.wf()
                },
                Err(e) => Self::error_of(version@, streams@.len() as int) == Some(e),
            },
    {
        let text: &str = version.as_str();
        if !is_plain_ascii_text(text) {
            return Err(MetadataRootError::VersionNotAscii);
        }
        proof {
            vstd::string::is_ascii_spec_bytes(text);
        }
        if text.as_bytes().len() > MAX_VERSION_LEN {
            return Err(MetadataRootError::VersionTooLong);
        }
        if streams.len() > MAX_STREAMS {
            return Err(MetadataRootError::TooManyStreams);
        }
        Ok(MetadataRoot { version, streams })
    }

    /// Serialises the root.
    pub fn to_bytes(&self) -> (bytes: Vec<u8>)
        requires
            self.wf(),
        ensures
            bytes@ == self.encode(),
    {
        let mut bytes: Vec<u8> = Vec::new();
        write_root(&mut bytes, self.version.as_str(), &self.streams);
        bytes
    }
}

/// Appends the metadata root with the given version text and stream
/// directory to `buf`.
pub fn write_root(buf: &mut Vec<u8>, version: &str, streams: &Vec<StreamHeader>)
    requires
        is_plain_ascii(version@),
        version@.len() <= MAX_VERSION_LEN,
        streams@.len() <= MAX_STREAMS,
    ensures
        final(buf)@ == old(buf)@ + root_bytes(version@, stream_entries(streams@)),
{
    proof {
        vstd::string::is_ascii_spec_bytes(version);
    }
    let len: usize = version.as_bytes().len();
    let padded_len: usize = len + (4 - len % 4);
    let mut bytes: Vec<u8> = Vec::new();
    put_u32(&mut bytes, METADATA_SIGNATURE);
    put_u16(&mut bytes, METADATA_MAJOR_VERSION);
    put_u16(&mut bytes, METADATA_MINOR_VERSION);
    put_u32(&mut bytes, 0);
    put_u32(&mut bytes, padded_len as u32);
    let ghost opening = bytes@;
    put_ascii(&mut bytes, version);
    put_terminator(&mut bytes, len);
    assert(bytes@ =~= opening + terminated(ascii_bytes(version@)));
    put_u16(&mut bytes, 0);
    put_u16(&mut bytes, streams.len() as u16);
    let ghost fixed = bytes@;
    let mut i: usize = 0;
    while i < streams.len()
        invariant
            i <= streams@.len(),
            bytes@ == fixed + encode_streams(stream_entries(streams@), i as int),
        decreases streams@.len() - i,
    {
        streams[i].write_to(&mut bytes);
        i = i + 1;
        assert(bytes@ =~= fixed + encode_streams(stream_entries(streams@), i as int));
    }
    proof {
        reveal(root_bytes);
    }
    assert(bytes@ =~= root_bytes(version@, stream_entries(streams@)));
    put_bytes(buf, bytes.as_slice());
}

} // verus!
