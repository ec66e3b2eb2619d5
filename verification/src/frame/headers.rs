//! HEADERS frames.
use super::head::{spec_head_bytes, spec_parse_head, Flags, Head, Kind};
use super::stream_id::StreamId;
use super::wire::put_slice;
use vstd::prelude::*;

verus! {

/// Header frame
///
/// This could be either a request or a response. The header block is carried
/// as raw, already encoded bytes.
#[derive(Debug, Clone, PartialEq, Eq)]
pub struct Headers {
    /// The ID of the stream with which this frame is associated.
    stream_id: StreamId,
    /// The associated flags.
    flags: Flags,
    /// Raw headers data.
    raw_data: Vec<u8>,
}

impl View for Headers {
    /// The stream identifier, the flags byte and the raw header block.
    type V = (StreamId, u8, Seq<u8>);

    closed spec fn view(&self) -> (StreamId, u8, Seq<u8>) {
        (self.stream_id, self.flags.spec_bits(), self.raw_data@)
    }
}

/// The encoded HEADERS frame.
pub open spec fn spec_headers_frame(h: (StreamId, u8, Seq<u8>)) -> Seq<u8> {
    spec_head_bytes(Head { kind: Kind::Headers, flags: h.1, stream_id: h.0 }, h.2.len()) + h.2
}

impl Headers {
    /// Creates a new HEADERS frame without flags.
    pub fn new(stream_id: StreamId, raw_data: Vec<u8>) -> (r: Self)
        ensures
            r@ == (stream_id, 0u8, raw_data@),
    {
        Headers { stream_id, flags: Flags::empty(), raw_data }
    }

    /// Returns the stream identifier that this frame is associated with.
    pub fn stream_id(&self) -> (r: StreamId)
        ensures
            r == self@.0,
    {
        self.stream_id
    }

    /// Builds the header for this frame.
    pub fn head(&self) -> (r: Head)
        ensures
            r == (Head { kind: Kind::Headers, flags: self@.1, stream_id: self@.0 }),
    {
        Head::new(Kind::Headers, self.flags.bits(), self.stream_id)
    }

    /// Converts the raw data to a byte slice.
    pub fn as_bytes(&self) -> (r: &[u8])
        ensures
            r@ == self@.2,
    {
        self.raw_data.as_slice()
    }

    /// Returns true if the raw data has a length of zero bytes.
    pub fn is_empty(&self) -> (r: bool)
        ensures
            r == (self@.2.len() == 0),
    {
        self.raw_data.len() == 0
    }

    /// Returns the length of the raw data.
    pub fn len(&self) -> (r: usize)
        ensures
            r == self@.2.len(),
    {
        self.raw_data.len()
    }

    /// Appends the whole frame: its header, then the raw header block.
    pub fn encode(&self, dst: &mut Vec<u8>)
        ensures
            final(dst)@ == old(dst)@ + spec_headers_frame(self@),
    {
        let data = self.as_bytes();
        self.head().encode(data.len(), dst);
        put_slice(dst, data);
        proof {
            assert(final(dst)@ =~= old(dst)@ + spec_headers_frame(self@));
        }
    }
}

/// Reading back an encoded HEADERS frame gives its header, and the raw header
/// block follows it, for stream identifiers without the reserved bit.
pub proof fn lemma_headers_roundtrip(h: (StreamId, u8, Seq<u8>))
    requires
        h.0.0 < 0x8000_0000,
    ensures
        spec_headers_frame(h).len() == 9 + h.2.len(),
        spec_parse_head(spec_headers_frame(h)) == (Head { kind: Kind::Headers, flags: h.1, stream_id: h.0 }),
        spec_headers_frame(h).subrange(9, spec_headers_frame(h).len() as int) == h.2,
{
    let head = Head { kind: Kind::Headers, flags: h.1, stream_id: h.0 };
    let f = spec_headers_frame(h);
    let hb = spec_head_bytes(head, h.2.len());
    super::head::lemma_head_roundtrip(head, h.2.len());
    assert(f.subrange(5, 9) =~= hb.subrange(5, 9));
    assert(f.subrange(9, f.len() as int) =~= h.2);
}

} // verus!
