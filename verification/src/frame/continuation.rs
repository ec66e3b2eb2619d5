//! CONTINUATION frames.
use super::head::{spec_head_bytes, spec_parse_head, Flags, Head, Kind};
use super::wire::be_value;
use super::stream_id::StreamId;
use super::wire::put_slice;
use vstd::prelude::*;

verus! {

/// A CONTINUATION frame: the rest of a header block, which it ends.
#[derive(Debug, Clone, PartialEq, Eq)]
pub struct Continuation {
    /// Stream ID of continuation frame.
    stream_id: StreamId,
    /// Raw headers data.
    raw_data: Vec<u8>,
}

impl View for Continuation {
    /// The stream identifier and the raw header block fragment.
    type V = (StreamId, Seq<u8>);

    closed spec fn view(&self) -> (StreamId, Seq<u8>) {
        (self.stream_id, self.raw_data@)
    }
}

/// The encoded CONTINUATION frame; it always carries `END_HEADERS`.
pub open spec fn spec_continuation_frame(c: (StreamId, Seq<u8>)) -> Seq<u8> {
    spec_head_bytes(Head { kind: Kind::Continuation, flags: 0x4, stream_id: c.0 }, c.1.len()) + c.1
}

impl Continuation {
    pub fn new(stream_id: StreamId, raw_data: Vec<u8>) -> (r: Self)
        ensures
            r@ == (stream_id, raw_data@),
    {
        Continuation { stream_id, raw_data }
    }

    /// Builds the header for this frame, with `END_HEADERS` set.
    pub fn head(&self) -> (r: Head)
        ensures
            r == (Head { kind: Kind::Continuation, flags: 0x4, stream_id: self@.0 }),
    {
        Head::new(Kind::Continuation, Flags::end_headers().bits(), self.stream_id)
    }

    /// Converts the raw data to a byte slice.
    pub fn as_bytes(&self) -> (r: &[u8])
        ensures
            r@ == self@.1,
    {
        self.raw_data.as_slice()
    }

    /// Returns true if the raw data has a length of zero bytes.
    pub fn is_empty(&self) -> (r: bool)
        ensures
            r == (self@.1.len() == 0),
    {
        self.raw_data.len() == 0
    }

    /// Returns the length of the raw data.
    pub fn len(&self) -> (r: usize)
        ensures
            r == self@.1.len(),
    {
        self.raw_data.len()
    }

    /// Appends the whole frame: its header, then the raw data.
    pub fn encode(&self, dst: &mut Vec<u8>)
        ensures
            final(dst)@ == old(dst)@ + spec_continuation_frame(self@),
    {
        let data = self.as_bytes();
        self.head().encode(data.len(), dst);
        put_slice(dst, data);
        proof {
            assert(final(dst)@ =~= old(dst)@ + spec_continuation_frame(self@));
        }
    }
}

/// An encoded CONTINUATION frame is a nine-byte header naming a CONTINUATION
/// frame with `END_HEADERS` on the frame's stream, whose length field holds
/// the length of the raw data (modulo `2^24`), followed by exactly the raw
/// data; for stream identifiers without the reserved bit.
pub proof fn lemma_continuation_roundtrip(c: (StreamId, Seq<u8>))
    requires
        c.0.0 < 0x8000_0000,
    ensures
        spec_continuation_frame(c).len() == 9 + c.1.len(),
        spec_parse_head(spec_continuation_frame(c)) == (Head { kind: Kind::Continuation, flags: 0x4, stream_id: c.0 }),
        be_value(spec_continuation_frame(c).subrange(0, 3)) == c.1.len() % 0x100_0000,
        spec_continuation_frame(c).subrange(9, spec_continuation_frame(c).len() as int) == c.1,
{
    let head = Head { kind: Kind::Continuation, flags: 0x4, stream_id: c.0 };
    let f = spec_continuation_frame(c);
    let hb = spec_head_bytes(head, c.1.len());
    super::head::lemma_head_roundtrip(head, c.1.len());
    assert(f.subrange(0, 3) =~= hb.subrange(0, 3));
    assert(f.subrange(5, 9) =~= hb.subrange(5, 9));
    assert(f.subrange(9, f.len() as int) =~= c.1);
}

} // verus!
