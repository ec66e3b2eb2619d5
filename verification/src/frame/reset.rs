//! RST_STREAM frames.
use super::head::{spec_head_bytes, spec_parse_head, Head, Kind};
use super::reason::Reason;
use super::stream_id::StreamId;
use super::wire::{be_bytes, be_value, put_u32, read_u32};
use super::Error;
use vstd::prelude::*;

verus! {

/// The RST_STREAM frame: a stream ends abnormally, with an error code.
#[derive(Debug, Clone, Copy, PartialEq, Eq, Structural)]
pub struct Reset {
    stream_id: StreamId,
    error_code: Reason,
}

impl View for Reset {
    /// The stream identifier and the error code.
    type V = (StreamId, Reason);

    closed spec fn view(&self) -> (StreamId, Reason) {
        (self.stream_id, self.error_code)
    }
}

/// What `Reset::load` makes of a header and payload: the payload is exactly
/// a four-byte error code.
pub open spec fn spec_reset_load(head: Head, payload: Seq<u8>) -> Result<(StreamId, Reason), Error> {
    if payload.len() != 4 {
        Err(Error::InvalidPayloadLength)
    } else {
        Ok((head.stream_id, Reason(be_value(payload) as u32)))
    }
}

/// The encoded RST_STREAM frame.
pub open spec fn spec_reset_frame(r: (StreamId, Reason)) -> Seq<u8> {
    spec_head_bytes(Head { kind: Kind::Reset, flags: 0, stream_id: r.0 }, 4) + be_bytes(
        r.1.0 as nat,
        4,
    )
}

impl Reset {
    pub fn new(stream_id: StreamId, error: Reason) -> (r: Reset)
        ensures
            r@ == (stream_id, error),
    {
        Reset { stream_id, error_code: error }
    }

    pub fn stream_id(&self) -> (r: StreamId)
        ensures
            r == self@.0,
    {
        self.stream_id
    }

    pub fn reason(&self) -> (r: Reason)
        ensures
            r == self@.1,
    {
        self.error_code
    }

    /// Reads a RST_STREAM frame from its header and payload.
    pub fn load(head: Head, payload: &[u8]) -> (r: Result<Reset, Error>)
        ensures
            r matches Ok(x) ==> spec_reset_load(head, payload@) == Ok::<(StreamId, Reason), Error>(x@),
            r matches Err(e) ==> spec_reset_load(head, payload@) == Err::<(StreamId, Reason), Error>(e),
    {
        if payload.len() != 4 {
            return Err(Error::InvalidPayloadLength);
        }
        let error_code = read_u32(payload, 0);
        proof {
            assert(payload@.subrange(0, 4) =~= payload@);
        }
        Ok(Reset { stream_id: head.stream_id(), error_code: Reason(error_code) })
    }

    /// Appends the whole frame.
    pub fn encode(&self, dst: &mut Vec<u8>)
        ensures
            final(dst)@ == old(dst)@ + spec_reset_frame(self@),
    {
        let head = Head::new(Kind::Reset, 0, self.stream_id);
        head.encode(4, dst);
        put_u32(dst, self.error_code.0);
        proof {
            assert(final(dst)@ =~= old(dst)@ + spec_reset_frame(self@));
        }
    }
}

/// Reading back an encoded RST_STREAM frame gives the frame that was encoded,
/// for stream identifiers without the reserved bit.
pub proof fn lemma_reset_roundtrip(r: (StreamId, Reason))
    requires
        r.0.0 < 0x8000_0000,
    ensures
        spec_reset_frame(r).len() == 13,
        spec_parse_head(spec_reset_frame(r)) == (Head { kind: Kind::Reset, flags: 0, stream_id: r.0 }),
        spec_reset_load(spec_parse_head(spec_reset_frame(r)), spec_reset_frame(r).subrange(9, 13))
            == Ok::<(StreamId, Reason), Error>(r),
{
    let head = Head { kind: Kind::Reset, flags: 0, stream_id: r.0 };
    let f = spec_reset_frame(r);
    let hb = spec_head_bytes(head, 4);
    super::head::lemma_head_roundtrip(head, 4);
    reveal_with_fuel(super::wire::pow256, 5);
    super::wire::lemma_be_small_roundtrip(r.1.0 as nat, 4);
    assert(f.subrange(5, 9) =~= hb.subrange(5, 9));
    assert(f.subrange(9, 13) =~= be_bytes(r.1.0 as nat, 4));
}

/// An RST_STREAM payload is accepted exactly when it is four bytes; the
/// frame is then on the header's stream.
pub proof fn lemma_reset_load_outcomes(head: Head, payload: Seq<u8>)
    ensures
        payload.len() != 4 ==> spec_reset_load(head, payload) == Err::<(StreamId, Reason), Error>(
            Error::InvalidPayloadLength,
        ),
        payload.len() == 4 ==> (spec_reset_load(head, payload) matches Ok(r) && r.0 == head.stream_id),
{
}

} // verus!
