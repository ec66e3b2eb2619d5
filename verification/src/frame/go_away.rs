//! GOAWAY frames.
use super::head::{spec_head_bytes, spec_parse_head, Head, Kind};
use super::reason::Reason;
use super::stream_id::{spec_parse_stream_id, StreamId};
use super::wire::{be_bytes, be_value, put_u32, read_u32};
use super::Error;
use vstd::prelude::*;

verus! {

/// The GOAWAY frame: the last stream the sender processed, and why it stops.
#[derive(Debug, Clone, Copy, PartialEq, Eq, Structural)]
pub struct GoAway {
    last_stream_id: StreamId,
    error_code: Reason,
}

impl View for GoAway {
    /// The last stream identifier and the error code.
    type V = (StreamId, Reason);

    closed spec fn view(&self) -> (StreamId, Reason) {
        (self.last_stream_id, self.error_code)
    }
}

/// What `GoAway::load` makes of a payload: at least eight bytes, the first
/// four a stream identifier (reserved bit dropped), the next four an error
/// code; anything after is ignored.
pub open spec fn spec_go_away_load(payload: Seq<u8>) -> Result<(StreamId, Reason), Error> {
    if payload.len() < 8 {
        Err(Error::BadFrameSize)
    } else {
        Ok(
            (
                spec_parse_stream_id(payload.subrange(0, 4)).0,
                Reason(be_value(payload.subrange(4, 8)) as u32),
            ),
        )
    }
}

/// The encoded GOAWAY frame: a header on stream zero announcing eight bytes,
/// then the last stream identifier and the error code.
pub open spec fn spec_go_away_frame(g: (StreamId, Reason)) -> Seq<u8> {
    spec_head_bytes(Head { kind: Kind::GoAway, flags: 0, stream_id: StreamId(0) }, 8) + be_bytes(
        g.0.0 as nat,
        4,
    ) + be_bytes(g.1.0 as nat, 4)
}

impl GoAway {
    pub fn new(last_stream_id: StreamId, reason: Reason) -> (r: GoAway)
        ensures
            r@ == (last_stream_id, reason),
    {
        GoAway { last_stream_id, error_code: reason }
    }

    pub fn last_stream_id(&self) -> (r: StreamId)
        ensures
            r == self@.0,
    {
        self.last_stream_id
    }

    pub fn reason(&self) -> (r: Reason)
        ensures
            r == self@.1,
    {
        self.error_code
    }

    /// Reads a GOAWAY frame from its payload.
    pub fn load(payload: &[u8]) -> (r: Result<GoAway, Error>)
        ensures
            r matches Ok(g) ==> spec_go_away_load(payload@) == Ok::<(StreamId, Reason), Error>(g@),
            r matches Err(e) ==> spec_go_away_load(payload@) == Err::<(StreamId, Reason), Error>(e),
    {
        if payload.len() < 8 {
            return Err(Error::BadFrameSize);
        }
        let (last_stream_id, _) = StreamId::parse(payload);
        let error_code = read_u32(payload, 4);
        Ok(GoAway { last_stream_id, error_code: Reason(error_code) })
    }

    /// Appends the whole frame.
    pub fn encode(&self, dst: &mut Vec<u8>)
        ensures
            final(dst)@ == old(dst)@ + spec_go_away_frame(self@),
    {
        let head = Head::new(Kind::GoAway, 0, StreamId::zero());
        head.encode(8, dst);
        put_u32(dst, self.last_stream_id.0);
        put_u32(dst, self.error_code.0);
        proof {
            assert(final(dst)@ =~= old(dst)@ + spec_go_away_frame(self@));
        }
    }
}

/// Reading back an encoded GOAWAY frame gives the frame that was encoded,
/// for last stream identifiers without the reserved bit; its header names a
/// GOAWAY frame on stream zero with an eight-byte payload.
pub proof fn lemma_go_away_roundtrip(g: (StreamId, Reason))
    requires
        g.0.0 < 0x8000_0000,
    ensures
        spec_go_away_frame(g).len() == 17,
        spec_parse_head(spec_go_away_frame(g)) == (Head { kind: Kind::GoAway, flags: 0, stream_id: StreamId(0) }),
        be_value(spec_go_away_frame(g).subrange(0, 3)) == 8,
        spec_go_away_load(spec_go_away_frame(g).subrange(9, 17)) == Ok::<(StreamId, Reason), Error>(g),
{
    let head = Head { kind: Kind::GoAway, flags: 0, stream_id: StreamId(0) };
    let f = spec_go_away_frame(g);
    let hb = spec_head_bytes(head, 8);
    super::head::lemma_head_roundtrip(head, 8);
    reveal_with_fuel(super::wire::pow256, 5);
    super::wire::lemma_be_small_roundtrip(g.0.0 as nat, 4);
    super::wire::lemma_be_small_roundtrip(g.1.0 as nat, 4);
    assert(f.subrange(0, 3) =~= hb.subrange(0, 3));
    assert(f.subrange(5, 9) =~= hb.subrange(5, 9));
    let p = f.subrange(9, 17);
    assert(p.subrange(0, 4) =~= be_bytes(g.0.0 as nat, 4));
    assert(p.subrange(4, 8) =~= be_bytes(g.1.0 as nat, 4));
}

/// A GOAWAY payload is refused exactly when it is shorter than eight bytes;
/// otherwise it reads as its first eight bytes, whatever debug data follows
/// them, so an encoded GOAWAY frame reads back with any debug data appended.
pub proof fn lemma_go_away_debug_data(p: Seq<u8>, debug: Seq<u8>, g: (StreamId, Reason))
    requires
        g.0.0 < 0x8000_0000,
    ensures
        p.len() < 8 ==> spec_go_away_load(p) == Err::<(StreamId, Reason), Error>(Error::BadFrameSize),
        p.len() >= 8 ==> spec_go_away_load(p) is Ok,
        p.len() >= 8 ==> spec_go_away_load(p) == spec_go_away_load(p.subrange(0, 8)),
        p.len() >= 8 ==> spec_go_away_load(p + debug) == spec_go_away_load(p),
        spec_go_away_load(spec_go_away_frame(g).subrange(9, 17) + debug) == Ok::<(StreamId, Reason), Error>(g),
{
    if p.len() >= 8 {
        let q = p + debug;
        assert(q.subrange(0, 4) =~= p.subrange(0, 4));
        assert(q.subrange(4, 8) =~= p.subrange(4, 8));
        assert(p.subrange(0, 8).subrange(0, 4) =~= p.subrange(0, 4));
        assert(p.subrange(0, 8).subrange(4, 8) =~= p.subrange(4, 8));
    }
    lemma_go_away_roundtrip(g);
    let f = spec_go_away_frame(g).subrange(9, 17);
    let q = f + debug;
    assert(q.subrange(0, 4) =~= f.subrange(0, 4));
    assert(q.subrange(4, 8) =~= f.subrange(4, 8));
}

} // verus!
