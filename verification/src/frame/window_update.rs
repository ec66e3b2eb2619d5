//! WINDOW_UPDATE frames.
use super::head::{spec_head_bytes, spec_parse_head, Head, Kind};
use super::stream_id::StreamId;
use super::wire::{be_bytes, be_value, put_u32, read_u32};
use super::Error;
use vstd::prelude::*;

verus! {

/// The reserved high bit of the window size increment.
pub const SIZE_INCREMENT_MASK: u32 = 0x8000_0000;

/// The WINDOW_UPDATE frame: how many more bytes the sender may send.
#[derive(Debug, Copy, Clone, Eq, PartialEq, Structural)]
pub struct WindowUpdate {
    stream_id: StreamId,
    size_increment: u32,
}

impl View for WindowUpdate {
    /// The stream identifier and the size increment.
    type V = (StreamId, u32);

    closed spec fn view(&self) -> (StreamId, u32) {
        (self.stream_id, self.size_increment)
    }
}

/// What `WindowUpdate::load` makes of a header and payload: the payload is
/// exactly four bytes; their value without the reserved bit is the increment,
/// which must not be zero.
pub open spec fn spec_window_update_load(head: Head, payload: Seq<u8>) -> Result<(StreamId, u32), Error> {
    if payload.len() != 4 {
        Err(Error::BadFrameSize)
    } else if be_value(payload) % 0x8000_0000 == 0 {
        Err(Error::InvalidWindowUpdateValue)
    } else {
        Ok((head.stream_id, (be_value(payload) % 0x8000_0000) as u32))
    }
}

/// The encoded WINDOW_UPDATE frame.
pub open spec fn spec_window_update_frame(w: (StreamId, u32)) -> Seq<u8> {
    spec_head_bytes(Head { kind: Kind::WindowUpdate, flags: 0, stream_id: w.0 }, 4) + be_bytes(
        w.1 as nat,
        4,
    )
}

impl WindowUpdate {
    pub fn new(stream_id: StreamId, size_increment: u32) -> (r: WindowUpdate)
        ensures
            r@ == (stream_id, size_increment),
    {
        WindowUpdate { stream_id, size_increment }
    }

    pub fn stream_id(&self) -> (r: StreamId)
        ensures
            r == self@.0,
    {
        self.stream_id
    }

    pub fn size_increment(&self) -> (r: u32)
        ensures
            r == self@.1,
    {
        self.size_increment
    }

    /// Builds a `WindowUpdate` frame from its header and payload. The reserved
    /// bit of the increment is ignored.
    pub fn load(head: Head, payload: &[u8]) -> (r: Result<WindowUpdate, Error>)
        ensures
            r matches Ok(x) ==> spec_window_update_load(head, payload@) == Ok::<(StreamId, u32), Error>(x@),
            r matches Err(e) ==> spec_window_update_load(head, payload@) == Err::<(StreamId, u32), Error>(e),
    {
        if payload.len() != 4 {
            return Err(Error::BadFrameSize);
        }
        let size_increment = read_u32(payload, 0) % SIZE_INCREMENT_MASK;
        proof {
            assert(payload@.subrange(0, 4) =~= payload@);
        }
        if size_increment == 0 {
            return Err(Error::InvalidWindowUpdateValue);
        }
        Ok(WindowUpdate { stream_id: head.stream_id(), size_increment })
    }

    /// Appends the whole frame.
    pub fn encode(&self, dst: &mut Vec<u8>)
        ensures
            final(dst)@ == old(dst)@ + spec_window_update_frame(self@),
    {
        let head = Head::new(Kind::WindowUpdate, 0, self.stream_id);
        head.encode(4, dst);
        put_u32(dst, self.size_increment);
        proof {
            assert(final(dst)@ =~= old(dst)@ + spec_window_update_frame(self@));
        }
    }
}

/// Reading back an encoded WINDOW_UPDATE frame gives the frame that was
/// encoded, for stream identifiers and increments without the reserved bit
/// and a non-zero increment.
pub proof fn lemma_window_update_roundtrip(w: (StreamId, u32))
    requires
        w.0.0 < 0x8000_0000,
        0 < w.1 < 0x8000_0000,
    ensures
        spec_window_update_frame(w).len() == 13,
        spec_parse_head(spec_window_update_frame(w)) == (Head { kind: Kind::WindowUpdate, flags: 0, stream_id: w.0 }),
        spec_window_update_load(
            spec_parse_head(spec_window_update_frame(w)),
            spec_window_update_frame(w).subrange(9, 13),
        ) == Ok::<(StreamId, u32), Error>(w),
{
    let head = Head { kind: Kind::WindowUpdate, flags: 0, stream_id: w.0 };
    let f = spec_window_update_frame(w);
    let hb = spec_head_bytes(head, 4);
    super::head::lemma_head_roundtrip(head, 4);
    reveal_with_fuel(super::wire::pow256, 5);
    super::wire::lemma_be_small_roundtrip(w.1 as nat, 4);
    assert(f.subrange(5, 9) =~= hb.subrange(5, 9));
    assert(f.subrange(9, 13) =~= be_bytes(w.1 as nat, 4));
}

/// A WINDOW_UPDATE payload is refused unless it is exactly four bytes, and
/// then refused when its increment (the reserved bit dropped) is zero;
/// otherwise the frame is on the header's stream with that increment, which
/// is below `2^31`.
pub proof fn lemma_window_update_load_outcomes(head: Head, payload: Seq<u8>)
    ensures
        payload.len() != 4 ==> spec_window_update_load(head, payload) == Err::<(StreamId, u32), Error>(
            Error::BadFrameSize,
        ),
        payload.len() == 4 ==> (spec_window_update_load(head, payload) is Ok <==> be_value(payload) % 0x8000_0000
            != 0),
        spec_window_update_load(head, payload) matches Ok(w) ==> w.0 == head.stream_id && w.1 < 0x8000_0000 && w.1
            as int == be_value(payload) % 0x8000_0000,
{
}

} // verus!
