//! Stream identifiers.
use super::wire::{be_value, read_u32};
use vstd::prelude::*;

verus! {

/// A stream identifier: 31 bits on the wire, the high bit being reserved.
#[derive(Debug, Clone, Copy, PartialEq, Eq, Structural, Hash, PartialOrd, Ord)]
pub struct StreamId(pub u32);

/// The next stream identifier would pass the largest one the protocol allows.
#[derive(Debug, Clone, Copy, PartialEq, Eq, Structural)]
pub struct StreamIdOverflow;

/// The reserved high bit of a stream identifier field.
pub const STREAM_ID_MASK: u32 = 0x8000_0000;

/// The largest stream identifier.
pub const MAX_STREAM_ID: u32 = 0x7fff_ffff;

/// What `StreamId::parse` yields for the four bytes `s`: the value without its
/// high bit, and whether that bit was set.
pub open spec fn spec_parse_stream_id(s: Seq<u8>) -> (StreamId, bool) {
    let v = be_value(s);
    (StreamId((v % 0x8000_0000) as u32), v >= 0x8000_0000)
}

impl StreamId {
    /// Parses a stream identifier from the first four bytes of `buf`, returning
    /// it with the reserved bit cleared, and whether that bit was set.
    pub fn parse(buf: &[u8]) -> (r: (StreamId, bool))
        requires
            buf@.len() >= 4,
        ensures
            r == spec_parse_stream_id(buf@.subrange(0, 4)),
    {
        let unpacked = read_u32(buf, 0);
        let flag = unpacked >= STREAM_ID_MASK;
        (StreamId(unpacked % STREAM_ID_MASK), flag)
    }

    /// The zero stream identifier, which names the connection as a whole.
    pub fn zero() -> (r: StreamId)
        ensures
            r.0 == 0,
    {
        StreamId(0)
    }

    /// Returns true if this is the zero stream identifier.
    pub fn is_zero(&self) -> (r: bool)
        ensures
            r == (self.0 == 0),
    {
        self.0 == 0
    }

    /// Returns true if a client would open a stream with this identifier (odd).
    pub fn is_client_initiated(&self) -> (r: bool)
        ensures
            r == (self.0 != 0 && self.0 % 2 == 1),
    {
        self.0 != 0 && self.0 % 2 == 1
    }

    /// Returns true if a server would open a stream with this identifier (even, non-zero).
    pub fn is_server_initiated(&self) -> (r: bool)
        ensures
            r == (self.0 != 0 && self.0 % 2 == 0),
    {
        self.0 != 0 && self.0 % 2 == 0
    }

    /// The identifier two above this one, the next one the same peer may use.
    pub fn next_id(&self) -> (r: Result<StreamId, StreamIdOverflow>)
        ensures
            self.0 + 2 > MAX_STREAM_ID ==> r is Err,
            self.0 + 2 <= MAX_STREAM_ID ==> r == Ok::<StreamId, StreamIdOverflow>(StreamId((self.0 + 2) as u32)),
    {
        if self.0 > MAX_STREAM_ID - 2 {
            Err(StreamIdOverflow)
        } else {
            Ok(StreamId(self.0 + 2))
        }
    }

    /// Builds a stream identifier from a value whose high bit is clear.
    pub fn from_u32(src: u32) -> (r: StreamId)
        requires
            src < STREAM_ID_MASK,
        ensures
            r.0 == src,
    {
        StreamId(src)
    }

    /// The identifier as a plain integer.
    pub fn to_u32(&self) -> (r: u32)
        ensures
            r == self.0,
    {
        self.0
    }
}

impl From<StreamId> for u32 {
    fn from(src: StreamId) -> (r: u32) {
        src.0
    }
}

impl vstd::std_specs::convert::FromSpecImpl<StreamId> for u32 {
    open spec fn obeys_from_spec() -> bool {
        true
    }

    open spec fn from_spec(src: StreamId) -> u32 {
        src.0
    }
}

} // verus!
