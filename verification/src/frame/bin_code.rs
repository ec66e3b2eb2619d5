//! BINCODE frames: a frame type of this library for bincode-encoded payloads.
use super::head::{spec_head_bytes, Head, Kind};
use super::stream_id::{spec_parse_stream_id, StreamId};
use super::wire::{be_bytes, be_value};
use super::wire::put_slice;
use vstd::prelude::*;

verus! {

/// The flags of the BinCode frame; `ACK` (`0x1`) is the only one.
#[derive(Debug, Clone, Copy, PartialEq, Eq, Structural)]
pub struct BinCodeFlags {
    ack: bool,
}

impl View for BinCodeFlags {
    /// Whether `ACK` is set.
    type V = bool;

    closed spec fn view(&self) -> bool {
        self.ack
    }
}

impl BinCodeFlags {
    /// No flag set.
    pub fn empty() -> (r: Self)
        ensures
            !r@,
    {
        BinCodeFlags { ack: false }
    }

    /// `ACK` set.
    pub fn ack() -> (r: Self)
        ensures
            r@,
    {
        BinCodeFlags { ack: true }
    }

    /// The flags byte.
    pub fn bits(&self) -> (r: u8)
        ensures
            r == (if self@ { 1u8 } else { 0u8 }),
    {
        if self.ack {
            1
        } else {
            0
        }
    }
}

/// The stream identifier of a BinCode frame, which is never zero.
#[derive(Debug, Clone, Copy, PartialEq, Eq, Structural)]
struct FrameStream {
    id: StreamId,
}

impl FrameStream {
    /// The identifier is not zero.
    #[verifier::type_invariant]
    spec fn is_not_zero(self) -> bool {
        self.id.0 != 0
    }
}

/// Bincode encoded frame.
#[derive(Debug, Clone, PartialEq, Eq)]
pub struct BinCode {
    stream: FrameStream,
    flags: BinCodeFlags,
    data: Vec<u8>,
}

impl View for BinCode {
    /// The stream identifier, whether `ACK` is set, and the payload.
    type V = (StreamId, bool, Seq<u8>);

    closed spec fn view(&self) -> (StreamId, bool, Seq<u8>) {
        (self.stream.id, self.flags@, self.data@)
    }
}

/// The encoded BinCode frame.
pub open spec fn spec_bin_code_frame(b: (StreamId, bool, Seq<u8>)) -> Seq<u8> {
    spec_head_bytes(
        Head { kind: Kind::BinCode, flags: if b.1 { 1u8 } else { 0u8 }, stream_id: b.0 },
        b.2.len(),
    ) + b.2
}

impl BinCode {
    /// Constructs a new BinCode frame without flags, on a non-zero stream.
    pub fn new(stream_id: StreamId, payload: Vec<u8>) -> (r: Self)
        requires
            stream_id.0 != 0,
        ensures
            r@ == (stream_id, false, payload@),
    {
        BinCode { stream: FrameStream { id: stream_id }, flags: BinCodeFlags::empty(), data: payload }
    }

    /// Returns the stream identifier that this frame is associated with.
    ///
    /// This cannot be a zero stream identifier.
    pub fn stream_id(&self) -> (r: StreamId)
        ensures
            r == self@.0,
            r.0 != 0,
    {
        proof {
            use_type_invariant(&self.stream);
        }
        self.stream.id
    }

    /// Returns the flags of this frame.
    pub fn flags(&self) -> (r: BinCodeFlags)
        ensures
            r@ == self@.1,
    {
        self.flags
    }

    /// Returns a reference to this frame's payload.
    pub fn payload(&self) -> (r: &Vec<u8>)
        ensures
            r@ == self@.2,
    {
        &self.data
    }

    /// Returns a mutable reference to this frame's payload.
    pub fn payload_mut(&mut self) -> (r: &mut Vec<u8>)
        ensures
            r@ == old(self)@.2,
            final(self)@ == (old(self)@.0, old(self)@.1, final(r)@),
    {
        &mut self.data
    }

    /// Consumes `self` and returns the frame's payload.
    pub fn into_payload(self) -> (r: Vec<u8>)
        ensures
            r@ == self@.2,
    {
        self.data
    }

    /// Builds the header for this frame.
    pub fn head(&self) -> (r: Head)
        ensures
            r == (Head { kind: Kind::BinCode, flags: if self@.1 { 1u8 } else { 0u8 }, stream_id: self@.0 }),
    {
        Head::new(Kind::BinCode, self.flags.bits(), self.stream.id)
    }

    /// Converts the payload to a byte slice.
    pub fn as_bytes(&self) -> (r: &[u8])
        ensures
            r@ == self@.2,
    {
        self.data.as_slice()
    }

    /// Returns true if the payload has a length of zero bytes.
    pub fn is_empty(&self) -> (r: bool)
        ensures
            r == (self@.2.len() == 0),
    {
        self.data.len() == 0
    }

    /// Returns the length of the payload.
    pub fn len(&self) -> (r: usize)
        ensures
            r == self@.2.len(),
    {
        self.data.len()
    }

    /// Appends the whole frame: its header, then its payload.
    pub fn encode(&self, dst: &mut Vec<u8>)
        ensures
            final(dst)@ == old(dst)@ + spec_bin_code_frame(self@),
    {
        let data = self.as_bytes();
        self.head().encode(data.len(), dst);
        put_slice(dst, data);
        proof {
            assert(final(dst)@ =~= old(dst)@ + spec_bin_code_frame(self@));
        }
    }
}

/// An encoded BinCode frame is a nine-byte header, whose length field holds
/// the payload's length (modulo `2^24`), whose type byte is `10`, whose flags
/// byte is `1` exactly when `ACK` is set and whose stream identifier is the
/// frame's, followed by exactly the payload; for stream identifiers without
/// the reserved bit.
pub proof fn lemma_bin_code_frame(b: (StreamId, bool, Seq<u8>))
    requires
        b.0.0 < 0x8000_0000,
    ensures
        spec_bin_code_frame(b).len() == 9 + b.2.len(),
        be_value(spec_bin_code_frame(b).subrange(0, 3)) == b.2.len() % 0x100_0000,
        spec_bin_code_frame(b)[3] == 10,
        spec_bin_code_frame(b)[4] == (if b.1 { 1u8 } else { 0u8 }),
        spec_parse_stream_id(spec_bin_code_frame(b).subrange(5, 9)).0 == b.0,
        spec_bin_code_frame(b).subrange(9, spec_bin_code_frame(b).len() as int) == b.2,
{
    let f = spec_bin_code_frame(b);
    let hb = spec_head_bytes(Head { kind: Kind::BinCode, flags: if b.1 { 1u8 } else { 0u8 }, stream_id: b.0 }, b.2.len());
    reveal_with_fuel(super::wire::pow256, 5);
    super::wire::lemma_be_roundtrip(b.2.len(), 3);
    super::wire::lemma_be_small_roundtrip(b.0.0 as nat, 4);
    assert(f.subrange(0, 3) =~= be_bytes(b.2.len(), 3));
    assert(f.subrange(5, 9) =~= be_bytes(b.0.0 as nat, 4));
    assert(hb[3] == 10u8);
    assert(f.subrange(9, f.len() as int) =~= b.2);
}

impl From<BinCodeFlags> for u8 {
    fn from(val: BinCodeFlags) -> (r: u8) {
        val.bits()
    }
}

impl vstd::std_specs::convert::FromSpecImpl<BinCodeFlags> for u8 {
    open spec fn obeys_from_spec() -> bool {
        true
    }

    open spec fn from_spec(val: BinCodeFlags) -> u8 {
        if val@ { 1u8 } else { 0u8 }
    }
}

} // verus!
