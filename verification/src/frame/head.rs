//! The nine-byte frame header.
use super::stream_id::{spec_parse_stream_id, StreamId};
use super::wire::{be_bytes, be_value, put_u24, put_u32, put_u8, read_u24};
use vstd::prelude::*;

verus! {

/// The flag bits that HEADERS, DATA and CONTINUATION frames share.
#[derive(Debug, Clone, Copy, PartialEq, Eq, Structural)]
pub struct Flags {
    bits: u8,
}

impl Flags {
    /// `END_STREAM`: the sender will send nothing more on this stream.
    pub fn end_stream() -> (r: Flags)
        ensures
            r.spec_bits() == 0x1,
    {
        Flags { bits: 0x1 }
    }

    /// `END_HEADERS`: this frame ends a header block.
    pub fn end_headers() -> (r: Flags)
        ensures
            r.spec_bits() == 0x4,
    {
        Flags { bits: 0x4 }
    }

    /// `PADDED`: the payload starts with a padding length.
    pub fn padded() -> (r: Flags)
        ensures
            r.spec_bits() == 0x8,
    {
        Flags { bits: 0x8 }
    }

    /// `PRIORITY`: the payload carries priority fields.
    pub fn priority() -> (r: Flags)
        ensures
            r.spec_bits() == 0x20,
    {
        Flags { bits: 0x20 }
    }

    /// Every known flag.
    pub fn all() -> (r: Flags)
        ensures
            r.spec_bits() == 0x2d,
    {
        Flags { bits: 0x2d }
    }

    /// No flag set.
    pub fn empty() -> (r: Flags)
        ensures
            r.spec_bits() == 0,
    {
        Flags { bits: 0 }
    }

    pub closed spec fn spec_bits(&self) -> u8 {
        self.bits
    }

    /// The raw bits, as they go on the wire.
    pub fn bits(&self) -> (r: u8)
        ensures
            r == self.spec_bits(),
    {
        self.bits
    }

    /// Keeps only the bits that name a known flag.
    pub fn from_bits_truncate(bits: u8) -> (r: Flags)
        ensures
            r.spec_bits() == bits & 0x2d,
    {
        Flags { bits: bits & 0x2d }
    }
}

/// The type of a frame, from the fourth byte of its header.
#[derive(Debug, Clone, Copy, PartialEq, Eq, Structural, PartialOrd, Ord)]
pub enum Kind {
    Data,
    Headers,
    Priority,
    Reset,
    Settings,
    PushPromise,
    Ping,
    GoAway,
    WindowUpdate,
    Continuation,
    BinCode,
    Unknown,
}

/// The kind that a type byte (or any wider integer) names. Only `0..=9` name a
/// kind; every other value, `10` included, is `Unknown`.
pub open spec fn spec_kind_from(v: int) -> Kind {
    if v == 0 {
        Kind::Data
    } else if v == 1 {
        Kind::Headers
    } else if v == 2 {
        Kind::Priority
    } else if v == 3 {
        Kind::Reset
    } else if v == 4 {
        Kind::Settings
    } else if v == 5 {
        Kind::PushPromise
    } else if v == 6 {
        Kind::Ping
    } else if v == 7 {
        Kind::GoAway
    } else if v == 8 {
        Kind::WindowUpdate
    } else if v == 9 {
        Kind::Continuation
    } else {
        Kind::Unknown
    }
}

/// The type byte that an encoder writes for a kind: its position in the list,
/// `Unknown` being eleventh.
pub open spec fn spec_kind_code(k: Kind) -> u8 {
    match k {
        Kind::Data => 0,
        Kind::Headers => 1,
        Kind::Priority => 2,
        Kind::Reset => 3,
        Kind::Settings => 4,
        Kind::PushPromise => 5,
        Kind::Ping => 6,
        Kind::GoAway => 7,
        Kind::WindowUpdate => 8,
        Kind::Continuation => 9,
        Kind::BinCode => 10,
        Kind::Unknown => 11,
    }
}

impl Kind {
    /// The kind named by a type byte.
    pub fn new(kind: u8) -> (r: Kind)
        ensures
            r == spec_kind_from(kind as int),
    {
        Self::from_usize(kind as usize)
    }

    /// The kind named by an integer.
    pub fn from_usize(val: usize) -> (r: Kind)
        ensures
            r == spec_kind_from(val as int),
    {
        match val {
            0 => Kind::Data,
            1 => Kind::Headers,
            2 => Kind::Priority,
            3 => Kind::Reset,
            4 => Kind::Settings,
            5 => Kind::PushPromise,
            6 => Kind::Ping,
            7 => Kind::GoAway,
            8 => Kind::WindowUpdate,
            9 => Kind::Continuation,
            _ => Kind::Unknown,
        }
    }

    /// The kind named by a 16-bit integer.
    pub fn from_u16(val: u16) -> (r: Kind)
        ensures
            r == spec_kind_from(val as int),
    {
        Self::from_usize(val as usize)
    }

    /// The kind named by a 32-bit integer.
    pub fn from_u32(val: u32) -> (r: Kind)
        ensures
            r == spec_kind_from(val as int),
    {
        if val > 9 {
            Kind::Unknown
        } else {
            Self::from_usize(val as usize)
        }
    }

    /// The type byte written for this kind.
    pub fn code(&self) -> (r: u8)
        ensures
            r == spec_kind_code(*self),
    {
        match self {
            Kind::Data => 0,
            Kind::Headers => 1,
            Kind::Priority => 2,
            Kind::Reset => 3,
            Kind::Settings => 4,
            Kind::PushPromise => 5,
            Kind::Ping => 6,
            Kind::GoAway => 7,
            Kind::WindowUpdate => 8,
            Kind::Continuation => 9,
            Kind::BinCode => 10,
            Kind::Unknown => 11,
        }
    }
}

impl From<u8> for Kind {
    fn from(val: u8) -> (r: Kind) {
        Kind::new(val)
    }
}

impl vstd::std_specs::convert::FromSpecImpl<u8> for Kind {
    open spec fn obeys_from_spec() -> bool {
        true
    }

    open spec fn from_spec(val: u8) -> Kind {
        spec_kind_from(val as int)
    }
}

impl From<u16> for Kind {
    fn from(val: u16) -> (r: Kind) {
        Kind::from_u16(val)
    }
}

impl vstd::std_specs::convert::FromSpecImpl<u16> for Kind {
    open spec fn obeys_from_spec() -> bool {
        true
    }

    open spec fn from_spec(val: u16) -> Kind {
        spec_kind_from(val as int)
    }
}

impl From<u32> for Kind {
    fn from(val: u32) -> (r: Kind) {
        Kind::from_u32(val)
    }
}

impl vstd::std_specs::convert::FromSpecImpl<u32> for Kind {
    open spec fn obeys_from_spec() -> bool {
        true
    }

    open spec fn from_spec(val: u32) -> Kind {
        spec_kind_from(val as int)
    }
}

impl From<usize> for Kind {
    fn from(val: usize) -> (r: Kind) {
        Kind::from_usize(val)
    }
}

impl vstd::std_specs::convert::FromSpecImpl<usize> for Kind {
    open spec fn obeys_from_spec() -> bool {
        true
    }

    open spec fn from_spec(val: usize) -> Kind {
        spec_kind_from(val as int)
    }
}

impl From<Flags> for u8 {
    fn from(val: Flags) -> (r: u8) {
        val.bits()
    }
}

impl vstd::std_specs::convert::FromSpecImpl<Flags> for u8 {
    open spec fn obeys_from_spec() -> bool {
        true
    }

    open spec fn from_spec(val: Flags) -> u8 {
        val.spec_bits()
    }
}

/// Frame header.
#[derive(Debug, Clone, Copy, PartialEq, Eq, Structural)]
pub struct Head {
    pub kind: Kind,
    pub flags: u8,
    pub stream_id: StreamId,
}

/// The nine bytes that encode `head` in front of a payload of `payload_len`
/// bytes: the length's low three bytes, the type, the flags and the stream
/// identifier, all big-endian.
pub open spec fn spec_head_bytes(head: Head, payload_len: nat) -> Seq<u8> {
    be_bytes(payload_len, 3) + seq![spec_kind_code(head.kind), head.flags] + be_bytes(
        head.stream_id.0 as nat,
        4,
    )
}

/// The header that `Head::parse` reads from nine bytes.
pub open spec fn spec_parse_head(s: Seq<u8>) -> Head {
    Head {
        kind: spec_kind_from(s[3] as int),
        flags: s[4],
        stream_id: spec_parse_stream_id(s.subrange(5, 9)).0,
    }
}

/// The length of the frame header on the wire.
pub const HEADER_LEN: usize = 9;

impl Head {
    /// Constructs a new frame header.
    pub fn new(kind: Kind, flags: u8, stream_id: StreamId) -> (r: Head)
        ensures
            r == (Head { kind, flags, stream_id }),
    {
        Head { kind, flags, stream_id }
    }

    /// Parses an HTTP/2 frame header from the first nine bytes of `header`.
    pub fn parse(header: &[u8]) -> (r: Head)
        requires
            header@.len() >= 9,
        ensures
            r == spec_parse_head(header@),
    {
        let (stream_id, _) = StreamId::parse(vstd::slice::slice_subrange(header, 5, 9));
        proof {
            assert(header@.subrange(5, 9).subrange(0, 4) =~= header@.subrange(5, 9));
        }
        Head { kind: Kind::new(header[3]), flags: header[4], stream_id }
    }

    pub fn stream_id(&self) -> (r: StreamId)
        ensures
            r == self.stream_id,
    {
        self.stream_id
    }

    pub fn kind(&self) -> (r: Kind)
        ensures
            r == self.kind,
    {
        self.kind
    }

    pub fn flags(&self) -> (r: u8)
        ensures
            r == self.flags,
    {
        self.flags
    }

    /// The number of bytes the header takes on the wire.
    pub fn encode_len(&self) -> (r: usize)
        ensures
            r == 9,
    {
        HEADER_LEN
    }

    /// Appends the header of a frame whose payload is `payload_len` bytes long.
    /// Only the low three bytes of the length fit in the field.
    pub fn encode(&self, payload_len: usize, dst: &mut Vec<u8>)
        ensures
            final(dst)@ == old(dst)@ + spec_head_bytes(*self, payload_len as nat),
    {
        put_u24(dst, payload_len as u64);
        put_u8(dst, self.kind.code());
        put_u8(dst, self.flags);
        put_u32(dst, self.stream_id.0);
        proof {
            reveal_with_fuel(be_bytes, 2);
            assert(be_bytes(spec_kind_code(self.kind) as nat, 1) =~= seq![spec_kind_code(self.kind)]);
            assert(be_bytes(self.flags as nat, 1) =~= seq![self.flags]);
            assert(final(dst)@ =~= old(dst)@ + spec_head_bytes(*self, payload_len as nat));
        }
    }
}

/// Reads the payload length from the first three bytes of a frame header.
pub fn parse_payload_len(header: &[u8]) -> (r: usize)
    requires
        header@.len() >= 3,
    ensures
        r as nat == be_value(header@.subrange(0, 3)),
        r < 0x100_0000,
{
    read_u24(header, 0) as usize
}

/// Every kind but `BinCode` survives the trip through its type byte.
pub proof fn lemma_kind_code_roundtrip(k: Kind)
    requires
        k != Kind::BinCode,
    ensures
        spec_kind_from(spec_kind_code(k) as int) == k,
{
}

/// A header read back from the nine bytes `Head::encode` writes is the header
/// that was written, and the length field holds the payload length modulo
/// `2^24`. This holds for every kind but `BinCode` (its type byte `10` reads as
/// `Unknown`) and for stream identifiers without the reserved bit.
pub proof fn lemma_head_roundtrip(head: Head, payload_len: nat)
    requires
        head.kind != Kind::BinCode,
        head.stream_id.0 < 0x8000_0000,
    ensures
        spec_head_bytes(head, payload_len).len() == 9,
        spec_parse_head(spec_head_bytes(head, payload_len)) == head,
        be_value(spec_head_bytes(head, payload_len).subrange(0, 3)) == payload_len % 0x100_0000,
{
    let s = spec_head_bytes(head, payload_len);
    reveal_with_fuel(super::wire::pow256, 5);
    super::wire::lemma_be_roundtrip(payload_len, 3);
    super::wire::lemma_be_small_roundtrip(head.stream_id.0 as nat, 4);
    assert(s.subrange(0, 3) =~= be_bytes(payload_len, 3));
    assert(s.subrange(5, 9) =~= be_bytes(head.stream_id.0 as nat, 4));
    lemma_kind_code_roundtrip(head.kind);
}

} // verus!
