//! PRIORITY frames and stream dependencies.
use super::head::{spec_head_bytes, spec_parse_head, Head, Kind};
use super::stream_id::{spec_parse_stream_id, StreamId};
use super::wire::{be_bytes, put_u32, put_u8};
use super::Error;
use vstd::prelude::*;

verus! {

/// The dependency of a stream on another, with its weight.
#[derive(Debug, Clone, Copy, PartialEq, Eq, Structural)]
pub struct StreamDependency {
    /// The ID of the stream dependency target.
    dependency_id: StreamId,
    /// The weight for the stream, in `[0, 255]` rather than `[1, 256]`
    /// (section 5.3.2) so that it fits in a `u8`.
    weight: u8,
    /// True if the stream dependency is exclusive.
    is_exclusive: bool,
}

impl View for StreamDependency {
    /// The target stream, the weight and exclusivity.
    type V = (StreamId, u8, bool);

    closed spec fn view(&self) -> (StreamId, u8, bool) {
        (self.dependency_id, self.weight, self.is_exclusive)
    }
}

/// What `StreamDependency::load` makes of a payload: exactly five bytes, a
/// stream identifier whose high bit is the exclusive flag, then the weight.
pub open spec fn spec_dependency_load(src: Seq<u8>) -> Result<(StreamId, u8, bool), Error> {
    if src.len() != 5 {
        Err(Error::InvalidPayloadLength)
    } else {
        let (id, exclusive) = spec_parse_stream_id(src.subrange(0, 4));
        Ok((id, src[4], exclusive))
    }
}

/// The four-byte field of a dependency: the identifier, with the high bit set
/// when exclusive.
pub open spec fn spec_dependency_field(d: (StreamId, u8, bool)) -> u32 {
    if d.2 {
        d.0.0 | 0x8000_0000
    } else {
        d.0.0
    }
}

/// The five encoded bytes of a dependency.
pub open spec fn spec_dependency_bytes(d: (StreamId, u8, bool)) -> Seq<u8> {
    be_bytes(spec_dependency_field(d) as nat, 4) + be_bytes(d.1 as nat, 1)
}

impl StreamDependency {
    pub fn new(dependency_id: StreamId, weight: u8, is_exclusive: bool) -> (r: Self)
        ensures
            r@ == (dependency_id, weight, is_exclusive),
    {
        StreamDependency { dependency_id, weight, is_exclusive }
    }

    /// Reads a dependency from its five bytes.
    pub fn load(src: &[u8]) -> (r: Result<Self, Error>)
        ensures
            r matches Ok(x) ==> spec_dependency_load(src@) == Ok::<(StreamId, u8, bool), Error>(x@),
            r matches Err(e) ==> spec_dependency_load(src@) == Err::<(StreamId, u8, bool), Error>(e),
    {
        if src.len() != 5 {
            return Err(Error::InvalidPayloadLength);
        }
        let (dependency_id, is_exclusive) = StreamId::parse(src);
        let weight = src[4];
        Ok(StreamDependency::new(dependency_id, weight, is_exclusive))
    }

    pub fn dependency_id(&self) -> (r: StreamId)
        ensures
            r == self@.0,
    {
        self.dependency_id
    }

    /// Appends the five bytes of this dependency.
    pub fn encode(&self, dst: &mut Vec<u8>)
        ensures
            final(dst)@ == old(dst)@ + spec_dependency_bytes(self@),
    {
        let mut stream_id: u32 = self.dependency_id.0;
        if self.is_exclusive {
            stream_id = stream_id | 0x8000_0000u32;
        }
        put_u32(dst, stream_id);
        put_u8(dst, self.weight);
        proof {
            assert(final(dst)@ =~= old(dst)@ + spec_dependency_bytes(self@));
        }
    }
}

/// A dependency read back from its five bytes is the dependency, for targets
/// without the reserved bit.
pub proof fn lemma_dependency_roundtrip(d: (StreamId, u8, bool))
    requires
        d.0.0 < 0x8000_0000,
    ensures
        spec_dependency_bytes(d).len() == 5,
        spec_dependency_load(spec_dependency_bytes(d)) == Ok::<(StreamId, u8, bool), Error>(d),
{
    let v = spec_dependency_field(d);
    let id = d.0.0;
    assert(id < 0x8000_0000 ==> (id | 0x8000_0000u32) % 0x8000_0000 == id && (id | 0x8000_0000u32) >= 0x8000_0000) by (bit_vector);
    reveal_with_fuel(super::wire::pow256, 5);
    super::wire::lemma_be_small_roundtrip(v as nat, 4);
    reveal_with_fuel(be_bytes, 2);
    let b = spec_dependency_bytes(d);
    assert(b.subrange(0, 4) =~= be_bytes(v as nat, 4));
}

/// The PRIORITY frame.
#[derive(Debug, Clone, Copy, PartialEq, Eq, Structural)]
pub struct Priority {
    stream_id: StreamId,
    dependency: StreamDependency,
}

impl View for Priority {
    /// The stream identifier and its dependency.
    type V = (StreamId, (StreamId, u8, bool));

    closed spec fn view(&self) -> (StreamId, (StreamId, u8, bool)) {
        (self.stream_id, self.dependency@)
    }
}

/// What `Priority::load` makes of a header and payload: a dependency, which
/// must not name the frame's own stream.
pub open spec fn spec_priority_load(head: Head, payload: Seq<u8>) -> Result<(StreamId, (StreamId, u8, bool)), Error> {
    match spec_dependency_load(payload) {
        Err(e) => Err(e),
        Ok(d) => if d.0 == head.stream_id {
            Err(Error::InvalidDependencyId)
        } else {
            Ok((head.stream_id, d))
        },
    }
}

/// The encoded PRIORITY frame.
pub open spec fn spec_priority_frame(p: (StreamId, (StreamId, u8, bool))) -> Seq<u8> {
    spec_head_bytes(Head { kind: Kind::Priority, flags: 0, stream_id: p.0 }, 5)
        + spec_dependency_bytes(p.1)
}

impl Priority {
    /// Reads a PRIORITY frame from its header and payload.
    pub fn load(head: Head, payload: &[u8]) -> (r: Result<Self, Error>)
        ensures
            r matches Ok(x) ==> spec_priority_load(head, payload@) == Ok::<(StreamId, (StreamId, u8, bool)), Error>(x@),
            r matches Err(e) ==> spec_priority_load(head, payload@) == Err::<(StreamId, (StreamId, u8, bool)), Error>(e),
    {
        let dependency = match StreamDependency::load(payload) {
            Ok(d) => d,
            Err(e) => {
                return Err(e);
            },
        };
        if dependency.dependency_id() == head.stream_id() {
            return Err(Error::InvalidDependencyId);
        }
        Ok(Priority { stream_id: head.stream_id(), dependency })
    }

    /// Appends the whole frame.
    pub fn encode(&self, dst: &mut Vec<u8>)
        ensures
            final(dst)@ == old(dst)@ + spec_priority_frame(self@),
    {
        let head = Head::new(Kind::Priority, 0, self.stream_id);
        head.encode(5, dst);
        self.dependency.encode(dst);
        proof {
            assert(final(dst)@ =~= old(dst)@ + spec_priority_frame(self@));
        }
    }
}

/// Reading back an encoded PRIORITY frame gives the frame that was encoded,
/// for identifiers without the reserved bit and a dependency on another
/// stream.
pub proof fn lemma_priority_roundtrip(p: (StreamId, (StreamId, u8, bool)))
    requires
        p.0.0 < 0x8000_0000,
        p.1.0.0 < 0x8000_0000,
        p.1.0 != p.0,
    ensures
        spec_priority_frame(p).len() == 14,
        spec_parse_head(spec_priority_frame(p)) == (Head { kind: Kind::Priority, flags: 0, stream_id: p.0 }),
        spec_priority_load(spec_parse_head(spec_priority_frame(p)), spec_priority_frame(p).subrange(9, 14))
            == Ok::<(StreamId, (StreamId, u8, bool)), Error>(p),
{
    let head = Head { kind: Kind::Priority, flags: 0, stream_id: p.0 };
    let f = spec_priority_frame(p);
    let hb = spec_head_bytes(head, 5);
    super::head::lemma_head_roundtrip(head, 5);
    lemma_dependency_roundtrip(p.1);
    assert(f.subrange(5, 9) =~= hb.subrange(5, 9));
    assert(f.subrange(9, 14) =~= spec_dependency_bytes(p.1));
}

/// A PRIORITY payload is refused unless it is exactly five bytes, and then
/// refused when the stream depends on itself; otherwise the frame is on the
/// header's stream, with the weight of the fifth byte.
pub proof fn lemma_priority_load_outcomes(head: Head, payload: Seq<u8>)
    ensures
        payload.len() != 5 ==> spec_priority_load(head, payload) == Err::<(StreamId, (StreamId, u8, bool)), Error>(
            Error::InvalidPayloadLength,
        ),
        payload.len() == 5 ==> (spec_priority_load(head, payload) == Err::<(StreamId, (StreamId, u8, bool)), Error>(
            Error::InvalidDependencyId,
        ) <==> spec_parse_stream_id(payload.subrange(0, 4)).0 == head.stream_id),
        spec_priority_load(head, payload) matches Ok(p) ==> p.0 == head.stream_id && p.1.1 == payload[4] && p.1.0
            != head.stream_id,
{
}

} // verus!
