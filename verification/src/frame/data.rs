//! DATA frames.
use super::head::{spec_head_bytes, spec_parse_head, Head, Kind};
use super::wire::be_value;
use super::stream_id::StreamId;
use super::wire::{be_bytes, put_slice, put_u8, put_zeros};
use super::Error;
use vstd::prelude::*;

verus! {

/// The flags of a DATA frame: `END_STREAM` (`0x1`) and `PADDED` (`0x8`).
#[derive(Debug, Clone, Copy, PartialEq, Eq, Structural)]
struct DataFlags {
    end_stream: bool,
    padded: bool,
}

/// The flags byte of a DATA frame with the given flags.
pub open spec fn spec_data_flags_bits(end_stream: bool, padded: bool) -> u8 {
    ((if end_stream { 1u8 } else { 0u8 }) + (if padded { 8u8 } else { 0u8 })) as u8
}

impl DataFlags {
    /// Reads the flags from a flags byte, dropping unknown bits.
    fn load(bits: u8) -> (r: DataFlags)
        ensures
            r.end_stream == (bits % 2 == 1),
            r.padded == ((bits / 8) % 2 == 1),
    {
        let end_stream = bits & 0x1 != 0;
        let padded = bits & 0x8 != 0;
        assert(end_stream == (bits % 2 == 1) && padded == ((bits / 8) % 2 == 1)) by (bit_vector)
            requires
                end_stream == (bits & 0x1 != 0),
                padded == (bits & 0x8 != 0),
        ;
        DataFlags { end_stream, padded }
    }

    fn is_end_stream(&self) -> (r: bool)
        ensures
            r == self.end_stream,
    {
        self.end_stream
    }

    fn set_end_stream(&mut self)
        ensures
            *final(self) == (DataFlags { end_stream: true, ..*old(self) }),
    {
        self.end_stream = true;
    }

    fn unset_end_stream(&mut self)
        ensures
            *final(self) == (DataFlags { end_stream: false, ..*old(self) }),
    {
        self.end_stream = false;
    }

    fn is_padded(&self) -> (r: bool)
        ensures
            r == self.padded,
    {
        self.padded
    }

    fn set_padded(&mut self)
        ensures
            *final(self) == (DataFlags { padded: true, ..*old(self) }),
    {
        self.padded = true;
    }

    /// The flags byte.
    fn bits(&self) -> (r: u8)
        ensures
            r == spec_data_flags_bits(self.end_stream, self.padded),
    {
        (if self.end_stream { 1u8 } else { 0u8 }) + (if self.padded { 8u8 } else { 0u8 })
    }
}

impl DataFlags {
    /// No flag set.
    fn empty() -> (r: Self)
        ensures
            !r.end_stream && !r.padded,
    {
        DataFlags { end_stream: false, padded: false }
    }
}

/// What a DATA frame holds.
pub struct DataModel {
    pub stream_id: StreamId,
    /// The data the frame carries: without the padding length byte and the
    /// padding of a padded frame.
    pub payload: Seq<u8>,
    pub end_stream: bool,
    pub padded: bool,
    /// The padding length of a padded frame that was read.
    pub pad_len: Option<u8>,
}

/// Data frame
///
/// Data frames convey arbitrary, variable-length sequences of octets associated
/// with a stream. One or more DATA frames are used, for instance, to carry HTTP
/// request or response payloads.
#[derive(Debug, Clone, PartialEq, Eq)]
pub struct Data {
    stream_id: StreamId,
    data: Vec<u8>,
    flags: DataFlags,
    pad_len: Option<u8>,
}

impl View for Data {
    type V = DataModel;

    closed spec fn view(&self) -> DataModel {
        DataModel {
            stream_id: self.stream_id,
            payload: self.data@,
            end_stream: self.flags.end_stream,
            padded: self.flags.padded,
            pad_len: self.pad_len,
        }
    }
}

/// What `Data::check_padding` makes of a padded payload: its first byte is
/// the padding length, which must be less than the payload's length.
pub open spec fn spec_check_padding(payload: Seq<u8>) -> Result<u8, Error> {
    if payload.len() == 0 || payload[0] >= payload.len() {
        Err(Error::TooMuchPadding)
    } else {
        Ok(payload[0])
    }
}

/// What `Data::load` makes of a header and payload.
pub open spec fn spec_data_load(head: Head, payload: Seq<u8>) -> Result<DataModel, Error> {
    let end_stream = head.flags % 2 == 1;
    let padded = (head.flags / 8) % 2 == 1;
    if head.stream_id.0 == 0 {
        Err(Error::InvalidStreamId)
    } else if padded {
        match spec_check_padding(payload) {
            Ok(p) => Ok(
                DataModel {
                    stream_id: head.stream_id,
                    payload: payload.subrange(1, payload.len() - p),
                    end_stream,
                    padded,
                    pad_len: Some(p),
                },
            ),
            Err(e) => Err(e),
        }
    } else {
        Ok(DataModel { stream_id: head.stream_id, payload, end_stream, padded, pad_len: None })
    }
}

/// The header of a DATA frame.
pub open spec fn spec_data_head(m: DataModel) -> Head {
    Head { kind: Kind::Data, flags: spec_data_flags_bits(m.end_stream, m.padded), stream_id: m.stream_id }
}

/// The padding length an encoder writes: the one read, or none.
pub open spec fn spec_pad(m: DataModel) -> u8 {
    match m.pad_len {
        Some(p) => p,
        None => 0,
    }
}

/// The payload on the wire: for a padded frame, the padding length, the
/// data and that many zero bytes; otherwise the data.
pub open spec fn spec_data_wire_payload(m: DataModel) -> Seq<u8> {
    if m.padded {
        seq![spec_pad(m)] + m.payload + Seq::new(spec_pad(m) as nat, |i: int| 0u8)
    } else {
        m.payload
    }
}

/// The encoded DATA frame: its header, then the payload on the wire.
pub open spec fn spec_data_frame(m: DataModel) -> Seq<u8> {
    spec_head_bytes(spec_data_head(m), spec_data_wire_payload(m).len()) + spec_data_wire_payload(m)
}

impl Data {
    /// Creates a new DATA frame on a non-zero stream, without flags.
    pub fn new(stream_id: StreamId, payload: Vec<u8>) -> (r: Self)
        requires
            stream_id.0 != 0,
        ensures
            r@ == (DataModel {
                stream_id,
                payload: payload@,
                end_stream: false,
                padded: false,
                pad_len: None,
            }),
    {
        Data { stream_id, data: payload, flags: DataFlags::empty(), pad_len: None }
    }

    /// The padding length at the start of a padded payload.
    pub fn check_padding(payload: &[u8]) -> (r: Result<u8, Error>)
        ensures
            r matches Ok(p) ==> spec_check_padding(payload@) == Ok::<u8, Error>(p),
            r matches Err(e) ==> spec_check_padding(payload@) == Err::<u8, Error>(e),
    {
        let payload_len = payload.len();
        if payload_len == 0 {
            return Err(Error::TooMuchPadding);
        }
        let pad_len = payload[0] as usize;
        if pad_len >= payload_len {
            return Err(Error::TooMuchPadding);
        }
        Ok(pad_len as u8)
    }

    /// Reads a DATA frame from its header and payload. The stream must not be
    /// zero, and a padded payload must leave room for its padding; the
    /// padding length byte and the padding are removed from the data.
    pub fn load(head: Head, payload: Vec<u8>) -> (r: Result<Self, Error>)
        ensures
            r matches Ok(d) ==> spec_data_load(head, payload@) == Ok::<DataModel, Error>(d@),
            r matches Err(e) ==> spec_data_load(head, payload@) == Err::<DataModel, Error>(e),
    {
        let flags = DataFlags::load(head.flags());
        if head.stream_id().is_zero() {
            return Err(Error::InvalidStreamId);
        }
        if flags.is_padded() {
            let pad = match Self::check_padding(payload.as_slice()) {
                Ok(len) => len,
                Err(e) => {
                    return Err(e);
                },
            };
            let end = payload.len() - pad as usize;
            let data = super::wire::slice_to_vec(vstd::slice::slice_subrange(payload.as_slice(), 1, end));
            Ok(Data { stream_id: head.stream_id(), data, flags, pad_len: Some(pad) })
        } else {
            Ok(Data { stream_id: head.stream_id(), data: payload, flags, pad_len: None })
        }
    }

    /// Returns the stream identifier that this frame is associated with.
    ///
    /// This cannot be a zero stream identifier.
    pub fn stream_id(&self) -> (r: StreamId)
        ensures
            r == self@.stream_id,
    {
        self.stream_id
    }

    /// Gets the value of the `END_STREAM` flag for this frame.
    pub fn is_end_stream(&self) -> (r: bool)
        ensures
            r == self@.end_stream,
    {
        self.flags.is_end_stream()
    }

    /// Sets the value for the `END_STREAM` flag on this frame.
    pub fn set_end_stream(&mut self, val: bool)
        ensures
            final(self)@ == (DataModel { end_stream: val, ..old(self)@ }),
    {
        if val {
            self.flags.set_end_stream();
        } else {
            self.flags.unset_end_stream();
        }
    }

    /// Returns whether the `PADDED` flag is set on this frame.
    pub fn is_padded(&self) -> (r: bool)
        ensures
            r == self@.padded,
    {
        self.flags.is_padded()
    }

    /// Sets the `PADDED` flag on this frame.
    pub fn set_padded(&mut self)
        ensures
            final(self)@ == (DataModel { padded: true, ..old(self)@ }),
    {
        self.flags.set_padded();
    }

    /// Returns a reference to this frame's payload.
    ///
    /// This does **not** include any padding that might have been originally
    /// included.
    pub fn payload(&self) -> (r: &Vec<u8>)
        ensures
            r@ == self@.payload,
    {
        &self.data
    }

    /// Returns a mutable reference to this frame's payload.
    ///
    /// This does **not** include any padding that might have been originally
    /// included.
    pub fn payload_mut(&mut self) -> (r: &mut Vec<u8>)
        ensures
            r@ == old(self)@.payload,
            final(self)@ == (DataModel { payload: final(r)@, ..old(self)@ }),
    {
        &mut self.data
    }

    /// Consumes `self` and returns the frame's payload.
    ///
    /// This does **not** include any padding that might have been originally
    /// included.
    pub fn into_payload(self) -> (r: Vec<u8>)
        ensures
            r@ == self@.payload,
    {
        self.data
    }

    /// Builds the header for this frame.
    pub fn head(&self) -> (r: Head)
        ensures
            r == spec_data_head(self@),
    {
        Head::new(Kind::Data, self.flags.bits(), self.stream_id)
    }

    /// Converts the payload to a byte slice.
    pub fn as_bytes(&self) -> (r: &[u8])
        ensures
            r@ == self@.payload,
    {
        self.data.as_slice()
    }

    /// Returns true if the payload has a length of zero bytes.
    pub fn is_empty(&self) -> (r: bool)
        ensures
            r == (self@.payload.len() == 0),
    {
        self.data.len() == 0
    }

    /// Returns the length of the payload.
    pub fn len(&self) -> (r: usize)
        ensures
            r == self@.payload.len(),
    {
        self.data.len()
    }

    /// Appends the whole frame: its header, then its payload; a padded
    /// frame gets back its padding length byte and that many zero bytes.
    pub fn encode(&self, dst: &mut Vec<u8>)
        ensures
            final(dst)@ == old(dst)@ + spec_data_frame(self@),
    {
        let data = self.as_bytes();
        let ghost m = self@;
        if self.flags.is_padded() {
            let pad: u8 = match self.pad_len {
                Some(p) => p,
                None => 0,
            };
            let len = data.len() % 0x100_0000 + 1 + pad as usize;
            proof {
                let full = spec_data_wire_payload(m).len();
                assert(full == data@.len() + 1 + pad);
                super::wire::lemma_be_bytes_mod(len as nat, 3);
                super::wire::lemma_be_bytes_mod(full, 3);
                reveal_with_fuel(super::wire::pow256, 4);
                assert(len as nat % 0x100_0000 == full % 0x100_0000) by {
                    vstd::arithmetic::div_mod::lemma_add_mod_noop(data@.len() as int, 1 + pad, 0x100_0000);
                    vstd::arithmetic::div_mod::lemma_add_mod_noop(
                        (data@.len() % 0x100_0000) as int,
                        1 + pad,
                        0x100_0000,
                    );
                    vstd::arithmetic::div_mod::lemma_small_mod((data@.len() % 0x100_0000) as nat, 0x100_0000);
                }
            }
            self.head().encode(len, dst);
            put_u8(dst, pad);
            put_slice(dst, data);
            put_zeros(dst, pad);
            proof {
                reveal_with_fuel(super::wire::be_bytes, 2);
                assert(be_bytes(pad as nat, 1) =~= seq![pad]);
                assert(final(dst)@ =~= old(dst)@ + spec_data_frame(self@));
            }
        } else {
            self.head().encode(data.len(), dst);
            put_slice(dst, data);
            proof {
                assert(final(dst)@ =~= old(dst)@ + spec_data_frame(self@));
            }
        }
    }
}

/// A DATA frame as a reader leaves it: on a non-zero stream without the
/// reserved bit, with a padding length exactly when it is padded.
pub open spec fn spec_data_readable(m: DataModel) -> bool {
    &&& 0 < m.stream_id.0 < 0x8000_0000
    &&& (m.padded <==> m.pad_len is Some)
}

/// Reading back an encoded DATA frame gives the frame that was encoded, and
/// its length field holds the payload's length on the wire when that fits in
/// three bytes.
pub proof fn lemma_data_roundtrip(m: DataModel)
    requires
        spec_data_readable(m),
    ensures
        spec_data_frame(m).len() == 9 + spec_data_wire_payload(m).len(),
        spec_parse_head(spec_data_frame(m)) == spec_data_head(m),
        spec_data_wire_payload(m).len() < 0x100_0000 ==> be_value(spec_data_frame(m).subrange(0, 3))
            == spec_data_wire_payload(m).len(),
        spec_data_load(spec_data_head(m), spec_data_frame(m).subrange(9, spec_data_frame(m).len() as int))
            == Ok::<DataModel, Error>(m),
{
    let head = spec_data_head(m);
    let w = spec_data_wire_payload(m);
    let f = spec_data_frame(m);
    let hb = spec_head_bytes(head, w.len());
    super::head::lemma_head_roundtrip(head, w.len());
    assert(f.subrange(0, 3) =~= hb.subrange(0, 3));
    assert(f.subrange(5, 9) =~= hb.subrange(5, 9));
    assert(f.subrange(9, f.len() as int) =~= w);
    if w.len() < 0x100_0000 {
        vstd::arithmetic::div_mod::lemma_small_mod(w.len(), 0x100_0000);
    }
    if m.padded {
        let p = spec_pad(m);
        assert(w[0] == p);
        assert(w.subrange(1, w.len() - p) =~= m.payload);
    }
}

/// A DATA frame on stream zero is refused. On another stream, an unpadded
/// payload is taken whole; a padded payload, its pad length first, then the
/// data, then that many bytes of padding, gives the data alone; a padded
/// payload that is empty is refused. `END_STREAM` is the low flag bit.
pub proof fn lemma_data_load_outcomes(head: Head, body: Seq<u8>, padding: Seq<u8>)
    ensures
        head.stream_id.0 == 0 ==> spec_data_load(head, body) == Err::<DataModel, Error>(Error::InvalidStreamId),
        head.stream_id.0 != 0 && (head.flags / 8) % 2 == 0 ==> (spec_data_load(head, body) matches Ok(d)
            && d.stream_id == head.stream_id && d.payload == body && d.end_stream == (head.flags % 2 == 1)),
        head.stream_id.0 != 0 && (head.flags / 8) % 2 == 1 && padding.len() < 256 ==> (spec_data_load(
            head,
            seq![padding.len() as u8] + body + padding,
        ) matches Ok(d) && d.stream_id == head.stream_id && d.payload == body && d.pad_len == Some(
            padding.len() as u8,
        ) && d.end_stream == (head.flags % 2 == 1)),
        head.stream_id.0 != 0 && (head.flags / 8) % 2 == 1 ==> spec_data_load(head, Seq::<u8>::empty())
            == Err::<DataModel, Error>(Error::TooMuchPadding),
{
    if padding.len() < 256 {
        let p = seq![padding.len() as u8] + body + padding;
        assert(p[0] == padding.len() as u8);
        assert(p.subrange(1, p.len() - padding.len()) =~= body);
    }
}

} // verus!
