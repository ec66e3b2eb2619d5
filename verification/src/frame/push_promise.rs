//! PUSH_PROMISE frames.
use super::head::{Head, Kind};
use super::header_block::{bytes_equal, spec_empty_pseudo, spec_get, spec_lower, HeaderMap, Pseudo, Request};
use super::stream_id::{spec_parse_stream_id, StreamId};
use super::Error;
use vstd::prelude::*;

verus! {

/// `END_HEADERS`: the header block ends in this frame.
pub const END_HEADERS: u8 = 0x4;

/// `PADDED`: the payload starts with a padding length.
pub const PADDED: u8 = 0x8;

/// Every flag a PUSH_PROMISE frame knows.
pub const ALL: u8 = 0xc;

/// The flags of a PUSH_PROMISE frame.
#[derive(Debug, Copy, Clone, Eq, PartialEq, Structural)]
pub struct PushPromiseFlag(u8);

impl View for PushPromiseFlag {
    /// The flags byte.
    type V = u8;

    closed spec fn view(&self) -> u8 {
        self.0
    }
}

/// Whether a flags byte has `END_HEADERS`.
pub open spec fn spec_is_end_headers(bits: u8) -> bool {
    (bits / 4) % 2 == 1
}

/// Whether a flags byte has `PADDED`.
pub open spec fn spec_is_padded(bits: u8) -> bool {
    (bits / 8) % 2 == 1
}

impl PushPromiseFlag {
    /// No flag set.
    pub fn empty() -> (r: PushPromiseFlag)
        ensures
            r@ == 0,
    {
        PushPromiseFlag(0)
    }

    /// Reads the flags from a flags byte, keeping only the known ones.
    pub fn load(bits: u8) -> (r: PushPromiseFlag)
        ensures
            r@ == bits & ALL,
            spec_is_end_headers(r@) == spec_is_end_headers(bits),
            spec_is_padded(r@) == spec_is_padded(bits),
            !spec_is_end_headers(bits) && !spec_is_padded(bits) ==> r@ == 0,
    {
        let r = bits & ALL;
        assert((r / 4) % 2 == (bits / 4) % 2 && (r / 8) % 2 == (bits / 8) % 2 && (((bits / 4) % 2 != 1
            && (bits / 8) % 2 != 1) ==> r == 0)) by (bit_vector)
            requires
                r == bits & 0xc,
        ;
        PushPromiseFlag(r)
    }

    /// Returns true if `END_HEADERS` is set.
    pub fn is_end_headers(&self) -> (r: bool)
        ensures
            r == spec_is_end_headers(self@),
    {
        let b = self.0;
        assert((b & 4 == 4) == ((b / 4) % 2 == 1)) by (bit_vector);
        b & END_HEADERS == END_HEADERS
    }

    /// Sets `END_HEADERS`, leaving the other bits as they are.
    pub fn set_end_headers(&mut self)
        ensures
            final(self)@ == old(self)@ | END_HEADERS,
            spec_is_end_headers(final(self)@),
            spec_is_padded(final(self)@) == spec_is_padded(old(self)@),
    {
        let b = self.0;
        let r = b | END_HEADERS;
        assert(((r / 4) % 2 == 1) && (r / 8) % 2 == (b / 8) % 2) by (bit_vector)
            requires
                r == b | 4,
        ;
        self.0 = r;
    }

    /// Returns true if `PADDED` is set.
    pub fn is_padded(&self) -> (r: bool)
        ensures
            r == spec_is_padded(self@),
    {
        let b = self.0;
        assert((b & 8 == 8) == ((b / 8) % 2 == 1)) by (bit_vector);
        b & PADDED == PADDED
    }

    /// The flags byte.
    pub fn bits(&self) -> (r: u8)
        ensures
            r == self@,
    {
        self.0
    }
}

impl Default for PushPromiseFlag {
    /// Returns a `PushPromiseFlag` value with `END_HEADERS` set.
    fn default() -> (r: Self)
        ensures
            r@ == END_HEADERS,
    {
        PushPromiseFlag(END_HEADERS)
    }
}

/// Why a promised request was refused.
#[derive(Debug, Clone, Copy, PartialEq, Eq)]
pub enum PushPromiseHeaderError {
    /// The request announces a body: its content-length is not zero, or is
    /// not a number (the parse result is kept).
    InvalidContentLength(Result<u64, ()>),
    /// The method is neither GET nor HEAD.
    NotSafeAndCacheable,
}

/// The value of a decimal numeral.
pub open spec fn spec_decimal(s: Seq<u8>) -> nat
    decreases s.len(),
{
    if s.len() == 0 {
        0
    } else {
        spec_decimal(s.drop_last()) * 10 + (s.last() - 48) as nat
    }
}

/// `10^n`.
pub open spec fn spec_pow10(n: nat) -> nat
    decreases n,
{
    if n == 0 {
        1
    } else {
        10 * spec_pow10((n - 1) as nat)
    }
}

/// Whether every byte of `s` is an ASCII digit.
pub open spec fn spec_all_digits(s: Seq<u8>) -> bool {
    forall|i: int| 0 <= i < s.len() ==> 48 <= #[trigger] s[i] <= 57
}

/// What `parse_u64` makes of a byte string: at most nineteen ASCII digits,
/// read as a decimal number (the empty string reads as zero); anything else is
/// refused.
pub open spec fn spec_parse_u64(s: Seq<u8>) -> Result<u64, ()> {
    if s.len() > 19 || !spec_all_digits(s) {
        Err(())
    } else {
        Ok(spec_decimal(s) as u64)
    }
}

proof fn lemma_decimal_bound(s: Seq<u8>)
    requires
        spec_all_digits(s),
    ensures
        spec_decimal(s) < spec_pow10(s.len()),
    decreases s.len(),
{
    if s.len() > 0 {
        let t = s.drop_last();
        assert(spec_all_digits(t)) by {
            assert forall|i: int| 0 <= i < t.len() implies 48 <= #[trigger] t[i] <= 57 by {
                assert(t[i] == s[i]);
            }
        }
        lemma_decimal_bound(t);
        let d = s.last();
        assert(48 <= s[s.len() - 1] <= 57);
        let a = spec_decimal(t);
        let p = spec_pow10(t.len());
        assert(a * 10 + (d - 48) < 10 * p) by (nonlinear_arith)
            requires
                a < p,
                0 <= d - 48 <= 9,
        ;
    }
}

/// Parses a decimal numeral of at most nineteen digits, the length of a
/// content-length that cannot overflow.
pub fn parse_u64(src: &[u8]) -> (r: Result<u64, ()>)
    ensures
        r == spec_parse_u64(src@),
{
    if src.len() > 19 {
        return Err(());
    }
    let mut ret: u64 = 0;
    let mut i: usize = 0;
    while i < src.len()
        invariant
            i <= src@.len() <= 19,
            spec_all_digits(src@.subrange(0, i as int)),
            ret as nat == spec_decimal(src@.subrange(0, i as int)),
        decreases src@.len() - i,
    {
        let d = src[i];
        if d < 48 || d > 57 {
            proof {
                assert(!spec_all_digits(src@)) by {
                    assert(src@[i as int] == d);
                }
            }
            return Err(());
        }
        let ghost prefix = src@.subrange(0, i + 1);
        proof {
            assert(prefix.drop_last() =~= src@.subrange(0, i as int));
            assert(spec_all_digits(prefix)) by {
                assert forall|j: int| 0 <= j < prefix.len() implies 48 <= #[trigger] prefix[j] <= 57 by {
                    if j < i {
                        assert(prefix[j] == src@.subrange(0, i as int)[j]);
                    }
                }
            }
            lemma_decimal_bound(prefix);
            reveal_with_fuel(spec_pow10, 20);
            assert(spec_pow10(19) == 10_000_000_000_000_000_000);
            assert(spec_pow10(prefix.len()) <= spec_pow10(19)) by {
                lemma_pow10_mono(prefix.len(), 19);
            }
        }
        ret = ret * 10 + (d - 48) as u64;
        i = i + 1;
    }
    proof {
        assert(src@.subrange(0, src@.len() as int) =~= src@);
    }
    Ok(ret)
}

proof fn lemma_pow10_mono(a: nat, b: nat)
    requires
        a <= b,
    ensures
        spec_pow10(a) <= spec_pow10(b),
    decreases b - a,
{
    if a < b {
        lemma_pow10_mono(a, (b - 1) as nat);
    }
}

/// The bytes of `content-length`.
pub open spec fn spec_content_length_name() -> Seq<u8> {
    seq![99u8, 111, 110, 116, 101, 110, 116, 45, 108, 101, 110, 103, 116, 104]
}

/// The bytes of `GET`.
pub open spec fn spec_get_method() -> Seq<u8> {
    seq![71u8, 69, 84]
}

/// The bytes of `HEAD`.
pub open spec fn spec_head_method() -> Seq<u8> {
    seq![72u8, 69, 65, 68]
}

fn content_length_name() -> (r: Vec<u8>)
    ensures
        r@ == spec_content_length_name(),
{
    let r = vec![99u8, 111, 110, 116, 101, 110, 116, 45, 108, 101, 110, 103, 116, 104];
    proof {
        assert(r@ =~= spec_content_length_name());
    }
    r
}

/// Whether a promised request may carry this method: GET and HEAD are both
/// safe and cacheable.
pub open spec fn spec_safe_and_cacheable(method: Seq<u8>) -> bool {
    method == spec_get_method() || method == spec_head_method()
}

/// What `PushPromise::validate_request` decides for a request: a
/// content-length must read as zero, then the method must be GET or HEAD.
pub open spec fn spec_validate_request(method: Seq<u8>, headers: Seq<(Seq<u8>, Seq<u8>)>) -> Result<(), PushPromiseHeaderError> {
    match spec_get(headers, spec_content_length_name()) {
        Some(v) if spec_parse_u64(v) != Ok::<u64, ()>(0) => Err(
            PushPromiseHeaderError::InvalidContentLength(spec_parse_u64(v)),
        ),
        _ => if spec_safe_and_cacheable(method) {
            Ok(())
        } else {
            Err(PushPromiseHeaderError::NotSafeAndCacheable)
        },
    }
}

/// The header block a PUSH_PROMISE frame carries, once decoded.
#[derive(Debug, Clone, PartialEq, Eq)]
struct HeaderBlock {
    fields: HeaderMap,
    is_over_size: bool,
    pseudo: Pseudo,
}

/// What a PUSH_PROMISE frame holds.
pub struct PushPromiseModel {
    pub stream_id: StreamId,
    pub promised_id: StreamId,
    pub fields: Seq<(Seq<u8>, Seq<u8>)>,
    pub is_over_size: bool,
    pub pseudo: Pseudo,
    pub flags: u8,
}

/// The PUSH_PROMISE frame.
#[derive(Debug, Clone, PartialEq, Eq)]
pub struct PushPromise {
    /// The ID of the stream with which this frame is associated.
    stream_id: StreamId,
    /// The ID of the stream being reserved by this PushPromise.
    promised_id: StreamId,
    /// The header block fragment.
    header_block: HeaderBlock,
    /// The associated flags.
    flags: PushPromiseFlag,
}

impl View for PushPromise {
    type V = PushPromiseModel;

    closed spec fn view(&self) -> PushPromiseModel {
        PushPromiseModel {
            stream_id: self.stream_id,
            promised_id: self.promised_id,
            fields: self.header_block.fields@,
            is_over_size: self.header_block.is_over_size,
            pseudo: self.header_block.pseudo,
            flags: self.flags@,
        }
    }
}

/// What `PushPromise::load` makes of a header and payload: the frame (with
/// the raw flags byte, and no header field decoded yet) and the header block
/// fragment that follows the promised stream identifier, padding removed.
pub open spec fn spec_push_promise_load(head: Head, src: Seq<u8>) -> Result<(PushPromiseModel, Seq<u8>), Error> {
    let padded = spec_is_padded(head.flags);
    if padded && src.len() == 0 {
        Err(Error::MalformedMessage)
    } else {
        let pad: int = if padded { src[0] as int } else { 0 };
        let rest = if padded { src.subrange(1, src.len() as int) } else { src };
        if rest.len() < 5 {
            Err(Error::MalformedMessage)
        } else {
            let promised_id = spec_parse_stream_id(rest.subrange(0, 4)).0;
            let block = rest.subrange(4, rest.len() as int);
            if pad > block.len() {
                Err(Error::TooMuchPadding)
            } else {
                Ok(
                    (
                        PushPromiseModel {
                            stream_id: head.stream_id,
                            promised_id,
                            fields: Seq::empty(),
                            is_over_size: false,
                            pseudo: spec_empty_pseudo(),
                            flags: head.flags,
                        },
                        block.subrange(0, block.len() - pad),
                    ),
                )
            }
        }
    }
}

impl PushPromise {
    /// A PUSH_PROMISE frame with `END_HEADERS` set.
    pub fn new(stream_id: StreamId, promised_id: StreamId, pseudo: Pseudo, fields: HeaderMap) -> (r: Self)
        ensures
            r@ == (PushPromiseModel {
                stream_id,
                promised_id,
                fields: fields@,
                is_over_size: false,
                pseudo,
                flags: END_HEADERS,
            }),
    {
        PushPromise {
            flags: PushPromiseFlag::default(),
            header_block: HeaderBlock { fields, is_over_size: false, pseudo },
            promised_id,
            stream_id,
        }
    }

    /// Checks the requirements on a promised request (RFC 7540, section 8.2):
    /// it must not announce a body, and its method must be safe and cacheable.
    pub fn validate_request(req: &Request) -> (r: Result<(), PushPromiseHeaderError>)
        ensures
            r == spec_validate_request(req.method@, req.headers@),
    {
        let name = content_length_name();
        proof {
            assert(spec_lower(spec_content_length_name()) =~= spec_content_length_name());
        }
        if let Some(content_length) = req.headers.get(name.as_slice()) {
            let parsed_length = parse_u64(content_length.as_slice());
            match parsed_length {
                Ok(0) => {},
                _ => {
                    return Err(PushPromiseHeaderError::InvalidContentLength(parsed_length));
                },
            }
        }
        if !Self::safe_and_cacheable(req.method.as_slice()) {
            return Err(PushPromiseHeaderError::NotSafeAndCacheable);
        }
        Ok(())
    }

    /// Returns true for the methods a server may promise: GET and HEAD.
    pub fn safe_and_cacheable(method: &[u8]) -> (r: bool)
        ensures
            r == spec_safe_and_cacheable(method@),
    {
        let get = vec![71u8, 69, 84];
        let head = vec![72u8, 69, 65, 68];
        proof {
            assert(get@ =~= spec_get_method());
            assert(head@ =~= spec_head_method());
        }
        bytes_equal(method, get.as_slice()) || bytes_equal(method, head.as_slice())
    }

    /// The decoded header fields.
    pub fn fields(&self) -> (r: &HeaderMap)
        ensures
            r@ == self@.fields,
    {
        &self.header_block.fields
    }

    /// Consumes the frame, returning its header fields.
    pub fn into_fields(self) -> (r: HeaderMap)
        ensures
            r@ == self@.fields,
    {
        self.header_block.fields
    }

    /// Reads a PUSH_PROMISE frame from its header and payload, without
    /// decoding the header block: returns the frame and the fragment that
    /// remains to be decoded.
    pub fn load(head: Head, src: Vec<u8>) -> (r: Result<(Self, Vec<u8>), Error>)
        ensures
            r matches Ok((f, rest)) ==> spec_push_promise_load(head, src@) == Ok::<(PushPromiseModel, Seq<u8>), Error>((f@, rest@)),
            r matches Err(e) ==> spec_push_promise_load(head, src@) == Err::<(PushPromiseModel, Seq<u8>), Error>(e),
    {
        let flags = PushPromiseFlag(head.flags());
        let mut pad: usize = 0;
        let mut start: usize = 0;
        if flags.is_padded() {
            if src.len() == 0 {
                return Err(Error::MalformedMessage);
            }
            pad = src[0] as usize;
            start = 1;
        }
        if src.len() - start < 5 {
            return Err(Error::MalformedMessage);
        }
        let (promised_id, _) = StreamId::parse(vstd::slice::slice_subrange(src.as_slice(), start, start + 4));
        let block_start = start + 4;
        let mut end = src.len();
        if pad > 0 {
            if pad > end - block_start {
                return Err(Error::TooMuchPadding);
            }
            end = end - pad;
        }
        let rest = super::wire::slice_to_vec(vstd::slice::slice_subrange(src.as_slice(), block_start, end));
        let frame = PushPromise {
            flags,
            header_block: HeaderBlock { fields: HeaderMap::new(), is_over_size: false, pseudo: Pseudo::default() },
            promised_id,
            stream_id: head.stream_id(),
        };
        proof {
            let padded = spec_is_padded(head.flags);
            let r0 = if padded { src@.subrange(1, src@.len() as int) } else { src@ };
            assert(r0.subrange(0, 4) =~= src@.subrange(start as int, start + 4));
            assert(src@.subrange(start as int, start + 4).subrange(0, 4) =~= src@.subrange(start as int, start + 4));
            let block = r0.subrange(4, r0.len() as int);
            assert(block.subrange(0, block.len() - pad) =~= src@.subrange(block_start as int, end as int));
        }
        Ok((frame, rest))
    }

    pub fn stream_id(&self) -> (r: StreamId)
        ensures
            r == self@.stream_id,
    {
        self.stream_id
    }

    pub fn promised_id(&self) -> (r: StreamId)
        ensures
            r == self@.promised_id,
    {
        self.promised_id
    }

    pub fn is_end_headers(&self) -> (r: bool)
        ensures
            r == spec_is_end_headers(self@.flags),
    {
        self.flags.is_end_headers()
    }

    pub fn set_end_headers(&mut self)
        ensures
            final(self)@ == (PushPromiseModel { flags: old(self)@.flags | END_HEADERS, ..old(self)@ }),
            spec_is_end_headers(final(self)@.flags),
    {
        self.flags.set_end_headers();
    }

    pub fn is_over_size(&self) -> (r: bool)
        ensures
            r == self@.is_over_size,
    {
        self.header_block.is_over_size
    }

    /// Builds the header for this frame.
    pub fn head(&self) -> (r: Head)
        ensures
            r == (Head { kind: Kind::PushPromise, flags: self@.flags, stream_id: self@.stream_id }),
    {
        Head::new(Kind::PushPromise, self.flags.bits(), self.stream_id)
    }

    /// Consumes `self`, returning the parts of the frame.
    pub fn into_parts(self) -> (r: (Pseudo, HeaderMap))
        ensures
            r.0 == self@.pseudo,
            r.1@ == self@.fields,
    {
        (self.header_block.pseudo, self.header_block.fields)
    }
}

impl From<PushPromiseFlag> for u8 {
    fn from(val: PushPromiseFlag) -> (r: u8) {
        val.bits()
    }
}

impl vstd::std_specs::convert::FromSpecImpl<PushPromiseFlag> for u8 {
    open spec fn obeys_from_spec() -> bool {
        true
    }

    open spec fn from_spec(val: PushPromiseFlag) -> u8 {
        val@
    }
}

} // verus!
