//! The state a link (one accepted connection) keeps, and the decisions its
//! loops make.
use super::frame::data::DataModel;
use super::frame::go_away::spec_go_away_load;
use super::frame::settings::spec_settings_load;
use super::frame::window_update::spec_window_update_load;
use super::frame::{spec_decode, spec_lift, Error, Frame, FrameModel, GoAway, Head, Kind, Settings, WindowUpdate};
use vstd::prelude::*;

verus! {

/// Flags that describe the state of a link.
#[derive(Debug, Clone, Copy, PartialEq, Eq, Structural)]
pub struct LinkFlags {
    bits: u32,
}

impl View for LinkFlags {
    type V = u32;

    closed spec fn view(&self) -> u32 {
        self.bits
    }
}

impl LinkFlags {
    /// Only the bits that name a link flag are ever set.
    #[verifier::type_invariant]
    spec fn names_link_flags(self) -> bool {
        self.bits & LINK_FLAGS_ALL == self.bits
    }

    /// Nothing to represent.
    pub fn none() -> (r: Self)
        ensures
            r@ == 0,
    {
        proof {
            lemma_named_flags();
        }
        LinkFlags { bits: 0 }
    }

    /// The reader was closed.
    pub fn read_closed() -> (r: Self)
        ensures
            r@ == 0x1,
    {
        proof {
            lemma_named_flags();
        }
        LinkFlags { bits: 0x1 }
    }

    /// The writer was closed.
    pub fn write_closed() -> (r: Self)
        ensures
            r@ == 0x2,
    {
        proof {
            lemma_named_flags();
        }
        LinkFlags { bits: 0x2 }
    }

    /// The reader and writer are both closed.
    pub fn read_write_closed() -> (r: Self)
        ensures
            r@ == 0x3,
    {
        proof {
            lemma_named_flags();
        }
        LinkFlags { bits: 0x3 }
    }

    /// Attached to the link manager.
    pub fn attached() -> (r: Self)
        ensures
            r@ == 0x4,
    {
        proof {
            lemma_named_flags();
        }
        LinkFlags { bits: 0x4 }
    }

    /// Detached from the link manager.
    pub fn detached() -> (r: Self)
        ensures
            r@ == 0x8,
    {
        proof {
            lemma_named_flags();
        }
        LinkFlags { bits: 0x8 }
    }

    /// The raw bits; only bits that name a link flag are set.
    pub fn bits(&self) -> (r: u32)
        ensures
            r == self@,
            r & LINK_FLAGS_ALL == r,
    {
        proof {
            use_type_invariant(self);
        }
        self.bits
    }

    /// The flags of both.
    pub fn union(&self, other: Self) -> (r: Self)
        ensures
            r@ == self@ | other@,
    {
        proof {
            use_type_invariant(self);
            use_type_invariant(&other);
        }
        let a = self.bits;
        let b = other.bits;
        assert(a & 0xf == a && b & 0xf == b ==> (a | b) & 0xf == (a | b)) by (bit_vector);
        LinkFlags { bits: a | b }
    }

    /// Returns true if every flag of `other` is set here.
    pub fn contains(&self, other: Self) -> (r: bool)
        ensures
            r == (self@ & other@ == other@),
    {
        self.bits & other.bits == other.bits
    }

}

/// Each named flag uses only the bits of link flags.
proof fn lemma_named_flags()
    by (bit_vector)
    ensures
        0u32 & 0xf == 0u32,
        0x1u32 & 0xf == 0x1u32,
        0x2u32 & 0xf == 0x2u32,
        0x3u32 & 0xf == 0x3u32,
        0x4u32 & 0xf == 0x4u32,
        0x8u32 & 0xf == 0x8u32,
{
}

/// Every bit a link flag uses.
pub const LINK_FLAGS_ALL: u32 = 0xf;

/// The flags a link reports for what it stores: the stored bits that name a
/// flag.
pub open spec fn spec_link_flags(stored: u32) -> u32 {
    stored & LINK_FLAGS_ALL
}

/// The flags word a link stores.
#[derive(Debug, Clone, Copy, PartialEq, Eq, Structural)]
pub struct LinkState {
    bits: u32,
}

impl View for LinkState {
    /// The stored word.
    type V = u32;

    closed spec fn view(&self) -> u32 {
        self.bits
    }
}

impl LinkState {
    /// A link with no flag stored.
    pub fn new() -> (r: Self)
        ensures
            r@ == 0,
    {
        LinkState { bits: 0 }
    }

    /// The state holding a stored word.
    pub fn from_bits(bits: u32) -> (r: Self)
        ensures
            r@ == bits,
    {
        LinkState { bits }
    }

    /// The stored word.
    pub fn bits(&self) -> (r: u32)
        ensures
            r == self@,
    {
        self.bits
    }

    /// Returns the flags of the link: the stored bits that name a flag.
    pub fn flags(&self) -> (r: LinkFlags)
        ensures
            r@ == spec_link_flags(self@),
    {
        let b = self.bits;
        assert((b & 0xf) & 0xf == b & 0xf) by (bit_vector);
        LinkFlags { bits: b & LINK_FLAGS_ALL }
    }

    /// Adds flags to the reported flags of the link: afterwards the link
    /// reports the flags it reported before together with `val`.
    pub fn add_flags(&mut self, val: LinkFlags)
        ensures
            final(self)@ == spec_link_flags(old(self)@) | val@,
            spec_link_flags(final(self)@) == spec_link_flags(old(self)@) | val@,
    {
        let new_val = self.flags().union(val);
        self.bits = new_val.bits();
    }

    /// Clears the flags of the link.
    pub fn clear_flags(&mut self)
        ensures
            final(self)@ == 0,
    {
        self.bits = 0;
    }

    /// Replaces the flags of the link: afterwards the link reports `val`.
    pub fn set_flags(&mut self, val: LinkFlags)
        ensures
            final(self)@ == val@,
            spec_link_flags(final(self)@) == val@,
    {
        self.bits = val.bits();
    }
}

/// Once its reader and its writer have both stopped, a link reports
/// `READ_WRITE_CLOSED`, in whichever order they stopped, starting from no
/// flag or from either one of them already closed.
pub proof fn lemma_link_closes(start: u32)
    requires
        spec_link_flags(start) == 0 || spec_link_flags(start) == 1 || spec_link_flags(start) == 2,
    ensures
        spec_link_flags(spec_link_flags(spec_link_flags(start) | 1) | 2) == 3,
        spec_link_flags(spec_link_flags(spec_link_flags(start) | 2) | 1) == 3,
{
    assert((start & 0xf == 0 || start & 0xf == 1 || start & 0xf == 2) ==> ((((start & 0xf) | 1) & 0xf) | 2)
        & 0xf == 3 && ((((start & 0xf) | 2) & 0xf) | 1) & 0xf == 3) by (bit_vector);
}

/// What a link reports after its flags are set is those flags; after flags
/// are added, it is the flags it reported before together with the added
/// ones (for flags that name link flags, as the bits of every `LinkFlags`
/// do).
pub proof fn lemma_link_set_then_read(stored: u32, val: u32)
    requires
        val & LINK_FLAGS_ALL == val,
    ensures
        spec_link_flags(val) == val,
        spec_link_flags(spec_link_flags(stored) | val) == spec_link_flags(stored) | val,
{
    assert(val & 0xf == val ==> ((stored & 0xf) | val) & 0xf == (stored & 0xf) | val) by (bit_vector);
}

/// What a link reads after a frame header.
#[derive(Debug, Clone, Copy, PartialEq, Eq, Structural)]
pub enum LinkRead {
    /// Read this many payload bytes, then decode the frame.
    Payload(usize),
    /// A link does not read frames of this kind.
    Unsupported,
}

/// What a link reads after a header announcing `length` payload bytes: the
/// payload of DATA, HEADERS, SETTINGS and GOAWAY frames, four bytes of a
/// WINDOW_UPDATE frame, and no other kind.
pub open spec fn spec_link_read(head: Head, length: usize) -> LinkRead {
    match head.kind {
        Kind::Data | Kind::Headers | Kind::Settings | Kind::GoAway => LinkRead::Payload(length),
        Kind::WindowUpdate => LinkRead::Payload(4),
        _ => LinkRead::Unsupported,
    }
}

/// Decides what a link reads after a frame header.
pub fn link_read(head: Head, length: usize) -> (r: LinkRead)
    ensures
        r == spec_link_read(head, length),
        head.kind == Kind::Data ==> r == LinkRead::Payload(length),
        head.kind == Kind::Headers ==> r == LinkRead::Payload(length),
        head.kind == Kind::Settings ==> r == LinkRead::Payload(length),
        head.kind == Kind::GoAway ==> r == LinkRead::Payload(length),
        head.kind == Kind::WindowUpdate ==> r == LinkRead::Payload(4),
{
    match head.kind() {
        Kind::Data | Kind::Headers | Kind::Settings | Kind::GoAway => LinkRead::Payload(length),
        Kind::WindowUpdate => LinkRead::Payload(4),
        _ => LinkRead::Unsupported,
    }
}

/// A link reads the whole payload of every DATA, HEADERS, SETTINGS and GOAWAY
/// frame, four bytes of every WINDOW_UPDATE frame, and no other kind; the
/// DATA and HEADERS frames it decodes carry the payload it read, on the
/// stream of their header.
pub proof fn lemma_link_reads_kinds(head: Head, length: usize, payload: Seq<u8>)
    ensures
        head.kind == Kind::Data || head.kind == Kind::Headers || head.kind == Kind::Settings || head.kind
            == Kind::GoAway ==> spec_link_read(head, length) == LinkRead::Payload(length),
        head.kind == Kind::WindowUpdate ==> spec_link_read(head, length) == LinkRead::Payload(4),
        head.kind == Kind::Priority || head.kind == Kind::Reset || head.kind == Kind::PushPromise || head.kind
            == Kind::Ping || head.kind == Kind::Continuation || head.kind == Kind::BinCode || head.kind == Kind::Unknown
            ==> spec_link_read(head, length) == LinkRead::Unsupported,
        head.kind == Kind::Headers ==> spec_link_decode(head, payload) == Ok::<FrameModel, Error>(
            FrameModel::Headers((head.stream_id, 0u8, payload)),
        ),
        head.kind == Kind::Data ==> (spec_link_decode(head, payload) matches Ok(FrameModel::Data(d)) && d.stream_id
            == head.stream_id && d.payload == payload),
        head.kind == Kind::Headers || head.kind == Kind::Settings || head.kind == Kind::GoAway || head.kind
            == Kind::WindowUpdate ==> spec_link_decode(head, payload) == spec_decode(head, payload),
{
}

/// What a link makes of a header and the payload it read: DATA and HEADERS
/// frames are taken as they are, SETTINGS, GOAWAY and WINDOW_UPDATE frames
/// are checked by their loaders.
pub open spec fn spec_link_decode(head: Head, payload: Seq<u8>) -> Result<FrameModel, Error> {
    match head.kind {
        Kind::Data => Ok(
            FrameModel::Data(
                DataModel {
                    stream_id: head.stream_id,
                    payload,
                    end_stream: false,
                    padded: false,
                    pad_len: None,
                },
            ),
        ),
        Kind::Headers => Ok(FrameModel::Headers((head.stream_id, 0u8, payload))),
        Kind::Settings => spec_lift(spec_settings_load(head, payload), |m| FrameModel::Settings(m)),
        Kind::GoAway => spec_lift(spec_go_away_load(payload), |m| FrameModel::GoAway(m)),
        _ => spec_lift(spec_window_update_load(head, payload), |m| FrameModel::WindowUpdate(m)),
    }
}

/// Makes a frame of what a link read, for the kinds it reads; a DATA frame
/// must be on a non-zero stream.
pub fn decode_link_frame(head: Head, payload: Vec<u8>) -> (r: Result<Frame, Error>)
    requires
        spec_link_read(head, 0) != LinkRead::Unsupported,
        head.kind == Kind::Data ==> head.stream_id.0 != 0,
    ensures
        r matches Ok(f) ==> spec_link_decode(head, payload@) == Ok::<FrameModel, Error>(f@),
        r matches Err(e) ==> spec_link_decode(head, payload@) == Err::<FrameModel, Error>(e),
{
    match head.kind() {
        Kind::Data => Ok(Frame::with_data(head.stream_id(), payload)),
        Kind::Headers => Ok(Frame::with_headers(head.stream_id(), payload)),
        Kind::Settings => match Settings::load(head, payload.as_slice()) {
            Ok(f) => Ok(Frame::Settings(f)),
            Err(e) => Err(e),
        },
        Kind::GoAway => match GoAway::load(payload.as_slice()) {
            Ok(f) => Ok(Frame::GoAway(f)),
            Err(e) => Err(e),
        },
        _ => match WindowUpdate::load(head, payload.as_slice()) {
            Ok(f) => Ok(Frame::WindowUpdate(f)),
            Err(e) => Err(e),
        },
    }
}

} // verus!
