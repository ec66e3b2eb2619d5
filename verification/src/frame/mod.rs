//! HTTP/2 frames: their wire layout, decoding and encoding.
pub mod bin_code;
pub mod continuation;
pub mod data;
pub mod go_away;
pub mod head;
pub mod header_block;
pub mod headers;
pub mod priority;
pub mod push_promise;
pub mod reason;
pub mod reset;
pub mod settings;
pub mod stream_id;
pub mod window_update;
pub mod wire;

pub use self::bin_code::{BinCode, BinCodeFlags};
pub use self::continuation::Continuation;
pub use self::data::Data;
pub use self::go_away::GoAway;
pub use self::head::{Flags, Head, Kind, HEADER_LEN};
pub use self::headers::Headers;
pub use self::priority::{Priority, StreamDependency};
pub use self::push_promise::{PushPromise, PushPromiseFlag, PushPromiseHeaderError};
pub use self::reason::Reason;
pub use self::reset::Reset;
pub use self::settings::{FrameSize, Setting, Settings, SettingsFlags};
pub use self::stream_id::{StreamId, StreamIdOverflow};
pub use self::window_update::WindowUpdate;

use vstd::prelude::*;

verus! {

/// `std::io::Error`, which a frame error carries when reading failed.
#[verifier::external_type_specification]
#[verifier::external_body]
pub struct ExIoError(std::io::Error);

/// Errors that can occur while reading an HTTP/2 frame.
#[derive(Debug)]
pub enum Error {
    /// A length value other than 8 was set on a PING message; also a payload
    /// too short for the fixed fields of a GOAWAY or WINDOW_UPDATE frame.
    BadFrameSize,
    /// The padding length was larger than the frame-header-specified
    /// length of the payload.
    TooMuchPadding,
    /// An invalid setting value was provided.
    InvalidSettingValue,
    /// An invalid window update value.
    InvalidWindowUpdateValue,
    /// The payload length specified by the frame header was not the
    /// value necessary for the specific frame type.
    InvalidPayloadLength,
    /// Received a payload with an ACK settings frame.
    InvalidPayloadAckSettings,
    /// An invalid stream identifier was provided.
    ///
    /// This is returned if a SETTINGS or PING frame is received with a stream
    /// identifier other than zero.
    InvalidStreamId,
    /// A request or response is malformed.
    MalformedMessage,
    /// An invalid stream dependency ID was provided.
    ///
    /// This is returned if a HEADERS or PRIORITY frame is received with an
    /// invalid stream identifier.
    InvalidDependencyId,
    /// Reading the frame from the transport failed.
    Io(std::io::Error),
}

/// The result of reading a frame.
pub type Result = core::result::Result<Frame, Error>;

/// A frame of any kind this library reads or writes.
#[derive(Debug)]
pub enum Frame {
    Data(Data),
    Headers(Headers),
    Priority(Priority),
    Reset(Reset),
    Settings(Settings),
    GoAway(GoAway),
    WindowUpdate(WindowUpdate),
    Continuation(Continuation),
    BinCode(BinCode),
    /// A frame of a kind this library skips.
    Unknown,
}

/// What a frame holds.
pub enum FrameModel {
    Data(data::DataModel),
    Headers((StreamId, u8, Seq<u8>)),
    Priority((StreamId, (StreamId, u8, bool))),
    Reset((StreamId, Reason)),
    Settings(settings::SettingsModel),
    GoAway((StreamId, Reason)),
    WindowUpdate((StreamId, u32)),
    Continuation((StreamId, Seq<u8>)),
    BinCode((StreamId, bool, Seq<u8>)),
    Unknown,
}

impl View for Frame {
    type V = FrameModel;

    open spec fn view(&self) -> FrameModel {
        match self {
            Frame::Data(f) => FrameModel::Data(f@),
            Frame::Headers(f) => FrameModel::Headers(f@),
            Frame::Priority(f) => FrameModel::Priority(f@),
            Frame::Reset(f) => FrameModel::Reset(f@),
            Frame::Settings(f) => FrameModel::Settings(f@),
            Frame::GoAway(f) => FrameModel::GoAway(f@),
            Frame::WindowUpdate(f) => FrameModel::WindowUpdate(f@),
            Frame::Continuation(f) => FrameModel::Continuation(f@),
            Frame::BinCode(f) => FrameModel::BinCode(f@),
            Frame::Unknown => FrameModel::Unknown,
        }
    }
}

/// The bytes that encode a frame; an unknown frame encodes to nothing.
pub open spec fn spec_frame_bytes(f: FrameModel) -> Seq<u8> {
    match f {
        FrameModel::Data(m) => data::spec_data_frame(m),
        FrameModel::Headers(m) => headers::spec_headers_frame(m),
        FrameModel::Priority(m) => priority::spec_priority_frame(m),
        FrameModel::Reset(m) => reset::spec_reset_frame(m),
        FrameModel::Settings(m) => settings::spec_settings_frame(m),
        FrameModel::GoAway(m) => go_away::spec_go_away_frame(m),
        FrameModel::WindowUpdate(m) => window_update::spec_window_update_frame(m),
        FrameModel::Continuation(m) => continuation::spec_continuation_frame(m),
        FrameModel::BinCode(m) => bin_code::spec_bin_code_frame(m),
        FrameModel::Unknown => Seq::empty(),
    }
}

/// Lifts the result of reading one kind of frame.
pub open spec fn spec_lift<T>(r: core::result::Result<T, Error>, f: spec_fn(T) -> FrameModel) -> core::result::Result<FrameModel, Error> {
    match r {
        Ok(m) => Ok(f(m)),
        Err(e) => Err(e),
    }
}

/// What `Frame::decode` makes of a header and the payload bytes read after
/// it. DATA, SETTINGS, GOAWAY and WINDOW_UPDATE frames are checked by their
/// own loaders; a HEADERS frame is taken as it is; every other kind is
/// skipped as unknown.
pub open spec fn spec_decode(head: Head, payload: Seq<u8>) -> core::result::Result<FrameModel, Error> {
    match head.kind {
        Kind::Data => spec_lift(data::spec_data_load(head, payload), |m| FrameModel::Data(m)),
        Kind::Headers => Ok(FrameModel::Headers((head.stream_id, 0u8, payload))),
        Kind::Settings => spec_lift(settings::spec_settings_load(head, payload), |m| FrameModel::Settings(m)),
        Kind::GoAway => spec_lift(go_away::spec_go_away_load(payload), |m| FrameModel::GoAway(m)),
        Kind::WindowUpdate => spec_lift(
            window_update::spec_window_update_load(head, payload),
            |m| FrameModel::WindowUpdate(m),
        ),
        _ => Ok(FrameModel::Unknown),
    }
}

impl Frame {
    /// Constructs a DATA frame on a non-zero stream.
    pub fn with_data(stream_id: StreamId, payload: Vec<u8>) -> (r: Self)
        requires
            stream_id.0 != 0,
        ensures
            r@ == FrameModel::Data(
                data::DataModel {
                    stream_id,
                    payload: payload@,
                    end_stream: false,
                    padded: false,
                    pad_len: None,
                },
            ),
    {
        Frame::Data(Data::new(stream_id, payload))
    }

    /// Constructs a HEADERS frame.
    pub fn with_headers(stream_id: StreamId, raw_data: Vec<u8>) -> (r: Self)
        ensures
            r@ == FrameModel::Headers((stream_id, 0u8, raw_data@)),
    {
        Frame::Headers(Headers::new(stream_id, raw_data))
    }

    /// Reads a frame from its header and the payload bytes read after it.
    pub fn decode(head: Head, payload: Vec<u8>) -> (r: Result)
        ensures
            r matches Ok(f) ==> spec_decode(head, payload@) == Ok::<FrameModel, Error>(f@),
            r matches Err(e) ==> spec_decode(head, payload@) == Err::<FrameModel, Error>(e),
    {
        match head.kind() {
            Kind::Data => match Data::load(head, payload) {
                Ok(f) => Ok(Frame::Data(f)),
                Err(e) => Err(e),
            },
            Kind::Headers => Ok(Frame::with_headers(head.stream_id(), payload)),
            Kind::Settings => match Settings::load(head, payload.as_slice()) {
                Ok(f) => Ok(Frame::Settings(f)),
                Err(e) => Err(e),
            },
            Kind::GoAway => match GoAway::load(payload.as_slice()) {
                Ok(f) => Ok(Frame::GoAway(f)),
                Err(e) => Err(e),
            },
            Kind::WindowUpdate => match WindowUpdate::load(head, payload.as_slice()) {
                Ok(f) => Ok(Frame::WindowUpdate(f)),
                Err(e) => Err(e),
            },
            _ => Ok(Frame::Unknown),
        }
    }

    /// Appends the encoded frame; an unknown frame writes nothing.
    pub fn encode(&self, dst: &mut Vec<u8>)
        ensures
            final(dst)@ == old(dst)@ + spec_frame_bytes(self@),
    {
        match self {
            Frame::Data(f) => f.encode(dst),
            Frame::Headers(f) => f.encode(dst),
            Frame::Priority(f) => f.encode(dst),
            Frame::Reset(f) => f.encode(dst),
            Frame::Settings(f) => f.encode(dst),
            Frame::GoAway(f) => f.encode(dst),
            Frame::WindowUpdate(f) => f.encode(dst),
            Frame::Continuation(f) => f.encode(dst),
            Frame::BinCode(f) => f.encode(dst),
            Frame::Unknown => {
                assert(dst@ =~= old(dst)@ + Seq::<u8>::empty());
            },
        }
    }
}

impl From<Data> for Frame {
    fn from(src: Data) -> (r: Frame) {
        Frame::Data(src)
    }
}

impl vstd::std_specs::convert::FromSpecImpl<Data> for Frame {
    open spec fn obeys_from_spec() -> bool {
        true
    }

    open spec fn from_spec(src: Data) -> Frame {
        Frame::Data(src)
    }
}

impl From<Headers> for Frame {
    fn from(src: Headers) -> (r: Frame) {
        Frame::Headers(src)
    }
}

impl vstd::std_specs::convert::FromSpecImpl<Headers> for Frame {
    open spec fn obeys_from_spec() -> bool {
        true
    }

    open spec fn from_spec(src: Headers) -> Frame {
        Frame::Headers(src)
    }
}

impl From<Priority> for Frame {
    fn from(src: Priority) -> (r: Frame) {
        Frame::Priority(src)
    }
}

impl vstd::std_specs::convert::FromSpecImpl<Priority> for Frame {
    open spec fn obeys_from_spec() -> bool {
        true
    }

    open spec fn from_spec(src: Priority) -> Frame {
        Frame::Priority(src)
    }
}

impl From<Reset> for Frame {
    fn from(src: Reset) -> (r: Frame) {
        Frame::Reset(src)
    }
}

impl vstd::std_specs::convert::FromSpecImpl<Reset> for Frame {
    open spec fn obeys_from_spec() -> bool {
        true
    }

    open spec fn from_spec(src: Reset) -> Frame {
        Frame::Reset(src)
    }
}

impl From<Settings> for Frame {
    fn from(src: Settings) -> (r: Frame) {
        Frame::Settings(src)
    }
}

impl vstd::std_specs::convert::FromSpecImpl<Settings> for Frame {
    open spec fn obeys_from_spec() -> bool {
        true
    }

    open spec fn from_spec(src: Settings) -> Frame {
        Frame::Settings(src)
    }
}

impl From<GoAway> for Frame {
    fn from(src: GoAway) -> (r: Frame) {
        Frame::GoAway(src)
    }
}

impl vstd::std_specs::convert::FromSpecImpl<GoAway> for Frame {
    open spec fn obeys_from_spec() -> bool {
        true
    }

    open spec fn from_spec(src: GoAway) -> Frame {
        Frame::GoAway(src)
    }
}

impl From<WindowUpdate> for Frame {
    fn from(src: WindowUpdate) -> (r: Frame) {
        Frame::WindowUpdate(src)
    }
}

impl vstd::std_specs::convert::FromSpecImpl<WindowUpdate> for Frame {
    open spec fn obeys_from_spec() -> bool {
        true
    }

    open spec fn from_spec(src: WindowUpdate) -> Frame {
        Frame::WindowUpdate(src)
    }
}

impl From<Continuation> for Frame {
    fn from(src: Continuation) -> (r: Frame) {
        Frame::Continuation(src)
    }
}

impl vstd::std_specs::convert::FromSpecImpl<Continuation> for Frame {
    open spec fn obeys_from_spec() -> bool {
        true
    }

    open spec fn from_spec(src: Continuation) -> Frame {
        Frame::Continuation(src)
    }
}

impl From<BinCode> for Frame {
    fn from(src: BinCode) -> (r: Frame) {
        Frame::BinCode(src)
    }
}

impl vstd::std_specs::convert::FromSpecImpl<BinCode> for Frame {
    open spec fn obeys_from_spec() -> bool {
        true
    }

    open spec fn from_spec(src: BinCode) -> Frame {
        Frame::BinCode(src)
    }
}

/// A frame whose encoding `Frame::decode` reads back: one of the kinds it
/// loads, with the values its loader accepts and identifiers without the
/// reserved bit.
pub open spec fn spec_frame_readable(f: FrameModel) -> bool {
    match f {
        FrameModel::Data(m) => data::spec_data_readable(m),
        FrameModel::Headers(h) => h.0.0 < 0x8000_0000 && h.1 == 0,
        FrameModel::Settings(m) => settings::spec_settings_valid(m),
        FrameModel::GoAway(g) => g.0.0 < 0x8000_0000,
        FrameModel::WindowUpdate(w) => w.0.0 < 0x8000_0000 && 0 < w.1 < 0x8000_0000,
        _ => false,
    }
}

/// Decoding the header and payload of an encoded frame gives the frame back,
/// for every frame the decoder loads (see `spec_frame_readable`).
pub proof fn lemma_frame_roundtrip(f: FrameModel)
    requires
        spec_frame_readable(f),
    ensures
        spec_frame_bytes(f).len() >= 9,
        spec_decode(
            head::spec_parse_head(spec_frame_bytes(f)),
            spec_frame_bytes(f).subrange(9, spec_frame_bytes(f).len() as int),
        ) == Ok::<FrameModel, Error>(f),
{
    match f {
        FrameModel::Data(m) => {
            data::lemma_data_roundtrip(m);
        },
        FrameModel::Headers(h) => {
            headers::lemma_headers_roundtrip(h);
        },
        FrameModel::Settings(m) => {
            settings::lemma_settings_roundtrip(m);
        },
        FrameModel::GoAway(g) => {
            go_away::lemma_go_away_roundtrip(g);
        },
        FrameModel::WindowUpdate(w) => {
            window_update::lemma_window_update_roundtrip(w);
        },
        _ => {},
    }
}

} // verus!
