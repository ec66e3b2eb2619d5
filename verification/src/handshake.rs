//! Decisions of the connection handshakes: HTTP/2 with prior knowledge, and
//! the HTTP/1.1 upgrade to `h2c`.
use super::client::HandshakeError;
use super::consts::spec_http2_preface;
use super::frame::header_block::{bytes_equal, spec_field, HeaderField};
use super::frame::settings::{spec_empty_settings, spec_load_chunks, spec_settings_load, SettingsModel};
use super::frame::{Error, Head, Kind, Settings};
use vstd::prelude::*;

verus! {

/// The header fields that httparse reads from a request head: `None` when
/// the bytes are not a valid request head (or hold more than sixteen header
/// fields), `Some(None)` when the head is incomplete, and the fields, in
/// order, as name and value bytes when it is complete.
pub uninterp spec fn httparse_request_headers(buf: Seq<u8>) -> Option<Option<Seq<(Seq<u8>, Seq<u8>)>>>;

/// The name and value bytes of each field of a list.
pub open spec fn spec_fields(v: Seq<HeaderField>) -> Seq<(Seq<u8>, Seq<u8>)> {
    v.map_values(|f: HeaderField| spec_field(f))
}

/// Parses a request head with `httparse::Request::parse`, with room for
/// sixteen header fields. Trusted: the result is httparse's, named
/// `httparse_request_headers`; each field is converted to its name's and
/// value's bytes.
#[verifier::external_body]
fn parse_request_headers(buf: &[u8]) -> (r: Option<Option<Vec<HeaderField>>>)
    ensures
        match r {
            None => httparse_request_headers(buf@) is None,
            Some(None) => httparse_request_headers(buf@) == Some(None::<Seq<(Seq<u8>, Seq<u8>)>>),
            Some(Some(v)) => httparse_request_headers(buf@) == Some(Some(spec_fields(v@))),
        },
{
    let mut headers = [httparse::EMPTY_HEADER; 16];
    let mut req = httparse::Request::new(&mut headers);
    match req.parse(buf) {
        Ok(httparse::Status::Complete(_)) => Some(Some(req.headers.iter().map(|h| HeaderField {
            name: h.name.as_bytes().to_vec(),
            value: h.value.to_vec(),
        }).collect())),
        Ok(httparse::Status::Partial) => Some(None),
        Err(_) => None,
    }
}

/// The bytes of `Upgrade`.
pub open spec fn spec_upgrade_name() -> Seq<u8> {
    seq![85u8, 112, 103, 114, 97, 100, 101]
}

/// The bytes of `h2c`.
pub open spec fn spec_h2c() -> Seq<u8> {
    seq![104u8, 50, 99]
}

/// Whether some field is exactly `Upgrade: h2c`.
pub open spec fn spec_asks_h2c(fields: Seq<(Seq<u8>, Seq<u8>)>) -> bool {
    exists|i: int| 0 <= i < fields.len() && #[trigger] fields[i] == (spec_upgrade_name(), spec_h2c())
}

/// Returns true if some header field is exactly `Upgrade: h2c` (the name
/// compared with its case).
pub fn asks_h2c_upgrade(fields: &Vec<HeaderField>) -> (r: bool)
    ensures
        r == spec_asks_h2c(spec_fields(fields@)),
{
    let upgrade = vec![85u8, 112, 103, 114, 97, 100, 101];
    let h2c = vec![104u8, 50, 99];
    proof {
        assert(upgrade@ =~= spec_upgrade_name());
        assert(h2c@ =~= spec_h2c());
    }
    let mut i: usize = 0;
    while i < fields.len()
        invariant
            i <= fields@.len(),
            upgrade@ == spec_upgrade_name(),
            h2c@ == spec_h2c(),
            forall|j: int| 0 <= j < i ==> spec_fields(fields@)[j] != (spec_upgrade_name(), spec_h2c()),
        decreases fields@.len() - i,
    {
        let f = &fields[i];
        if bytes_equal(f.name.as_slice(), upgrade.as_slice()) && bytes_equal(f.value.as_slice(), h2c.as_slice()) {
            proof {
                assert(spec_fields(fields@)[i as int] == (spec_upgrade_name(), spec_h2c()));
            }
            return true;
        }
        i = i + 1;
    }
    proof {
        assert forall|j: int| 0 <= j < spec_fields(fields@).len() implies #[trigger] spec_fields(fields@)[j] != (
            spec_upgrade_name(),
            spec_h2c(),
        ) by {}
    }
    false
}

/// What a server makes of an HTTP/1.1 request head when it looks for an
/// upgrade to `h2c`.
#[derive(Debug, Clone, Copy, PartialEq, Eq, Structural)]
pub enum UpgradeRequest {
    /// A complete head with the field `Upgrade: h2c`: switch protocols.
    H2c,
    /// A complete head without it, or an incomplete head: not an upgrade.
    NotUpgrade,
    /// Bytes that are not a request head.
    Malformed,
}

/// A complete request head in which any field, at any position, is exactly
/// `Upgrade: h2c` asks for the upgrade; one in which no field is asks for
/// nothing; and the answer does not depend on the order of the fields.
pub proof fn lemma_h2c_field_anywhere(fields: Seq<(Seq<u8>, Seq<u8>)>, other: Seq<(Seq<u8>, Seq<u8>)>, i: int)
    ensures
        0 <= i < fields.len() && fields[i] == (seq![85u8, 112, 103, 114, 97, 100, 101], seq![104u8, 50, 99])
            ==> spec_upgrade_request(Some(Some(fields))) == UpgradeRequest::H2c,
        spec_upgrade_request(Some(Some(fields))) == UpgradeRequest::H2c <==> fields.contains(
            (seq![85u8, 112, 103, 114, 97, 100, 101], seq![104u8, 50, 99]),
        ),
        fields.to_set() == other.to_set() ==> spec_upgrade_request(Some(Some(fields)))
            == spec_upgrade_request(Some(Some(other))),
        spec_upgrade_request(Some(Some(fields + other))) == spec_upgrade_request(Some(Some(other + fields))),
{
    let x = (seq![85u8, 112, 103, 114, 97, 100, 101], seq![104u8, 50, 99]);
    assert(x == (spec_upgrade_name(), spec_h2c()));
    assert(spec_asks_h2c(fields) <==> fields.contains(x));
    assert(spec_asks_h2c(other) <==> other.contains(x));
    if fields.to_set() == other.to_set() {
        assert(fields.contains(x) <==> fields.to_set().contains(x));
        assert(other.contains(x) <==> other.to_set().contains(x));
    }
    let a = fields + other;
    let b = other + fields;
    assert(a.contains(x) <==> fields.contains(x) || other.contains(x)) by {
        if a.contains(x) {
            let k = choose|k: int| 0 <= k < a.len() && a[k] == x;
            if k < fields.len() {
                assert(fields[k] == x);
            } else {
                assert(other[k - fields.len()] == x);
            }
        }
        if fields.contains(x) {
            let k = choose|k: int| 0 <= k < fields.len() && fields[k] == x;
            assert(a[k] == x);
        }
        if other.contains(x) {
            let k = choose|k: int| 0 <= k < other.len() && other[k] == x;
            assert(a[k + fields.len()] == x);
        }
    }
    assert(b.contains(x) <==> fields.contains(x) || other.contains(x)) by {
        if b.contains(x) {
            let k = choose|k: int| 0 <= k < b.len() && b[k] == x;
            if k < other.len() {
                assert(other[k] == x);
            } else {
                assert(fields[k - other.len()] == x);
            }
        }
        if other.contains(x) {
            let k = choose|k: int| 0 <= k < other.len() && other[k] == x;
            assert(b[k] == x);
        }
        if fields.contains(x) {
            let k = choose|k: int| 0 <= k < fields.len() && fields[k] == x;
            assert(b[k + other.len()] == x);
        }
    }
    assert(spec_asks_h2c(a) <==> a.contains(x));
    assert(spec_asks_h2c(b) <==> b.contains(x));
}

/// The decision for a parse result.
pub open spec fn spec_upgrade_request(p: Option<Option<Seq<(Seq<u8>, Seq<u8>)>>>) -> UpgradeRequest {
    match p {
        None => UpgradeRequest::Malformed,
        Some(None) => UpgradeRequest::NotUpgrade,
        Some(Some(fields)) => if spec_asks_h2c(fields) {
            UpgradeRequest::H2c
        } else {
            UpgradeRequest::NotUpgrade
        },
    }
}

/// Parses the request head in `buf` and decides whether it asks for `h2c`.
pub fn check_h2c_upgrade(buf: &[u8]) -> (r: UpgradeRequest)
    ensures
        r == spec_upgrade_request(httparse_request_headers(buf@)),
{
    match parse_request_headers(buf) {
        None => UpgradeRequest::Malformed,
        Some(None) => UpgradeRequest::NotUpgrade,
        Some(Some(fields)) => {
            if asks_h2c_upgrade(&fields) {
                UpgradeRequest::H2c
            } else {
                UpgradeRequest::NotUpgrade
            }
        },
    }
}

/// Returns true if the 24 bytes a server read open an HTTP/2 connection.
pub fn is_http2_preface(magic: &[u8]) -> (r: bool)
    ensures
        r == (magic@ == spec_http2_preface()),
{
    let preface = super::consts::http2_preface();
    bytes_equal(magic, preface.as_slice())
}

/// What a server read where it expects the HTTP/2 preface.
#[derive(Debug, Clone, Copy, PartialEq, Eq, Structural)]
pub enum PrefaceRead {
    /// The 24 bytes are the preface.
    Preface,
    /// 24 other bytes were read.
    Other,
    /// Reading failed.
    ReadFailed,
}

/// What a server does next in its handshake.
#[derive(Debug, Clone, Copy, PartialEq, Eq, Structural)]
pub enum HandshakeStep {
    /// The handshake is over; read frames.
    Done,
    /// Treat the bytes read as the start of an HTTP/1.1 request and look for
    /// an upgrade to `h2c`, then expect the preface again.
    TryUpgrade,
    /// The handshake failed.
    Failed,
}

/// Decides the next step after a server looked for the preface: at first,
/// other bytes lead to the HTTP/1.1 upgrade and a failed read ends the
/// handshake as it is; after an upgrade, anything but the preface fails.
pub fn after_preface(after_upgrade: bool, read: PrefaceRead) -> (r: HandshakeStep)
    ensures
        r == (if read == PrefaceRead::Preface {
            HandshakeStep::Done
        } else if after_upgrade {
            HandshakeStep::Failed
        } else if read == PrefaceRead::Other {
            HandshakeStep::TryUpgrade
        } else {
            HandshakeStep::Done
        }),
{
    match read {
        PrefaceRead::Preface => HandshakeStep::Done,
        PrefaceRead::Other => if after_upgrade {
            HandshakeStep::Failed
        } else {
            HandshakeStep::TryUpgrade
        },
        PrefaceRead::ReadFailed => if after_upgrade {
            HandshakeStep::Failed
        } else {
            HandshakeStep::Done
        },
    }
}

/// What a client makes of the first frame a server answers with.
pub open spec fn spec_handshake_reply(head: Head, payload: Seq<u8>) -> Result<SettingsModel, HandshakeError> {
    if head.kind != Kind::Settings {
        Err(HandshakeError::UnknownProtocol)
    } else {
        match spec_settings_load(head, payload) {
            Ok(m) => Ok(m),
            Err(e) => Err(HandshakeError::Frame(e)),
        }
    }
}

/// The client accepts as the server's answer exactly what the SETTINGS loader
/// accepts: a SETTINGS frame gives what the loader gives, its error as a
/// frame error, and an empty SETTINGS frame on stream zero without `ACK`
/// gives the empty settings; any other kind is an unknown protocol.
pub proof fn lemma_handshake_reply_is_settings(head: Head, payload: Seq<u8>)
    ensures
        head.kind != Kind::Settings ==> spec_handshake_reply(head, payload) == Err::<SettingsModel, HandshakeError>(
            HandshakeError::UnknownProtocol,
        ),
        head.kind == Kind::Settings ==> (forall|m: SettingsModel| spec_settings_load(head, payload)
            == Ok::<SettingsModel, Error>(m) ==> #[trigger] spec_handshake_reply(head, payload)
            == Ok::<SettingsModel, HandshakeError>(m)),
        head.kind == Kind::Settings ==> (forall|e: Error| spec_settings_load(head, payload)
            == Err::<SettingsModel, Error>(e) ==> #[trigger] spec_handshake_reply(head, payload)
            == Err::<SettingsModel, HandshakeError>(HandshakeError::Frame(e))),
        head.kind == Kind::Settings && head.stream_id.0 == 0 && head.flags % 2 == 0 && payload.len() == 0
            ==> spec_handshake_reply(head, payload) == Ok::<SettingsModel, HandshakeError>(spec_empty_settings()),
{
    if head.kind == Kind::Settings && head.stream_id.0 == 0 && head.flags % 2 == 0 && payload.len() == 0 {
        assert(spec_load_chunks(payload, 0) == Some(spec_empty_settings()));
    }
}

/// Checks the server's answer to the client preface: it must be a SETTINGS
/// frame, which is returned.
pub fn check_handshake_reply(head: Head, payload: &[u8]) -> (r: Result<Settings, HandshakeError>)
    ensures
        r matches Ok(s) ==> spec_handshake_reply(head, payload@) == Ok::<SettingsModel, HandshakeError>(s@),
        r matches Err(e) ==> spec_handshake_reply(head, payload@) == Err::<SettingsModel, HandshakeError>(e),
        head.kind != Kind::Settings ==> r matches Err(HandshakeError::UnknownProtocol),
        head.kind == Kind::Settings ==> (r is Ok <==> spec_settings_load(head, payload@) is Ok),
        head.kind == Kind::Settings ==> (r matches Ok(s) ==> spec_settings_load(head, payload@)
            == Ok::<SettingsModel, Error>(s@)),
        head.kind == Kind::Settings ==> (r matches Err(e) ==> (spec_settings_load(head, payload@) matches Err(
            le,
        ) && e == HandshakeError::Frame(le))),
{
    if head.kind() != Kind::Settings {
        return Err(HandshakeError::UnknownProtocol);
    }
    match Settings::load(head, payload) {
        Ok(s) => Ok(s),
        Err(e) => Err(HandshakeError::Frame(e)),
    }
}

} // verus!
