//! Byte strings of the connection handshakes.
use super::frame::settings::{spec_empty_settings, spec_settings_frame};
use super::frame::Settings;
use vstd::prelude::*;

verus! {

/// The client connection preface of HTTP/2: `PRI * HTTP/2.0\r\n\r\nSM\r\n\r\n`.
pub open spec fn spec_http2_preface() -> Seq<u8> {
    seq![
        80u8, 82, 73, 32, 42, 32, 72, 84, 84, 80, 47, 50, 46, 48, 13, 10, 13, 10, 83, 77, 13, 10, 13, 10,
    ]
}

/// The HTTP/1.1 answer that accepts an upgrade to `h2c`.
pub open spec fn spec_switching_protocols() -> Seq<u8> {
    seq![
        72u8, 84, 84, 80, 47, 49, 46, 49, 32, 49, 48, 49, 32, 83, 119, 105, 116, 99, 104, 105, 110, 103,
        32, 80, 114, 111, 116, 111, 99, 111, 108, 115, 13, 10, 67, 111, 110, 110, 101, 99, 116, 105, 111,
        110, 58, 32, 85, 112, 103, 114, 97, 100, 101, 13, 10, 85, 112, 103, 114, 97, 100, 101, 58, 32, 104,
        50, 99, 13, 10, 13, 10,
    ]
}

/// The client connection preface of HTTP/2.
pub fn http2_preface() -> (r: Vec<u8>)
    ensures
        r@ == spec_http2_preface(),
{
    let r = vec![
        80u8, 82, 73, 32, 42, 32, 72, 84, 84, 80, 47, 50, 46, 48, 13, 10, 13, 10, 83, 77, 13, 10, 13, 10,
    ];
    proof {
        assert(r@ =~= spec_http2_preface());
    }
    r
}

/// The SETTINGS frame a client sends after the preface: no setting.
pub fn http2_settings() -> (r: Vec<u8>)
    ensures
        r@ == spec_settings_frame(spec_empty_settings()),
{
    let mut r: Vec<u8> = Vec::new();
    Settings::default().encode(&mut r);
    proof {
        assert(r@ =~= spec_settings_frame(spec_empty_settings()));
    }
    r
}

/// The HTTP/1.1 answer that accepts an upgrade to `h2c`.
pub fn http1_1_switching_protocols() -> (r: Vec<u8>)
    ensures
        r@ == spec_switching_protocols(),
{
    let r = vec![
        72u8, 84, 84, 80, 47, 49, 46, 49, 32, 49, 48, 49, 32, 83, 119, 105, 116, 99, 104, 105, 110, 103,
        32, 80, 114, 111, 116, 111, 99, 111, 108, 115, 13, 10, 67, 111, 110, 110, 101, 99, 116, 105, 111,
        110, 58, 32, 85, 112, 103, 114, 97, 100, 101, 13, 10, 85, 112, 103, 114, 97, 100, 101, 58, 32, 104,
        50, 99, 13, 10, 13, 10,
    ];
    proof {
        assert(r@ =~= spec_switching_protocols());
    }
    r
}

} // verus!
