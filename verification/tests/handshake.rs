use h2l::client::HandshakeError;
use h2l::consts::{http1_1_switching_protocols, http2_preface, http2_settings};
use h2l::frame::{Head, Kind, StreamId};
use h2l::handshake::{
    after_preface, check_h2c_upgrade, check_handshake_reply, is_http2_preface, HandshakeStep, PrefaceRead,
    UpgradeRequest,
};

#[test]
fn preface_bytes() {
    assert_eq!(http2_preface(), b"PRI * HTTP/2.0\r\n\r\nSM\r\n\r\n".to_vec());
    assert!(is_http2_preface(b"PRI * HTTP/2.0\r\n\r\nSM\r\n\r\n"));
    assert!(!is_http2_preface(b"GET / HTTP/1.1\r\nHost: a\r\n\r\n"));
    assert_eq!(http2_settings(), vec![0, 0, 0, 4, 0, 0, 0, 0, 0]);
    assert_eq!(
        http1_1_switching_protocols(),
        b"HTTP/1.1 101 Switching Protocols\r\nConnection: Upgrade\r\nUpgrade: h2c\r\n\r\n".to_vec()
    );
}

#[test]
fn h2c_upgrade_requests() {
    let mut buf = b"GET / HTTP/1.1\r\nHost: x\r\nConnection: Upgrade, HTTP2-Settings\r\nUpgrade: h2c\r\n\r\n".to_vec();
    buf.resize(4098, 0);
    assert_eq!(check_h2c_upgrade(&buf), UpgradeRequest::H2c);
    let plain = b"GET / HTTP/1.1\r\nHost: x\r\n\r\n";
    assert_eq!(check_h2c_upgrade(plain), UpgradeRequest::NotUpgrade);
    let lower = b"GET / HTTP/1.1\r\nupgrade: h2c\r\n\r\n";
    assert_eq!(check_h2c_upgrade(lower), UpgradeRequest::NotUpgrade);
    let partial = b"GET / HTTP/1.1\r\nUpgrade: h2c\r\n";
    assert_eq!(check_h2c_upgrade(partial), UpgradeRequest::NotUpgrade);
    let garbage = b"\x00\x01 not http\r\n\r\n";
    assert_eq!(check_h2c_upgrade(garbage), UpgradeRequest::Malformed);
}

#[test]
fn handshake_replies() {
    let settings = Head::new(Kind::Settings, 0, StreamId(0));
    let s = check_handshake_reply(settings, &[0, 3, 0, 0, 0, 100]).unwrap();
    assert_eq!(s.max_concurrent_streams(), Some(100));
    let other = Head::new(Kind::Data, 0, StreamId(1));
    assert!(matches!(check_handshake_reply(other, &[]), Err(HandshakeError::UnknownProtocol)));
    let bad = Head::new(Kind::Settings, 0, StreamId(1));
    assert!(matches!(
        check_handshake_reply(bad, &[]),
        Err(HandshakeError::Frame(h2l::frame::Error::InvalidStreamId))
    ));
}

#[test]
fn preface_steps() {
    assert_eq!(after_preface(false, PrefaceRead::Preface), HandshakeStep::Done);
    assert_eq!(after_preface(false, PrefaceRead::Other), HandshakeStep::TryUpgrade);
    assert_eq!(after_preface(false, PrefaceRead::ReadFailed), HandshakeStep::Done);
    assert_eq!(after_preface(true, PrefaceRead::Preface), HandshakeStep::Done);
    assert_eq!(after_preface(true, PrefaceRead::Other), HandshakeStep::Failed);
    assert_eq!(after_preface(true, PrefaceRead::ReadFailed), HandshakeStep::Failed);
}
