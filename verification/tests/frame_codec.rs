use h2l::frame::head::parse_payload_len;
use h2l::frame::header_block::{HeaderMap, Pseudo, Request};
use h2l::frame::push_promise::{parse_u64, PushPromiseFlag, PushPromiseHeaderError};
use h2l::frame::{
    BinCode, Continuation, Data, Error, Flags, Frame, GoAway, Head, Headers, Kind, Priority, Reason,
    Reset, Settings, SettingsFlags, StreamId, WindowUpdate,
};
use h2l::frame::push_promise::PushPromise;

fn head(kind: Kind, flags: u8, id: u32) -> Head {
    Head::new(kind, flags, StreamId(id))
}

#[test]
fn head_encode_exact_bytes() {
    let mut buf = Vec::new();
    head(Kind::WindowUpdate, 0x5, 0x0102_0304).encode(0x0a0b0c, &mut buf);
    assert_eq!(buf, vec![0x0a, 0x0b, 0x0c, 8, 5, 1, 2, 3, 4]);
}

#[test]
fn head_encode_truncates_length_to_three_bytes() {
    let mut buf = Vec::new();
    head(Kind::Data, 0, 1).encode(0x0100_0005, &mut buf);
    assert_eq!(&buf[..3], &[0, 0, 5]);
    assert_eq!(parse_payload_len(&buf), 5);
}

#[test]
fn head_roundtrip() {
    let h = head(Kind::GoAway, 0x24, 0x7fff_ffff);
    let mut buf = Vec::new();
    h.encode(300, &mut buf);
    assert_eq!(Head::parse(&buf), h);
    assert_eq!(parse_payload_len(&buf), 300);
}

#[test]
fn head_parse_clears_reserved_bit() {
    let buf = [0, 0, 0, 0, 0, 0x80, 0, 0, 7];
    let h = Head::parse(&buf);
    assert_eq!(h.stream_id(), StreamId(7));
    assert_eq!(h.kind(), Kind::Data);
}

#[test]
fn kind_codes() {
    assert_eq!(Kind::new(0), Kind::Data);
    assert_eq!(Kind::new(4), Kind::Settings);
    assert_eq!(Kind::new(9), Kind::Continuation);
    assert_eq!(Kind::new(10), Kind::Unknown);
    assert_eq!(Kind::from(255u8), Kind::Unknown);
    assert_eq!(Kind::from(8u32), Kind::WindowUpdate);
    assert_eq!(Kind::from(0x1_0000u32), Kind::Unknown);
    assert_eq!(Kind::BinCode.code(), 10);
    assert_eq!(Kind::Unknown.code(), 11);
}

#[test]
fn bin_code_kind_reads_back_as_unknown() {
    let mut buf = Vec::new();
    BinCode::new(StreamId(3), vec![1, 2]).encode(&mut buf);
    assert_eq!(Head::parse(&buf).kind(), Kind::Unknown);
    assert_eq!(buf, vec![0, 0, 2, 10, 0, 0, 0, 0, 3, 1, 2]);
}

#[test]
fn stream_id_helpers() {
    assert!(StreamId(0).is_zero());
    assert!(StreamId(1).is_client_initiated());
    assert!(StreamId(2).is_server_initiated());
    assert!(!StreamId(0).is_server_initiated());
    assert_eq!(StreamId(1).next_id().unwrap(), StreamId(3));
    assert!(StreamId(0x7fff_fffe).next_id().is_err());
    assert_eq!(StreamId::parse(&[0xff, 0xff, 0xff, 0xff]), (StreamId(0x7fff_ffff), true));
    assert_eq!(u32::from(StreamId(9)), 9);
}

fn settings_payload(items: &[(u16, u32)]) -> Vec<u8> {
    let mut v = Vec::new();
    for (id, val) in items {
        v.extend_from_slice(&id.to_be_bytes());
        v.extend_from_slice(&val.to_be_bytes());
    }
    v
}

#[test]
fn settings_roundtrip() {
    let mut s = Settings::default();
    s.set_initial_window_size(Some(65_535));
    s.set_max_concurrent_streams(Some(100));
    s.set_max_frame_size(Some(16_384));
    s.set_max_header_list_size(Some(8192));
    s.set_enable_push(false);
    let mut buf = Vec::new();
    s.encode(&mut buf);
    assert_eq!(buf.len(), 9 + 30);
    let h = Head::parse(&buf);
    assert_eq!(h.kind(), Kind::Settings);
    assert_eq!(parse_payload_len(&buf), 30);
    let back = Settings::load(h, &buf[9..]).unwrap();
    assert_eq!(back, s);
    assert_eq!(back.is_push_enabled(), Some(false));
}

#[test]
fn settings_encode_exact_bytes() {
    let mut s = Settings::default();
    s.set_max_frame_size(Some(0x4000));
    let mut buf = Vec::new();
    s.encode(&mut buf);
    assert_eq!(buf, vec![0, 0, 6, 4, 0, 0, 0, 0, 0, 0, 5, 0, 0, 0x40, 0]);
}

#[test]
fn settings_ack_roundtrip() {
    let mut buf = Vec::new();
    Settings::ack().encode(&mut buf);
    assert_eq!(buf, vec![0, 0, 0, 4, 1, 0, 0, 0, 0]);
    let back = Settings::load(Head::parse(&buf), &[]).unwrap();
    assert!(back.is_ack());
    assert_eq!(back, Settings::ack());
}

#[test]
fn settings_load_errors() {
    let h = head(Kind::Settings, 0, 1);
    assert!(matches!(Settings::load(h, &[]), Err(Error::InvalidStreamId)));
    let ack = head(Kind::Settings, 1, 0);
    assert!(matches!(Settings::load(ack, &[0; 6]), Err(Error::InvalidPayloadAckSettings)));
    let h = head(Kind::Settings, 0, 0);
    assert!(matches!(Settings::load(h, &[0; 5]), Err(Error::InvalidPayloadLength)));
    for (id, val) in [(2u16, 2u32), (4, 0x8000_0000), (5, 16_383), (5, 0x0100_0000)] {
        let p = settings_payload(&[(id, val)]);
        assert!(matches!(Settings::load(h, &p), Err(Error::InvalidSettingValue)));
    }
}

#[test]
fn settings_load_overrides_and_skips_unknown() {
    let h = head(Kind::Settings, 0x2, 0);
    let p = settings_payload(&[(3, 10), (9, 1), (3, 20), (1, 4096), (2, 1)]);
    let s = Settings::load(h, &p).unwrap();
    assert!(!s.is_ack());
    assert_eq!(s.max_concurrent_streams(), Some(20));
    assert_eq!(s.header_table_size(), Some(4096));
    assert_eq!(s.is_push_enabled(), Some(true));
    assert_eq!(s.initial_window_size(), None);
}

#[test]
fn settings_flags() {
    assert!(SettingsFlags::load(0xff).is_ack());
    assert!(!SettingsFlags::load(0xfe).is_ack());
    assert_eq!(u8::from(SettingsFlags::ack()), 1);
    assert_eq!(SettingsFlags::default(), SettingsFlags::empty());
}

#[test]
fn go_away_roundtrip_and_short_payload() {
    let g = GoAway::new(StreamId(5), Reason(2));
    let mut buf = Vec::new();
    g.encode(&mut buf);
    assert_eq!(buf, vec![0, 0, 8, 7, 0, 0, 0, 0, 0, 0, 0, 0, 5, 0, 0, 0, 2]);
    assert_eq!(GoAway::load(&buf[9..]).unwrap(), g);
    assert!(matches!(GoAway::load(&buf[9..16]), Err(Error::BadFrameSize)));
}

#[test]
fn reset_roundtrip_and_bad_length() {
    let r = Reset::new(StreamId(3), Reason(8));
    let mut buf = Vec::new();
    r.encode(&mut buf);
    let h = Head::parse(&buf);
    assert_eq!(Reset::load(h, &buf[9..]).unwrap(), r);
    assert_eq!(r.reason().code(), 8);
    assert!(matches!(Reset::load(h, &buf[9..12]), Err(Error::InvalidPayloadLength)));
}

#[test]
fn window_update_cases() {
    let w = WindowUpdate::new(StreamId(1), 1000);
    let mut buf = Vec::new();
    w.encode(&mut buf);
    let h = Head::parse(&buf);
    assert_eq!(WindowUpdate::load(h, &buf[9..]).unwrap(), w);
    let masked = WindowUpdate::load(h, &[0x80, 0, 0x03, 0xe8]).unwrap();
    assert_eq!(masked.size_increment(), 1000);
    assert!(matches!(WindowUpdate::load(h, &[0x80, 0, 0, 0]), Err(Error::InvalidWindowUpdateValue)));
    assert!(matches!(WindowUpdate::load(h, &[0, 0, 1]), Err(Error::BadFrameSize)));
}

#[test]
fn priority_cases() {
    let h = head(Kind::Priority, 0, 3);
    let p = Priority::load(h, &[0x80, 0, 0, 1, 15]).unwrap();
    let mut buf = Vec::new();
    p.encode(&mut buf);
    assert_eq!(buf, vec![0, 0, 5, 2, 0, 0, 0, 0, 3, 0x80, 0, 0, 1, 15]);
    assert!(matches!(Priority::load(h, &[0, 0, 0, 3, 1]), Err(Error::InvalidDependencyId)));
    assert!(matches!(Priority::load(h, &[0, 0, 0, 1]), Err(Error::InvalidPayloadLength)));
}

#[test]
fn data_load_cases() {
    assert!(matches!(Data::load(head(Kind::Data, 0, 0), vec![1]), Err(Error::InvalidStreamId)));
    assert!(matches!(Data::load(head(Kind::Data, 0x8, 1), vec![]), Err(Error::TooMuchPadding)));
    assert!(matches!(Data::load(head(Kind::Data, 0x8, 1), vec![2, 0]), Err(Error::TooMuchPadding)));
    let d = Data::load(head(Kind::Data, 0x9, 1), vec![1, 7, 0]).unwrap();
    assert!(d.is_padded());
    assert!(d.is_end_stream());
    assert_eq!(d.as_bytes(), &[7]);
    let d = Data::load(head(Kind::Data, 0x8, 1), vec![2, b'h', b'i', 0, 0]).unwrap();
    assert_eq!(d.payload(), &b"hi".to_vec());
    assert_eq!(d.len(), 2);
    let mut buf = Vec::new();
    d.encode(&mut buf);
    assert_eq!(buf, vec![0, 0, 5, 0, 8, 0, 0, 0, 1, 2, b'h', b'i', 0, 0]);
    assert_eq!(Data::load(Head::parse(&buf), buf[9..].to_vec()).unwrap(), d);
    let empty = Data::load(head(Kind::Data, 0x8, 1), vec![0]).unwrap();
    assert!(empty.is_empty());
    assert_eq!(Data::check_padding(&[2, 0, 0]).unwrap(), 2);
}

#[test]
fn data_roundtrip_and_end_stream() {
    let mut d = Data::new(StreamId(7), vec![1, 2, 3]);
    assert!(!d.is_end_stream());
    d.set_end_stream(true);
    assert!(d.is_end_stream());
    let mut buf = Vec::new();
    d.encode(&mut buf);
    assert_eq!(buf, vec![0, 0, 3, 0, 1, 0, 0, 0, 7, 1, 2, 3]);
    let back = Data::load(Head::parse(&buf), buf[9..].to_vec()).unwrap();
    assert_eq!(back, d);
    d.set_end_stream(false);
    assert!(!d.is_end_stream());
    d.payload_mut().push(4);
    assert_eq!(d.len(), 4);
    assert_eq!(d.into_payload(), vec![1, 2, 3, 4]);
}

#[test]
fn headers_continuation_encode() {
    let h = Headers::new(StreamId(1), vec![0x82]);
    let mut buf = Vec::new();
    h.encode(&mut buf);
    assert_eq!(buf, vec![0, 0, 1, 1, 0, 0, 0, 0, 1, 0x82]);
    let c = Continuation::new(StreamId(1), vec![]);
    let mut buf = Vec::new();
    c.encode(&mut buf);
    assert_eq!(buf, vec![0, 0, 0, 9, 4, 0, 0, 0, 1]);
    assert!(c.is_empty());
    assert_eq!(u8::from(Flags::end_headers()), 4);
}

#[test]
fn decode_dispatch() {
    let f = Frame::decode(head(Kind::Headers, 0x4, 3), vec![9, 9]).unwrap();
    assert!(matches!(f, Frame::Headers(ref h) if h.as_bytes() == [9, 9] && h.stream_id() == StreamId(3)));
    let f = Frame::decode(head(Kind::Ping, 0, 0), vec![0; 8]).unwrap();
    assert!(matches!(f, Frame::Unknown));
    let f = Frame::decode(head(Kind::GoAway, 0, 0), vec![0, 0, 0, 1, 0, 0, 0, 0]).unwrap();
    assert!(matches!(f, Frame::GoAway(ref g) if g.last_stream_id() == StreamId(1)));
    assert!(matches!(Frame::decode(head(Kind::Data, 0, 0), vec![]), Err(Error::InvalidStreamId)));
    let mut buf = Vec::new();
    Frame::Unknown.encode(&mut buf);
    assert!(buf.is_empty());
}

#[test]
fn decode_reads_back_encoded_frames() {
    let mut s = Settings::default();
    s.set_initial_window_size(Some(1));
    let frames = vec![
        Frame::with_data(StreamId(1), vec![5, 6]),
        Frame::with_headers(StreamId(3), vec![1]),
        Frame::from(s),
        Frame::from(GoAway::new(StreamId(9), Reason(1))),
        Frame::from(WindowUpdate::new(StreamId(0), 77)),
    ];
    for f in frames {
        let mut buf = Vec::new();
        f.encode(&mut buf);
        let back = Frame::decode(Head::parse(&buf), buf[9..].to_vec()).unwrap();
        let mut again = Vec::new();
        back.encode(&mut again);
        assert_eq!(again, buf);
    }
}

#[test]
fn parse_u64_cases() {
    assert_eq!(parse_u64(b""), Ok(0));
    assert_eq!(parse_u64(b"0"), Ok(0));
    assert_eq!(parse_u64(b"12345"), Ok(12345));
    assert_eq!(parse_u64(b"9999999999999999999"), Ok(9_999_999_999_999_999_999));
    assert_eq!(parse_u64(b"10000000000000000000"), Err(()));
    assert_eq!(parse_u64(b"12a"), Err(()));
}

fn request(method: &[u8], headers: &[(&[u8], &[u8])]) -> Request {
    let mut map = HeaderMap::new();
    for (n, v) in headers {
        map.append(n.to_vec(), v.to_vec());
    }
    Request { method: method.to_vec(), headers: map }
}

#[test]
fn validate_request_cases() {
    assert_eq!(PushPromise::validate_request(&request(b"GET", &[])), Ok(()));
    assert_eq!(PushPromise::validate_request(&request(b"HEAD", &[(b"content-length", b"0")])), Ok(()));
    assert_eq!(
        PushPromise::validate_request(&request(b"GET", &[(b"content-length", b"12")])),
        Err(PushPromiseHeaderError::InvalidContentLength(Ok(12)))
    );
    assert_eq!(
        PushPromise::validate_request(&request(b"GET", &[(b"content-length", b"x")])),
        Err(PushPromiseHeaderError::InvalidContentLength(Err(())))
    );
    assert_eq!(
        PushPromise::validate_request(&request(b"POST", &[])),
        Err(PushPromiseHeaderError::NotSafeAndCacheable)
    );
    assert!(PushPromise::safe_and_cacheable(b"HEAD"));
    assert!(!PushPromise::safe_and_cacheable(b"get"));
}

#[test]
fn push_promise_load_cases() {
    let h = head(Kind::PushPromise, 0x8 | 0x4, 1);
    let (p, rest) = PushPromise::load(h, vec![2, 0, 0, 0, 4, 0xaa, 0xbb, 0xcc, 0, 0]).unwrap();
    assert_eq!(p.promised_id(), StreamId(4));
    assert_eq!(p.stream_id(), StreamId(1));
    assert!(p.is_end_headers());
    assert_eq!(rest, vec![0xaa, 0xbb, 0xcc]);
    assert!(matches!(PushPromise::load(h, vec![]), Err(Error::MalformedMessage)));
    assert!(matches!(PushPromise::load(h, vec![0, 0, 0, 0, 4]), Err(Error::MalformedMessage)));
    assert!(matches!(PushPromise::load(h, vec![9, 0, 0, 0, 4, 1]), Err(Error::TooMuchPadding)));
    let plain = head(Kind::PushPromise, 0, 1);
    let (mut p, rest) = PushPromise::load(plain, vec![0x80, 0, 0, 2, 7]).unwrap();
    assert_eq!(p.promised_id(), StreamId(2));
    assert_eq!(rest, vec![7]);
    assert!(!p.is_end_headers());
    p.set_end_headers();
    assert!(p.is_end_headers());
    assert_eq!(p.head().flags(), 4);
}

#[test]
fn push_promise_parts() {
    let mut fields = HeaderMap::new();
    fields.append(b"accept".to_vec(), b"*/*".to_vec());
    let p = PushPromise::new(StreamId(1), StreamId(2), Pseudo::default(), fields.clone());
    assert!(p.is_end_headers());
    assert!(!p.is_over_size());
    assert_eq!(p.fields(), &fields);
    assert_eq!(p.fields().get(b"accept"), Some(&b"*/*".to_vec()));
    let (pseudo, f) = p.into_parts();
    assert_eq!(pseudo, Pseudo::default());
    assert_eq!(f.len(), 1);
}

#[test]
fn push_promise_flags() {
    assert_eq!(u8::from(PushPromiseFlag::load(0xff)), 0xc);
    assert!(PushPromiseFlag::load(0x8).is_padded());
    assert!(!PushPromiseFlag::empty().is_end_headers());
    let mut f = PushPromiseFlag::empty();
    f.set_end_headers();
    assert!(f.is_end_headers());
    assert_eq!(PushPromiseFlag::default(), f);
}

#[test]
fn data_set_padded_encodes_empty_padding() {
    let mut d = Data::new(StreamId(1), vec![5]);
    d.set_padded();
    let mut buf = Vec::new();
    d.encode(&mut buf);
    assert_eq!(buf, vec![0, 0, 2, 0, 8, 0, 0, 0, 1, 0, 5]);
    let back = Data::load(Head::parse(&buf), buf[9..].to_vec()).unwrap();
    assert_eq!(back.as_bytes(), &[5]);
}

#[test]
fn header_names_ignore_case() {
    let mut map = HeaderMap::new();
    map.append(b"Content-Length".to_vec(), b"5".to_vec());
    map.append(b"X-Trace-9".to_vec(), b"on".to_vec());
    assert_eq!(map.len(), 2);
    assert_eq!(map.get(b"content-length"), Some(&b"5".to_vec()));
    assert_eq!(map.get(b"CONTENT-LENGTH"), Some(&b"5".to_vec()));
    assert_eq!(map.get(b"x-trace-9"), Some(&b"on".to_vec()));
    assert_eq!(map.get(b"accept"), None);
    assert_eq!(
        PushPromise::validate_request(&request(b"GET", &[(b"Content-Length", b"5")])),
        Err(PushPromiseHeaderError::InvalidContentLength(Ok(5)))
    );
}

#[test]
fn bin_code_keeps_its_stream() {
    let b = BinCode::new(StreamId(7), vec![1, 2, 3]);
    assert_eq!(b.stream_id(), StreamId(7));
    assert!(!b.stream_id().is_zero());
}
