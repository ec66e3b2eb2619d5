use h2l::client::{
    after_connect, after_session, on_client_changed, on_maintain_exit, ClientChangeAction,
    ClientFlags, ClientState, ConnectOutcome, MaintainAction,
};
use h2l::frame::{Data, Frame, GoAway, Reason, Settings, StreamId};
use h2l::frame::{Error as FrameError, Head, Kind};
use h2l::link::{decode_link_frame, link_read, LinkFlags, LinkRead, LinkState};
use h2l::server::{
    accept_step, attach_link, AcceptEvent, AcceptStep, ends_forward_loop, on_link_changed, route_frame, route_link_changed, settings_answers, FrameRoute, LinkChangeRoute,
    LinkTable, ServerFlags,
};
use h2l::error::{Error, UserError};
use h2l::writer::{client_writer_step, link_writer_step, WriterEvent, WriterStep};
use h2l::Token;

#[test]
fn link_flags_add_to_stored_flags() {
    let mut s = LinkState::new();
    assert_eq!(s.flags(), LinkFlags::none());
    s.set_flags(LinkFlags::attached());
    assert_eq!(s.flags(), LinkFlags::attached());
    s.add_flags(LinkFlags::read_closed());
    assert_eq!(s.bits(), 0x5);
    assert_eq!(s.flags(), LinkFlags::attached().union(LinkFlags::read_closed()));
    assert_eq!(LinkState::from_bits(0xff).flags().bits(), 0xf);
    s.clear_flags();
    assert_eq!(s.bits(), 0);
}

#[test]
fn link_closes_in_either_order() {
    let mut a = LinkState::new();
    a.add_flags(LinkFlags::read_closed());
    a.add_flags(LinkFlags::write_closed());
    assert_eq!(a.flags(), LinkFlags::read_write_closed());
    let mut b = LinkState::new();
    b.add_flags(LinkFlags::write_closed());
    b.add_flags(LinkFlags::read_closed());
    assert_eq!(b.flags(), LinkFlags::read_write_closed());
    assert!(b.flags().contains(LinkFlags::read_closed()));
    assert!(!LinkFlags::write_closed().contains(LinkFlags::read_closed()));
}

#[test]
fn client_flags_add_remove() {
    let mut s = ClientState::new();
    s.add_flags(ClientFlags::read_closed());
    s.add_flags(ClientFlags::write_closed());
    assert!(s.flags().contains(ClientFlags::read_write_closed()));
    s.remove_flags(ClientFlags::read_write_closed());
    assert_eq!(s.flags(), ClientFlags::empty());
    let mut t = ClientState::from_bits(0xffff_ffff);
    assert_eq!(t.flags().bits(), 0x3f);
    t.set_flags(ClientFlags::terminated());
    assert_eq!(t.bits(), 3);
    t.clear_flags();
    assert_eq!(t.bits(), 0);
}

#[test]
fn newly_handshaked() {
    assert!(ClientFlags::handshaked().is_newly_handshaked());
    assert!(ClientFlags::handshaked().union(ClientFlags::reconnected()).is_newly_handshaked());
    assert!(!ClientFlags::handshaked().union(ClientFlags::read_closed()).is_newly_handshaked());
    assert!(!ClientFlags::empty().is_newly_handshaked());
}

#[test]
fn client_session_cycle() {
    let mut s = ClientState::new();
    assert_eq!(after_connect(&mut s, ConnectOutcome::Handshaked), MaintainAction::StartSession);
    assert!(s.flags().is_newly_handshaked());
    s.add_flags(ClientFlags::read_closed());
    s.add_flags(ClientFlags::write_closed());
    assert!(after_session(&mut s, true));
    assert_eq!(s.bits(), 0x24);
    assert_eq!(after_connect(&mut s, ConnectOutcome::Handshaked), MaintainAction::StartSession);
    assert!(s.flags().is_newly_handshaked());
    s.add_flags(ClientFlags::read_closed());
    assert!(!after_session(&mut s, false));
    assert_eq!(s.bits(), 0x24);
    on_maintain_exit(&mut s);
    assert!(s.flags().contains(ClientFlags::mantain_loop_exited()));
}

#[test]
fn connect_outcomes() {
    let mut s = ClientState::new();
    assert_eq!(after_connect(&mut s, ConnectOutcome::HandshakeFailed), MaintainAction::Stop);
    assert_eq!(after_connect(&mut s, ConnectOutcome::ConnectFailed), MaintainAction::RetryAfterDelay);
    assert_eq!(after_connect(&mut s, ConnectOutcome::TimedOut), MaintainAction::RetryNow);
    assert_eq!(s.bits(), 0);
}

#[test]
fn client_changed_actions() {
    assert_eq!(on_client_changed(ClientFlags::terminated()), ClientChangeAction::Stop);
    assert_eq!(on_client_changed(ClientFlags::read_closed()), ClientChangeAction::NotifyWriterAndForward);
    assert_eq!(on_client_changed(ClientFlags::read_write_closed()), ClientChangeAction::Forward);
    assert_eq!(on_client_changed(ClientFlags::handshaked()), ClientChangeAction::Forward);
}

#[test]
fn server_routes() {
    assert_eq!(route_frame(&Frame::Data(Data::new(StreamId(1), vec![]))), FrameRoute::Forward);
    assert_eq!(route_frame(&Frame::with_headers(StreamId(1), vec![])), FrameRoute::Forward);
    assert_eq!(route_frame(&Frame::Settings(Settings::default())), FrameRoute::AnswerSettings);
    assert_eq!(route_frame(&Frame::Settings(Settings::ack())), FrameRoute::Drop);
    assert_eq!(route_frame(&Frame::GoAway(GoAway::new(StreamId(0), Reason(0)))), FrameRoute::Drop);
    assert_eq!(route_link_changed(LinkFlags::read_closed()), LinkChangeRoute::ReturnToLink);
    assert_eq!(route_link_changed(LinkFlags::read_write_closed()), LinkChangeRoute::Detach);
    assert_eq!(route_link_changed(LinkFlags::attached()), LinkChangeRoute::Ignore);
    assert!(ends_forward_loop(ServerFlags::accept_loop_exited()));
    assert!(!ends_forward_loop(ServerFlags::terminated()));
    let mut s = Settings::default();
    s.set_max_concurrent_streams(Some(3));
    let (echo, ack) = settings_answers(&s);
    assert!(matches!(echo, Frame::Settings(v) if v == s));
    assert!(matches!(ack, Frame::Settings(v) if v.is_ack()));
}

#[test]
fn link_table_read_after_write() {
    let mut t: LinkTable<&str> = LinkTable::new();
    t.insert(Token(4), "a");
    t.insert(Token(7), "b");
    assert_eq!(t.get(Token(4)), Some(&"a"));
    t.insert(Token(4), "c");
    assert_eq!(t.get(Token(4)), Some(&"c"));
    assert_eq!(t.len(), 2);
    assert_eq!(t.remove(Token(4)), Some("c"));
    assert_eq!(t.get(Token(4)), None);
    assert_eq!(t.remove(Token(4)), None);
    assert_eq!(t.tokens(), vec![Token(7)]);
}

#[test]
fn link_detached_once_either_order() {
    let mut reader_first = LinkState::new();
    reader_first.add_flags(LinkFlags::read_closed());
    assert_eq!(route_link_changed(reader_first.flags()), LinkChangeRoute::ReturnToLink);
    reader_first.add_flags(LinkFlags::write_closed());
    assert_eq!(route_link_changed(reader_first.flags()), LinkChangeRoute::Detach);
    let mut writer_first = LinkState::new();
    writer_first.add_flags(LinkFlags::write_closed());
    assert_eq!(route_link_changed(writer_first.flags()), LinkChangeRoute::Ignore);
    writer_first.add_flags(LinkFlags::read_closed());
    assert_eq!(route_link_changed(writer_first.flags()), LinkChangeRoute::Detach);
}

#[test]
fn error_conversions() {
    assert_eq!(Error::from(Reason(3)).reason(), Some(Reason(3)));
    assert_eq!(Error::from(UserError).reason(), None);
    let io = std::io::Error::new(std::io::ErrorKind::Other, "x");
    assert_eq!(Error::from(io).reason(), None);
    assert_eq!(u32::from(Reason::from(6u32)), 6);
}

#[test]
fn link_attach_then_close_forgets_link() {
    let mut t: LinkTable<u8> = LinkTable::new();
    t.insert(Token(1), 10);
    let flags = attach_link(&mut t, Token(9), 99);
    assert_eq!(flags, LinkFlags::attached());
    assert_eq!(t.get(Token(9)), Some(&99));
    let mut s = LinkState::new();
    s.add_flags(LinkFlags::read_closed());
    assert_eq!(on_link_changed(&mut t, s.flags(), Token(9)), LinkChangeRoute::ReturnToLink);
    assert_eq!(t.get(Token(9)), Some(&99));
    s.add_flags(LinkFlags::write_closed());
    assert_eq!(on_link_changed(&mut t, s.flags(), Token(9)), LinkChangeRoute::Detach);
    assert_eq!(t.get(Token(9)), None);
    assert_eq!(t.tokens(), vec![Token(1)]);
}

#[test]
fn link_reads_and_decodes() {
    let data = Head::new(Kind::Data, 0x1, StreamId(1));
    assert_eq!(link_read(data, 7), LinkRead::Payload(7));
    let wu = Head::new(Kind::WindowUpdate, 0, StreamId(1));
    assert_eq!(link_read(wu, 100), LinkRead::Payload(4));
    assert_eq!(link_read(Head::new(Kind::Ping, 0, StreamId(0)), 8), LinkRead::Unsupported);
    let f = decode_link_frame(data, vec![1, 2]).unwrap();
    assert!(matches!(f, Frame::Data(ref d) if d.as_bytes() == [1, 2] && !d.is_end_stream()));
    let f = decode_link_frame(wu, vec![0, 0, 0, 5]).unwrap();
    assert!(matches!(f, Frame::WindowUpdate(ref w) if w.size_increment() == 5));
    let bad = Head::new(Kind::Settings, 0, StreamId(0));
    assert!(matches!(decode_link_frame(bad, vec![0; 5]), Err(FrameError::InvalidPayloadLength)));
}

#[test]
fn link_flags_added_after_set() {
    let mut s = LinkState::new();
    s.set_flags(LinkFlags::attached());
    s.add_flags(LinkFlags::read_closed());
    assert_eq!(s.flags(), LinkFlags::attached().union(LinkFlags::read_closed()));
    assert_eq!(s.flags().bits(), 0x5);
    s.add_flags(LinkFlags::write_closed());
    assert_eq!(s.flags().bits(), 0x7);
    let mut c = ClientState::from_bits(0xffff_ff00);
    c.set_flags(ClientFlags::handshaked());
    c.add_flags(ClientFlags::reconnected());
    assert_eq!(c.flags().bits(), 0x24);
    assert_eq!(ClientFlags::from_bits_truncate(0xffff_ffff).bits(), 0x3f);
}

#[test]
fn accept_steps() {
    assert_eq!(accept_step(AcceptEvent::Accepted, false), AcceptStep::Register);
    assert_eq!(accept_step(AcceptEvent::Accepted, true), AcceptStep::Register);
    assert_eq!(accept_step(AcceptEvent::Ended, false), AcceptStep::Stop);
    assert_eq!(accept_step(AcceptEvent::TimedOut, false), AcceptStep::Continue);
    assert_eq!(accept_step(AcceptEvent::TimedOut, true), AcceptStep::Stop);
}

#[test]
fn writer_steps() {
    assert_eq!(link_writer_step(WriterEvent::Bytes), WriterStep::Write);
    assert_eq!(link_writer_step(WriterEvent::Frame), WriterStep::Write);
    assert_eq!(link_writer_step(WriterEvent::WriteFailed), WriterStep::Stop);
    assert_eq!(link_writer_step(WriterEvent::Other), WriterStep::Skip);
    assert_eq!(link_writer_step(WriterEvent::Changed(LinkFlags::read_closed())), WriterStep::Stop);
    assert_eq!(link_writer_step(WriterEvent::Changed(LinkFlags::read_write_closed())), WriterStep::Stop);
    assert_eq!(link_writer_step(WriterEvent::Changed(LinkFlags::attached())), WriterStep::Skip);
    assert_eq!(client_writer_step(WriterEvent::Frame), WriterStep::Write);
    assert_eq!(client_writer_step(WriterEvent::WriteFailed), WriterStep::Stop);
    assert_eq!(client_writer_step(WriterEvent::Changed(ClientFlags::read_closed())), WriterStep::Stop);
    assert_eq!(client_writer_step(WriterEvent::Changed(ClientFlags::write_closed())), WriterStep::Skip);
    assert_eq!(client_writer_step(WriterEvent::Other), WriterStep::Skip);
}

#[test]
fn link_table_keeps_attached_links() {
    let mut table: LinkTable<u32> = LinkTable::new();
    attach_link(&mut table, Token(1), 10);
    attach_link(&mut table, Token(2), 20);
    on_link_changed(&mut table, LinkFlags::read_closed(), Token(1));
    assert_eq!(table.len(), 2);
    on_link_changed(&mut table, LinkFlags::read_write_closed(), Token(1));
    assert_eq!(table.tokens(), vec![Token(2)]);
    attach_link(&mut table, Token(1), 11);
    assert_eq!(table.len(), 2);
    assert_eq!(table.get(Token(1)), Some(&11));
    on_link_changed(&mut table, LinkFlags::read_write_closed(), Token(2));
    assert_eq!(table.tokens(), vec![Token(1)]);
}
