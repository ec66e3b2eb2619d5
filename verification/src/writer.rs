//! The decisions the writer loops of links and clients make about what they
//! are handed to send.
use super::client::ClientFlags;
use super::link::LinkFlags;
use vstd::prelude::*;

verus! {

/// What a writer loop is handed, or what happened to its last write; `F` is
/// the flags type of the reports it receives.
#[derive(Debug, Clone, Copy, PartialEq, Eq, Structural)]
pub enum WriterEvent<F> {
    /// Raw bytes to send.
    Bytes,
    /// A frame to send.
    Frame,
    /// A report of changed flags.
    Changed(F),
    /// The last write failed.
    WriteFailed,
    /// Anything else.
    Other,
}

/// What a writer loop does next.
#[derive(Debug, Clone, Copy, PartialEq, Eq, Structural)]
pub enum WriterStep {
    /// Send what it was handed.
    Write,
    /// Leave the loop.
    Stop,
    /// Go on to the next item.
    Skip,
}

/// The step of a writer whose reports stop it when `stops` holds of their
/// flags: bytes and frames are written, a failed write or a stopping report
/// ends the loop, anything else is passed over.
pub open spec fn spec_writer_step<F>(event: WriterEvent<F>, stops: spec_fn(F) -> bool) -> WriterStep {
    match event {
        WriterEvent::Bytes => WriterStep::Write,
        WriterEvent::Frame => WriterStep::Write,
        WriterEvent::Changed(f) => if stops(f) {
            WriterStep::Stop
        } else {
            WriterStep::Skip
        },
        WriterEvent::WriteFailed => WriterStep::Stop,
        WriterEvent::Other => WriterStep::Skip,
    }
}

/// Decides the next step of a link's writer: it stops on a report that the
/// link's reader closed (`READ_CLOSED` among the flags) or when a write
/// failed.
pub fn link_writer_step(event: WriterEvent<LinkFlags>) -> (r: WriterStep)
    ensures
        r == spec_writer_step(event, |f: LinkFlags| f@ & 0x1 == 0x1),
{
    match event {
        WriterEvent::Bytes => WriterStep::Write,
        WriterEvent::Frame => WriterStep::Write,
        WriterEvent::Changed(flags) => if flags.contains(LinkFlags::read_closed()) {
            WriterStep::Stop
        } else {
            WriterStep::Skip
        },
        WriterEvent::WriteFailed => WriterStep::Stop,
        WriterEvent::Other => WriterStep::Skip,
    }
}

/// Decides the next step of a client's writer: it stops on a report that
/// the client's reader closed (`READ_CLOSED` among the flags) or when a
/// write failed.
pub fn client_writer_step(event: WriterEvent<ClientFlags>) -> (r: WriterStep)
    ensures
        r == spec_writer_step(event, |f: ClientFlags| f@ & 0x8 == 0x8),
{
    match event {
        WriterEvent::Bytes => WriterStep::Write,
        WriterEvent::Frame => WriterStep::Write,
        WriterEvent::Changed(flags) => if flags.contains(ClientFlags::read_closed()) {
            WriterStep::Stop
        } else {
            WriterStep::Skip
        },
        WriterEvent::WriteFailed => WriterStep::Stop,
        WriterEvent::Other => WriterStep::Skip,
    }
}

} // verus!
