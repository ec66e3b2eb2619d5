//! The state a client keeps, and the decisions its loops make.
use super::frame;
use vstd::prelude::*;

verus! {

/// Every bit a client flag uses.
pub const CLIENT_FLAGS_ALL: u32 = 0x3f;

/// Flags that describe the state of the client.
#[derive(Debug, Clone, Copy, PartialEq, Eq, Structural)]
pub struct ClientFlags {
    bits: u32,
}

impl View for ClientFlags {
    type V = u32;

    closed spec fn view(&self) -> u32 {
        self.bits
    }
}

/// Each named flag uses only the bits of client flags.
proof fn lemma_named_flags()
    by (bit_vector)
    ensures
        0u32 & 0x3f == 0u32,
        0x1u32 & 0x3f == 0x1u32,
        0x2u32 & 0x3f == 0x2u32,
        0x3u32 & 0x3f == 0x3u32,
        0x4u32 & 0x3f == 0x4u32,
        0x8u32 & 0x3f == 0x8u32,
        0x10u32 & 0x3f == 0x10u32,
        0x18u32 & 0x3f == 0x18u32,
        0x20u32 & 0x3f == 0x20u32,
{
}

impl ClientFlags {
    /// Only the bits that name a client flag are ever set.
    #[verifier::type_invariant]
    spec fn names_client_flags(self) -> bool {
        self.bits & CLIENT_FLAGS_ALL == self.bits
    }

    /// No flag.
    pub fn empty() -> (r: Self)
        ensures
            r@ == 0,
    {
        proof {
            lemma_named_flags();
        }
        ClientFlags { bits: 0 }
    }

    /// The maintain loop was exited.
    pub fn mantain_loop_exited() -> (r: Self)
        ensures
            r@ == 0x1,
    {
        proof {
            lemma_named_flags();
        }
        ClientFlags { bits: 0x1 }
    }

    /// The forward loop was exited.
    pub fn forward_loop_exited() -> (r: Self)
        ensures
            r@ == 0x2,
    {
        proof {
            lemma_named_flags();
        }
        ClientFlags { bits: 0x2 }
    }

    /// The client has been shut down: both loops exited.
    pub fn terminated() -> (r: Self)
        ensures
            r@ == 0x3,
    {
        proof {
            lemma_named_flags();
        }
        ClientFlags { bits: 0x3 }
    }

    /// The connection was handshaked.
    pub fn handshaked() -> (r: Self)
        ensures
            r@ == 0x4,
    {
        proof {
            lemma_named_flags();
        }
        ClientFlags { bits: 0x4 }
    }

    /// The reader was closed.
    pub fn read_closed() -> (r: Self)
        ensures
            r@ == 0x8,
    {
        proof {
            lemma_named_flags();
        }
        ClientFlags { bits: 0x8 }
    }

    /// The writer was closed.
    pub fn write_closed() -> (r: Self)
        ensures
            r@ == 0x10,
    {
        proof {
            lemma_named_flags();
        }
        ClientFlags { bits: 0x10 }
    }

    /// The reader and writer are both closed.
    pub fn read_write_closed() -> (r: Self)
        ensures
            r@ == 0x18,
    {
        proof {
            lemma_named_flags();
        }
        ClientFlags { bits: 0x18 }
    }

    /// The connection was reconnected automatically.
    pub fn reconnected() -> (r: Self)
        ensures
            r@ == 0x20,
    {
        proof {
            lemma_named_flags();
        }
        ClientFlags { bits: 0x20 }
    }

    /// The raw bits; only bits that name a client flag are set.
    pub fn bits(&self) -> (r: u32)
        ensures
            r == self@,
            r & CLIENT_FLAGS_ALL == r,
    {
        proof {
            use_type_invariant(self);
        }
        self.bits
    }

    /// Keeps only the bits that name a flag.
    pub fn from_bits_truncate(bits: u32) -> (r: Self)
        ensures
            r@ == bits & CLIENT_FLAGS_ALL,
    {
        assert((bits & 0x3f) & 0x3f == bits & 0x3f) by (bit_vector);
        ClientFlags { bits: bits & CLIENT_FLAGS_ALL }
    }

    /// The flags of both.
    pub fn union(&self, other: Self) -> (r: Self)
        ensures
            r@ == self@ | other@,
    {
        proof {
            use_type_invariant(self);
            use_type_invariant(&other);
        }
        let a = self.bits;
        let b = other.bits;
        assert(a & 0x3f == a && b & 0x3f == b ==> (a | b) & 0x3f == (a | b)) by (bit_vector);
        ClientFlags { bits: a | b }
    }

    /// These flags without those of `other`.
    pub fn difference(&self, other: Self) -> (r: Self)
        ensures
            r@ == self@ & !other@,
    {
        proof {
            use_type_invariant(self);
        }
        let a = self.bits;
        let b = other.bits;
        assert(a & 0x3f == a ==> (a & !b) & 0x3f == (a & !b)) by (bit_vector);
        ClientFlags { bits: a & !b }
    }

    /// Returns true if every flag of `other` is set here.
    pub fn contains(&self, other: Self) -> (r: bool)
        ensures
            r == (self@ & other@ == other@),
    {
        self.bits & other.bits == other.bits
    }

    /// Returns true if the client is newly handshaked: exactly `HANDSHAKED`,
    /// or `HANDSHAKED` and `RECONNECTED`.
    pub fn is_newly_handshaked(&self) -> (r: bool)
        ensures
            r == (self@ == 0x4 || self@ == 0x24),
    {
        self.bits == 0x4 || self.bits == 0x24
    }
}

/// The flags word a client stores.
#[derive(Debug, Clone, Copy, PartialEq, Eq, Structural)]
pub struct ClientState {
    bits: u32,
}

impl View for ClientState {
    /// The stored word.
    type V = u32;

    closed spec fn view(&self) -> u32 {
        self.bits
    }
}

impl ClientState {
    /// A client with no flag stored.
    pub fn new() -> (r: Self)
        ensures
            r@ == 0,
    {
        ClientState { bits: 0 }
    }

    /// The state holding a stored word.
    pub fn from_bits(bits: u32) -> (r: Self)
        ensures
            r@ == bits,
    {
        ClientState { bits }
    }

    /// The stored word.
    pub fn bits(&self) -> (r: u32)
        ensures
            r == self@,
    {
        self.bits
    }

    /// Returns the flags of the client: the stored bits that name a flag.
    pub fn flags(&self) -> (r: ClientFlags)
        ensures
            r@ == self@ & CLIENT_FLAGS_ALL,
    {
        ClientFlags::from_bits_truncate(self.bits)
    }

    /// Adds flags: afterwards the client's flags are those it had together
    /// with `val`.
    pub fn add_flags(&mut self, val: ClientFlags)
        ensures
            final(self)@ == (old(self)@ & CLIENT_FLAGS_ALL) | val@,
            final(self)@ & CLIENT_FLAGS_ALL == (old(self)@ & CLIENT_FLAGS_ALL) | val@,
    {
        let new_val = self.flags().union(val);
        self.bits = new_val.bits();
    }

    /// Removes flags: afterwards the client's flags are those it had
    /// without `val`.
    pub fn remove_flags(&mut self, val: ClientFlags)
        ensures
            final(self)@ == (old(self)@ & CLIENT_FLAGS_ALL) & !val@,
            final(self)@ & CLIENT_FLAGS_ALL == (old(self)@ & CLIENT_FLAGS_ALL) & !val@,
    {
        let new_val = self.flags().difference(val);
        self.bits = new_val.bits();
    }

    /// Clears the flags.
    pub fn clear_flags(&mut self)
        ensures
            final(self)@ == 0,
    {
        self.bits = 0;
    }

    /// Replaces the flags: afterwards the client's flags are `val`.
    pub fn set_flags(&mut self, val: ClientFlags)
        ensures
            final(self)@ == val@,
            final(self)@ & CLIENT_FLAGS_ALL == val@,
    {
        self.bits = val.bits();
    }
}

/// What the forward loop does with a report that the client's flags changed.
#[derive(Debug, Clone, Copy, PartialEq, Eq, Structural)]
pub enum ClientChangeAction {
    /// The maintain loop is gone: stop forwarding.
    Stop,
    /// The reader closed while the writer still runs: tell the writer, then
    /// forward the report.
    NotifyWriterAndForward,
    /// Forward the report.
    Forward,
}

/// Decides what the forward loop does with reported client flags.
pub fn on_client_changed(flags: ClientFlags) -> (r: ClientChangeAction)
    ensures
        r == (if flags@ & 0x1 == 0x1 {
            ClientChangeAction::Stop
        } else if flags@ & 0x8 == 0x8 && flags@ & 0x10 != 0x10 {
            ClientChangeAction::NotifyWriterAndForward
        } else {
            ClientChangeAction::Forward
        }),
{
    if flags.contains(ClientFlags::mantain_loop_exited()) {
        ClientChangeAction::Stop
    } else if flags.contains(ClientFlags::read_closed()) && !flags.contains(ClientFlags::write_closed()) {
        ClientChangeAction::NotifyWriterAndForward
    } else {
        ClientChangeAction::Forward
    }
}

/// How an attempt to connect and handshake ended.
#[derive(Debug, Clone, Copy, PartialEq, Eq, Structural)]
pub enum ConnectOutcome {
    /// Connected, and the server answered the preface with its settings.
    Handshaked,
    /// Connected, but the handshake failed.
    HandshakeFailed,
    /// The connection was refused or failed.
    ConnectFailed,
    /// Connecting took too long.
    TimedOut,
}

/// What the maintain loop does next.
#[derive(Debug, Clone, Copy, PartialEq, Eq, Structural)]
pub enum MaintainAction {
    /// Report the handshake and the server's settings, then run the reader
    /// and the writer until both end.
    StartSession,
    /// Leave the maintain loop.
    Stop,
    /// Try again after the reconnect delay.
    RetryAfterDelay,
    /// Try again at once.
    RetryNow,
}

/// Decides what follows an attempt to connect, and marks a handshake.
pub fn after_connect(state: &mut ClientState, outcome: ConnectOutcome) -> (r: MaintainAction)
    ensures
        outcome == ConnectOutcome::Handshaked ==> r == MaintainAction::StartSession && final(state)@ == (
        old(state)@ & CLIENT_FLAGS_ALL) | 0x4,
        outcome == ConnectOutcome::HandshakeFailed ==> r == MaintainAction::Stop && final(state)@ == old(
        state)@,
        outcome == ConnectOutcome::ConnectFailed ==> r == MaintainAction::RetryAfterDelay && final(state)@
            == old(state)@,
        outcome == ConnectOutcome::TimedOut ==> r == MaintainAction::RetryNow && final(state)@ == old(
        state)@,
{
    match outcome {
        ConnectOutcome::Handshaked => {
            state.add_flags(ClientFlags::handshaked());
            MaintainAction::StartSession
        },
        ConnectOutcome::HandshakeFailed => MaintainAction::Stop,
        ConnectOutcome::ConnectFailed => MaintainAction::RetryAfterDelay,
        ConnectOutcome::TimedOut => MaintainAction::RetryNow,
    }
}

/// Once the reader and the writer of a session have ended: clears their
/// flags, and returns whether to connect again, which only an automatically
/// reconnecting client does, marking itself `RECONNECTED`.
pub fn after_session(state: &mut ClientState, auto_reconnect: bool) -> (r: bool)
    ensures
        r == auto_reconnect,
        !auto_reconnect ==> final(state)@ == (old(state)@ & CLIENT_FLAGS_ALL) & !0x18u32,
        auto_reconnect ==> final(state)@ == ((old(state)@ & CLIENT_FLAGS_ALL) & !0x18u32) | 0x20,
{
    state.remove_flags(ClientFlags::read_write_closed());
    if !auto_reconnect {
        return false;
    }
    let ghost o = old(state)@;
    let ghost b = state@;
    if !state.flags().contains(ClientFlags::reconnected()) {
        state.add_flags(ClientFlags::reconnected());
        assert(b == (o & 0x3f) & !0x18u32 ==> (b & 0x3f) | 0x20 == b | 0x20) by (bit_vector);
    } else {
        assert(b == (o & 0x3f) & !0x18u32 && (b & 0x3f) & 0x20 == 0x20 ==> b | 0x20 == b) by (bit_vector);
    }
    true
}

/// Marks that the maintain loop has exited.
pub fn on_maintain_exit(state: &mut ClientState)
    ensures
        final(state)@ == (old(state)@ & CLIENT_FLAGS_ALL) | 0x1,
{
    state.add_flags(ClientFlags::mantain_loop_exited());
}

/// The states a client goes through between sessions: no flag, or only
/// `HANDSHAKED` and `RECONNECTED`.
pub open spec fn spec_between_sessions(bits: u32) -> bool {
    bits == 0 || bits == 0x4 || bits == 0x20 || bits == 0x24
}

/// Every handshake, the first and each after an automatic reconnection,
/// leaves the client newly handshaked; and once the reader and the writer
/// of that session have closed, an automatically reconnecting client is back
/// between sessions.
pub proof fn lemma_session_cycle(bits: u32)
    requires
        spec_between_sessions(bits),
    ensures
        ({
            let h = (bits & CLIENT_FLAGS_ALL) | 0x4;
            &&& h == 0x4 || h == 0x24
            &&& spec_between_sessions(
                ((((((h & CLIENT_FLAGS_ALL) | 0x8) & CLIENT_FLAGS_ALL) | 0x10) & CLIENT_FLAGS_ALL) & !0x18u32)
                    | 0x20,
            )
        }),
{
    let h = (bits & 0x3f) | 0x4;
    let e = ((((((h & 0x3f) | 0x8) & 0x3f) | 0x10) & 0x3f) & !0x18u32) | 0x20;
    assert((h == 0x4 || h == 0x24) && e == 0x24) by (bit_vector)
        requires
            bits == 0 || bits == 0x4 || bits == 0x20 || bits == 0x24,
            h == (bits & 0x3f) | 0x4,
            e == ((((((h & 0x3f) | 0x8) & 0x3f) | 0x10) & 0x3f) & !0x18u32) | 0x20,
    ;
}

/// After flags are added the client's flags contain them, and after flags
/// are removed it has none of them, whatever it stored before (for flags
/// that name client flags).
pub proof fn lemma_add_remove_flags(stored: u32, val: u32)
    requires
        val & CLIENT_FLAGS_ALL == val,
    ensures
        (((stored & CLIENT_FLAGS_ALL) | val) & CLIENT_FLAGS_ALL) & val == val,
        (((stored & CLIENT_FLAGS_ALL) & !val) & CLIENT_FLAGS_ALL) & val == 0,
{
    assert(val & 0x3f == val ==> (((stored & 0x3f) | val) & 0x3f) & val == val && (((stored & 0x3f) & !val)
        & 0x3f) & val == 0) by (bit_vector);
}

/// Why the handshake with a server failed.
#[derive(Debug)]
pub enum HandshakeError {
    /// The server's SETTINGS frame is invalid.
    Frame(frame::Error),
    /// The server did not answer with a SETTINGS frame.
    UnknownProtocol,
    /// Reading or writing failed.
    Io(std::io::Error),
}

impl From<frame::Error> for HandshakeError {
    fn from(val: frame::Error) -> (r: Self) {
        HandshakeError::Frame(val)
    }
}

impl vstd::std_specs::convert::FromSpecImpl<frame::Error> for HandshakeError {
    open spec fn obeys_from_spec() -> bool {
        true
    }

    open spec fn from_spec(val: frame::Error) -> HandshakeError {
        HandshakeError::Frame(val)
    }
}

impl From<std::io::Error> for HandshakeError {
    fn from(val: std::io::Error) -> (r: Self) {
        HandshakeError::Io(val)
    }
}

impl vstd::std_specs::convert::FromSpecImpl<std::io::Error> for HandshakeError {
    open spec fn obeys_from_spec() -> bool {
        true
    }

    open spec fn from_spec(val: std::io::Error) -> HandshakeError {
        HandshakeError::Io(val)
    }
}

} // verus!
