//! The decisions a server's forward loop makes.
use super::frame::settings::spec_ack_settings;
use super::frame::{Frame, FrameModel, Settings};
use super::link::{spec_link_flags, LinkFlags};
use super::token::Token;
use std::collections::HashMap;
use vstd::prelude::*;

verus! {

/// Flags that describe the state of the server.
#[derive(Debug, Clone, Copy, PartialEq, Eq, Structural)]
pub struct ServerFlags {
    bits: u32,
}

impl View for ServerFlags {
    type V = u32;

    closed spec fn view(&self) -> u32 {
        self.bits
    }
}

impl ServerFlags {
    /// The accept loop was exited.
    pub fn accept_loop_exited() -> (r: Self)
        ensures
            r@ == 0x1,
    {
        ServerFlags { bits: 0x1 }
    }

    /// The forward loop was exited.
    pub fn forward_loop_exited() -> (r: Self)
        ensures
            r@ == 0x2,
    {
        ServerFlags { bits: 0x2 }
    }

    /// The server has been shut down: both loops exited.
    pub fn terminated() -> (r: Self)
        ensures
            r@ == 0x3,
    {
        ServerFlags { bits: 0x3 }
    }

    /// The raw bits.
    pub fn bits(&self) -> (r: u32)
        ensures
            r == self@,
    {
        self.bits
    }
}

/// What the accept loop's wait for a connection gave.
#[derive(Debug, Clone, Copy, PartialEq, Eq, Structural)]
pub enum AcceptEvent {
    /// A connection was accepted.
    Accepted,
    /// The listener's stream of connections ended or failed.
    Ended,
    /// No connection came within the wait.
    TimedOut,
}

/// What the accept loop does next.
#[derive(Debug, Clone, Copy, PartialEq, Eq, Structural)]
pub enum AcceptStep {
    /// Make a link of the connection and hand it to the forward loop, then
    /// wait again.
    Register,
    /// Leave the accept loop.
    Stop,
    /// Wait again.
    Continue,
}

/// Decides what the accept loop does after a wait: an accepted connection
/// is registered, the end of the listener's stream stops the loop, and a
/// wait that timed out stops it only once a shutdown was asked for.
pub fn accept_step(event: AcceptEvent, shutdown_requested: bool) -> (r: AcceptStep)
    ensures
        event == AcceptEvent::Accepted ==> r == AcceptStep::Register,
        event == AcceptEvent::Ended ==> r == AcceptStep::Stop,
        event == AcceptEvent::TimedOut ==> r == (if shutdown_requested {
            AcceptStep::Stop
        } else {
            AcceptStep::Continue
        }),
{
    match event {
        AcceptEvent::Accepted => AcceptStep::Register,
        AcceptEvent::Ended => AcceptStep::Stop,
        AcceptEvent::TimedOut => if shutdown_requested {
            AcceptStep::Stop
        } else {
            AcceptStep::Continue
        },
    }
}

/// What the forward loop does with a frame that a link read.
#[derive(Debug, Clone, Copy, PartialEq, Eq, Structural)]
pub enum FrameRoute {
    /// Hand the frame to the user.
    Forward,
    /// Answer a peer's SETTINGS on its link: send its settings back, then an
    /// acknowledgement.
    AnswerSettings,
    /// Drop the frame.
    Drop,
}

/// Decides what the forward loop does with a frame: DATA and HEADERS go to
/// the user, SETTINGS that are not an acknowledgement are answered, the rest
/// is dropped.
pub fn route_frame(frame: &Frame) -> (r: FrameRoute)
    ensures
        r == (match frame@ {
            FrameModel::Data(_) => FrameRoute::Forward,
            FrameModel::Headers(_) => FrameRoute::Forward,
            FrameModel::Settings(m) => if m.ack {
                FrameRoute::Drop
            } else {
                FrameRoute::AnswerSettings
            },
            _ => FrameRoute::Drop,
        }),
{
    match frame {
        Frame::Data(_) => FrameRoute::Forward,
        Frame::Headers(_) => FrameRoute::Forward,
        Frame::Settings(v) => {
            if !v.is_ack() {
                FrameRoute::AnswerSettings
            } else {
                FrameRoute::Drop
            }
        },
        _ => FrameRoute::Drop,
    }
}

/// The two frames that answer a peer's settings: the same settings, then an
/// acknowledgement.
pub fn settings_answers(v: &Settings) -> (r: (Frame, Frame))
    ensures
        r.0@ == FrameModel::Settings(v@),
        r.1@ == FrameModel::Settings(spec_ack_settings()),
{
    (Frame::Settings(*v), Frame::Settings(Settings::ack()))
}

/// What the forward loop does with a report that a link's flags changed.
#[derive(Debug, Clone, Copy, PartialEq, Eq, Structural)]
pub enum LinkChangeRoute {
    /// Its reader closed: send the report to the link, so that its writer
    /// stops too.
    ReturnToLink,
    /// Both closed: forget the link and tell the user it is detached.
    Detach,
    /// Nothing to do.
    Ignore,
}

/// The route for reported link flags.
pub open spec fn spec_link_change_route(bits: u32) -> LinkChangeRoute {
    if bits == 0x1 {
        LinkChangeRoute::ReturnToLink
    } else if bits == 0x3 {
        LinkChangeRoute::Detach
    } else {
        LinkChangeRoute::Ignore
    }
}

/// Decides what the forward loop does with reported link flags.
pub fn route_link_changed(flags: LinkFlags) -> (r: LinkChangeRoute)
    ensures
        r == spec_link_change_route(flags@),
{
    if flags.bits() == 0x1 {
        LinkChangeRoute::ReturnToLink
    } else if flags.bits() == 0x3 {
        LinkChangeRoute::Detach
    } else {
        LinkChangeRoute::Ignore
    }
}

/// Returns true when reported server flags end the forward loop: the accept
/// loop has exited.
pub fn ends_forward_loop(flags: ServerFlags) -> (r: bool)
    ensures
        r == (flags@ == 0x1),
{
    flags == ServerFlags::accept_loop_exited()
}

/// The links a server knows, each under the number of its token.
pub struct LinkTable<V> {
    links: HashMap<usize, V>,
}

impl<V> LinkTable<V> {
    /// The link known under each token.
    pub closed spec fn spec_map(&self) -> Map<Token, V> {
        Map::new(|t: Token| self.links@.contains_key(t.0), |t: Token| self.links@[t.0])
    }

    /// An empty table.
    pub fn new() -> (r: Self)
        ensures
            r.spec_map() == Map::<Token, V>::empty(),
    {
        let r = LinkTable { links: HashMap::new() };
        assert(r.spec_map() =~= Map::<Token, V>::empty());
        r
    }

    /// Records `link` under `token`, in place of any link known under it.
    pub fn insert(&mut self, token: Token, link: V)
        ensures
            final(self).spec_map() == old(self).spec_map().insert(token, link),
    {
        broadcast use vstd::std_specs::hash::group_hash_axioms;

        let ghost old_map = self.spec_map();
        let _ = self.links.insert(token.0, link);
        proof {
            assert forall|t: Token| #[trigger] self.links@.contains_key(t.0) implies old_map.insert(
                token,
                link,
            ).contains_key(t) by {
                if t.0 != token.0 {
                    assert(old_map.contains_key(t));
                }
            }
            assert(self.spec_map() =~= old_map.insert(token, link));
        }
    }

    /// Forgets the link known under `token`, returning it.
    pub fn remove(&mut self, token: Token) -> (r: Option<V>)
        ensures
            final(self).spec_map() == old(self).spec_map().remove(token),
            r == (if old(self).spec_map().contains_key(token) {
                Some(old(self).spec_map()[token])
            } else {
                None::<V>
            }),
    {
        broadcast use vstd::std_specs::hash::group_hash_axioms;

        let ghost old_map = self.spec_map();
        let r = self.links.remove(&token.0);
        proof {
            assert forall|t: Token| #[trigger] self.links@.contains_key(t.0) implies old_map.remove(
                token,
            ).contains_key(t) by {
                assert(t.0 != token.0);
                assert(old_map.contains_key(t));
            }
            assert(self.spec_map() =~= old_map.remove(token));
        }
        r
    }

    /// The link known under `token`.
    pub fn get(&self, token: Token) -> (r: Option<&V>)
        ensures
            r == (if self.spec_map().contains_key(token) {
                Some(&self.spec_map()[token])
            } else {
                None::<&V>
            }),
    {
        broadcast use vstd::std_specs::hash::group_hash_axioms;

        self.links.get(&token.0)
    }

    /// The tokens of the known links, each once, in the order the map
    /// gives its keys.
    pub fn tokens(&self) -> (r: Vec<Token>)
        ensures
            r@.no_duplicates(),
            forall|t: Token| r@.contains(t) <==> self.spec_map().contains_key(t),
    {
        broadcast use vstd::std_specs::hash::group_hash_axioms;

        let mut r: Vec<Token> = Vec::new();
        let keys = self.links.keys();
        let ghost all = vstd::std_specs::iter::IteratorSpec::remaining(&keys);
        for k in it: keys
            invariant
                all == it.seq(),
                all.unref().to_set() == self.links@.dom(),
                all.no_duplicates(),
                r@.len() == it.index(),
                forall|i: int| 0 <= i < it.index() ==> r@[i] == Token(*all[i]),
        {
            r.push(Token(*k));
        }
        proof {
            assert forall|a: int, b: int| 0 <= a < r@.len() && 0 <= b < r@.len() && a != b implies r@[a]
                != r@[b] by {
                assert(all[a] != all[b]);
            }
            assert forall|t: Token| r@.contains(t) <==> self.spec_map().contains_key(t) by {
                broadcast use vstd::seq_lib::group_seq_properties;

                if r@.contains(t) {
                    let i = r@.index_of(t);
                    assert(all.unref()[i] == *all[i]);
                    assert(all.unref().contains(*all[i]));
                    assert(all.unref().to_set().contains(*all[i]));
                }
                if self.links@.contains_key(t.0) {
                    assert(all.unref().to_set().contains(t.0));
                    assert(all.unref().contains(t.0));
                    let j = all.unref().index_of(t.0);
                    assert(*all[j] == t.0);
                    assert(r@[j] == t);
                }
            }
        }
        r
    }

    /// The number of known links.
    pub fn len(&self) -> (r: usize)
        ensures
            r == self.spec_map().len(),
    {
        broadcast use vstd::std_specs::hash::group_hash_axioms;

        proof {
            let f = |k: usize| Token(k);
            assert(self.spec_map().dom() =~= self.links@.dom().map(f));
            assert(vstd::relations::injective_on(f, self.links@.dom()));
            vstd::set_lib::lemma_map_size(self.links@.dom(), self.spec_map().dom(), f);
        }
        self.links.len()
    }
}

/// What changes the links a server knows: a new link, or a link's report of
/// its flags.
pub enum LinkEvent<V> {
    /// A link was accepted under this token.
    Attached(Token, V),
    /// The link under this token reported these flags.
    Reported(Token, LinkFlags),
}

/// The links known after an event.
pub open spec fn spec_apply_event<V>(m: Map<Token, V>, e: LinkEvent<V>) -> Map<Token, V> {
    match e {
        LinkEvent::Attached(t, link) => m.insert(t, link),
        LinkEvent::Reported(t, flags) => spec_after_route(m, spec_link_change_route(flags@), t),
    }
}

/// The links known after a sequence of events, taken in order.
pub open spec fn spec_apply_events<V>(m: Map<Token, V>, es: Seq<LinkEvent<V>>) -> Map<Token, V>
    decreases es.len(),
{
    if es.len() == 0 {
        m
    } else {
        spec_apply_event(spec_apply_events(m, es.drop_last()), es.last())
    }
}

/// Whether the event attaches a link under `t`.
pub open spec fn spec_attaches<V>(e: LinkEvent<V>, t: Token) -> bool {
    e matches LinkEvent::Attached(t2, _) && t2 == t
}

/// Whether the event detaches the link under `t`: its report says that its
/// reader and its writer are both closed.
pub open spec fn spec_detaches<V>(e: LinkEvent<V>, t: Token) -> bool {
    e matches LinkEvent::Reported(t2, flags) && t2 == t && spec_link_change_route(flags@)
        == LinkChangeRoute::Detach
}

/// Whether the event at `i` attaches a link under `t` that no later event
/// detaches.
pub open spec fn spec_attached_since<V>(es: Seq<LinkEvent<V>>, t: Token, i: int) -> bool {
    &&& 0 <= i < es.len()
    &&& spec_attaches(es[i], t)
    &&& forall|j: int| i < j < es.len() ==> !spec_detaches(#[trigger] es[j], t)
}

/// The tokens of the links attached and not detached since.
pub open spec fn spec_live_links<V>(es: Seq<LinkEvent<V>>) -> Set<Token> {
    Set::new(|t: Token| exists|i: int| #[trigger] spec_attached_since(es, t, i))
}

/// A server that starts with no link knows, after any sequence of events,
/// exactly the links that were attached and not detached since.
pub proof fn lemma_table_tracks_live_links<V>(es: Seq<LinkEvent<V>>)
    ensures
        spec_apply_events(Map::<Token, V>::empty(), es).dom() == spec_live_links(es),
    decreases es.len(),
{
    if es.len() == 0 {
        assert(spec_live_links(es) =~= Set::<Token>::empty());
    } else {
        let prev = es.drop_last();
        let e = es.last();
        let n: int = es.len() - 1;
        lemma_table_tracks_live_links(prev);
        let before = spec_apply_events(Map::<Token, V>::empty(), prev);
        assert(spec_apply_events(Map::<Token, V>::empty(), es) == spec_apply_event(before, e));
        assert forall|t: Token| #[trigger] spec_live_links(es).contains(t) == spec_apply_event(before, e).dom().contains(t) by {
            if spec_live_links(es).contains(t) {
                let i: int = choose|i: int| #[trigger] spec_attached_since(es, t, i);
                if i < n {
                    assert(es[i] == prev[i]);
                    assert forall|j: int| i < j < prev.len() implies !spec_detaches(#[trigger] prev[j], t) by {
                        assert(prev[j] == es[j]);
                    }
                    assert(spec_attached_since(prev, t, i));
                    assert(!spec_detaches(es[n], t));
                }
            }
            if spec_apply_event(before, e).dom().contains(t) {
                if spec_attaches(e, t) {
                    assert(spec_attached_since(es, t, n));
                } else {
                    assert(before.dom().contains(t));
                    assert(spec_live_links(prev).contains(t));
                    let i: int = choose|i: int| #[trigger] spec_attached_since(prev, t, i);
                    assert(!spec_detaches(e, t));
                    assert forall|j: int| i < j < es.len() implies !spec_detaches(#[trigger] es[j], t) by {
                        if j < n {
                            assert(prev[j] == es[j]);
                        }
                    }
                    assert(spec_attached_since(es, t, i));
                }
            }
        }
        assert(spec_live_links(es) =~= spec_apply_event(before, e).dom());
    }
}

/// Records a new link under its token, and gives the flags to report to the
/// user: `ATTACHED`.
pub fn attach_link<V>(table: &mut LinkTable<V>, token: Token, link: V) -> (r: LinkFlags)
    ensures
        final(table).spec_map() == old(table).spec_map().insert(token, link),
        final(table).spec_map() == spec_apply_event(old(table).spec_map(), LinkEvent::Attached(token, link)),
        r@ == 0x4,
{
    table.insert(token, link);
    LinkFlags::attached()
}

/// The table after a link's report took its route: a detached link is
/// forgotten, any other report leaves the table as it is.
pub open spec fn spec_after_route<V>(m: Map<Token, V>, route: LinkChangeRoute, token: Token) -> Map<Token, V> {
    if route == LinkChangeRoute::Detach {
        m.remove(token)
    } else {
        m
    }
}

/// Takes a link's report of its flags: decides its route, and forgets the
/// link when it is detached.
pub fn on_link_changed<V>(table: &mut LinkTable<V>, flags: LinkFlags, token: Token) -> (r: LinkChangeRoute)
    ensures
        r == spec_link_change_route(flags@),
        final(table).spec_map() == spec_after_route(old(table).spec_map(), r, token),
        final(table).spec_map() == spec_apply_event(old(table).spec_map(), LinkEvent::Reported(token, flags)),
{
    let route = route_link_changed(flags);
    if route == LinkChangeRoute::Detach {
        let _ = table.remove(token);
    }
    route
}

/// A link that is attached and then reports the closing of its reader and
/// its writer, in either order, is gone from the table afterwards, and the
/// other links are as they were.
pub proof fn lemma_attach_then_close<V>(m: Map<Token, V>, token: Token, link: V)
    ensures
        ({
            let m1 = m.insert(token, link);
            let s1 = spec_link_flags(spec_link_flags(0) | 1);
            let s2 = spec_link_flags(s1 | 2);
            let m2 = spec_after_route(m1, spec_link_change_route(s1), token);
            let m3 = spec_after_route(m2, spec_link_change_route(s2), token);
            m3 == m.remove(token)
        }),
        ({
            let m1 = m.insert(token, link);
            let s1 = spec_link_flags(spec_link_flags(0) | 2);
            let s2 = spec_link_flags(s1 | 1);
            let m2 = spec_after_route(m1, spec_link_change_route(s1), token);
            let m3 = spec_after_route(m2, spec_link_change_route(s2), token);
            m3 == m.remove(token)
        }),
{
    lemma_detached_once();
    assert(m.insert(token, link).remove(token) =~= m.remove(token));
}

/// A link that is attached with no flag stored is detached exactly once:
/// its reader and its writer each report the flags they leave when they
/// stop, and in whichever order they stop, only the second report detaches
/// it; when the reader stops first, its report goes back to the link so that
/// the writer stops too.
pub proof fn lemma_detached_once()
    ensures
        spec_link_change_route(spec_link_flags(spec_link_flags(0) | 1)) == LinkChangeRoute::ReturnToLink,
        spec_link_change_route(spec_link_flags(spec_link_flags(spec_link_flags(0) | 1) | 2)) == LinkChangeRoute::Detach,
        spec_link_change_route(spec_link_flags(spec_link_flags(0) | 2)) == LinkChangeRoute::Ignore,
        spec_link_change_route(spec_link_flags(spec_link_flags(spec_link_flags(0) | 2) | 1)) == LinkChangeRoute::Detach,
{
    assert(0u32 & 0xf == 0 && (0u32 | 1) & 0xf == 1 && (0u32 | 2) & 0xf == 2 && (1u32 | 2) & 0xf == 3
        && (2u32 | 1) & 0xf == 3) by (bit_vector);
}

/// Looking a token up after a link was recorded under it gives that link,
/// and leaves every other token as it was; after the link was forgotten,
/// looking the token up gives nothing.
pub proof fn lemma_table_read_after_write<V>(m: Map<Token, V>, token: Token, other: Token, link: V)
    ensures
        m.insert(token, link).contains_key(token),
        m.insert(token, link)[token] == link,
        !m.remove(token).contains_key(token),
        other != token ==> (m.insert(token, link).contains_key(other) == m.contains_key(other)),
        other != token && m.contains_key(other) ==> m.insert(token, link)[other] == m[other],
        other != token ==> (m.remove(token).contains_key(other) == m.contains_key(other)),
{
}

} // verus!
