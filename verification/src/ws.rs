//! The per-connection lifecycle: registration, handshake, streaming,
//! termination.
//!
//! A connection starts `Registered` (an id exists, no channel yet).  Once
//! the transport upgrade completes it is `Handshaking`: the hub broadcasts
//! `Lock` to pause UI input fleet-wide, refreshes the store from hardware,
//! sends the resulting snapshot — or an error carrying the last-known
//! snapshot — to this client alone, and broadcasts `Unlock`.  This mirrors
//! the periodic poll's bracketing, so a newly joining client never observes
//! a mid-write state.  Then the connection is `Streaming` until its read
//! side ends, when it is `Terminated` and its registry entry is removed.

use vstd::prelude::*;

use crate::model::{RTU, RtuView};
use crate::outgoing_event::{
    OutgoingData, OutgoingDataView, OutgoingEvent, OutgoingEventType, OutgoingEventView,
    count_events, opt_str_view, spec_error, spec_lock, spec_rtu_snapshot, spec_unlock,
};

verus! {

use vstd::string::StringExecFns;

/// Where a connection's state machine stands.
#[derive(Debug, Clone, Copy, PartialEq, Eq, Structural)]
pub enum ConnState {
    /// The client id exists; no channel is attached yet.
    Registered,
    /// The channel is attached; the initial snapshot is on its way.
    Handshaking,
    /// The read loop is active.
    Streaming,
    /// The connection is gone; its registry entry must be removed.
    Terminated,
}

/// Who an outbound event is for.
#[derive(Debug, Clone, Copy, PartialEq, Eq, Structural)]
pub enum Audience {
    /// Broadcast to every attached client.
    AllClients,
    /// Send to this connection's client only.
    ThisClient,
}

/// Mathematical model of an [`Outbound`].
pub struct OutboundView {
    pub audience: Audience,
    pub event: OutgoingEventView,
}

/// An outbound event together with who it is for.
#[derive(Debug)]
pub struct Outbound {
    pub audience: Audience,
    pub event: OutgoingEvent,
}

impl View for Outbound {
    type V = OutboundView;

    open spec fn view(&self) -> OutboundView {
        OutboundView { audience: self.audience, event: self.event@ }
    }
}

/// The models of a sequence of outbound events.
pub open spec fn outbound_views(s: Seq<Outbound>) -> Seq<OutboundView> {
    s.map_values(|o: Outbound| o@)
}

/// The broadcast part of a mixed outbound sequence, in order.
pub open spec fn spec_broadcasts(s: Seq<OutboundView>) -> Seq<OutgoingEventView>
    decreases s.len(),
{
    if s.len() == 0 {
        Seq::empty()
    } else {
        spec_broadcasts(s.drop_last()) + (if s.last().audience == Audience::AllClients {
            seq![s.last().event]
        } else {
            Seq::empty()
        })
    }
}

/// The message sequence of one handshake, given the store `rtu` after the
/// refresh attempt and the refresh error, if the attempt failed.
pub open spec fn spec_handshake_events(rtu: RtuView, refresh_error: Option<Seq<char>>) -> Seq<
    OutboundView,
> {
    seq![
        OutboundView { audience: Audience::AllClients, event: spec_lock() },
        OutboundView {
            audience: Audience::ThisClient,
            event: match refresh_error {
                None => spec_rtu_snapshot(rtu),
                Some(e) => spec_error(
                    "Couldn't update RTU when initializing: "@ + e,
                    OutgoingDataView::Rtu(rtu),
                ),
            },
        },
        OutboundView { audience: Audience::AllClients, event: spec_unlock() },
    ]
}

/// One client connection's state machine.
#[derive(Debug)]
pub struct Connection {
    /// The id under which this connection's client registered.
    pub client_id: String,
    /// Where the connection stands.
    pub state: ConnState,
}

impl Connection {
    /// A fresh connection for a registered client id.
    pub fn new(client_id: String) -> (c: Self)
        ensures
            c.client_id == client_id,
            c.state == ConnState::Registered,
    {
        Connection { client_id, state: ConnState::Registered }
    }

    /// The transport upgrade completed: the handshake may begin.
    pub fn begin_handshake(&mut self)
        requires
            old(self).state == ConnState::Registered,
        ensures
            final(self).client_id == old(self).client_id,
            final(self).state == ConnState::Handshaking,
    {
        self.state = ConnState::Handshaking;
    }

    /// The messages the handshake owes, in order: `Lock` to everyone, the
    /// snapshot (or the refresh error, with the last-known snapshot) to
    /// this client alone, `Unlock` to everyone.  `rtu` is the store after
    /// the refresh attempt; `refresh_error` the error text, if it failed.
    pub fn handshake_events(&self, rtu: &RTU, refresh_error: Option<String>) -> (r: Vec<Outbound>)
        requires
            self.state == ConnState::Handshaking,
        ensures
            outbound_views(r@) == spec_handshake_events(rtu@, opt_str_view(refresh_error)),
    {
        let middle: OutgoingEvent = match refresh_error {
            None => OutgoingEvent::rtu(rtu),
            Some(e) => OutgoingEvent::error(
                "Couldn't update RTU when initializing: ".to_owned().concat(e.as_str()),
                OutgoingData::RTU(rtu.clone()),
            ),
        };
        let mut r: Vec<Outbound> = Vec::new();
        r.push(Outbound { audience: Audience::AllClients, event: OutgoingEvent::lock() });
        r.push(Outbound { audience: Audience::ThisClient, event: middle });
        r.push(Outbound { audience: Audience::AllClients, event: OutgoingEvent::unlock() });
        proof {
            assert(outbound_views(r@) =~= spec_handshake_events(rtu@, opt_str_view(refresh_error)));
        }
        r
    }

    /// The handshake is over: the read loop takes the connection.
    pub fn start_streaming(&mut self)
        requires
            old(self).state == ConnState::Handshaking,
        ensures
            final(self).client_id == old(self).client_id,
            final(self).state == ConnState::Streaming,
    {
        self.state = ConnState::Streaming;
    }

    /// The read side ended, by error or by close; the caller must remove
    /// the client from the registry.
    pub fn terminate(&mut self)
        ensures
            final(self).client_id == old(self).client_id,
            final(self).state == ConnState::Terminated,
    {
        self.state = ConnState::Terminated;
    }
}

/// Law: the handshake broadcasts exactly one `Lock` and, after it, exactly
/// one `Unlock`, and broadcasts nothing else — the snapshot between them
/// goes to the joining client alone, so no snapshot or result is ever
/// broadcast between the store refresh and the `Unlock`.
pub proof fn lemma_handshake_lock_unlock(rtu: RtuView, refresh_error: Option<Seq<char>>)
    ensures
        ({
            let b = spec_broadcasts(spec_handshake_events(rtu, refresh_error));
            b.len() == 2 && b[0] == spec_lock() && b[1] == spec_unlock() && count_events(
                b,
                OutgoingEventType::Lock,
            ) == 1 && count_events(b, OutgoingEventType::Unlock) == 1
        }),
{
    let h = spec_handshake_events(rtu, refresh_error);
    let h2 = h.drop_last();
    let h1 = h2.drop_last();
    let h0 = h1.drop_last();
    assert(h2 =~= seq![h[0], h[1]]);
    assert(h1 =~= seq![h[0]]);
    assert(h0 =~= Seq::<OutboundView>::empty());
    assert(spec_broadcasts(h0) =~= Seq::<OutgoingEventView>::empty());
    assert(h1.last() == h[0] && h[0].audience == Audience::AllClients);
    assert(spec_broadcasts(h1) =~= seq![spec_lock()]);
    assert(h2.last() == h[1] && h[1].audience == Audience::ThisClient);
    assert(spec_broadcasts(h2) =~= seq![spec_lock()]);
    assert(h.last() == h[2] && h[2].audience == Audience::AllClients);
    let b = spec_broadcasts(h);
    assert(b =~= seq![spec_lock(), spec_unlock()]);
    let b1 = b.drop_last();
    let b0 = b1.drop_last();
    assert(b1 =~= seq![spec_lock()]);
    assert(b0 =~= Seq::<OutgoingEventView>::empty());
    assert(count_events(b0, OutgoingEventType::Lock) == 0);
    assert(count_events(b0, OutgoingEventType::Unlock) == 0);
    assert(b1.last() == spec_lock());
    assert(count_events(b1, OutgoingEventType::Lock) == 1);
    assert(count_events(b1, OutgoingEventType::Unlock) == 0);
    assert(b.last() == spec_unlock());
    assert(count_events(b, OutgoingEventType::Lock) == 1);
    assert(count_events(b, OutgoingEventType::Unlock) == 1);
}

} // verus!
