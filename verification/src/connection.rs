//! The life of one client connection, as a state machine.
//!
//! Whoever owns the socket feeds the machine what happened and performs the
//! action that it answers with. The machine never waits and never writes:
//! it only decides.

use vstd::prelude::*;

verus! {

/// Where a connection stands.
#[derive(Clone, Copy, Debug, PartialEq, Eq, Structural)]
pub enum ConnectionState {
    /// The transport connection arrived and has its id.
    Accepted,
    /// The id and the peer address are in the registry.
    Registered,
    /// The connection has its receive handle on the broadcast channel.
    Subscribed,
    /// Messages are delivered as they are published.
    Streaming,
    /// The connection fell behind and was told so; it resumes with the next
    /// message.
    Lagging,
    /// The connection is over and out of the registry.
    Closed,
}

/// What can happen to a connection.
#[derive(Clone, Debug)]
pub enum ConnectionEvent {
    /// The client was entered in the registry.
    Registered,
    /// The receive handle on the broadcast channel was obtained.
    Subscribed,
    /// The protocol handshake with the peer failed.
    HandshakeFailed,
    /// The peer sent a close signal, or its stream ended.
    PeerClosed,
    /// The peer sent a ping with this payload.
    PeerPing(Vec<u8>),
    /// The peer sent a text message.
    PeerText(String),
    /// The peer sent a message of another kind.
    PeerOther,
    /// Reading from the peer failed.
    PeerError,
    /// A message was published on the broadcast channel.
    Published(String),
    /// The channel overwrote this many messages before the connection read them.
    Lagged(u64),
    /// The broadcast channel was closed.
    ChannelClosed,
    /// Writing to the peer failed.
    WriteFailed,
}

/// What is to be done for a connection.
#[derive(Clone, Debug)]
pub enum ConnectionAction {
    /// Nothing.
    Nothing,
    /// Answer the peer's ping with a pong of the same payload.
    SendPong(Vec<u8>),
    /// Deliver this message to the peer, as one text message.
    SendText(String),
    /// Report that this many messages were missed, and go on.
    ReportLag(u64),
    /// Take the client out of the registry and end the connection.
    Unregister,
}

impl ConnectionState {
    /// Whether the connection takes part in the broadcast.
    pub open spec fn is_live(self) -> bool {
        self == ConnectionState::Subscribed || self == ConnectionState::Streaming || self
            == ConnectionState::Lagging
    }

    /// Whether the connection is in the registry.
    pub open spec fn is_registered(self) -> bool {
        self == ConnectionState::Registered || self.is_live()
    }

    /// Whether `event` ends a connection.
    pub open spec fn ends(event: ConnectionEvent) -> bool {
        event is HandshakeFailed || event is PeerClosed || event is PeerError
            || event is ChannelClosed || event is WriteFailed
    }

    /// The state after `event`.
    pub open spec fn after(self, event: ConnectionEvent) -> ConnectionState {
        if self == ConnectionState::Closed || Self::ends(event) {
            ConnectionState::Closed
        } else {
            match (self, event) {
                (ConnectionState::Accepted, ConnectionEvent::Registered) => {
                    ConnectionState::Registered
                },
                (ConnectionState::Registered, ConnectionEvent::Subscribed) => {
                    ConnectionState::Subscribed
                },
                (_, ConnectionEvent::Published(_)) => if self.is_live() {
                    ConnectionState::Streaming
                } else {
                    self
                },
                (_, ConnectionEvent::Lagged(_)) => if self.is_live() {
                    ConnectionState::Lagging
                } else {
                    self
                },
                _ => self,
            }
        }
    }

    /// What is to be done when `event` happens in this state.
    pub open spec fn action(self, event: ConnectionEvent) -> ConnectionAction {
        if self == ConnectionState::Closed {
            ConnectionAction::Nothing
        } else if Self::ends(event) {
            ConnectionAction::Unregister
        } else {
            match event {
                ConnectionEvent::PeerPing(payload) => if self.is_live() {
                    ConnectionAction::SendPong(payload)
                } else {
                    ConnectionAction::Nothing
                },
                ConnectionEvent::Published(message) => if self.is_live() {
                    ConnectionAction::SendText(message)
                } else {
                    ConnectionAction::Nothing
                },
                ConnectionEvent::Lagged(missed) => if self.is_live() {
                    ConnectionAction::ReportLag(missed)
                } else {
                    ConnectionAction::Nothing
                },
                _ => ConnectionAction::Nothing,
            }
        }
    }

    /// The state in which every connection starts.
    pub fn start() -> (r: ConnectionState)
        ensures
            r == ConnectionState::Accepted,
    {
        ConnectionState::Accepted
    }

    /// Tells whether the connection takes part in the broadcast.
    pub fn live(self) -> (r: bool)
        ensures
            r == self.is_live(),
    {
        match self {
            ConnectionState::Subscribed | ConnectionState::Streaming | ConnectionState::Lagging => {
                true
            },
            _ => false,
        }
    }

    /// Tells whether the connection is over.
    pub fn closed(self) -> (r: bool)
        ensures
            r == (self == ConnectionState::Closed),
    {
        match self {
            ConnectionState::Closed => true,
            _ => false,
        }
    }

    /// Takes one event in: the state that follows, and what is to be done.
    pub fn step(self, event: ConnectionEvent) -> (r: (ConnectionState, ConnectionAction))
        ensures
            r.0 == self.after(event),
            r.1 == self.action(event),
    {
        if self.closed() {
            return (ConnectionState::Closed, ConnectionAction::Nothing);
        }
        let live = self.live();
        match event {
            ConnectionEvent::HandshakeFailed
            | ConnectionEvent::PeerClosed
            | ConnectionEvent::PeerError
            | ConnectionEvent::ChannelClosed
            | ConnectionEvent::WriteFailed => (ConnectionState::Closed, ConnectionAction::Unregister),
            ConnectionEvent::Registered => match self {
                ConnectionState::Accepted => (ConnectionState::Registered, ConnectionAction::Nothing),
                _ => (self, ConnectionAction::Nothing),
            },
            ConnectionEvent::Subscribed => match self {
                ConnectionState::Registered => (
                    ConnectionState::Subscribed,
                    ConnectionAction::Nothing,
                ),
                _ => (self, ConnectionAction::Nothing),
            },
            ConnectionEvent::PeerPing(payload) => if live {
                (self, ConnectionAction::SendPong(payload))
            } else {
                (self, ConnectionAction::Nothing)
            },
            ConnectionEvent::PeerText(_) => (self, ConnectionAction::Nothing),
            ConnectionEvent::PeerOther => (self, ConnectionAction::Nothing),
            ConnectionEvent::Published(message) => if live {
                (ConnectionState::Streaming, ConnectionAction::SendText(message))
            } else {
                (self, ConnectionAction::Nothing)
            },
            ConnectionEvent::Lagged(missed) => if live {
                (ConnectionState::Lagging, ConnectionAction::ReportLag(missed))
            } else {
                (self, ConnectionAction::Nothing)
            },
        }
    }
}

/// The state after a run of events.
pub open spec fn state_after(start: ConnectionState, events: Seq<ConnectionEvent>) -> ConnectionState
    decreases events.len(),
{
    if events.len() == 0 {
        start
    } else {
        state_after(start, events.drop_last()).after(events.last())
    }
}

/// How often a run of events asks to take the client out of the registry.
pub open spec fn unregistrations(start: ConnectionState, events: Seq<ConnectionEvent>) -> nat
    decreases events.len(),
{
    if events.len() == 0 {
        0
    } else {
        let before = unregistrations(start, events.drop_last());
        if state_after(start, events.drop_last()).action(events.last()) is Unregister {
            before + 1
        } else {
            before
        }
    }
}

/// A closed connection stays closed, and nothing is done for it any more.
pub proof fn lemma_closed_is_final(event: ConnectionEvent)
    ensures
        ConnectionState::Closed.after(event) == ConnectionState::Closed,
        ConnectionState::Closed.action(event) is Nothing,
{
}

/// Falling behind never ends a connection: the lag is reported, and the
/// next message that is published is delivered again.
pub proof fn lemma_lag_is_survived(state: ConnectionState, missed: u64, message: String)
    requires
        state.is_live(),
    ensures
        state.after(ConnectionEvent::Lagged(missed)) == ConnectionState::Lagging,
        state.action(ConnectionEvent::Lagged(missed)) == ConnectionAction::ReportLag(missed),
        ConnectionState::Lagging.after(ConnectionEvent::Published(message))
            == ConnectionState::Streaming,
        ConnectionState::Lagging.action(ConnectionEvent::Published(message))
            == ConnectionAction::SendText(message),
{
}

/// A live connection delivers each published message once, and as it was
/// published.
pub proof fn lemma_published_is_delivered(state: ConnectionState, message: String)
    requires
        state.is_live(),
    ensures
        state.action(ConnectionEvent::Published(message)) == ConnectionAction::SendText(message),
        state.after(ConnectionEvent::Published(message)).is_live(),
{
}

/// The client is taken out of the registry exactly when its connection goes
/// from open to closed.
pub proof fn lemma_unregister_on_close(state: ConnectionState, event: ConnectionEvent)
    ensures
        state.action(event) is Unregister <==> state != ConnectionState::Closed && state.after(
            event,
        ) == ConnectionState::Closed,
{
}

/// Over any run of events a client is taken out of the registry at most
/// once, and exactly once where the run ends a connection that was open.
pub proof fn lemma_unregistered_once(start: ConnectionState, events: Seq<ConnectionEvent>)
    ensures
        unregistrations(start, events) <= 1,
        unregistrations(start, events) == 1 <==> start != ConnectionState::Closed && state_after(
            start,
            events,
        ) == ConnectionState::Closed,
    decreases events.len(),
{
    if events.len() > 0 {
        lemma_unregistered_once(start, events.drop_last());
        lemma_unregister_on_close(state_after(start, events.drop_last()), events.last());
        lemma_closed_stays(start, events.drop_last());
    }
}

/// A run that starts closed ends closed.
pub proof fn lemma_closed_stays(start: ConnectionState, events: Seq<ConnectionEvent>)
    ensures
        start == ConnectionState::Closed ==> state_after(start, events) == ConnectionState::Closed,
    decreases events.len(),
{
    if events.len() > 0 {
        lemma_closed_stays(start, events.drop_last());
    }
}

} // verus!
