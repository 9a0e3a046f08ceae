//! The vocabulary of a behaviour: what the swarm tells it, what it asks of
//! the swarm, and the trait that every behaviour implements.

use crate::connection::ConnectionId;
use crate::handler::ConnectionHandler;
use crate::task::Poll;
use libp2p_core::transport::ListenerId;
use libp2p_core::{ConnectedPoint, Multiaddr};
use libp2p_identity::PeerId;
use std::task::Context;
use vstd::prelude::*;

verus! {

/// Why a dial did not lead to a connection.
pub enum DialError {
    /// The peer is banned.
    Banned,
    /// The limit on connections has been reached.
    ConnectionLimit {
        /// The most connections allowed.
        limit: u32,
        /// The connections counted when the dial was refused.
        current: u32,
    },
    /// The peer dialed is the local peer.
    LocalPeerId,
    /// No address is known for the peer.
    NoAddresses,
    /// The condition set for the dial did not hold.
    DialPeerConditionFalse,
    /// The dial was given up.
    Aborted,
    /// The address holds a peer identifier that cannot be read.
    InvalidPeerId,
    /// The peer reached is not the one dialed.
    WrongPeerId {
        /// The peer that answered.
        obtained: PeerId,
        /// Where it was reached.
        endpoint: ConnectedPoint,
    },
    /// Reading or writing on the connection failed, with the system's words
    /// for it.
    ConnectionIo(String),
    /// No address could be reached; each comes with the transport's words
    /// for its failure.
    Transport(Vec<(Multiaddr, String)>),
}

/// A connection to a peer has been established.
pub struct ConnectionEstablished {
    /// The peer at the other end.
    pub peer_id: PeerId,
    /// The new connection.
    pub connection_id: ConnectionId,
    /// The two ends of the connection.
    pub endpoint: ConnectedPoint,
    /// The addresses that were tried without success before this one.
    pub failed_addresses: Vec<Multiaddr>,
    /// How many other connections to the peer are open.
    pub other_established: usize,
}

/// A connection to a peer has been closed. Its handler comes with the
/// notice: the connection no longer has one.
pub struct ConnectionClosed<Handler> {
    /// The peer at the other end.
    pub peer_id: PeerId,
    /// The connection that was closed.
    pub connection_id: ConnectionId,
    /// The two ends of the connection.
    pub endpoint: ConnectedPoint,
    /// The handler that ran on the connection.
    pub handler: Handler,
    /// How many connections to the peer are still open.
    pub remaining_established: usize,
}

/// One end of a connection has moved.
pub struct AddressChange {
    /// The peer at the other end.
    pub peer_id: PeerId,
    /// The connection concerned.
    pub connection_id: ConnectionId,
    /// The ends before the change.
    pub old_endpoint: ConnectedPoint,
    /// The ends after the change.
    pub new_endpoint: ConnectedPoint,
}

/// A dial has failed.
pub struct DialFailure<Handler> {
    /// The peer that was dialed, where it was known.
    pub peer_id: Option<PeerId>,
    /// The handler that had been made for the connection.
    pub handler: Handler,
    /// Why the dial failed.
    pub error: DialError,
}

/// An incoming connection has failed before it was established.
pub struct ListenFailure<Handler> {
    /// The local address that was connected to.
    pub local_addr: Multiaddr,
    /// The address to answer the remote at.
    pub send_back_addr: Multiaddr,
    /// The handler that had been made for the connection.
    pub handler: Handler,
}

/// A listener has been started.
pub struct NewListener {
    /// The listener.
    pub listener_id: ListenerId,
}

/// A listener listens on one more address.
pub struct NewListenAddr {
    /// The listener.
    pub listener_id: ListenerId,
    /// The address.
    pub addr: Multiaddr,
}

/// A listener no longer listens on an address.
pub struct ExpiredListenAddr {
    /// The listener.
    pub listener_id: ListenerId,
    /// The address.
    pub addr: Multiaddr,
}

/// A listener has met an error that did not stop it.
pub struct ListenerError {
    /// The listener.
    pub listener_id: ListenerId,
    /// The listener's words for the error.
    pub err: String,
}

/// A listener has stopped.
pub struct ListenerClosed {
    /// The listener.
    pub listener_id: ListenerId,
    /// Whether it was stopped in order, or else the system's words for what
    /// stopped it.
    pub reason: Result<(), String>,
}

/// The local node can be reached at one more address.
pub struct NewExternalAddr {
    /// The address.
    pub addr: Multiaddr,
}

/// The local node can no longer be reached at an address.
pub struct ExpiredExternalAddr {
    /// The address.
    pub addr: Multiaddr,
}

/// What the swarm tells a behaviour. The set of variants is closed: a
/// behaviour deals with every one of them.
pub enum FromSwarm<Handler> {
    /// A connection to a peer has been established.
    ConnectionEstablished(ConnectionEstablished),
    /// A connection to a peer has been closed.
    ConnectionClosed(ConnectionClosed<Handler>),
    /// One end of a connection has moved.
    AddressChange(AddressChange),
    /// A dial has failed.
    DialFailure(DialFailure<Handler>),
    /// An incoming connection has failed before it was established.
    ListenFailure(ListenFailure<Handler>),
    /// A listener has been started.
    NewListener(NewListener),
    /// A listener listens on one more address.
    NewListenAddr(NewListenAddr),
    /// A listener no longer listens on an address.
    ExpiredListenAddr(ExpiredListenAddr),
    /// A listener has met an error that did not stop it.
    ListenerError(ListenerError),
    /// A listener has stopped.
    ListenerClosed(ListenerClosed),
    /// The local node can be reached at one more address.
    NewExternalAddr(NewExternalAddr),
    /// The local node can no longer be reached at an address.
    ExpiredExternalAddr(ExpiredExternalAddr),
}

/// Whom to dial.
pub struct DialOpts {
    /// The peer to reach, where it is known.
    pub peer_id: Option<PeerId>,
    /// The addresses to try.
    pub addresses: Vec<Multiaddr>,
}

/// Which handlers of a peer an event is for.
pub enum NotifyHandler {
    /// The handler of this connection.
    One(ConnectionId),
    /// The handler of any one connection to the peer.
    Any,
}

/// Which connections to a peer to close.
pub enum CloseConnection {
    /// This connection.
    One(ConnectionId),
    /// Every connection to the peer.
    All,
}

/// How much an observed address is to be trusted.
pub enum AddressScore {
    /// A score that further reports can raise.
    Finite(u32),
    /// The address is certain.
    Infinite,
}

/// What a behaviour asks of the swarm.
#[allow(inconsistent_fields)]
pub enum NetworkBehaviourAction<TOutEvent, THandler: ConnectionHandler> {
    /// Hand an event to the application.
    GenerateEvent(TOutEvent),
    /// Dial a peer.
    Dial {
        /// Whom to dial.
        opts: DialOpts,
        /// The handler for the connection, once it is established.
        handler: THandler,
    },
    /// Hand an event to a handler.
    NotifyHandler {
        /// The peer whose handler is meant.
        peer_id: PeerId,
        /// Which of the peer's handlers.
        handler: NotifyHandler,
        /// The event.
        event: THandler::InEvent,
    },
    /// Report an address under which a remote has seen the local node.
    ReportObservedAddr {
        /// The address.
        address: Multiaddr,
        /// How much it is to be trusted.
        score: AddressScore,
    },
    /// Close connections to a peer.
    CloseConnection {
        /// The peer.
        peer_id: PeerId,
        /// Which of its connections.
        connection: CloseConnection,
    },
}

/// The component that sees every connection of the swarm: it makes the
/// handler for each new connection, hears from the handlers and from the
/// swarm, and asks the swarm to act.
///
/// For each method that hears or answers there is a relation that says what
/// the method can do. The trait leaves every relation open; a behaviour that
/// is verified narrows them to what it does, and a behaviour written without
/// proofs has nothing to add.
pub trait NetworkBehaviour: Sized {
    /// The handler that runs on each connection.
    type ConnectionHandler: ConnectionHandler;

    /// What the behaviour hands to the application.
    type OutEvent;

    /// Whether hearing `event` from the swarm can take the behaviour from
    /// `before` to `after`.
    open spec fn swarm_event_step(
        before: Self,
        event: FromSwarm<Self::ConnectionHandler>,
        after: Self,
    ) -> bool {
        true
    }

    /// Whether hearing `event` from the handler of `connection` can take the
    /// behaviour from `before` to `after`.
    open spec fn handler_event_step(
        before: Self,
        peer_id: PeerId,
        connection: ConnectionId,
        event: <Self::ConnectionHandler as ConnectionHandler>::OutEvent,
        after: Self,
    ) -> bool {
        true
    }

    /// Whether a poll can take the behaviour from `before` to `after` and
    /// return `out`.
    open spec fn poll_step(
        before: Self,
        after: Self,
        out: Poll<NetworkBehaviourAction<Self::OutEvent, Self::ConnectionHandler>>,
    ) -> bool {
        true
    }

    /// Makes the handler for a new connection. Each call makes a handler of
    /// its own.
    fn new_handler(&mut self) -> Self::ConnectionHandler;

    /// Hands over an event that the handler of `connection` has sent.
    fn on_connection_handler_event(
        &mut self,
        peer_id: PeerId,
        connection: ConnectionId,
        event: <Self::ConnectionHandler as ConnectionHandler>::OutEvent,
    )
        ensures
            Self::handler_event_step(*old(self), peer_id, connection, event, *final(self)),
    ;

    /// Asks the behaviour whether it has anything for the swarm to do.
    fn poll(&mut self, cx: &mut Context<'_>) -> (out: Poll<
        NetworkBehaviourAction<Self::OutEvent, Self::ConnectionHandler>,
    >)
        ensures
            Self::poll_step(*old(self), *final(self), out),
    ;

    /// Tells the behaviour an event of the swarm.
    fn on_swarm_event(&mut self, event: FromSwarm<Self::ConnectionHandler>)
        ensures
            Self::swarm_event_step(*old(self), event, *final(self)),
    ;
}

/// Whether hearing `events` from the swarm, first to last, can take a
/// behaviour from `before` to `after`.
pub open spec fn swarm_event_steps<B: NetworkBehaviour>(
    before: B,
    events: Seq<FromSwarm<B::ConnectionHandler>>,
    after: B,
) -> bool
    decreases events.len(),
{
    if events.len() == 0 {
        after == before
    } else {
        exists|between: B| #[trigger]
            B::swarm_event_step(before, events[0], between) && swarm_event_steps(
                between,
                events.drop_first(),
                after,
            )
    }
}

} // verus!
